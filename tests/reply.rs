use dbus_error::dbus_error::{create_error_reply_from_method_call, DBusError, MethodError};
use dbus_error::error::Error;
use dbus_error::message::{Message, MessageType};
use dbus_error::names::ErrorName;

fn call(serial: u32) -> Message {
    Message {
        msg_type: MessageType::MethodCall,
        serial,
        reply_serial: None,
        path: Some("/org/example/Disk".to_string()),
        interface: Some("org.example.Disk".to_string()),
        member: Some("Write".to_string()),
        error_name: None,
        destination: Some("org.example".to_string()),
        sender: Some(":1.42".to_string()),
        body: None,
    }
}

fn failed(description: Option<&str>) -> MethodError<'_> {
    MethodError { name: ErrorName::try_from("org.example.Failed").unwrap(), description }
}

#[test]
fn reply_with_description() {
    let reply = create_error_reply_from_method_call(failed(Some("disk full")), &call(7)).unwrap();
    assert_eq!(reply.msg_type, MessageType::Error);
    assert_eq!(reply.reply_serial, Some(7));
    assert_eq!(reply.error_name.as_deref(), Some("org.example.Failed"));
    assert_eq!(reply.body.as_deref(), Some("disk full"));
    assert_eq!(reply.destination.as_deref(), Some(":1.42"));
    assert_eq!(reply.sender, None);
    assert_eq!(reply.serial, 0);
}

#[test]
fn reply_without_description_has_no_body() {
    let reply = create_error_reply_from_method_call(failed(None), &call(7)).unwrap();
    assert_eq!(reply.reply_serial, Some(7));
    assert_eq!(reply.error_name.as_deref(), Some("org.example.Failed"));
    assert_eq!(reply.body, None);
}

#[test]
fn reply_keeps_empty_description() {
    let reply = create_error_reply_from_method_call(failed(Some("")), &call(3)).unwrap();
    assert_eq!(reply.body.as_deref(), Some(""));
}

#[test]
fn reply_serial_follows_call() {
    for serial in [1, 2, 7, 1000, u32::MAX] {
        let reply = create_error_reply_from_method_call(failed(None), &call(serial)).unwrap();
        assert_eq!(reply.reply_serial, Some(serial));
    }
}

#[test]
fn reply_to_call_without_sender() {
    let mut c = call(9);
    c.sender = None;
    let reply = create_error_reply_from_method_call(failed(None), &c).unwrap();
    assert_eq!(reply.destination, None);
    assert_eq!(reply.reply_serial, Some(9));
}

#[test]
fn malformed_call_is_rejected() {
    let mut c = call(0);
    assert_eq!(create_error_reply_from_method_call(failed(Some("disk full")), &c), Err(Error::InvalidHeader));
    c.serial = 5;
    c.member = None;
    assert_eq!(create_error_reply_from_method_call(failed(None), &c), Err(Error::InvalidHeader));
    c.member = Some("Write".to_string());
    c.msg_type = MessageType::MethodReturn;
    assert_eq!(create_error_reply_from_method_call(failed(None), &c), Err(Error::InvalidHeader));
}

#[test]
fn name_is_deterministic() {
    let e = failed(Some("disk full"));
    assert_eq!(e.name(), e.name());
    assert_eq!(e.name().as_str(), "org.example.Failed");
}

#[test]
fn description_is_exact_or_absent() {
    assert_eq!(failed(None).description(), None);
    assert_eq!(failed(Some("disk full")).description(), Some("disk full"));
    assert_eq!(failed(Some("  spaced \n")).description(), Some("  spaced \n"));
}

#[test]
fn header_of_each_kind() {
    assert!(call(1).header().is_ok());
    assert_eq!(call(1).header().unwrap().serial(), 1);

    let mut ret = call(2);
    ret.msg_type = MessageType::MethodReturn;
    assert!(ret.header().is_err());
    ret.reply_serial = Some(1);
    assert!(ret.header().is_ok());

    let mut err = call(3);
    err.msg_type = MessageType::Error;
    err.reply_serial = Some(1);
    assert!(err.header().is_err());
    err.error_name = Some("NoDots".to_string());
    assert_eq!(err.header().err(), Some(Error::InvalidHeader));
    err.error_name = Some("org.example.Failed".to_string());
    assert!(err.header().is_ok());

    let mut sig = call(4);
    sig.msg_type = MessageType::Signal;
    assert!(sig.header().is_ok());
    sig.interface = None;
    assert!(sig.header().is_err());

    let mut no_path = call(5);
    no_path.path = None;
    assert!(no_path.header().is_err());
}

#[test]
fn method_error_builds_reply_from_header() {
    let c = call(11);
    let hdr = c.header().unwrap();
    let reply = failed(Some("disk full")).create_reply(&hdr).unwrap();
    assert_eq!(reply.reply_serial, Some(11));
    assert!(reply.header().is_err());
    let reply = Message::method_error(&hdr, ErrorName::try_from("a.B").unwrap(), None);
    assert_eq!(reply.error_name.as_deref(), Some("a.B"));
    assert_eq!(reply.body, None);
}
