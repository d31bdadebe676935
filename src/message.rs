use crate::error::Error;
use crate::names::{valid_error_name, ErrorName};
use vstd::prelude::*;

verus! {

/// The four kinds of D-Bus message.
#[derive(Clone, Copy, Debug, PartialEq, Eq, Structural)]
pub enum MessageType {
    MethodCall,
    MethodReturn,
    Error,
    Signal,
}

/// A D-Bus message: its header fields and, for the messages this crate
/// builds, a body of at most one string.
///
/// A serial of zero stands for a message that the connection has not
/// numbered yet; it does so when it sends the message.
#[derive(Clone, Debug, PartialEq, Eq)]
pub struct Message {
    pub msg_type: MessageType,
    pub serial: u32,
    pub reply_serial: Option<u32>,
    pub path: Option<String>,
    pub interface: Option<String>,
    pub member: Option<String>,
    pub error_name: Option<String>,
    pub destination: Option<String>,
    pub sender: Option<String>,
    pub body: Option<String>,
}

/// A message as values: its text fields as sequences of characters.
pub struct MessageView {
    pub msg_type: MessageType,
    pub serial: u32,
    pub reply_serial: Option<u32>,
    pub path: Option<Seq<char>>,
    pub interface: Option<Seq<char>>,
    pub member: Option<Seq<char>>,
    pub error_name: Option<Seq<char>>,
    pub destination: Option<Seq<char>>,
    pub sender: Option<Seq<char>>,
    pub body: Option<Seq<char>>,
}

pub open spec fn opt_view(s: Option<String>) -> Option<Seq<char>> {
    match s {
        Some(t) => Some(t@),
        None => None,
    }
}

pub open spec fn str_opt_view(s: Option<&str>) -> Option<Seq<char>> {
    match s {
        Some(t) => Some(t@),
        None => None,
    }
}

impl View for Message {
    type V = MessageView;

    open spec fn view(&self) -> MessageView {
        MessageView {
            msg_type: self.msg_type,
            serial: self.serial,
            reply_serial: self.reply_serial,
            path: opt_view(self.path),
            interface: opt_view(self.interface),
            member: opt_view(self.member),
            error_name: opt_view(self.error_name),
            destination: opt_view(self.destination),
            sender: opt_view(self.sender),
            body: opt_view(self.body),
        }
    }
}

/// The header fields that a message of the given kind must carry are there,
/// an error name among them is a valid one, and the message is numbered.
pub open spec fn has_valid_header(m: MessageView) -> bool {
    &&& m.serial != 0
    &&& match m.msg_type {
        MessageType::MethodCall => m.path is Some && m.member is Some,
        MessageType::MethodReturn => m.reply_serial is Some,
        MessageType::Error => m.reply_serial is Some && (m.error_name matches Some(n)
            && valid_error_name(n)),
        MessageType::Signal => m.path is Some && m.interface is Some && m.member is Some,
    }
}

/// The error reply to `call` with the given name and description: it answers
/// `call`'s serial, goes back to `call`'s sender, and carries the description,
/// when there is one, as its only argument.
pub open spec fn error_reply(
    call: MessageView,
    name: Seq<char>,
    description: Option<Seq<char>>,
) -> MessageView {
    MessageView {
        msg_type: MessageType::Error,
        serial: 0,
        reply_serial: Some(call.serial),
        path: None,
        interface: None,
        member: None,
        error_name: Some(name),
        destination: call.sender,
        sender: None,
        body: description,
    }
}

fn copy_text(s: &Option<String>) -> (r: Option<String>)
    ensures
        r == *s,
{
    match s {
        Some(t) => Some(t.clone()),
        None => None,
    }
}

fn copy_str(s: Option<&str>) -> (r: Option<String>)
    ensures
        opt_view(r) == str_opt_view(s),
{
    match s {
        Some(t) => Some(t.to_owned()),
        None => None,
    }
}

/// The header of a message whose header is valid, borrowed from the message.
pub struct MessageHeader<'m> {
    msg: &'m Message,
}

impl<'m> View for MessageHeader<'m> {
    type V = MessageView;

    closed spec fn view(&self) -> MessageView {
        self.msg@
    }
}

impl<'m> MessageHeader<'m> {
    #[verifier::type_invariant]
    closed spec fn inv(self) -> bool {
        has_valid_header(self.msg@)
    }

    /// The message this header belongs to.
    pub fn message(&self) -> (r: &'m Message)
        ensures
            r@ == self@,
            has_valid_header(r@),
    {
        proof {
            use_type_invariant(self);
        }
        self.msg
    }

    /// The serial of the message, never zero.
    pub fn serial(&self) -> (r: u32)
        ensures
            r == self@.serial,
            r != 0,
    {
        proof {
            use_type_invariant(self);
        }
        self.msg.serial
    }
}

impl Message {
    /// Reads the header of the message, failing where it is not valid.
    pub fn header(&self) -> (r: Result<MessageHeader<'_>, Error>)
        ensures
            r is Ok <==> has_valid_header(self@),
            r matches Ok(h) ==> h@ == self@,
            r matches Err(e) ==> e is InvalidHeader,
    {
        let fields_present = match self.msg_type {
            MessageType::MethodCall => self.path.is_some() && self.member.is_some(),
            MessageType::MethodReturn => self.reply_serial.is_some(),
            MessageType::Error => self.reply_serial.is_some() && match &self.error_name {
                Some(n) => ErrorName::try_from(n.as_str()).is_ok(),
                None => false,
            },
            MessageType::Signal => self.path.is_some() && self.interface.is_some()
                && self.member.is_some(),
        };
        if self.serial == 0 || !fields_present {
            return Err(Error::InvalidHeader);
        }
        Ok(MessageHeader { msg: self })
    }

    /// Builds the error reply to the call whose header is `call`, named `name`
    /// and carrying `description` when there is one.
    pub fn method_error(call: &MessageHeader<'_>, name: ErrorName<'_>, description: Option<&str>) -> (r: Message)
        ensures
            r@ == error_reply(call@, name@, str_opt_view(description)),
    {
        let msg = call.message();
        Message {
            msg_type: MessageType::Error,
            serial: 0,
            reply_serial: Some(msg.serial),
            path: None,
            interface: None,
            member: None,
            error_name: Some(name.as_str().to_owned()),
            destination: copy_text(&msg.sender),
            sender: None,
            body: copy_str(description),
        }
    }
}

} // verus!
