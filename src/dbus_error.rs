use crate::error::Error;
use crate::message::{
    error_reply, has_valid_header, str_opt_view, Message, MessageHeader, MessageType, MessageView,
};
use crate::names::ErrorName;
use vstd::prelude::*;

verus! {

/// The reply `m` answers the call `call` as an error named `name`.
pub open spec fn is_error_reply_to(m: MessageView, call: MessageView, name: Seq<char>) -> bool {
    &&& m.msg_type == MessageType::Error
    &&& m.reply_serial == Some(call.serial)
    &&& m.destination == call.sender
    &&& m.error_name == Some(name)
}

/// A built message, or the failure, as values.
pub open spec fn result_view(r: Result<Message, Error>) -> Result<MessageView, Error> {
    match r {
        Ok(m) => Ok(m@),
        Err(e) => Err(e),
    }
}

/// A trait that error types implement to be returned from D-Bus methods.
///
/// Building the reply depends on the error value and the call alone: the
/// same error and the same call give the same reply, or the same failure.
pub trait DBusError {
    /// The name that `name` returns.
    spec fn spec_name(&self) -> Seq<char>;

    /// The description that `description` returns.
    spec fn spec_description(&self) -> Option<Seq<char>>;

    /// What `create_reply` returns for a call with the given header.
    spec fn spec_reply(&self, call: MessageView) -> Result<MessageView, Error>;

    /// A reply that is built answers the call under the error's name, and a
    /// failure to build one is never a fault of the call's header, which
    /// was read before.
    proof fn lemma_reply_answers_call(&self, call: MessageView)
        requires
            has_valid_header(call),
        ensures
            self.spec_reply(call) matches Ok(m) ==> is_error_reply_to(m, call, self.spec_name()),
            self.spec_reply(call) matches Err(e) ==> !(e is InvalidHeader),
    ;

    /// Generates an error reply message for the given method call.
    fn create_reply(&self, call: &MessageHeader<'_>) -> (r: Result<Message, Error>)
        ensures
            result_view(r) == self.spec_reply(call@),
    ;

    /// The name of the error. Every D-Bus error has one.
    fn name(&self) -> (r: ErrorName<'_>)
        ensures
            r@ == self.spec_name(),
    ;

    /// The description of the error, if it has one.
    fn description(&self) -> (r: Option<&str>)
        ensures
            str_opt_view(r) == self.spec_description(),
    ;
}

/// What `create_error_reply_from_method_call` returns: the failure to read
/// the call's header where it is not valid, and otherwise what the error
/// builds for that header.
pub open spec fn error_reply_from_method_call<E: DBusError>(error: E, call: MessageView) -> Result<
    MessageView,
    Error,
> {
    if has_valid_header(call) {
        error.spec_reply(call)
    } else {
        Err(Error::InvalidHeader)
    }
}

/// Reads the header of `call` and has `error` build its reply to it.
pub fn create_error_reply_from_method_call<E: DBusError>(error: E, call: &Message) -> (r: Result<
    Message,
    Error,
>)
    ensures
        result_view(r) == error_reply_from_method_call(error, call@),
        r matches Err(e) ==> (e is InvalidHeader <==> !has_valid_header(call@)),
        r matches Ok(m) ==> is_error_reply_to(m@, call@, error.spec_name()),
{
    let hdr = call.header()?;
    let r = error.create_reply(&hdr);
    proof {
        error.lemma_reply_answers_call(call@);
    }
    r
}

/// An error with a name and an optional description, whose reply carries the
/// description, when there is one, as its only argument.
pub struct MethodError<'a> {
    pub name: ErrorName<'a>,
    pub description: Option<&'a str>,
}

impl<'a> DBusError for MethodError<'a> {
    open spec fn spec_name(&self) -> Seq<char> {
        self.name@
    }

    open spec fn spec_description(&self) -> Option<Seq<char>> {
        str_opt_view(self.description)
    }

    open spec fn spec_reply(&self, call: MessageView) -> Result<MessageView, Error> {
        Ok(error_reply(call, self.name@, str_opt_view(self.description)))
    }

    proof fn lemma_reply_answers_call(&self, call: MessageView) {
    }

    fn create_reply(&self, call: &MessageHeader<'_>) -> (r: Result<Message, Error>) {
        Ok(Message::method_error(call, self.name, self.description))
    }

    fn name(&self) -> (r: ErrorName<'_>) {
        self.name
    }

    fn description(&self) -> (r: Option<&str>) {
        self.description
    }
}

/// For every call with a valid header, the reply to a `MethodError` is built
/// and answers the call's serial.
pub proof fn lemma_method_error_reply_correlates(error: MethodError, call: MessageView)
    requires
        has_valid_header(call),
    ensures
        error_reply_from_method_call(error, call) matches Ok(m) && m.reply_serial == Some(
            call.serial,
        ),
{
}

/// For every error type and every call with a valid header, a reply that is
/// built answers the call's serial.
pub proof fn lemma_reply_correlates<E: DBusError>(error: E, call: MessageView)
    requires
        has_valid_header(call),
    ensures
        error_reply_from_method_call(error, call) matches Ok(m) ==> m.reply_serial == Some(
            call.serial,
        ),
{
    error.lemma_reply_answers_call(call);
}

/// A call whose header cannot be read gets the header failure, whatever the
/// error is and whatever it would build.
pub proof fn lemma_malformed_call_rejected<E: DBusError>(error: E, call: MessageView)
    requires
        !has_valid_header(call),
    ensures
        error_reply_from_method_call(error, call) == Err::<MessageView, Error>(
            Error::InvalidHeader,
        ),
{
}

/// The header failure comes only from the call: for a call with a valid
/// header no error type's reply fails that way.
pub proof fn lemma_header_failure_only_from_call<E: DBusError>(error: E, call: MessageView)
    requires
        has_valid_header(call),
    ensures
        error_reply_from_method_call(error, call) matches Err(e) ==> !(e is InvalidHeader),
{
    error.lemma_reply_answers_call(call);
}

/// The name of an error depends on the error alone: two calls of `name` on
/// one error give the same name.
pub proof fn lemma_name_deterministic<E: DBusError>(error: E, first: ErrorName, second: ErrorName)
    requires
        first@ == error.spec_name(),
        second@ == error.spec_name(),
    ensures
        first@ == second@,
{
}

} // verus!
