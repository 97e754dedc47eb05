//! What can go wrong, and how the driver's own account of it is read.

use libloading::Error as LoadFailure;
use vstd::prelude::*;
use vstd::std_specs::convert::FromSpecImpl;
use vstd::string::to_string_from_display_ensures;
use vstd::utf8::{decode_utf8, valid_utf8};
use crate::exchange::{Step, Turn};
use crate::ffi::{Call, CallView, Payload, Reply};

verus! {

/// The failures this library reports.
#[derive(Debug)]
pub enum Error {
    /// The driver refused a call. The text is the driver's own where it gave
    /// one, else the library's.
    WalabotError(String),
    /// The driver's shared library could not be loaded, or lacks a symbol.
    SharedLib(LoadFailure),
}

/// An [`Error`] with its text as a sequence of characters.
pub enum ErrorView {
    WalabotError(Seq<char>),
    SharedLib(LoadFailure),
}

impl View for Error {
    type V = ErrorView;

    open spec fn view(&self) -> ErrorView {
        match self {
            Error::WalabotError(text) => ErrorView::WalabotError(text@),
            Error::SharedLib(source) => ErrorView::SharedLib(*source),
        }
    }
}

/// `String::from_utf8` of std: the text that the bytes encode where they are
/// well-formed UTF-8, and nothing where they are not.
#[verifier::external_body]
fn decode(bytes: &[u8]) -> (text: Option<String>)
    ensures
        text is Some <==> valid_utf8(bytes@),
        text matches Some(decoded) ==> decoded@ == decode_utf8(bytes@),
{
    String::from_utf8(bytes.to_vec()).ok()
}

impl FromSpecImpl<LoadFailure> for Error {
    open spec fn obeys_from_spec() -> bool {
        true
    }

    open spec fn from_spec(source: LoadFailure) -> Error {
        Error::SharedLib(source)
    }
}

impl From<LoadFailure> for Error {
    /// The error for a shared library that could not be loaded or searched.
    fn from(source: LoadFailure) -> (error: Error)
        ensures
            error == Error::SharedLib(source),
    {
        Error::SharedLib(source)
    }
}

impl Error {
    /// The text that stands in where the driver gives none that can be read.
    pub open spec fn fallback() -> Seq<char> {
        "unknown error"@
    }

    /// The driver's account of its last error, as `reply` carries it: the text
    /// it decodes to, or the fallback where the reply holds no text or bytes
    /// that are no UTF-8.
    pub open spec fn account(reply: Reply) -> Seq<char> {
        match reply.text() {
            Some(bytes) => if valid_utf8(bytes) {
                decode_utf8(bytes)
            } else {
                Error::fallback()
            },
            None => Error::fallback(),
        }
    }

    /// The conversation that turns a failed call into an error: one question
    /// for the driver's last error text, whose answer is the account.
    pub open spec fn inquiry(replies: Seq<Reply>) -> Step<Seq<char>> {
        if replies.len() == 0 {
            Step::Ask(CallView::GetErrorString)
        } else {
            Step::Done(Error::account(replies[0]))
        }
    }

    /// The error for a driver call that has just failed.
    ///
    /// Asks for the driver's last error text and wraps it. `replies` holds the
    /// replies to the calls asked for here so far.
    pub fn from_walabot(replies: &[Reply]) -> (turn: Turn<Error>)
        ensures
            match Error::inquiry(replies@) {
                Step::Ask(call) => turn.asks(call),
                Step::Done(account) => turn matches Turn::Done(error) && error@
                    == ErrorView::WalabotError(account),
            },
    {
        if replies.len() == 0 {
            return Turn::Ask(Call::GetErrorString, ());
        }
        let decoded: Option<String> = match &replies[0].payload {
            Payload::Text(bytes) => decode(bytes.as_slice()),
            _ => None,
        };
        match decoded {
            Some(text) => Turn::Done(Error::WalabotError(text)),
            None => Turn::Done(Error::WalabotError("unknown error".to_string())),
        }
    }

    /// What the error says of itself.
    pub open spec fn describes(self, text: Seq<char>) -> bool {
        match self {
            Error::WalabotError(account) => text == "Internal walabot error: "@ + account@,
            Error::SharedLib(source) => exists|shown: String|
                to_string_from_display_ensures::<LoadFailure>(&source, shown) && text
                    == "Shared library error: "@ + shown@,
        }
    }

    /// The error as a line of text.
    pub fn to_string(&self) -> (text: String)
        ensures
            self.describes(text@),
    {
        match self {
            Error::WalabotError(account) => {
                "Internal walabot error: ".to_string().concat(account.as_str())
            },
            Error::SharedLib(source) => {
                let shown: String = source.to_string();
                "Shared library error: ".to_string().concat(shown.as_str())
            },
        }
    }
}

} // verus!
