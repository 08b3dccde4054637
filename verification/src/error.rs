//! The error that methods of the controller report.

use vstd::prelude::*;

verus! {

/// An error with a message for the user and, where there is one, a technical description.
#[derive(Debug, PartialEq, Eq)]
pub struct ClientError {
    pub msg: String,
    pub details: Option<String>,
}

/// What a [`ClientError`] says.
pub struct ClientErrorView {
    pub msg: Seq<char>,
    pub details: Option<Seq<char>>,
}

impl View for ClientError {
    type V = ClientErrorView;

    open spec fn view(&self) -> ClientErrorView {
        ClientErrorView {
            msg: self.msg@,
            details: match self.details {
                Some(details) => Some(details@),
                None => None,
            },
        }
    }
}

/// The error that consists of `msg` alone.
pub open spec fn plain_error(msg: Seq<char>) -> ClientErrorView {
    ClientErrorView { msg, details: None }
}

impl ClientError {
    /// An error with this message and these details.
    pub fn from_str(msg: &str, details: Option<String>) -> (error: ClientError)
        ensures
            error@.msg == msg@,
            error@.details == (match details {
                Some(details) => Some(details@),
                None => None,
            }),
    {
        ClientError { msg: msg.to_owned(), details }
    }

    /// An error whose message is `prefix` followed by `cause`.
    pub fn caused_by(prefix: &str, cause: &str) -> (error: ClientError)
        ensures
            error@ == plain_error(prefix@ + cause@),
    {
        let mut msg: String = prefix.to_owned();
        msg.append(cause);
        ClientError { msg, details: None }
    }
}

} // verus!
