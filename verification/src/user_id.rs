//! Matrix user identifiers.

use ruma::UserId;
use vstd::prelude::*;

use crate::error::{ClientError, ClientErrorView};

verus! {

/// Why a text is no user identifier.
#[derive(Debug, PartialEq, Eq)]
pub struct InvalidUserId {
    /// The reason in words.
    pub message: String,
    /// The reason as it appears in a log.
    pub debug: String,
}

/// What an [`InvalidUserId`] says.
pub struct InvalidUserIdView {
    pub message: Seq<char>,
    pub debug: Seq<char>,
}

impl View for InvalidUserId {
    type V = InvalidUserIdView;

    open spec fn view(&self) -> InvalidUserIdView {
        InvalidUserIdView { message: self.message@, debug: self.debug@ }
    }
}

/// The result of `ruma::UserId::parse` on the text `id`: the user identifier, or the error as it
/// is displayed and as it is logged.
pub uninterp spec fn parsed_user_id(id: Seq<char>) -> Result<Seq<char>, (Seq<char>, Seq<char>)>;

/// Calls `ruma::UserId::parse`, whose result depends on the text alone: the identifier grammar
/// decides whether it is a user identifier and, if not, which error says why. A user identifier
/// is kept letter for letter.
#[verifier::external_body]
pub(crate) fn parse_user_id(id: &str) -> (parsed: Result<String, InvalidUserId>)
    ensures
        match parsed {
            Ok(user_id) => parsed_user_id(id@) == Ok::<Seq<char>, (Seq<char>, Seq<char>)>(user_id@)
                && user_id@ == id@,
            Err(reason) => parsed_user_id(id@) == Err::<Seq<char>, (Seq<char>, Seq<char>)>(
                (reason@.message, reason@.debug),
            ),
        },
{
    match UserId::parse(id) {
        Ok(user_id) => Ok(user_id.as_str().to_owned()),
        Err(error) => Err(InvalidUserId { message: error.to_string(), debug: format!("{error:?}") }),
    }
}

/// The error that reports an invalid user identifier.
pub open spec fn invalid_user_id_error(reason: InvalidUserIdView) -> ClientErrorView {
    ClientErrorView { msg: reason.message, details: Some(reason.debug) }
}

impl InvalidUserId {
    /// The error that reports this reason.
    pub fn into_error(self) -> (error: ClientError)
        ensures
            error@ == invalid_user_id_error(self@),
    {
        ClientError { msg: self.message, details: Some(self.debug) }
    }
}

} // verus!
