//! How a request fails.
use vstd::prelude::*;

verus! {

/// The messages by which clients tell failures apart.
#[derive(Clone, Copy, Debug, PartialEq, Eq, Structural)]
pub enum Message {
    BioLengthOverflow,
    CantBlockYourself,
    CouldntFindThatUsernameOrEmail,
    CouldntUpdateComment,
    CouldntUpdatePrivateMessage,
    CouldntUpdateUser,
    EmailAlreadyExists,
    EmailNotVerified,
    InvalidMatrixId,
    InvalidUsername,
    PasswordIncorrect,
    PasswordsDontMatch,
    PersonBlockAlreadyExists,
    TokenNotFound,
    UserAlreadyExists,
}

impl Message {
    /// The message as clients see it.
    pub open spec fn spelled(self) -> Seq<char> {
        match self {
            Message::BioLengthOverflow => "bio_length_overflow"@,
            Message::CantBlockYourself => "cant_block_yourself"@,
            Message::CouldntFindThatUsernameOrEmail => "couldnt_find_that_username_or_email"@,
            Message::CouldntUpdateComment => "couldnt_update_comment"@,
            Message::CouldntUpdatePrivateMessage => "couldnt_update_private_message"@,
            Message::CouldntUpdateUser => "couldnt_update_user"@,
            Message::EmailAlreadyExists => "email_already_exists"@,
            Message::EmailNotVerified => "email_not_verified"@,
            Message::InvalidMatrixId => "invalid_matrix_id"@,
            Message::InvalidUsername => "invalid_username"@,
            Message::PasswordIncorrect => "password_incorrect"@,
            Message::PasswordsDontMatch => "passwords_dont_match"@,
            Message::PersonBlockAlreadyExists => "person_block_already_exists"@,
            Message::TokenNotFound => "token_not_found"@,
            Message::UserAlreadyExists => "user_already_exists"@,
        }
    }

    /// Spells the message.
    pub fn as_str(self) -> (text: &'static str)
        ensures
            text@ == self.spelled(),
    {
        match self {
            Message::BioLengthOverflow => "bio_length_overflow",
            Message::CantBlockYourself => "cant_block_yourself",
            Message::CouldntFindThatUsernameOrEmail => "couldnt_find_that_username_or_email",
            Message::CouldntUpdateComment => "couldnt_update_comment",
            Message::CouldntUpdatePrivateMessage => "couldnt_update_private_message",
            Message::CouldntUpdateUser => "couldnt_update_user",
            Message::EmailAlreadyExists => "email_already_exists",
            Message::EmailNotVerified => "email_not_verified",
            Message::InvalidMatrixId => "invalid_matrix_id",
            Message::InvalidUsername => "invalid_username",
            Message::PasswordIncorrect => "password_incorrect",
            Message::PasswordsDontMatch => "passwords_dont_match",
            Message::PersonBlockAlreadyExists => "person_block_already_exists",
            Message::TokenNotFound => "token_not_found",
            Message::UserAlreadyExists => "user_already_exists",
        }
    }
}

/// An error raised by the server's own work, by the text that it prints.
#[derive(Debug, PartialEq, Eq)]
pub struct OutsideError {
    pub text: String,
}

/// Why a piece of work failed.
#[derive(Debug, PartialEq, Eq)]
pub enum Fault {
    /// The error is complete as it stands: a check that refused, a token that did not decode, a
    /// database that could not be reached. No request changes it.
    Refused(OutsideError),
    /// The database was reached and its statement failed. A request may put a message on it.
    Database(OutsideError),
}

/// The failure of a request.
#[derive(Debug, PartialEq, Eq)]
pub enum LemmyError {
    /// The request itself refuses, with this message.
    Message(Message),
    /// A piece of work failed. Where a message is given, it replaces whatever the error carried.
    Outside(OutsideError, Option<Message>),
    /// The creator of the site is not on the list of its administrators.
    CreatorNotAmongAdmins,
}

impl Fault {
    /// The error itself.
    pub open spec fn error(self) -> OutsideError {
        match self {
            Fault::Refused(error) => error,
            Fault::Database(error) => error,
        }
    }

    /// The failure, unchanged.
    pub open spec fn as_it_is(self) -> LemmyError {
        LemmyError::Outside(self.error(), None)
    }

    /// The failure, with a message put on it where it came from a statement.
    pub open spec fn labelled(self, message: Message) -> LemmyError {
        match self {
            Fault::Refused(error) => LemmyError::Outside(error, None),
            Fault::Database(error) => LemmyError::Outside(error, Some(message)),
        }
    }

    /// Fails with the error as it is.
    pub fn pass(self) -> (error: LemmyError)
        ensures
            error == self.as_it_is(),
    {
        match self {
            Fault::Refused(error) => LemmyError::Outside(error, None),
            Fault::Database(error) => LemmyError::Outside(error, None),
        }
    }

    /// Fails with the error, under a message where it came from a statement.
    pub fn with_message(self, message: Message) -> (error: LemmyError)
        ensures
            error == self.labelled(message),
    {
        match self {
            Fault::Refused(error) => LemmyError::Outside(error, None),
            Fault::Database(error) => LemmyError::Outside(error, Some(message)),
        }
    }
}

} // verus!
