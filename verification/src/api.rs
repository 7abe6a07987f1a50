//! How failures are shown to the interface: each as a text and a number
//! that stays the same from release to release. Failures of different kinds
//! have different numbers, and no failure is shown without a text.

use crate::books::ManagerError;
use crate::models::BookError;
use vstd::prelude::*;
use vstd::std_specs::convert::FromSpecImpl;
use vstd::string::*;

verus! {

/// The number of a failure of the window.
pub const WINDOW_FAILED: i64 = 11;

/// The number of a failure to read or write the settings.
pub const SETTINGS_FAILED: i64 = 30;

/// A failure as the interface gets it.
#[derive(Debug, Clone)]
pub struct ApiError {
    pub error: String,
    pub code: i64,
}

/// A failure of a command that is no failure of the catalogue.
#[derive(Debug)]
pub enum CommandError {
    /// The user closed a dialog without choosing.
    UserAborted,
}

/// A failure for the interface as a plain value.
pub struct ApiModel {
    pub error: Seq<char>,
    pub code: i64,
}

impl View for ApiError {
    type V = ApiModel;

    open spec fn view(&self) -> ApiModel {
        ApiModel { error: self.error@, code: self.code }
    }
}

/// The text that is shown: the text of the failure, or `name` where the
/// failure has no text.
pub open spec fn shown_text(text: Seq<char>, name: Seq<char>) -> Seq<char> {
    if text.len() == 0 {
        name
    } else {
        text
    }
}

/// How a failure of a store is shown.
pub open spec fn of_book_error(e: BookError) -> ApiModel {
    match e {
        BookError::Generic(s) => ApiModel { error: shown_text(s@, "Generic(\"\")"@), code: 40 },
        BookError::NotFound => ApiModel { error: "NotFound"@, code: 41 },
        BookError::DBError(s) => ApiModel { error: shown_text(s@, "DBError(\"\")"@), code: 42 },
        BookError::EmptyAuthors => ApiModel { error: "EmptyAuthors"@, code: 43 },
    }
}

/// How a failure of the open catalogues is shown. A failure of a store is
/// shown as the store's.
pub open spec fn of_manager_error(e: ManagerError) -> ApiModel {
    match e {
        ManagerError::PoolAlreadyAdded => ApiModel { error: "PoolAlreadyAdded"@, code: 20 },
        ManagerError::PoolNotFound => ApiModel { error: "PoolNotFound"@, code: 21 },
        ManagerError::CurrentPoolNotSet => ApiModel { error: "CurrentPoolNotSet"@, code: 22 },
        ManagerError::BookError(b) => of_book_error(b),
        ManagerError::ConversionFailed => ApiModel { error: "ConversionFailed"@, code: 23 },
    }
}

/// How a failure of a command is shown.
pub open spec fn of_command_error(e: CommandError) -> ApiModel {
    match e {
        CommandError::UserAborted => ApiModel { error: "UserAborted"@, code: 1 },
    }
}

/// The text of a failure, or `name` where the failure has no text.
fn text_or_name(text: String, name: &str) -> (shown: String)
    ensures
        shown@ == shown_text(text@, name@),
{
    if text.as_str().is_empty() {
        String::from_str(name)
    } else {
        text
    }
}

impl ApiError {
    /// A failure with the given text and number.
    pub fn new(error: String, code: i64) -> (e: ApiError)
        ensures
            e@ == (ApiModel { error: error@, code }),
    {
        ApiError { error, code }
    }
}

impl Default for ApiError {
    /// No text and the number zero, which is the number of no failure.
    fn default() -> (e: ApiError)
        ensures
            e@ == (ApiModel { error: Seq::empty(), code: 0 }),
    {
        let e = ApiError { error: String::new(), code: 0 };
        assert(e.error@ =~= Seq::<char>::empty());
        e
    }
}

impl From<BookError> for ApiError {
    /// Shows a failure of a store.
    fn from(value: BookError) -> (e: ApiError)
        ensures
            e@ == of_book_error(value),
    {
        match value {
            BookError::Generic(s) => ApiError { error: text_or_name(s, "Generic(\"\")"), code: 40 },
            BookError::NotFound => ApiError { error: String::from_str("NotFound"), code: 41 },
            BookError::DBError(s) => ApiError { error: text_or_name(s, "DBError(\"\")"), code: 42 },
            BookError::EmptyAuthors => ApiError {
                error: String::from_str("EmptyAuthors"),
                code: 43,
            },
        }
    }
}

impl FromSpecImpl<BookError> for ApiError {
    open spec fn obeys_from_spec() -> bool {
        false
    }

    open spec fn from_spec(value: BookError) -> ApiError {
        arbitrary()
    }
}

impl From<ManagerError> for ApiError {
    /// Shows a failure of the open catalogues.
    fn from(value: ManagerError) -> (e: ApiError)
        ensures
            e@ == of_manager_error(value),
    {
        match value {
            ManagerError::PoolAlreadyAdded => ApiError {
                error: String::from_str("PoolAlreadyAdded"),
                code: 20,
            },
            ManagerError::PoolNotFound => ApiError {
                error: String::from_str("PoolNotFound"),
                code: 21,
            },
            ManagerError::CurrentPoolNotSet => ApiError {
                error: String::from_str("CurrentPoolNotSet"),
                code: 22,
            },
            ManagerError::BookError(b) => ApiError::from(b),
            ManagerError::ConversionFailed => ApiError {
                error: String::from_str("ConversionFailed"),
                code: 23,
            },
        }
    }
}

impl FromSpecImpl<ManagerError> for ApiError {
    open spec fn obeys_from_spec() -> bool {
        false
    }

    open spec fn from_spec(value: ManagerError) -> ApiError {
        arbitrary()
    }
}

impl From<CommandError> for ApiError {
    /// Shows a failure of a command.
    fn from(value: CommandError) -> (e: ApiError)
        ensures
            e@ == of_command_error(value),
    {
        match value {
            CommandError::UserAborted => ApiError {
                error: String::from_str("UserAborted"),
                code: 1,
            },
        }
    }
}

impl FromSpecImpl<CommandError> for ApiError {
    open spec fn obeys_from_spec() -> bool {
        false
    }

    open spec fn from_spec(value: CommandError) -> ApiError {
        arbitrary()
    }
}

/// The kind of a failure of a store, as a number of its own.
pub open spec fn book_error_kind(e: BookError) -> int {
    match e {
        BookError::Generic(_) => 0,
        BookError::NotFound => 1,
        BookError::DBError(_) => 2,
        BookError::EmptyAuthors => 3,
    }
}

/// The kind of a failure of the open catalogues, as a number of its own. A
/// failure of a store has the kind of the store's failure.
pub open spec fn manager_error_kind(e: ManagerError) -> int {
    match e {
        ManagerError::PoolAlreadyAdded => 4,
        ManagerError::PoolNotFound => 5,
        ManagerError::CurrentPoolNotSet => 6,
        ManagerError::BookError(b) => book_error_kind(b),
        ManagerError::ConversionFailed => 7,
    }
}

/// The numbers tell the failures apart: two failures that are shown under
/// the same number are of the same kind. No failure is shown under the
/// number of a command that the user left, of the window or of the
/// settings.
pub proof fn codes_tell_failures_apart(a: ManagerError, b: ManagerError)
    ensures
        of_manager_error(a).code == of_manager_error(b).code ==> manager_error_kind(a)
            == manager_error_kind(b),
        of_manager_error(a).code != of_command_error(CommandError::UserAborted).code,
        of_manager_error(a).code != WINDOW_FAILED,
        of_manager_error(a).code != SETTINGS_FAILED,
        of_manager_error(a).code != 0,
{
}

/// No failure is shown without a text.
pub proof fn every_failure_has_a_text(e: ManagerError)
    ensures
        of_manager_error(e).error.len() > 0,
        of_command_error(CommandError::UserAborted).error.len() > 0,
{
    reveal_strlit("Generic(\"\")");
    reveal_strlit("NotFound");
    reveal_strlit("DBError(\"\")");
    reveal_strlit("EmptyAuthors");
    reveal_strlit("PoolAlreadyAdded");
    reveal_strlit("PoolNotFound");
    reveal_strlit("CurrentPoolNotSet");
    reveal_strlit("ConversionFailed");
    reveal_strlit("UserAborted");
}

} // verus!
