//! Validation helpers for common textual data: currency amounts, dates and
//! times, e-mail addresses, URLs, credit card numbers, phone numbers, and
//! simple string and numeric predicates.

use vstd::prelude::*;

pub mod credit_card;
pub mod currency;
pub mod date;
pub mod email;
pub mod matching;
pub mod mobile;
pub mod numeric;
pub mod string;
pub mod text;
pub mod url;

pub use credit_card::is_valid_credit_card;
pub use currency::is_currency;
pub use date::is_valid_date;
pub use email::is_valid_email;
pub use mobile::is_valid_phone;
pub use numeric::{is_in_range, is_negative, is_positive};
pub use string::{is_alpha, is_alphanumeric, is_numeric};
pub use url::is_valid_url;

verus! {

/// Common result type used across validators.
pub type ValidationResult = Result<(), ValidationError>;

/// Error type for validation failures.
#[derive(Debug, Clone, PartialEq, Eq)]
pub struct ValidationError {
    pub field: String,
    pub message: String,
}

impl ValidationError {
    pub fn new(field: &str, message: &str) -> (r: Self)
        ensures
            r.field@ == field@,
            r.message@ == message@,
    {
        ValidationError { field: field.to_owned(), message: message.to_owned() }
    }
}

} // verus!
