//! Users and bots.

use crate::types::primitive::Integer;
use vstd::prelude::*;

verus! {

/// A user or a bot.
#[derive(Debug, Clone, PartialEq, Eq)]
pub struct User {
    /// Unique identifier.
    pub id: Integer,
    /// Whether this user is a bot.
    pub is_bot: bool,
    /// First name.
    pub first_name: String,
    /// Last name.
    pub last_name: Option<String>,
    /// Username.
    pub username: Option<String>,
    /// IETF language tag of the user's language.
    pub language_code: Option<String>,
}

} // verus!
