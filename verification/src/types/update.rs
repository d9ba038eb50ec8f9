//! Inbound events.

use crate::types::primitive::Integer;
use vstd::prelude::*;

verus! {

/// The populated variant of an update, with the identities it carries.
#[derive(Debug, Clone, Copy, PartialEq, Eq)]
pub enum UpdateKind {
    /// A message in a chat; `user` is its author where there is one.
    Message { chat: Integer, user: Option<Integer> },
    /// An edited message in a chat.
    EditedMessage { chat: Integer, user: Option<Integer> },
    /// A post in a channel.
    ChannelPost { chat: Integer },
    /// An edited post in a channel.
    EditedChannelPost { chat: Integer },
    /// An inline query from a user.
    InlineQuery { user: Integer },
    /// The result of an inline query that a user chose.
    ChosenInlineResult { user: Integer },
    /// A callback query from a user, with the chat of the message it
    /// belongs to where there is one.
    CallbackQuery { user: Integer, chat: Option<Integer> },
    /// A shipping query from a user.
    ShippingQuery { user: Integer },
    /// A pre-checkout query from a user.
    PreCheckoutQuery { user: Integer },
    /// A change of a poll's state, which carries no identity.
    Poll,
}

/// One event delivered by the remote API: its identifier and what the
/// session layer and the dispatch loop read of its content.
#[derive(Debug, Clone, Copy, PartialEq, Eq)]
pub struct Update {
    /// Identifier, non-decreasing across fetches.
    pub id: Integer,
    /// The populated variant.
    pub kind: UpdateKind,
}

} // verus!
