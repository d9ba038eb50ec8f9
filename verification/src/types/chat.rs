//! Chat identity and permissions.

use crate::types::primitive::Integer;
use vstd::prelude::*;
use vstd::std_specs::convert::FromSpecImpl;

verus! {

/// The target chat of a method: its numeric identifier or the public
/// username of a channel or supergroup.
#[derive(Debug, Clone, PartialEq, Eq)]
pub enum ChatId {
    /// Unique numeric identifier.
    Id(Integer),
    /// Username, in the form `@name`.
    Username(String),
}

impl From<Integer> for ChatId {
    fn from(id: Integer) -> (chat: ChatId) {
        ChatId::Id(id)
    }
}

impl FromSpecImpl<Integer> for ChatId {
    open spec fn obeys_from_spec() -> bool {
        true
    }

    open spec fn from_spec(id: Integer) -> ChatId {
        ChatId::Id(id)
    }
}

impl From<String> for ChatId {
    fn from(username: String) -> (chat: ChatId) {
        ChatId::Username(username)
    }
}

impl FromSpecImpl<String> for ChatId {
    open spec fn obeys_from_spec() -> bool {
        true
    }

    open spec fn from_spec(username: String) -> ChatId {
        ChatId::Username(username)
    }
}

/// What a member of a chat may do. A flag left unset is not sent at all,
/// which the remote tells apart from `false`.
#[derive(Debug, Clone, Copy, PartialEq, Eq)]
pub struct ChatPermissions {
    /// Text messages, contacts, locations and venues.
    pub can_send_messages: Option<bool>,
    /// Audios, documents, photos, videos, video notes and voice notes.
    pub can_send_media_messages: Option<bool>,
    /// Polls.
    pub can_send_polls: Option<bool>,
    /// Animations, games, stickers and inline bots.
    pub can_send_other_messages: Option<bool>,
    /// Web page previews.
    pub can_add_web_page_previews: Option<bool>,
    /// Changing the chat title, photo and other settings.
    pub can_change_info: Option<bool>,
    /// Inviting new users.
    pub can_invite_users: Option<bool>,
    /// Pinning messages.
    pub can_pin_messages: Option<bool>,
}

impl Default for ChatPermissions {
    /// No flag set.
    fn default() -> (p: ChatPermissions)
        ensures
            p == ChatPermissions::unset(),
    {
        ChatPermissions {
            can_send_messages: None,
            can_send_media_messages: None,
            can_send_polls: None,
            can_send_other_messages: None,
            can_add_web_page_previews: None,
            can_change_info: None,
            can_invite_users: None,
            can_pin_messages: None,
        }
    }
}

impl ChatPermissions {
    /// The permissions with no flag set.
    pub open spec fn unset() -> ChatPermissions {
        ChatPermissions::uniform(None)
    }

    /// The permissions with every flag holding `flag`.
    pub open spec fn uniform(flag: Option<bool>) -> ChatPermissions {
        ChatPermissions {
            can_send_messages: flag,
            can_send_media_messages: flag,
            can_send_polls: flag,
            can_send_other_messages: flag,
            can_add_web_page_previews: flag,
            can_change_info: flag,
            can_invite_users: flag,
            can_pin_messages: flag,
        }
    }

    /// Every flag set to `false`.
    pub fn restricted() -> (p: ChatPermissions)
        ensures
            p == ChatPermissions::uniform(Some(false)),
    {
        ChatPermissions {
            can_send_messages: Some(false),
            can_send_media_messages: Some(false),
            can_send_polls: Some(false),
            can_send_other_messages: Some(false),
            can_add_web_page_previews: Some(false),
            can_change_info: Some(false),
            can_invite_users: Some(false),
            can_pin_messages: Some(false),
        }
    }

    /// Every flag set to `true`.
    pub fn allowed() -> (p: ChatPermissions)
        ensures
            p == ChatPermissions::uniform(Some(true)),
    {
        ChatPermissions {
            can_send_messages: Some(true),
            can_send_media_messages: Some(true),
            can_send_polls: Some(true),
            can_send_other_messages: Some(true),
            can_add_web_page_previews: Some(true),
            can_change_info: Some(true),
            can_invite_users: Some(true),
            can_pin_messages: Some(true),
        }
    }

    /// Sets whether text messages, contacts, locations and venues may be sent.
    pub fn with_send_messages(self, flag: bool) -> (p: ChatPermissions)
        ensures
            p == (ChatPermissions { can_send_messages: Some(flag), ..self }),
    {
        ChatPermissions { can_send_messages: Some(flag), ..self }
    }

    /// Sets whether media messages may be sent.
    pub fn with_send_media_messages(self, flag: bool) -> (p: ChatPermissions)
        ensures
            p == (ChatPermissions { can_send_media_messages: Some(flag), ..self }),
    {
        ChatPermissions { can_send_media_messages: Some(flag), ..self }
    }

    /// Sets whether polls may be sent.
    pub fn with_send_polls(self, flag: bool) -> (p: ChatPermissions)
        ensures
            p == (ChatPermissions { can_send_polls: Some(flag), ..self }),
    {
        ChatPermissions { can_send_polls: Some(flag), ..self }
    }

    /// Sets whether animations, games, stickers and inline bots may be used.
    pub fn with_send_other_messages(self, flag: bool) -> (p: ChatPermissions)
        ensures
            p == (ChatPermissions { can_send_other_messages: Some(flag), ..self }),
    {
        ChatPermissions { can_send_other_messages: Some(flag), ..self }
    }

    /// Sets whether web page previews may be added.
    pub fn with_add_web_page_previews(self, flag: bool) -> (p: ChatPermissions)
        ensures
            p == (ChatPermissions { can_add_web_page_previews: Some(flag), ..self }),
    {
        ChatPermissions { can_add_web_page_previews: Some(flag), ..self }
    }

    /// Sets whether the chat's settings may be changed.
    pub fn with_change_info(self, flag: bool) -> (p: ChatPermissions)
        ensures
            p == (ChatPermissions { can_change_info: Some(flag), ..self }),
    {
        ChatPermissions { can_change_info: Some(flag), ..self }
    }

    /// Sets whether new users may be invited.
    pub fn with_invite_users(self, flag: bool) -> (p: ChatPermissions)
        ensures
            p == (ChatPermissions { can_invite_users: Some(flag), ..self }),
    {
        ChatPermissions { can_invite_users: Some(flag), ..self }
    }

    /// Sets whether messages may be pinned.
    pub fn with_pin_messages(self, flag: bool) -> (p: ChatPermissions)
        ensures
            p == (ChatPermissions { can_pin_messages: Some(flag), ..self }),
    {
        ChatPermissions { can_pin_messages: Some(flag), ..self }
    }
}

} // verus!
