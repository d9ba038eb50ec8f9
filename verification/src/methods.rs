//! Methods of the remote API and their conversion into requests.

use crate::json::{
    json_string, member, object, optional_bool, optional_integer, string_text, EncodingError,
    ObjectWriter,
};
use crate::request::{RequestBody, RequestBuilder, RequestMethod};
use crate::text::{decimal, integer_text};
use crate::types::chat::{ChatId, ChatPermissions};
use crate::types::primitive::Integer;
use vstd::prelude::*;
use vstd::std_specs::convert::IntoSpec;
use vstd::utf8::encode_utf8;

verus! {

/// A call of the remote API: it owns its parameters, turns into a request
/// once, and names the shape of the answer it expects.
pub trait Method {
    /// What a successful answer decodes into.
    type Response;

    /// Turns the method into a request.
    fn into_request(self) -> Result<RequestBuilder, EncodingError>;
}

/// The members of a permissions object: one for each flag that is set, in
/// the order of the flags.
pub open spec fn permission_members(p: ChatPermissions) -> Seq<Seq<char>> {
    optional_bool("can_send_messages"@, p.can_send_messages) + optional_bool(
        "can_send_media_messages"@,
        p.can_send_media_messages,
    ) + optional_bool("can_send_polls"@, p.can_send_polls) + optional_bool(
        "can_send_other_messages"@,
        p.can_send_other_messages,
    ) + optional_bool("can_add_web_page_previews"@, p.can_add_web_page_previews) + optional_bool(
        "can_change_info"@,
        p.can_change_info,
    ) + optional_bool("can_invite_users"@, p.can_invite_users) + optional_bool(
        "can_pin_messages"@,
        p.can_pin_messages,
    )
}

/// Writes a permissions object.
pub fn permissions_text(p: &ChatPermissions) -> (text: String)
    ensures
        text@ == object(permission_members(*p)),
{
    let mut w = ObjectWriter::new();
    w.optional_boolean("can_send_messages", p.can_send_messages);
    w.optional_boolean("can_send_media_messages", p.can_send_media_messages);
    w.optional_boolean("can_send_polls", p.can_send_polls);
    w.optional_boolean("can_send_other_messages", p.can_send_other_messages);
    w.optional_boolean("can_add_web_page_previews", p.can_add_web_page_previews);
    w.optional_boolean("can_change_info", p.can_change_info);
    w.optional_boolean("can_invite_users", p.can_invite_users);
    w.optional_boolean("can_pin_messages", p.can_pin_messages);
    assert(w@ =~= permission_members(*p));
    w.finish()
}

/// Restricts a user in a supergroup, or lifts restrictions.
#[derive(Debug, Clone, PartialEq, Eq)]
pub struct RestrictChatMember {
    chat_id: ChatId,
    user_id: Integer,
    permissions: ChatPermissions,
    until_date: Option<Integer>,
}

/// The parameters of [`RestrictChatMember`] as a mathematical value.
pub struct RestrictModel {
    pub chat_id: ChatId,
    pub user_id: Integer,
    pub permissions: ChatPermissions,
    pub until_date: Option<Integer>,
}

impl View for RestrictChatMember {
    type V = RestrictModel;

    closed spec fn view(&self) -> RestrictModel {
        RestrictModel {
            chat_id: self.chat_id,
            user_id: self.user_id,
            permissions: self.permissions,
            until_date: self.until_date,
        }
    }
}

/// The JSON text of a chat identifier: a number, or the quoted username.
pub open spec fn chat_text(chat: ChatId) -> Seq<char> {
    match chat {
        ChatId::Id(id) => decimal(id as int),
        ChatId::Username(name) => json_string(name@),
    }
}

/// The members of the body of [`RestrictChatMember`], given the text of the
/// chat identifier. The date is a member only when it is set.
pub open spec fn restrict_members(m: RestrictModel, chat: Seq<char>) -> Seq<Seq<char>> {
    seq![
        member("chat_id"@, chat),
        member("user_id"@, decimal(m.user_id as int)),
        member("permissions"@, object(permission_members(m.permissions))),
    ] + optional_integer("until_date"@, m.until_date)
}

/// The name of the endpoint of [`RestrictChatMember`].
pub open spec fn restrict_endpoint() -> Seq<char> {
    "restrictChatMember"@
}

/// Whether `r` is the request that restricts with parameters `m`, the chat
/// identifier being written as `chat`.
pub open spec fn is_restrict_request(r: RequestBuilder, m: RestrictModel, chat: Seq<char>) -> bool {
    &&& r.endpoint@ == restrict_endpoint()
    &&& r.method == RequestMethod::Post
    &&& r.body matches RequestBody::Json(bytes) && bytes@ == encode_utf8(
        object(restrict_members(m, chat)),
    )
}

impl RestrictChatMember {
    /// A restriction of `user_id` in `chat_id` with no permission flag and
    /// no date set.
    pub fn new<C: Into<ChatId>>(chat_id: C, user_id: Integer) -> (r: RestrictChatMember)
        ensures
            r@.user_id == user_id,
            r@.permissions == ChatPermissions::unset(),
            r@.until_date == None::<Integer>,
            C::obeys_into_spec() ==> r@.chat_id == chat_id.into_spec(),
    {
        RestrictChatMember {
            chat_id: chat_id.into(),
            user_id,
            permissions: ChatPermissions::default(),
            until_date: None,
        }
    }

    /// Replaces the permissions.
    pub fn with_permissions(self, permissions: ChatPermissions) -> (r: RestrictChatMember)
        ensures
            r@ == (RestrictModel { permissions, ..self@ }),
    {
        let mut r = self;
        r.permissions = permissions;
        r
    }

    /// Restricts everything: every permission flag is `false`.
    pub fn restrict_all(self) -> (r: RestrictChatMember)
        ensures
            r@ == (RestrictModel { permissions: ChatPermissions::uniform(Some(false)), ..self@ }),
    {
        let mut r = self;
        r.permissions = ChatPermissions::restricted();
        r
    }

    /// Allows everything: every permission flag is `true`.
    pub fn allow_all(self) -> (r: RestrictChatMember)
        ensures
            r@ == (RestrictModel { permissions: ChatPermissions::uniform(Some(true)), ..self@ }),
    {
        let mut r = self;
        r.permissions = ChatPermissions::allowed();
        r
    }

    /// Sets the date, in unix time, when the restrictions are lifted.
    pub fn until_date(self, until_date: Integer) -> (r: RestrictChatMember)
        ensures
            r@ == (RestrictModel { until_date: Some(until_date), ..self@ }),
    {
        let mut r = self;
        r.until_date = Some(until_date);
        r
    }

    /// Sets whether the user may send text messages, contacts, locations
    /// and venues.
    pub fn can_send_messages(self, can_send_messages: bool) -> (r: RestrictChatMember)
        ensures
            r@ == (RestrictModel {
                permissions: ChatPermissions {
                    can_send_messages: Some(can_send_messages),
                    ..self@.permissions
                },
                ..self@
            }),
    {
        let mut r = self;
        r.permissions = r.permissions.with_send_messages(can_send_messages);
        r
    }

    /// Sets whether the user may send audios, documents, photos, videos,
    /// video notes and voice notes.
    pub fn can_send_media_messages(self, can_send_media_messages: bool) -> (r: RestrictChatMember)
        ensures
            r@ == (RestrictModel {
                permissions: ChatPermissions {
                    can_send_media_messages: Some(can_send_media_messages),
                    ..self@.permissions
                },
                ..self@
            }),
    {
        let mut r = self;
        r.permissions = r.permissions.with_send_media_messages(can_send_media_messages);
        r
    }

    /// Sets whether the user may send animations, games and stickers and
    /// use inline bots.
    pub fn can_send_other_messages(self, can_send_other_messages: bool) -> (r: RestrictChatMember)
        ensures
            r@ == (RestrictModel {
                permissions: ChatPermissions {
                    can_send_other_messages: Some(can_send_other_messages),
                    ..self@.permissions
                },
                ..self@
            }),
    {
        let mut r = self;
        r.permissions = r.permissions.with_send_other_messages(can_send_other_messages);
        r
    }

    /// Sets whether the user may add web page previews to messages.
    pub fn can_add_web_page_previews(self, can_add_web_page_previews: bool) -> (r:
        RestrictChatMember)
        ensures
            r@ == (RestrictModel {
                permissions: ChatPermissions {
                    can_add_web_page_previews: Some(can_add_web_page_previews),
                    ..self@.permissions
                },
                ..self@
            }),
    {
        let mut r = self;
        r.permissions = r.permissions.with_add_web_page_previews(can_add_web_page_previews);
        r
    }

    /// Builds the request from the text of the chat identifier, or hands
    /// on the failure to write that text.
    pub fn request_with(&self, chat: Result<String, EncodingError>) -> (r: Result<
        RequestBuilder,
        EncodingError,
    >)
        ensures
            match chat {
                Ok(text) => r matches Ok(request) && is_restrict_request(request, self@, text@),
                Err(e) => r == Err::<RequestBuilder, EncodingError>(e),
            },
    {
        match chat {
            Ok(text) => {
                let permissions = permissions_text(&self.permissions);
                let mut w = ObjectWriter::new();
                w.raw("chat_id", text.as_str());
                w.integer("user_id", self.user_id);
                w.raw("permissions", permissions.as_str());
                w.optional_number("until_date", self.until_date);
                assert(w@ =~= restrict_members(self@, text@));
                let body = w.finish();
                Ok(RequestBuilder::json("restrictChatMember", body.as_str()))
            },
            Err(e) => Err(e),
        }
    }
}

impl Method for RestrictChatMember {
    type Response = bool;

    /// The request is a `POST` to `restrictChatMember` whose body is the
    /// JSON object of the parameters. Every value of the method turns into
    /// a request: the result is `Ok`.
    fn into_request(self) -> (r: Result<RequestBuilder, EncodingError>)
        ensures
            r matches Ok(request) && is_restrict_request(
                request,
                self@,
                chat_text(self@.chat_id),
            ),
    {
        let chat = match &self.chat_id {
            ChatId::Id(id) => Ok(integer_text(*id)),
            ChatId::Username(name) => string_text(name.as_str()),
        };
        self.request_with(chat)
    }
}

/// Fetches the updates that are waiting, by long polling.
#[derive(Debug, Clone, Copy, PartialEq, Eq)]
pub struct GetUpdates {
    offset: Option<Integer>,
    limit: Option<Integer>,
    timeout: Option<Integer>,
}

/// The parameters of [`GetUpdates`] as a mathematical value.
pub struct GetUpdatesModel {
    pub offset: Option<Integer>,
    pub limit: Option<Integer>,
    pub timeout: Option<Integer>,
}

impl View for GetUpdates {
    type V = GetUpdatesModel;

    closed spec fn view(&self) -> GetUpdatesModel {
        GetUpdatesModel { offset: self.offset, limit: self.limit, timeout: self.timeout }
    }
}

/// The members of the body of [`GetUpdates`]: one for each parameter that
/// is set.
pub open spec fn get_updates_members(m: GetUpdatesModel) -> Seq<Seq<char>> {
    optional_integer("offset"@, m.offset) + optional_integer("limit"@, m.limit) + optional_integer(
        "timeout"@,
        m.timeout,
    )
}

/// Whether `r` is the request that fetches updates with parameters `m`.
pub open spec fn is_get_updates_request(r: RequestBuilder, m: GetUpdatesModel) -> bool {
    &&& r.endpoint@ == "getUpdates"@
    &&& r.method == RequestMethod::Post
    &&& r.body matches RequestBody::Json(bytes) && bytes@ == encode_utf8(
        object(get_updates_members(m)),
    )
}

/// The seconds of a timeout as the API's integer; a timeout too long for
/// it is the longest that fits.
pub open spec fn timeout_value(timeout: u64) -> Integer {
    if timeout > i64::MAX {
        i64::MAX
    } else {
        timeout as i64
    }
}

impl GetUpdates {
    /// A fetch with no parameter set.
    pub fn new() -> (r: GetUpdates)
        ensures
            r@ == (GetUpdatesModel { offset: None, limit: None, timeout: None }),
    {
        GetUpdates { offset: None, limit: None, timeout: None }
    }

    /// The fetch that the dispatch loop asks for: the updates from
    /// `offset` on, holding the connection for up to `timeout` seconds.
    pub fn poll(offset: Integer, timeout: u64) -> (r: GetUpdates)
        ensures
            r@ == (GetUpdatesModel {
                offset: Some(offset),
                limit: None,
                timeout: Some(timeout_value(timeout)),
            }),
    {
        let seconds: Integer = if timeout > 9223372036854775807u64 {
            i64::MAX
        } else {
            timeout as i64
        };
        GetUpdates { offset: Some(offset), limit: None, timeout: Some(seconds) }
    }

    /// Sets the identifier of the first update to be returned.
    pub fn offset(self, offset: Integer) -> (r: GetUpdates)
        ensures
            r@ == (GetUpdatesModel { offset: Some(offset), ..self@ }),
    {
        GetUpdates { offset: Some(offset), ..self }
    }

    /// Sets the limit on the number of updates in one answer.
    pub fn limit(self, limit: Integer) -> (r: GetUpdates)
        ensures
            r@ == (GetUpdatesModel { limit: Some(limit), ..self@ }),
    {
        GetUpdates { limit: Some(limit), ..self }
    }

    /// Sets the seconds for which the remote may hold the connection.
    pub fn timeout(self, timeout: Integer) -> (r: GetUpdates)
        ensures
            r@ == (GetUpdatesModel { timeout: Some(timeout), ..self@ }),
    {
        GetUpdates { timeout: Some(timeout), ..self }
    }
}

impl Method for GetUpdates {
    type Response = Vec<crate::types::update::Update>;

    /// The request is a `POST` to `getUpdates` whose body is the JSON
    /// object of the parameters that are set. It always succeeds.
    fn into_request(self) -> (r: Result<RequestBuilder, EncodingError>)
        ensures
            r matches Ok(request) && is_get_updates_request(request, self@),
    {
        let mut w = ObjectWriter::new();
        w.optional_number("offset", self.offset);
        w.optional_number("limit", self.limit);
        w.optional_number("timeout", self.timeout);
        assert(w@ =~= get_updates_members(self@));
        let body = w.finish();
        Ok(RequestBuilder::json("getUpdates", body.as_str()))
    }
}

/// A permissions object has one member for each flag that is set.
pub proof fn lemma_permission_member_count(p: ChatPermissions)
    ensures
        permission_members(p).len() == set_count(p.can_send_messages) + set_count(
            p.can_send_media_messages,
        ) + set_count(p.can_send_polls) + set_count(p.can_send_other_messages) + set_count(
            p.can_add_web_page_previews,
        ) + set_count(p.can_change_info) + set_count(p.can_invite_users) + set_count(
            p.can_pin_messages,
        ),
{
}

/// One for a flag that is set, zero for one that is not.
pub open spec fn set_count(flag: Option<bool>) -> nat {
    if flag is Some {
        1
    } else {
        0
    }
}

/// With no flag set the permissions object is empty; the date is a member
/// of the body exactly when it is set.
pub proof fn lemma_unset_is_omitted(m: RestrictModel, chat: Seq<char>)
    ensures
        permission_members(ChatPermissions::unset()) == Seq::<Seq<char>>::empty(),
        restrict_members(m, chat).len() == if m.until_date is Some {
            4int
        } else {
            3int
        },
        m.until_date matches Some(date) ==> restrict_members(m, chat)[3] == member(
            "until_date"@,
            decimal(date as int),
        ),
{
    assert(permission_members(ChatPermissions::unset()) =~= Seq::<Seq<char>>::empty());
}

} // verus!
