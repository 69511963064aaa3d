//! Update a user.
use vstd::prelude::*;
use vstd::string::StringExecFns;

use crate::json::{
    has_string, lemma_member_value_concat, lemma_member_value_single, member_value, members_view,
    object_text, render_object, JsonModel, JsonValue, Member,
};
use crate::request::{HttpMethod, RequestSpec};
use crate::response::ApiError;

verus! {

/// Request that updates a user. Only the fields that were set are sent: the
/// server replaces those and keeps the others. The two metadata fields hold
/// JSON values that the caller encoded; the server merges them into the
/// stored metadata on the first level only.
pub struct UserUpdate {
    pub user_id: String,
    pub blocked: Option<bool>,
    pub email: Option<String>,
    pub email_verified: Option<bool>,
    pub phone_number: Option<String>,
    pub phone_verified: Option<bool>,
    pub given_name: Option<String>,
    pub family_name: Option<String>,
    pub name: Option<String>,
    pub nickname: Option<String>,
    pub picture: Option<String>,
    pub password: Option<String>,
    pub connection: Option<String>,
    pub client_id: Option<String>,
    pub verify_email: Option<bool>,
    pub verify_phone_number: Option<bool>,
    pub app_metadata: Option<String>,
    pub user_metadata: Option<String>,
}

/// The member for a flag, if it was set.
pub open spec fn flag_member(key: Seq<char>, v: Option<bool>) -> Seq<(Seq<char>, JsonModel)> {
    match v {
        Some(b) => seq![(key, JsonModel::Bool(b))],
        None => Seq::empty(),
    }
}

/// The member for a string, if it was set.
pub open spec fn text_member(key: Seq<char>, v: Option<String>) -> Seq<(Seq<char>, JsonModel)> {
    match v {
        Some(s) => seq![(key, JsonModel::Str(s@))],
        None => Seq::empty(),
    }
}

/// The member for an encoded JSON value, if it was set.
pub open spec fn raw_member(key: Seq<char>, v: Option<String>) -> Seq<(Seq<char>, JsonModel)> {
    match v {
        Some(s) => seq![(key, JsonModel::Raw(s@))],
        None => Seq::empty(),
    }
}

/// The members of an update's body: each field that was set, in the order of
/// the fields of `UserUpdate`.
pub open spec fn update_members(u: UserUpdate) -> Seq<(Seq<char>, JsonModel)> {
    flag_member("blocked"@, u.blocked)
        + text_member("email"@, u.email)
        + flag_member("email_verified"@, u.email_verified)
        + text_member("phone_number"@, u.phone_number)
        + flag_member("phone_verified"@, u.phone_verified)
        + text_member("given_name"@, u.given_name)
        + text_member("family_name"@, u.family_name)
        + text_member("name"@, u.name)
        + text_member("nickname"@, u.nickname)
        + text_member("picture"@, u.picture)
        + text_member("password"@, u.password)
        + text_member("connection"@, u.connection)
        + text_member("client_id"@, u.client_id)
        + flag_member("verify_email"@, u.verify_email)
        + flag_member("verify_phone_number"@, u.verify_phone_number)
        + raw_member("app_metadata"@, u.app_metadata)
        + raw_member("user_metadata"@, u.user_metadata)
}

/// What a reader finds under a flag's key.
pub open spec fn flag_model(v: Option<bool>) -> Option<JsonModel> {
    match v {
        Some(b) => Some(JsonModel::Bool(b)),
        None => None,
    }
}

/// What a reader finds under a string's key.
pub open spec fn text_model(v: Option<String>) -> Option<JsonModel> {
    match v {
        Some(s) => Some(JsonModel::Str(s@)),
        None => None,
    }
}

/// What a reader finds under an encoded value's key.
pub open spec fn raw_model(v: Option<String>) -> Option<JsonModel> {
    match v {
        Some(s) => Some(JsonModel::Raw(s@)),
        None => None,
    }
}

/// The path of user `id`: `api/v2/users/{id}`.
pub open spec fn user_path(id: Seq<char>) -> Seq<char> {
    "api/v2/users/"@ + id
}

fn push_flag(ms: &mut Vec<Member>, key: &str, v: Option<bool>)
    ensures
        members_view(final(ms)@) == members_view(old(ms)@) + flag_member(key@, v),
{
    if let Some(b) = v {
        ms.push((String::from_str(key), JsonValue::Bool(b)));
    }
    assert(members_view(ms@) =~= members_view(old(ms)@) + flag_member(key@, v));
}

fn push_text(ms: &mut Vec<Member>, key: &str, v: &Option<String>)
    ensures
        members_view(final(ms)@) == members_view(old(ms)@) + text_member(key@, *v),
{
    if let Some(s) = v {
        ms.push((String::from_str(key), JsonValue::Str(s.clone())));
    }
    assert(members_view(ms@) =~= members_view(old(ms)@) + text_member(key@, *v));
}

fn push_raw(ms: &mut Vec<Member>, key: &str, v: &Option<String>)
    ensures
        members_view(final(ms)@) == members_view(old(ms)@) + raw_member(key@, *v),
{
    if let Some(s) = v {
        ms.push((String::from_str(key), JsonValue::Raw(s.clone())));
    }
    assert(members_view(ms@) =~= members_view(old(ms)@) + raw_member(key@, *v));
}

impl UserUpdate {
    /// An update of user `id` that changes nothing yet.
    pub fn new(id: &str) -> (r: Self)
        ensures
            r.user_id@ == id@,
            update_members(r) == Seq::<(Seq<char>, JsonModel)>::empty(),
            r.blocked is None && r.email is None && r.email_verified is None,
            r.phone_number is None && r.phone_verified is None,
            r.given_name is None && r.family_name is None && r.name is None,
            r.nickname is None && r.picture is None && r.password is None,
            r.connection is None && r.client_id is None,
            r.verify_email is None && r.verify_phone_number is None,
            r.app_metadata is None && r.user_metadata is None,
    {
        let r = UserUpdate {
            user_id: String::from_str(id),
            blocked: None,
            email: None,
            email_verified: None,
            phone_number: None,
            phone_verified: None,
            given_name: None,
            family_name: None,
            name: None,
            nickname: None,
            picture: None,
            password: None,
            connection: None,
            client_id: None,
            verify_email: None,
            verify_phone_number: None,
            app_metadata: None,
            user_metadata: None,
        };
        assert(update_members(r) =~= Seq::<(Seq<char>, JsonModel)>::empty());
        r
    }

    /// ID of the user which can be used when interacting with other APIs.
    pub fn user_id(&mut self, id: &str) -> (r: &mut Self)
        ensures
            r.user_id@ == id@,
            *r == (UserUpdate { user_id: r.user_id, ..*old(self) }),
            *final(self) == *final(r),
    {
        self.user_id = String::from_str(id);
        self
    }

    /// Whether this user was blocked by an administrator (true) or not (false).
    pub fn blocked(&mut self, blocked: bool) -> (r: &mut Self)
        ensures
            *r == (UserUpdate { blocked: Some(blocked), ..*old(self) }),
            *final(self) == *final(r),
    {
        self.blocked = Some(blocked);
        self
    }

    /// Email address of this user.
    pub fn email(&mut self, email: &str) -> (r: &mut Self)
        ensures
            r.email matches Some(v) && v@ == email@,
            *r == (UserUpdate { email: r.email, ..*old(self) }),
            *final(self) == *final(r),
    {
        self.email = Some(String::from_str(email));
        self
    }

    /// Whether this email address is verified (true) or unverified (false). If set to
    /// false the user will not receive a verification email unless `verify_email` is set
    /// to true.
    pub fn email_verified(&mut self, email_verified: bool) -> (r: &mut Self)
        ensures
            *r == (UserUpdate { email_verified: Some(email_verified), ..*old(self) }),
            *final(self) == *final(r),
    {
        self.email_verified = Some(email_verified);
        self
    }

    /// The user's phone number (following the E.164 recommendation), only valid for
    /// users from SMS connections.
    pub fn phone_number(&mut self, phone_number: &str) -> (r: &mut Self)
        ensures
            r.phone_number matches Some(v) && v@ == phone_number@,
            *r == (UserUpdate { phone_number: r.phone_number, ..*old(self) }),
            *final(self) == *final(r),
    {
        self.phone_number = Some(String::from_str(phone_number));
        self
    }

    /// Whether this phone number has been verified (true) or not (false).
    pub fn phone_verified(&mut self, phone_verified: bool) -> (r: &mut Self)
        ensures
            *r == (UserUpdate { phone_verified: Some(phone_verified), ..*old(self) }),
            *final(self) == *final(r),
    {
        self.phone_verified = Some(phone_verified);
        self
    }

    /// Given name/first name/forename of this user.
    pub fn given_name(&mut self, given_name: &str) -> (r: &mut Self)
        ensures
            r.given_name matches Some(v) && v@ == given_name@,
            *r == (UserUpdate { given_name: r.given_name, ..*old(self) }),
            *final(self) == *final(r),
    {
        self.given_name = Some(String::from_str(given_name));
        self
    }

    /// Family name/last name/surname of this user.
    pub fn family_name(&mut self, family_name: &str) -> (r: &mut Self)
        ensures
            r.family_name matches Some(v) && v@ == family_name@,
            *r == (UserUpdate { family_name: r.family_name, ..*old(self) }),
            *final(self) == *final(r),
    {
        self.family_name = Some(String::from_str(family_name));
        self
    }

    /// Name of this user.
    pub fn name(&mut self, name: &str) -> (r: &mut Self)
        ensures
            r.name matches Some(v) && v@ == name@,
            *r == (UserUpdate { name: r.name, ..*old(self) }),
            *final(self) == *final(r),
    {
        self.name = Some(String::from_str(name));
        self
    }

    /// Preferred nickname or alias of this user.
    pub fn nickname(&mut self, nickname: &str) -> (r: &mut Self)
        ensures
            r.nickname matches Some(v) && v@ == nickname@,
            *r == (UserUpdate { nickname: r.nickname, ..*old(self) }),
            *final(self) == *final(r),
    {
        self.nickname = Some(String::from_str(nickname));
        self
    }

    /// URL to picture, photo, or avatar of this user.
    pub fn picture(&mut self, picture: &str) -> (r: &mut Self)
        ensures
            r.picture matches Some(v) && v@ == picture@,
            *r == (UserUpdate { picture: r.picture, ..*old(self) }),
            *final(self) == *final(r),
    {
        self.picture = Some(String::from_str(picture));
        self
    }

    /// Whether this user will receive a verification email after creation (true) or no
    /// email (false). Overrides behavior of `email_verified`.
    pub fn verify_email(&mut self, verify_email: bool) -> (r: &mut Self)
        ensures
            *r == (UserUpdate { verify_email: Some(verify_email), ..*old(self) }),
            *final(self) == *final(r),
    {
        self.verify_email = Some(verify_email);
        self
    }

    /// Whether this user will receive a text after changing the phone number (true) or
    /// no text (false). Only valid when changing phone number.
    pub fn verify_phone_number(&mut self, verify_phone_number: bool) -> (r: &mut Self)
        ensures
            *r == (UserUpdate { verify_phone_number: Some(verify_phone_number), ..*old(self) }),
            *final(self) == *final(r),
    {
        self.verify_phone_number = Some(verify_phone_number);
        self
    }

    /// New password for this user (mandatory for non-SMS connections).
    pub fn password(&mut self, password: &str) -> (r: &mut Self)
        ensures
            r.password matches Some(v) && v@ == password@,
            *r == (UserUpdate { password: r.password, ..*old(self) }),
            *final(self) == *final(r),
    {
        self.password = Some(String::from_str(password));
        self
    }

    /// ID of the connection this user should be created in. Needed when changing the
    /// email, phone or password of a secondary identity.
    pub fn connection(&mut self, connection: &str) -> (r: &mut Self)
        ensures
            r.connection matches Some(v) && v@ == connection@,
            *r == (UserUpdate { connection: r.connection, ..*old(self) }),
            *final(self) == *final(r),
    {
        self.connection = Some(String::from_str(connection));
        self
    }

    /// Client ID of the application. Only valid when updating the email address.
    pub fn client_id(&mut self, client_id: &str) -> (r: &mut Self)
        ensures
            r.client_id matches Some(v) && v@ == client_id@,
            *r == (UserUpdate { client_id: r.client_id, ..*old(self) }),
            *final(self) == *final(r),
    {
        self.client_id = Some(String::from_str(client_id));
        self
    }

    /// Metadata to which this user has read-only access, as an encoded JSON value. The
    /// server merges it into the stored metadata on the first level only.
    pub fn app_metadata(&mut self, app_metadata: &str) -> (r: &mut Self)
        ensures
            r.app_metadata matches Some(v) && v@ == app_metadata@,
            *r == (UserUpdate { app_metadata: r.app_metadata, ..*old(self) }),
            *final(self) == *final(r),
    {
        self.app_metadata = Some(String::from_str(app_metadata));
        self
    }

    /// Metadata to which this user has read/write access, as an encoded JSON value. The
    /// server merges it into the stored metadata on the first level only.
    pub fn user_metadata(&mut self, user_metadata: &str) -> (r: &mut Self)
        ensures
            r.user_metadata matches Some(v) && v@ == user_metadata@,
            *r == (UserUpdate { user_metadata: r.user_metadata, ..*old(self) }),
            *final(self) == *final(r),
    {
        self.user_metadata = Some(String::from_str(user_metadata));
        self
    }

    /// The members of this update's body.
    pub fn members(&self) -> (r: Vec<Member>)
        ensures
            members_view(r@) == update_members(*self),
    {
        let mut ms: Vec<Member> = Vec::new();
        push_flag(&mut ms, "blocked", self.blocked);
        push_text(&mut ms, "email", &self.email);
        push_flag(&mut ms, "email_verified", self.email_verified);
        push_text(&mut ms, "phone_number", &self.phone_number);
        push_flag(&mut ms, "phone_verified", self.phone_verified);
        push_text(&mut ms, "given_name", &self.given_name);
        push_text(&mut ms, "family_name", &self.family_name);
        push_text(&mut ms, "name", &self.name);
        push_text(&mut ms, "nickname", &self.nickname);
        push_text(&mut ms, "picture", &self.picture);
        push_text(&mut ms, "password", &self.password);
        push_text(&mut ms, "connection", &self.connection);
        push_text(&mut ms, "client_id", &self.client_id);
        push_flag(&mut ms, "verify_email", self.verify_email);
        push_flag(&mut ms, "verify_phone_number", self.verify_phone_number);
        push_raw(&mut ms, "app_metadata", &self.app_metadata);
        push_raw(&mut ms, "user_metadata", &self.user_metadata);
        assert(members_view(ms@) =~= update_members(*self));
        ms
    }

    /// The call that applies the update: a PATCH of the user's path whose
    /// body is the JSON object of the fields that were set, and no query.
    /// It fails, with `Encode`, only where encoding a string field failed.
    pub fn build(&self) -> (r: Result<RequestSpec, ApiError>)
        ensures
            !has_string(update_members(*self)) ==> r is Ok,
            r matches Ok(c) ==> {
                &&& c.method == HttpMethod::Patch
                &&& c.path@ == user_path(self.user_id@)
                &&& c.query@.len() == 0
                &&& c.body matches Some(b) && b@ == object_text(update_members(*self))
            },
            r matches Err(e) ==> e is Encode,
    {
        let ms = self.members();
        match render_object(&ms) {
            Some(body) => {
                let path = String::from_str("api/v2/users/").concat(self.user_id.as_str());
                Ok(RequestSpec { method: HttpMethod::Patch, path, query: Vec::new(), body: Some(body) })
            },
            None => Err(ApiError::Encode),
        }
    }
}

} // verus!

verus! {

broadcast proof fn lemma_flag_member_value(k: Seq<char>, v: Option<bool>, key: Seq<char>)
    ensures
        #[trigger] member_value(flag_member(k, v), key) == if k == key { flag_model(v) } else { None },
{
    broadcast use lemma_member_value_single;
}

broadcast proof fn lemma_text_member_value(k: Seq<char>, v: Option<String>, key: Seq<char>)
    ensures
        #[trigger] member_value(text_member(k, v), key) == if k == key { text_model(v) } else { None },
{
    broadcast use lemma_member_value_single;
}

broadcast proof fn lemma_raw_member_value(k: Seq<char>, v: Option<String>, key: Seq<char>)
    ensures
        #[trigger] member_value(raw_member(k, v), key) == if k == key { raw_model(v) } else { None },
{
    broadcast use lemma_member_value_single;
}

/// The facts about the keys' text that tell them apart: lengths, and where
/// lengths agree, first characters.
proof fn key_facts()
    ensures
        "blocked"@.len() == 7 && "blocked"@[0] == 'b',
        "email"@.len() == 5 && "email"@[0] == 'e',
        "email_verified"@.len() == 14 && "email_verified"@[0] == 'e',
        "phone_number"@.len() == 12 && "phone_number"@[0] == 'p',
        "phone_verified"@.len() == 14 && "phone_verified"@[0] == 'p',
        "given_name"@.len() == 10 && "given_name"@[0] == 'g',
        "family_name"@.len() == 11 && "family_name"@[0] == 'f',
        "name"@.len() == 4 && "name"@[0] == 'n',
        "nickname"@.len() == 8 && "nickname"@[0] == 'n',
        "picture"@.len() == 7 && "picture"@[0] == 'p',
        "password"@.len() == 8 && "password"@[0] == 'p',
        "connection"@.len() == 10 && "connection"@[0] == 'c',
        "client_id"@.len() == 9 && "client_id"@[0] == 'c',
        "verify_email"@.len() == 12 && "verify_email"@[0] == 'v',
        "verify_phone_number"@.len() == 19 && "verify_phone_number"@[0] == 'v',
        "app_metadata"@.len() == 12 && "app_metadata"@[0] == 'a',
        "user_metadata"@.len() == 13 && "user_metadata"@[0] == 'u',
{
    reveal_strlit("blocked");
    reveal_strlit("email");
    reveal_strlit("email_verified");
    reveal_strlit("phone_number");
    reveal_strlit("phone_verified");
    reveal_strlit("given_name");
    reveal_strlit("family_name");
    reveal_strlit("name");
    reveal_strlit("nickname");
    reveal_strlit("picture");
    reveal_strlit("password");
    reveal_strlit("connection");
    reveal_strlit("client_id");
    reveal_strlit("verify_email");
    reveal_strlit("verify_phone_number");
    reveal_strlit("app_metadata");
    reveal_strlit("user_metadata");
}

// Each field is read back in a proof of its own: together they exceed the
// solver's budget for one function.
proof fn lemma_reads_back_blocked(u: UserUpdate)
    ensures
        member_value(update_members(u), "blocked"@) == flag_model(u.blocked),
{
    broadcast use
        lemma_member_value_concat,
        lemma_flag_member_value,
        lemma_text_member_value,
        lemma_raw_member_value;
    key_facts();
}

proof fn lemma_reads_back_email(u: UserUpdate)
    ensures
        member_value(update_members(u), "email"@) == text_model(u.email),
{
    broadcast use
        lemma_member_value_concat,
        lemma_flag_member_value,
        lemma_text_member_value,
        lemma_raw_member_value;
    key_facts();
}

proof fn lemma_reads_back_email_verified(u: UserUpdate)
    ensures
        member_value(update_members(u), "email_verified"@) == flag_model(u.email_verified),
{
    broadcast use
        lemma_member_value_concat,
        lemma_flag_member_value,
        lemma_text_member_value,
        lemma_raw_member_value;
    key_facts();
}

proof fn lemma_reads_back_phone_number(u: UserUpdate)
    ensures
        member_value(update_members(u), "phone_number"@) == text_model(u.phone_number),
{
    broadcast use
        lemma_member_value_concat,
        lemma_flag_member_value,
        lemma_text_member_value,
        lemma_raw_member_value;
    key_facts();
}

proof fn lemma_reads_back_phone_verified(u: UserUpdate)
    ensures
        member_value(update_members(u), "phone_verified"@) == flag_model(u.phone_verified),
{
    broadcast use
        lemma_member_value_concat,
        lemma_flag_member_value,
        lemma_text_member_value,
        lemma_raw_member_value;
    key_facts();
}

proof fn lemma_reads_back_given_name(u: UserUpdate)
    ensures
        member_value(update_members(u), "given_name"@) == text_model(u.given_name),
{
    broadcast use
        lemma_member_value_concat,
        lemma_flag_member_value,
        lemma_text_member_value,
        lemma_raw_member_value;
    key_facts();
}

proof fn lemma_reads_back_family_name(u: UserUpdate)
    ensures
        member_value(update_members(u), "family_name"@) == text_model(u.family_name),
{
    broadcast use
        lemma_member_value_concat,
        lemma_flag_member_value,
        lemma_text_member_value,
        lemma_raw_member_value;
    key_facts();
}

proof fn lemma_reads_back_name(u: UserUpdate)
    ensures
        member_value(update_members(u), "name"@) == text_model(u.name),
{
    broadcast use
        lemma_member_value_concat,
        lemma_flag_member_value,
        lemma_text_member_value,
        lemma_raw_member_value;
    key_facts();
}

proof fn lemma_reads_back_nickname(u: UserUpdate)
    ensures
        member_value(update_members(u), "nickname"@) == text_model(u.nickname),
{
    broadcast use
        lemma_member_value_concat,
        lemma_flag_member_value,
        lemma_text_member_value,
        lemma_raw_member_value;
    key_facts();
}

proof fn lemma_reads_back_picture(u: UserUpdate)
    ensures
        member_value(update_members(u), "picture"@) == text_model(u.picture),
{
    broadcast use
        lemma_member_value_concat,
        lemma_flag_member_value,
        lemma_text_member_value,
        lemma_raw_member_value;
    key_facts();
}

proof fn lemma_reads_back_password(u: UserUpdate)
    ensures
        member_value(update_members(u), "password"@) == text_model(u.password),
{
    broadcast use
        lemma_member_value_concat,
        lemma_flag_member_value,
        lemma_text_member_value,
        lemma_raw_member_value;
    key_facts();
}

proof fn lemma_reads_back_connection(u: UserUpdate)
    ensures
        member_value(update_members(u), "connection"@) == text_model(u.connection),
{
    broadcast use
        lemma_member_value_concat,
        lemma_flag_member_value,
        lemma_text_member_value,
        lemma_raw_member_value;
    key_facts();
}

proof fn lemma_reads_back_client_id(u: UserUpdate)
    ensures
        member_value(update_members(u), "client_id"@) == text_model(u.client_id),
{
    broadcast use
        lemma_member_value_concat,
        lemma_flag_member_value,
        lemma_text_member_value,
        lemma_raw_member_value;
    key_facts();
}

proof fn lemma_reads_back_verify_email(u: UserUpdate)
    ensures
        member_value(update_members(u), "verify_email"@) == flag_model(u.verify_email),
{
    broadcast use
        lemma_member_value_concat,
        lemma_flag_member_value,
        lemma_text_member_value,
        lemma_raw_member_value;
    key_facts();
}

proof fn lemma_reads_back_verify_phone_number(u: UserUpdate)
    ensures
        member_value(update_members(u), "verify_phone_number"@) == flag_model(u.verify_phone_number),
{
    broadcast use
        lemma_member_value_concat,
        lemma_flag_member_value,
        lemma_text_member_value,
        lemma_raw_member_value;
    key_facts();
}

proof fn lemma_reads_back_app_metadata(u: UserUpdate)
    ensures
        member_value(update_members(u), "app_metadata"@) == raw_model(u.app_metadata),
{
    broadcast use
        lemma_member_value_concat,
        lemma_flag_member_value,
        lemma_text_member_value,
        lemma_raw_member_value;
    key_facts();
}

proof fn lemma_reads_back_user_metadata(u: UserUpdate)
    ensures
        member_value(update_members(u), "user_metadata"@) == raw_model(u.user_metadata),
{
    broadcast use
        lemma_member_value_concat,
        lemma_flag_member_value,
        lemma_text_member_value,
        lemma_raw_member_value;
    key_facts();
}

/// Reading the body of an update back gives each field that was set, with the
/// value it was set to, and nothing for each field that was not.
pub proof fn lemma_update_round_trip(u: UserUpdate)
    ensures
        member_value(update_members(u), "blocked"@) == flag_model(u.blocked),
        member_value(update_members(u), "email"@) == text_model(u.email),
        member_value(update_members(u), "email_verified"@) == flag_model(u.email_verified),
        member_value(update_members(u), "phone_number"@) == text_model(u.phone_number),
        member_value(update_members(u), "phone_verified"@) == flag_model(u.phone_verified),
        member_value(update_members(u), "given_name"@) == text_model(u.given_name),
        member_value(update_members(u), "family_name"@) == text_model(u.family_name),
        member_value(update_members(u), "name"@) == text_model(u.name),
        member_value(update_members(u), "nickname"@) == text_model(u.nickname),
        member_value(update_members(u), "picture"@) == text_model(u.picture),
        member_value(update_members(u), "password"@) == text_model(u.password),
        member_value(update_members(u), "connection"@) == text_model(u.connection),
        member_value(update_members(u), "client_id"@) == text_model(u.client_id),
        member_value(update_members(u), "verify_email"@) == flag_model(u.verify_email),
        member_value(update_members(u), "verify_phone_number"@) == flag_model(u.verify_phone_number),
        member_value(update_members(u), "app_metadata"@) == raw_model(u.app_metadata),
        member_value(update_members(u), "user_metadata"@) == raw_model(u.user_metadata),
{
    lemma_reads_back_blocked(u);
    lemma_reads_back_email(u);
    lemma_reads_back_email_verified(u);
    lemma_reads_back_phone_number(u);
    lemma_reads_back_phone_verified(u);
    lemma_reads_back_given_name(u);
    lemma_reads_back_family_name(u);
    lemma_reads_back_name(u);
    lemma_reads_back_nickname(u);
    lemma_reads_back_picture(u);
    lemma_reads_back_password(u);
    lemma_reads_back_connection(u);
    lemma_reads_back_client_id(u);
    lemma_reads_back_verify_email(u);
    lemma_reads_back_verify_phone_number(u);
    lemma_reads_back_app_metadata(u);
    lemma_reads_back_user_metadata(u);
}

} // verus!
