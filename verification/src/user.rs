use crate::client::{pairs_view, query_push, spec_headers, BangumiClient, HttpMethod, HttpRequest};
use crate::json::{
    data_field, field_str, field_u32, fields_json_view, get_field, json_view, obj_field,
    spec_field_str, spec_field_u32, JsonCodec, JsonData, JsonValue,
};
use crate::model::lemma_lookup_at;
use vstd::prelude::*;
use vstd::string::StringExecFns;

verus! {

/// The moderation group a user account belongs to.
#[derive(Debug, Clone, Copy, PartialEq, Eq, Structural)]
pub enum UserGroup {
    Admin,
    BangumiAdmin,
    DoujinAdmin,
    MutedUser,
    BlockedUser,
    WikiAdmin,
    User,
    WikiUser,
}

/// The numeric code of a user group on the wire.
pub open spec fn user_group_code(g: UserGroup) -> i64 {
    match g {
        UserGroup::Admin => 1,
        UserGroup::BangumiAdmin => 2,
        UserGroup::DoujinAdmin => 3,
        UserGroup::MutedUser => 4,
        UserGroup::BlockedUser => 5,
        UserGroup::WikiAdmin => 9,
        UserGroup::User => 10,
        UserGroup::WikiUser => 11,
    }
}

pub open spec fn user_group_of_code(i: i64) -> Option<UserGroup> {
    if i == 1 {
        Some(UserGroup::Admin)
    } else if i == 2 {
        Some(UserGroup::BangumiAdmin)
    } else if i == 3 {
        Some(UserGroup::DoujinAdmin)
    } else if i == 4 {
        Some(UserGroup::MutedUser)
    } else if i == 5 {
        Some(UserGroup::BlockedUser)
    } else if i == 9 {
        Some(UserGroup::WikiAdmin)
    } else if i == 10 {
        Some(UserGroup::User)
    } else if i == 11 {
        Some(UserGroup::WikiUser)
    } else {
        None
    }
}

pub fn user_group_from_code(i: i64) -> (r: Option<UserGroup>)
    ensures
        r == user_group_of_code(i),
{
    if i == 1 {
        Some(UserGroup::Admin)
    } else if i == 2 {
        Some(UserGroup::BangumiAdmin)
    } else if i == 3 {
        Some(UserGroup::DoujinAdmin)
    } else if i == 4 {
        Some(UserGroup::MutedUser)
    } else if i == 5 {
        Some(UserGroup::BlockedUser)
    } else if i == 9 {
        Some(UserGroup::WikiAdmin)
    } else if i == 10 {
        Some(UserGroup::User)
    } else if i == 11 {
        Some(UserGroup::WikiUser)
    } else {
        None
    }
}

pub fn user_group_code_exec(g: UserGroup) -> (r: i64)
    ensures
        r == user_group_code(g),
{
    match g {
        UserGroup::Admin => 1,
        UserGroup::BangumiAdmin => 2,
        UserGroup::DoujinAdmin => 3,
        UserGroup::MutedUser => 4,
        UserGroup::BlockedUser => 5,
        UserGroup::WikiAdmin => 9,
        UserGroup::User => 10,
        UserGroup::WikiUser => 11,
    }
}

/// Every user-group code decodes back to the group it encodes.
pub proof fn lemma_user_group_round_trip(g: UserGroup)
    ensures
        user_group_of_code(user_group_code(g)) == Some(g),
{
}

/// The sizes a user avatar can be asked for.
#[derive(Debug, Clone, Copy, PartialEq, Eq, Structural)]
pub enum AvatarType {
    Small,
    Medium,
    Large,
}

/// The word an avatar size is written as in a query string.
pub open spec fn avatar_type_word(t: AvatarType) -> Seq<char> {
    match t {
        AvatarType::Small => "small"@,
        AvatarType::Medium => "medium"@,
        AvatarType::Large => "large"@,
    }
}

pub fn avatar_type_string(t: AvatarType) -> (s: String)
    ensures
        s@ == avatar_type_word(t),
{
    match t {
        AvatarType::Small => "small".to_owned(),
        AvatarType::Medium => "medium".to_owned(),
        AvatarType::Large => "large".to_owned(),
    }
}

/// A user's avatar in its three sizes.
#[derive(Debug)]
pub struct Avatar {
    pub large: String,
    pub medium: String,
    pub small: String,
}

/// The view of `Avatar`.
pub struct AvatarData {
    pub large: Seq<char>,
    pub medium: Seq<char>,
    pub small: Seq<char>,
}

pub open spec fn avatar_view(x: Avatar) -> AvatarData {
    AvatarData { large: x.large@, medium: x.medium@, small: x.small@ }
}

pub open spec fn avatar_of_json(jd: JsonData) -> Option<AvatarData> {
    match (spec_field_str(jd, "large"@), spec_field_str(jd, "medium"@), spec_field_str(
        jd,
        "small"@,
    )) {
        (Some(l), Some(m), Some(s)) => Some(AvatarData { large: l, medium: m, small: s }),
        _ => None,
    }
}

pub open spec fn avatar_to_json(d: AvatarData) -> JsonData {
    JsonData::Obj(
        seq![
            ("large"@, JsonData::Str(d.large)),
            ("medium"@, JsonData::Str(d.medium)),
            ("small"@, JsonData::Str(d.small)),
        ],
    )
}

impl JsonCodec for Avatar {
    type Data = AvatarData;

    open spec fn of_json(jd: JsonData) -> Option<AvatarData> {
        avatar_of_json(jd)
    }

    open spec fn to_json(d: AvatarData) -> JsonData {
        avatar_to_json(d)
    }

    open spec fn view_data(self) -> AvatarData {
        avatar_view(self)
    }

    fn decode(v: &JsonValue) -> (r: Option<Self>) {
        let large = match field_str(v, "large") {
            Some(x) => x,
            None => {
                return None;
            },
        };
        let medium = match field_str(v, "medium") {
            Some(x) => x,
            None => {
                return None;
            },
        };
        let small = match field_str(v, "small") {
            Some(x) => x,
            None => {
                return None;
            },
        };
        Some(Avatar { large, medium, small })
    }

    fn encode(&self) -> (r: JsonValue) {
        let mut fields: Vec<(String, JsonValue)> = Vec::new();
        obj_field(&mut fields, "large", JsonValue::Str(self.large.clone()));
        obj_field(&mut fields, "medium", JsonValue::Str(self.medium.clone()));
        obj_field(&mut fields, "small", JsonValue::Str(self.small.clone()));
        proof {
            assert(fields_json_view(fields@) =~= avatar_to_json(avatar_view(*self))->Obj_0);
        }
        JsonValue::Obj(fields)
    }

    proof fn round_trip(d: AvatarData) {
        let fs = avatar_to_json(d)->Obj_0;
        reveal_strlit("large");
        reveal_strlit("medium");
        reveal_strlit("small");
        assert("large"@.len() == 5 && "large"@[0] == 'l');
        assert("medium"@.len() == 6 && "medium"@[0] == 'm');
        assert("small"@.len() == 5 && "small"@[0] == 's');
        lemma_lookup_at(fs, "large"@, 0);
        lemma_lookup_at(fs, "medium"@, 1);
        lemma_lookup_at(fs, "small"@, 2);
    }
}

/// The user-group member of a record.
pub open spec fn spec_field_user_group(jd: JsonData, key: Seq<char>) -> Option<UserGroup> {
    match data_field(jd, key) {
        Some(JsonData::Int(i)) => user_group_of_code(i),
        _ => None,
    }
}

pub fn field_user_group(v: &JsonValue, key: &str) -> (r: Option<UserGroup>)
    ensures
        r == spec_field_user_group(json_view(*v), key@),
{
    match get_field(v, key) {
        Some(x) => match x {
            JsonValue::Int(i) => user_group_from_code(*i),
            _ => None,
        },
        None => None,
    }
}

/// A user as anyone may see them.
#[derive(Debug)]
pub struct UserPublic {
    pub id: u32,
    pub url: String,
    pub username: String,
    pub nickname: String,
    pub user_group: UserGroup,
    pub avatar: Avatar,
    pub sign: String,
}

/// The view of `UserPublic`.
pub struct UserPublicData {
    pub id: u32,
    pub url: Seq<char>,
    pub username: Seq<char>,
    pub nickname: Seq<char>,
    pub user_group: UserGroup,
    pub avatar: AvatarData,
    pub sign: Seq<char>,
}

pub open spec fn user_public_view(x: UserPublic) -> UserPublicData {
    UserPublicData {
        id: x.id,
        url: x.url@,
        username: x.username@,
        nickname: x.nickname@,
        user_group: x.user_group,
        avatar: avatar_view(x.avatar),
        sign: x.sign@,
    }
}

pub open spec fn user_public_of_json(jd: JsonData) -> Option<UserPublicData> {
    match (spec_field_u32(jd, "id"@), spec_field_str(jd, "url"@), spec_field_str(jd, "username"@),
    spec_field_str(jd, "nickname"@), spec_field_user_group(jd, "user_group"@),
    crate::json::spec_field_record::<Avatar>(jd, "avatar"@), spec_field_str(jd, "sign"@)) {
        (Some(id), Some(url), Some(username), Some(nickname), Some(group), Some(avatar), Some(sign))
            => Some(
            UserPublicData {
                id,
                url,
                username,
                nickname,
                user_group: group,
                avatar,
                sign,
            },
        ),
        _ => None,
    }
}

pub open spec fn user_public_to_json(d: UserPublicData) -> JsonData {
    JsonData::Obj(
        seq![
            ("id"@, JsonData::Int(d.id as i64)),
            ("url"@, JsonData::Str(d.url)),
            ("username"@, JsonData::Str(d.username)),
            ("nickname"@, JsonData::Str(d.nickname)),
            ("user_group"@, JsonData::Int(user_group_code(d.user_group))),
            ("avatar"@, avatar_to_json(d.avatar)),
            ("sign"@, JsonData::Str(d.sign)),
        ],
    )
}

impl JsonCodec for UserPublic {
    type Data = UserPublicData;

    open spec fn of_json(jd: JsonData) -> Option<UserPublicData> {
        user_public_of_json(jd)
    }

    open spec fn to_json(d: UserPublicData) -> JsonData {
        user_public_to_json(d)
    }

    open spec fn view_data(self) -> UserPublicData {
        user_public_view(self)
    }

    fn decode(v: &JsonValue) -> (r: Option<Self>) {
        let id = match field_u32(v, "id") {
            Some(x) => x,
            None => {
                return None;
            },
        };
        let url = match field_str(v, "url") {
            Some(x) => x,
            None => {
                return None;
            },
        };
        let username = match field_str(v, "username") {
            Some(x) => x,
            None => {
                return None;
            },
        };
        let nickname = match field_str(v, "nickname") {
            Some(x) => x,
            None => {
                return None;
            },
        };
        let user_group = match field_user_group(v, "user_group") {
            Some(x) => x,
            None => {
                return None;
            },
        };
        let avatar = match crate::json::field_record::<Avatar>(v, "avatar") {
            Some(x) => x,
            None => {
                return None;
            },
        };
        let sign = match field_str(v, "sign") {
            Some(x) => x,
            None => {
                return None;
            },
        };
        Some(UserPublic { id, url, username, nickname, user_group, avatar, sign })
    }

    fn encode(&self) -> (r: JsonValue) {
        let mut fields: Vec<(String, JsonValue)> = Vec::new();
        obj_field(&mut fields, "id", JsonValue::Int(self.id as i64));
        obj_field(&mut fields, "url", JsonValue::Str(self.url.clone()));
        obj_field(&mut fields, "username", JsonValue::Str(self.username.clone()));
        obj_field(&mut fields, "nickname", JsonValue::Str(self.nickname.clone()));
        obj_field(&mut fields, "user_group", JsonValue::Int(user_group_code_exec(self.user_group)));
        obj_field(&mut fields, "avatar", self.avatar.encode());
        obj_field(&mut fields, "sign", JsonValue::Str(self.sign.clone()));
        proof {
            assert(fields_json_view(fields@) =~= user_public_to_json(user_public_view(*self))
                ->Obj_0);
        }
        JsonValue::Obj(fields)
    }

    proof fn round_trip(d: UserPublicData) {
        let fs = user_public_to_json(d)->Obj_0;
        reveal_strlit("id");
        reveal_strlit("url");
        reveal_strlit("username");
        reveal_strlit("nickname");
        reveal_strlit("user_group");
        reveal_strlit("avatar");
        reveal_strlit("sign");
        assert("id"@.len() == 2);
        assert("url"@.len() == 3);
        assert("username"@.len() == 8 && "username"@[0] == 'u');
        assert("nickname"@.len() == 8 && "nickname"@[0] == 'n');
        assert("user_group"@.len() == 10);
        assert("avatar"@.len() == 6);
        assert("sign"@.len() == 4);
        lemma_lookup_at(fs, "id"@, 0);
        lemma_lookup_at(fs, "url"@, 1);
        lemma_lookup_at(fs, "username"@, 2);
        lemma_lookup_at(fs, "nickname"@, 3);
        lemma_lookup_at(fs, "user_group"@, 4);
        lemma_lookup_at(fs, "avatar"@, 5);
        lemma_lookup_at(fs, "sign"@, 6);
        lemma_user_group_round_trip(d.user_group);
        Avatar::round_trip(d.avatar);
    }
}

/// The caller's own account, as the authenticated endpoint reports it.
#[derive(Debug)]
pub struct User {
    pub id: u32,
    pub url: String,
    pub username: String,
    pub nickname: String,
    pub user_group: UserGroup,
    pub avatar: Avatar,
    pub sign: String,
    pub email: String,
    pub reg_time: String,
    pub time_offset: u32,
}

/// The view of `User`.
pub struct UserData {
    pub id: u32,
    pub url: Seq<char>,
    pub username: Seq<char>,
    pub nickname: Seq<char>,
    pub user_group: UserGroup,
    pub avatar: AvatarData,
    pub sign: Seq<char>,
    pub email: Seq<char>,
    pub reg_time: Seq<char>,
    pub time_offset: u32,
}

pub open spec fn user_view(x: User) -> UserData {
    UserData {
        id: x.id,
        url: x.url@,
        username: x.username@,
        nickname: x.nickname@,
        user_group: x.user_group,
        avatar: avatar_view(x.avatar),
        sign: x.sign@,
        email: x.email@,
        reg_time: x.reg_time@,
        time_offset: x.time_offset,
    }
}

pub open spec fn user_of_json(jd: JsonData) -> Option<UserData> {
    match (spec_field_u32(jd, "id"@), spec_field_str(jd, "url"@), spec_field_str(jd, "username"@),
    spec_field_str(jd, "nickname"@), spec_field_user_group(jd, "user_group"@),
    crate::json::spec_field_record::<Avatar>(jd, "avatar"@), spec_field_str(jd, "sign"@)) {
        (Some(id), Some(url), Some(username), Some(nickname), Some(group), Some(avatar), Some(sign))
            => match (spec_field_str(jd, "email"@), spec_field_str(jd, "reg_time"@), spec_field_u32(
            jd,
            "time_offset"@,
        )) {
            (Some(email), Some(reg_time), Some(time_offset)) => Some(
                UserData {
                    id,
                    url,
                    username,
                    nickname,
                    user_group: group,
                    avatar,
                    sign,
                    email,
                    reg_time,
                    time_offset,
                },
            ),
            _ => None,
        },
        _ => None,
    }
}

pub open spec fn user_to_json(d: UserData) -> JsonData {
    JsonData::Obj(
        seq![
            ("id"@, JsonData::Int(d.id as i64)),
            ("url"@, JsonData::Str(d.url)),
            ("username"@, JsonData::Str(d.username)),
            ("nickname"@, JsonData::Str(d.nickname)),
            ("user_group"@, JsonData::Int(user_group_code(d.user_group))),
            ("avatar"@, avatar_to_json(d.avatar)),
            ("sign"@, JsonData::Str(d.sign)),
            ("email"@, JsonData::Str(d.email)),
            ("reg_time"@, JsonData::Str(d.reg_time)),
            ("time_offset"@, JsonData::Int(d.time_offset as i64)),
        ],
    )
}

impl JsonCodec for User {
    type Data = UserData;

    open spec fn of_json(jd: JsonData) -> Option<UserData> {
        user_of_json(jd)
    }

    open spec fn to_json(d: UserData) -> JsonData {
        user_to_json(d)
    }

    open spec fn view_data(self) -> UserData {
        user_view(self)
    }

    fn decode(v: &JsonValue) -> (r: Option<Self>) {
        let id = match field_u32(v, "id") {
            Some(x) => x,
            None => {
                return None;
            },
        };
        let url = match field_str(v, "url") {
            Some(x) => x,
            None => {
                return None;
            },
        };
        let username = match field_str(v, "username") {
            Some(x) => x,
            None => {
                return None;
            },
        };
        let nickname = match field_str(v, "nickname") {
            Some(x) => x,
            None => {
                return None;
            },
        };
        let user_group = match field_user_group(v, "user_group") {
            Some(x) => x,
            None => {
                return None;
            },
        };
        let avatar = match crate::json::field_record::<Avatar>(v, "avatar") {
            Some(x) => x,
            None => {
                return None;
            },
        };
        let sign = match field_str(v, "sign") {
            Some(x) => x,
            None => {
                return None;
            },
        };
        let email = match field_str(v, "email") {
            Some(x) => x,
            None => {
                return None;
            },
        };
        let reg_time = match field_str(v, "reg_time") {
            Some(x) => x,
            None => {
                return None;
            },
        };
        let time_offset = match field_u32(v, "time_offset") {
            Some(x) => x,
            None => {
                return None;
            },
        };
        Some(
            User {
                id,
                url,
                username,
                nickname,
                user_group,
                avatar,
                sign,
                email,
                reg_time,
                time_offset,
            },
        )
    }

    fn encode(&self) -> (r: JsonValue) {
        let mut fields: Vec<(String, JsonValue)> = Vec::new();
        obj_field(&mut fields, "id", JsonValue::Int(self.id as i64));
        obj_field(&mut fields, "url", JsonValue::Str(self.url.clone()));
        obj_field(&mut fields, "username", JsonValue::Str(self.username.clone()));
        obj_field(&mut fields, "nickname", JsonValue::Str(self.nickname.clone()));
        obj_field(&mut fields, "user_group", JsonValue::Int(user_group_code_exec(self.user_group)));
        obj_field(&mut fields, "avatar", self.avatar.encode());
        obj_field(&mut fields, "sign", JsonValue::Str(self.sign.clone()));
        obj_field(&mut fields, "email", JsonValue::Str(self.email.clone()));
        obj_field(&mut fields, "reg_time", JsonValue::Str(self.reg_time.clone()));
        obj_field(&mut fields, "time_offset", JsonValue::Int(self.time_offset as i64));
        proof {
            assert(fields_json_view(fields@) =~= user_to_json(user_view(*self))->Obj_0);
        }
        JsonValue::Obj(fields)
    }

    proof fn round_trip(d: UserData) {
        let fs = user_to_json(d)->Obj_0;
        reveal_strlit("id");
        reveal_strlit("url");
        reveal_strlit("username");
        reveal_strlit("nickname");
        reveal_strlit("user_group");
        reveal_strlit("avatar");
        reveal_strlit("sign");
        reveal_strlit("email");
        reveal_strlit("reg_time");
        reveal_strlit("time_offset");
        assert("id"@.len() == 2);
        assert("url"@.len() == 3);
        assert("username"@.len() == 8 && "username"@[0] == 'u');
        assert("nickname"@.len() == 8 && "nickname"@[0] == 'n');
        assert("user_group"@.len() == 10 && "user_group"@[0] == 'u');
        assert("avatar"@.len() == 6);
        assert("sign"@.len() == 4);
        assert("email"@.len() == 5);
        assert("reg_time"@.len() == 8 && "reg_time"@[0] == 'r');
        assert("time_offset"@.len() == 11 && "time_offset"@[0] == 't');
        lemma_lookup_at(fs, "id"@, 0);
        lemma_lookup_at(fs, "url"@, 1);
        lemma_lookup_at(fs, "username"@, 2);
        lemma_lookup_at(fs, "nickname"@, 3);
        lemma_lookup_at(fs, "user_group"@, 4);
        lemma_lookup_at(fs, "avatar"@, 5);
        lemma_lookup_at(fs, "sign"@, 6);
        lemma_lookup_at(fs, "email"@, 7);
        lemma_lookup_at(fs, "reg_time"@, 8);
        lemma_lookup_at(fs, "time_offset"@, 9);
        lemma_user_group_round_trip(d.user_group);
        Avatar::round_trip(d.avatar);
    }
}

impl BangumiClient {
    /// The request for a user's public profile.
    pub fn get_user_request(&self, username: &str) -> (r: HttpRequest)
        ensures
            r.method == HttpMethod::Get,
            r.url@ == self.base_path@ + "/v0/users/"@ + username@,
            pairs_view(r.query@) == Seq::<(Seq<char>, Seq<char>)>::empty(),
            pairs_view(r.headers@) == spec_headers(*self),
            r.body is None,
    {
        let url = self.base_path.clone().concat("/v0/users/").concat(username);
        self.request_builder(HttpMethod::Get, url.as_str())
    }

    /// The request for a user's avatar in one of its sizes.
    pub fn get_user_avatar_request(&self, username: &str, kind: AvatarType) -> (r: HttpRequest)
        ensures
            r.method == HttpMethod::Get,
            r.url@ == self.base_path@ + "/v0/users/"@ + username@ + "/avatar"@,
            pairs_view(r.query@) == seq![("type"@, avatar_type_word(kind))],
            pairs_view(r.headers@) == spec_headers(*self),
            r.body is None,
    {
        let url = self.base_path.clone().concat("/v0/users/").concat(username).concat("/avatar");
        let mut r = self.request_builder(HttpMethod::Get, url.as_str());
        query_push(&mut r.query, "type", avatar_type_string(kind));
        proof {
            assert(pairs_view(r.query@) =~= seq![("type"@, avatar_type_word(kind))]);
        }
        r
    }

    /// The request for the caller's own account.
    pub fn get_me_request(&self) -> (r: HttpRequest)
        ensures
            r.method == HttpMethod::Get,
            r.url@ == self.base_path@ + "/v0/me"@,
            pairs_view(r.query@) == Seq::<(Seq<char>, Seq<char>)>::empty(),
            pairs_view(r.headers@) == spec_headers(*self),
            r.body is None,
    {
        let url = self.base_path.clone().concat("/v0/me");
        self.request_builder(HttpMethod::Get, url.as_str())
    }
}

} // verus!
