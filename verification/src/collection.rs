use crate::client::{opt_pair, pairs_view, query_push, spec_headers, BangumiClient, HttpMethod, HttpRequest};
use crate::episode::{episode_to_json, episode_view, Episode, EpisodeData, EpisodeType};
use crate::json::{
    data_field, field_opt_str, field_str, field_u32, fields_json_view, get_field, json_view,
    list_view, obj_field, spec_field_bool, spec_field_opt_str, spec_field_str, spec_field_u32,
    strs_view, JsonCodec, JsonData, JsonValue,
};
use crate::model::{lemma_lookup_at, SimpleImage, SimpleImageData, Tag, TagData};
use crate::person::{person_type_code, PersonCareer, PersonType};
use crate::subject::{
    opt_str_to_json, spec_field_subject_type, subject_type_code, subject_type_code_exec,
    SubjectType,
};
use crate::text::{dec_digits, u32_string};
use vstd::prelude::*;
use vstd::string::StringExecFns;

verus! {

/// The state a subject holds in a user's collection.
#[derive(Debug, Clone, Copy, PartialEq, Eq, Structural)]
pub enum CollectionType {
    Wish,
    Done,
    Doing,
    OnHold,
    Dropped,
}

/// The numeric code of a collection state on the wire.
pub open spec fn collection_type_code(t: CollectionType) -> i64 {
    match t {
        CollectionType::Wish => 1,
        CollectionType::Done => 2,
        CollectionType::Doing => 3,
        CollectionType::OnHold => 4,
        CollectionType::Dropped => 5,
    }
}

pub open spec fn collection_type_of_code(i: i64) -> Option<CollectionType> {
    if i == 1 {
        Some(CollectionType::Wish)
    } else if i == 2 {
        Some(CollectionType::Done)
    } else if i == 3 {
        Some(CollectionType::Doing)
    } else if i == 4 {
        Some(CollectionType::OnHold)
    } else if i == 5 {
        Some(CollectionType::Dropped)
    } else {
        None
    }
}

pub fn collection_type_from_code(i: i64) -> (r: Option<CollectionType>)
    ensures
        r == collection_type_of_code(i),
{
    if i == 1 {
        Some(CollectionType::Wish)
    } else if i == 2 {
        Some(CollectionType::Done)
    } else if i == 3 {
        Some(CollectionType::Doing)
    } else if i == 4 {
        Some(CollectionType::OnHold)
    } else if i == 5 {
        Some(CollectionType::Dropped)
    } else {
        None
    }
}

pub fn collection_type_code_exec(t: CollectionType) -> (r: u32)
    ensures
        r as i64 == collection_type_code(t),
{
    match t {
        CollectionType::Wish => 1,
        CollectionType::Done => 2,
        CollectionType::Doing => 3,
        CollectionType::OnHold => 4,
        CollectionType::Dropped => 5,
    }
}

/// Every collection-state code decodes back to the state it encodes.
pub proof fn lemma_collection_type_round_trip(t: CollectionType)
    ensures
        collection_type_of_code(collection_type_code(t)) == Some(t),
{
}

/// The state one episode holds in a user's collection.
#[derive(Debug, Clone, Copy, PartialEq, Eq, Structural)]
pub enum CollectionEpisodeType {
    Not,
    Wish,
    Done,
    Dropped,
}

/// The numeric code of an episode collection state on the wire.
pub open spec fn collection_episode_type_code(t: CollectionEpisodeType) -> i64 {
    match t {
        CollectionEpisodeType::Not => 0,
        CollectionEpisodeType::Wish => 1,
        CollectionEpisodeType::Done => 2,
        CollectionEpisodeType::Dropped => 3,
    }
}

pub open spec fn collection_episode_type_of_code(i: i64) -> Option<CollectionEpisodeType> {
    if i == 0 {
        Some(CollectionEpisodeType::Not)
    } else if i == 1 {
        Some(CollectionEpisodeType::Wish)
    } else if i == 2 {
        Some(CollectionEpisodeType::Done)
    } else if i == 3 {
        Some(CollectionEpisodeType::Dropped)
    } else {
        None
    }
}

pub fn collection_episode_type_from_code(i: i64) -> (r: Option<CollectionEpisodeType>)
    ensures
        r == collection_episode_type_of_code(i),
{
    if i == 0 {
        Some(CollectionEpisodeType::Not)
    } else if i == 1 {
        Some(CollectionEpisodeType::Wish)
    } else if i == 2 {
        Some(CollectionEpisodeType::Done)
    } else if i == 3 {
        Some(CollectionEpisodeType::Dropped)
    } else {
        None
    }
}

pub fn collection_episode_type_code_exec(t: CollectionEpisodeType) -> (r: u32)
    ensures
        r as i64 == collection_episode_type_code(t),
{
    match t {
        CollectionEpisodeType::Not => 0,
        CollectionEpisodeType::Wish => 1,
        CollectionEpisodeType::Done => 2,
        CollectionEpisodeType::Dropped => 3,
    }
}

/// Every episode-state code decodes back to the state it encodes.
pub proof fn lemma_collection_episode_type_round_trip(t: CollectionEpisodeType)
    ensures
        collection_episode_type_of_code(collection_episode_type_code(t)) == Some(t),
{
}

/// What an update of a subject collection sends: every member optional,
/// null standing for a member the caller leaves untouched.
#[derive(Debug)]
pub struct CollectionSubjectUpdate {
    pub kind: Option<CollectionType>,
    pub rate: Option<u32>,
    pub ep_status: Option<u32>,
    pub vol_status: Option<u32>,
    pub comment: Option<String>,
    pub private: Option<bool>,
    pub tags: Option<Vec<String>>,
}

/// The body a subject collection update is sent as.
pub open spec fn collection_subject_update_to_json(p: CollectionSubjectUpdate) -> JsonData {
    JsonData::Obj(
        seq![
            (
                "type"@,
                match p.kind {
                    Some(t) => JsonData::Int(collection_type_code(t)),
                    None => JsonData::Null,
                },
            ),
            ("rate"@, crate::character::opt_u32_field_to_json(p.rate)),
            ("ep_status"@, crate::character::opt_u32_field_to_json(p.ep_status)),
            ("vol_status"@, crate::character::opt_u32_field_to_json(p.vol_status)),
            ("comment"@, opt_str_to_json(crate::error::opt_str_view(p.comment))),
            (
                "private"@,
                match p.private {
                    Some(b) => JsonData::Bool(b),
                    None => JsonData::Null,
                },
            ),
            (
                "tags"@,
                match p.tags {
                    Some(ts) => JsonData::Arr(
                        strs_view(ts@).map_values(|s: Seq<char>| JsonData::Str(s)),
                    ),
                    None => JsonData::Null,
                },
            ),
        ],
    )
}

pub fn encode_collection_subject_update(p: &CollectionSubjectUpdate) -> (r: JsonValue)
    ensures
        json_view(r) == collection_subject_update_to_json(*p),
{
    let mut fields: Vec<(String, JsonValue)> = Vec::new();
    let kind = match p.kind {
        Some(t) => JsonValue::Int(collection_type_code_exec(t) as i64),
        None => JsonValue::Null,
    };
    obj_field(&mut fields, "type", kind);
    obj_field(&mut fields, "rate", crate::character::opt_u32_field_value(p.rate));
    obj_field(&mut fields, "ep_status", crate::character::opt_u32_field_value(p.ep_status));
    obj_field(&mut fields, "vol_status", crate::character::opt_u32_field_value(p.vol_status));
    let comment = match &p.comment {
        Some(s) => JsonValue::Str(s.clone()),
        None => JsonValue::Null,
    };
    obj_field(&mut fields, "comment", comment);
    let private = match p.private {
        Some(b) => JsonValue::Bool(b),
        None => JsonValue::Null,
    };
    obj_field(&mut fields, "private", private);
    let tags = match &p.tags {
        Some(ts) => JsonValue::Arr(crate::json::encode_str_list(ts)),
        None => JsonValue::Null,
    };
    obj_field(&mut fields, "tags", tags);
    proof {
        assert(fields_json_view(fields@) =~= collection_subject_update_to_json(*p)->Obj_0);
    }
    JsonValue::Obj(fields)
}

/// The body an optional subject collection update is sent as.
pub open spec fn opt_collection_subject_update_to_json(p: Option<CollectionSubjectUpdate>)
    -> JsonData {
    match p {
        Some(u) => collection_subject_update_to_json(u),
        None => JsonData::Null,
    }
}

/// What a batch update of episode collections sends.
#[derive(Debug)]
pub struct CollectionEpisodesUpdate {
    pub episode_id: Vec<u32>,
    pub kind: CollectionEpisodeType,
}

/// The body a batch episode update is sent as.
pub open spec fn collection_episodes_update_to_json(p: CollectionEpisodesUpdate) -> JsonData {
    JsonData::Obj(
        seq![
            (
                "episode_id"@,
                JsonData::Arr(p.episode_id@.map_values(|n: u32| JsonData::Int(n as i64))),
            ),
            ("type"@, JsonData::Int(collection_episode_type_code(p.kind))),
        ],
    )
}

fn encode_u32_list(v: &Vec<u32>) -> (r: Vec<JsonValue>)
    ensures
        crate::json::seq_json_view(r@) == v@.map_values(|n: u32| JsonData::Int(n as i64)),
{
    let n = v.len();
    let mut out: Vec<JsonValue> = Vec::new();
    let mut i: usize = 0;
    while i < n
        invariant
            n == v@.len(),
            i <= n,
            out@.len() == i,
            forall|j: int|
                0 <= j < i ==> json_view(#[trigger] out@[j]) == JsonData::Int(v@[j] as i64),
        decreases n - i,
    {
        out.push(JsonValue::Int(v[i] as i64));
        i += 1;
    }
    proof {
        crate::json::lemma_seq_json_view(out@);
        assert(crate::json::seq_json_view(out@) =~= v@.map_values(
            |n: u32| JsonData::Int(n as i64),
        ));
    }
    out
}

pub fn encode_collection_episodes_update(p: &CollectionEpisodesUpdate) -> (r: JsonValue)
    ensures
        json_view(r) == collection_episodes_update_to_json(*p),
{
    let mut fields: Vec<(String, JsonValue)> = Vec::new();
    obj_field(&mut fields, "episode_id", JsonValue::Arr(encode_u32_list(&p.episode_id)));
    obj_field(
        &mut fields,
        "type",
        JsonValue::Int(collection_episode_type_code_exec(p.kind) as i64),
    );
    proof {
        assert(fields_json_view(fields@) =~= collection_episodes_update_to_json(*p)->Obj_0);
    }
    JsonValue::Obj(fields)
}

/// The body an optional batch episode update is sent as.
pub open spec fn opt_collection_episodes_update_to_json(p: Option<CollectionEpisodesUpdate>)
    -> JsonData {
    match p {
        Some(u) => collection_episodes_update_to_json(u),
        None => JsonData::Null,
    }
}

/// What an update of one episode's collection state sends.
#[derive(Debug, Clone, Copy, PartialEq, Eq, Structural)]
pub struct CollectionEpisodeUpdate {
    pub kind: CollectionEpisodeType,
}

/// The body a single episode update is sent as.
pub open spec fn collection_episode_update_to_json(p: CollectionEpisodeUpdate) -> JsonData {
    JsonData::Obj(seq![("type"@, JsonData::Int(collection_episode_type_code(p.kind)))])
}

pub fn encode_collection_episode_update(p: &CollectionEpisodeUpdate) -> (r: JsonValue)
    ensures
        json_view(r) == collection_episode_update_to_json(*p),
{
    let mut fields: Vec<(String, JsonValue)> = Vec::new();
    obj_field(
        &mut fields,
        "type",
        JsonValue::Int(collection_episode_type_code_exec(p.kind) as i64),
    );
    proof {
        assert(fields_json_view(fields@) =~= collection_episode_update_to_json(*p)->Obj_0);
    }
    JsonValue::Obj(fields)
}

/// The body an optional single episode update is sent as.
pub open spec fn opt_collection_episode_update_to_json(p: Option<CollectionEpisodeUpdate>)
    -> JsonData {
    match p {
        Some(u) => collection_episode_update_to_json(u),
        None => JsonData::Null,
    }
}

impl BangumiClient {
    /// The request for a user's collected subjects, with optional filters
    /// and paging.
    pub fn get_collection_subjects_request(
        &self,
        username: &str,
        subject_type: Option<SubjectType>,
        kind: Option<CollectionType>,
        limit: Option<u32>,
        offset: Option<u32>,
    ) -> (r: HttpRequest)
        ensures
            r.method == HttpMethod::Get,
            r.url@ == self.base_path@ + "/v0/users/"@ + username@ + "/collections"@,
            pairs_view(r.query@) == opt_pair(
                "subject_type"@,
                match subject_type {
                    Some(t) => Some(dec_digits(subject_type_code(t) as nat)),
                    None => None,
                },
            ) + opt_pair(
                "type"@,
                match kind {
                    Some(t) => Some(dec_digits(collection_type_code(t) as nat)),
                    None => None,
                },
            ) + opt_pair(
                "limit"@,
                match limit {
                    Some(n) => Some(dec_digits(n as nat)),
                    None => None,
                },
            ) + opt_pair(
                "offset"@,
                match offset {
                    Some(n) => Some(dec_digits(n as nat)),
                    None => None,
                },
            ),
            pairs_view(r.headers@) == spec_headers(*self),
            r.body is None,
    {
        let url = self.base_path.clone().concat("/v0/users/").concat(username).concat(
            "/collections",
        );
        let mut r = self.request_builder(HttpMethod::Get, url.as_str());
        if let Some(t) = subject_type {
            query_push(&mut r.query, "subject_type", u32_string(subject_type_code_exec(t)));
        }
        if let Some(t) = kind {
            query_push(&mut r.query, "type", u32_string(collection_type_code_exec(t)));
        }
        if let Some(n) = limit {
            query_push(&mut r.query, "limit", u32_string(n));
        }
        if let Some(n) = offset {
            query_push(&mut r.query, "offset", u32_string(n));
        }
        proof {
            assert(pairs_view(r.query@) =~= opt_pair(
                "subject_type"@,
                match subject_type {
                    Some(t) => Some(dec_digits(subject_type_code(t) as nat)),
                    None => None,
                },
            ) + opt_pair(
                "type"@,
                match kind {
                    Some(t) => Some(dec_digits(collection_type_code(t) as nat)),
                    None => None,
                },
            ) + opt_pair(
                "limit"@,
                match limit {
                    Some(n) => Some(dec_digits(n as nat)),
                    None => None,
                },
            ) + opt_pair(
                "offset"@,
                match offset {
                    Some(n) => Some(dec_digits(n as nat)),
                    None => None,
                },
            ));
        }
        r
    }

    /// The request for a user's collection entry of one subject.
    pub fn get_collection_subject_request(&self, username: &str, subject_id: u32) -> (r:
        HttpRequest)
        ensures
            r.method == HttpMethod::Get,
            r.url@ == self.base_path@ + "/v0/users/"@ + username@ + "/collections/"@ + dec_digits(
                subject_id as nat,
            ),
            pairs_view(r.query@) == Seq::<(Seq<char>, Seq<char>)>::empty(),
            pairs_view(r.headers@) == spec_headers(*self),
            r.body is None,
    {
        let url = self.base_path.clone().concat("/v0/users/").concat(username).concat(
            "/collections/",
        ).concat(u32_string(subject_id).as_str());
        self.request_builder(HttpMethod::Get, url.as_str())
    }

    /// The request that creates the caller's collection entry of a subject.
    pub fn post_collection_subject_request(
        &self,
        subject_id: u32,
        payload: Option<CollectionSubjectUpdate>,
    ) -> (r: HttpRequest)
        ensures
            r.method == HttpMethod::Post,
            r.url@ == self.base_path@ + "/v0/users/-/collections/"@ + dec_digits(subject_id as nat),
            pairs_view(r.query@) == Seq::<(Seq<char>, Seq<char>)>::empty(),
            pairs_view(r.headers@) == spec_headers(*self),
            r.body matches Some(b) && json_view(b) == opt_collection_subject_update_to_json(
                payload,
            ),
    {
        let url = self.base_path.clone().concat("/v0/users/-/collections/").concat(
            u32_string(subject_id).as_str(),
        );
        let mut r = self.request_builder(HttpMethod::Post, url.as_str());
        r.body = Some(
            match &payload {
                Some(p) => encode_collection_subject_update(p),
                None => JsonValue::Null,
            },
        );
        r
    }

    /// The request that amends the caller's collection entry of a subject.
    pub fn patch_collection_subject_request(
        &self,
        subject_id: u32,
        payload: Option<CollectionSubjectUpdate>,
    ) -> (r: HttpRequest)
        ensures
            r.method == HttpMethod::Patch,
            r.url@ == self.base_path@ + "/v0/users/-/collections/"@ + dec_digits(subject_id as nat),
            pairs_view(r.query@) == Seq::<(Seq<char>, Seq<char>)>::empty(),
            pairs_view(r.headers@) == spec_headers(*self),
            r.body matches Some(b) && json_view(b) == opt_collection_subject_update_to_json(
                payload,
            ),
    {
        let url = self.base_path.clone().concat("/v0/users/-/collections/").concat(
            u32_string(subject_id).as_str(),
        );
        let mut r = self.request_builder(HttpMethod::Patch, url.as_str());
        r.body = Some(
            match &payload {
                Some(p) => encode_collection_subject_update(p),
                None => JsonValue::Null,
            },
        );
        r
    }

    /// The request for the caller's episode collection states of a subject.
    pub fn get_collection_episodes_request(
        &self,
        subject_id: u32,
        offset: Option<u32>,
        limit: Option<u32>,
        episode_type: Option<EpisodeType>,
    ) -> (r: HttpRequest)
        ensures
            r.method == HttpMethod::Get,
            r.url@ == self.base_path@ + "/v0/users/-/collections/"@ + dec_digits(subject_id as nat)
                + "/episodes"@,
            pairs_view(r.query@) == opt_pair(
                "offset"@,
                match offset {
                    Some(n) => Some(dec_digits(n as nat)),
                    None => None,
                },
            ) + opt_pair(
                "limit"@,
                match limit {
                    Some(n) => Some(dec_digits(n as nat)),
                    None => None,
                },
            ) + opt_pair(
                "episode_type"@,
                match episode_type {
                    Some(t) => Some(dec_digits(crate::episode::episode_type_code(t) as nat)),
                    None => None,
                },
            ),
            pairs_view(r.headers@) == spec_headers(*self),
            r.body is None,
    {
        let url = self.base_path.clone().concat("/v0/users/-/collections/").concat(
            u32_string(subject_id).as_str(),
        ).concat("/episodes");
        let mut r = self.request_builder(HttpMethod::Get, url.as_str());
        if let Some(n) = offset {
            query_push(&mut r.query, "offset", u32_string(n));
        }
        if let Some(n) = limit {
            query_push(&mut r.query, "limit", u32_string(n));
        }
        if let Some(t) = episode_type {
            query_push(
                &mut r.query,
                "episode_type",
                u32_string(crate::episode::episode_type_code_exec(t)),
            );
        }
        proof {
            assert(pairs_view(r.query@) =~= opt_pair(
                "offset"@,
                match offset {
                    Some(n) => Some(dec_digits(n as nat)),
                    None => None,
                },
            ) + opt_pair(
                "limit"@,
                match limit {
                    Some(n) => Some(dec_digits(n as nat)),
                    None => None,
                },
            ) + opt_pair(
                "episode_type"@,
                match episode_type {
                    Some(t) => Some(dec_digits(crate::episode::episode_type_code(t) as nat)),
                    None => None,
                },
            ));
        }
        r
    }

    /// The request that batch-updates the caller's episode states of a
    /// subject.
    pub fn patch_collection_episodes_request(
        &self,
        subject_id: u32,
        payload: Option<CollectionEpisodesUpdate>,
    ) -> (r: HttpRequest)
        ensures
            r.method == HttpMethod::Patch,
            r.url@ == self.base_path@ + "/v0/users/-/collections/"@ + dec_digits(subject_id as nat)
                + "/episodes"@,
            pairs_view(r.query@) == Seq::<(Seq<char>, Seq<char>)>::empty(),
            pairs_view(r.headers@) == spec_headers(*self),
            r.body matches Some(b) && json_view(b) == opt_collection_episodes_update_to_json(
                payload,
            ),
    {
        let url = self.base_path.clone().concat("/v0/users/-/collections/").concat(
            u32_string(subject_id).as_str(),
        ).concat("/episodes");
        let mut r = self.request_builder(HttpMethod::Patch, url.as_str());
        r.body = Some(
            match &payload {
                Some(p) => encode_collection_episodes_update(p),
                None => JsonValue::Null,
            },
        );
        r
    }

    /// The request for the caller's collection state of one episode.
    pub fn get_collection_episode_request(&self, episode_id: u32) -> (r: HttpRequest)
        ensures
            r.method == HttpMethod::Get,
            r.url@ == self.base_path@ + "/v0/users/-/collections/-/episodes/"@ + dec_digits(
                episode_id as nat,
            ),
            pairs_view(r.query@) == Seq::<(Seq<char>, Seq<char>)>::empty(),
            pairs_view(r.headers@) == spec_headers(*self),
            r.body is None,
    {
        let url = self.base_path.clone().concat("/v0/users/-/collections/-/episodes/").concat(
            u32_string(episode_id).as_str(),
        );
        self.request_builder(HttpMethod::Get, url.as_str())
    }

    /// The request that sets the caller's collection state of one episode.
    pub fn put_collection_episode_request(
        &self,
        episode_id: u32,
        payload: Option<CollectionEpisodeUpdate>,
    ) -> (r: HttpRequest)
        ensures
            r.method == HttpMethod::Put,
            r.url@ == self.base_path@ + "/v0/users/-/collections/-/episodes/"@ + dec_digits(
                episode_id as nat,
            ),
            pairs_view(r.query@) == Seq::<(Seq<char>, Seq<char>)>::empty(),
            pairs_view(r.headers@) == spec_headers(*self),
            r.body matches Some(b) && json_view(b) == opt_collection_episode_update_to_json(
                payload,
            ),
    {
        let url = self.base_path.clone().concat("/v0/users/-/collections/-/episodes/").concat(
            u32_string(episode_id).as_str(),
        );
        let mut r = self.request_builder(HttpMethod::Put, url.as_str());
        r.body = Some(
            match &payload {
                Some(p) => encode_collection_episode_update(p),
                None => JsonValue::Null,
            },
        );
        r
    }

    /// The request for a user's collected characters.
    pub fn get_collection_characters_request(&self, username: &str) -> (r: HttpRequest)
        ensures
            r.method == HttpMethod::Get,
            r.url@ == self.base_path@ + "/v0/users/"@ + username@ + "/collections/-/characters"@,
            pairs_view(r.query@) == Seq::<(Seq<char>, Seq<char>)>::empty(),
            pairs_view(r.headers@) == spec_headers(*self),
            r.body is None,
    {
        let url = self.base_path.clone().concat("/v0/users/").concat(username).concat(
            "/collections/-/characters",
        );
        self.request_builder(HttpMethod::Get, url.as_str())
    }

    /// The request for a user's collection entry of one character.
    pub fn get_collection_character_request(&self, username: &str, character_id: u32) -> (r:
        HttpRequest)
        ensures
            r.method == HttpMethod::Get,
            r.url@ == self.base_path@ + "/v0/users/"@ + username@ + "/collections/-/characters/"@
                + dec_digits(character_id as nat),
            pairs_view(r.query@) == Seq::<(Seq<char>, Seq<char>)>::empty(),
            pairs_view(r.headers@) == spec_headers(*self),
            r.body is None,
    {
        let url = self.base_path.clone().concat("/v0/users/").concat(username).concat(
            "/collections/-/characters/",
        ).concat(u32_string(character_id).as_str());
        self.request_builder(HttpMethod::Get, url.as_str())
    }

    /// The request for a user's collected persons.
    pub fn get_collection_persons_request(&self, username: &str) -> (r: HttpRequest)
        ensures
            r.method == HttpMethod::Get,
            r.url@ == self.base_path@ + "/v0/users/"@ + username@ + "/collections/-/persons"@,
            pairs_view(r.query@) == Seq::<(Seq<char>, Seq<char>)>::empty(),
            pairs_view(r.headers@) == spec_headers(*self),
            r.body is None,
    {
        let url = self.base_path.clone().concat("/v0/users/").concat(username).concat(
            "/collections/-/persons",
        );
        self.request_builder(HttpMethod::Get, url.as_str())
    }

    /// The request for a user's collection entry of one person.
    pub fn get_collection_person_request(&self, username: &str, person_id: u32) -> (r: HttpRequest)
        ensures
            r.method == HttpMethod::Get,
            r.url@ == self.base_path@ + "/v0/users/"@ + username@ + "/collections/-/persons/"@
                + dec_digits(person_id as nat),
            pairs_view(r.query@) == Seq::<(Seq<char>, Seq<char>)>::empty(),
            pairs_view(r.headers@) == spec_headers(*self),
            r.body is None,
    {
        let url = self.base_path.clone().concat("/v0/users/").concat(username).concat(
            "/collections/-/persons/",
        ).concat(u32_string(person_id).as_str());
        self.request_builder(HttpMethod::Get, url.as_str())
    }
}

/// One episode with its state in the caller's collection.
#[derive(Debug)]
pub struct CollectionEpisode {
    pub episode: Episode,
    pub kind: CollectionEpisodeType,
    pub updated_at: u32,
}

/// The view of `CollectionEpisode`.
pub struct CollectionEpisodeData {
    pub episode: EpisodeData,
    pub kind: CollectionEpisodeType,
    pub updated_at: u32,
}

pub open spec fn collection_episode_view(x: CollectionEpisode) -> CollectionEpisodeData {
    CollectionEpisodeData {
        episode: episode_view(x.episode),
        kind: x.kind,
        updated_at: x.updated_at,
    }
}

pub open spec fn collection_episode_of_json(jd: JsonData) -> Option<CollectionEpisodeData> {
    match (crate::json::spec_field_record::<Episode>(jd, "episode"@), data_field(jd, "type"@),
    spec_field_u32(jd, "updated_at"@)) {
        (Some(episode), Some(JsonData::Int(i)), Some(updated_at)) => match collection_episode_type_of_code(
            i,
        ) {
            Some(kind) => Some(CollectionEpisodeData { episode, kind, updated_at }),
            None => None,
        },
        _ => None,
    }
}

pub open spec fn collection_episode_to_json(d: CollectionEpisodeData) -> JsonData {
    JsonData::Obj(
        seq![
            ("episode"@, episode_to_json(d.episode)),
            ("type"@, JsonData::Int(collection_episode_type_code(d.kind))),
            ("updated_at"@, JsonData::Int(d.updated_at as i64)),
        ],
    )
}

impl JsonCodec for CollectionEpisode {
    type Data = CollectionEpisodeData;

    open spec fn of_json(jd: JsonData) -> Option<CollectionEpisodeData> {
        collection_episode_of_json(jd)
    }

    open spec fn to_json(d: CollectionEpisodeData) -> JsonData {
        collection_episode_to_json(d)
    }

    open spec fn view_data(self) -> CollectionEpisodeData {
        collection_episode_view(self)
    }

    fn decode(v: &JsonValue) -> (r: Option<Self>) {
        let episode = match crate::json::field_record::<Episode>(v, "episode") {
            Some(x) => x,
            None => {
                return None;
            },
        };
        let kind = match get_field(v, "type") {
            Some(x) => match x {
                JsonValue::Int(i) => match collection_episode_type_from_code(*i) {
                    Some(k) => k,
                    None => {
                        return None;
                    },
                },
                _ => {
                    return None;
                },
            },
            None => {
                return None;
            },
        };
        let updated_at = match field_u32(v, "updated_at") {
            Some(x) => x,
            None => {
                return None;
            },
        };
        Some(CollectionEpisode { episode, kind, updated_at })
    }

    fn encode(&self) -> (r: JsonValue) {
        let mut fields: Vec<(String, JsonValue)> = Vec::new();
        obj_field(&mut fields, "episode", self.episode.encode());
        obj_field(
            &mut fields,
            "type",
            JsonValue::Int(collection_episode_type_code_exec(self.kind) as i64),
        );
        obj_field(&mut fields, "updated_at", JsonValue::Int(self.updated_at as i64));
        proof {
            assert(fields_json_view(fields@) =~= collection_episode_to_json(
                collection_episode_view(*self),
            )->Obj_0);
        }
        JsonValue::Obj(fields)
    }

    proof fn round_trip(d: CollectionEpisodeData) {
        let fs = collection_episode_to_json(d)->Obj_0;
        reveal_strlit("episode");
        reveal_strlit("type");
        reveal_strlit("updated_at");
        assert("episode"@.len() == 7);
        assert("type"@.len() == 4);
        assert("updated_at"@.len() == 10);
        lemma_lookup_at(fs, "episode"@, 0);
        lemma_lookup_at(fs, "type"@, 1);
        lemma_lookup_at(fs, "updated_at"@, 2);
        Episode::round_trip(d.episode);
        lemma_collection_episode_type_round_trip(d.kind);
    }
}

/// One character in a user's collection.
#[derive(Debug)]
pub struct CollectionCharacter {
    pub id: u32,
    pub name: String,
    pub kind: crate::character::CharacterType,
    pub images: Option<SimpleImage>,
    pub created_at: String,
}

/// The view of `CollectionCharacter`.
pub struct CollectionCharacterData {
    pub id: u32,
    pub name: Seq<char>,
    pub kind: crate::character::CharacterType,
    pub images: Option<SimpleImageData>,
    pub created_at: Seq<char>,
}

pub open spec fn collection_character_view(x: CollectionCharacter) -> CollectionCharacterData {
    CollectionCharacterData {
        id: x.id,
        name: x.name@,
        kind: x.kind,
        images: match x.images {
            Some(im) => Some(crate::model::simple_image_view(im)),
            None => None,
        },
        created_at: x.created_at@,
    }
}

pub open spec fn collection_character_of_json(jd: JsonData) -> Option<CollectionCharacterData> {
    match (spec_field_u32(jd, "id"@), spec_field_str(jd, "name"@),
    crate::character::spec_field_character_type(jd, "type"@), crate::json::spec_field_opt_record::<
        SimpleImage,
    >(jd, "images"@), spec_field_str(jd, "created_at"@)) {
        (Some(id), Some(name), Some(kind), Some(images), Some(created_at)) => Some(
            CollectionCharacterData { id, name, kind, images, created_at },
        ),
        _ => None,
    }
}

pub open spec fn collection_character_to_json(d: CollectionCharacterData) -> JsonData {
    JsonData::Obj(
        seq![
            ("id"@, JsonData::Int(d.id as i64)),
            ("name"@, JsonData::Str(d.name)),
            ("type"@, JsonData::Int(crate::character::character_type_code(d.kind))),
            (
                "images"@,
                match d.images {
                    Some(im) => crate::model::simple_image_to_json(im),
                    None => JsonData::Null,
                },
            ),
            ("created_at"@, JsonData::Str(d.created_at)),
        ],
    )
}

impl JsonCodec for CollectionCharacter {
    type Data = CollectionCharacterData;

    open spec fn of_json(jd: JsonData) -> Option<CollectionCharacterData> {
        collection_character_of_json(jd)
    }

    open spec fn to_json(d: CollectionCharacterData) -> JsonData {
        collection_character_to_json(d)
    }

    open spec fn view_data(self) -> CollectionCharacterData {
        collection_character_view(self)
    }

    fn decode(v: &JsonValue) -> (r: Option<Self>) {
        let id = match field_u32(v, "id") {
            Some(x) => x,
            None => {
                return None;
            },
        };
        let name = match field_str(v, "name") {
            Some(x) => x,
            None => {
                return None;
            },
        };
        let kind = match crate::character::field_character_type(v, "type") {
            Some(x) => x,
            None => {
                return None;
            },
        };
        let images = match crate::json::field_opt_record::<SimpleImage>(v, "images") {
            Some(x) => x,
            None => {
                return None;
            },
        };
        let created_at = match field_str(v, "created_at") {
            Some(x) => x,
            None => {
                return None;
            },
        };
        Some(CollectionCharacter { id, name, kind, images, created_at })
    }

    fn encode(&self) -> (r: JsonValue) {
        let mut fields: Vec<(String, JsonValue)> = Vec::new();
        obj_field(&mut fields, "id", JsonValue::Int(self.id as i64));
        obj_field(&mut fields, "name", JsonValue::Str(self.name.clone()));
        obj_field(
            &mut fields,
            "type",
            JsonValue::Int(crate::character::character_type_code_exec(self.kind)),
        );
        let images = match &self.images {
            Some(im) => crate::model::encode_simple_image(im),
            None => JsonValue::Null,
        };
        obj_field(&mut fields, "images", images);
        obj_field(&mut fields, "created_at", JsonValue::Str(self.created_at.clone()));
        proof {
            assert(fields_json_view(fields@) =~= collection_character_to_json(
                collection_character_view(*self),
            )->Obj_0);
        }
        JsonValue::Obj(fields)
    }

    proof fn round_trip(d: CollectionCharacterData) {
        let fs = collection_character_to_json(d)->Obj_0;
        reveal_strlit("id");
        reveal_strlit("name");
        reveal_strlit("type");
        reveal_strlit("images");
        reveal_strlit("created_at");
        assert("id"@.len() == 2);
        assert("name"@.len() == 4 && "name"@[0] == 'n');
        assert("type"@.len() == 4 && "type"@[0] == 't');
        assert("images"@.len() == 6);
        assert("created_at"@.len() == 10);
        lemma_lookup_at(fs, "id"@, 0);
        lemma_lookup_at(fs, "name"@, 1);
        lemma_lookup_at(fs, "type"@, 2);
        lemma_lookup_at(fs, "images"@, 3);
        lemma_lookup_at(fs, "created_at"@, 4);
        crate::character::lemma_character_type_round_trip(d.kind);
        if d.images is Some {
            crate::model::lemma_simple_image_round_trip(d.images->0);
        }
    }
}

/// One person in a user's collection.
#[derive(Debug)]
pub struct CollectionPerson {
    pub id: u32,
    pub name: String,
    pub kind: PersonType,
    pub career: Option<Vec<PersonCareer>>,
    pub images: Option<SimpleImage>,
    pub created_at: String,
}

/// The view of `CollectionPerson`.
pub struct CollectionPersonData {
    pub id: u32,
    pub name: Seq<char>,
    pub kind: PersonType,
    pub career: Option<Seq<PersonCareer>>,
    pub images: Option<SimpleImageData>,
    pub created_at: Seq<char>,
}

pub open spec fn collection_person_view(x: CollectionPerson) -> CollectionPersonData {
    CollectionPersonData {
        id: x.id,
        name: x.name@,
        kind: x.kind,
        career: match x.career {
            Some(cs) => Some(list_view(cs@)),
            None => None,
        },
        images: match x.images {
            Some(im) => Some(crate::model::simple_image_view(im)),
            None => None,
        },
        created_at: x.created_at@,
    }
}

pub open spec fn collection_person_of_json(jd: JsonData) -> Option<CollectionPersonData> {
    match (spec_field_u32(jd, "id"@), spec_field_str(jd, "name"@),
    crate::person::spec_field_person_type(jd, "type"@), crate::json::spec_field_opt_list::<
        PersonCareer,
    >(jd, "career"@), crate::json::spec_field_opt_record::<SimpleImage>(jd, "images"@),
    spec_field_str(jd, "created_at"@)) {
        (Some(id), Some(name), Some(kind), Some(career), Some(images), Some(created_at)) => Some(
            CollectionPersonData { id, name, kind, career, images, created_at },
        ),
        _ => None,
    }
}

pub open spec fn collection_person_to_json(d: CollectionPersonData) -> JsonData {
    JsonData::Obj(
        seq![
            ("id"@, JsonData::Int(d.id as i64)),
            ("name"@, JsonData::Str(d.name)),
            ("type"@, JsonData::Int(person_type_code(d.kind))),
            (
                "career"@,
                match d.career {
                    Some(cs) => JsonData::Arr(
                        cs.map_values(|c: PersonCareer| PersonCareer::to_json(c)),
                    ),
                    None => JsonData::Null,
                },
            ),
            (
                "images"@,
                match d.images {
                    Some(im) => crate::model::simple_image_to_json(im),
                    None => JsonData::Null,
                },
            ),
            ("created_at"@, JsonData::Str(d.created_at)),
        ],
    )
}

impl JsonCodec for CollectionPerson {
    type Data = CollectionPersonData;

    open spec fn of_json(jd: JsonData) -> Option<CollectionPersonData> {
        collection_person_of_json(jd)
    }

    open spec fn to_json(d: CollectionPersonData) -> JsonData {
        collection_person_to_json(d)
    }

    open spec fn view_data(self) -> CollectionPersonData {
        collection_person_view(self)
    }

    fn decode(v: &JsonValue) -> (r: Option<Self>) {
        let id = match field_u32(v, "id") {
            Some(x) => x,
            None => {
                return None;
            },
        };
        let name = match field_str(v, "name") {
            Some(x) => x,
            None => {
                return None;
            },
        };
        let kind = match crate::person::field_person_type(v, "type") {
            Some(x) => x,
            None => {
                return None;
            },
        };
        let career = match crate::json::field_opt_list::<PersonCareer>(v, "career") {
            Some(x) => x,
            None => {
                return None;
            },
        };
        let images = match crate::json::field_opt_record::<SimpleImage>(v, "images") {
            Some(x) => x,
            None => {
                return None;
            },
        };
        let created_at = match field_str(v, "created_at") {
            Some(x) => x,
            None => {
                return None;
            },
        };
        Some(CollectionPerson { id, name, kind, career, images, created_at })
    }

    fn encode(&self) -> (r: JsonValue) {
        let mut fields: Vec<(String, JsonValue)> = Vec::new();
        obj_field(&mut fields, "id", JsonValue::Int(self.id as i64));
        obj_field(&mut fields, "name", JsonValue::Str(self.name.clone()));
        obj_field(
            &mut fields,
            "type",
            JsonValue::Int(crate::person::person_type_code_exec(self.kind)),
        );
        let career = match &self.career {
            Some(cs) => JsonValue::Arr(crate::json::encode_list::<PersonCareer>(cs)),
            None => JsonValue::Null,
        };
        obj_field(&mut fields, "career", career);
        let images = match &self.images {
            Some(im) => crate::model::encode_simple_image(im),
            None => JsonValue::Null,
        };
        obj_field(&mut fields, "images", images);
        obj_field(&mut fields, "created_at", JsonValue::Str(self.created_at.clone()));
        proof {
            assert(fields_json_view(fields@) =~= collection_person_to_json(
                collection_person_view(*self),
            )->Obj_0);
        }
        JsonValue::Obj(fields)
    }

    proof fn round_trip(d: CollectionPersonData) {
        let fs = collection_person_to_json(d)->Obj_0;
        reveal_strlit("id");
        reveal_strlit("name");
        reveal_strlit("type");
        reveal_strlit("career");
        reveal_strlit("images");
        reveal_strlit("created_at");
        assert("id"@.len() == 2);
        assert("name"@.len() == 4 && "name"@[0] == 'n');
        assert("type"@.len() == 4 && "type"@[0] == 't');
        assert("career"@.len() == 6 && "career"@[0] == 'c' && "career"@[1] == 'a');
        assert("images"@.len() == 6 && "images"@[0] == 'i');
        assert("created_at"@.len() == 10);
        lemma_lookup_at(fs, "id"@, 0);
        lemma_lookup_at(fs, "name"@, 1);
        lemma_lookup_at(fs, "type"@, 2);
        lemma_lookup_at(fs, "career"@, 3);
        lemma_lookup_at(fs, "images"@, 4);
        lemma_lookup_at(fs, "created_at"@, 5);
        crate::person::lemma_person_type_round_trip(d.kind);
        if d.career is Some {
            crate::json::lemma_list_round_trip::<PersonCareer>(d.career->0);
        }
        if d.images is Some {
            crate::model::lemma_simple_image_round_trip(d.images->0);
        }
    }
}

/// The subject details a collection entry may carry.
#[derive(Debug)]
pub struct UserSubject {
    pub id: u32,
    pub kind: SubjectType,
    pub name: String,
    pub name_cn: String,
    pub short_summary: String,
    pub date: String,
    pub images: crate::model::Image,
    pub volumes: u32,
    pub eps: u32,
    pub collection_total: u32,
    pub score: String,
    pub rank: u32,
    pub tags: Vec<Tag>,
}

/// The view of `UserSubject`.
pub struct UserSubjectData {
    pub id: u32,
    pub kind: SubjectType,
    pub name: Seq<char>,
    pub name_cn: Seq<char>,
    pub short_summary: Seq<char>,
    pub date: Seq<char>,
    pub images: crate::model::ImageData,
    pub volumes: u32,
    pub eps: u32,
    pub collection_total: u32,
    pub score: Seq<char>,
    pub rank: u32,
    pub tags: Seq<TagData>,
}

pub open spec fn user_subject_view(x: UserSubject) -> UserSubjectData {
    UserSubjectData {
        id: x.id,
        kind: x.kind,
        name: x.name@,
        name_cn: x.name_cn@,
        short_summary: x.short_summary@,
        date: x.date@,
        images: crate::model::image_view(x.images),
        volumes: x.volumes,
        eps: x.eps,
        collection_total: x.collection_total,
        score: x.score@,
        rank: x.rank,
        tags: list_view(x.tags@),
    }
}

pub open spec fn user_subject_of_json(jd: JsonData) -> Option<UserSubjectData> {
    match (spec_field_u32(jd, "id"@), spec_field_subject_type(jd, "type"@), spec_field_str(
        jd,
        "name"@,
    ), spec_field_str(jd, "name_cn"@), spec_field_str(jd, "short_summary"@), spec_field_str(
        jd,
        "date"@,
    ), crate::json::spec_field_record::<crate::model::Image>(jd, "images"@)) {
        (Some(id), Some(kind), Some(name), Some(name_cn), Some(short_summary), Some(date), Some(
            images,
        )) => match (
            spec_field_u32(jd, "volumes"@),
            spec_field_u32(jd, "eps"@),
            spec_field_u32(jd, "collection_total"@),
            crate::json::spec_field_numtext(jd, "score"@),
            spec_field_u32(jd, "rank"@),
            crate::json::spec_field_list::<Tag>(jd, "tags"@),
        ) {
            (Some(volumes), Some(eps), Some(collection_total), Some(score), Some(rank), Some(tags))
                => Some(
                UserSubjectData {
                    id,
                    kind,
                    name,
                    name_cn,
                    short_summary,
                    date,
                    images,
                    volumes,
                    eps,
                    collection_total,
                    score,
                    rank,
                    tags,
                },
            ),
            _ => None,
        },
        _ => None,
    }
}

pub open spec fn user_subject_to_json(d: UserSubjectData) -> JsonData {
    JsonData::Obj(
        seq![
            ("id"@, JsonData::Int(d.id as i64)),
            ("type"@, JsonData::Int(subject_type_code(d.kind))),
            ("name"@, JsonData::Str(d.name)),
            ("name_cn"@, JsonData::Str(d.name_cn)),
            ("short_summary"@, JsonData::Str(d.short_summary)),
            ("date"@, JsonData::Str(d.date)),
            ("images"@, crate::model::image_to_json(d.images)),
            ("volumes"@, JsonData::Int(d.volumes as i64)),
            ("eps"@, JsonData::Int(d.eps as i64)),
            ("collection_total"@, JsonData::Int(d.collection_total as i64)),
            ("score"@, JsonData::Num(d.score)),
            ("rank"@, JsonData::Int(d.rank as i64)),
            ("tags"@, JsonData::Arr(d.tags.map_values(|t: TagData| Tag::to_json(t)))),
        ],
    )
}

impl JsonCodec for UserSubject {
    type Data = UserSubjectData;

    open spec fn of_json(jd: JsonData) -> Option<UserSubjectData> {
        user_subject_of_json(jd)
    }

    open spec fn to_json(d: UserSubjectData) -> JsonData {
        user_subject_to_json(d)
    }

    open spec fn view_data(self) -> UserSubjectData {
        user_subject_view(self)
    }

    fn decode(v: &JsonValue) -> (r: Option<Self>) {
        let id = match field_u32(v, "id") {
            Some(x) => x,
            None => {
                return None;
            },
        };
        let kind = match crate::subject::field_subject_type(v, "type") {
            Some(x) => x,
            None => {
                return None;
            },
        };
        let name = match field_str(v, "name") {
            Some(x) => x,
            None => {
                return None;
            },
        };
        let name_cn = match field_str(v, "name_cn") {
            Some(x) => x,
            None => {
                return None;
            },
        };
        let short_summary = match field_str(v, "short_summary") {
            Some(x) => x,
            None => {
                return None;
            },
        };
        let date = match field_str(v, "date") {
            Some(x) => x,
            None => {
                return None;
            },
        };
        let images = match crate::json::field_record::<crate::model::Image>(v, "images") {
            Some(x) => x,
            None => {
                return None;
            },
        };
        let volumes = match field_u32(v, "volumes") {
            Some(x) => x,
            None => {
                return None;
            },
        };
        let eps = match field_u32(v, "eps") {
            Some(x) => x,
            None => {
                return None;
            },
        };
        let collection_total = match field_u32(v, "collection_total") {
            Some(x) => x,
            None => {
                return None;
            },
        };
        let score = match crate::json::field_numtext(v, "score") {
            Some(x) => x,
            None => {
                return None;
            },
        };
        let rank = match field_u32(v, "rank") {
            Some(x) => x,
            None => {
                return None;
            },
        };
        let tags = match crate::json::field_list::<Tag>(v, "tags") {
            Some(x) => x,
            None => {
                return None;
            },
        };
        Some(
            UserSubject {
                id,
                kind,
                name,
                name_cn,
                short_summary,
                date,
                images,
                volumes,
                eps,
                collection_total,
                score,
                rank,
                tags,
            },
        )
    }

    fn encode(&self) -> (r: JsonValue) {
        let mut fields: Vec<(String, JsonValue)> = Vec::new();
        obj_field(&mut fields, "id", JsonValue::Int(self.id as i64));
        obj_field(&mut fields, "type", JsonValue::Int(subject_type_code_exec(self.kind) as i64));
        obj_field(&mut fields, "name", JsonValue::Str(self.name.clone()));
        obj_field(&mut fields, "name_cn", JsonValue::Str(self.name_cn.clone()));
        obj_field(&mut fields, "short_summary", JsonValue::Str(self.short_summary.clone()));
        obj_field(&mut fields, "date", JsonValue::Str(self.date.clone()));
        obj_field(&mut fields, "images", crate::model::encode_image(&self.images));
        obj_field(&mut fields, "volumes", JsonValue::Int(self.volumes as i64));
        obj_field(&mut fields, "eps", JsonValue::Int(self.eps as i64));
        obj_field(&mut fields, "collection_total", JsonValue::Int(self.collection_total as i64));
        obj_field(&mut fields, "score", JsonValue::Num(self.score.clone()));
        obj_field(&mut fields, "rank", JsonValue::Int(self.rank as i64));
        obj_field(
            &mut fields,
            "tags",
            JsonValue::Arr(crate::json::encode_list::<Tag>(&self.tags)),
        );
        proof {
            crate::json::lemma_list_round_trip::<Tag>(user_subject_view(*self).tags);
            assert(fields_json_view(fields@) =~= user_subject_to_json(user_subject_view(*self))
                ->Obj_0);
        }
        JsonValue::Obj(fields)
    }

    proof fn round_trip(d: UserSubjectData) {
        let fs = user_subject_to_json(d)->Obj_0;
        reveal_strlit("id");
        reveal_strlit("type");
        reveal_strlit("name");
        reveal_strlit("name_cn");
        reveal_strlit("short_summary");
        reveal_strlit("date");
        reveal_strlit("images");
        reveal_strlit("volumes");
        reveal_strlit("eps");
        reveal_strlit("collection_total");
        reveal_strlit("score");
        reveal_strlit("rank");
        reveal_strlit("tags");
        assert("id"@.len() == 2);
        assert("type"@.len() == 4 && "type"@[0] == 't' && "type"@[1] == 'y');
        assert("name"@.len() == 4 && "name"@[0] == 'n');
        assert("name_cn"@.len() == 7);
        assert("short_summary"@.len() == 13);
        assert("date"@.len() == 4 && "date"@[0] == 'd');
        assert("images"@.len() == 6);
        assert("volumes"@.len() == 7 && "volumes"@[0] == 'v');
        assert("eps"@.len() == 3);
        assert("collection_total"@.len() == 16);
        assert("score"@.len() == 5);
        assert("rank"@.len() == 4 && "rank"@[0] == 'r');
        assert("tags"@.len() == 4 && "tags"@[0] == 't' && "tags"@[1] == 'a');
        lemma_lookup_at(fs, "id"@, 0);
        lemma_lookup_at(fs, "type"@, 1);
        lemma_lookup_at(fs, "name"@, 2);
        lemma_lookup_at(fs, "name_cn"@, 3);
        lemma_lookup_at(fs, "short_summary"@, 4);
        lemma_lookup_at(fs, "date"@, 5);
        lemma_lookup_at(fs, "images"@, 6);
        lemma_lookup_at(fs, "volumes"@, 7);
        lemma_lookup_at(fs, "eps"@, 8);
        lemma_lookup_at(fs, "collection_total"@, 9);
        lemma_lookup_at(fs, "score"@, 10);
        lemma_lookup_at(fs, "rank"@, 11);
        lemma_lookup_at(fs, "tags"@, 12);
        crate::subject::lemma_subject_type_round_trip(d.kind);
        crate::model::lemma_image_round_trip(d.images);
        crate::json::lemma_list_round_trip::<Tag>(d.tags);
    }
}

/// A user's collection entry of one subject.
#[derive(Debug)]
pub struct CollectionSubject {
    pub subject_id: u32,
    pub subject_type: SubjectType,
    pub rate: u32,
    pub kind: CollectionType,
    pub comment: Option<String>,
    pub tags: Vec<String>,
    pub ep_status: u32,
    pub vol_status: u32,
    pub updated_at: String,
    pub private: bool,
    pub subject: Option<UserSubject>,
}

/// The view of `CollectionSubject`.
pub struct CollectionSubjectData {
    pub subject_id: u32,
    pub subject_type: SubjectType,
    pub rate: u32,
    pub kind: CollectionType,
    pub comment: Option<Seq<char>>,
    pub tags: Seq<Seq<char>>,
    pub ep_status: u32,
    pub vol_status: u32,
    pub updated_at: Seq<char>,
    pub private: bool,
    pub subject: Option<UserSubjectData>,
}

pub open spec fn collection_subject_view(x: CollectionSubject) -> CollectionSubjectData {
    CollectionSubjectData {
        subject_id: x.subject_id,
        subject_type: x.subject_type,
        rate: x.rate,
        kind: x.kind,
        comment: crate::error::opt_str_view(x.comment),
        tags: strs_view(x.tags@),
        ep_status: x.ep_status,
        vol_status: x.vol_status,
        updated_at: x.updated_at@,
        private: x.private,
        subject: match x.subject {
            Some(s) => Some(user_subject_view(s)),
            None => None,
        },
    }
}

pub open spec fn collection_subject_of_json(jd: JsonData) -> Option<CollectionSubjectData> {
    match (spec_field_u32(jd, "subject_id"@), spec_field_subject_type(jd, "subject_type"@),
    spec_field_u32(jd, "rate"@), data_field(jd, "type"@), spec_field_opt_str(jd, "comment"@),
    crate::json::spec_field_strs(jd, "tags"@)) {
        (Some(subject_id), Some(subject_type), Some(rate), Some(JsonData::Int(tc)), Some(comment),
        Some(tags)) => match (
            collection_type_of_code(tc),
            spec_field_u32(jd, "ep_status"@),
            spec_field_u32(jd, "vol_status"@),
            spec_field_str(jd, "updated_at"@),
            spec_field_bool(jd, "private"@),
            crate::json::spec_field_opt_record::<UserSubject>(jd, "subject"@),
        ) {
            (Some(kind), Some(ep_status), Some(vol_status), Some(updated_at), Some(private), Some(
                subject,
            )) => Some(
                CollectionSubjectData {
                    subject_id,
                    subject_type,
                    rate,
                    kind,
                    comment,
                    tags,
                    ep_status,
                    vol_status,
                    updated_at,
                    private,
                    subject,
                },
            ),
            _ => None,
        },
        _ => None,
    }
}

pub open spec fn collection_subject_to_json(d: CollectionSubjectData) -> JsonData {
    JsonData::Obj(
        seq![
            ("subject_id"@, JsonData::Int(d.subject_id as i64)),
            ("subject_type"@, JsonData::Int(subject_type_code(d.subject_type))),
            ("rate"@, JsonData::Int(d.rate as i64)),
            ("type"@, JsonData::Int(collection_type_code(d.kind))),
            ("comment"@, opt_str_to_json(d.comment)),
            ("tags"@, JsonData::Arr(d.tags.map_values(|s: Seq<char>| JsonData::Str(s)))),
            ("ep_status"@, JsonData::Int(d.ep_status as i64)),
            ("vol_status"@, JsonData::Int(d.vol_status as i64)),
            ("updated_at"@, JsonData::Str(d.updated_at)),
            ("private"@, JsonData::Bool(d.private)),
            (
                "subject"@,
                match d.subject {
                    Some(s) => user_subject_to_json(s),
                    None => JsonData::Null,
                },
            ),
        ],
    )
}

impl JsonCodec for CollectionSubject {
    type Data = CollectionSubjectData;

    open spec fn of_json(jd: JsonData) -> Option<CollectionSubjectData> {
        collection_subject_of_json(jd)
    }

    open spec fn to_json(d: CollectionSubjectData) -> JsonData {
        collection_subject_to_json(d)
    }

    open spec fn view_data(self) -> CollectionSubjectData {
        collection_subject_view(self)
    }

    fn decode(v: &JsonValue) -> (r: Option<Self>) {
        let subject_id = match field_u32(v, "subject_id") {
            Some(x) => x,
            None => {
                return None;
            },
        };
        let subject_type = match crate::subject::field_subject_type(v, "subject_type") {
            Some(x) => x,
            None => {
                return None;
            },
        };
        let rate = match field_u32(v, "rate") {
            Some(x) => x,
            None => {
                return None;
            },
        };
        let kind = match get_field(v, "type") {
            Some(x) => match x {
                JsonValue::Int(i) => match collection_type_from_code(*i) {
                    Some(k) => k,
                    None => {
                        return None;
                    },
                },
                _ => {
                    return None;
                },
            },
            None => {
                return None;
            },
        };
        let comment = match field_opt_str(v, "comment") {
            Some(x) => x,
            None => {
                return None;
            },
        };
        let tags = match crate::json::field_strs(v, "tags") {
            Some(x) => x,
            None => {
                return None;
            },
        };
        let ep_status = match field_u32(v, "ep_status") {
            Some(x) => x,
            None => {
                return None;
            },
        };
        let vol_status = match field_u32(v, "vol_status") {
            Some(x) => x,
            None => {
                return None;
            },
        };
        let updated_at = match field_str(v, "updated_at") {
            Some(x) => x,
            None => {
                return None;
            },
        };
        let private = match crate::json::field_bool(v, "private") {
            Some(x) => x,
            None => {
                return None;
            },
        };
        let subject = match crate::json::field_opt_record::<UserSubject>(v, "subject") {
            Some(x) => x,
            None => {
                return None;
            },
        };
        Some(
            CollectionSubject {
                subject_id,
                subject_type,
                rate,
                kind,
                comment,
                tags,
                ep_status,
                vol_status,
                updated_at,
                private,
                subject,
            },
        )
    }

    fn encode(&self) -> (r: JsonValue) {
        let mut fields: Vec<(String, JsonValue)> = Vec::new();
        obj_field(&mut fields, "subject_id", JsonValue::Int(self.subject_id as i64));
        obj_field(
            &mut fields,
            "subject_type",
            JsonValue::Int(subject_type_code_exec(self.subject_type) as i64),
        );
        obj_field(&mut fields, "rate", JsonValue::Int(self.rate as i64));
        obj_field(&mut fields, "type", JsonValue::Int(collection_type_code_exec(self.kind) as i64));
        let comment = match &self.comment {
            Some(s) => JsonValue::Str(s.clone()),
            None => JsonValue::Null,
        };
        obj_field(&mut fields, "comment", comment);
        obj_field(&mut fields, "tags", JsonValue::Arr(crate::json::encode_str_list(&self.tags)));
        obj_field(&mut fields, "ep_status", JsonValue::Int(self.ep_status as i64));
        obj_field(&mut fields, "vol_status", JsonValue::Int(self.vol_status as i64));
        obj_field(&mut fields, "updated_at", JsonValue::Str(self.updated_at.clone()));
        obj_field(&mut fields, "private", JsonValue::Bool(self.private));
        let subject = match &self.subject {
            Some(s) => s.encode(),
            None => JsonValue::Null,
        };
        obj_field(&mut fields, "subject", subject);
        proof {
            assert(fields_json_view(fields@) =~= collection_subject_to_json(
                collection_subject_view(*self),
            )->Obj_0);
        }
        JsonValue::Obj(fields)
    }

    proof fn round_trip(d: CollectionSubjectData) {
        let fs = collection_subject_to_json(d)->Obj_0;
        reveal_strlit("subject_id");
        reveal_strlit("subject_type");
        reveal_strlit("rate");
        reveal_strlit("type");
        reveal_strlit("comment");
        reveal_strlit("tags");
        reveal_strlit("ep_status");
        reveal_strlit("vol_status");
        reveal_strlit("updated_at");
        reveal_strlit("private");
        reveal_strlit("subject");
        assert("subject_id"@.len() == 10 && "subject_id"@[8] == 'i');
        assert("subject_type"@.len() == 12);
        assert("rate"@.len() == 4 && "rate"@[0] == 'r');
        assert("type"@.len() == 4 && "type"@[0] == 't' && "type"@[1] == 'y');
        assert("comment"@.len() == 7);
        assert("tags"@.len() == 4 && "tags"@[0] == 't' && "tags"@[1] == 'a');
        assert("ep_status"@.len() == 9 && "ep_status"@[0] == 'e');
        assert("vol_status"@.len() == 10 && "vol_status"@[0] == 'v');
        assert("updated_at"@.len() == 10 && "updated_at"@[0] == 'u');
        assert("private"@.len() == 7 && "private"@[0] == 'p');
        assert("subject"@.len() == 7 && "subject"@[0] == 's');
        lemma_lookup_at(fs, "subject_id"@, 0);
        lemma_lookup_at(fs, "subject_type"@, 1);
        lemma_lookup_at(fs, "rate"@, 2);
        lemma_lookup_at(fs, "type"@, 3);
        lemma_lookup_at(fs, "comment"@, 4);
        lemma_lookup_at(fs, "tags"@, 5);
        lemma_lookup_at(fs, "ep_status"@, 6);
        lemma_lookup_at(fs, "vol_status"@, 7);
        lemma_lookup_at(fs, "updated_at"@, 8);
        lemma_lookup_at(fs, "private"@, 9);
        lemma_lookup_at(fs, "subject"@, 10);
        crate::subject::lemma_subject_type_round_trip(d.subject_type);
        lemma_collection_type_round_trip(d.kind);
        crate::json::lemma_str_list_round_trip(d.tags);
        if d.subject is Some {
            UserSubject::round_trip(d.subject->0);
        }
    }
}

} // verus!
