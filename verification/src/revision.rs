use crate::client::{opt_pair, pairs_view, query_push, spec_headers, BangumiClient, HttpMethod, HttpRequest};
use crate::json::{
    clone_json, data_field, field_opt_str, field_str, field_u32, fields_json_view, get_field,
    json_view, obj_field, spec_field_opt_str, spec_field_str, spec_field_u32, JsonCodec, JsonData,
    JsonValue,
};
use crate::model::lemma_lookup_at;
use crate::subject::opt_str_to_json;
use crate::text::{dec_digits, u32_string};
use vstd::prelude::*;
use vstd::string::StringExecFns;

verus! {

/// Who made a revision.
#[derive(Debug)]
pub struct Creator {
    pub username: String,
    pub nickname: String,
}

/// The view of `Creator`.
pub struct CreatorData {
    pub username: Seq<char>,
    pub nickname: Seq<char>,
}

pub open spec fn creator_view(x: Creator) -> CreatorData {
    CreatorData { username: x.username@, nickname: x.nickname@ }
}

pub open spec fn creator_of_json(jd: JsonData) -> Option<CreatorData> {
    match (spec_field_str(jd, "username"@), spec_field_str(jd, "nickname"@)) {
        (Some(u), Some(n)) => Some(CreatorData { username: u, nickname: n }),
        _ => None,
    }
}

pub open spec fn creator_to_json(d: CreatorData) -> JsonData {
    JsonData::Obj(
        seq![("username"@, JsonData::Str(d.username)), ("nickname"@, JsonData::Str(d.nickname))],
    )
}

impl JsonCodec for Creator {
    type Data = CreatorData;

    open spec fn of_json(jd: JsonData) -> Option<CreatorData> {
        creator_of_json(jd)
    }

    open spec fn to_json(d: CreatorData) -> JsonData {
        creator_to_json(d)
    }

    open spec fn view_data(self) -> CreatorData {
        creator_view(self)
    }

    fn decode(v: &JsonValue) -> (r: Option<Self>) {
        let username = match field_str(v, "username") {
            Some(x) => x,
            None => {
                return None;
            },
        };
        let nickname = match field_str(v, "nickname") {
            Some(x) => x,
            None => {
                return None;
            },
        };
        Some(Creator { username, nickname })
    }

    fn encode(&self) -> (r: JsonValue) {
        let mut fields: Vec<(String, JsonValue)> = Vec::new();
        obj_field(&mut fields, "username", JsonValue::Str(self.username.clone()));
        obj_field(&mut fields, "nickname", JsonValue::Str(self.nickname.clone()));
        proof {
            assert(fields_json_view(fields@) =~= creator_to_json(creator_view(*self))->Obj_0);
        }
        JsonValue::Obj(fields)
    }

    proof fn round_trip(d: CreatorData) {
        let fs = creator_to_json(d)->Obj_0;
        reveal_strlit("username");
        reveal_strlit("nickname");
        assert("username"@.len() == 8 && "username"@[0] == 'u');
        assert("nickname"@.len() == 8 && "nickname"@[0] == 'n');
        lemma_lookup_at(fs, "username"@, 0);
        lemma_lookup_at(fs, "nickname"@, 1);
    }
}

/// A member that may be absent or null and is otherwise kept as raw JSON,
/// since the server versions these payloads freely.
pub open spec fn spec_field_opt_raw(jd: JsonData, key: Seq<char>) -> Option<JsonData> {
    match data_field(jd, key) {
        None => None,
        Some(JsonData::Null) => None,
        Some(x) => Some(x),
    }
}

pub fn field_opt_raw(v: &JsonValue, key: &str) -> (r: Option<JsonValue>)
    ensures
        match r {
            Some(x) => spec_field_opt_raw(json_view(*v), key@) == Some(json_view(x)),
            None => spec_field_opt_raw(json_view(*v), key@) is None,
        },
{
    match get_field(v, key) {
        Some(x) => match x {
            JsonValue::Null => None,
            _ => Some(clone_json(x)),
        },
        None => None,
    }
}

/// The shared head of every revision record: its id, its numeric kind
/// code, the optional creator, a summary and the creation time. The
/// kind-specific payload rides beside it, kept as raw JSON because the
/// server fixes no schema for it across revisions.
#[derive(Debug)]
pub struct RevisionCommon {
    pub id: u32,
    pub kind: u32,
    pub creator: Option<Creator>,
    pub summary: String,
    pub created_at: String,
}

/// The view of `RevisionCommon`.
pub struct RevisionCommonData {
    pub id: u32,
    pub kind: u32,
    pub creator: Option<CreatorData>,
    pub summary: Seq<char>,
    pub created_at: Seq<char>,
}

pub open spec fn revision_common_view(x: RevisionCommon) -> RevisionCommonData {
    RevisionCommonData {
        id: x.id,
        kind: x.kind,
        creator: match x.creator {
            Some(c) => Some(creator_view(c)),
            None => None,
        },
        summary: x.summary@,
        created_at: x.created_at@,
    }
}

pub open spec fn revision_common_of_json(jd: JsonData) -> Option<RevisionCommonData> {
    match (spec_field_u32(jd, "id"@), spec_field_u32(jd, "type"@),
    crate::json::spec_field_opt_record::<Creator>(jd, "creator"@), spec_field_str(jd, "summary"@),
    spec_field_str(jd, "created_at"@)) {
        (Some(id), Some(kind), Some(creator), Some(summary), Some(created_at)) => Some(
            RevisionCommonData { id, kind, creator, summary, created_at },
        ),
        _ => None,
    }
}

pub open spec fn revision_common_to_json(d: RevisionCommonData) -> JsonData {
    JsonData::Obj(
        seq![
            ("id"@, JsonData::Int(d.id as i64)),
            ("type"@, JsonData::Int(d.kind as i64)),
            (
                "creator"@,
                match d.creator {
                    Some(c) => creator_to_json(c),
                    None => JsonData::Null,
                },
            ),
            ("summary"@, JsonData::Str(d.summary)),
            ("created_at"@, JsonData::Str(d.created_at)),
        ],
    )
}

impl JsonCodec for RevisionCommon {
    type Data = RevisionCommonData;

    open spec fn of_json(jd: JsonData) -> Option<RevisionCommonData> {
        revision_common_of_json(jd)
    }

    open spec fn to_json(d: RevisionCommonData) -> JsonData {
        revision_common_to_json(d)
    }

    open spec fn view_data(self) -> RevisionCommonData {
        revision_common_view(self)
    }

    fn decode(v: &JsonValue) -> (r: Option<Self>) {
        let id = match field_u32(v, "id") {
            Some(x) => x,
            None => {
                return None;
            },
        };
        let kind = match field_u32(v, "type") {
            Some(x) => x,
            None => {
                return None;
            },
        };
        let creator = match crate::json::field_opt_record::<Creator>(v, "creator") {
            Some(x) => x,
            None => {
                return None;
            },
        };
        let summary = match field_str(v, "summary") {
            Some(x) => x,
            None => {
                return None;
            },
        };
        let created_at = match field_str(v, "created_at") {
            Some(x) => x,
            None => {
                return None;
            },
        };
        Some(RevisionCommon { id, kind, creator, summary, created_at })
    }

    fn encode(&self) -> (r: JsonValue) {
        let mut fields: Vec<(String, JsonValue)> = Vec::new();
        obj_field(&mut fields, "id", JsonValue::Int(self.id as i64));
        obj_field(&mut fields, "type", JsonValue::Int(self.kind as i64));
        let creator = match &self.creator {
            Some(c) => c.encode(),
            None => JsonValue::Null,
        };
        obj_field(&mut fields, "creator", creator);
        obj_field(&mut fields, "summary", JsonValue::Str(self.summary.clone()));
        obj_field(&mut fields, "created_at", JsonValue::Str(self.created_at.clone()));
        proof {
            assert(fields_json_view(fields@) =~= revision_common_to_json(
                revision_common_view(*self),
            )->Obj_0);
        }
        JsonValue::Obj(fields)
    }

    proof fn round_trip(d: RevisionCommonData) {
        let fs = revision_common_to_json(d)->Obj_0;
        reveal_strlit("id");
        reveal_strlit("type");
        reveal_strlit("creator");
        reveal_strlit("summary");
        reveal_strlit("created_at");
        assert("id"@.len() == 2);
        assert("type"@.len() == 4);
        assert("creator"@.len() == 7 && "creator"@[0] == 'c' && "creator"@[1] == 'r');
        assert("summary"@.len() == 7 && "summary"@[0] == 's');
        assert("created_at"@.len() == 10);
        lemma_lookup_at(fs, "id"@, 0);
        lemma_lookup_at(fs, "type"@, 1);
        lemma_lookup_at(fs, "creator"@, 2);
        lemma_lookup_at(fs, "summary"@, 3);
        lemma_lookup_at(fs, "created_at"@, 4);
        if d.creator is Some {
            Creator::round_trip(d.creator->0);
        }
    }
}

/// A person revision: the shared head plus the versioned payload, kept as
/// raw JSON; `RevisionPersonDataItem` decodes one entry of it.
#[derive(Debug)]
pub struct RevisionPerson {
    pub id: u32,
    pub kind: u32,
    pub creator: Option<Creator>,
    pub summary: String,
    pub created_at: String,
    pub data: Option<JsonValue>,
}

/// A character revision, with its payload kept as raw JSON;
/// `RevisionCharacterDataItem` decodes one entry of it.
#[derive(Debug)]
pub struct RevisionCharacter {
    pub id: u32,
    pub kind: u32,
    pub creator: Option<Creator>,
    pub summary: String,
    pub created_at: String,
    pub data: Option<JsonValue>,
}

/// An episode revision, with its payload kept as raw JSON.
#[derive(Debug)]
pub struct RevisionEpisode {
    pub id: u32,
    pub kind: u32,
    pub creator: Option<Creator>,
    pub summary: String,
    pub created_at: String,
    pub data: Option<JsonValue>,
}

/// The view of a revision head together with its raw payload.
pub struct RevisionRawData {
    pub common: RevisionCommonData,
    pub data: Option<JsonData>,
}

/// What a revision with a free-form payload decodes to.
pub open spec fn revision_raw_of_json(jd: JsonData) -> Option<RevisionRawData> {
    match revision_common_of_json(jd) {
        Some(common) => Some(
            RevisionRawData {
                common,
                data: match spec_field_opt_raw(jd, "data"@) {
                    Some(x) => Some(x),
                    None => None,
                },
            },
        ),
        None => None,
    }
}

pub open spec fn revision_person_view(x: RevisionPerson) -> RevisionRawData {
    RevisionRawData {
        common: RevisionCommonData {
            id: x.id,
            kind: x.kind,
            creator: match x.creator {
                Some(c) => Some(creator_view(c)),
                None => None,
            },
            summary: x.summary@,
            created_at: x.created_at@,
        },
        data: match x.data {
            Some(j) => Some(json_view(j)),
            None => None,
        },
    }
}

/// Decodes a person revision.
pub fn decode_revision_person(v: &JsonValue) -> (r: Option<RevisionPerson>)
    ensures
        match r {
            Some(x) => revision_raw_of_json(json_view(*v)) == Some(revision_person_view(x)),
            None => revision_raw_of_json(json_view(*v)) is None,
        },
{
    let common = match RevisionCommon::decode(v) {
        Some(x) => x,
        None => {
            return None;
        },
    };
    let data = field_opt_raw(v, "data");
    Some(
        RevisionPerson {
            id: common.id,
            kind: common.kind,
            creator: common.creator,
            summary: common.summary,
            created_at: common.created_at,
            data,
        },
    )
}

pub open spec fn revision_character_view(x: RevisionCharacter) -> RevisionRawData {
    RevisionRawData {
        common: RevisionCommonData {
            id: x.id,
            kind: x.kind,
            creator: match x.creator {
                Some(c) => Some(creator_view(c)),
                None => None,
            },
            summary: x.summary@,
            created_at: x.created_at@,
        },
        data: match x.data {
            Some(j) => Some(json_view(j)),
            None => None,
        },
    }
}

/// Decodes a character revision.
pub fn decode_revision_character(v: &JsonValue) -> (r: Option<RevisionCharacter>)
    ensures
        match r {
            Some(x) => revision_raw_of_json(json_view(*v)) == Some(revision_character_view(x)),
            None => revision_raw_of_json(json_view(*v)) is None,
        },
{
    let common = match RevisionCommon::decode(v) {
        Some(x) => x,
        None => {
            return None;
        },
    };
    let data = field_opt_raw(v, "data");
    Some(
        RevisionCharacter {
            id: common.id,
            kind: common.kind,
            creator: common.creator,
            summary: common.summary,
            created_at: common.created_at,
            data,
        },
    )
}

pub open spec fn revision_episode_view(x: RevisionEpisode) -> RevisionRawData {
    RevisionRawData {
        common: RevisionCommonData {
            id: x.id,
            kind: x.kind,
            creator: match x.creator {
                Some(c) => Some(creator_view(c)),
                None => None,
            },
            summary: x.summary@,
            created_at: x.created_at@,
        },
        data: match x.data {
            Some(j) => Some(json_view(j)),
            None => None,
        },
    }
}

/// Decodes an episode revision.
pub fn decode_revision_episode(v: &JsonValue) -> (r: Option<RevisionEpisode>)
    ensures
        match r {
            Some(x) => revision_raw_of_json(json_view(*v)) == Some(revision_episode_view(x)),
            None => revision_raw_of_json(json_view(*v)) is None,
        },
{
    let common = match RevisionCommon::decode(v) {
        Some(x) => x,
        None => {
            return None;
        },
    };
    let data = field_opt_raw(v, "data");
    Some(
        RevisionEpisode {
            id: common.id,
            kind: common.kind,
            creator: common.creator,
            summary: common.summary,
            created_at: common.created_at,
            data,
        },
    )
}

/// The image part of a revision payload.
#[derive(Debug)]
pub struct RevisionExtra {
    pub img: Option<String>,
}

/// The view of `RevisionExtra`.
pub struct RevisionExtraData {
    pub img: Option<Seq<char>>,
}

pub open spec fn revision_extra_view(x: RevisionExtra) -> RevisionExtraData {
    RevisionExtraData { img: crate::error::opt_str_view(x.img) }
}

pub open spec fn revision_extra_of_json(jd: JsonData) -> Option<RevisionExtraData> {
    match spec_field_opt_str(jd, "img"@) {
        Some(img) => Some(RevisionExtraData { img }),
        None => None,
    }
}

pub open spec fn revision_extra_to_json(d: RevisionExtraData) -> JsonData {
    JsonData::Obj(seq![("img"@, opt_str_to_json(d.img))])
}

impl JsonCodec for RevisionExtra {
    type Data = RevisionExtraData;

    open spec fn of_json(jd: JsonData) -> Option<RevisionExtraData> {
        revision_extra_of_json(jd)
    }

    open spec fn to_json(d: RevisionExtraData) -> JsonData {
        revision_extra_to_json(d)
    }

    open spec fn view_data(self) -> RevisionExtraData {
        revision_extra_view(self)
    }

    fn decode(v: &JsonValue) -> (r: Option<Self>) {
        let img = match field_opt_str(v, "img") {
            Some(x) => x,
            None => {
                return None;
            },
        };
        Some(RevisionExtra { img })
    }

    fn encode(&self) -> (r: JsonValue) {
        let mut fields: Vec<(String, JsonValue)> = Vec::new();
        let img = match &self.img {
            Some(s) => JsonValue::Str(s.clone()),
            None => JsonValue::Null,
        };
        obj_field(&mut fields, "img", img);
        proof {
            assert(fields_json_view(fields@) =~= revision_extra_to_json(revision_extra_view(*self))
                ->Obj_0);
        }
        JsonValue::Obj(fields)
    }

    proof fn round_trip(d: RevisionExtraData) {
        let fs = revision_extra_to_json(d)->Obj_0;
        reveal_strlit("img");
        lemma_lookup_at(fs, "img"@, 0);
    }
}

/// Which trades a person revision touches.
#[derive(Debug)]
pub struct PersonRevisionProfession {
    pub producer: Option<String>,
    pub mangaka: Option<String>,
    pub artist: Option<String>,
    pub seiyu: Option<String>,
    pub writer: Option<String>,
    pub illustrator: Option<String>,
    pub actor: Option<String>,
}

/// The view of `PersonRevisionProfession`.
pub struct PersonRevisionProfessionData {
    pub producer: Option<Seq<char>>,
    pub mangaka: Option<Seq<char>>,
    pub artist: Option<Seq<char>>,
    pub seiyu: Option<Seq<char>>,
    pub writer: Option<Seq<char>>,
    pub illustrator: Option<Seq<char>>,
    pub actor: Option<Seq<char>>,
}

pub open spec fn profession_view(x: PersonRevisionProfession) -> PersonRevisionProfessionData {
    PersonRevisionProfessionData {
        producer: crate::error::opt_str_view(x.producer),
        mangaka: crate::error::opt_str_view(x.mangaka),
        artist: crate::error::opt_str_view(x.artist),
        seiyu: crate::error::opt_str_view(x.seiyu),
        writer: crate::error::opt_str_view(x.writer),
        illustrator: crate::error::opt_str_view(x.illustrator),
        actor: crate::error::opt_str_view(x.actor),
    }
}

pub open spec fn profession_of_json(jd: JsonData) -> Option<PersonRevisionProfessionData> {
    match (spec_field_opt_str(jd, "producer"@), spec_field_opt_str(jd, "mangaka"@),
    spec_field_opt_str(jd, "artist"@), spec_field_opt_str(jd, "seiyu"@), spec_field_opt_str(
        jd,
        "writer"@,
    ), spec_field_opt_str(jd, "illustrator"@), spec_field_opt_str(jd, "actor"@)) {
        (Some(p), Some(m), Some(a), Some(s), Some(w), Some(i), Some(c)) => Some(
            PersonRevisionProfessionData {
                producer: p,
                mangaka: m,
                artist: a,
                seiyu: s,
                writer: w,
                illustrator: i,
                actor: c,
            },
        ),
        _ => None,
    }
}

pub open spec fn profession_to_json(d: PersonRevisionProfessionData) -> JsonData {
    JsonData::Obj(
        seq![
            ("producer"@, opt_str_to_json(d.producer)),
            ("mangaka"@, opt_str_to_json(d.mangaka)),
            ("artist"@, opt_str_to_json(d.artist)),
            ("seiyu"@, opt_str_to_json(d.seiyu)),
            ("writer"@, opt_str_to_json(d.writer)),
            ("illustrator"@, opt_str_to_json(d.illustrator)),
            ("actor"@, opt_str_to_json(d.actor)),
        ],
    )
}

fn opt_str_member(v: &Option<String>) -> (r: JsonValue)
    ensures
        json_view(r) == opt_str_to_json(crate::error::opt_str_view(*v)),
{
    match v {
        Some(s) => JsonValue::Str(s.clone()),
        None => JsonValue::Null,
    }
}

impl JsonCodec for PersonRevisionProfession {
    type Data = PersonRevisionProfessionData;

    open spec fn of_json(jd: JsonData) -> Option<PersonRevisionProfessionData> {
        profession_of_json(jd)
    }

    open spec fn to_json(d: PersonRevisionProfessionData) -> JsonData {
        profession_to_json(d)
    }

    open spec fn view_data(self) -> PersonRevisionProfessionData {
        profession_view(self)
    }

    fn decode(v: &JsonValue) -> (r: Option<Self>) {
        let producer = match field_opt_str(v, "producer") {
            Some(x) => x,
            None => {
                return None;
            },
        };
        let mangaka = match field_opt_str(v, "mangaka") {
            Some(x) => x,
            None => {
                return None;
            },
        };
        let artist = match field_opt_str(v, "artist") {
            Some(x) => x,
            None => {
                return None;
            },
        };
        let seiyu = match field_opt_str(v, "seiyu") {
            Some(x) => x,
            None => {
                return None;
            },
        };
        let writer = match field_opt_str(v, "writer") {
            Some(x) => x,
            None => {
                return None;
            },
        };
        let illustrator = match field_opt_str(v, "illustrator") {
            Some(x) => x,
            None => {
                return None;
            },
        };
        let actor = match field_opt_str(v, "actor") {
            Some(x) => x,
            None => {
                return None;
            },
        };
        Some(
            PersonRevisionProfession {
                producer,
                mangaka,
                artist,
                seiyu,
                writer,
                illustrator,
                actor,
            },
        )
    }

    fn encode(&self) -> (r: JsonValue) {
        let mut fields: Vec<(String, JsonValue)> = Vec::new();
        obj_field(&mut fields, "producer", opt_str_member(&self.producer));
        obj_field(&mut fields, "mangaka", opt_str_member(&self.mangaka));
        obj_field(&mut fields, "artist", opt_str_member(&self.artist));
        obj_field(&mut fields, "seiyu", opt_str_member(&self.seiyu));
        obj_field(&mut fields, "writer", opt_str_member(&self.writer));
        obj_field(&mut fields, "illustrator", opt_str_member(&self.illustrator));
        obj_field(&mut fields, "actor", opt_str_member(&self.actor));
        proof {
            assert(fields_json_view(fields@) =~= profession_to_json(profession_view(*self))
                ->Obj_0);
        }
        JsonValue::Obj(fields)
    }

    proof fn round_trip(d: PersonRevisionProfessionData) {
        let fs = profession_to_json(d)->Obj_0;
        reveal_strlit("producer");
        reveal_strlit("mangaka");
        reveal_strlit("artist");
        reveal_strlit("seiyu");
        reveal_strlit("writer");
        reveal_strlit("illustrator");
        reveal_strlit("actor");
        assert("producer"@.len() == 8 && "producer"@[0] == 'p');
        assert("mangaka"@.len() == 7 && "mangaka"@[0] == 'm');
        assert("artist"@.len() == 6 && "artist"@[0] == 'a' && "artist"@[1] == 'r');
        assert("seiyu"@.len() == 5 && "seiyu"@[0] == 's');
        assert("writer"@.len() == 6 && "writer"@[0] == 'w');
        assert("illustrator"@.len() == 11);
        assert("actor"@.len() == 5 && "actor"@[0] == 'a' && "actor"@[1] == 'c');
        lemma_lookup_at(fs, "producer"@, 0);
        lemma_lookup_at(fs, "mangaka"@, 1);
        lemma_lookup_at(fs, "artist"@, 2);
        lemma_lookup_at(fs, "seiyu"@, 3);
        lemma_lookup_at(fs, "writer"@, 4);
        lemma_lookup_at(fs, "illustrator"@, 5);
        lemma_lookup_at(fs, "actor"@, 6);
    }
}

/// One entry of a person revision payload.
#[derive(Debug)]
pub struct RevisionPersonDataItem {
    pub prsn_infobox: String,
    pub prsn_summary: String,
    pub profession: PersonRevisionProfession,
    pub extra: RevisionExtra,
    pub prsn_name: String,
}

/// The view of `RevisionPersonDataItem`.
pub struct RevisionPersonDataItemData {
    pub prsn_infobox: Seq<char>,
    pub prsn_summary: Seq<char>,
    pub profession: PersonRevisionProfessionData,
    pub extra: RevisionExtraData,
    pub prsn_name: Seq<char>,
}

pub open spec fn revision_person_item_view(x: RevisionPersonDataItem)
    -> RevisionPersonDataItemData {
    RevisionPersonDataItemData {
        prsn_infobox: x.prsn_infobox@,
        prsn_summary: x.prsn_summary@,
        profession: profession_view(x.profession),
        extra: revision_extra_view(x.extra),
        prsn_name: x.prsn_name@,
    }
}

pub open spec fn revision_person_item_of_json(jd: JsonData) -> Option<
    RevisionPersonDataItemData,
> {
    match (spec_field_str(jd, "prsn_infobox"@), spec_field_str(jd, "prsn_summary"@),
    crate::json::spec_field_record::<PersonRevisionProfession>(jd, "profession"@),
    crate::json::spec_field_record::<RevisionExtra>(jd, "extra"@), spec_field_str(
        jd,
        "prsn_name"@,
    )) {
        (Some(ib), Some(sm), Some(pf), Some(ex), Some(nm)) => Some(
            RevisionPersonDataItemData {
                prsn_infobox: ib,
                prsn_summary: sm,
                profession: pf,
                extra: ex,
                prsn_name: nm,
            },
        ),
        _ => None,
    }
}

pub open spec fn revision_person_item_to_json(d: RevisionPersonDataItemData) -> JsonData {
    JsonData::Obj(
        seq![
            ("prsn_infobox"@, JsonData::Str(d.prsn_infobox)),
            ("prsn_summary"@, JsonData::Str(d.prsn_summary)),
            ("profession"@, profession_to_json(d.profession)),
            ("extra"@, revision_extra_to_json(d.extra)),
            ("prsn_name"@, JsonData::Str(d.prsn_name)),
        ],
    )
}

impl JsonCodec for RevisionPersonDataItem {
    type Data = RevisionPersonDataItemData;

    open spec fn of_json(jd: JsonData) -> Option<RevisionPersonDataItemData> {
        revision_person_item_of_json(jd)
    }

    open spec fn to_json(d: RevisionPersonDataItemData) -> JsonData {
        revision_person_item_to_json(d)
    }

    open spec fn view_data(self) -> RevisionPersonDataItemData {
        revision_person_item_view(self)
    }

    fn decode(v: &JsonValue) -> (r: Option<Self>) {
        let prsn_infobox = match field_str(v, "prsn_infobox") {
            Some(x) => x,
            None => {
                return None;
            },
        };
        let prsn_summary = match field_str(v, "prsn_summary") {
            Some(x) => x,
            None => {
                return None;
            },
        };
        let profession = match crate::json::field_record::<PersonRevisionProfession>(
            v,
            "profession",
        ) {
            Some(x) => x,
            None => {
                return None;
            },
        };
        let extra = match crate::json::field_record::<RevisionExtra>(v, "extra") {
            Some(x) => x,
            None => {
                return None;
            },
        };
        let prsn_name = match field_str(v, "prsn_name") {
            Some(x) => x,
            None => {
                return None;
            },
        };
        Some(RevisionPersonDataItem { prsn_infobox, prsn_summary, profession, extra, prsn_name })
    }

    fn encode(&self) -> (r: JsonValue) {
        let mut fields: Vec<(String, JsonValue)> = Vec::new();
        obj_field(&mut fields, "prsn_infobox", JsonValue::Str(self.prsn_infobox.clone()));
        obj_field(&mut fields, "prsn_summary", JsonValue::Str(self.prsn_summary.clone()));
        obj_field(&mut fields, "profession", self.profession.encode());
        obj_field(&mut fields, "extra", self.extra.encode());
        obj_field(&mut fields, "prsn_name", JsonValue::Str(self.prsn_name.clone()));
        proof {
            assert(fields_json_view(fields@) =~= revision_person_item_to_json(
                revision_person_item_view(*self),
            )->Obj_0);
        }
        JsonValue::Obj(fields)
    }

    proof fn round_trip(d: RevisionPersonDataItemData) {
        let fs = revision_person_item_to_json(d)->Obj_0;
        reveal_strlit("prsn_infobox");
        reveal_strlit("prsn_summary");
        reveal_strlit("profession");
        reveal_strlit("extra");
        reveal_strlit("prsn_name");
        assert("prsn_infobox"@.len() == 12 && "prsn_infobox"@[5] == 'i');
        assert("prsn_summary"@.len() == 12 && "prsn_summary"@[5] == 's');
        assert("profession"@.len() == 10);
        assert("extra"@.len() == 5);
        assert("prsn_name"@.len() == 9);
        lemma_lookup_at(fs, "prsn_infobox"@, 0);
        lemma_lookup_at(fs, "prsn_summary"@, 1);
        lemma_lookup_at(fs, "profession"@, 2);
        lemma_lookup_at(fs, "extra"@, 3);
        lemma_lookup_at(fs, "prsn_name"@, 4);
        PersonRevisionProfession::round_trip(d.profession);
        RevisionExtra::round_trip(d.extra);
    }
}

/// One entry of a character revision payload.
#[derive(Debug)]
pub struct RevisionCharacterDataItem {
    pub infobox: String,
    pub summary: String,
    pub name: String,
    pub extra: RevisionExtra,
}

/// The view of `RevisionCharacterDataItem`.
pub struct RevisionCharacterDataItemData {
    pub infobox: Seq<char>,
    pub summary: Seq<char>,
    pub name: Seq<char>,
    pub extra: RevisionExtraData,
}

pub open spec fn revision_character_item_view(x: RevisionCharacterDataItem)
    -> RevisionCharacterDataItemData {
    RevisionCharacterDataItemData {
        infobox: x.infobox@,
        summary: x.summary@,
        name: x.name@,
        extra: revision_extra_view(x.extra),
    }
}

pub open spec fn revision_character_item_of_json(jd: JsonData) -> Option<
    RevisionCharacterDataItemData,
> {
    match (spec_field_str(jd, "infobox"@), spec_field_str(jd, "summary"@), spec_field_str(
        jd,
        "name"@,
    ), crate::json::spec_field_record::<RevisionExtra>(jd, "extra"@)) {
        (Some(ib), Some(sm), Some(nm), Some(ex)) => Some(
            RevisionCharacterDataItemData { infobox: ib, summary: sm, name: nm, extra: ex },
        ),
        _ => None,
    }
}

pub open spec fn revision_character_item_to_json(d: RevisionCharacterDataItemData) -> JsonData {
    JsonData::Obj(
        seq![
            ("infobox"@, JsonData::Str(d.infobox)),
            ("summary"@, JsonData::Str(d.summary)),
            ("name"@, JsonData::Str(d.name)),
            ("extra"@, revision_extra_to_json(d.extra)),
        ],
    )
}

impl JsonCodec for RevisionCharacterDataItem {
    type Data = RevisionCharacterDataItemData;

    open spec fn of_json(jd: JsonData) -> Option<RevisionCharacterDataItemData> {
        revision_character_item_of_json(jd)
    }

    open spec fn to_json(d: RevisionCharacterDataItemData) -> JsonData {
        revision_character_item_to_json(d)
    }

    open spec fn view_data(self) -> RevisionCharacterDataItemData {
        revision_character_item_view(self)
    }

    fn decode(v: &JsonValue) -> (r: Option<Self>) {
        let infobox = match field_str(v, "infobox") {
            Some(x) => x,
            None => {
                return None;
            },
        };
        let summary = match field_str(v, "summary") {
            Some(x) => x,
            None => {
                return None;
            },
        };
        let name = match field_str(v, "name") {
            Some(x) => x,
            None => {
                return None;
            },
        };
        let extra = match crate::json::field_record::<RevisionExtra>(v, "extra") {
            Some(x) => x,
            None => {
                return None;
            },
        };
        Some(RevisionCharacterDataItem { infobox, summary, name, extra })
    }

    fn encode(&self) -> (r: JsonValue) {
        let mut fields: Vec<(String, JsonValue)> = Vec::new();
        obj_field(&mut fields, "infobox", JsonValue::Str(self.infobox.clone()));
        obj_field(&mut fields, "summary", JsonValue::Str(self.summary.clone()));
        obj_field(&mut fields, "name", JsonValue::Str(self.name.clone()));
        obj_field(&mut fields, "extra", self.extra.encode());
        proof {
            assert(fields_json_view(fields@) =~= revision_character_item_to_json(
                revision_character_item_view(*self),
            )->Obj_0);
        }
        JsonValue::Obj(fields)
    }

    proof fn round_trip(d: RevisionCharacterDataItemData) {
        let fs = revision_character_item_to_json(d)->Obj_0;
        reveal_strlit("infobox");
        reveal_strlit("summary");
        reveal_strlit("name");
        reveal_strlit("extra");
        assert("infobox"@.len() == 7 && "infobox"@[0] == 'i');
        assert("summary"@.len() == 7 && "summary"@[0] == 's');
        assert("name"@.len() == 4);
        assert("extra"@.len() == 5);
        lemma_lookup_at(fs, "infobox"@, 0);
        lemma_lookup_at(fs, "summary"@, 1);
        lemma_lookup_at(fs, "name"@, 2);
        lemma_lookup_at(fs, "extra"@, 3);
        RevisionExtra::round_trip(d.extra);
    }
}

/// The payload of a subject revision.
#[derive(Debug)]
pub struct RevisionSubjectData {
    pub field_eps: u32,
    pub field_infobox: String,
    pub field_summary: String,
    pub name: String,
    pub name_cn: String,
    pub platform: u32,
    pub subject_id: u32,
    pub kind: u32,
    pub type_id: u32,
    pub vote_field: String,
}

/// The view of `RevisionSubjectData`.
pub struct RevisionSubjectDataData {
    pub field_eps: u32,
    pub field_infobox: Seq<char>,
    pub field_summary: Seq<char>,
    pub name: Seq<char>,
    pub name_cn: Seq<char>,
    pub platform: u32,
    pub subject_id: u32,
    pub kind: u32,
    pub type_id: u32,
    pub vote_field: Seq<char>,
}

pub open spec fn revision_subject_data_view(x: RevisionSubjectData) -> RevisionSubjectDataData {
    RevisionSubjectDataData {
        field_eps: x.field_eps,
        field_infobox: x.field_infobox@,
        field_summary: x.field_summary@,
        name: x.name@,
        name_cn: x.name_cn@,
        platform: x.platform,
        subject_id: x.subject_id,
        kind: x.kind,
        type_id: x.type_id,
        vote_field: x.vote_field@,
    }
}

pub open spec fn revision_subject_data_of_json(jd: JsonData) -> Option<RevisionSubjectDataData> {
    match (spec_field_u32(jd, "field_eps"@), spec_field_str(jd, "field_infobox"@), spec_field_str(
        jd,
        "field_summary"@,
    ), spec_field_str(jd, "name"@), spec_field_str(jd, "name_cn"@)) {
        (Some(field_eps), Some(field_infobox), Some(field_summary), Some(name), Some(name_cn)) => {
            match (
                spec_field_u32(jd, "platform"@),
                spec_field_u32(jd, "subject_id"@),
                spec_field_u32(jd, "type"@),
                spec_field_u32(jd, "type_id"@),
                spec_field_str(jd, "vote_field"@),
            ) {
                (Some(platform), Some(subject_id), Some(kind), Some(type_id), Some(vote_field)) =>
                    Some(
                    RevisionSubjectDataData {
                        field_eps,
                        field_infobox,
                        field_summary,
                        name,
                        name_cn,
                        platform,
                        subject_id,
                        kind,
                        type_id,
                        vote_field,
                    },
                ),
                _ => None,
            }
        },
        _ => None,
    }
}

pub open spec fn revision_subject_data_to_json(d: RevisionSubjectDataData) -> JsonData {
    JsonData::Obj(
        seq![
            ("field_eps"@, JsonData::Int(d.field_eps as i64)),
            ("field_infobox"@, JsonData::Str(d.field_infobox)),
            ("field_summary"@, JsonData::Str(d.field_summary)),
            ("name"@, JsonData::Str(d.name)),
            ("name_cn"@, JsonData::Str(d.name_cn)),
            ("platform"@, JsonData::Int(d.platform as i64)),
            ("subject_id"@, JsonData::Int(d.subject_id as i64)),
            ("type"@, JsonData::Int(d.kind as i64)),
            ("type_id"@, JsonData::Int(d.type_id as i64)),
            ("vote_field"@, JsonData::Str(d.vote_field)),
        ],
    )
}

impl JsonCodec for RevisionSubjectData {
    type Data = RevisionSubjectDataData;

    open spec fn of_json(jd: JsonData) -> Option<RevisionSubjectDataData> {
        revision_subject_data_of_json(jd)
    }

    open spec fn to_json(d: RevisionSubjectDataData) -> JsonData {
        revision_subject_data_to_json(d)
    }

    open spec fn view_data(self) -> RevisionSubjectDataData {
        revision_subject_data_view(self)
    }

    fn decode(v: &JsonValue) -> (r: Option<Self>) {
        let field_eps = match field_u32(v, "field_eps") {
            Some(x) => x,
            None => {
                return None;
            },
        };
        let field_infobox = match field_str(v, "field_infobox") {
            Some(x) => x,
            None => {
                return None;
            },
        };
        let field_summary = match field_str(v, "field_summary") {
            Some(x) => x,
            None => {
                return None;
            },
        };
        let name = match field_str(v, "name") {
            Some(x) => x,
            None => {
                return None;
            },
        };
        let name_cn = match field_str(v, "name_cn") {
            Some(x) => x,
            None => {
                return None;
            },
        };
        let platform = match field_u32(v, "platform") {
            Some(x) => x,
            None => {
                return None;
            },
        };
        let subject_id = match field_u32(v, "subject_id") {
            Some(x) => x,
            None => {
                return None;
            },
        };
        let kind = match field_u32(v, "type") {
            Some(x) => x,
            None => {
                return None;
            },
        };
        let type_id = match field_u32(v, "type_id") {
            Some(x) => x,
            None => {
                return None;
            },
        };
        let vote_field = match field_str(v, "vote_field") {
            Some(x) => x,
            None => {
                return None;
            },
        };
        Some(
            RevisionSubjectData {
                field_eps,
                field_infobox,
                field_summary,
                name,
                name_cn,
                platform,
                subject_id,
                kind,
                type_id,
                vote_field,
            },
        )
    }

    fn encode(&self) -> (r: JsonValue) {
        let mut fields: Vec<(String, JsonValue)> = Vec::new();
        obj_field(&mut fields, "field_eps", JsonValue::Int(self.field_eps as i64));
        obj_field(&mut fields, "field_infobox", JsonValue::Str(self.field_infobox.clone()));
        obj_field(&mut fields, "field_summary", JsonValue::Str(self.field_summary.clone()));
        obj_field(&mut fields, "name", JsonValue::Str(self.name.clone()));
        obj_field(&mut fields, "name_cn", JsonValue::Str(self.name_cn.clone()));
        obj_field(&mut fields, "platform", JsonValue::Int(self.platform as i64));
        obj_field(&mut fields, "subject_id", JsonValue::Int(self.subject_id as i64));
        obj_field(&mut fields, "type", JsonValue::Int(self.kind as i64));
        obj_field(&mut fields, "type_id", JsonValue::Int(self.type_id as i64));
        obj_field(&mut fields, "vote_field", JsonValue::Str(self.vote_field.clone()));
        proof {
            assert(fields_json_view(fields@) =~= revision_subject_data_to_json(
                revision_subject_data_view(*self),
            )->Obj_0);
        }
        JsonValue::Obj(fields)
    }

    proof fn round_trip(d: RevisionSubjectDataData) {
        let fs = revision_subject_data_to_json(d)->Obj_0;
        reveal_strlit("field_eps");
        reveal_strlit("field_infobox");
        reveal_strlit("field_summary");
        reveal_strlit("name");
        reveal_strlit("name_cn");
        reveal_strlit("platform");
        reveal_strlit("subject_id");
        reveal_strlit("type");
        reveal_strlit("type_id");
        reveal_strlit("vote_field");
        assert("field_eps"@.len() == 9);
        assert("field_infobox"@.len() == 13 && "field_infobox"@[6] == 'i');
        assert("field_summary"@.len() == 13 && "field_summary"@[6] == 's');
        assert("name"@.len() == 4 && "name"@[0] == 'n');
        assert("name_cn"@.len() == 7);
        assert("platform"@.len() == 8);
        assert("subject_id"@.len() == 10 && "subject_id"@[0] == 's');
        assert("type"@.len() == 4 && "type"@[0] == 't');
        assert("type_id"@.len() == 7 && "type_id"@[0] == 't');
        assert("vote_field"@.len() == 10 && "vote_field"@[0] == 'v');
        lemma_lookup_at(fs, "field_eps"@, 0);
        lemma_lookup_at(fs, "field_infobox"@, 1);
        lemma_lookup_at(fs, "field_summary"@, 2);
        lemma_lookup_at(fs, "name"@, 3);
        lemma_lookup_at(fs, "name_cn"@, 4);
        lemma_lookup_at(fs, "platform"@, 5);
        lemma_lookup_at(fs, "subject_id"@, 6);
        lemma_lookup_at(fs, "type"@, 7);
        lemma_lookup_at(fs, "type_id"@, 8);
        lemma_lookup_at(fs, "vote_field"@, 9);
    }
}

/// A subject revision: the shared head plus its typed payload, absent when
/// the server sends none.
#[derive(Debug)]
pub struct RevisionSubject {
    pub id: u32,
    pub kind: u32,
    pub creator: Option<Creator>,
    pub summary: String,
    pub created_at: String,
    pub data: Option<RevisionSubjectData>,
}

/// The view of `RevisionSubject`.
pub struct RevisionSubjectViewData {
    pub common: RevisionCommonData,
    pub data: Option<RevisionSubjectDataData>,
}

pub open spec fn revision_subject_view(x: RevisionSubject) -> RevisionSubjectViewData {
    RevisionSubjectViewData {
        common: RevisionCommonData {
            id: x.id,
            kind: x.kind,
            creator: match x.creator {
                Some(c) => Some(creator_view(c)),
                None => None,
            },
            summary: x.summary@,
            created_at: x.created_at@,
        },
        data: match x.data {
            Some(d) => Some(revision_subject_data_view(d)),
            None => None,
        },
    }
}

/// What a subject revision decodes to.
pub open spec fn revision_subject_of_json(jd: JsonData) -> Option<RevisionSubjectViewData> {
    match (revision_common_of_json(jd), crate::json::spec_field_opt_record::<RevisionSubjectData>(
        jd,
        "data"@,
    )) {
        (Some(common), Some(data)) => Some(RevisionSubjectViewData { common, data }),
        _ => None,
    }
}

/// Decodes a subject revision.
pub fn decode_revision_subject(v: &JsonValue) -> (r: Option<RevisionSubject>)
    ensures
        match r {
            Some(x) => revision_subject_of_json(json_view(*v)) == Some(revision_subject_view(x)),
            None => revision_subject_of_json(json_view(*v)) is None,
        },
{
    let common = match RevisionCommon::decode(v) {
        Some(x) => x,
        None => {
            return None;
        },
    };
    let data = match crate::json::field_opt_record::<RevisionSubjectData>(v, "data") {
        Some(x) => x,
        None => {
            return None;
        },
    };
    Some(
        RevisionSubject {
            id: common.id,
            kind: common.kind,
            creator: common.creator,
            summary: common.summary,
            created_at: common.created_at,
            data,
        },
    )
}

/// What a call for one revision with a free-form payload returns for
/// each response.
pub open spec fn spec_revision_raw_response(status: u16, body: Seq<char>) -> Result<
    RevisionRawData,
    crate::error::ApiErrorData,
> {
    if 200 <= status < 300 {
        match crate::json::parsed_json(body) {
            Some(jd) => match revision_raw_of_json(jd) {
                Some(d) => Ok(d),
                None => Err(crate::error::ApiErrorData::Decode(status, body)),
            },
            None => Err(crate::error::ApiErrorData::Decode(status, body)),
        }
    } else {
        Err(crate::client::spec_failure(status, body))
    }
}

/// Classifies and decodes a response that carries one person revision.
pub fn revision_person_response(status: u16, body: &str) -> (r: Result<
    RevisionPerson,
    crate::error::ApiError,
>)
    ensures
        match r {
            Ok(x) => spec_revision_raw_response(status, body@) == Ok::<
                RevisionRawData,
                crate::error::ApiErrorData,
            >(revision_person_view(x)),
            Err(e) => spec_revision_raw_response(status, body@) == Err::<
                RevisionRawData,
                crate::error::ApiErrorData,
            >(crate::error::api_error_view(e)),
        },
{
    if !crate::client::is_success_status(status) {
        return Err(crate::client::failure_of_response(status, body));
    }
    match crate::json::parse_json(body) {
        Some(j) => match decode_revision_person(&j) {
            Some(x) => Ok(x),
            None => Err(crate::error::ApiError::Decode(status, body.to_owned())),
        },
        None => Err(crate::error::ApiError::Decode(status, body.to_owned())),
    }
}

/// Classifies and decodes a response that carries one character revision.
pub fn revision_character_response(status: u16, body: &str) -> (r: Result<
    RevisionCharacter,
    crate::error::ApiError,
>)
    ensures
        match r {
            Ok(x) => spec_revision_raw_response(status, body@) == Ok::<
                RevisionRawData,
                crate::error::ApiErrorData,
            >(revision_character_view(x)),
            Err(e) => spec_revision_raw_response(status, body@) == Err::<
                RevisionRawData,
                crate::error::ApiErrorData,
            >(crate::error::api_error_view(e)),
        },
{
    if !crate::client::is_success_status(status) {
        return Err(crate::client::failure_of_response(status, body));
    }
    match crate::json::parse_json(body) {
        Some(j) => match decode_revision_character(&j) {
            Some(x) => Ok(x),
            None => Err(crate::error::ApiError::Decode(status, body.to_owned())),
        },
        None => Err(crate::error::ApiError::Decode(status, body.to_owned())),
    }
}

/// Classifies and decodes a response that carries one episode revision.
pub fn revision_episode_response(status: u16, body: &str) -> (r: Result<
    RevisionEpisode,
    crate::error::ApiError,
>)
    ensures
        match r {
            Ok(x) => spec_revision_raw_response(status, body@) == Ok::<
                RevisionRawData,
                crate::error::ApiErrorData,
            >(revision_episode_view(x)),
            Err(e) => spec_revision_raw_response(status, body@) == Err::<
                RevisionRawData,
                crate::error::ApiErrorData,
            >(crate::error::api_error_view(e)),
        },
{
    if !crate::client::is_success_status(status) {
        return Err(crate::client::failure_of_response(status, body));
    }
    match crate::json::parse_json(body) {
        Some(j) => match decode_revision_episode(&j) {
            Some(x) => Ok(x),
            None => Err(crate::error::ApiError::Decode(status, body.to_owned())),
        },
        None => Err(crate::error::ApiError::Decode(status, body.to_owned())),
    }
}

/// What a call for one subject revision returns for each response.
pub open spec fn spec_revision_subject_response(status: u16, body: Seq<char>) -> Result<
    RevisionSubjectViewData,
    crate::error::ApiErrorData,
> {
    if 200 <= status < 300 {
        match crate::json::parsed_json(body) {
            Some(jd) => match revision_subject_of_json(jd) {
                Some(d) => Ok(d),
                None => Err(crate::error::ApiErrorData::Decode(status, body)),
            },
            None => Err(crate::error::ApiErrorData::Decode(status, body)),
        }
    } else {
        Err(crate::client::spec_failure(status, body))
    }
}

/// Classifies and decodes a response that carries one subject revision.
pub fn revision_subject_response(status: u16, body: &str) -> (r: Result<
    RevisionSubject,
    crate::error::ApiError,
>)
    ensures
        match r {
            Ok(x) => spec_revision_subject_response(status, body@) == Ok::<
                RevisionSubjectViewData,
                crate::error::ApiErrorData,
            >(revision_subject_view(x)),
            Err(e) => spec_revision_subject_response(status, body@) == Err::<
                RevisionSubjectViewData,
                crate::error::ApiErrorData,
            >(crate::error::api_error_view(e)),
        },
{
    if !crate::client::is_success_status(status) {
        return Err(crate::client::failure_of_response(status, body));
    }
    match crate::json::parse_json(body) {
        Some(j) => match decode_revision_subject(&j) {
            Some(x) => Ok(x),
            None => Err(crate::error::ApiError::Decode(status, body.to_owned())),
        },
        None => Err(crate::error::ApiError::Decode(status, body.to_owned())),
    }
}

impl BangumiClient {
    /// The request for the revision history of a person.
    pub fn get_revision_persons_request(
        &self,
        person_id: u32,
        limit: Option<u32>,
        offset: Option<u32>,
    ) -> (r: HttpRequest)
        ensures
            r.method == HttpMethod::Get,
            r.url@ == self.base_path@ + "/v0/revisions/persons"@,
            pairs_view(r.query@) == seq![("person_id"@, dec_digits(person_id as nat))] + opt_pair(
                "limit"@,
                match limit {
                    Some(n) => Some(dec_digits(n as nat)),
                    None => None,
                },
            ) + opt_pair(
                "offset"@,
                match offset {
                    Some(n) => Some(dec_digits(n as nat)),
                    None => None,
                },
            ),
            pairs_view(r.headers@) == spec_headers(*self),
            r.body is None,
    {
        let url = self.base_path.clone().concat("/v0/revisions/persons");
        let mut r = self.request_builder(HttpMethod::Get, url.as_str());
        query_push(&mut r.query, "person_id", u32_string(person_id));
        if let Some(n) = limit {
            query_push(&mut r.query, "limit", u32_string(n));
        }
        if let Some(n) = offset {
            query_push(&mut r.query, "offset", u32_string(n));
        }
        proof {
            assert(pairs_view(r.query@) =~= seq![
                ("person_id"@, dec_digits(person_id as nat)),
            ] + opt_pair(
                "limit"@,
                match limit {
                    Some(n) => Some(dec_digits(n as nat)),
                    None => None,
                },
            ) + opt_pair(
                "offset"@,
                match offset {
                    Some(n) => Some(dec_digits(n as nat)),
                    None => None,
                },
            ));
        }
        r
    }

    /// The request for one person revision.
    pub fn get_revision_person_request(&self, revision_id: u32) -> (r: HttpRequest)
        ensures
            r.method == HttpMethod::Get,
            r.url@ == self.base_path@ + "/v0/revisions/persons/"@ + dec_digits(revision_id as nat),
            pairs_view(r.query@) == Seq::<(Seq<char>, Seq<char>)>::empty(),
            pairs_view(r.headers@) == spec_headers(*self),
            r.body is None,
    {
        let url = self.base_path.clone().concat("/v0/revisions/persons/").concat(
            u32_string(revision_id).as_str(),
        );
        self.request_builder(HttpMethod::Get, url.as_str())
    }

    /// The request for the revision history of a character.
    pub fn get_revision_characters_request(
        &self,
        character_id: u32,
        limit: Option<u32>,
        offset: Option<u32>,
    ) -> (r: HttpRequest)
        ensures
            r.method == HttpMethod::Get,
            r.url@ == self.base_path@ + "/v0/revisions/characters"@,
            pairs_view(r.query@) == seq![
                ("character_id"@, dec_digits(character_id as nat)),
            ] + opt_pair(
                "limit"@,
                match limit {
                    Some(n) => Some(dec_digits(n as nat)),
                    None => None,
                },
            ) + opt_pair(
                "offset"@,
                match offset {
                    Some(n) => Some(dec_digits(n as nat)),
                    None => None,
                },
            ),
            pairs_view(r.headers@) == spec_headers(*self),
            r.body is None,
    {
        let url = self.base_path.clone().concat("/v0/revisions/characters");
        let mut r = self.request_builder(HttpMethod::Get, url.as_str());
        query_push(&mut r.query, "character_id", u32_string(character_id));
        if let Some(n) = limit {
            query_push(&mut r.query, "limit", u32_string(n));
        }
        if let Some(n) = offset {
            query_push(&mut r.query, "offset", u32_string(n));
        }
        proof {
            assert(pairs_view(r.query@) =~= seq![
                ("character_id"@, dec_digits(character_id as nat)),
            ] + opt_pair(
                "limit"@,
                match limit {
                    Some(n) => Some(dec_digits(n as nat)),
                    None => None,
                },
            ) + opt_pair(
                "offset"@,
                match offset {
                    Some(n) => Some(dec_digits(n as nat)),
                    None => None,
                },
            ));
        }
        r
    }

    /// The request for one character revision.
    pub fn get_revision_character_request(&self, revision_id: u32) -> (r: HttpRequest)
        ensures
            r.method == HttpMethod::Get,
            r.url@ == self.base_path@ + "/v0/revisions/characters/"@ + dec_digits(
                revision_id as nat,
            ),
            pairs_view(r.query@) == Seq::<(Seq<char>, Seq<char>)>::empty(),
            pairs_view(r.headers@) == spec_headers(*self),
            r.body is None,
    {
        let url = self.base_path.clone().concat("/v0/revisions/characters/").concat(
            u32_string(revision_id).as_str(),
        );
        self.request_builder(HttpMethod::Get, url.as_str())
    }

    /// The request for the revision history of a subject.
    pub fn get_revision_subjects_request(
        &self,
        subject_id: u32,
        limit: Option<u32>,
        offset: Option<u32>,
    ) -> (r: HttpRequest)
        ensures
            r.method == HttpMethod::Get,
            r.url@ == self.base_path@ + "/v0/revisions/subjects"@,
            pairs_view(r.query@) == seq![("subject_id"@, dec_digits(subject_id as nat))] + opt_pair(
                "limit"@,
                match limit {
                    Some(n) => Some(dec_digits(n as nat)),
                    None => None,
                },
            ) + opt_pair(
                "offset"@,
                match offset {
                    Some(n) => Some(dec_digits(n as nat)),
                    None => None,
                },
            ),
            pairs_view(r.headers@) == spec_headers(*self),
            r.body is None,
    {
        let url = self.base_path.clone().concat("/v0/revisions/subjects");
        let mut r = self.request_builder(HttpMethod::Get, url.as_str());
        query_push(&mut r.query, "subject_id", u32_string(subject_id));
        if let Some(n) = limit {
            query_push(&mut r.query, "limit", u32_string(n));
        }
        if let Some(n) = offset {
            query_push(&mut r.query, "offset", u32_string(n));
        }
        proof {
            assert(pairs_view(r.query@) =~= seq![
                ("subject_id"@, dec_digits(subject_id as nat)),
            ] + opt_pair(
                "limit"@,
                match limit {
                    Some(n) => Some(dec_digits(n as nat)),
                    None => None,
                },
            ) + opt_pair(
                "offset"@,
                match offset {
                    Some(n) => Some(dec_digits(n as nat)),
                    None => None,
                },
            ));
        }
        r
    }

    /// The request for one subject revision.
    pub fn get_revision_subject_request(&self, revision_id: u32) -> (r: HttpRequest)
        ensures
            r.method == HttpMethod::Get,
            r.url@ == self.base_path@ + "/v0/revisions/subjects/"@ + dec_digits(revision_id as nat),
            pairs_view(r.query@) == Seq::<(Seq<char>, Seq<char>)>::empty(),
            pairs_view(r.headers@) == spec_headers(*self),
            r.body is None,
    {
        let url = self.base_path.clone().concat("/v0/revisions/subjects/").concat(
            u32_string(revision_id).as_str(),
        );
        self.request_builder(HttpMethod::Get, url.as_str())
    }

    /// The request for the revision history of an episode.
    pub fn get_revision_episodes_request(
        &self,
        episode_id: u32,
        limit: Option<u32>,
        offset: Option<u32>,
    ) -> (r: HttpRequest)
        ensures
            r.method == HttpMethod::Get,
            r.url@ == self.base_path@ + "/v0/revisions/episodes"@,
            pairs_view(r.query@) == seq![("episode_id"@, dec_digits(episode_id as nat))] + opt_pair(
                "limit"@,
                match limit {
                    Some(n) => Some(dec_digits(n as nat)),
                    None => None,
                },
            ) + opt_pair(
                "offset"@,
                match offset {
                    Some(n) => Some(dec_digits(n as nat)),
                    None => None,
                },
            ),
            pairs_view(r.headers@) == spec_headers(*self),
            r.body is None,
    {
        let url = self.base_path.clone().concat("/v0/revisions/episodes");
        let mut r = self.request_builder(HttpMethod::Get, url.as_str());
        query_push(&mut r.query, "episode_id", u32_string(episode_id));
        if let Some(n) = limit {
            query_push(&mut r.query, "limit", u32_string(n));
        }
        if let Some(n) = offset {
            query_push(&mut r.query, "offset", u32_string(n));
        }
        proof {
            assert(pairs_view(r.query@) =~= seq![
                ("episode_id"@, dec_digits(episode_id as nat)),
            ] + opt_pair(
                "limit"@,
                match limit {
                    Some(n) => Some(dec_digits(n as nat)),
                    None => None,
                },
            ) + opt_pair(
                "offset"@,
                match offset {
                    Some(n) => Some(dec_digits(n as nat)),
                    None => None,
                },
            ));
        }
        r
    }

    /// The request for one episode revision.
    pub fn get_revision_episode_request(&self, revision_id: u32) -> (r: HttpRequest)
        ensures
            r.method == HttpMethod::Get,
            r.url@ == self.base_path@ + "/v0/revisions/episodes/"@ + dec_digits(revision_id as nat),
            pairs_view(r.query@) == Seq::<(Seq<char>, Seq<char>)>::empty(),
            pairs_view(r.headers@) == spec_headers(*self),
            r.body is None,
    {
        let url = self.base_path.clone().concat("/v0/revisions/episodes/").concat(
            u32_string(revision_id).as_str(),
        );
        self.request_builder(HttpMethod::Get, url.as_str())
    }
}

} // verus!
