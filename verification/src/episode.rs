use crate::client::{opt_pair, pairs_view, query_push, spec_headers, BangumiClient, HttpMethod, HttpRequest};
use crate::json::{
    data_field, field_numtext, field_str, field_u32, fields_json_view, get_field, json_view,
    obj_field, spec_field_numtext, spec_field_str, spec_field_u32, JsonCodec, JsonData, JsonValue,
};
use crate::model::lemma_lookup_at;
use crate::text::{dec_digits, u32_string};
use vstd::prelude::*;
use vstd::string::StringExecFns;

verus! {

/// The kind of an episode entry.
#[derive(Debug, Clone, Copy, PartialEq, Eq, Structural)]
pub enum EpisodeType {
    Normal,
    SP,
    OP,
    ED,
}

/// The numeric code of an episode kind on the wire.
pub open spec fn episode_type_code(t: EpisodeType) -> i64 {
    match t {
        EpisodeType::Normal => 0,
        EpisodeType::SP => 1,
        EpisodeType::OP => 2,
        EpisodeType::ED => 3,
    }
}

pub open spec fn episode_type_of_code(i: i64) -> Option<EpisodeType> {
    if i == 0 {
        Some(EpisodeType::Normal)
    } else if i == 1 {
        Some(EpisodeType::SP)
    } else if i == 2 {
        Some(EpisodeType::OP)
    } else if i == 3 {
        Some(EpisodeType::ED)
    } else {
        None
    }
}

pub fn episode_type_from_code(i: i64) -> (r: Option<EpisodeType>)
    ensures
        r == episode_type_of_code(i),
{
    if i == 0 {
        Some(EpisodeType::Normal)
    } else if i == 1 {
        Some(EpisodeType::SP)
    } else if i == 2 {
        Some(EpisodeType::OP)
    } else if i == 3 {
        Some(EpisodeType::ED)
    } else {
        None
    }
}

/// The numeric code of an episode kind, as executable data.
pub fn episode_type_code_exec(t: EpisodeType) -> (r: u32)
    ensures
        r as i64 == episode_type_code(t),
{
    match t {
        EpisodeType::Normal => 0,
        EpisodeType::SP => 1,
        EpisodeType::OP => 2,
        EpisodeType::ED => 3,
    }
}

/// Every episode-kind code decodes back to the kind it encodes.
pub proof fn lemma_episode_type_round_trip(t: EpisodeType)
    ensures
        episode_type_of_code(episode_type_code(t)) == Some(t),
{
}

/// The kind-of-episode member of a record.
pub open spec fn spec_field_episode_type(jd: JsonData, key: Seq<char>) -> Option<EpisodeType> {
    match data_field(jd, key) {
        Some(JsonData::Int(i)) => episode_type_of_code(i),
        _ => None,
    }
}

pub fn field_episode_type(v: &JsonValue, key: &str) -> (r: Option<EpisodeType>)
    ensures
        r == spec_field_episode_type(json_view(*v), key@),
{
    match get_field(v, key) {
        Some(x) => match x {
            JsonValue::Int(i) => episode_type_from_code(*i),
            _ => None,
        },
        None => None,
    }
}

/// One episode of a subject. The ordering weight and the episode number
/// may be fractional on the wire and are kept as their decimal text.
#[derive(Debug)]
pub struct Episode {
    pub id: u32,
    pub kind: EpisodeType,
    pub name: String,
    pub name_cn: String,
    pub sort: String,
    pub ep: String,
    pub airdate: String,
    pub comment: u32,
    pub duration: String,
    pub desc: String,
    pub disc: u32,
    pub subject_id: u32,
    pub duration_seconds: u32,
}

/// The view of `Episode`.
pub struct EpisodeData {
    pub id: u32,
    pub kind: EpisodeType,
    pub name: Seq<char>,
    pub name_cn: Seq<char>,
    pub sort: Seq<char>,
    pub ep: Seq<char>,
    pub airdate: Seq<char>,
    pub comment: u32,
    pub duration: Seq<char>,
    pub desc: Seq<char>,
    pub disc: u32,
    pub subject_id: u32,
    pub duration_seconds: u32,
}

pub open spec fn episode_view(x: Episode) -> EpisodeData {
    EpisodeData {
        id: x.id,
        kind: x.kind,
        name: x.name@,
        name_cn: x.name_cn@,
        sort: x.sort@,
        ep: x.ep@,
        airdate: x.airdate@,
        comment: x.comment,
        duration: x.duration@,
        desc: x.desc@,
        disc: x.disc,
        subject_id: x.subject_id,
        duration_seconds: x.duration_seconds,
    }
}

pub open spec fn episode_of_json(jd: JsonData) -> Option<EpisodeData> {
    match (spec_field_u32(jd, "id"@), spec_field_episode_type(jd, "type"@), spec_field_str(
        jd,
        "name"@,
    ), spec_field_str(jd, "name_cn"@), spec_field_numtext(jd, "sort"@), spec_field_numtext(
        jd,
        "ep"@,
    )) {
        (Some(id), Some(kind), Some(name), Some(name_cn), Some(sort), Some(ep)) => match (
            spec_field_str(jd, "airdate"@),
            spec_field_u32(jd, "comment"@),
            spec_field_str(jd, "duration"@),
            spec_field_str(jd, "desc"@),
            spec_field_u32(jd, "disc"@),
            spec_field_u32(jd, "subject_id"@),
            spec_field_u32(jd, "duration_seconds"@),
        ) {
            (
                Some(airdate),
                Some(comment),
                Some(duration),
                Some(desc),
                Some(disc),
                Some(subject_id),
                Some(duration_seconds),
            ) => Some(
                EpisodeData {
                    id,
                    kind,
                    name,
                    name_cn,
                    sort,
                    ep,
                    airdate,
                    comment,
                    duration,
                    desc,
                    disc,
                    subject_id,
                    duration_seconds,
                },
            ),
            _ => None,
        },
        _ => None,
    }
}

pub open spec fn episode_to_json(d: EpisodeData) -> JsonData {
    JsonData::Obj(
        seq![
            ("id"@, JsonData::Int(d.id as i64)),
            ("type"@, JsonData::Int(episode_type_code(d.kind))),
            ("name"@, JsonData::Str(d.name)),
            ("name_cn"@, JsonData::Str(d.name_cn)),
            ("sort"@, JsonData::Num(d.sort)),
            ("ep"@, JsonData::Num(d.ep)),
            ("airdate"@, JsonData::Str(d.airdate)),
            ("comment"@, JsonData::Int(d.comment as i64)),
            ("duration"@, JsonData::Str(d.duration)),
            ("desc"@, JsonData::Str(d.desc)),
            ("disc"@, JsonData::Int(d.disc as i64)),
            ("subject_id"@, JsonData::Int(d.subject_id as i64)),
            ("duration_seconds"@, JsonData::Int(d.duration_seconds as i64)),
        ],
    )
}

impl JsonCodec for Episode {
    type Data = EpisodeData;

    open spec fn of_json(jd: JsonData) -> Option<EpisodeData> {
        episode_of_json(jd)
    }

    open spec fn to_json(d: EpisodeData) -> JsonData {
        episode_to_json(d)
    }

    open spec fn view_data(self) -> EpisodeData {
        episode_view(self)
    }

    fn decode(v: &JsonValue) -> (r: Option<Self>) {
        let id = match field_u32(v, "id") {
            Some(x) => x,
            None => {
                return None;
            },
        };
        let kind = match field_episode_type(v, "type") {
            Some(x) => x,
            None => {
                return None;
            },
        };
        let name = match field_str(v, "name") {
            Some(x) => x,
            None => {
                return None;
            },
        };
        let name_cn = match field_str(v, "name_cn") {
            Some(x) => x,
            None => {
                return None;
            },
        };
        let sort = match field_numtext(v, "sort") {
            Some(x) => x,
            None => {
                return None;
            },
        };
        let ep = match field_numtext(v, "ep") {
            Some(x) => x,
            None => {
                return None;
            },
        };
        let airdate = match field_str(v, "airdate") {
            Some(x) => x,
            None => {
                return None;
            },
        };
        let comment = match field_u32(v, "comment") {
            Some(x) => x,
            None => {
                return None;
            },
        };
        let duration = match field_str(v, "duration") {
            Some(x) => x,
            None => {
                return None;
            },
        };
        let desc = match field_str(v, "desc") {
            Some(x) => x,
            None => {
                return None;
            },
        };
        let disc = match field_u32(v, "disc") {
            Some(x) => x,
            None => {
                return None;
            },
        };
        let subject_id = match field_u32(v, "subject_id") {
            Some(x) => x,
            None => {
                return None;
            },
        };
        let duration_seconds = match field_u32(v, "duration_seconds") {
            Some(x) => x,
            None => {
                return None;
            },
        };
        Some(
            Episode {
                id,
                kind,
                name,
                name_cn,
                sort,
                ep,
                airdate,
                comment,
                duration,
                desc,
                disc,
                subject_id,
                duration_seconds,
            },
        )
    }

    fn encode(&self) -> (r: JsonValue) {
        let mut fields: Vec<(String, JsonValue)> = Vec::new();
        obj_field(&mut fields, "id", JsonValue::Int(self.id as i64));
        obj_field(&mut fields, "type", JsonValue::Int(episode_type_code_exec(self.kind) as i64));
        obj_field(&mut fields, "name", JsonValue::Str(self.name.clone()));
        obj_field(&mut fields, "name_cn", JsonValue::Str(self.name_cn.clone()));
        obj_field(&mut fields, "sort", JsonValue::Num(self.sort.clone()));
        obj_field(&mut fields, "ep", JsonValue::Num(self.ep.clone()));
        obj_field(&mut fields, "airdate", JsonValue::Str(self.airdate.clone()));
        obj_field(&mut fields, "comment", JsonValue::Int(self.comment as i64));
        obj_field(&mut fields, "duration", JsonValue::Str(self.duration.clone()));
        obj_field(&mut fields, "desc", JsonValue::Str(self.desc.clone()));
        obj_field(&mut fields, "disc", JsonValue::Int(self.disc as i64));
        obj_field(&mut fields, "subject_id", JsonValue::Int(self.subject_id as i64));
        obj_field(&mut fields, "duration_seconds", JsonValue::Int(self.duration_seconds as i64));
        proof {
            assert(fields_json_view(fields@) =~= episode_to_json(episode_view(*self))->Obj_0);
        }
        JsonValue::Obj(fields)
    }

    proof fn round_trip(d: EpisodeData) {
        let fs = episode_to_json(d)->Obj_0;
        reveal_strlit("id");
        reveal_strlit("type");
        reveal_strlit("name");
        reveal_strlit("name_cn");
        reveal_strlit("sort");
        reveal_strlit("ep");
        reveal_strlit("airdate");
        reveal_strlit("comment");
        reveal_strlit("duration");
        reveal_strlit("desc");
        reveal_strlit("disc");
        reveal_strlit("subject_id");
        reveal_strlit("duration_seconds");
        assert("id"@.len() == 2);
        assert("type"@.len() == 4 && "type"@[0] == 't');
        assert("name"@.len() == 4 && "name"@[0] == 'n');
        assert("name_cn"@.len() == 7 && "name_cn"@[0] == 'n');
        assert("sort"@.len() == 4 && "sort"@[0] == 's');
        assert("ep"@.len() == 2 && "ep"@[0] == 'e');
        assert("airdate"@.len() == 7 && "airdate"@[0] == 'a');
        assert("comment"@.len() == 7 && "comment"@[0] == 'c');
        assert("duration"@.len() == 8);
        assert("desc"@.len() == 4 && "desc"@[0] == 'd');
        assert("disc"@.len() == 4 && "disc"@[0] == 'd' && "desc"@[1] == 'e' && "disc"@[1] == 'i');
        assert("subject_id"@.len() == 10);
        assert("duration_seconds"@.len() == 16);
        lemma_lookup_at(fs, "id"@, 0);
        lemma_lookup_at(fs, "type"@, 1);
        lemma_lookup_at(fs, "name"@, 2);
        lemma_lookup_at(fs, "name_cn"@, 3);
        lemma_lookup_at(fs, "sort"@, 4);
        lemma_lookup_at(fs, "ep"@, 5);
        lemma_lookup_at(fs, "airdate"@, 6);
        lemma_lookup_at(fs, "comment"@, 7);
        lemma_lookup_at(fs, "duration"@, 8);
        lemma_lookup_at(fs, "desc"@, 9);
        lemma_lookup_at(fs, "disc"@, 10);
        lemma_lookup_at(fs, "subject_id"@, 11);
        lemma_lookup_at(fs, "duration_seconds"@, 12);
        lemma_episode_type_round_trip(d.kind);
    }
}

impl BangumiClient {
    /// The request for the episodes of a subject, with optional kind
    /// filter and paging.
    pub fn get_episodes_request(
        &self,
        subject_id: u32,
        kind: Option<EpisodeType>,
        limit: Option<u32>,
        offset: Option<u32>,
    ) -> (r: HttpRequest)
        ensures
            r.method == HttpMethod::Get,
            r.url@ == self.base_path@ + "/v0/episodes"@,
            pairs_view(r.query@) == seq![("subject_id"@, dec_digits(subject_id as nat))]
                + opt_pair(
                "type"@,
                match kind {
                    Some(t) => Some(dec_digits(episode_type_code(t) as nat)),
                    None => None,
                },
            ) + opt_pair(
                "limit"@,
                match limit {
                    Some(n) => Some(dec_digits(n as nat)),
                    None => None,
                },
            ) + opt_pair(
                "offset"@,
                match offset {
                    Some(n) => Some(dec_digits(n as nat)),
                    None => None,
                },
            ),
            pairs_view(r.headers@) == spec_headers(*self),
            r.body is None,
    {
        let url = self.base_path.clone().concat("/v0/episodes");
        let mut r = self.request_builder(HttpMethod::Get, url.as_str());
        query_push(&mut r.query, "subject_id", u32_string(subject_id));
        if let Some(t) = kind {
            query_push(&mut r.query, "type", u32_string(episode_type_code_exec(t)));
        }
        if let Some(n) = limit {
            query_push(&mut r.query, "limit", u32_string(n));
        }
        if let Some(n) = offset {
            query_push(&mut r.query, "offset", u32_string(n));
        }
        proof {
            assert(pairs_view(r.query@) =~= seq![
                ("subject_id"@, dec_digits(subject_id as nat)),
            ] + opt_pair(
                "type"@,
                match kind {
                    Some(t) => Some(dec_digits(episode_type_code(t) as nat)),
                    None => None,
                },
            ) + opt_pair(
                "limit"@,
                match limit {
                    Some(n) => Some(dec_digits(n as nat)),
                    None => None,
                },
            ) + opt_pair(
                "offset"@,
                match offset {
                    Some(n) => Some(dec_digits(n as nat)),
                    None => None,
                },
            ));
        }
        r
    }

    /// The request for one episode by its id.
    pub fn get_episode_request(&self, episode_id: u32) -> (r: HttpRequest)
        ensures
            r.method == HttpMethod::Get,
            r.url@ == self.base_path@ + "/v0/episodes/"@ + dec_digits(episode_id as nat),
            pairs_view(r.query@) == Seq::<(Seq<char>, Seq<char>)>::empty(),
            pairs_view(r.headers@) == spec_headers(*self),
            r.body is None,
    {
        let url = self.base_path.clone().concat("/v0/episodes/").concat(
            u32_string(episode_id).as_str(),
        );
        self.request_builder(HttpMethod::Get, url.as_str())
    }
}

} // verus!
