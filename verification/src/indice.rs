use crate::client::{opt_pair, pairs_view, query_push, spec_headers, BangumiClient, HttpMethod, HttpRequest};
use crate::json::{
    field_opt_str, field_opt_u32, field_str, field_u32, fields_json_view, json_view, obj_field,
    spec_field_bool, spec_field_opt_str, spec_field_opt_u32, spec_field_str, spec_field_u32,
    JsonCodec, JsonData, JsonValue,
};
use crate::model::{lemma_lookup_at, Stat};
use crate::revision::{creator_to_json, creator_view, Creator, CreatorData};
use crate::subject::{opt_str_to_json, subject_type_code, SubjectType};
use crate::text::{dec_digits, u32_string};
use vstd::prelude::*;
use vstd::string::StringExecFns;

verus! {

/// A user-made index: a themed list of subjects.
#[derive(Debug)]
pub struct Index {
    pub id: u32,
    pub title: String,
    pub desc: String,
    pub total: Option<u32>,
    pub stat: Stat,
    pub created_at: String,
    pub updated_at: String,
    pub creator: Creator,
    pub ban: bool,
    pub nsfw: bool,
}

/// The view of `Index`.
pub struct IndexData {
    pub id: u32,
    pub title: Seq<char>,
    pub desc: Seq<char>,
    pub total: Option<u32>,
    pub stat: Stat,
    pub created_at: Seq<char>,
    pub updated_at: Seq<char>,
    pub creator: CreatorData,
    pub ban: bool,
    pub nsfw: bool,
}

pub open spec fn index_view(x: Index) -> IndexData {
    IndexData {
        id: x.id,
        title: x.title@,
        desc: x.desc@,
        total: x.total,
        stat: x.stat,
        created_at: x.created_at@,
        updated_at: x.updated_at@,
        creator: creator_view(x.creator),
        ban: x.ban,
        nsfw: x.nsfw,
    }
}

pub open spec fn index_of_json(jd: JsonData) -> Option<IndexData> {
    match (spec_field_u32(jd, "id"@), spec_field_str(jd, "title"@), spec_field_str(jd, "desc"@),
    spec_field_opt_u32(jd, "total"@), crate::json::spec_field_record::<Stat>(jd, "stat"@)) {
        (Some(id), Some(title), Some(desc), Some(total), Some(stat)) => match (
            spec_field_str(jd, "created_at"@),
            spec_field_str(jd, "updated_at"@),
            crate::json::spec_field_record::<Creator>(jd, "creator"@),
            spec_field_bool(jd, "ban"@),
            spec_field_bool(jd, "nsfw"@),
        ) {
            (Some(created_at), Some(updated_at), Some(creator), Some(ban), Some(nsfw)) => Some(
                IndexData {
                    id,
                    title,
                    desc,
                    total,
                    stat,
                    created_at,
                    updated_at,
                    creator,
                    ban,
                    nsfw,
                },
            ),
            _ => None,
        },
        _ => None,
    }
}

pub open spec fn index_to_json(d: IndexData) -> JsonData {
    JsonData::Obj(
        seq![
            ("id"@, JsonData::Int(d.id as i64)),
            ("title"@, JsonData::Str(d.title)),
            ("desc"@, JsonData::Str(d.desc)),
            ("total"@, crate::character::opt_u32_field_to_json(d.total)),
            ("stat"@, crate::model::stat_to_json(d.stat)),
            ("created_at"@, JsonData::Str(d.created_at)),
            ("updated_at"@, JsonData::Str(d.updated_at)),
            ("creator"@, creator_to_json(d.creator)),
            ("ban"@, JsonData::Bool(d.ban)),
            ("nsfw"@, JsonData::Bool(d.nsfw)),
        ],
    )
}

impl JsonCodec for Index {
    type Data = IndexData;

    open spec fn of_json(jd: JsonData) -> Option<IndexData> {
        index_of_json(jd)
    }

    open spec fn to_json(d: IndexData) -> JsonData {
        index_to_json(d)
    }

    open spec fn view_data(self) -> IndexData {
        index_view(self)
    }

    fn decode(v: &JsonValue) -> (r: Option<Self>) {
        let id = match field_u32(v, "id") {
            Some(x) => x,
            None => {
                return None;
            },
        };
        let title = match field_str(v, "title") {
            Some(x) => x,
            None => {
                return None;
            },
        };
        let desc = match field_str(v, "desc") {
            Some(x) => x,
            None => {
                return None;
            },
        };
        let total = match field_opt_u32(v, "total") {
            Some(x) => x,
            None => {
                return None;
            },
        };
        let stat = match crate::json::field_record::<Stat>(v, "stat") {
            Some(x) => x,
            None => {
                return None;
            },
        };
        let created_at = match field_str(v, "created_at") {
            Some(x) => x,
            None => {
                return None;
            },
        };
        let updated_at = match field_str(v, "updated_at") {
            Some(x) => x,
            None => {
                return None;
            },
        };
        let creator = match crate::json::field_record::<Creator>(v, "creator") {
            Some(x) => x,
            None => {
                return None;
            },
        };
        let ban = match crate::json::field_bool(v, "ban") {
            Some(x) => x,
            None => {
                return None;
            },
        };
        let nsfw = match crate::json::field_bool(v, "nsfw") {
            Some(x) => x,
            None => {
                return None;
            },
        };
        Some(Index { id, title, desc, total, stat, created_at, updated_at, creator, ban, nsfw })
    }

    fn encode(&self) -> (r: JsonValue) {
        let mut fields: Vec<(String, JsonValue)> = Vec::new();
        obj_field(&mut fields, "id", JsonValue::Int(self.id as i64));
        obj_field(&mut fields, "title", JsonValue::Str(self.title.clone()));
        obj_field(&mut fields, "desc", JsonValue::Str(self.desc.clone()));
        obj_field(&mut fields, "total", crate::character::opt_u32_field_value(self.total));
        obj_field(&mut fields, "stat", crate::model::encode_stat(&self.stat));
        obj_field(&mut fields, "created_at", JsonValue::Str(self.created_at.clone()));
        obj_field(&mut fields, "updated_at", JsonValue::Str(self.updated_at.clone()));
        obj_field(&mut fields, "creator", self.creator.encode());
        obj_field(&mut fields, "ban", JsonValue::Bool(self.ban));
        obj_field(&mut fields, "nsfw", JsonValue::Bool(self.nsfw));
        proof {
            assert(fields_json_view(fields@) =~= index_to_json(index_view(*self))->Obj_0);
        }
        JsonValue::Obj(fields)
    }

    proof fn round_trip(d: IndexData) {
        let fs = index_to_json(d)->Obj_0;
        reveal_strlit("id");
        reveal_strlit("title");
        reveal_strlit("desc");
        reveal_strlit("total");
        reveal_strlit("stat");
        reveal_strlit("created_at");
        reveal_strlit("updated_at");
        reveal_strlit("creator");
        reveal_strlit("ban");
        reveal_strlit("nsfw");
        assert("id"@.len() == 2);
        assert("title"@.len() == 5 && "title"@[0] == 't');
        assert("desc"@.len() == 4 && "desc"@[0] == 'd');
        assert("total"@.len() == 5 && "total"@[0] == 't' && "title"@[1] == 'i' && "total"@[1]
            == 'o');
        assert("stat"@.len() == 4 && "stat"@[0] == 's');
        assert("created_at"@.len() == 10 && "created_at"@[0] == 'c');
        assert("updated_at"@.len() == 10 && "updated_at"@[0] == 'u');
        assert("creator"@.len() == 7);
        assert("ban"@.len() == 3);
        assert("nsfw"@.len() == 4 && "nsfw"@[0] == 'n');
        lemma_lookup_at(fs, "id"@, 0);
        lemma_lookup_at(fs, "title"@, 1);
        lemma_lookup_at(fs, "desc"@, 2);
        lemma_lookup_at(fs, "total"@, 3);
        lemma_lookup_at(fs, "stat"@, 4);
        lemma_lookup_at(fs, "created_at"@, 5);
        lemma_lookup_at(fs, "updated_at"@, 6);
        lemma_lookup_at(fs, "creator"@, 7);
        lemma_lookup_at(fs, "ban"@, 8);
        lemma_lookup_at(fs, "nsfw"@, 9);
        crate::model::lemma_stat_round_trip(d.stat);
        Creator::round_trip(d.creator);
    }
}

/// A subject as it sits on an index.
#[derive(Debug)]
pub struct IndexSubject {
    pub id: u32,
    pub kind: SubjectType,
    pub name: String,
    pub name_cn: String,
    pub date: Option<String>,
    pub images: crate::model::Image,
    pub infobox: Vec<crate::model::InfoBoxItem>,
    pub add_at: Option<String>,
    pub comment: String,
}

/// The view of `IndexSubject`.
pub struct IndexSubjectData {
    pub id: u32,
    pub kind: SubjectType,
    pub name: Seq<char>,
    pub name_cn: Seq<char>,
    pub date: Option<Seq<char>>,
    pub images: crate::model::ImageData,
    pub infobox: Seq<crate::model::InfoBoxItemData>,
    pub add_at: Option<Seq<char>>,
    pub comment: Seq<char>,
}

pub open spec fn index_subject_view(x: IndexSubject) -> IndexSubjectData {
    IndexSubjectData {
        id: x.id,
        kind: x.kind,
        name: x.name@,
        name_cn: x.name_cn@,
        date: crate::error::opt_str_view(x.date),
        images: crate::model::image_view(x.images),
        infobox: crate::json::list_view(x.infobox@),
        add_at: crate::error::opt_str_view(x.add_at),
        comment: x.comment@,
    }
}

pub open spec fn index_subject_of_json(jd: JsonData) -> Option<IndexSubjectData> {
    match (spec_field_u32(jd, "id"@), crate::subject::spec_field_subject_type(jd, "type"@),
    spec_field_str(jd, "name"@), spec_field_str(jd, "name_cn"@), spec_field_opt_str(jd, "date"@)) {
        (Some(id), Some(kind), Some(name), Some(name_cn), Some(date)) => match (
            crate::json::spec_field_record::<crate::model::Image>(jd, "images"@),
            crate::json::spec_field_list::<crate::model::InfoBoxItem>(jd, "infobox"@),
            spec_field_opt_str(jd, "add_at"@),
            spec_field_str(jd, "comment"@),
        ) {
            (Some(images), Some(infobox), Some(add_at), Some(comment)) => Some(
                IndexSubjectData {
                    id,
                    kind,
                    name,
                    name_cn,
                    date,
                    images,
                    infobox,
                    add_at,
                    comment,
                },
            ),
            _ => None,
        },
        _ => None,
    }
}

pub open spec fn index_subject_to_json(d: IndexSubjectData) -> JsonData {
    JsonData::Obj(
        seq![
            ("id"@, JsonData::Int(d.id as i64)),
            ("type"@, JsonData::Int(subject_type_code(d.kind))),
            ("name"@, JsonData::Str(d.name)),
            ("name_cn"@, JsonData::Str(d.name_cn)),
            ("date"@, opt_str_to_json(d.date)),
            ("images"@, crate::model::image_to_json(d.images)),
            (
                "infobox"@,
                JsonData::Arr(
                    d.infobox.map_values(
                        |x: crate::model::InfoBoxItemData| crate::model::InfoBoxItem::to_json(x),
                    ),
                ),
            ),
            ("add_at"@, opt_str_to_json(d.add_at)),
            ("comment"@, JsonData::Str(d.comment)),
        ],
    )
}

impl JsonCodec for IndexSubject {
    type Data = IndexSubjectData;

    open spec fn of_json(jd: JsonData) -> Option<IndexSubjectData> {
        index_subject_of_json(jd)
    }

    open spec fn to_json(d: IndexSubjectData) -> JsonData {
        index_subject_to_json(d)
    }

    open spec fn view_data(self) -> IndexSubjectData {
        index_subject_view(self)
    }

    fn decode(v: &JsonValue) -> (r: Option<Self>) {
        let id = match field_u32(v, "id") {
            Some(x) => x,
            None => {
                return None;
            },
        };
        let kind = match crate::subject::field_subject_type(v, "type") {
            Some(x) => x,
            None => {
                return None;
            },
        };
        let name = match field_str(v, "name") {
            Some(x) => x,
            None => {
                return None;
            },
        };
        let name_cn = match field_str(v, "name_cn") {
            Some(x) => x,
            None => {
                return None;
            },
        };
        let date = match field_opt_str(v, "date") {
            Some(x) => x,
            None => {
                return None;
            },
        };
        let images = match crate::json::field_record::<crate::model::Image>(v, "images") {
            Some(x) => x,
            None => {
                return None;
            },
        };
        let infobox = match crate::json::field_list::<crate::model::InfoBoxItem>(v, "infobox") {
            Some(x) => x,
            None => {
                return None;
            },
        };
        let add_at = match field_opt_str(v, "add_at") {
            Some(x) => x,
            None => {
                return None;
            },
        };
        let comment = match field_str(v, "comment") {
            Some(x) => x,
            None => {
                return None;
            },
        };
        Some(IndexSubject { id, kind, name, name_cn, date, images, infobox, add_at, comment })
    }

    fn encode(&self) -> (r: JsonValue) {
        let mut fields: Vec<(String, JsonValue)> = Vec::new();
        obj_field(&mut fields, "id", JsonValue::Int(self.id as i64));
        obj_field(
            &mut fields,
            "type",
            JsonValue::Int(crate::subject::subject_type_code_exec(self.kind) as i64),
        );
        obj_field(&mut fields, "name", JsonValue::Str(self.name.clone()));
        obj_field(&mut fields, "name_cn", JsonValue::Str(self.name_cn.clone()));
        let date = match &self.date {
            Some(s) => JsonValue::Str(s.clone()),
            None => JsonValue::Null,
        };
        obj_field(&mut fields, "date", date);
        obj_field(&mut fields, "images", crate::model::encode_image(&self.images));
        obj_field(
            &mut fields,
            "infobox",
            JsonValue::Arr(crate::json::encode_list::<crate::model::InfoBoxItem>(&self.infobox)),
        );
        let add_at = match &self.add_at {
            Some(s) => JsonValue::Str(s.clone()),
            None => JsonValue::Null,
        };
        obj_field(&mut fields, "add_at", add_at);
        obj_field(&mut fields, "comment", JsonValue::Str(self.comment.clone()));
        proof {
            crate::json::lemma_list_round_trip::<crate::model::InfoBoxItem>(
                index_subject_view(*self).infobox,
            );
            assert(fields_json_view(fields@) =~= index_subject_to_json(index_subject_view(*self))
                ->Obj_0);
        }
        JsonValue::Obj(fields)
    }

    proof fn round_trip(d: IndexSubjectData) {
        let fs = index_subject_to_json(d)->Obj_0;
        reveal_strlit("id");
        reveal_strlit("type");
        reveal_strlit("name");
        reveal_strlit("name_cn");
        reveal_strlit("date");
        reveal_strlit("images");
        reveal_strlit("infobox");
        reveal_strlit("add_at");
        reveal_strlit("comment");
        assert("id"@.len() == 2);
        assert("type"@.len() == 4 && "type"@[0] == 't');
        assert("name"@.len() == 4 && "name"@[0] == 'n');
        assert("name_cn"@.len() == 7);
        assert("date"@.len() == 4 && "date"@[0] == 'd');
        assert("images"@.len() == 6 && "images"@[0] == 'i' && "images"@[1] == 'm');
        assert("infobox"@.len() == 7 && "infobox"@[0] == 'i');
        assert("add_at"@.len() == 6 && "add_at"@[0] == 'a');
        assert("comment"@.len() == 7 && "comment"@[0] == 'c');
        lemma_lookup_at(fs, "id"@, 0);
        lemma_lookup_at(fs, "type"@, 1);
        lemma_lookup_at(fs, "name"@, 2);
        lemma_lookup_at(fs, "name_cn"@, 3);
        lemma_lookup_at(fs, "date"@, 4);
        lemma_lookup_at(fs, "images"@, 5);
        lemma_lookup_at(fs, "infobox"@, 6);
        lemma_lookup_at(fs, "add_at"@, 7);
        lemma_lookup_at(fs, "comment"@, 8);
        crate::subject::lemma_subject_type_round_trip(d.kind);
        crate::model::lemma_image_round_trip(d.images);
        crate::json::lemma_list_round_trip::<crate::model::InfoBoxItem>(d.infobox);
    }
}

/// What an edit of an index's basic information sends: only the members
/// the caller wants changed.
#[derive(Debug)]
pub struct IndexBasicInfo {
    pub title: Option<String>,
    pub description: Option<String>,
}

/// The body an index edit is sent as.
pub open spec fn index_basic_info_to_json(p: IndexBasicInfo) -> JsonData {
    JsonData::Obj(
        (match p.title {
            Some(t) => seq![("title"@, JsonData::Str(t@))],
            None => Seq::<(Seq<char>, JsonData)>::empty(),
        }) + (match p.description {
            Some(d) => seq![("description"@, JsonData::Str(d@))],
            None => Seq::<(Seq<char>, JsonData)>::empty(),
        }),
    )
}

pub fn encode_index_basic_info(p: &IndexBasicInfo) -> (r: JsonValue)
    ensures
        json_view(r) == index_basic_info_to_json(*p),
{
    let mut fields: Vec<(String, JsonValue)> = Vec::new();
    if let Some(t) = &p.title {
        obj_field(&mut fields, "title", JsonValue::Str(t.clone()));
    }
    if let Some(d) = &p.description {
        obj_field(&mut fields, "description", JsonValue::Str(d.clone()));
    }
    proof {
        assert(fields_json_view(fields@) =~= index_basic_info_to_json(*p)->Obj_0);
    }
    JsonValue::Obj(fields)
}

/// The body an optional index edit is sent as: null when absent.
pub open spec fn opt_index_basic_info_to_json(p: Option<IndexBasicInfo>) -> JsonData {
    match p {
        Some(x) => index_basic_info_to_json(x),
        None => JsonData::Null,
    }
}

/// What adding a subject to an index sends.
#[derive(Debug)]
pub struct IndexSubjectAddInfo {
    pub subject_id: Option<u32>,
    pub sort: Option<u32>,
    pub comment: Option<String>,
}

/// The body an index addition is sent as.
pub open spec fn index_subject_add_info_to_json(p: IndexSubjectAddInfo) -> JsonData {
    JsonData::Obj(
        (match p.subject_id {
            Some(n) => seq![("subject_id"@, JsonData::Int(n as i64))],
            None => Seq::<(Seq<char>, JsonData)>::empty(),
        }) + (match p.sort {
            Some(n) => seq![("sort"@, JsonData::Int(n as i64))],
            None => Seq::<(Seq<char>, JsonData)>::empty(),
        }) + (match p.comment {
            Some(c) => seq![("comment"@, JsonData::Str(c@))],
            None => Seq::<(Seq<char>, JsonData)>::empty(),
        }),
    )
}

pub fn encode_index_subject_add_info(p: &IndexSubjectAddInfo) -> (r: JsonValue)
    ensures
        json_view(r) == index_subject_add_info_to_json(*p),
{
    let mut fields: Vec<(String, JsonValue)> = Vec::new();
    if let Some(n) = p.subject_id {
        obj_field(&mut fields, "subject_id", JsonValue::Int(n as i64));
    }
    if let Some(n) = p.sort {
        obj_field(&mut fields, "sort", JsonValue::Int(n as i64));
    }
    if let Some(c) = &p.comment {
        obj_field(&mut fields, "comment", JsonValue::Str(c.clone()));
    }
    proof {
        assert(fields_json_view(fields@) =~= index_subject_add_info_to_json(*p)->Obj_0);
    }
    JsonValue::Obj(fields)
}

/// The body an optional index addition is sent as: null when absent.
pub open spec fn opt_index_subject_add_info_to_json(p: Option<IndexSubjectAddInfo>) -> JsonData {
    match p {
        Some(x) => index_subject_add_info_to_json(x),
        None => JsonData::Null,
    }
}

/// What editing a subject already on an index sends.
#[derive(Debug)]
pub struct IndexSubjectEditInfo {
    pub sort: Option<u32>,
    pub comment: Option<String>,
}

/// The body an index entry edit is sent as.
pub open spec fn index_subject_edit_info_to_json(p: IndexSubjectEditInfo) -> JsonData {
    JsonData::Obj(
        (match p.sort {
            Some(n) => seq![("sort"@, JsonData::Int(n as i64))],
            None => Seq::<(Seq<char>, JsonData)>::empty(),
        }) + (match p.comment {
            Some(c) => seq![("comment"@, JsonData::Str(c@))],
            None => Seq::<(Seq<char>, JsonData)>::empty(),
        }),
    )
}

pub fn encode_index_subject_edit_info(p: &IndexSubjectEditInfo) -> (r: JsonValue)
    ensures
        json_view(r) == index_subject_edit_info_to_json(*p),
{
    let mut fields: Vec<(String, JsonValue)> = Vec::new();
    if let Some(n) = p.sort {
        obj_field(&mut fields, "sort", JsonValue::Int(n as i64));
    }
    if let Some(c) = &p.comment {
        obj_field(&mut fields, "comment", JsonValue::Str(c.clone()));
    }
    proof {
        assert(fields_json_view(fields@) =~= index_subject_edit_info_to_json(*p)->Obj_0);
    }
    JsonValue::Obj(fields)
}

/// The body an optional index entry edit is sent as: null when absent.
pub open spec fn opt_index_subject_edit_info_to_json(p: Option<IndexSubjectEditInfo>) -> JsonData {
    match p {
        Some(x) => index_subject_edit_info_to_json(x),
        None => JsonData::Null,
    }
}

impl BangumiClient {
    /// The request that creates a new index.
    pub fn add_index_request(&self) -> (r: HttpRequest)
        ensures
            r.method == HttpMethod::Post,
            r.url@ == self.base_path@ + "/v0/indices"@,
            pairs_view(r.query@) == Seq::<(Seq<char>, Seq<char>)>::empty(),
            pairs_view(r.headers@) == spec_headers(*self),
            r.body is None,
    {
        let url = self.base_path.clone().concat("/v0/indices");
        self.request_builder(HttpMethod::Post, url.as_str())
    }

    /// The request for one index by its id.
    pub fn get_index_request(&self, index_id: u32) -> (r: HttpRequest)
        ensures
            r.method == HttpMethod::Get,
            r.url@ == self.base_path@ + "/v0/indices/"@ + dec_digits(index_id as nat),
            pairs_view(r.query@) == Seq::<(Seq<char>, Seq<char>)>::empty(),
            pairs_view(r.headers@) == spec_headers(*self),
            r.body is None,
    {
        let url = self.base_path.clone().concat("/v0/indices/").concat(
            u32_string(index_id).as_str(),
        );
        self.request_builder(HttpMethod::Get, url.as_str())
    }

    /// The request that edits an index's basic information.
    pub fn edit_index_request(&self, index_id: u32, payload: Option<IndexBasicInfo>) -> (r:
        HttpRequest)
        ensures
            r.method == HttpMethod::Put,
            r.url@ == self.base_path@ + "/v0/indices/"@ + dec_digits(index_id as nat),
            pairs_view(r.query@) == Seq::<(Seq<char>, Seq<char>)>::empty(),
            pairs_view(r.headers@) == spec_headers(*self),
            r.body matches Some(b) && json_view(b) == opt_index_basic_info_to_json(payload),
    {
        let url = self.base_path.clone().concat("/v0/indices/").concat(
            u32_string(index_id).as_str(),
        );
        let mut r = self.request_builder(HttpMethod::Put, url.as_str());
        r.body = Some(
            match &payload {
                Some(p) => encode_index_basic_info(p),
                None => JsonValue::Null,
            },
        );
        r
    }

    /// The request for the subjects on an index, with optional kind filter
    /// and paging.
    pub fn get_index_subjects_request(
        &self,
        index_id: u32,
        kind: Option<SubjectType>,
        limit: Option<u32>,
        offset: Option<u32>,
    ) -> (r: HttpRequest)
        ensures
            r.method == HttpMethod::Get,
            r.url@ == self.base_path@ + "/v0/indices/"@ + dec_digits(index_id as nat)
                + "/subjects"@,
            pairs_view(r.query@) == opt_pair(
                "type"@,
                match kind {
                    Some(t) => Some(dec_digits(subject_type_code(t) as nat)),
                    None => None,
                },
            ) + opt_pair(
                "limit"@,
                match limit {
                    Some(n) => Some(dec_digits(n as nat)),
                    None => None,
                },
            ) + opt_pair(
                "offset"@,
                match offset {
                    Some(n) => Some(dec_digits(n as nat)),
                    None => None,
                },
            ),
            pairs_view(r.headers@) == spec_headers(*self),
            r.body is None,
    {
        let url = self.base_path.clone().concat("/v0/indices/").concat(
            u32_string(index_id).as_str(),
        ).concat("/subjects");
        let mut r = self.request_builder(HttpMethod::Get, url.as_str());
        if let Some(t) = kind {
            query_push(&mut r.query, "type", u32_string(crate::subject::subject_type_code_exec(t)));
        }
        if let Some(n) = limit {
            query_push(&mut r.query, "limit", u32_string(n));
        }
        if let Some(n) = offset {
            query_push(&mut r.query, "offset", u32_string(n));
        }
        proof {
            assert(pairs_view(r.query@) =~= opt_pair(
                "type"@,
                match kind {
                    Some(t) => Some(dec_digits(subject_type_code(t) as nat)),
                    None => None,
                },
            ) + opt_pair(
                "limit"@,
                match limit {
                    Some(n) => Some(dec_digits(n as nat)),
                    None => None,
                },
            ) + opt_pair(
                "offset"@,
                match offset {
                    Some(n) => Some(dec_digits(n as nat)),
                    None => None,
                },
            ));
        }
        r
    }

    /// The request that adds a subject to an index.
    pub fn add_index_subject_request(
        &self,
        index_id: u32,
        payload: Option<IndexSubjectAddInfo>,
    ) -> (r: HttpRequest)
        ensures
            r.method == HttpMethod::Post,
            r.url@ == self.base_path@ + "/v0/indices/"@ + dec_digits(index_id as nat)
                + "/subjects"@,
            pairs_view(r.query@) == Seq::<(Seq<char>, Seq<char>)>::empty(),
            pairs_view(r.headers@) == spec_headers(*self),
            r.body matches Some(b) && json_view(b) == opt_index_subject_add_info_to_json(payload),
    {
        let url = self.base_path.clone().concat("/v0/indices/").concat(
            u32_string(index_id).as_str(),
        ).concat("/subjects");
        let mut r = self.request_builder(HttpMethod::Post, url.as_str());
        r.body = Some(
            match &payload {
                Some(p) => encode_index_subject_add_info(p),
                None => JsonValue::Null,
            },
        );
        r
    }

    /// The request that edits a subject already on an index.
    pub fn edit_index_subject_request(
        &self,
        index_id: u32,
        subject_id: u32,
        payload: Option<IndexSubjectEditInfo>,
    ) -> (r: HttpRequest)
        ensures
            r.method == HttpMethod::Put,
            r.url@ == self.base_path@ + "/v0/indices/"@ + dec_digits(index_id as nat)
                + "/subjects/"@ + dec_digits(subject_id as nat),
            pairs_view(r.query@) == Seq::<(Seq<char>, Seq<char>)>::empty(),
            pairs_view(r.headers@) == spec_headers(*self),
            r.body matches Some(b) && json_view(b) == opt_index_subject_edit_info_to_json(payload),
    {
        let url = self.base_path.clone().concat("/v0/indices/").concat(
            u32_string(index_id).as_str(),
        ).concat("/subjects/").concat(u32_string(subject_id).as_str());
        let mut r = self.request_builder(HttpMethod::Put, url.as_str());
        r.body = Some(
            match &payload {
                Some(p) => encode_index_subject_edit_info(p),
                None => JsonValue::Null,
            },
        );
        r
    }

    /// The request that removes a subject from an index.
    pub fn delete_index_subject_request(&self, index_id: u32, subject_id: u32) -> (r: HttpRequest)
        ensures
            r.method == HttpMethod::Delete,
            r.url@ == self.base_path@ + "/v0/indices/"@ + dec_digits(index_id as nat)
                + "/subjects/"@ + dec_digits(subject_id as nat),
            pairs_view(r.query@) == Seq::<(Seq<char>, Seq<char>)>::empty(),
            pairs_view(r.headers@) == spec_headers(*self),
            r.body is None,
    {
        let url = self.base_path.clone().concat("/v0/indices/").concat(
            u32_string(index_id).as_str(),
        ).concat("/subjects/").concat(u32_string(subject_id).as_str());
        self.request_builder(HttpMethod::Delete, url.as_str())
    }

    /// The request that puts an index on the caller's collection.
    pub fn collect_index_request(&self, index_id: u32) -> (r: HttpRequest)
        ensures
            r.method == HttpMethod::Post,
            r.url@ == self.base_path@ + "/v0/indices/"@ + dec_digits(index_id as nat) + "/collect"@,
            pairs_view(r.query@) == Seq::<(Seq<char>, Seq<char>)>::empty(),
            pairs_view(r.headers@) == spec_headers(*self),
            r.body is None,
    {
        let url = self.base_path.clone().concat("/v0/indices/").concat(
            u32_string(index_id).as_str(),
        ).concat("/collect");
        self.request_builder(HttpMethod::Post, url.as_str())
    }

    /// The request that takes an index off the caller's collection.
    pub fn uncollect_index_request(&self, index_id: u32) -> (r: HttpRequest)
        ensures
            r.method == HttpMethod::Delete,
            r.url@ == self.base_path@ + "/v0/indices/"@ + dec_digits(index_id as nat) + "/collect"@,
            pairs_view(r.query@) == Seq::<(Seq<char>, Seq<char>)>::empty(),
            pairs_view(r.headers@) == spec_headers(*self),
            r.body is None,
    {
        let url = self.base_path.clone().concat("/v0/indices/").concat(
            u32_string(index_id).as_str(),
        ).concat("/collect");
        self.request_builder(HttpMethod::Delete, url.as_str())
    }
}

} // verus!
