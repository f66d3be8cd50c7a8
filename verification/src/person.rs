use crate::client::{pairs_view, query_push, spec_headers, BangumiClient, HttpMethod, HttpRequest};
use crate::json::{
    data_field, field_opt_str, field_opt_u32, field_str, field_u32, fields_json_view, get_field,
    json_view, list_of_json, list_view, obj_field, seq_json_view, spec_field_arr,
    spec_field_opt_str, spec_field_opt_u32, spec_field_str, spec_field_u32, str_eq, JsonCodec,
    JsonData, JsonValue,
};
use crate::model::{
    decode_simple_image, encode_simple_image, encode_stat, lemma_lookup_at,
    lemma_simple_image_round_trip, lemma_stat_round_trip, simple_image_of_json,
    simple_image_to_json, simple_image_view, stat_to_json, BloodType, SimpleImage,
    SimpleImageData, Stat,
};
use crate::text::{dec_digits, u32_string};
use vstd::prelude::*;
use vstd::string::StringExecFns;

verus! {

/// What kind of body a person record describes.
#[derive(Debug, Clone, Copy, PartialEq, Eq, Structural)]
pub enum PersonType {
    Individual,
    Corporation,
    Association,
}

/// The numeric code of a person kind on the wire.
pub open spec fn person_type_code(t: PersonType) -> i64 {
    match t {
        PersonType::Individual => 1,
        PersonType::Corporation => 2,
        PersonType::Association => 3,
    }
}

pub open spec fn person_type_of_code(i: i64) -> Option<PersonType> {
    if i == 1 {
        Some(PersonType::Individual)
    } else if i == 2 {
        Some(PersonType::Corporation)
    } else if i == 3 {
        Some(PersonType::Association)
    } else {
        None
    }
}

pub fn person_type_from_code(i: i64) -> (r: Option<PersonType>)
    ensures
        r == person_type_of_code(i),
{
    if i == 1 {
        Some(PersonType::Individual)
    } else if i == 2 {
        Some(PersonType::Corporation)
    } else if i == 3 {
        Some(PersonType::Association)
    } else {
        None
    }
}

/// Every person-kind code decodes back to the kind it encodes.
pub proof fn lemma_person_type_round_trip(t: PersonType)
    ensures
        person_type_of_code(person_type_code(t)) == Some(t),
{
}

/// The kind-of-person member of a record.
pub open spec fn spec_field_person_type(jd: JsonData, key: Seq<char>) -> Option<PersonType> {
    match data_field(jd, key) {
        Some(JsonData::Int(i)) => person_type_of_code(i),
        _ => None,
    }
}

pub fn field_person_type(v: &JsonValue, key: &str) -> (r: Option<PersonType>)
    ensures
        r == spec_field_person_type(json_view(*v), key@),
{
    match get_field(v, key) {
        Some(x) => match x {
            JsonValue::Int(i) => person_type_from_code(*i),
            _ => None,
        },
        None => None,
    }
}

/// A trade a person works in.
#[derive(Debug, Clone, Copy, PartialEq, Eq, Structural)]
pub enum PersonCareer {
    Producer,
    Mangaka,
    Artist,
    Seiyu,
    Writer,
    Illustrator,
    Actor,
}

/// The word a career is written as on the wire.
pub open spec fn person_career_word(c: PersonCareer) -> Seq<char> {
    match c {
        PersonCareer::Producer => "producer"@,
        PersonCareer::Mangaka => "mangaka"@,
        PersonCareer::Artist => "artist"@,
        PersonCareer::Seiyu => "seiyu"@,
        PersonCareer::Writer => "writer"@,
        PersonCareer::Illustrator => "illustrator"@,
        PersonCareer::Actor => "actor"@,
    }
}

pub open spec fn person_career_of_word(s: Seq<char>) -> Option<PersonCareer> {
    if s == "producer"@ {
        Some(PersonCareer::Producer)
    } else if s == "mangaka"@ {
        Some(PersonCareer::Mangaka)
    } else if s == "artist"@ {
        Some(PersonCareer::Artist)
    } else if s == "seiyu"@ {
        Some(PersonCareer::Seiyu)
    } else if s == "writer"@ {
        Some(PersonCareer::Writer)
    } else if s == "illustrator"@ {
        Some(PersonCareer::Illustrator)
    } else if s == "actor"@ {
        Some(PersonCareer::Actor)
    } else {
        None
    }
}

pub fn person_career_from_word(s: &str) -> (r: Option<PersonCareer>)
    ensures
        r == person_career_of_word(s@),
{
    if str_eq(s, "producer") {
        Some(PersonCareer::Producer)
    } else if str_eq(s, "mangaka") {
        Some(PersonCareer::Mangaka)
    } else if str_eq(s, "artist") {
        Some(PersonCareer::Artist)
    } else if str_eq(s, "seiyu") {
        Some(PersonCareer::Seiyu)
    } else if str_eq(s, "writer") {
        Some(PersonCareer::Writer)
    } else if str_eq(s, "illustrator") {
        Some(PersonCareer::Illustrator)
    } else if str_eq(s, "actor") {
        Some(PersonCareer::Actor)
    } else {
        None
    }
}

pub fn person_career_string(c: PersonCareer) -> (s: String)
    ensures
        s@ == person_career_word(c),
{
    match c {
        PersonCareer::Producer => "producer".to_owned(),
        PersonCareer::Mangaka => "mangaka".to_owned(),
        PersonCareer::Artist => "artist".to_owned(),
        PersonCareer::Seiyu => "seiyu".to_owned(),
        PersonCareer::Writer => "writer".to_owned(),
        PersonCareer::Illustrator => "illustrator".to_owned(),
        PersonCareer::Actor => "actor".to_owned(),
    }
}

impl JsonCodec for PersonCareer {
    type Data = PersonCareer;

    open spec fn of_json(jd: JsonData) -> Option<PersonCareer> {
        match jd {
            JsonData::Str(s) => person_career_of_word(s),
            _ => None,
        }
    }

    open spec fn to_json(d: PersonCareer) -> JsonData {
        JsonData::Str(person_career_word(d))
    }

    open spec fn view_data(self) -> PersonCareer {
        self
    }

    fn decode(v: &JsonValue) -> (r: Option<Self>) {
        match v {
            JsonValue::Str(s) => person_career_from_word(s.as_str()),
            _ => None,
        }
    }

    fn encode(&self) -> (r: JsonValue) {
        JsonValue::Str(person_career_string(*self))
    }

    proof fn round_trip(d: PersonCareer) {
        reveal_strlit("producer");
        reveal_strlit("mangaka");
        reveal_strlit("artist");
        reveal_strlit("seiyu");
        reveal_strlit("writer");
        reveal_strlit("illustrator");
        reveal_strlit("actor");
        assert("producer"@.len() == 8 && "producer"@[0] == 'p');
        assert("mangaka"@.len() == 7 && "mangaka"@[0] == 'm');
        assert("artist"@.len() == 6 && "artist"@[0] == 'a' && "artist"@[1] == 'r');
        assert("seiyu"@.len() == 5 && "seiyu"@[0] == 's');
        assert("writer"@.len() == 6 && "writer"@[0] == 'w');
        assert("illustrator"@.len() == 11 && "illustrator"@[0] == 'i');
        assert("actor"@.len() == 5 && "actor"@[0] == 'a' && "actor"@[1] == 'c');
    }
}

/// The career-list member of a record.
pub open spec fn spec_field_careers(jd: JsonData, key: Seq<char>) -> Option<Seq<PersonCareer>> {
    match spec_field_arr(jd, key) {
        Some(items) => list_of_json::<PersonCareer>(items),
        None => None,
    }
}

pub fn field_careers(v: &JsonValue, key: &str) -> (r: Option<Vec<PersonCareer>>)
    ensures
        match r {
            Some(cs) => spec_field_careers(json_view(*v), key@) == Some(list_view(cs@)),
            None => spec_field_careers(json_view(*v), key@) is None,
        },
{
    match crate::json::field_arr(v, key) {
        Some(items) => crate::json::decode_list::<PersonCareer>(items),
        None => None,
    }
}

/// A person as list endpoints carry it.
#[derive(Debug)]
pub struct Person {
    pub id: u32,
    pub name: String,
    pub kind: PersonType,
    pub career: Vec<PersonCareer>,
    pub images: SimpleImage,
    pub short_summary: String,
    pub locked: bool,
}

/// The view of `Person`.
pub struct PersonData {
    pub id: u32,
    pub kind: PersonType,
    pub name: Seq<char>,
    pub career: Seq<PersonCareer>,
    pub images: SimpleImageData,
    pub short_summary: Seq<char>,
    pub locked: bool,
}

pub open spec fn person_view(x: Person) -> PersonData {
    PersonData {
        id: x.id,
        kind: x.kind,
        name: x.name@,
        career: list_view(x.career@),
        images: simple_image_view(x.images),
        short_summary: x.short_summary@,
        locked: x.locked,
    }
}

pub open spec fn person_of_json(jd: JsonData) -> Option<PersonData> {
    match (spec_field_u32(jd, "id"@), spec_field_str(jd, "name"@), spec_field_person_type(
        jd,
        "type"@,
    ), spec_field_careers(jd, "career"@)) {
        (Some(id), Some(name), Some(t), Some(career)) => match (data_field(jd, "images"@),
        spec_field_str(jd, "short_summary"@), crate::json::spec_field_bool(jd, "locked"@)) {
            (Some(iv), Some(ss), Some(locked)) => match simple_image_of_json(iv) {
                Some(images) => Some(
                    PersonData {
                        id,
                        kind: t,
                        name,
                        career,
                        images,
                        short_summary: ss,
                        locked,
                    },
                ),
                None => None,
            },
            _ => None,
        },
        _ => None,
    }
}

pub open spec fn person_to_json(d: PersonData) -> JsonData {
    JsonData::Obj(
        seq![
            ("id"@, JsonData::Int(d.id as i64)),
            ("name"@, JsonData::Str(d.name)),
            ("type"@, JsonData::Int(person_type_code(d.kind))),
            ("career"@, JsonData::Arr(d.career.map_values(|c: PersonCareer| PersonCareer::to_json(c)))),
            ("images"@, simple_image_to_json(d.images)),
            ("short_summary"@, JsonData::Str(d.short_summary)),
            ("locked"@, JsonData::Bool(d.locked)),
        ],
    )
}

pub fn decode_person(v: &JsonValue) -> (r: Option<Person>)
    ensures
        match r {
            Some(x) => person_of_json(json_view(*v)) == Some(person_view(x)),
            None => person_of_json(json_view(*v)) is None,
        },
{
    let id = match field_u32(v, "id") {
        Some(x) => x,
        None => {
            return None;
        },
    };
    let name = match field_str(v, "name") {
        Some(x) => x,
        None => {
            return None;
        },
    };
    let t = match field_person_type(v, "type") {
        Some(x) => x,
        None => {
            return None;
        },
    };
    let career = match field_careers(v, "career") {
        Some(x) => x,
        None => {
            return None;
        },
    };
    let images = match get_field(v, "images") {
        Some(iv) => match decode_simple_image(iv) {
            Some(x) => x,
            None => {
                return None;
            },
        },
        None => {
            return None;
        },
    };
    let short_summary = match field_str(v, "short_summary") {
        Some(x) => x,
        None => {
            return None;
        },
    };
    let locked = match crate::json::field_bool(v, "locked") {
        Some(x) => x,
        None => {
            return None;
        },
    };
    Some(Person { id, name, kind: t, career, images, short_summary, locked })
}

pub fn encode_person(x: &Person) -> (r: JsonValue)
    ensures
        json_view(r) == person_to_json(person_view(*x)),
{
    let mut fields: Vec<(String, JsonValue)> = Vec::new();
    obj_field(&mut fields, "id", JsonValue::Int(x.id as i64));
    obj_field(&mut fields, "name", JsonValue::Str(x.name.clone()));
    obj_field(&mut fields, "type", JsonValue::Int(person_type_code_exec(x.kind)));
    obj_field(&mut fields, "career", JsonValue::Arr(crate::json::encode_list::<PersonCareer>(&x.career)));
    obj_field(&mut fields, "images", encode_simple_image(&x.images));
    obj_field(&mut fields, "short_summary", JsonValue::Str(x.short_summary.clone()));
    obj_field(&mut fields, "locked", JsonValue::Bool(x.locked));
    proof {
        lemma_career_list_json(person_view(*x).career);
        assert(fields_json_view(fields@) =~= person_to_json(person_view(*x))->Obj_0);
    }
    JsonValue::Obj(fields)
}

/// The array a career list encodes to, element by element.
proof fn lemma_career_list_json(cs: Seq<PersonCareer>)
    ensures
        list_of_json::<PersonCareer>(
            cs.map_values(|c: PersonCareer| PersonCareer::to_json(c)),
        ) == Some(cs),
{
    crate::json::lemma_list_round_trip::<PersonCareer>(cs);
}

/// The numeric code of a person kind, as executable data.
pub fn person_type_code_exec(t: PersonType) -> (r: i64)
    ensures
        r == person_type_code(t),
{
    match t {
        PersonType::Individual => 1,
        PersonType::Corporation => 2,
        PersonType::Association => 3,
    }
}

/// Encoding a person and decoding it gives the person back.
pub proof fn lemma_person_round_trip(d: PersonData)
    ensures
        person_of_json(person_to_json(d)) == Some(d),
{
    let fs = person_to_json(d)->Obj_0;
    reveal_strlit("id");
    reveal_strlit("name");
    reveal_strlit("type");
    reveal_strlit("career");
    reveal_strlit("images");
    reveal_strlit("short_summary");
    reveal_strlit("locked");
    assert("id"@.len() == 2);
    assert("name"@.len() == 4);
    assert("type"@.len() == 4 && "type"@[0] == 't' && "name"@[0] == 'n');
    assert("career"@.len() == 6 && "career"@[0] == 'c');
    assert("images"@.len() == 6 && "images"@[0] == 'i');
    assert("short_summary"@.len() == 13);
    assert("locked"@.len() == 6 && "locked"@[0] == 'l');
    lemma_lookup_at(fs, "id"@, 0);
    lemma_lookup_at(fs, "name"@, 1);
    lemma_lookup_at(fs, "type"@, 2);
    lemma_lookup_at(fs, "career"@, 3);
    lemma_lookup_at(fs, "images"@, 4);
    lemma_lookup_at(fs, "short_summary"@, 5);
    lemma_lookup_at(fs, "locked"@, 6);
    lemma_person_type_round_trip(d.kind);
    lemma_career_list_json(d.career);
    lemma_simple_image_round_trip(d.images);
}

impl JsonCodec for Person {
    type Data = PersonData;

    open spec fn of_json(jd: JsonData) -> Option<PersonData> {
        person_of_json(jd)
    }

    open spec fn to_json(d: PersonData) -> JsonData {
        person_to_json(d)
    }

    open spec fn view_data(self) -> PersonData {
        person_view(self)
    }

    fn decode(v: &JsonValue) -> (r: Option<Self>) {
        decode_person(v)
    }

    fn encode(&self) -> (r: JsonValue) {
        encode_person(self)
    }

    proof fn round_trip(d: PersonData) {
        lemma_person_round_trip(d);
    }
}

/// What a person search asks for.
#[derive(Debug)]
pub struct PersonSearch {
    pub keyword: String,
    pub filter: Option<PersonFilter>,
}

/// How a person search narrows its results.
#[derive(Debug)]
pub struct PersonFilter {
    pub career: Option<Vec<String>>,
}

/// The body a person filter is sent as: the career list only when
/// supplied.
pub open spec fn person_filter_to_json(f: PersonFilter) -> JsonData {
    JsonData::Obj(
        match f.career {
            Some(cs) => seq![
                (
                    "career"@,
                    JsonData::Arr(
                        crate::json::strs_view(cs@).map_values(|s: Seq<char>| JsonData::Str(s)),
                    ),
                ),
            ],
            None => Seq::<(Seq<char>, JsonData)>::empty(),
        },
    )
}

pub fn encode_person_filter(f: &PersonFilter) -> (r: JsonValue)
    ensures
        json_view(r) == person_filter_to_json(*f),
{
    let mut fields: Vec<(String, JsonValue)> = Vec::new();
    if let Some(cs) = &f.career {
        obj_field(&mut fields, "career", JsonValue::Arr(crate::json::encode_str_list(cs)));
    }
    proof {
        assert(fields_json_view(fields@) =~= person_filter_to_json(*f)->Obj_0);
    }
    JsonValue::Obj(fields)
}

/// The body a person search is sent as.
pub open spec fn person_search_to_json(p: PersonSearch) -> JsonData {
    JsonData::Obj(
        seq![("keyword"@, JsonData::Str(p.keyword@))] + (match p.filter {
            Some(f) => seq![("filter"@, person_filter_to_json(f))],
            None => Seq::<(Seq<char>, JsonData)>::empty(),
        }),
    )
}

pub fn encode_person_search(p: &PersonSearch) -> (r: JsonValue)
    ensures
        json_view(r) == person_search_to_json(*p),
{
    let mut fields: Vec<(String, JsonValue)> = Vec::new();
    obj_field(&mut fields, "keyword", JsonValue::Str(p.keyword.clone()));
    if let Some(f) = &p.filter {
        obj_field(&mut fields, "filter", encode_person_filter(f));
    }
    proof {
        assert(fields_json_view(fields@) =~= person_search_to_json(*p)->Obj_0);
    }
    JsonValue::Obj(fields)
}

/// The body an optional person search is sent as: null when absent.
pub open spec fn opt_person_search_to_json(p: Option<PersonSearch>) -> JsonData {
    match p {
        Some(s) => person_search_to_json(s),
        None => JsonData::Null,
    }
}

/// A person, in full. The free-form information box keeps its raw JSON
/// entries, since the server fixes no schema for it.
#[derive(Debug)]
pub struct PersonDetail {
    pub id: u32,
    pub name: String,
    pub kind: PersonType,
    pub career: Vec<PersonCareer>,
    pub images: SimpleImage,
    pub summary: String,
    pub locked: bool,
    pub last_modified: String,
    pub infobox: Vec<JsonValue>,
    pub gender: Option<String>,
    pub blood_type: Option<BloodType>,
    pub birth_year: Option<u32>,
    pub birth_mon: Option<u32>,
    pub birth_day: Option<u32>,
    pub stat: Stat,
}

/// The view of `PersonDetail`.
pub struct PersonDetailData {
    pub id: u32,
    pub name: Seq<char>,
    pub kind: PersonType,
    pub career: Seq<PersonCareer>,
    pub images: SimpleImageData,
    pub summary: Seq<char>,
    pub locked: bool,
    pub last_modified: Seq<char>,
    pub infobox: Seq<JsonData>,
    pub gender: Option<Seq<char>>,
    pub blood_type: Option<BloodType>,
    pub birth_year: Option<u32>,
    pub birth_mon: Option<u32>,
    pub birth_day: Option<u32>,
    pub stat: Stat,
}

pub open spec fn person_detail_view(x: PersonDetail) -> PersonDetailData {
    PersonDetailData {
        id: x.id,
        name: x.name@,
        kind: x.kind,
        career: list_view(x.career@),
        images: simple_image_view(x.images),
        summary: x.summary@,
        locked: x.locked,
        last_modified: x.last_modified@,
        infobox: crate::json::seq_json_view(x.infobox@),
        gender: crate::error::opt_str_view(x.gender),
        blood_type: x.blood_type,
        birth_year: x.birth_year,
        birth_mon: x.birth_mon,
        birth_day: x.birth_day,
        stat: x.stat,
    }
}

pub open spec fn person_detail_of_json(jd: JsonData) -> Option<PersonDetailData> {
    match (spec_field_u32(jd, "id"@), spec_field_str(jd, "name"@), spec_field_person_type(
        jd,
        "type"@,
    ), spec_field_careers(jd, "career"@), crate::json::spec_field_record::<SimpleImage>(
        jd,
        "images"@,
    ), spec_field_str(jd, "summary"@), crate::json::spec_field_bool(jd, "locked"@)) {
        (Some(id), Some(name), Some(kind), Some(career), Some(images), Some(summary), Some(locked))
            => match (
            spec_field_str(jd, "last_modified"@),
            spec_field_arr(jd, "infobox"@),
            spec_field_opt_str(jd, "gender"@),
            crate::character::spec_field_opt_blood(jd, "blood_type"@),
            spec_field_opt_u32(jd, "birth_year"@),
            spec_field_opt_u32(jd, "birth_mon"@),
            spec_field_opt_u32(jd, "birth_day"@),
            crate::json::spec_field_record::<Stat>(jd, "stat"@),
        ) {
            (
                Some(last_modified),
                Some(infobox),
                Some(gender),
                Some(blood_type),
                Some(birth_year),
                Some(birth_mon),
                Some(birth_day),
                Some(stat),
            ) => Some(
                PersonDetailData {
                    id,
                    name,
                    kind,
                    career,
                    images,
                    summary,
                    locked,
                    last_modified,
                    infobox,
                    gender,
                    blood_type,
                    birth_year,
                    birth_mon,
                    birth_day,
                    stat,
                },
            ),
            _ => None,
        },
        _ => None,
    }
}

pub open spec fn person_detail_to_json(d: PersonDetailData) -> JsonData {
    JsonData::Obj(
        seq![
            ("id"@, JsonData::Int(d.id as i64)),
            ("name"@, JsonData::Str(d.name)),
            ("type"@, JsonData::Int(person_type_code(d.kind))),
            (
                "career"@,
                JsonData::Arr(d.career.map_values(|c: PersonCareer| PersonCareer::to_json(c))),
            ),
            ("images"@, simple_image_to_json(d.images)),
            ("summary"@, JsonData::Str(d.summary)),
            ("locked"@, JsonData::Bool(d.locked)),
            ("last_modified"@, JsonData::Str(d.last_modified)),
            ("infobox"@, JsonData::Arr(d.infobox)),
            ("gender"@, crate::subject::opt_str_to_json(d.gender)),
            ("blood_type"@, crate::character::opt_blood_to_json(d.blood_type)),
            ("birth_year"@, crate::character::opt_u32_field_to_json(d.birth_year)),
            ("birth_mon"@, crate::character::opt_u32_field_to_json(d.birth_mon)),
            ("birth_day"@, crate::character::opt_u32_field_to_json(d.birth_day)),
            ("stat"@, stat_to_json(d.stat)),
        ],
    )
}

impl JsonCodec for PersonDetail {
    type Data = PersonDetailData;

    open spec fn of_json(jd: JsonData) -> Option<PersonDetailData> {
        person_detail_of_json(jd)
    }

    open spec fn to_json(d: PersonDetailData) -> JsonData {
        person_detail_to_json(d)
    }

    open spec fn view_data(self) -> PersonDetailData {
        person_detail_view(self)
    }

    fn decode(v: &JsonValue) -> (r: Option<Self>) {
        let id = match field_u32(v, "id") {
            Some(x) => x,
            None => {
                return None;
            },
        };
        let name = match field_str(v, "name") {
            Some(x) => x,
            None => {
                return None;
            },
        };
        let kind = match field_person_type(v, "type") {
            Some(x) => x,
            None => {
                return None;
            },
        };
        let career = match field_careers(v, "career") {
            Some(x) => x,
            None => {
                return None;
            },
        };
        let images = match crate::json::field_record::<SimpleImage>(v, "images") {
            Some(x) => x,
            None => {
                return None;
            },
        };
        let summary = match field_str(v, "summary") {
            Some(x) => x,
            None => {
                return None;
            },
        };
        let locked = match crate::json::field_bool(v, "locked") {
            Some(x) => x,
            None => {
                return None;
            },
        };
        let last_modified = match field_str(v, "last_modified") {
            Some(x) => x,
            None => {
                return None;
            },
        };
        let infobox = match crate::json::field_arr(v, "infobox") {
            Some(items) => crate::json::clone_json_list(items),
            None => {
                return None;
            },
        };
        let gender = match field_opt_str(v, "gender") {
            Some(x) => x,
            None => {
                return None;
            },
        };
        let blood_type = match crate::character::field_opt_blood(v, "blood_type") {
            Some(x) => x,
            None => {
                return None;
            },
        };
        let birth_year = match field_opt_u32(v, "birth_year") {
            Some(x) => x,
            None => {
                return None;
            },
        };
        let birth_mon = match field_opt_u32(v, "birth_mon") {
            Some(x) => x,
            None => {
                return None;
            },
        };
        let birth_day = match field_opt_u32(v, "birth_day") {
            Some(x) => x,
            None => {
                return None;
            },
        };
        let stat = match crate::json::field_record::<Stat>(v, "stat") {
            Some(x) => x,
            None => {
                return None;
            },
        };
        Some(
            PersonDetail {
                id,
                name,
                kind,
                career,
                images,
                summary,
                locked,
                last_modified,
                infobox,
                gender,
                blood_type,
                birth_year,
                birth_mon,
                birth_day,
                stat,
            },
        )
    }

    fn encode(&self) -> (r: JsonValue) {
        let mut fields: Vec<(String, JsonValue)> = Vec::new();
        obj_field(&mut fields, "id", JsonValue::Int(self.id as i64));
        obj_field(&mut fields, "name", JsonValue::Str(self.name.clone()));
        obj_field(&mut fields, "type", JsonValue::Int(person_type_code_exec(self.kind)));
        obj_field(
            &mut fields,
            "career",
            JsonValue::Arr(crate::json::encode_list::<PersonCareer>(&self.career)),
        );
        obj_field(&mut fields, "images", encode_simple_image(&self.images));
        obj_field(&mut fields, "summary", JsonValue::Str(self.summary.clone()));
        obj_field(&mut fields, "locked", JsonValue::Bool(self.locked));
        obj_field(&mut fields, "last_modified", JsonValue::Str(self.last_modified.clone()));
        obj_field(&mut fields, "infobox", JsonValue::Arr(crate::json::clone_json_list(&self.infobox)));
        let gender = match &self.gender {
            Some(s) => JsonValue::Str(s.clone()),
            None => JsonValue::Null,
        };
        obj_field(&mut fields, "gender", gender);
        obj_field(&mut fields, "blood_type", crate::character::opt_blood_value(self.blood_type));
        obj_field(&mut fields, "birth_year", crate::character::opt_u32_field_value(self.birth_year));
        obj_field(&mut fields, "birth_mon", crate::character::opt_u32_field_value(self.birth_mon));
        obj_field(&mut fields, "birth_day", crate::character::opt_u32_field_value(self.birth_day));
        obj_field(&mut fields, "stat", encode_stat(&self.stat));
        proof {
            lemma_career_list_json(person_detail_view(*self).career);
            assert(fields_json_view(fields@) =~= person_detail_to_json(person_detail_view(*self))
                ->Obj_0);
        }
        JsonValue::Obj(fields)
    }

    proof fn round_trip(d: PersonDetailData) {
        let fs = person_detail_to_json(d)->Obj_0;
        reveal_strlit("id");
        reveal_strlit("name");
        reveal_strlit("type");
        reveal_strlit("career");
        reveal_strlit("images");
        reveal_strlit("summary");
        reveal_strlit("locked");
        reveal_strlit("last_modified");
        reveal_strlit("infobox");
        reveal_strlit("gender");
        reveal_strlit("blood_type");
        reveal_strlit("birth_year");
        reveal_strlit("birth_mon");
        reveal_strlit("birth_day");
        reveal_strlit("stat");
        assert("id"@.len() == 2);
        assert("name"@.len() == 4 && "name"@[0] == 'n');
        assert("type"@.len() == 4 && "type"@[0] == 't');
        assert("career"@.len() == 6 && "career"@[0] == 'c');
        assert("images"@.len() == 6 && "images"@[0] == 'i');
        assert("summary"@.len() == 7 && "summary"@[0] == 's');
        assert("locked"@.len() == 6 && "locked"@[0] == 'l');
        assert("last_modified"@.len() == 13);
        assert("infobox"@.len() == 7 && "infobox"@[0] == 'i');
        assert("gender"@.len() == 6 && "gender"@[0] == 'g');
        assert("blood_type"@.len() == 10 && "blood_type"@[0] == 'b' && "blood_type"@[1] == 'l');
        assert("birth_year"@.len() == 10 && "birth_year"@[0] == 'b' && "birth_year"@[1] == 'i');
        assert("birth_mon"@.len() == 9 && "birth_mon"@[6] == 'm');
        assert("birth_day"@.len() == 9 && "birth_day"@[6] == 'd');
        assert("stat"@.len() == 4 && "stat"@[0] == 's');
        assert("birth_year"@[6] == 'y');
        lemma_lookup_at(fs, "id"@, 0);
        lemma_lookup_at(fs, "name"@, 1);
        lemma_lookup_at(fs, "type"@, 2);
        lemma_lookup_at(fs, "career"@, 3);
        lemma_lookup_at(fs, "images"@, 4);
        lemma_lookup_at(fs, "summary"@, 5);
        lemma_lookup_at(fs, "locked"@, 6);
        lemma_lookup_at(fs, "last_modified"@, 7);
        lemma_lookup_at(fs, "infobox"@, 8);
        lemma_lookup_at(fs, "gender"@, 9);
        lemma_lookup_at(fs, "blood_type"@, 10);
        lemma_lookup_at(fs, "birth_year"@, 11);
        lemma_lookup_at(fs, "birth_mon"@, 12);
        lemma_lookup_at(fs, "birth_day"@, 13);
        lemma_lookup_at(fs, "stat"@, 14);
        lemma_person_type_round_trip(d.kind);
        lemma_career_list_json(d.career);
        lemma_simple_image_round_trip(d.images);
        lemma_stat_round_trip(d.stat);
    }
}

/// A character a person voiced or created, with its subject.
#[derive(Debug)]
pub struct PersonCharacter {
    pub id: u32,
    pub name: String,
    pub kind: crate::character::CharacterType,
    pub images: SimpleImage,
    pub subject_id: u32,
    pub subject_type: crate::subject::SubjectType,
    pub subject_name: String,
    pub subject_name_cn: String,
    pub staff: String,
}

/// The view of `PersonCharacter`.
pub struct PersonCharacterData {
    pub id: u32,
    pub name: Seq<char>,
    pub kind: crate::character::CharacterType,
    pub images: SimpleImageData,
    pub subject_id: u32,
    pub subject_type: crate::subject::SubjectType,
    pub subject_name: Seq<char>,
    pub subject_name_cn: Seq<char>,
    pub staff: Seq<char>,
}

pub open spec fn person_character_view(x: PersonCharacter) -> PersonCharacterData {
    PersonCharacterData {
        id: x.id,
        name: x.name@,
        kind: x.kind,
        images: simple_image_view(x.images),
        subject_id: x.subject_id,
        subject_type: x.subject_type,
        subject_name: x.subject_name@,
        subject_name_cn: x.subject_name_cn@,
        staff: x.staff@,
    }
}

pub open spec fn person_character_of_json(jd: JsonData) -> Option<PersonCharacterData> {
    match (spec_field_u32(jd, "id"@), spec_field_str(jd, "name"@),
    crate::character::spec_field_character_type(jd, "type"@), crate::json::spec_field_record::<
        SimpleImage,
    >(jd, "images"@), spec_field_u32(jd, "subject_id"@), crate::subject::spec_field_subject_type(
        jd,
        "subject_type"@,
    ), spec_field_str(jd, "subject_name"@), spec_field_str(jd, "subject_name_cn"@), spec_field_str(
        jd,
        "staff"@,
    )) {
        (
            Some(id),
            Some(name),
            Some(kind),
            Some(images),
            Some(subject_id),
            Some(subject_type),
            Some(subject_name),
            Some(subject_name_cn),
            Some(staff),
        ) => Some(
            PersonCharacterData {
                id,
                name,
                kind,
                images,
                subject_id,
                subject_type,
                subject_name,
                subject_name_cn,
                staff,
            },
        ),
        _ => None,
    }
}

pub open spec fn person_character_to_json(d: PersonCharacterData) -> JsonData {
    JsonData::Obj(
        seq![
            ("id"@, JsonData::Int(d.id as i64)),
            ("name"@, JsonData::Str(d.name)),
            ("type"@, JsonData::Int(crate::character::character_type_code(d.kind))),
            ("images"@, simple_image_to_json(d.images)),
            ("subject_id"@, JsonData::Int(d.subject_id as i64)),
            ("subject_type"@, JsonData::Int(crate::subject::subject_type_code(d.subject_type))),
            ("subject_name"@, JsonData::Str(d.subject_name)),
            ("subject_name_cn"@, JsonData::Str(d.subject_name_cn)),
            ("staff"@, JsonData::Str(d.staff)),
        ],
    )
}

impl JsonCodec for PersonCharacter {
    type Data = PersonCharacterData;

    open spec fn of_json(jd: JsonData) -> Option<PersonCharacterData> {
        person_character_of_json(jd)
    }

    open spec fn to_json(d: PersonCharacterData) -> JsonData {
        person_character_to_json(d)
    }

    open spec fn view_data(self) -> PersonCharacterData {
        person_character_view(self)
    }

    fn decode(v: &JsonValue) -> (r: Option<Self>) {
        let id = match field_u32(v, "id") {
            Some(x) => x,
            None => {
                return None;
            },
        };
        let name = match field_str(v, "name") {
            Some(x) => x,
            None => {
                return None;
            },
        };
        let kind = match crate::character::field_character_type(v, "type") {
            Some(x) => x,
            None => {
                return None;
            },
        };
        let images = match crate::json::field_record::<SimpleImage>(v, "images") {
            Some(x) => x,
            None => {
                return None;
            },
        };
        let subject_id = match field_u32(v, "subject_id") {
            Some(x) => x,
            None => {
                return None;
            },
        };
        let subject_type = match crate::subject::field_subject_type(v, "subject_type") {
            Some(x) => x,
            None => {
                return None;
            },
        };
        let subject_name = match field_str(v, "subject_name") {
            Some(x) => x,
            None => {
                return None;
            },
        };
        let subject_name_cn = match field_str(v, "subject_name_cn") {
            Some(x) => x,
            None => {
                return None;
            },
        };
        let staff = match field_str(v, "staff") {
            Some(x) => x,
            None => {
                return None;
            },
        };
        Some(
            PersonCharacter {
                id,
                name,
                kind,
                images,
                subject_id,
                subject_type,
                subject_name,
                subject_name_cn,
                staff,
            },
        )
    }

    fn encode(&self) -> (r: JsonValue) {
        let mut fields: Vec<(String, JsonValue)> = Vec::new();
        obj_field(&mut fields, "id", JsonValue::Int(self.id as i64));
        obj_field(&mut fields, "name", JsonValue::Str(self.name.clone()));
        obj_field(
            &mut fields,
            "type",
            JsonValue::Int(crate::character::character_type_code_exec(self.kind)),
        );
        obj_field(&mut fields, "images", encode_simple_image(&self.images));
        obj_field(&mut fields, "subject_id", JsonValue::Int(self.subject_id as i64));
        obj_field(
            &mut fields,
            "subject_type",
            JsonValue::Int(crate::subject::subject_type_code_exec(self.subject_type) as i64),
        );
        obj_field(&mut fields, "subject_name", JsonValue::Str(self.subject_name.clone()));
        obj_field(&mut fields, "subject_name_cn", JsonValue::Str(self.subject_name_cn.clone()));
        obj_field(&mut fields, "staff", JsonValue::Str(self.staff.clone()));
        proof {
            assert(fields_json_view(fields@) =~= person_character_to_json(
                person_character_view(*self),
            )->Obj_0);
        }
        JsonValue::Obj(fields)
    }

    proof fn round_trip(d: PersonCharacterData) {
        let fs = person_character_to_json(d)->Obj_0;
        reveal_strlit("id");
        reveal_strlit("name");
        reveal_strlit("type");
        reveal_strlit("images");
        reveal_strlit("subject_id");
        reveal_strlit("subject_type");
        reveal_strlit("subject_name");
        reveal_strlit("subject_name_cn");
        reveal_strlit("staff");
        assert("id"@.len() == 2);
        assert("name"@.len() == 4 && "name"@[0] == 'n');
        assert("type"@.len() == 4 && "type"@[0] == 't');
        assert("images"@.len() == 6);
        assert("subject_id"@.len() == 10);
        assert("subject_type"@.len() == 12 && "subject_type"@[8] == 't');
        assert("subject_name"@.len() == 12 && "subject_name"@[8] == 'n');
        assert("subject_name_cn"@.len() == 15);
        assert("staff"@.len() == 5);
        lemma_lookup_at(fs, "id"@, 0);
        lemma_lookup_at(fs, "name"@, 1);
        lemma_lookup_at(fs, "type"@, 2);
        lemma_lookup_at(fs, "images"@, 3);
        lemma_lookup_at(fs, "subject_id"@, 4);
        lemma_lookup_at(fs, "subject_type"@, 5);
        lemma_lookup_at(fs, "subject_name"@, 6);
        lemma_lookup_at(fs, "subject_name_cn"@, 7);
        lemma_lookup_at(fs, "staff"@, 8);
        crate::character::lemma_character_type_round_trip(d.kind);
        lemma_simple_image_round_trip(d.images);
        crate::subject::lemma_subject_type_round_trip(d.subject_type);
    }
}

/// A subject a person worked on.
#[derive(Debug)]
pub struct PersonSubject {
    pub id: u32,
    pub kind: crate::subject::SubjectType,
    pub staff: String,
    pub name: String,
    pub name_cn: String,
    pub images: Option<crate::model::Image>,
}

/// The view of `PersonSubject`.
pub struct PersonSubjectData {
    pub id: u32,
    pub kind: crate::subject::SubjectType,
    pub staff: Seq<char>,
    pub name: Seq<char>,
    pub name_cn: Seq<char>,
    pub images: Option<crate::model::ImageData>,
}

pub open spec fn person_subject_view(x: PersonSubject) -> PersonSubjectData {
    PersonSubjectData {
        id: x.id,
        kind: x.kind,
        staff: x.staff@,
        name: x.name@,
        name_cn: x.name_cn@,
        images: match x.images {
            Some(im) => Some(crate::model::image_view(im)),
            None => None,
        },
    }
}

pub open spec fn person_subject_of_json(jd: JsonData) -> Option<PersonSubjectData> {
    match (spec_field_u32(jd, "id"@), crate::subject::spec_field_subject_type(jd, "type"@),
    spec_field_str(jd, "staff"@), spec_field_str(jd, "name"@), spec_field_str(jd, "name_cn"@),
    crate::json::spec_field_opt_record::<crate::model::Image>(jd, "images"@)) {
        (Some(id), Some(kind), Some(staff), Some(name), Some(name_cn), Some(images)) => Some(
            PersonSubjectData { id, kind, staff, name, name_cn, images },
        ),
        _ => None,
    }
}

pub open spec fn person_subject_to_json(d: PersonSubjectData) -> JsonData {
    JsonData::Obj(
        seq![
            ("id"@, JsonData::Int(d.id as i64)),
            ("type"@, JsonData::Int(crate::subject::subject_type_code(d.kind))),
            ("staff"@, JsonData::Str(d.staff)),
            ("name"@, JsonData::Str(d.name)),
            ("name_cn"@, JsonData::Str(d.name_cn)),
            (
                "images"@,
                match d.images {
                    Some(im) => crate::model::image_to_json(im),
                    None => JsonData::Null,
                },
            ),
        ],
    )
}

impl JsonCodec for PersonSubject {
    type Data = PersonSubjectData;

    open spec fn of_json(jd: JsonData) -> Option<PersonSubjectData> {
        person_subject_of_json(jd)
    }

    open spec fn to_json(d: PersonSubjectData) -> JsonData {
        person_subject_to_json(d)
    }

    open spec fn view_data(self) -> PersonSubjectData {
        person_subject_view(self)
    }

    fn decode(v: &JsonValue) -> (r: Option<Self>) {
        let id = match field_u32(v, "id") {
            Some(x) => x,
            None => {
                return None;
            },
        };
        let kind = match crate::subject::field_subject_type(v, "type") {
            Some(x) => x,
            None => {
                return None;
            },
        };
        let staff = match field_str(v, "staff") {
            Some(x) => x,
            None => {
                return None;
            },
        };
        let name = match field_str(v, "name") {
            Some(x) => x,
            None => {
                return None;
            },
        };
        let name_cn = match field_str(v, "name_cn") {
            Some(x) => x,
            None => {
                return None;
            },
        };
        let images = match crate::json::field_opt_record::<crate::model::Image>(v, "images") {
            Some(x) => x,
            None => {
                return None;
            },
        };
        Some(PersonSubject { id, kind, staff, name, name_cn, images })
    }

    fn encode(&self) -> (r: JsonValue) {
        let mut fields: Vec<(String, JsonValue)> = Vec::new();
        obj_field(&mut fields, "id", JsonValue::Int(self.id as i64));
        obj_field(
            &mut fields,
            "type",
            JsonValue::Int(crate::subject::subject_type_code_exec(self.kind) as i64),
        );
        obj_field(&mut fields, "staff", JsonValue::Str(self.staff.clone()));
        obj_field(&mut fields, "name", JsonValue::Str(self.name.clone()));
        obj_field(&mut fields, "name_cn", JsonValue::Str(self.name_cn.clone()));
        let images = match &self.images {
            Some(im) => crate::model::encode_image(im),
            None => JsonValue::Null,
        };
        obj_field(&mut fields, "images", images);
        proof {
            assert(fields_json_view(fields@) =~= person_subject_to_json(person_subject_view(*self))
                ->Obj_0);
        }
        JsonValue::Obj(fields)
    }

    proof fn round_trip(d: PersonSubjectData) {
        let fs = person_subject_to_json(d)->Obj_0;
        reveal_strlit("id");
        reveal_strlit("type");
        reveal_strlit("staff");
        reveal_strlit("name");
        reveal_strlit("name_cn");
        reveal_strlit("images");
        assert("id"@.len() == 2);
        assert("type"@.len() == 4 && "type"@[0] == 't');
        assert("staff"@.len() == 5 && "staff"@[0] == 's');
        assert("name"@.len() == 4 && "name"@[0] == 'n');
        assert("name_cn"@.len() == 7);
        assert("images"@.len() == 6);
        lemma_lookup_at(fs, "id"@, 0);
        lemma_lookup_at(fs, "type"@, 1);
        lemma_lookup_at(fs, "staff"@, 2);
        lemma_lookup_at(fs, "name"@, 3);
        lemma_lookup_at(fs, "name_cn"@, 4);
        lemma_lookup_at(fs, "images"@, 5);
        crate::subject::lemma_subject_type_round_trip(d.kind);
        if d.images is Some {
            crate::model::lemma_image_round_trip(d.images->0);
        }
    }
}

impl BangumiClient {
    /// The request that searches persons: optional paging in the query,
    /// the search payload as the body.
    pub fn search_persons_request(
        &self,
        limit: Option<u32>,
        offset: Option<u32>,
        payload: Option<PersonSearch>,
    ) -> (r: HttpRequest)
        ensures
            r.method == HttpMethod::Post,
            r.url@ == self.base_path@ + "/v0/search/persons"@,
            pairs_view(r.query@) == crate::client::opt_pair(
                "limit"@,
                match limit {
                    Some(n) => Some(dec_digits(n as nat)),
                    None => None,
                },
            ) + crate::client::opt_pair(
                "offset"@,
                match offset {
                    Some(n) => Some(dec_digits(n as nat)),
                    None => None,
                },
            ),
            pairs_view(r.headers@) == spec_headers(*self),
            r.body matches Some(b) && json_view(b) == opt_person_search_to_json(payload),
    {
        let url = self.base_path.clone().concat("/v0/search/persons");
        let mut r = self.request_builder(HttpMethod::Post, url.as_str());
        if let Some(n) = limit {
            query_push(&mut r.query, "limit", u32_string(n));
        }
        if let Some(n) = offset {
            query_push(&mut r.query, "offset", u32_string(n));
        }
        r.body = Some(
            match &payload {
                Some(p) => encode_person_search(p),
                None => JsonValue::Null,
            },
        );
        proof {
            assert(pairs_view(r.query@) =~= crate::client::opt_pair(
                "limit"@,
                match limit {
                    Some(n) => Some(dec_digits(n as nat)),
                    None => None,
                },
            ) + crate::client::opt_pair(
                "offset"@,
                match offset {
                    Some(n) => Some(dec_digits(n as nat)),
                    None => None,
                },
            ));
        }
        r
    }

    /// The request for one person by their id.
    pub fn get_person_request(&self, person_id: u32) -> (r: HttpRequest)
        ensures
            r.method == HttpMethod::Get,
            r.url@ == self.base_path@ + "/v0/persons/"@ + dec_digits(person_id as nat),
            pairs_view(r.query@) == Seq::<(Seq<char>, Seq<char>)>::empty(),
            pairs_view(r.headers@) == spec_headers(*self),
            r.body is None,
    {
        let url = self.base_path.clone().concat("/v0/persons/").concat(
            u32_string(person_id).as_str(),
        );
        self.request_builder(HttpMethod::Get, url.as_str())
    }

    /// The request for a person's image in one of its sizes.
    pub fn get_person_image_request(&self, person_id: u32, kind: crate::model::SimpleImageType)
        -> (r: HttpRequest)
        ensures
            r.method == HttpMethod::Get,
            r.url@ == self.base_path@ + "/v0/persons/"@ + dec_digits(person_id as nat) + "/image"@,
            pairs_view(r.query@) == seq![("type"@, crate::model::simple_image_type_word(kind))],
            pairs_view(r.headers@) == spec_headers(*self),
            r.body is None,
    {
        let url = self.base_path.clone().concat("/v0/persons/").concat(
            u32_string(person_id).as_str(),
        ).concat("/image");
        let mut r = self.request_builder(HttpMethod::Get, url.as_str());
        query_push(&mut r.query, "type", crate::model::simple_image_type_string(kind));
        proof {
            assert(pairs_view(r.query@) =~= seq![
                ("type"@, crate::model::simple_image_type_word(kind)),
            ]);
        }
        r
    }

    /// The request for the subjects a person worked on.
    pub fn get_person_subjects_request(&self, person_id: u32) -> (r: HttpRequest)
        ensures
            r.method == HttpMethod::Get,
            r.url@ == self.base_path@ + "/v0/persons/"@ + dec_digits(person_id as nat)
                + "/subjects"@,
            pairs_view(r.query@) == Seq::<(Seq<char>, Seq<char>)>::empty(),
            pairs_view(r.headers@) == spec_headers(*self),
            r.body is None,
    {
        let url = self.base_path.clone().concat("/v0/persons/").concat(
            u32_string(person_id).as_str(),
        ).concat("/subjects");
        self.request_builder(HttpMethod::Get, url.as_str())
    }

    /// The request for the characters a person voiced or created.
    pub fn get_person_characters_request(&self, person_id: u32) -> (r: HttpRequest)
        ensures
            r.method == HttpMethod::Get,
            r.url@ == self.base_path@ + "/v0/persons/"@ + dec_digits(person_id as nat)
                + "/characters"@,
            pairs_view(r.query@) == Seq::<(Seq<char>, Seq<char>)>::empty(),
            pairs_view(r.headers@) == spec_headers(*self),
            r.body is None,
    {
        let url = self.base_path.clone().concat("/v0/persons/").concat(
            u32_string(person_id).as_str(),
        ).concat("/characters");
        self.request_builder(HttpMethod::Get, url.as_str())
    }

    /// The request that puts a person on the caller's collection.
    pub fn collect_person_request(&self, person_id: u32) -> (r: HttpRequest)
        ensures
            r.method == HttpMethod::Post,
            r.url@ == self.base_path@ + "/v0/persons/"@ + dec_digits(person_id as nat)
                + "/collect"@,
            pairs_view(r.query@) == Seq::<(Seq<char>, Seq<char>)>::empty(),
            pairs_view(r.headers@) == spec_headers(*self),
            r.body is None,
    {
        let url = self.base_path.clone().concat("/v0/persons/").concat(
            u32_string(person_id).as_str(),
        ).concat("/collect");
        self.request_builder(HttpMethod::Post, url.as_str())
    }

    /// The request that takes a person off the caller's collection.
    pub fn uncollect_person_request(&self, person_id: u32) -> (r: HttpRequest)
        ensures
            r.method == HttpMethod::Delete,
            r.url@ == self.base_path@ + "/v0/persons/"@ + dec_digits(person_id as nat)
                + "/collect"@,
            pairs_view(r.query@) == Seq::<(Seq<char>, Seq<char>)>::empty(),
            pairs_view(r.headers@) == spec_headers(*self),
            r.body is None,
    {
        let url = self.base_path.clone().concat("/v0/persons/").concat(
            u32_string(person_id).as_str(),
        ).concat("/collect");
        self.request_builder(HttpMethod::Delete, url.as_str())
    }
}

} // verus!
