use crate::client::{opt_pair, pairs_view, query_push, spec_headers, BangumiClient, HttpMethod, HttpRequest};
use crate::json::{
    data_field, field_opt_u32, field_str, field_u32, fields_json_view, get_field, json_view,
    list_view, obj_field, spec_field_bool, spec_field_opt_u32, spec_field_str, spec_field_u32,
    JsonCodec, JsonData, JsonValue,
};
use crate::model::{
    blood_type_code, blood_type_from_code, blood_type_of_code, lemma_lookup_at,
    simple_image_to_json, simple_image_view, BloodType, SimpleImage, SimpleImageData,
    SimpleImageType, Stat,
};
use crate::subject::{
    spec_field_subject_type, subject_type_code, subject_type_code_exec, SubjectType,
};
use crate::text::{dec_digits, u32_string};
use vstd::prelude::*;
use vstd::string::StringExecFns;

verus! {

/// The kind of a character record.
#[derive(Debug, Clone, Copy, PartialEq, Eq, Structural)]
pub enum CharacterType {
    Character,
    Mechanic,
    Ship,
    Organization,
}

/// The numeric code of a character kind on the wire.
pub open spec fn character_type_code(t: CharacterType) -> i64 {
    match t {
        CharacterType::Character => 1,
        CharacterType::Mechanic => 2,
        CharacterType::Ship => 3,
        CharacterType::Organization => 4,
    }
}

pub open spec fn character_type_of_code(i: i64) -> Option<CharacterType> {
    if i == 1 {
        Some(CharacterType::Character)
    } else if i == 2 {
        Some(CharacterType::Mechanic)
    } else if i == 3 {
        Some(CharacterType::Ship)
    } else if i == 4 {
        Some(CharacterType::Organization)
    } else {
        None
    }
}

pub fn character_type_from_code(i: i64) -> (r: Option<CharacterType>)
    ensures
        r == character_type_of_code(i),
{
    if i == 1 {
        Some(CharacterType::Character)
    } else if i == 2 {
        Some(CharacterType::Mechanic)
    } else if i == 3 {
        Some(CharacterType::Ship)
    } else if i == 4 {
        Some(CharacterType::Organization)
    } else {
        None
    }
}

pub fn character_type_code_exec(t: CharacterType) -> (r: i64)
    ensures
        r == character_type_code(t),
{
    match t {
        CharacterType::Character => 1,
        CharacterType::Mechanic => 2,
        CharacterType::Ship => 3,
        CharacterType::Organization => 4,
    }
}

/// Every character-kind code decodes back to the kind it encodes.
pub proof fn lemma_character_type_round_trip(t: CharacterType)
    ensures
        character_type_of_code(character_type_code(t)) == Some(t),
{
}

/// The kind-of-character member of a record.
pub open spec fn spec_field_character_type(jd: JsonData, key: Seq<char>) -> Option<CharacterType> {
    match data_field(jd, key) {
        Some(JsonData::Int(i)) => character_type_of_code(i),
        _ => None,
    }
}

pub fn field_character_type(v: &JsonValue, key: &str) -> (r: Option<CharacterType>)
    ensures
        r == spec_field_character_type(json_view(*v), key@),
{
    match get_field(v, key) {
        Some(x) => match x {
            JsonValue::Int(i) => character_type_from_code(*i),
            _ => None,
        },
        None => None,
    }
}

/// A blood-group member that may be absent or null.
pub open spec fn spec_field_opt_blood(jd: JsonData, key: Seq<char>) -> Option<Option<BloodType>> {
    match data_field(jd, key) {
        None => Some(None),
        Some(JsonData::Null) => Some(None),
        Some(JsonData::Int(i)) => match blood_type_of_code(i) {
            Some(b) => Some(Some(b)),
            None => None,
        },
        _ => None,
    }
}

pub fn field_opt_blood(v: &JsonValue, key: &str) -> (r: Option<Option<BloodType>>)
    ensures
        r == spec_field_opt_blood(json_view(*v), key@),
{
    match get_field(v, key) {
        Some(x) => match x {
            JsonValue::Null => Some(None),
            JsonValue::Int(i) => match blood_type_from_code(*i) {
                Some(b) => Some(Some(b)),
                None => None,
            },
            _ => None,
        },
        None => Some(None),
    }
}

/// An optional blood group as a JSON member value: null when absent.
pub open spec fn opt_blood_to_json(v: Option<BloodType>) -> JsonData {
    match v {
        Some(b) => JsonData::Int(blood_type_code(b)),
        None => JsonData::Null,
    }
}

pub(crate) fn opt_blood_value(v: Option<BloodType>) -> (r: JsonValue)
    ensures
        json_view(r) == opt_blood_to_json(v),
{
    match v {
        Some(b) => match b {
            BloodType::A => JsonValue::Int(1),
            BloodType::B => JsonValue::Int(2),
            BloodType::AB => JsonValue::Int(3),
            BloodType::O => JsonValue::Int(4),
        },
        None => JsonValue::Null,
    }
}

/// An optional counter as a JSON member value: null when absent.
pub open spec fn opt_u32_field_to_json(v: Option<u32>) -> JsonData {
    match v {
        Some(n) => JsonData::Int(n as i64),
        None => JsonData::Null,
    }
}

pub(crate) fn opt_u32_field_value(v: Option<u32>) -> (r: JsonValue)
    ensures
        json_view(r) == opt_u32_field_to_json(v),
{
    match v {
        Some(n) => JsonValue::Int(n as i64),
        None => JsonValue::Null,
    }
}

/// A character, in full.
#[derive(Debug)]
pub struct Character {
    pub id: u32,
    pub name: String,
    pub kind: CharacterType,
    pub images: SimpleImage,
    pub summary: String,
    pub locked: bool,
    pub infobox: Vec<crate::model::InfoBoxItem>,
    pub gender: String,
    pub blood_type: Option<BloodType>,
    pub birth_year: Option<u32>,
    pub birth_mon: Option<u32>,
    pub birth_day: Option<u32>,
    pub stat: Stat,
    pub nsfw: bool,
}

/// The view of `Character`.
pub struct CharacterData {
    pub id: u32,
    pub name: Seq<char>,
    pub kind: CharacterType,
    pub images: SimpleImageData,
    pub summary: Seq<char>,
    pub locked: bool,
    pub infobox: Seq<crate::model::InfoBoxItemData>,
    pub gender: Seq<char>,
    pub blood_type: Option<BloodType>,
    pub birth_year: Option<u32>,
    pub birth_mon: Option<u32>,
    pub birth_day: Option<u32>,
    pub stat: Stat,
    pub nsfw: bool,
}

pub open spec fn character_view(x: Character) -> CharacterData {
    CharacterData {
        id: x.id,
        name: x.name@,
        kind: x.kind,
        images: simple_image_view(x.images),
        summary: x.summary@,
        locked: x.locked,
        infobox: list_view(x.infobox@),
        gender: x.gender@,
        blood_type: x.blood_type,
        birth_year: x.birth_year,
        birth_mon: x.birth_mon,
        birth_day: x.birth_day,
        stat: x.stat,
        nsfw: x.nsfw,
    }
}

pub open spec fn character_of_json(jd: JsonData) -> Option<CharacterData> {
    match (spec_field_u32(jd, "id"@), spec_field_str(jd, "name"@), spec_field_character_type(
        jd,
        "type"@,
    ), crate::json::spec_field_record::<SimpleImage>(jd, "images"@), spec_field_str(
        jd,
        "summary"@,
    ), spec_field_bool(jd, "locked"@), crate::json::spec_field_list::<crate::model::InfoBoxItem>(
        jd,
        "infobox"@,
    )) {
        (Some(id), Some(name), Some(kind), Some(images), Some(summary), Some(locked), Some(infobox))
            => match (
            spec_field_str(jd, "gender"@),
            spec_field_opt_blood(jd, "blood_type"@),
            spec_field_opt_u32(jd, "birth_year"@),
            spec_field_opt_u32(jd, "birth_mon"@),
            spec_field_opt_u32(jd, "birth_day"@),
            crate::json::spec_field_record::<Stat>(jd, "stat"@),
            spec_field_bool(jd, "nsfw"@),
        ) {
            (
                Some(gender),
                Some(blood_type),
                Some(birth_year),
                Some(birth_mon),
                Some(birth_day),
                Some(stat),
                Some(nsfw),
            ) => Some(
                CharacterData {
                    id,
                    name,
                    kind,
                    images,
                    summary,
                    locked,
                    infobox,
                    gender,
                    blood_type,
                    birth_year,
                    birth_mon,
                    birth_day,
                    stat,
                    nsfw,
                },
            ),
            _ => None,
        },
        _ => None,
    }
}

pub open spec fn character_to_json(d: CharacterData) -> JsonData {
    JsonData::Obj(
        seq![
            ("id"@, JsonData::Int(d.id as i64)),
            ("name"@, JsonData::Str(d.name)),
            ("type"@, JsonData::Int(character_type_code(d.kind))),
            ("images"@, simple_image_to_json(d.images)),
            ("summary"@, JsonData::Str(d.summary)),
            ("locked"@, JsonData::Bool(d.locked)),
            (
                "infobox"@,
                JsonData::Arr(
                    d.infobox.map_values(
                        |x: crate::model::InfoBoxItemData| crate::model::InfoBoxItem::to_json(x),
                    ),
                ),
            ),
            ("gender"@, JsonData::Str(d.gender)),
            ("blood_type"@, opt_blood_to_json(d.blood_type)),
            ("birth_year"@, opt_u32_field_to_json(d.birth_year)),
            ("birth_mon"@, opt_u32_field_to_json(d.birth_mon)),
            ("birth_day"@, opt_u32_field_to_json(d.birth_day)),
            ("stat"@, crate::model::stat_to_json(d.stat)),
            ("nsfw"@, JsonData::Bool(d.nsfw)),
        ],
    )
}

impl JsonCodec for Character {
    type Data = CharacterData;

    open spec fn of_json(jd: JsonData) -> Option<CharacterData> {
        character_of_json(jd)
    }

    open spec fn to_json(d: CharacterData) -> JsonData {
        character_to_json(d)
    }

    open spec fn view_data(self) -> CharacterData {
        character_view(self)
    }

    fn decode(v: &JsonValue) -> (r: Option<Self>) {
        let id = match field_u32(v, "id") {
            Some(x) => x,
            None => {
                return None;
            },
        };
        let name = match field_str(v, "name") {
            Some(x) => x,
            None => {
                return None;
            },
        };
        let kind = match field_character_type(v, "type") {
            Some(x) => x,
            None => {
                return None;
            },
        };
        let images = match crate::json::field_record::<SimpleImage>(v, "images") {
            Some(x) => x,
            None => {
                return None;
            },
        };
        let summary = match field_str(v, "summary") {
            Some(x) => x,
            None => {
                return None;
            },
        };
        let locked = match crate::json::field_bool(v, "locked") {
            Some(x) => x,
            None => {
                return None;
            },
        };
        let infobox = match crate::json::field_list::<crate::model::InfoBoxItem>(v, "infobox") {
            Some(x) => x,
            None => {
                return None;
            },
        };
        let gender = match field_str(v, "gender") {
            Some(x) => x,
            None => {
                return None;
            },
        };
        let blood_type = match field_opt_blood(v, "blood_type") {
            Some(x) => x,
            None => {
                return None;
            },
        };
        let birth_year = match field_opt_u32(v, "birth_year") {
            Some(x) => x,
            None => {
                return None;
            },
        };
        let birth_mon = match field_opt_u32(v, "birth_mon") {
            Some(x) => x,
            None => {
                return None;
            },
        };
        let birth_day = match field_opt_u32(v, "birth_day") {
            Some(x) => x,
            None => {
                return None;
            },
        };
        let stat = match crate::json::field_record::<Stat>(v, "stat") {
            Some(x) => x,
            None => {
                return None;
            },
        };
        let nsfw = match crate::json::field_bool(v, "nsfw") {
            Some(x) => x,
            None => {
                return None;
            },
        };
        Some(
            Character {
                id,
                name,
                kind,
                images,
                summary,
                locked,
                infobox,
                gender,
                blood_type,
                birth_year,
                birth_mon,
                birth_day,
                stat,
                nsfw,
            },
        )
    }

    fn encode(&self) -> (r: JsonValue) {
        let mut fields: Vec<(String, JsonValue)> = Vec::new();
        obj_field(&mut fields, "id", JsonValue::Int(self.id as i64));
        obj_field(&mut fields, "name", JsonValue::Str(self.name.clone()));
        obj_field(&mut fields, "type", JsonValue::Int(character_type_code_exec(self.kind)));
        obj_field(&mut fields, "images", self.images.encode());
        obj_field(&mut fields, "summary", JsonValue::Str(self.summary.clone()));
        obj_field(&mut fields, "locked", JsonValue::Bool(self.locked));
        obj_field(
            &mut fields,
            "infobox",
            JsonValue::Arr(crate::json::encode_list::<crate::model::InfoBoxItem>(&self.infobox)),
        );
        obj_field(&mut fields, "gender", JsonValue::Str(self.gender.clone()));
        obj_field(&mut fields, "blood_type", opt_blood_value(self.blood_type));
        obj_field(&mut fields, "birth_year", opt_u32_field_value(self.birth_year));
        obj_field(&mut fields, "birth_mon", opt_u32_field_value(self.birth_mon));
        obj_field(&mut fields, "birth_day", opt_u32_field_value(self.birth_day));
        obj_field(&mut fields, "stat", crate::model::encode_stat(&self.stat));
        obj_field(&mut fields, "nsfw", JsonValue::Bool(self.nsfw));
        proof {
            assert(fields_json_view(fields@) =~= character_to_json(character_view(*self))->Obj_0);
        }
        JsonValue::Obj(fields)
    }

    proof fn round_trip(d: CharacterData) {
        let fs = character_to_json(d)->Obj_0;
        reveal_strlit("id");
        reveal_strlit("name");
        reveal_strlit("type");
        reveal_strlit("images");
        reveal_strlit("summary");
        reveal_strlit("locked");
        reveal_strlit("infobox");
        reveal_strlit("gender");
        reveal_strlit("blood_type");
        reveal_strlit("birth_year");
        reveal_strlit("birth_mon");
        reveal_strlit("birth_day");
        reveal_strlit("stat");
        reveal_strlit("nsfw");
        assert("id"@.len() == 2);
        assert("name"@.len() == 4 && "name"@[0] == 'n');
        assert("type"@.len() == 4 && "type"@[0] == 't');
        assert("images"@.len() == 6 && "images"@[0] == 'i');
        assert("summary"@.len() == 7 && "summary"@[0] == 's');
        assert("locked"@.len() == 6 && "locked"@[0] == 'l');
        assert("infobox"@.len() == 7 && "infobox"@[0] == 'i');
        assert("gender"@.len() == 6 && "gender"@[0] == 'g');
        assert("blood_type"@.len() == 10 && "blood_type"@[0] == 'b');
        assert("birth_year"@.len() == 10 && "birth_year"@[0] == 'b' && "birth_year"@[1] == 'i');
        assert("blood_type"@[1] == 'l');
        assert("birth_mon"@.len() == 9);
        assert("birth_day"@.len() == 9 && "birth_day"@[6] == 'd' && "birth_mon"@[6] == 'm');
        assert("stat"@.len() == 4 && "stat"@[0] == 's');
        assert("nsfw"@.len() == 4 && "nsfw"@[0] == 'n' && "nsfw"@[1] == 's' && "name"@[1] == 'a');
        assert("birth_year"@[6] == 'y');
        lemma_lookup_at(fs, "id"@, 0);
        lemma_lookup_at(fs, "name"@, 1);
        lemma_lookup_at(fs, "type"@, 2);
        lemma_lookup_at(fs, "images"@, 3);
        lemma_lookup_at(fs, "summary"@, 4);
        lemma_lookup_at(fs, "locked"@, 5);
        lemma_lookup_at(fs, "infobox"@, 6);
        lemma_lookup_at(fs, "gender"@, 7);
        lemma_lookup_at(fs, "blood_type"@, 8);
        lemma_lookup_at(fs, "birth_year"@, 9);
        lemma_lookup_at(fs, "birth_mon"@, 10);
        lemma_lookup_at(fs, "birth_day"@, 11);
        lemma_lookup_at(fs, "stat"@, 12);
        lemma_lookup_at(fs, "nsfw"@, 13);
        lemma_character_type_round_trip(d.kind);
        crate::model::SimpleImage::round_trip(d.images);
        crate::json::lemma_list_round_trip::<crate::model::InfoBoxItem>(d.infobox);
        crate::model::lemma_stat_round_trip(d.stat);
    }
}

/// What a character search asks for.
#[derive(Debug)]
pub struct CharacterSearch {
    pub keyword: String,
    pub filter: Option<CharacterFilter>,
}

/// How a character search narrows its results.
#[derive(Debug, Clone, Copy, PartialEq, Eq, Structural)]
pub struct CharacterFilter {
    pub nsfw: Option<bool>,
}

/// The body a character filter is sent as: the flag only when supplied.
pub open spec fn character_filter_to_json(f: CharacterFilter) -> JsonData {
    JsonData::Obj(
        match f.nsfw {
            Some(b) => seq![("nsfw"@, JsonData::Bool(b))],
            None => Seq::<(Seq<char>, JsonData)>::empty(),
        },
    )
}

pub fn encode_character_filter(f: &CharacterFilter) -> (r: JsonValue)
    ensures
        json_view(r) == character_filter_to_json(*f),
{
    let mut fields: Vec<(String, JsonValue)> = Vec::new();
    if let Some(b) = f.nsfw {
        obj_field(&mut fields, "nsfw", JsonValue::Bool(b));
    }
    proof {
        assert(fields_json_view(fields@) =~= character_filter_to_json(*f)->Obj_0);
    }
    JsonValue::Obj(fields)
}

/// The body a character search is sent as.
pub open spec fn character_search_to_json(p: CharacterSearch) -> JsonData {
    JsonData::Obj(
        seq![("keyword"@, JsonData::Str(p.keyword@))] + (match p.filter {
            Some(f) => seq![("filter"@, character_filter_to_json(f))],
            None => Seq::<(Seq<char>, JsonData)>::empty(),
        }),
    )
}

pub fn encode_character_search(p: &CharacterSearch) -> (r: JsonValue)
    ensures
        json_view(r) == character_search_to_json(*p),
{
    let mut fields: Vec<(String, JsonValue)> = Vec::new();
    obj_field(&mut fields, "keyword", JsonValue::Str(p.keyword.clone()));
    if let Some(f) = &p.filter {
        obj_field(&mut fields, "filter", encode_character_filter(f));
    }
    proof {
        assert(fields_json_view(fields@) =~= character_search_to_json(*p)->Obj_0);
    }
    JsonValue::Obj(fields)
}

/// The body an optional character search is sent as: null when absent.
pub open spec fn opt_character_search_to_json(p: Option<CharacterSearch>) -> JsonData {
    match p {
        Some(s) => character_search_to_json(s),
        None => JsonData::Null,
    }
}

/// A character together with the subject it appears in and the person
/// behind it.
#[derive(Debug)]
pub struct CharacterPerson {
    pub id: u32,
    pub name: String,
    pub kind: CharacterType,
    pub images: SimpleImage,
    pub subject_id: u32,
    pub subject_type: SubjectType,
    pub subject_name: String,
    pub subject_name_cn: String,
    pub staff: String,
}

/// The view of `CharacterPerson`.
pub struct CharacterPersonData {
    pub id: u32,
    pub name: Seq<char>,
    pub kind: CharacterType,
    pub images: SimpleImageData,
    pub subject_id: u32,
    pub subject_type: SubjectType,
    pub subject_name: Seq<char>,
    pub subject_name_cn: Seq<char>,
    pub staff: Seq<char>,
}

pub open spec fn character_person_view(x: CharacterPerson) -> CharacterPersonData {
    CharacterPersonData {
        id: x.id,
        name: x.name@,
        kind: x.kind,
        images: simple_image_view(x.images),
        subject_id: x.subject_id,
        subject_type: x.subject_type,
        subject_name: x.subject_name@,
        subject_name_cn: x.subject_name_cn@,
        staff: x.staff@,
    }
}

pub open spec fn character_person_of_json(jd: JsonData) -> Option<CharacterPersonData> {
    match (spec_field_u32(jd, "id"@), spec_field_str(jd, "name"@), spec_field_character_type(
        jd,
        "type"@,
    ), crate::json::spec_field_record::<SimpleImage>(jd, "images"@), spec_field_u32(
        jd,
        "subject_id"@,
    ), spec_field_subject_type(jd, "subject_type"@), spec_field_str(jd, "subject_name"@),
    spec_field_str(jd, "subject_name_cn"@), spec_field_str(jd, "staff"@)) {
        (
            Some(id),
            Some(name),
            Some(kind),
            Some(images),
            Some(subject_id),
            Some(subject_type),
            Some(subject_name),
            Some(subject_name_cn),
            Some(staff),
        ) => Some(
            CharacterPersonData {
                id,
                name,
                kind,
                images,
                subject_id,
                subject_type,
                subject_name,
                subject_name_cn,
                staff,
            },
        ),
        _ => None,
    }
}

pub open spec fn character_person_to_json(d: CharacterPersonData) -> JsonData {
    JsonData::Obj(
        seq![
            ("id"@, JsonData::Int(d.id as i64)),
            ("name"@, JsonData::Str(d.name)),
            ("type"@, JsonData::Int(character_type_code(d.kind))),
            ("images"@, simple_image_to_json(d.images)),
            ("subject_id"@, JsonData::Int(d.subject_id as i64)),
            ("subject_type"@, JsonData::Int(subject_type_code(d.subject_type))),
            ("subject_name"@, JsonData::Str(d.subject_name)),
            ("subject_name_cn"@, JsonData::Str(d.subject_name_cn)),
            ("staff"@, JsonData::Str(d.staff)),
        ],
    )
}

impl JsonCodec for CharacterPerson {
    type Data = CharacterPersonData;

    open spec fn of_json(jd: JsonData) -> Option<CharacterPersonData> {
        character_person_of_json(jd)
    }

    open spec fn to_json(d: CharacterPersonData) -> JsonData {
        character_person_to_json(d)
    }

    open spec fn view_data(self) -> CharacterPersonData {
        character_person_view(self)
    }

    fn decode(v: &JsonValue) -> (r: Option<Self>) {
        let id = match field_u32(v, "id") {
            Some(x) => x,
            None => {
                return None;
            },
        };
        let name = match field_str(v, "name") {
            Some(x) => x,
            None => {
                return None;
            },
        };
        let kind = match field_character_type(v, "type") {
            Some(x) => x,
            None => {
                return None;
            },
        };
        let images = match crate::json::field_record::<SimpleImage>(v, "images") {
            Some(x) => x,
            None => {
                return None;
            },
        };
        let subject_id = match field_u32(v, "subject_id") {
            Some(x) => x,
            None => {
                return None;
            },
        };
        let subject_type = match crate::subject::field_subject_type(v, "subject_type") {
            Some(x) => x,
            None => {
                return None;
            },
        };
        let subject_name = match field_str(v, "subject_name") {
            Some(x) => x,
            None => {
                return None;
            },
        };
        let subject_name_cn = match field_str(v, "subject_name_cn") {
            Some(x) => x,
            None => {
                return None;
            },
        };
        let staff = match field_str(v, "staff") {
            Some(x) => x,
            None => {
                return None;
            },
        };
        Some(
            CharacterPerson {
                id,
                name,
                kind,
                images,
                subject_id,
                subject_type,
                subject_name,
                subject_name_cn,
                staff,
            },
        )
    }

    fn encode(&self) -> (r: JsonValue) {
        let mut fields: Vec<(String, JsonValue)> = Vec::new();
        obj_field(&mut fields, "id", JsonValue::Int(self.id as i64));
        obj_field(&mut fields, "name", JsonValue::Str(self.name.clone()));
        obj_field(&mut fields, "type", JsonValue::Int(character_type_code_exec(self.kind)));
        obj_field(&mut fields, "images", self.images.encode());
        obj_field(&mut fields, "subject_id", JsonValue::Int(self.subject_id as i64));
        obj_field(
            &mut fields,
            "subject_type",
            JsonValue::Int(subject_type_code_exec(self.subject_type) as i64),
        );
        obj_field(&mut fields, "subject_name", JsonValue::Str(self.subject_name.clone()));
        obj_field(&mut fields, "subject_name_cn", JsonValue::Str(self.subject_name_cn.clone()));
        obj_field(&mut fields, "staff", JsonValue::Str(self.staff.clone()));
        proof {
            assert(fields_json_view(fields@) =~= character_person_to_json(
                character_person_view(*self),
            )->Obj_0);
        }
        JsonValue::Obj(fields)
    }

    proof fn round_trip(d: CharacterPersonData) {
        let fs = character_person_to_json(d)->Obj_0;
        reveal_strlit("id");
        reveal_strlit("name");
        reveal_strlit("type");
        reveal_strlit("images");
        reveal_strlit("subject_id");
        reveal_strlit("subject_type");
        reveal_strlit("subject_name");
        reveal_strlit("subject_name_cn");
        reveal_strlit("staff");
        assert("id"@.len() == 2);
        assert("name"@.len() == 4 && "name"@[0] == 'n');
        assert("type"@.len() == 4 && "type"@[0] == 't');
        assert("images"@.len() == 6);
        assert("subject_id"@.len() == 10);
        assert("subject_type"@.len() == 12 && "subject_type"@[8] == 't');
        assert("subject_name"@.len() == 12 && "subject_name"@[8] == 'n');
        assert("subject_name_cn"@.len() == 15);
        assert("staff"@.len() == 5);
        lemma_lookup_at(fs, "id"@, 0);
        lemma_lookup_at(fs, "name"@, 1);
        lemma_lookup_at(fs, "type"@, 2);
        lemma_lookup_at(fs, "images"@, 3);
        lemma_lookup_at(fs, "subject_id"@, 4);
        lemma_lookup_at(fs, "subject_type"@, 5);
        lemma_lookup_at(fs, "subject_name"@, 6);
        lemma_lookup_at(fs, "subject_name_cn"@, 7);
        lemma_lookup_at(fs, "staff"@, 8);
        lemma_character_type_round_trip(d.kind);
        crate::model::SimpleImage::round_trip(d.images);
        crate::subject::lemma_subject_type_round_trip(d.subject_type);
    }
}

/// A subject a character appears in.
#[derive(Debug)]
pub struct CharacterSubject {
    pub id: u32,
    pub kind: SubjectType,
    pub staff: String,
    pub name: String,
    pub name_cn: String,
    pub image: String,
}

/// The view of `CharacterSubject`.
pub struct CharacterSubjectData {
    pub id: u32,
    pub kind: SubjectType,
    pub staff: Seq<char>,
    pub name: Seq<char>,
    pub name_cn: Seq<char>,
    pub image: Seq<char>,
}

pub open spec fn character_subject_view(x: CharacterSubject) -> CharacterSubjectData {
    CharacterSubjectData {
        id: x.id,
        kind: x.kind,
        staff: x.staff@,
        name: x.name@,
        name_cn: x.name_cn@,
        image: x.image@,
    }
}

pub open spec fn character_subject_of_json(jd: JsonData) -> Option<CharacterSubjectData> {
    match (spec_field_u32(jd, "id"@), spec_field_subject_type(jd, "type"@), spec_field_str(
        jd,
        "staff"@,
    ), spec_field_str(jd, "name"@), spec_field_str(jd, "name_cn"@), spec_field_str(jd, "image"@)) {
        (Some(id), Some(kind), Some(staff), Some(name), Some(name_cn), Some(image)) => Some(
            CharacterSubjectData { id, kind, staff, name, name_cn, image },
        ),
        _ => None,
    }
}

pub open spec fn character_subject_to_json(d: CharacterSubjectData) -> JsonData {
    JsonData::Obj(
        seq![
            ("id"@, JsonData::Int(d.id as i64)),
            ("type"@, JsonData::Int(subject_type_code(d.kind))),
            ("staff"@, JsonData::Str(d.staff)),
            ("name"@, JsonData::Str(d.name)),
            ("name_cn"@, JsonData::Str(d.name_cn)),
            ("image"@, JsonData::Str(d.image)),
        ],
    )
}

impl JsonCodec for CharacterSubject {
    type Data = CharacterSubjectData;

    open spec fn of_json(jd: JsonData) -> Option<CharacterSubjectData> {
        character_subject_of_json(jd)
    }

    open spec fn to_json(d: CharacterSubjectData) -> JsonData {
        character_subject_to_json(d)
    }

    open spec fn view_data(self) -> CharacterSubjectData {
        character_subject_view(self)
    }

    fn decode(v: &JsonValue) -> (r: Option<Self>) {
        let id = match field_u32(v, "id") {
            Some(x) => x,
            None => {
                return None;
            },
        };
        let kind = match crate::subject::field_subject_type(v, "type") {
            Some(x) => x,
            None => {
                return None;
            },
        };
        let staff = match field_str(v, "staff") {
            Some(x) => x,
            None => {
                return None;
            },
        };
        let name = match field_str(v, "name") {
            Some(x) => x,
            None => {
                return None;
            },
        };
        let name_cn = match field_str(v, "name_cn") {
            Some(x) => x,
            None => {
                return None;
            },
        };
        let image = match field_str(v, "image") {
            Some(x) => x,
            None => {
                return None;
            },
        };
        Some(CharacterSubject { id, kind, staff, name, name_cn, image })
    }

    fn encode(&self) -> (r: JsonValue) {
        let mut fields: Vec<(String, JsonValue)> = Vec::new();
        obj_field(&mut fields, "id", JsonValue::Int(self.id as i64));
        obj_field(&mut fields, "type", JsonValue::Int(subject_type_code_exec(self.kind) as i64));
        obj_field(&mut fields, "staff", JsonValue::Str(self.staff.clone()));
        obj_field(&mut fields, "name", JsonValue::Str(self.name.clone()));
        obj_field(&mut fields, "name_cn", JsonValue::Str(self.name_cn.clone()));
        obj_field(&mut fields, "image", JsonValue::Str(self.image.clone()));
        proof {
            assert(fields_json_view(fields@) =~= character_subject_to_json(
                character_subject_view(*self),
            )->Obj_0);
        }
        JsonValue::Obj(fields)
    }

    proof fn round_trip(d: CharacterSubjectData) {
        let fs = character_subject_to_json(d)->Obj_0;
        reveal_strlit("id");
        reveal_strlit("type");
        reveal_strlit("staff");
        reveal_strlit("name");
        reveal_strlit("name_cn");
        reveal_strlit("image");
        assert("id"@.len() == 2);
        assert("type"@.len() == 4 && "type"@[0] == 't');
        assert("staff"@.len() == 5 && "staff"@[0] == 's');
        assert("name"@.len() == 4 && "name"@[0] == 'n');
        assert("name_cn"@.len() == 7);
        assert("image"@.len() == 5 && "image"@[0] == 'i');
        lemma_lookup_at(fs, "id"@, 0);
        lemma_lookup_at(fs, "type"@, 1);
        lemma_lookup_at(fs, "staff"@, 2);
        lemma_lookup_at(fs, "name"@, 3);
        lemma_lookup_at(fs, "name_cn"@, 4);
        lemma_lookup_at(fs, "image"@, 5);
        crate::subject::lemma_subject_type_round_trip(d.kind);
    }
}

impl BangumiClient {
    /// The request that searches characters: optional paging in the query,
    /// the search payload as the body.
    pub fn search_characters_request(
        &self,
        limit: Option<u32>,
        offset: Option<u32>,
        payload: Option<CharacterSearch>,
    ) -> (r: HttpRequest)
        ensures
            r.method == HttpMethod::Post,
            r.url@ == self.base_path@ + "/v0/search/characters"@,
            pairs_view(r.query@) == opt_pair(
                "limit"@,
                match limit {
                    Some(n) => Some(dec_digits(n as nat)),
                    None => None,
                },
            ) + opt_pair(
                "offset"@,
                match offset {
                    Some(n) => Some(dec_digits(n as nat)),
                    None => None,
                },
            ),
            pairs_view(r.headers@) == spec_headers(*self),
            r.body matches Some(b) && json_view(b) == opt_character_search_to_json(payload),
    {
        let url = self.base_path.clone().concat("/v0/search/characters");
        let mut r = self.request_builder(HttpMethod::Post, url.as_str());
        if let Some(n) = limit {
            query_push(&mut r.query, "limit", u32_string(n));
        }
        if let Some(n) = offset {
            query_push(&mut r.query, "offset", u32_string(n));
        }
        r.body = Some(
            match &payload {
                Some(p) => encode_character_search(p),
                None => JsonValue::Null,
            },
        );
        proof {
            assert(pairs_view(r.query@) =~= opt_pair(
                "limit"@,
                match limit {
                    Some(n) => Some(dec_digits(n as nat)),
                    None => None,
                },
            ) + opt_pair(
                "offset"@,
                match offset {
                    Some(n) => Some(dec_digits(n as nat)),
                    None => None,
                },
            ));
        }
        r
    }

    /// The request for one character by its id.
    pub fn get_character_request(&self, character_id: u32) -> (r: HttpRequest)
        ensures
            r.method == HttpMethod::Get,
            r.url@ == self.base_path@ + "/v0/characters/"@ + dec_digits(character_id as nat),
            pairs_view(r.query@) == Seq::<(Seq<char>, Seq<char>)>::empty(),
            pairs_view(r.headers@) == spec_headers(*self),
            r.body is None,
    {
        let url = self.base_path.clone().concat("/v0/characters/").concat(
            u32_string(character_id).as_str(),
        );
        self.request_builder(HttpMethod::Get, url.as_str())
    }

    /// The request for a character's image in one of its sizes.
    pub fn get_character_image_request(&self, character_id: u32, kind: SimpleImageType) -> (r:
        HttpRequest)
        ensures
            r.method == HttpMethod::Get,
            r.url@ == self.base_path@ + "/v0/characters/"@ + dec_digits(character_id as nat)
                + "/image"@,
            pairs_view(r.query@) == seq![("type"@, crate::model::simple_image_type_word(kind))],
            pairs_view(r.headers@) == spec_headers(*self),
            r.body is None,
    {
        let url = self.base_path.clone().concat("/v0/characters/").concat(
            u32_string(character_id).as_str(),
        ).concat("/image");
        let mut r = self.request_builder(HttpMethod::Get, url.as_str());
        query_push(&mut r.query, "type", crate::model::simple_image_type_string(kind));
        proof {
            assert(pairs_view(r.query@) =~= seq![
                ("type"@, crate::model::simple_image_type_word(kind)),
            ]);
        }
        r
    }

    /// The request for the subjects a character appears in.
    pub fn get_character_subjects_request(&self, character_id: u32) -> (r: HttpRequest)
        ensures
            r.method == HttpMethod::Get,
            r.url@ == self.base_path@ + "/v0/characters/"@ + dec_digits(character_id as nat)
                + "/subjects"@,
            pairs_view(r.query@) == Seq::<(Seq<char>, Seq<char>)>::empty(),
            pairs_view(r.headers@) == spec_headers(*self),
            r.body is None,
    {
        let url = self.base_path.clone().concat("/v0/characters/").concat(
            u32_string(character_id).as_str(),
        ).concat("/subjects");
        self.request_builder(HttpMethod::Get, url.as_str())
    }

    /// The request for the persons behind a character.
    pub fn get_character_persons_request(&self, character_id: u32) -> (r: HttpRequest)
        ensures
            r.method == HttpMethod::Get,
            r.url@ == self.base_path@ + "/v0/characters/"@ + dec_digits(character_id as nat)
                + "/persons"@,
            pairs_view(r.query@) == Seq::<(Seq<char>, Seq<char>)>::empty(),
            pairs_view(r.headers@) == spec_headers(*self),
            r.body is None,
    {
        let url = self.base_path.clone().concat("/v0/characters/").concat(
            u32_string(character_id).as_str(),
        ).concat("/persons");
        self.request_builder(HttpMethod::Get, url.as_str())
    }

    /// The request that puts a character on the caller's collection.
    pub fn collect_character_request(&self, character_id: u32) -> (r: HttpRequest)
        ensures
            r.method == HttpMethod::Post,
            r.url@ == self.base_path@ + "/v0/characters/"@ + dec_digits(character_id as nat)
                + "/collect"@,
            pairs_view(r.query@) == Seq::<(Seq<char>, Seq<char>)>::empty(),
            pairs_view(r.headers@) == spec_headers(*self),
            r.body is None,
    {
        let url = self.base_path.clone().concat("/v0/characters/").concat(
            u32_string(character_id).as_str(),
        ).concat("/collect");
        self.request_builder(HttpMethod::Post, url.as_str())
    }

    /// The request that takes a character off the caller's collection.
    pub fn uncollect_character_request(&self, character_id: u32) -> (r: HttpRequest)
        ensures
            r.method == HttpMethod::Delete,
            r.url@ == self.base_path@ + "/v0/characters/"@ + dec_digits(character_id as nat)
                + "/collect"@,
            pairs_view(r.query@) == Seq::<(Seq<char>, Seq<char>)>::empty(),
            pairs_view(r.headers@) == spec_headers(*self),
            r.body is None,
    {
        let url = self.base_path.clone().concat("/v0/characters/").concat(
            u32_string(character_id).as_str(),
        ).concat("/collect");
        self.request_builder(HttpMethod::Delete, url.as_str())
    }
}

} // verus!
