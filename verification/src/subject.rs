use crate::client::{opt_pair, pairs_view, query_push, spec_headers, BangumiClient, HttpMethod, HttpRequest};
use crate::json::{
    data_field, field_numtext, field_opt_str, field_str, field_u32, fields_json_view, get_field,
    json_view, list_view, obj_field, seq_json_view, spec_field_bool, spec_field_numtext,
    spec_field_opt_str, spec_field_str, spec_field_u32, strs_view, JsonCodec, JsonData,
    JsonValue,
};
use crate::model::{
    collection_stats_to_json, encode_collection_stats, encode_image, image_to_json, image_view,
    lemma_collection_stats_round_trip, lemma_image_round_trip, lemma_lookup_at, CollectionStats,
    Image, ImageData, InfoBoxItem, InfoBoxItemData,
};
use crate::text::{dec_digits, u32_string};
use vstd::prelude::*;
use vstd::string::StringExecFns;

verus! {

/// The kind of a catalog subject.
#[derive(Debug, Clone, Copy, PartialEq, Eq, Structural)]
pub enum SubjectType {
    Book,
    Anime,
    Music,
    Game,
    Real,
}

/// The numeric code of a subject kind on the wire.
pub open spec fn subject_type_code(t: SubjectType) -> i64 {
    match t {
        SubjectType::Book => 1,
        SubjectType::Anime => 2,
        SubjectType::Music => 3,
        SubjectType::Game => 4,
        SubjectType::Real => 6,
    }
}

pub open spec fn subject_type_of_code(i: i64) -> Option<SubjectType> {
    if i == 1 {
        Some(SubjectType::Book)
    } else if i == 2 {
        Some(SubjectType::Anime)
    } else if i == 3 {
        Some(SubjectType::Music)
    } else if i == 4 {
        Some(SubjectType::Game)
    } else if i == 6 {
        Some(SubjectType::Real)
    } else {
        None
    }
}

pub fn subject_type_from_code(i: i64) -> (r: Option<SubjectType>)
    ensures
        r == subject_type_of_code(i),
{
    if i == 1 {
        Some(SubjectType::Book)
    } else if i == 2 {
        Some(SubjectType::Anime)
    } else if i == 3 {
        Some(SubjectType::Music)
    } else if i == 4 {
        Some(SubjectType::Game)
    } else if i == 6 {
        Some(SubjectType::Real)
    } else {
        None
    }
}

/// The numeric code of a subject kind, as executable data.
pub fn subject_type_code_exec(t: SubjectType) -> (r: u32)
    ensures
        r as i64 == subject_type_code(t),
{
    match t {
        SubjectType::Book => 1,
        SubjectType::Anime => 2,
        SubjectType::Music => 3,
        SubjectType::Game => 4,
        SubjectType::Real => 6,
    }
}

/// Every subject-kind code decodes back to the kind it encodes.
pub proof fn lemma_subject_type_round_trip(t: SubjectType)
    ensures
        subject_type_of_code(subject_type_code(t)) == Some(t),
{
}

/// The kind-of-subject member of a record.
pub open spec fn spec_field_subject_type(jd: JsonData, key: Seq<char>) -> Option<SubjectType> {
    match data_field(jd, key) {
        Some(JsonData::Int(i)) => subject_type_of_code(i),
        _ => None,
    }
}

pub fn field_subject_type(v: &JsonValue, key: &str) -> (r: Option<SubjectType>)
    ensures
        r == spec_field_subject_type(json_view(*v), key@),
{
    match get_field(v, key) {
        Some(x) => match x {
            JsonValue::Int(i) => subject_type_from_code(*i),
            _ => None,
        },
        None => None,
    }
}

/// The finer category a book subject can be browsed by.
#[derive(Debug, Clone, Copy, PartialEq, Eq, Structural)]
pub enum SubjectBookCategory {
    Other,
    Comic,
    Novel,
    Artbook,
}

/// The finer category an anime subject can be browsed by.
#[derive(Debug, Clone, Copy, PartialEq, Eq, Structural)]
pub enum SubjectAnimeCategory {
    Other,
    Tv,
    Ova,
    Movie,
    Web,
}

/// The finer category a game subject can be browsed by.
#[derive(Debug, Clone, Copy, PartialEq, Eq, Structural)]
pub enum SubjectGameCategory {
    Other,
    Game,
    Software,
    Expansion,
    BoardGame,
}

/// The finer category a live-action subject can be browsed by.
#[derive(Debug, Clone, Copy, PartialEq, Eq, Structural)]
pub enum SubjectRealCategory {
    Other,
    JapaneseDrama,
    EuroAmericanDrama,
    ChineseDrama,
    TvDrama,
    Movie,
    Performance,
    VarietyShow,
}

/// The finer category of a subject, one family per subject kind.
#[derive(Debug, Clone, Copy, PartialEq, Eq, Structural)]
pub enum SubjectCategory {
    Book(SubjectBookCategory),
    Anime(SubjectAnimeCategory),
    Game(SubjectGameCategory),
    Real(SubjectRealCategory),
}

/// The numeric code of a finer category on the wire.
pub open spec fn subject_category_code(c: SubjectCategory) -> u32 {
    match c {
        SubjectCategory::Book(b) => match b {
            SubjectBookCategory::Other => 0,
            SubjectBookCategory::Comic => 1001,
            SubjectBookCategory::Novel => 1002,
            SubjectBookCategory::Artbook => 1003,
        },
        SubjectCategory::Anime(a) => match a {
            SubjectAnimeCategory::Other => 0,
            SubjectAnimeCategory::Tv => 1,
            SubjectAnimeCategory::Ova => 2,
            SubjectAnimeCategory::Movie => 3,
            SubjectAnimeCategory::Web => 5,
        },
        SubjectCategory::Game(g) => match g {
            SubjectGameCategory::Other => 0,
            SubjectGameCategory::Game => 4001,
            SubjectGameCategory::Software => 4002,
            SubjectGameCategory::Expansion => 4003,
            SubjectGameCategory::BoardGame => 4005,
        },
        SubjectCategory::Real(r) => match r {
            SubjectRealCategory::Other => 0,
            SubjectRealCategory::JapaneseDrama => 1,
            SubjectRealCategory::EuroAmericanDrama => 2,
            SubjectRealCategory::ChineseDrama => 3,
            SubjectRealCategory::TvDrama => 6001,
            SubjectRealCategory::Movie => 6002,
            SubjectRealCategory::Performance => 6003,
            SubjectRealCategory::VarietyShow => 6004,
        },
    }
}

pub fn subject_category_code_exec(c: SubjectCategory) -> (r: u32)
    ensures
        r == subject_category_code(c),
{
    match c {
        SubjectCategory::Book(b) => match b {
            SubjectBookCategory::Other => 0,
            SubjectBookCategory::Comic => 1001,
            SubjectBookCategory::Novel => 1002,
            SubjectBookCategory::Artbook => 1003,
        },
        SubjectCategory::Anime(a) => match a {
            SubjectAnimeCategory::Other => 0,
            SubjectAnimeCategory::Tv => 1,
            SubjectAnimeCategory::Ova => 2,
            SubjectAnimeCategory::Movie => 3,
            SubjectAnimeCategory::Web => 5,
        },
        SubjectCategory::Game(g) => match g {
            SubjectGameCategory::Other => 0,
            SubjectGameCategory::Game => 4001,
            SubjectGameCategory::Software => 4002,
            SubjectGameCategory::Expansion => 4003,
            SubjectGameCategory::BoardGame => 4005,
        },
        SubjectCategory::Real(r) => match r {
            SubjectRealCategory::Other => 0,
            SubjectRealCategory::JapaneseDrama => 1,
            SubjectRealCategory::EuroAmericanDrama => 2,
            SubjectRealCategory::ChineseDrama => 3,
            SubjectRealCategory::TvDrama => 6001,
            SubjectRealCategory::Movie => 6002,
            SubjectRealCategory::Performance => 6003,
            SubjectRealCategory::VarietyShow => 6004,
        },
    }
}

/// How a subject search orders its results.
#[derive(Debug, Clone, Copy, PartialEq, Eq, Structural)]
pub enum SubjectSearchSort {
    Match,
    Heat,
    Rank,
    Score,
}

/// The word a subject search order is written as.
pub open spec fn subject_search_sort_word(t: SubjectSearchSort) -> Seq<char> {
    match t {
        SubjectSearchSort::Match => "match"@,
        SubjectSearchSort::Heat => "heat"@,
        SubjectSearchSort::Rank => "rank"@,
        SubjectSearchSort::Score => "score"@,
    }
}

pub fn subject_search_sort_string(t: SubjectSearchSort) -> (s: String)
    ensures
        s@ == subject_search_sort_word(t),
{
    match t {
        SubjectSearchSort::Match => "match".to_owned(),
        SubjectSearchSort::Heat => "heat".to_owned(),
        SubjectSearchSort::Rank => "rank".to_owned(),
        SubjectSearchSort::Score => "score".to_owned(),
    }
}

/// How a subject browse listing orders its results.
#[derive(Debug, Clone, Copy, PartialEq, Eq, Structural)]
pub enum SubjectBrowseSort {
    Date,
    Rank,
}

/// The word a browse order is written as.
pub open spec fn subject_browse_sort_word(t: SubjectBrowseSort) -> Seq<char> {
    match t {
        SubjectBrowseSort::Date => "date"@,
        SubjectBrowseSort::Rank => "rank"@,
    }
}

pub fn subject_browse_sort_string(t: SubjectBrowseSort) -> (s: String)
    ensures
        s@ == subject_browse_sort_word(t),
{
    match t {
        SubjectBrowseSort::Date => "date".to_owned(),
        SubjectBrowseSort::Rank => "rank".to_owned(),
    }
}

/// A user tag on a subject, with its counters.
#[derive(Debug)]
pub struct SubjectTag {
    pub name: String,
    pub count: u32,
    pub total_cont: u32,
}

/// The view of `SubjectTag`.
pub struct SubjectTagData {
    pub name: Seq<char>,
    pub count: u32,
    pub total_cont: u32,
}

pub open spec fn subject_tag_view(t: SubjectTag) -> SubjectTagData {
    SubjectTagData { name: t.name@, count: t.count, total_cont: t.total_cont }
}

pub open spec fn subject_tag_of_json(jd: JsonData) -> Option<SubjectTagData> {
    match (spec_field_str(jd, "name"@), spec_field_u32(jd, "count"@), spec_field_u32(
        jd,
        "total_cont"@,
    )) {
        (Some(n), Some(c), Some(t)) => Some(SubjectTagData { name: n, count: c, total_cont: t }),
        _ => None,
    }
}

pub open spec fn subject_tag_to_json(d: SubjectTagData) -> JsonData {
    JsonData::Obj(
        seq![
            ("name"@, JsonData::Str(d.name)),
            ("count"@, JsonData::Int(d.count as i64)),
            ("total_cont"@, JsonData::Int(d.total_cont as i64)),
        ],
    )
}

impl JsonCodec for SubjectTag {
    type Data = SubjectTagData;

    open spec fn of_json(jd: JsonData) -> Option<SubjectTagData> {
        subject_tag_of_json(jd)
    }

    open spec fn to_json(d: SubjectTagData) -> JsonData {
        subject_tag_to_json(d)
    }

    open spec fn view_data(self) -> SubjectTagData {
        subject_tag_view(self)
    }

    fn decode(v: &JsonValue) -> (r: Option<Self>) {
        let name = match field_str(v, "name") {
            Some(x) => x,
            None => {
                return None;
            },
        };
        let count = match field_u32(v, "count") {
            Some(x) => x,
            None => {
                return None;
            },
        };
        let total_cont = match field_u32(v, "total_cont") {
            Some(x) => x,
            None => {
                return None;
            },
        };
        Some(SubjectTag { name, count, total_cont })
    }

    fn encode(&self) -> (r: JsonValue) {
        let mut fields: Vec<(String, JsonValue)> = Vec::new();
        obj_field(&mut fields, "name", JsonValue::Str(self.name.clone()));
        obj_field(&mut fields, "count", JsonValue::Int(self.count as i64));
        obj_field(&mut fields, "total_cont", JsonValue::Int(self.total_cont as i64));
        proof {
            assert(fields_json_view(fields@) =~= subject_tag_to_json(subject_tag_view(*self))
                ->Obj_0);
        }
        JsonValue::Obj(fields)
    }

    proof fn round_trip(d: SubjectTagData) {
        let fs = subject_tag_to_json(d)->Obj_0;
        reveal_strlit("name");
        reveal_strlit("count");
        reveal_strlit("total_cont");
        assert("name"@.len() == 4 && "name"@[0] == 'n');
        assert("count"@.len() == 5 && "count"@[0] == 'c');
        assert("total_cont"@.len() == 10 && "total_cont"@[0] == 't');
        lemma_lookup_at(fs, "name"@, 0);
        lemma_lookup_at(fs, "count"@, 1);
        lemma_lookup_at(fs, "total_cont"@, 2);
    }
}

/// How many users voted each of the ten scores.
#[derive(Debug, Clone, Copy, PartialEq, Eq, Structural)]
pub struct RatingCount {
    pub param_1: u32,
    pub param_2: u32,
    pub param_3: u32,
    pub param_4: u32,
    pub param_5: u32,
    pub param_6: u32,
    pub param_7: u32,
    pub param_8: u32,
    pub param_9: u32,
    pub param_10: u32,
}

pub open spec fn rating_count_of_json(jd: JsonData) -> Option<RatingCount> {
    match (spec_field_u32(jd, "1"@), spec_field_u32(jd, "2"@), spec_field_u32(jd, "3"@),
    spec_field_u32(jd, "4"@), spec_field_u32(jd, "5"@), spec_field_u32(jd, "6"@), spec_field_u32(
        jd,
        "7"@,
    ), spec_field_u32(jd, "8"@), spec_field_u32(jd, "9"@), spec_field_u32(jd, "10"@)) {
        (
            Some(c1),
            Some(c2),
            Some(c3),
            Some(c4),
            Some(c5),
            Some(c6),
            Some(c7),
            Some(c8),
            Some(c9),
            Some(c10),
        ) => Some(
            RatingCount {
                param_1: c1,
                param_2: c2,
                param_3: c3,
                param_4: c4,
                param_5: c5,
                param_6: c6,
                param_7: c7,
                param_8: c8,
                param_9: c9,
                param_10: c10,
            },
        ),
        _ => None,
    }
}

pub open spec fn rating_count_to_json(d: RatingCount) -> JsonData {
    JsonData::Obj(
        seq![
            ("1"@, JsonData::Int(d.param_1 as i64)),
            ("2"@, JsonData::Int(d.param_2 as i64)),
            ("3"@, JsonData::Int(d.param_3 as i64)),
            ("4"@, JsonData::Int(d.param_4 as i64)),
            ("5"@, JsonData::Int(d.param_5 as i64)),
            ("6"@, JsonData::Int(d.param_6 as i64)),
            ("7"@, JsonData::Int(d.param_7 as i64)),
            ("8"@, JsonData::Int(d.param_8 as i64)),
            ("9"@, JsonData::Int(d.param_9 as i64)),
            ("10"@, JsonData::Int(d.param_10 as i64)),
        ],
    )
}

impl JsonCodec for RatingCount {
    type Data = RatingCount;

    open spec fn of_json(jd: JsonData) -> Option<RatingCount> {
        rating_count_of_json(jd)
    }

    open spec fn to_json(d: RatingCount) -> JsonData {
        rating_count_to_json(d)
    }

    open spec fn view_data(self) -> RatingCount {
        self
    }

    fn decode(v: &JsonValue) -> (r: Option<Self>) {
        let c1 = match field_u32(v, "1") {
            Some(x) => x,
            None => {
                return None;
            },
        };
        let c2 = match field_u32(v, "2") {
            Some(x) => x,
            None => {
                return None;
            },
        };
        let c3 = match field_u32(v, "3") {
            Some(x) => x,
            None => {
                return None;
            },
        };
        let c4 = match field_u32(v, "4") {
            Some(x) => x,
            None => {
                return None;
            },
        };
        let c5 = match field_u32(v, "5") {
            Some(x) => x,
            None => {
                return None;
            },
        };
        let c6 = match field_u32(v, "6") {
            Some(x) => x,
            None => {
                return None;
            },
        };
        let c7 = match field_u32(v, "7") {
            Some(x) => x,
            None => {
                return None;
            },
        };
        let c8 = match field_u32(v, "8") {
            Some(x) => x,
            None => {
                return None;
            },
        };
        let c9 = match field_u32(v, "9") {
            Some(x) => x,
            None => {
                return None;
            },
        };
        let c10 = match field_u32(v, "10") {
            Some(x) => x,
            None => {
                return None;
            },
        };
        Some(
            RatingCount {
                param_1: c1,
                param_2: c2,
                param_3: c3,
                param_4: c4,
                param_5: c5,
                param_6: c6,
                param_7: c7,
                param_8: c8,
                param_9: c9,
                param_10: c10,
            },
        )
    }

    fn encode(&self) -> (r: JsonValue) {
        let mut fields: Vec<(String, JsonValue)> = Vec::new();
        obj_field(&mut fields, "1", JsonValue::Int(self.param_1 as i64));
        obj_field(&mut fields, "2", JsonValue::Int(self.param_2 as i64));
        obj_field(&mut fields, "3", JsonValue::Int(self.param_3 as i64));
        obj_field(&mut fields, "4", JsonValue::Int(self.param_4 as i64));
        obj_field(&mut fields, "5", JsonValue::Int(self.param_5 as i64));
        obj_field(&mut fields, "6", JsonValue::Int(self.param_6 as i64));
        obj_field(&mut fields, "7", JsonValue::Int(self.param_7 as i64));
        obj_field(&mut fields, "8", JsonValue::Int(self.param_8 as i64));
        obj_field(&mut fields, "9", JsonValue::Int(self.param_9 as i64));
        obj_field(&mut fields, "10", JsonValue::Int(self.param_10 as i64));
        proof {
            assert(fields_json_view(fields@) =~= rating_count_to_json(*self)->Obj_0);
        }
        JsonValue::Obj(fields)
    }

    proof fn round_trip(d: RatingCount) {
        let fs = rating_count_to_json(d)->Obj_0;
        reveal_strlit("1");
        reveal_strlit("2");
        reveal_strlit("3");
        reveal_strlit("4");
        reveal_strlit("5");
        reveal_strlit("6");
        reveal_strlit("7");
        reveal_strlit("8");
        reveal_strlit("9");
        reveal_strlit("10");
        assert("1"@.len() == 1 && "1"@[0] == '1');
        assert("2"@.len() == 1 && "2"@[0] == '2');
        assert("3"@.len() == 1 && "3"@[0] == '3');
        assert("4"@.len() == 1 && "4"@[0] == '4');
        assert("5"@.len() == 1 && "5"@[0] == '5');
        assert("6"@.len() == 1 && "6"@[0] == '6');
        assert("7"@.len() == 1 && "7"@[0] == '7');
        assert("8"@.len() == 1 && "8"@[0] == '8');
        assert("9"@.len() == 1 && "9"@[0] == '9');
        assert("10"@.len() == 2);
        lemma_lookup_at(fs, "1"@, 0);
        lemma_lookup_at(fs, "2"@, 1);
        lemma_lookup_at(fs, "3"@, 2);
        lemma_lookup_at(fs, "4"@, 3);
        lemma_lookup_at(fs, "5"@, 4);
        lemma_lookup_at(fs, "6"@, 5);
        lemma_lookup_at(fs, "7"@, 6);
        lemma_lookup_at(fs, "8"@, 7);
        lemma_lookup_at(fs, "9"@, 8);
        lemma_lookup_at(fs, "10"@, 9);
    }
}

/// The rating block of a subject: rank, vote total, per-score counts and
/// the mean score, the latter kept as its decimal text.
#[derive(Debug)]
pub struct Rating {
    pub rank: u32,
    pub total: u32,
    pub count: RatingCount,
    pub score: String,
}

/// The view of `Rating`.
pub struct RatingData {
    pub rank: u32,
    pub total: u32,
    pub count: RatingCount,
    pub score: Seq<char>,
}

pub open spec fn rating_view(x: Rating) -> RatingData {
    RatingData { rank: x.rank, total: x.total, count: x.count, score: x.score@ }
}

pub open spec fn rating_of_json(jd: JsonData) -> Option<RatingData> {
    match (spec_field_u32(jd, "rank"@), spec_field_u32(jd, "total"@), spec_field_numtext(
        jd,
        "score"@,
    )) {
        (Some(rank), Some(total), Some(score)) => match data_field(jd, "count"@) {
            Some(cv) => match rating_count_of_json(cv) {
                Some(count) => Some(RatingData { rank, total, count, score }),
                None => None,
            },
            None => None,
        },
        _ => None,
    }
}

pub open spec fn rating_to_json(d: RatingData) -> JsonData {
    JsonData::Obj(
        seq![
            ("rank"@, JsonData::Int(d.rank as i64)),
            ("total"@, JsonData::Int(d.total as i64)),
            ("count"@, rating_count_to_json(d.count)),
            ("score"@, JsonData::Num(d.score)),
        ],
    )
}

impl JsonCodec for Rating {
    type Data = RatingData;

    open spec fn of_json(jd: JsonData) -> Option<RatingData> {
        rating_of_json(jd)
    }

    open spec fn to_json(d: RatingData) -> JsonData {
        rating_to_json(d)
    }

    open spec fn view_data(self) -> RatingData {
        rating_view(self)
    }

    fn decode(v: &JsonValue) -> (r: Option<Self>) {
        let rank = match field_u32(v, "rank") {
            Some(x) => x,
            None => {
                return None;
            },
        };
        let total = match field_u32(v, "total") {
            Some(x) => x,
            None => {
                return None;
            },
        };
        let score = match field_numtext(v, "score") {
            Some(x) => x,
            None => {
                return None;
            },
        };
        let count = match get_field(v, "count") {
            Some(cv) => match RatingCount::decode(cv) {
                Some(x) => x,
                None => {
                    return None;
                },
            },
            None => {
                return None;
            },
        };
        Some(Rating { rank, total, count, score })
    }

    fn encode(&self) -> (r: JsonValue) {
        let mut fields: Vec<(String, JsonValue)> = Vec::new();
        obj_field(&mut fields, "rank", JsonValue::Int(self.rank as i64));
        obj_field(&mut fields, "total", JsonValue::Int(self.total as i64));
        obj_field(&mut fields, "count", self.count.encode());
        obj_field(&mut fields, "score", JsonValue::Num(self.score.clone()));
        proof {
            assert(fields_json_view(fields@) =~= rating_to_json(rating_view(*self))->Obj_0);
        }
        JsonValue::Obj(fields)
    }

    proof fn round_trip(d: RatingData) {
        let fs = rating_to_json(d)->Obj_0;
        reveal_strlit("rank");
        reveal_strlit("total");
        reveal_strlit("count");
        reveal_strlit("score");
        assert("rank"@.len() == 4 && "rank"@[0] == 'r');
        assert("total"@.len() == 5 && "total"@[0] == 't');
        assert("count"@.len() == 5 && "count"@[0] == 'c');
        assert("score"@.len() == 5 && "score"@[0] == 's');
        lemma_lookup_at(fs, "rank"@, 0);
        lemma_lookup_at(fs, "total"@, 1);
        lemma_lookup_at(fs, "count"@, 2);
        lemma_lookup_at(fs, "score"@, 3);
        RatingCount::round_trip(d.count);
    }
}

/// A weekday in the three languages the calendar carries.
#[derive(Debug)]
pub struct Weekday {
    pub en: String,
    pub cn: String,
    pub ja: String,
    pub id: u8,
}

/// The view of `Weekday`.
pub struct WeekdayData {
    pub en: Seq<char>,
    pub cn: Seq<char>,
    pub ja: Seq<char>,
    pub id: u8,
}

pub open spec fn weekday_view(x: Weekday) -> WeekdayData {
    WeekdayData { en: x.en@, cn: x.cn@, ja: x.ja@, id: x.id }
}

pub open spec fn weekday_of_json(jd: JsonData) -> Option<WeekdayData> {
    match (spec_field_str(jd, "en"@), spec_field_str(jd, "cn"@), spec_field_str(jd, "ja"@)) {
        (Some(en), Some(cn), Some(ja)) => match data_field(jd, "id"@) {
            Some(JsonData::Int(i)) => if 0 <= i <= 255 {
                Some(WeekdayData { en, cn, ja, id: i as u8 })
            } else {
                None
            },
            _ => None,
        },
        _ => None,
    }
}

pub open spec fn weekday_to_json(d: WeekdayData) -> JsonData {
    JsonData::Obj(
        seq![
            ("en"@, JsonData::Str(d.en)),
            ("cn"@, JsonData::Str(d.cn)),
            ("ja"@, JsonData::Str(d.ja)),
            ("id"@, JsonData::Int(d.id as i64)),
        ],
    )
}

impl JsonCodec for Weekday {
    type Data = WeekdayData;

    open spec fn of_json(jd: JsonData) -> Option<WeekdayData> {
        weekday_of_json(jd)
    }

    open spec fn to_json(d: WeekdayData) -> JsonData {
        weekday_to_json(d)
    }

    open spec fn view_data(self) -> WeekdayData {
        weekday_view(self)
    }

    fn decode(v: &JsonValue) -> (r: Option<Self>) {
        let en = match field_str(v, "en") {
            Some(x) => x,
            None => {
                return None;
            },
        };
        let cn = match field_str(v, "cn") {
            Some(x) => x,
            None => {
                return None;
            },
        };
        let ja = match field_str(v, "ja") {
            Some(x) => x,
            None => {
                return None;
            },
        };
        let id = match get_field(v, "id") {
            Some(x) => match x {
                JsonValue::Int(i) => if 0 <= *i && *i <= 255 {
                    *i as u8
                } else {
                    return None;
                },
                _ => {
                    return None;
                },
            },
            None => {
                return None;
            },
        };
        Some(Weekday { en, cn, ja, id })
    }

    fn encode(&self) -> (r: JsonValue) {
        let mut fields: Vec<(String, JsonValue)> = Vec::new();
        obj_field(&mut fields, "en", JsonValue::Str(self.en.clone()));
        obj_field(&mut fields, "cn", JsonValue::Str(self.cn.clone()));
        obj_field(&mut fields, "ja", JsonValue::Str(self.ja.clone()));
        obj_field(&mut fields, "id", JsonValue::Int(self.id as i64));
        proof {
            assert(fields_json_view(fields@) =~= weekday_to_json(weekday_view(*self))->Obj_0);
        }
        JsonValue::Obj(fields)
    }

    proof fn round_trip(d: WeekdayData) {
        let fs = weekday_to_json(d)->Obj_0;
        reveal_strlit("en");
        reveal_strlit("cn");
        reveal_strlit("ja");
        reveal_strlit("id");
        assert("en"@.len() == 2 && "en"@[0] == 'e');
        assert("cn"@.len() == 2 && "cn"@[0] == 'c');
        assert("ja"@.len() == 2 && "ja"@[0] == 'j');
        assert("id"@.len() == 2 && "id"@[0] == 'i');
        lemma_lookup_at(fs, "en"@, 0);
        lemma_lookup_at(fs, "cn"@, 1);
        lemma_lookup_at(fs, "ja"@, 2);
        lemma_lookup_at(fs, "id"@, 3);
    }
}

/// An optional text as a JSON member value: null when absent.
pub open spec fn opt_str_to_json(v: Option<Seq<char>>) -> JsonData {
    match v {
        Some(s) => JsonData::Str(s),
        None => JsonData::Null,
    }
}

/// A catalog subject, in full.
#[derive(Debug)]
pub struct Subject {
    pub id: u32,
    pub kind: SubjectType,
    pub name: String,
    pub name_cn: String,
    pub summary: String,
    pub series: bool,
    pub nsfw: bool,
    pub locked: bool,
    pub date: Option<String>,
    pub platform: String,
    pub images: Image,
    pub infobox: Vec<InfoBoxItem>,
    pub volumes: u32,
    pub eps: u32,
    pub rating: Rating,
    pub collection: CollectionStats,
    pub meta_tags: Vec<String>,
    pub tags: Vec<SubjectTag>,
}

/// The view of `Subject`.
pub struct SubjectData {
    pub id: u32,
    pub kind: SubjectType,
    pub name: Seq<char>,
    pub name_cn: Seq<char>,
    pub summary: Seq<char>,
    pub series: bool,
    pub nsfw: bool,
    pub locked: bool,
    pub date: Option<Seq<char>>,
    pub platform: Seq<char>,
    pub images: ImageData,
    pub infobox: Seq<InfoBoxItemData>,
    pub volumes: u32,
    pub eps: u32,
    pub rating: RatingData,
    pub collection: CollectionStats,
    pub meta_tags: Seq<Seq<char>>,
    pub tags: Seq<SubjectTagData>,
}

pub open spec fn subject_view(x: Subject) -> SubjectData {
    SubjectData {
        id: x.id,
        kind: x.kind,
        name: x.name@,
        name_cn: x.name_cn@,
        summary: x.summary@,
        series: x.series,
        nsfw: x.nsfw,
        locked: x.locked,
        date: crate::error::opt_str_view(x.date),
        platform: x.platform@,
        images: image_view(x.images),
        infobox: list_view(x.infobox@),
        volumes: x.volumes,
        eps: x.eps,
        rating: rating_view(x.rating),
        collection: x.collection,
        meta_tags: strs_view(x.meta_tags@),
        tags: list_view(x.tags@),
    }
}

pub open spec fn subject_of_json(jd: JsonData) -> Option<SubjectData> {
    match (spec_field_u32(jd, "id"@), spec_field_subject_type(jd, "type"@), spec_field_str(
        jd,
        "name"@,
    ), spec_field_str(jd, "name_cn"@), spec_field_str(jd, "summary"@), spec_field_bool(
        jd,
        "series"@,
    )) {
        (Some(id), Some(kind), Some(name), Some(name_cn), Some(summary), Some(series)) => match (
            spec_field_bool(jd, "nsfw"@),
            spec_field_bool(jd, "locked"@),
            spec_field_opt_str(jd, "date"@),
            spec_field_str(jd, "platform"@),
            crate::json::spec_field_record::<Image>(jd, "images"@),
            crate::json::spec_field_list::<InfoBoxItem>(jd, "infobox"@),
        ) {
            (Some(nsfw), Some(locked), Some(date), Some(platform), Some(images), Some(infobox)) => {
                match (
                    spec_field_u32(jd, "volumes"@),
                    spec_field_u32(jd, "eps"@),
                    crate::json::spec_field_record::<Rating>(jd, "rating"@),
                    crate::json::spec_field_record::<CollectionStats>(jd, "collection"@),
                    crate::json::spec_field_strs(jd, "meta_tags"@),
                    crate::json::spec_field_list::<SubjectTag>(jd, "tags"@),
                ) {
                    (
                        Some(volumes),
                        Some(eps),
                        Some(rating),
                        Some(collection),
                        Some(meta_tags),
                        Some(tags),
                    ) => Some(
                        SubjectData {
                            id,
                            kind,
                            name,
                            name_cn,
                            summary,
                            series,
                            nsfw,
                            locked,
                            date,
                            platform,
                            images,
                            infobox,
                            volumes,
                            eps,
                            rating,
                            collection,
                            meta_tags,
                            tags,
                        },
                    ),
                    _ => None,
                }
            },
            _ => None,
        },
        _ => None,
    }
}

pub open spec fn subject_to_json(d: SubjectData) -> JsonData {
    JsonData::Obj(
        seq![
            ("id"@, JsonData::Int(d.id as i64)),
            ("type"@, JsonData::Int(subject_type_code(d.kind))),
            ("name"@, JsonData::Str(d.name)),
            ("name_cn"@, JsonData::Str(d.name_cn)),
            ("summary"@, JsonData::Str(d.summary)),
            ("series"@, JsonData::Bool(d.series)),
            ("nsfw"@, JsonData::Bool(d.nsfw)),
            ("locked"@, JsonData::Bool(d.locked)),
            ("date"@, opt_str_to_json(d.date)),
            ("platform"@, JsonData::Str(d.platform)),
            ("images"@, image_to_json(d.images)),
            (
                "infobox"@,
                JsonData::Arr(d.infobox.map_values(|x: InfoBoxItemData| InfoBoxItem::to_json(x))),
            ),
            ("volumes"@, JsonData::Int(d.volumes as i64)),
            ("eps"@, JsonData::Int(d.eps as i64)),
            ("rating"@, rating_to_json(d.rating)),
            ("collection"@, collection_stats_to_json(d.collection)),
            ("meta_tags"@, JsonData::Arr(d.meta_tags.map_values(|s: Seq<char>| JsonData::Str(s)))),
            ("tags"@, JsonData::Arr(d.tags.map_values(|x: SubjectTagData| SubjectTag::to_json(x)))),
        ],
    )
}

fn opt_str_value(v: &Option<String>) -> (r: JsonValue)
    ensures
        json_view(r) == opt_str_to_json(crate::error::opt_str_view(*v)),
{
    match v {
        Some(s) => JsonValue::Str(s.clone()),
        None => JsonValue::Null,
    }
}

impl JsonCodec for Subject {
    type Data = SubjectData;

    open spec fn of_json(jd: JsonData) -> Option<SubjectData> {
        subject_of_json(jd)
    }

    open spec fn to_json(d: SubjectData) -> JsonData {
        subject_to_json(d)
    }

    open spec fn view_data(self) -> SubjectData {
        subject_view(self)
    }

    fn decode(v: &JsonValue) -> (r: Option<Self>) {
        let id = match field_u32(v, "id") {
            Some(x) => x,
            None => {
                return None;
            },
        };
        let kind = match field_subject_type(v, "type") {
            Some(x) => x,
            None => {
                return None;
            },
        };
        let name = match field_str(v, "name") {
            Some(x) => x,
            None => {
                return None;
            },
        };
        let name_cn = match field_str(v, "name_cn") {
            Some(x) => x,
            None => {
                return None;
            },
        };
        let summary = match field_str(v, "summary") {
            Some(x) => x,
            None => {
                return None;
            },
        };
        let series = match crate::json::field_bool(v, "series") {
            Some(x) => x,
            None => {
                return None;
            },
        };
        let nsfw = match crate::json::field_bool(v, "nsfw") {
            Some(x) => x,
            None => {
                return None;
            },
        };
        let locked = match crate::json::field_bool(v, "locked") {
            Some(x) => x,
            None => {
                return None;
            },
        };
        let date = match field_opt_str(v, "date") {
            Some(x) => x,
            None => {
                return None;
            },
        };
        let platform = match field_str(v, "platform") {
            Some(x) => x,
            None => {
                return None;
            },
        };
        let images = match crate::json::field_record::<Image>(v, "images") {
            Some(x) => x,
            None => {
                return None;
            },
        };
        let infobox = match crate::json::field_list::<InfoBoxItem>(v, "infobox") {
            Some(x) => x,
            None => {
                return None;
            },
        };
        let volumes = match field_u32(v, "volumes") {
            Some(x) => x,
            None => {
                return None;
            },
        };
        let eps = match field_u32(v, "eps") {
            Some(x) => x,
            None => {
                return None;
            },
        };
        let rating = match crate::json::field_record::<Rating>(v, "rating") {
            Some(x) => x,
            None => {
                return None;
            },
        };
        let collection = match crate::json::field_record::<CollectionStats>(v, "collection") {
            Some(x) => x,
            None => {
                return None;
            },
        };
        let meta_tags = match crate::json::field_strs(v, "meta_tags") {
            Some(x) => x,
            None => {
                return None;
            },
        };
        let tags = match crate::json::field_list::<SubjectTag>(v, "tags") {
            Some(x) => x,
            None => {
                return None;
            },
        };
        Some(
            Subject {
                id,
                kind,
                name,
                name_cn,
                summary,
                series,
                nsfw,
                locked,
                date,
                platform,
                images,
                infobox,
                volumes,
                eps,
                rating,
                collection,
                meta_tags,
                tags,
            },
        )
    }

    fn encode(&self) -> (r: JsonValue) {
        let mut fields: Vec<(String, JsonValue)> = Vec::new();
        obj_field(&mut fields, "id", JsonValue::Int(self.id as i64));
        obj_field(
            &mut fields,
            "type",
            JsonValue::Int(subject_type_code_exec(self.kind) as i64),
        );
        obj_field(&mut fields, "name", JsonValue::Str(self.name.clone()));
        obj_field(&mut fields, "name_cn", JsonValue::Str(self.name_cn.clone()));
        obj_field(&mut fields, "summary", JsonValue::Str(self.summary.clone()));
        obj_field(&mut fields, "series", JsonValue::Bool(self.series));
        obj_field(&mut fields, "nsfw", JsonValue::Bool(self.nsfw));
        obj_field(&mut fields, "locked", JsonValue::Bool(self.locked));
        obj_field(&mut fields, "date", opt_str_value(&self.date));
        obj_field(&mut fields, "platform", JsonValue::Str(self.platform.clone()));
        obj_field(&mut fields, "images", encode_image(&self.images));
        obj_field(
            &mut fields,
            "infobox",
            JsonValue::Arr(crate::json::encode_list::<InfoBoxItem>(&self.infobox)),
        );
        obj_field(&mut fields, "volumes", JsonValue::Int(self.volumes as i64));
        obj_field(&mut fields, "eps", JsonValue::Int(self.eps as i64));
        obj_field(&mut fields, "rating", self.rating.encode());
        obj_field(&mut fields, "collection", encode_collection_stats(&self.collection));
        obj_field(
            &mut fields,
            "meta_tags",
            JsonValue::Arr(crate::json::encode_str_list(&self.meta_tags)),
        );
        obj_field(
            &mut fields,
            "tags",
            JsonValue::Arr(crate::json::encode_list::<SubjectTag>(&self.tags)),
        );
        proof {
            assert(fields_json_view(fields@) =~= subject_to_json(subject_view(*self))->Obj_0);
        }
        JsonValue::Obj(fields)
    }

    proof fn round_trip(d: SubjectData) {
        let fs = subject_to_json(d)->Obj_0;
        reveal_strlit("id");
        reveal_strlit("type");
        reveal_strlit("name");
        reveal_strlit("name_cn");
        reveal_strlit("summary");
        reveal_strlit("series");
        reveal_strlit("nsfw");
        reveal_strlit("locked");
        reveal_strlit("date");
        reveal_strlit("platform");
        reveal_strlit("images");
        reveal_strlit("infobox");
        reveal_strlit("volumes");
        reveal_strlit("eps");
        reveal_strlit("rating");
        reveal_strlit("collection");
        reveal_strlit("meta_tags");
        reveal_strlit("tags");
        assert("id"@.len() == 2);
        assert("type"@.len() == 4 && "type"@[0] == 't' && "type"@[1] == 'y');
        assert("name"@.len() == 4 && "name"@[0] == 'n' && "name"@[1] == 'a');
        assert("name_cn"@.len() == 7 && "name_cn"@[0] == 'n');
        assert("summary"@.len() == 7 && "summary"@[0] == 's');
        assert("series"@.len() == 6 && "series"@[0] == 's');
        assert("nsfw"@.len() == 4 && "nsfw"@[0] == 'n' && "nsfw"@[1] == 's');
        assert("locked"@.len() == 6 && "locked"@[0] == 'l');
        assert("date"@.len() == 4 && "date"@[0] == 'd');
        assert("platform"@.len() == 8);
        assert("images"@.len() == 6 && "images"@[0] == 'i');
        assert("infobox"@.len() == 7 && "infobox"@[0] == 'i');
        assert("volumes"@.len() == 7 && "volumes"@[0] == 'v');
        assert("eps"@.len() == 3);
        assert("rating"@.len() == 6 && "rating"@[0] == 'r');
        assert("collection"@.len() == 10);
        assert("meta_tags"@.len() == 9);
        assert("tags"@.len() == 4 && "tags"@[0] == 't' && "tags"@[1] == 'a');
        lemma_lookup_at(fs, "id"@, 0);
        lemma_lookup_at(fs, "type"@, 1);
        lemma_lookup_at(fs, "name"@, 2);
        lemma_lookup_at(fs, "name_cn"@, 3);
        lemma_lookup_at(fs, "summary"@, 4);
        lemma_lookup_at(fs, "series"@, 5);
        lemma_lookup_at(fs, "nsfw"@, 6);
        lemma_lookup_at(fs, "locked"@, 7);
        lemma_lookup_at(fs, "date"@, 8);
        lemma_lookup_at(fs, "platform"@, 9);
        lemma_lookup_at(fs, "images"@, 10);
        lemma_lookup_at(fs, "infobox"@, 11);
        lemma_lookup_at(fs, "volumes"@, 12);
        lemma_lookup_at(fs, "eps"@, 13);
        lemma_lookup_at(fs, "rating"@, 14);
        lemma_lookup_at(fs, "collection"@, 15);
        lemma_lookup_at(fs, "meta_tags"@, 16);
        lemma_lookup_at(fs, "tags"@, 17);
        lemma_subject_type_round_trip(d.kind);
        lemma_image_round_trip(d.images);
        crate::json::lemma_list_round_trip::<InfoBoxItem>(d.infobox);
        Rating::round_trip(d.rating);
        lemma_collection_stats_round_trip(d.collection);
        crate::json::lemma_str_list_round_trip(d.meta_tags);
        crate::json::lemma_list_round_trip::<SubjectTag>(d.tags);
    }
}

/// What a subject search asks for.
#[derive(Debug)]
pub struct SubjectSearch {
    pub keyword: String,
    pub sort: Option<SubjectSearchSort>,
    pub filter: Option<SubjectSearchFilter>,
}

/// How a subject search narrows its results.
#[derive(Debug)]
pub struct SubjectSearchFilter {
    pub kind: Vec<SubjectType>,
    pub meta_tags: Vec<String>,
    pub tag: Vec<String>,
    pub air_date: Vec<String>,
    pub rating: Vec<String>,
    pub rank: Vec<String>,
    pub nsfw: bool,
}

/// The body a search filter is sent as.
pub open spec fn subject_search_filter_to_json(f: SubjectSearchFilter) -> JsonData {
    JsonData::Obj(
        seq![
            (
                "type"@,
                JsonData::Arr(
                    f.kind@.map_values(|t: SubjectType| JsonData::Int(subject_type_code(t))),
                ),
            ),
            ("meta_tags"@, JsonData::Arr(strs_view(f.meta_tags@).map_values(|s: Seq<char>| JsonData::Str(s)))),
            ("tag"@, JsonData::Arr(strs_view(f.tag@).map_values(|s: Seq<char>| JsonData::Str(s)))),
            ("air_date"@, JsonData::Arr(strs_view(f.air_date@).map_values(|s: Seq<char>| JsonData::Str(s)))),
            ("rating"@, JsonData::Arr(strs_view(f.rating@).map_values(|s: Seq<char>| JsonData::Str(s)))),
            ("rank"@, JsonData::Arr(strs_view(f.rank@).map_values(|s: Seq<char>| JsonData::Str(s)))),
            ("nsfw"@, JsonData::Bool(f.nsfw)),
        ],
    )
}

fn encode_subject_types(v: &Vec<SubjectType>) -> (r: Vec<JsonValue>)
    ensures
        seq_json_view(r@) == v@.map_values(|t: SubjectType| JsonData::Int(subject_type_code(t))),
{
    let n = v.len();
    let mut out: Vec<JsonValue> = Vec::new();
    let mut i: usize = 0;
    while i < n
        invariant
            n == v@.len(),
            i <= n,
            out@.len() == i,
            forall|j: int|
                0 <= j < i ==> json_view(#[trigger] out@[j]) == JsonData::Int(
                    subject_type_code(v@[j]),
                ),
        decreases n - i,
    {
        out.push(JsonValue::Int(subject_type_code_exec(v[i]) as i64));
        i += 1;
    }
    proof {
        crate::json::lemma_seq_json_view(out@);
        assert(seq_json_view(out@) =~= v@.map_values(
            |t: SubjectType| JsonData::Int(subject_type_code(t)),
        ));
    }
    out
}

pub fn encode_subject_search_filter(f: &SubjectSearchFilter) -> (r: JsonValue)
    ensures
        json_view(r) == subject_search_filter_to_json(*f),
{
    let mut fields: Vec<(String, JsonValue)> = Vec::new();
    obj_field(&mut fields, "type", JsonValue::Arr(encode_subject_types(&f.kind)));
    obj_field(&mut fields, "meta_tags", JsonValue::Arr(crate::json::encode_str_list(&f.meta_tags)));
    obj_field(&mut fields, "tag", JsonValue::Arr(crate::json::encode_str_list(&f.tag)));
    obj_field(&mut fields, "air_date", JsonValue::Arr(crate::json::encode_str_list(&f.air_date)));
    obj_field(&mut fields, "rating", JsonValue::Arr(crate::json::encode_str_list(&f.rating)));
    obj_field(&mut fields, "rank", JsonValue::Arr(crate::json::encode_str_list(&f.rank)));
    obj_field(&mut fields, "nsfw", JsonValue::Bool(f.nsfw));
    proof {
        assert(fields_json_view(fields@) =~= subject_search_filter_to_json(*f)->Obj_0);
    }
    JsonValue::Obj(fields)
}

/// The body a subject search is sent as: the keyword always, the order and
/// the filter only when the caller supplied them.
pub open spec fn subject_search_to_json(p: SubjectSearch) -> JsonData {
    JsonData::Obj(
        seq![("keyword"@, JsonData::Str(p.keyword@))] + (match p.sort {
            Some(s) => seq![("sort"@, JsonData::Str(subject_search_sort_word(s)))],
            None => Seq::<(Seq<char>, JsonData)>::empty(),
        }) + (match p.filter {
            Some(f) => seq![("filter"@, subject_search_filter_to_json(f))],
            None => Seq::<(Seq<char>, JsonData)>::empty(),
        }),
    )
}

pub fn encode_subject_search(p: &SubjectSearch) -> (r: JsonValue)
    ensures
        json_view(r) == subject_search_to_json(*p),
{
    let mut fields: Vec<(String, JsonValue)> = Vec::new();
    obj_field(&mut fields, "keyword", JsonValue::Str(p.keyword.clone()));
    if let Some(s) = &p.sort {
        obj_field(&mut fields, "sort", JsonValue::Str(subject_search_sort_string(*s)));
    }
    if let Some(f) = &p.filter {
        obj_field(&mut fields, "filter", encode_subject_search_filter(f));
    }
    proof {
        assert(fields_json_view(fields@) =~= subject_search_to_json(*p)->Obj_0);
    }
    JsonValue::Obj(fields)
}

/// The body an optional search payload is sent as: JSON null when the
/// caller supplied none, as the transport serializes an absent payload.
pub open spec fn opt_subject_search_to_json(p: Option<SubjectSearch>) -> JsonData {
    match p {
        Some(s) => subject_search_to_json(s),
        None => JsonData::Null,
    }
}

impl BangumiClient {
    /// The request for the daily broadcast calendar.
    pub fn get_calendar_request(&self) -> (r: HttpRequest)
        ensures
            r.method == HttpMethod::Get,
            r.url@ == self.base_path@ + "/calendar"@,
            pairs_view(r.query@) == Seq::<(Seq<char>, Seq<char>)>::empty(),
            pairs_view(r.headers@) == spec_headers(*self),
            r.body is None,
    {
        let url = self.base_path.clone().concat("/calendar");
        self.request_builder(HttpMethod::Get, url.as_str())
    }

    /// The request that searches subjects: optional paging in the query,
    /// the search payload as the body.
    pub fn search_subjects_request(
        &self,
        limit: Option<u32>,
        offset: Option<u32>,
        payload: Option<SubjectSearch>,
    ) -> (r: HttpRequest)
        ensures
            r.method == HttpMethod::Post,
            r.url@ == self.base_path@ + "/v0/search/subjects"@,
            pairs_view(r.query@) == opt_pair(
                "limit"@,
                match limit {
                    Some(n) => Some(dec_digits(n as nat)),
                    None => None,
                },
            ) + opt_pair(
                "offset"@,
                match offset {
                    Some(n) => Some(dec_digits(n as nat)),
                    None => None,
                },
            ),
            pairs_view(r.headers@) == spec_headers(*self),
            r.body matches Some(b) && json_view(b) == opt_subject_search_to_json(payload),
    {
        let url = self.base_path.clone().concat("/v0/search/subjects");
        let mut r = self.request_builder(HttpMethod::Post, url.as_str());
        if let Some(n) = limit {
            query_push(&mut r.query, "limit", u32_string(n));
        }
        if let Some(n) = offset {
            query_push(&mut r.query, "offset", u32_string(n));
        }
        r.body = Some(
            match &payload {
                Some(p) => encode_subject_search(p),
                None => JsonValue::Null,
            },
        );
        proof {
            assert(pairs_view(r.query@) =~= opt_pair(
                "limit"@,
                match limit {
                    Some(n) => Some(dec_digits(n as nat)),
                    None => None,
                },
            ) + opt_pair(
                "offset"@,
                match offset {
                    Some(n) => Some(dec_digits(n as nat)),
                    None => None,
                },
            ));
        }
        r
    }

    /// The request that browses subjects: the kind always, every other
    /// parameter only when the caller supplied it.
    pub fn get_subjects_request(
        &self,
        kind: SubjectType,
        cat: Option<SubjectCategory>,
        series: Option<bool>,
        platform: Option<&str>,
        sort: Option<SubjectBrowseSort>,
        year: Option<u32>,
        month: Option<u32>,
        limit: Option<u32>,
        offset: Option<u32>,
    ) -> (r: HttpRequest)
        ensures
            r.method == HttpMethod::Get,
            r.url@ == self.base_path@ + "/v0/subjects"@,
            pairs_view(r.query@) == seq![
                ("type"@, dec_digits(subject_type_code(kind) as nat)),
            ] + opt_pair(
                "cat"@,
                match cat {
                    Some(c) => Some(dec_digits(subject_category_code(c) as nat)),
                    None => None,
                },
            ) + opt_pair(
                "series"@,
                match series {
                    Some(b) => Some(
                        if b {
                            "true"@
                        } else {
                            "false"@
                        },
                    ),
                    None => None,
                },
            ) + opt_pair(
                "platform"@,
                match platform {
                    Some(p) => Some(p@),
                    None => None,
                },
            ) + opt_pair(
                "sort"@,
                match sort {
                    Some(s) => Some(subject_browse_sort_word(s)),
                    None => None,
                },
            ) + opt_pair(
                "year"@,
                match year {
                    Some(n) => Some(dec_digits(n as nat)),
                    None => None,
                },
            ) + opt_pair(
                "month"@,
                match month {
                    Some(n) => Some(dec_digits(n as nat)),
                    None => None,
                },
            ) + opt_pair(
                "limit"@,
                match limit {
                    Some(n) => Some(dec_digits(n as nat)),
                    None => None,
                },
            ) + opt_pair(
                "offset"@,
                match offset {
                    Some(n) => Some(dec_digits(n as nat)),
                    None => None,
                },
            ),
            pairs_view(r.headers@) == spec_headers(*self),
            r.body is None,
    {
        let url = self.base_path.clone().concat("/v0/subjects");
        let mut r = self.request_builder(HttpMethod::Get, url.as_str());
        query_push(&mut r.query, "type", u32_string(subject_type_code_exec(kind)));
        if let Some(c) = cat {
            query_push(&mut r.query, "cat", u32_string(subject_category_code_exec(c)));
        }
        if let Some(b) = series {
            query_push(&mut r.query, "series", crate::text::bool_string(b));
        }
        if let Some(p) = platform {
            query_push(&mut r.query, "platform", p.to_owned());
        }
        if let Some(s) = sort {
            query_push(&mut r.query, "sort", subject_browse_sort_string(s));
        }
        if let Some(n) = year {
            query_push(&mut r.query, "year", u32_string(n));
        }
        if let Some(n) = month {
            query_push(&mut r.query, "month", u32_string(n));
        }
        if let Some(n) = limit {
            query_push(&mut r.query, "limit", u32_string(n));
        }
        if let Some(n) = offset {
            query_push(&mut r.query, "offset", u32_string(n));
        }
        proof {
            assert(pairs_view(r.query@) =~= seq![
                ("type"@, dec_digits(subject_type_code(kind) as nat)),
            ] + opt_pair(
                "cat"@,
                match cat {
                    Some(c) => Some(dec_digits(subject_category_code(c) as nat)),
                    None => None,
                },
            ) + opt_pair(
                "series"@,
                match series {
                    Some(b) => Some(
                        if b {
                            "true"@
                        } else {
                            "false"@
                        },
                    ),
                    None => None,
                },
            ) + opt_pair(
                "platform"@,
                match platform {
                    Some(p) => Some(p@),
                    None => None,
                },
            ) + opt_pair(
                "sort"@,
                match sort {
                    Some(s) => Some(subject_browse_sort_word(s)),
                    None => None,
                },
            ) + opt_pair(
                "year"@,
                match year {
                    Some(n) => Some(dec_digits(n as nat)),
                    None => None,
                },
            ) + opt_pair(
                "month"@,
                match month {
                    Some(n) => Some(dec_digits(n as nat)),
                    None => None,
                },
            ) + opt_pair(
                "limit"@,
                match limit {
                    Some(n) => Some(dec_digits(n as nat)),
                    None => None,
                },
            ) + opt_pair(
                "offset"@,
                match offset {
                    Some(n) => Some(dec_digits(n as nat)),
                    None => None,
                },
            ));
        }
        r
    }

    /// The request for one subject by its id.
    pub fn get_subject_request(&self, subject_id: u32) -> (r: HttpRequest)
        ensures
            r.method == HttpMethod::Get,
            r.url@ == self.base_path@ + "/v0/subjects/"@ + dec_digits(subject_id as nat),
            pairs_view(r.query@) == Seq::<(Seq<char>, Seq<char>)>::empty(),
            pairs_view(r.headers@) == spec_headers(*self),
            r.body is None,
    {
        let url = self.base_path.clone().concat("/v0/subjects/").concat(
            u32_string(subject_id).as_str(),
        );
        self.request_builder(HttpMethod::Get, url.as_str())
    }

    /// The request for a subject's image in one of its sizes.
    pub fn get_subject_image_request(&self, subject_id: u32, kind: crate::model::ImageType) -> (r:
        HttpRequest)
        ensures
            r.method == HttpMethod::Get,
            r.url@ == self.base_path@ + "/v0/subjects/"@ + dec_digits(subject_id as nat)
                + "/image"@,
            pairs_view(r.query@) == seq![("type"@, crate::model::image_type_word(kind))],
            pairs_view(r.headers@) == spec_headers(*self),
            r.body is None,
    {
        let url = self.base_path.clone().concat("/v0/subjects/").concat(
            u32_string(subject_id).as_str(),
        ).concat("/image");
        let mut r = self.request_builder(HttpMethod::Get, url.as_str());
        query_push(&mut r.query, "type", crate::model::image_type_string(kind));
        proof {
            assert(pairs_view(r.query@) =~= seq![("type"@, crate::model::image_type_word(kind))]);
        }
        r
    }

    /// The request for the persons related to a subject.
    pub fn get_subject_persons_request(&self, subject_id: u32) -> (r: HttpRequest)
        ensures
            r.method == HttpMethod::Get,
            r.url@ == self.base_path@ + "/v0/subjects/"@ + dec_digits(subject_id as nat)
                + "/persons"@,
            pairs_view(r.query@) == Seq::<(Seq<char>, Seq<char>)>::empty(),
            pairs_view(r.headers@) == spec_headers(*self),
            r.body is None,
    {
        let url = self.base_path.clone().concat("/v0/subjects/").concat(
            u32_string(subject_id).as_str(),
        ).concat("/persons");
        self.request_builder(HttpMethod::Get, url.as_str())
    }

    /// The request for the characters of a subject.
    pub fn get_subject_characters_request(&self, subject_id: u32) -> (r: HttpRequest)
        ensures
            r.method == HttpMethod::Get,
            r.url@ == self.base_path@ + "/v0/subjects/"@ + dec_digits(subject_id as nat)
                + "/characters"@,
            pairs_view(r.query@) == Seq::<(Seq<char>, Seq<char>)>::empty(),
            pairs_view(r.headers@) == spec_headers(*self),
            r.body is None,
    {
        let url = self.base_path.clone().concat("/v0/subjects/").concat(
            u32_string(subject_id).as_str(),
        ).concat("/characters");
        self.request_builder(HttpMethod::Get, url.as_str())
    }

    /// The request for the subjects related to a subject.
    pub fn get_subject_subjects_request(&self, subject_id: u32) -> (r: HttpRequest)
        ensures
            r.method == HttpMethod::Get,
            r.url@ == self.base_path@ + "/v0/subjects/"@ + dec_digits(subject_id as nat)
                + "/subjects"@,
            pairs_view(r.query@) == Seq::<(Seq<char>, Seq<char>)>::empty(),
            pairs_view(r.headers@) == spec_headers(*self),
            r.body is None,
    {
        let url = self.base_path.clone().concat("/v0/subjects/").concat(
            u32_string(subject_id).as_str(),
        ).concat("/subjects");
        self.request_builder(HttpMethod::Get, url.as_str())
    }
}

/// A person related to a subject.
#[derive(Debug)]
pub struct SubjectPerson {
    pub id: u32,
    pub name: String,
    pub kind: crate::person::PersonType,
    pub career: Vec<crate::person::PersonCareer>,
    pub images: crate::model::SimpleImage,
    pub relation: String,
    pub eps: String,
}

/// The view of `SubjectPerson`.
pub struct SubjectPersonData {
    pub id: u32,
    pub name: Seq<char>,
    pub kind: crate::person::PersonType,
    pub career: Seq<crate::person::PersonCareer>,
    pub images: crate::model::SimpleImageData,
    pub relation: Seq<char>,
    pub eps: Seq<char>,
}

pub open spec fn subject_person_view(x: SubjectPerson) -> SubjectPersonData {
    SubjectPersonData {
        id: x.id,
        name: x.name@,
        kind: x.kind,
        career: list_view(x.career@),
        images: crate::model::simple_image_view(x.images),
        relation: x.relation@,
        eps: x.eps@,
    }
}

pub open spec fn subject_person_of_json(jd: JsonData) -> Option<SubjectPersonData> {
    match (spec_field_u32(jd, "id"@), spec_field_str(jd, "name"@),
    crate::person::spec_field_person_type(jd, "type"@), crate::person::spec_field_careers(
        jd,
        "career"@,
    ), crate::json::spec_field_record::<crate::model::SimpleImage>(jd, "images"@), spec_field_str(
        jd,
        "relation"@,
    ), spec_field_str(jd, "eps"@)) {
        (Some(id), Some(name), Some(kind), Some(career), Some(images), Some(relation), Some(eps))
            => Some(SubjectPersonData { id, name, kind, career, images, relation, eps }),
        _ => None,
    }
}

pub open spec fn subject_person_to_json(d: SubjectPersonData) -> JsonData {
    JsonData::Obj(
        seq![
            ("id"@, JsonData::Int(d.id as i64)),
            ("name"@, JsonData::Str(d.name)),
            ("type"@, JsonData::Int(crate::person::person_type_code(d.kind))),
            (
                "career"@,
                JsonData::Arr(
                    d.career.map_values(
                        |c: crate::person::PersonCareer| crate::person::PersonCareer::to_json(c),
                    ),
                ),
            ),
            ("images"@, crate::model::simple_image_to_json(d.images)),
            ("relation"@, JsonData::Str(d.relation)),
            ("eps"@, JsonData::Str(d.eps)),
        ],
    )
}

impl JsonCodec for SubjectPerson {
    type Data = SubjectPersonData;

    open spec fn of_json(jd: JsonData) -> Option<SubjectPersonData> {
        subject_person_of_json(jd)
    }

    open spec fn to_json(d: SubjectPersonData) -> JsonData {
        subject_person_to_json(d)
    }

    open spec fn view_data(self) -> SubjectPersonData {
        subject_person_view(self)
    }

    fn decode(v: &JsonValue) -> (r: Option<Self>) {
        let id = match field_u32(v, "id") {
            Some(x) => x,
            None => {
                return None;
            },
        };
        let name = match field_str(v, "name") {
            Some(x) => x,
            None => {
                return None;
            },
        };
        let kind = match crate::person::field_person_type(v, "type") {
            Some(x) => x,
            None => {
                return None;
            },
        };
        let career = match crate::person::field_careers(v, "career") {
            Some(x) => x,
            None => {
                return None;
            },
        };
        let images = match crate::json::field_record::<crate::model::SimpleImage>(v, "images") {
            Some(x) => x,
            None => {
                return None;
            },
        };
        let relation = match field_str(v, "relation") {
            Some(x) => x,
            None => {
                return None;
            },
        };
        let eps = match field_str(v, "eps") {
            Some(x) => x,
            None => {
                return None;
            },
        };
        Some(SubjectPerson { id, name, kind, career, images, relation, eps })
    }

    fn encode(&self) -> (r: JsonValue) {
        let mut fields: Vec<(String, JsonValue)> = Vec::new();
        obj_field(&mut fields, "id", JsonValue::Int(self.id as i64));
        obj_field(&mut fields, "name", JsonValue::Str(self.name.clone()));
        obj_field(
            &mut fields,
            "type",
            JsonValue::Int(crate::person::person_type_code_exec(self.kind)),
        );
        obj_field(
            &mut fields,
            "career",
            JsonValue::Arr(crate::json::encode_list::<crate::person::PersonCareer>(&self.career)),
        );
        obj_field(&mut fields, "images", crate::model::encode_simple_image(&self.images));
        obj_field(&mut fields, "relation", JsonValue::Str(self.relation.clone()));
        obj_field(&mut fields, "eps", JsonValue::Str(self.eps.clone()));
        proof {
            crate::json::lemma_list_round_trip::<crate::person::PersonCareer>(
                subject_person_view(*self).career,
            );
            assert(fields_json_view(fields@) =~= subject_person_to_json(subject_person_view(*self))
                ->Obj_0);
        }
        JsonValue::Obj(fields)
    }

    proof fn round_trip(d: SubjectPersonData) {
        let fs = subject_person_to_json(d)->Obj_0;
        reveal_strlit("id");
        reveal_strlit("name");
        reveal_strlit("type");
        reveal_strlit("career");
        reveal_strlit("images");
        reveal_strlit("relation");
        reveal_strlit("eps");
        assert("id"@.len() == 2);
        assert("name"@.len() == 4 && "name"@[0] == 'n');
        assert("type"@.len() == 4 && "type"@[0] == 't');
        assert("career"@.len() == 6 && "career"@[0] == 'c');
        assert("images"@.len() == 6 && "images"@[0] == 'i');
        assert("relation"@.len() == 8);
        assert("eps"@.len() == 3);
        lemma_lookup_at(fs, "id"@, 0);
        lemma_lookup_at(fs, "name"@, 1);
        lemma_lookup_at(fs, "type"@, 2);
        lemma_lookup_at(fs, "career"@, 3);
        lemma_lookup_at(fs, "images"@, 4);
        lemma_lookup_at(fs, "relation"@, 5);
        lemma_lookup_at(fs, "eps"@, 6);
        crate::person::lemma_person_type_round_trip(d.kind);
        crate::json::lemma_list_round_trip::<crate::person::PersonCareer>(d.career);
        crate::model::lemma_simple_image_round_trip(d.images);
    }
}

/// A character of a subject, with the persons voicing it.
#[derive(Debug)]
pub struct SubjectCharacter {
    pub id: u32,
    pub name: String,
    pub kind: crate::character::CharacterType,
    pub images: crate::model::SimpleImage,
    pub relation: String,
    pub actors: Vec<crate::person::Person>,
}

/// The view of `SubjectCharacter`.
pub struct SubjectCharacterData {
    pub id: u32,
    pub name: Seq<char>,
    pub kind: crate::character::CharacterType,
    pub images: crate::model::SimpleImageData,
    pub relation: Seq<char>,
    pub actors: Seq<crate::person::PersonData>,
}

pub open spec fn subject_character_view(x: SubjectCharacter) -> SubjectCharacterData {
    SubjectCharacterData {
        id: x.id,
        name: x.name@,
        kind: x.kind,
        images: crate::model::simple_image_view(x.images),
        relation: x.relation@,
        actors: list_view(x.actors@),
    }
}

pub open spec fn subject_character_of_json(jd: JsonData) -> Option<SubjectCharacterData> {
    match (spec_field_u32(jd, "id"@), spec_field_str(jd, "name"@),
    crate::character::spec_field_character_type(jd, "type"@), crate::json::spec_field_record::<
        crate::model::SimpleImage,
    >(jd, "images"@), spec_field_str(jd, "relation"@), crate::json::spec_field_list::<
        crate::person::Person,
    >(jd, "actors"@)) {
        (Some(id), Some(name), Some(kind), Some(images), Some(relation), Some(actors)) => Some(
            SubjectCharacterData { id, name, kind, images, relation, actors },
        ),
        _ => None,
    }
}

pub open spec fn subject_character_to_json(d: SubjectCharacterData) -> JsonData {
    JsonData::Obj(
        seq![
            ("id"@, JsonData::Int(d.id as i64)),
            ("name"@, JsonData::Str(d.name)),
            ("type"@, JsonData::Int(crate::character::character_type_code(d.kind))),
            ("images"@, crate::model::simple_image_to_json(d.images)),
            ("relation"@, JsonData::Str(d.relation)),
            (
                "actors"@,
                JsonData::Arr(
                    d.actors.map_values(
                        |p: crate::person::PersonData| crate::person::Person::to_json(p),
                    ),
                ),
            ),
        ],
    )
}

impl JsonCodec for SubjectCharacter {
    type Data = SubjectCharacterData;

    open spec fn of_json(jd: JsonData) -> Option<SubjectCharacterData> {
        subject_character_of_json(jd)
    }

    open spec fn to_json(d: SubjectCharacterData) -> JsonData {
        subject_character_to_json(d)
    }

    open spec fn view_data(self) -> SubjectCharacterData {
        subject_character_view(self)
    }

    fn decode(v: &JsonValue) -> (r: Option<Self>) {
        let id = match field_u32(v, "id") {
            Some(x) => x,
            None => {
                return None;
            },
        };
        let name = match field_str(v, "name") {
            Some(x) => x,
            None => {
                return None;
            },
        };
        let kind = match crate::character::field_character_type(v, "type") {
            Some(x) => x,
            None => {
                return None;
            },
        };
        let images = match crate::json::field_record::<crate::model::SimpleImage>(v, "images") {
            Some(x) => x,
            None => {
                return None;
            },
        };
        let relation = match field_str(v, "relation") {
            Some(x) => x,
            None => {
                return None;
            },
        };
        let actors = match crate::json::field_list::<crate::person::Person>(v, "actors") {
            Some(x) => x,
            None => {
                return None;
            },
        };
        Some(SubjectCharacter { id, name, kind, images, relation, actors })
    }

    fn encode(&self) -> (r: JsonValue) {
        let mut fields: Vec<(String, JsonValue)> = Vec::new();
        obj_field(&mut fields, "id", JsonValue::Int(self.id as i64));
        obj_field(&mut fields, "name", JsonValue::Str(self.name.clone()));
        obj_field(
            &mut fields,
            "type",
            JsonValue::Int(crate::character::character_type_code_exec(self.kind)),
        );
        obj_field(&mut fields, "images", crate::model::encode_simple_image(&self.images));
        obj_field(&mut fields, "relation", JsonValue::Str(self.relation.clone()));
        obj_field(
            &mut fields,
            "actors",
            JsonValue::Arr(crate::json::encode_list::<crate::person::Person>(&self.actors)),
        );
        proof {
            crate::json::lemma_list_round_trip::<crate::person::Person>(
                subject_character_view(*self).actors,
            );
            assert(fields_json_view(fields@) =~= subject_character_to_json(
                subject_character_view(*self),
            )->Obj_0);
        }
        JsonValue::Obj(fields)
    }

    proof fn round_trip(d: SubjectCharacterData) {
        let fs = subject_character_to_json(d)->Obj_0;
        reveal_strlit("id");
        reveal_strlit("name");
        reveal_strlit("type");
        reveal_strlit("images");
        reveal_strlit("relation");
        reveal_strlit("actors");
        assert("id"@.len() == 2);
        assert("name"@.len() == 4 && "name"@[0] == 'n');
        assert("type"@.len() == 4 && "type"@[0] == 't');
        assert("images"@.len() == 6 && "images"@[0] == 'i');
        assert("relation"@.len() == 8);
        assert("actors"@.len() == 6 && "actors"@[0] == 'a');
        lemma_lookup_at(fs, "id"@, 0);
        lemma_lookup_at(fs, "name"@, 1);
        lemma_lookup_at(fs, "type"@, 2);
        lemma_lookup_at(fs, "images"@, 3);
        lemma_lookup_at(fs, "relation"@, 4);
        lemma_lookup_at(fs, "actors"@, 5);
        crate::character::lemma_character_type_round_trip(d.kind);
        crate::model::lemma_simple_image_round_trip(d.images);
        crate::json::lemma_list_round_trip::<crate::person::Person>(d.actors);
    }
}

/// A subject related to another subject.
#[derive(Debug)]
pub struct SubjectSubject {
    pub id: u32,
    pub kind: SubjectType,
    pub name: String,
    pub name_cn: String,
    pub images: Image,
    pub relation: String,
}

/// The view of `SubjectSubject`.
pub struct SubjectSubjectData {
    pub id: u32,
    pub kind: SubjectType,
    pub name: Seq<char>,
    pub name_cn: Seq<char>,
    pub images: ImageData,
    pub relation: Seq<char>,
}

pub open spec fn subject_subject_view(x: SubjectSubject) -> SubjectSubjectData {
    SubjectSubjectData {
        id: x.id,
        kind: x.kind,
        name: x.name@,
        name_cn: x.name_cn@,
        images: image_view(x.images),
        relation: x.relation@,
    }
}

pub open spec fn subject_subject_of_json(jd: JsonData) -> Option<SubjectSubjectData> {
    match (spec_field_u32(jd, "id"@), spec_field_subject_type(jd, "type"@), spec_field_str(
        jd,
        "name"@,
    ), spec_field_str(jd, "name_cn"@), crate::json::spec_field_record::<Image>(jd, "images"@),
    spec_field_str(jd, "relation"@)) {
        (Some(id), Some(kind), Some(name), Some(name_cn), Some(images), Some(relation)) => Some(
            SubjectSubjectData { id, kind, name, name_cn, images, relation },
        ),
        _ => None,
    }
}

pub open spec fn subject_subject_to_json(d: SubjectSubjectData) -> JsonData {
    JsonData::Obj(
        seq![
            ("id"@, JsonData::Int(d.id as i64)),
            ("type"@, JsonData::Int(subject_type_code(d.kind))),
            ("name"@, JsonData::Str(d.name)),
            ("name_cn"@, JsonData::Str(d.name_cn)),
            ("images"@, image_to_json(d.images)),
            ("relation"@, JsonData::Str(d.relation)),
        ],
    )
}

impl JsonCodec for SubjectSubject {
    type Data = SubjectSubjectData;

    open spec fn of_json(jd: JsonData) -> Option<SubjectSubjectData> {
        subject_subject_of_json(jd)
    }

    open spec fn to_json(d: SubjectSubjectData) -> JsonData {
        subject_subject_to_json(d)
    }

    open spec fn view_data(self) -> SubjectSubjectData {
        subject_subject_view(self)
    }

    fn decode(v: &JsonValue) -> (r: Option<Self>) {
        let id = match field_u32(v, "id") {
            Some(x) => x,
            None => {
                return None;
            },
        };
        let kind = match field_subject_type(v, "type") {
            Some(x) => x,
            None => {
                return None;
            },
        };
        let name = match field_str(v, "name") {
            Some(x) => x,
            None => {
                return None;
            },
        };
        let name_cn = match field_str(v, "name_cn") {
            Some(x) => x,
            None => {
                return None;
            },
        };
        let images = match crate::json::field_record::<Image>(v, "images") {
            Some(x) => x,
            None => {
                return None;
            },
        };
        let relation = match field_str(v, "relation") {
            Some(x) => x,
            None => {
                return None;
            },
        };
        Some(SubjectSubject { id, kind, name, name_cn, images, relation })
    }

    fn encode(&self) -> (r: JsonValue) {
        let mut fields: Vec<(String, JsonValue)> = Vec::new();
        obj_field(&mut fields, "id", JsonValue::Int(self.id as i64));
        obj_field(&mut fields, "type", JsonValue::Int(subject_type_code_exec(self.kind) as i64));
        obj_field(&mut fields, "name", JsonValue::Str(self.name.clone()));
        obj_field(&mut fields, "name_cn", JsonValue::Str(self.name_cn.clone()));
        obj_field(&mut fields, "images", encode_image(&self.images));
        obj_field(&mut fields, "relation", JsonValue::Str(self.relation.clone()));
        proof {
            assert(fields_json_view(fields@) =~= subject_subject_to_json(
                subject_subject_view(*self),
            )->Obj_0);
        }
        JsonValue::Obj(fields)
    }

    proof fn round_trip(d: SubjectSubjectData) {
        let fs = subject_subject_to_json(d)->Obj_0;
        reveal_strlit("id");
        reveal_strlit("type");
        reveal_strlit("name");
        reveal_strlit("name_cn");
        reveal_strlit("images");
        reveal_strlit("relation");
        assert("id"@.len() == 2);
        assert("type"@.len() == 4 && "type"@[0] == 't');
        assert("name"@.len() == 4 && "name"@[0] == 'n');
        assert("name_cn"@.len() == 7);
        assert("images"@.len() == 6);
        assert("relation"@.len() == 8);
        lemma_lookup_at(fs, "id"@, 0);
        lemma_lookup_at(fs, "type"@, 1);
        lemma_lookup_at(fs, "name"@, 2);
        lemma_lookup_at(fs, "name_cn"@, 3);
        lemma_lookup_at(fs, "images"@, 4);
        lemma_lookup_at(fs, "relation"@, 5);
        lemma_subject_type_round_trip(d.kind);
        lemma_image_round_trip(d.images);
    }
}

/// The slimmer rating block the calendar carries.
#[derive(Debug)]
pub struct SubjectSmallRating {
    pub total: u32,
    pub count: RatingCount,
    pub score: String,
}

/// The view of `SubjectSmallRating`.
pub struct SubjectSmallRatingData {
    pub total: u32,
    pub count: RatingCount,
    pub score: Seq<char>,
}

pub open spec fn subject_small_rating_view(x: SubjectSmallRating) -> SubjectSmallRatingData {
    SubjectSmallRatingData { total: x.total, count: x.count, score: x.score@ }
}

pub open spec fn subject_small_rating_of_json(jd: JsonData) -> Option<SubjectSmallRatingData> {
    match (spec_field_u32(jd, "total"@), crate::json::spec_field_record::<RatingCount>(
        jd,
        "count"@,
    ), spec_field_numtext(jd, "score"@)) {
        (Some(total), Some(count), Some(score)) => Some(
            SubjectSmallRatingData { total, count, score },
        ),
        _ => None,
    }
}

pub open spec fn subject_small_rating_to_json(d: SubjectSmallRatingData) -> JsonData {
    JsonData::Obj(
        seq![
            ("total"@, JsonData::Int(d.total as i64)),
            ("count"@, rating_count_to_json(d.count)),
            ("score"@, JsonData::Num(d.score)),
        ],
    )
}

impl JsonCodec for SubjectSmallRating {
    type Data = SubjectSmallRatingData;

    open spec fn of_json(jd: JsonData) -> Option<SubjectSmallRatingData> {
        subject_small_rating_of_json(jd)
    }

    open spec fn to_json(d: SubjectSmallRatingData) -> JsonData {
        subject_small_rating_to_json(d)
    }

    open spec fn view_data(self) -> SubjectSmallRatingData {
        subject_small_rating_view(self)
    }

    fn decode(v: &JsonValue) -> (r: Option<Self>) {
        let total = match field_u32(v, "total") {
            Some(x) => x,
            None => {
                return None;
            },
        };
        let count = match crate::json::field_record::<RatingCount>(v, "count") {
            Some(x) => x,
            None => {
                return None;
            },
        };
        let score = match field_numtext(v, "score") {
            Some(x) => x,
            None => {
                return None;
            },
        };
        Some(SubjectSmallRating { total, count, score })
    }

    fn encode(&self) -> (r: JsonValue) {
        let mut fields: Vec<(String, JsonValue)> = Vec::new();
        obj_field(&mut fields, "total", JsonValue::Int(self.total as i64));
        obj_field(&mut fields, "count", self.count.encode());
        obj_field(&mut fields, "score", JsonValue::Num(self.score.clone()));
        proof {
            assert(fields_json_view(fields@) =~= subject_small_rating_to_json(
                subject_small_rating_view(*self),
            )->Obj_0);
        }
        JsonValue::Obj(fields)
    }

    proof fn round_trip(d: SubjectSmallRatingData) {
        let fs = subject_small_rating_to_json(d)->Obj_0;
        reveal_strlit("total");
        reveal_strlit("count");
        reveal_strlit("score");
        assert("total"@.len() == 5 && "total"@[0] == 't');
        assert("count"@.len() == 5 && "count"@[0] == 'c');
        assert("score"@.len() == 5 && "score"@[0] == 's');
        lemma_lookup_at(fs, "total"@, 0);
        lemma_lookup_at(fs, "count"@, 1);
        lemma_lookup_at(fs, "score"@, 2);
        RatingCount::round_trip(d.count);
    }
}

/// The slim subject record the calendar lists.
#[derive(Debug)]
pub struct SubjectSmall {
    pub id: u32,
    pub url: String,
    pub kind: SubjectType,
    pub name: String,
    pub name_cn: String,
    pub summary: String,
    pub air_date: String,
    pub air_weekday: u8,
    pub rating: Option<SubjectSmallRating>,
    pub rank: Option<u32>,
    pub images: Image,
    pub collection: Option<CollectionStats>,
}

/// The view of `SubjectSmall`.
pub struct SubjectSmallData {
    pub id: u32,
    pub url: Seq<char>,
    pub kind: SubjectType,
    pub name: Seq<char>,
    pub name_cn: Seq<char>,
    pub summary: Seq<char>,
    pub air_date: Seq<char>,
    pub air_weekday: u8,
    pub rating: Option<SubjectSmallRatingData>,
    pub rank: Option<u32>,
    pub images: ImageData,
    pub collection: Option<CollectionStats>,
}

pub open spec fn subject_small_view(x: SubjectSmall) -> SubjectSmallData {
    SubjectSmallData {
        id: x.id,
        url: x.url@,
        kind: x.kind,
        name: x.name@,
        name_cn: x.name_cn@,
        summary: x.summary@,
        air_date: x.air_date@,
        air_weekday: x.air_weekday,
        rating: match x.rating {
            Some(r) => Some(subject_small_rating_view(r)),
            None => None,
        },
        rank: x.rank,
        images: image_view(x.images),
        collection: x.collection,
    }
}

pub open spec fn subject_small_of_json(jd: JsonData) -> Option<SubjectSmallData> {
    match (spec_field_u32(jd, "id"@), spec_field_str(jd, "url"@), spec_field_subject_type(
        jd,
        "type"@,
    ), spec_field_str(jd, "name"@), spec_field_str(jd, "name_cn"@), spec_field_str(jd, "summary"@)) {
        (Some(id), Some(url), Some(kind), Some(name), Some(name_cn), Some(summary)) => match (
            spec_field_str(jd, "air_date"@),
            data_field(jd, "air_weekday"@),
            crate::json::spec_field_opt_record::<SubjectSmallRating>(jd, "rating"@),
            crate::json::spec_field_opt_u32(jd, "rank"@),
            crate::json::spec_field_record::<Image>(jd, "images"@),
            crate::json::spec_field_opt_record::<CollectionStats>(jd, "collection"@),
        ) {
            (
                Some(air_date),
                Some(JsonData::Int(wd)),
                Some(rating),
                Some(rank),
                Some(images),
                Some(collection),
            ) => if 0 <= wd <= 255 {
                Some(
                    SubjectSmallData {
                        id,
                        url,
                        kind,
                        name,
                        name_cn,
                        summary,
                        air_date,
                        air_weekday: wd as u8,
                        rating,
                        rank,
                        images,
                        collection,
                    },
                )
            } else {
                None
            },
            _ => None,
        },
        _ => None,
    }
}

pub open spec fn subject_small_to_json(d: SubjectSmallData) -> JsonData {
    JsonData::Obj(
        seq![
            ("id"@, JsonData::Int(d.id as i64)),
            ("url"@, JsonData::Str(d.url)),
            ("type"@, JsonData::Int(subject_type_code(d.kind))),
            ("name"@, JsonData::Str(d.name)),
            ("name_cn"@, JsonData::Str(d.name_cn)),
            ("summary"@, JsonData::Str(d.summary)),
            ("air_date"@, JsonData::Str(d.air_date)),
            ("air_weekday"@, JsonData::Int(d.air_weekday as i64)),
            (
                "rating"@,
                match d.rating {
                    Some(r) => subject_small_rating_to_json(r),
                    None => JsonData::Null,
                },
            ),
            ("rank"@, crate::character::opt_u32_field_to_json(d.rank)),
            ("images"@, image_to_json(d.images)),
            (
                "collection"@,
                match d.collection {
                    Some(c) => collection_stats_to_json(c),
                    None => JsonData::Null,
                },
            ),
        ],
    )
}

impl JsonCodec for SubjectSmall {
    type Data = SubjectSmallData;

    open spec fn of_json(jd: JsonData) -> Option<SubjectSmallData> {
        subject_small_of_json(jd)
    }

    open spec fn to_json(d: SubjectSmallData) -> JsonData {
        subject_small_to_json(d)
    }

    open spec fn view_data(self) -> SubjectSmallData {
        subject_small_view(self)
    }

    fn decode(v: &JsonValue) -> (r: Option<Self>) {
        let id = match field_u32(v, "id") {
            Some(x) => x,
            None => {
                return None;
            },
        };
        let url = match field_str(v, "url") {
            Some(x) => x,
            None => {
                return None;
            },
        };
        let kind = match field_subject_type(v, "type") {
            Some(x) => x,
            None => {
                return None;
            },
        };
        let name = match field_str(v, "name") {
            Some(x) => x,
            None => {
                return None;
            },
        };
        let name_cn = match field_str(v, "name_cn") {
            Some(x) => x,
            None => {
                return None;
            },
        };
        let summary = match field_str(v, "summary") {
            Some(x) => x,
            None => {
                return None;
            },
        };
        let air_date = match field_str(v, "air_date") {
            Some(x) => x,
            None => {
                return None;
            },
        };
        let air_weekday = match get_field(v, "air_weekday") {
            Some(x) => match x {
                JsonValue::Int(i) => if 0 <= *i && *i <= 255 {
                    *i as u8
                } else {
                    return None;
                },
                _ => {
                    return None;
                },
            },
            None => {
                return None;
            },
        };
        let rating = match crate::json::field_opt_record::<SubjectSmallRating>(v, "rating") {
            Some(x) => x,
            None => {
                return None;
            },
        };
        let rank = match crate::json::field_opt_u32(v, "rank") {
            Some(x) => x,
            None => {
                return None;
            },
        };
        let images = match crate::json::field_record::<Image>(v, "images") {
            Some(x) => x,
            None => {
                return None;
            },
        };
        let collection = match crate::json::field_opt_record::<CollectionStats>(v, "collection") {
            Some(x) => x,
            None => {
                return None;
            },
        };
        Some(
            SubjectSmall {
                id,
                url,
                kind,
                name,
                name_cn,
                summary,
                air_date,
                air_weekday,
                rating,
                rank,
                images,
                collection,
            },
        )
    }

    fn encode(&self) -> (r: JsonValue) {
        let mut fields: Vec<(String, JsonValue)> = Vec::new();
        obj_field(&mut fields, "id", JsonValue::Int(self.id as i64));
        obj_field(&mut fields, "url", JsonValue::Str(self.url.clone()));
        obj_field(&mut fields, "type", JsonValue::Int(subject_type_code_exec(self.kind) as i64));
        obj_field(&mut fields, "name", JsonValue::Str(self.name.clone()));
        obj_field(&mut fields, "name_cn", JsonValue::Str(self.name_cn.clone()));
        obj_field(&mut fields, "summary", JsonValue::Str(self.summary.clone()));
        obj_field(&mut fields, "air_date", JsonValue::Str(self.air_date.clone()));
        obj_field(&mut fields, "air_weekday", JsonValue::Int(self.air_weekday as i64));
        let rating = match &self.rating {
            Some(r) => r.encode(),
            None => JsonValue::Null,
        };
        obj_field(&mut fields, "rating", rating);
        obj_field(&mut fields, "rank", crate::character::opt_u32_field_value(self.rank));
        obj_field(&mut fields, "images", encode_image(&self.images));
        let collection = match &self.collection {
            Some(c) => encode_collection_stats(c),
            None => JsonValue::Null,
        };
        obj_field(&mut fields, "collection", collection);
        proof {
            assert(fields_json_view(fields@) =~= subject_small_to_json(subject_small_view(*self))
                ->Obj_0);
        }
        JsonValue::Obj(fields)
    }

    proof fn round_trip(d: SubjectSmallData) {
        let fs = subject_small_to_json(d)->Obj_0;
        reveal_strlit("id");
        reveal_strlit("url");
        reveal_strlit("type");
        reveal_strlit("name");
        reveal_strlit("name_cn");
        reveal_strlit("summary");
        reveal_strlit("air_date");
        reveal_strlit("air_weekday");
        reveal_strlit("rating");
        reveal_strlit("rank");
        reveal_strlit("images");
        reveal_strlit("collection");
        assert("id"@.len() == 2);
        assert("url"@.len() == 3);
        assert("type"@.len() == 4 && "type"@[0] == 't');
        assert("name"@.len() == 4 && "name"@[0] == 'n' && "name"@[1] == 'a');
        assert("name_cn"@.len() == 7);
        assert("summary"@.len() == 7 && "summary"@[0] == 's');
        assert("air_date"@.len() == 8);
        assert("air_weekday"@.len() == 11);
        assert("rating"@.len() == 6 && "rating"@[0] == 'r' && "rating"@[1] == 'a');
        assert("rank"@.len() == 4 && "rank"@[0] == 'r');
        assert("images"@.len() == 6 && "images"@[0] == 'i');
        assert("collection"@.len() == 10);
        lemma_lookup_at(fs, "id"@, 0);
        lemma_lookup_at(fs, "url"@, 1);
        lemma_lookup_at(fs, "type"@, 2);
        lemma_lookup_at(fs, "name"@, 3);
        lemma_lookup_at(fs, "name_cn"@, 4);
        lemma_lookup_at(fs, "summary"@, 5);
        lemma_lookup_at(fs, "air_date"@, 6);
        lemma_lookup_at(fs, "air_weekday"@, 7);
        lemma_lookup_at(fs, "rating"@, 8);
        lemma_lookup_at(fs, "rank"@, 9);
        lemma_lookup_at(fs, "images"@, 10);
        lemma_lookup_at(fs, "collection"@, 11);
        lemma_subject_type_round_trip(d.kind);
        if d.rating is Some {
            SubjectSmallRating::round_trip(d.rating->0);
        }
        lemma_image_round_trip(d.images);
        if d.collection is Some {
            lemma_collection_stats_round_trip(d.collection->0);
        }
    }
}

/// One day of the broadcast calendar.
#[derive(Debug)]
pub struct DailyCalendarItem {
    pub weekday: Weekday,
    pub items: Vec<SubjectSmall>,
}

/// The view of `DailyCalendarItem`.
pub struct DailyCalendarItemData {
    pub weekday: WeekdayData,
    pub items: Seq<SubjectSmallData>,
}

pub open spec fn daily_calendar_item_view(x: DailyCalendarItem) -> DailyCalendarItemData {
    DailyCalendarItemData { weekday: weekday_view(x.weekday), items: list_view(x.items@) }
}

pub open spec fn daily_calendar_item_of_json(jd: JsonData) -> Option<DailyCalendarItemData> {
    match (crate::json::spec_field_record::<Weekday>(jd, "weekday"@),
    crate::json::spec_field_list::<SubjectSmall>(jd, "items"@)) {
        (Some(weekday), Some(items)) => Some(DailyCalendarItemData { weekday, items }),
        _ => None,
    }
}

pub open spec fn daily_calendar_item_to_json(d: DailyCalendarItemData) -> JsonData {
    JsonData::Obj(
        seq![
            ("weekday"@, weekday_to_json(d.weekday)),
            (
                "items"@,
                JsonData::Arr(d.items.map_values(|x: SubjectSmallData| SubjectSmall::to_json(x))),
            ),
        ],
    )
}

impl JsonCodec for DailyCalendarItem {
    type Data = DailyCalendarItemData;

    open spec fn of_json(jd: JsonData) -> Option<DailyCalendarItemData> {
        daily_calendar_item_of_json(jd)
    }

    open spec fn to_json(d: DailyCalendarItemData) -> JsonData {
        daily_calendar_item_to_json(d)
    }

    open spec fn view_data(self) -> DailyCalendarItemData {
        daily_calendar_item_view(self)
    }

    fn decode(v: &JsonValue) -> (r: Option<Self>) {
        let weekday = match crate::json::field_record::<Weekday>(v, "weekday") {
            Some(x) => x,
            None => {
                return None;
            },
        };
        let items = match crate::json::field_list::<SubjectSmall>(v, "items") {
            Some(x) => x,
            None => {
                return None;
            },
        };
        Some(DailyCalendarItem { weekday, items })
    }

    fn encode(&self) -> (r: JsonValue) {
        let mut fields: Vec<(String, JsonValue)> = Vec::new();
        obj_field(&mut fields, "weekday", self.weekday.encode());
        obj_field(
            &mut fields,
            "items",
            JsonValue::Arr(crate::json::encode_list::<SubjectSmall>(&self.items)),
        );
        proof {
            crate::json::lemma_list_round_trip::<SubjectSmall>(
                daily_calendar_item_view(*self).items,
            );
            assert(fields_json_view(fields@) =~= daily_calendar_item_to_json(
                daily_calendar_item_view(*self),
            )->Obj_0);
        }
        JsonValue::Obj(fields)
    }

    proof fn round_trip(d: DailyCalendarItemData) {
        let fs = daily_calendar_item_to_json(d)->Obj_0;
        reveal_strlit("weekday");
        reveal_strlit("items");
        assert("weekday"@.len() == 7);
        assert("items"@.len() == 5);
        lemma_lookup_at(fs, "weekday"@, 0);
        lemma_lookup_at(fs, "items"@, 1);
        Weekday::round_trip(d.weekday);
        crate::json::lemma_list_round_trip::<SubjectSmall>(d.items);
    }
}

} // verus!
