use crate::json::{
    clone_json, data_field, data_lookup, field_i32, field_str, field_u32, fields_json_view,
    get_field, json_view, obj_field, seq_json_view, spec_field_i32,
    spec_field_str, spec_field_u32, JsonData, JsonValue,
};
use vstd::prelude::*;

verus! {

/// The first binding of `key` sits at position `i`: what the lookup finds.
pub proof fn lemma_lookup_at(fields: Seq<(Seq<char>, JsonData)>, key: Seq<char>, i: int)
    requires
        0 <= i < fields.len(),
        fields[i].0 == key,
        forall|j: int| 0 <= j < i ==> fields[j].0 != key,
    ensures
        data_lookup(fields, key) == Some(fields[i].1),
{
    crate::json::lemma_data_lookup_skip(fields, key, i);
    assert(fields.skip(i)[0] == fields[i]);
}

/// Comment and collection counters of an index or character.
#[derive(Debug, Clone, Copy, PartialEq, Eq, Structural)]
pub struct Stat {
    pub comments: i32,
    pub collects: i32,
}

pub open spec fn stat_of_json(jd: JsonData) -> Option<Stat> {
    match (spec_field_i32(jd, "comments"@), spec_field_i32(jd, "collects"@)) {
        (Some(c), Some(l)) => Some(Stat { comments: c, collects: l }),
        _ => None,
    }
}

pub open spec fn stat_to_json(s: Stat) -> JsonData {
    JsonData::Obj(
        seq![
            ("comments"@, JsonData::Int(s.comments as i64)),
            ("collects"@, JsonData::Int(s.collects as i64)),
        ],
    )
}

pub fn decode_stat(v: &JsonValue) -> (r: Option<Stat>)
    ensures
        r == stat_of_json(json_view(*v)),
{
    let comments = match field_i32(v, "comments") {
        Some(c) => c,
        None => {
            return None;
        },
    };
    let collects = match field_i32(v, "collects") {
        Some(c) => c,
        None => {
            return None;
        },
    };
    Some(Stat { comments, collects })
}

pub fn encode_stat(s: &Stat) -> (r: JsonValue)
    ensures
        json_view(r) == stat_to_json(*s),
{
    let mut fields: Vec<(String, JsonValue)> = Vec::new();
    obj_field(&mut fields, "comments", JsonValue::Int(s.comments as i64));
    obj_field(&mut fields, "collects", JsonValue::Int(s.collects as i64));
    proof {
        assert(fields_json_view(fields@) =~= stat_to_json(*s)->Obj_0);
    }
    JsonValue::Obj(fields)
}

/// Encoding a counter record and decoding it gives the record back.
pub proof fn lemma_stat_round_trip(s: Stat)
    ensures
        stat_of_json(stat_to_json(s)) == Some(s),
{
    let fs = stat_to_json(s)->Obj_0;
    reveal_strlit("comments");
    reveal_strlit("collects");
    assert("comments"@.len() == 8 && "comments"@[2] == 'm');
    assert("collects"@.len() == 8 && "collects"@[2] == 'l');
    lemma_lookup_at(fs, "comments"@, 0);
    lemma_lookup_at(fs, "collects"@, 1);
}

/// The images of a subject, in its five sizes.
#[derive(Debug)]
pub struct Image {
    pub large: String,
    pub common: String,
    pub medium: String,
    pub small: String,
    pub grid: String,
}

/// The view of `Image`.
pub struct ImageData {
    pub large: Seq<char>,
    pub common: Seq<char>,
    pub medium: Seq<char>,
    pub small: Seq<char>,
    pub grid: Seq<char>,
}

pub open spec fn image_view(x: Image) -> ImageData {
    ImageData {
        large: x.large@,
        common: x.common@,
        medium: x.medium@,
        small: x.small@,
        grid: x.grid@,
    }
}

pub open spec fn image_of_json(jd: JsonData) -> Option<ImageData> {
    match (spec_field_str(jd, "large"@), spec_field_str(jd, "common"@), spec_field_str(
        jd,
        "medium"@,
    ), spec_field_str(jd, "small"@), spec_field_str(jd, "grid"@)) {
        (Some(l), Some(c), Some(m), Some(s), Some(g)) => Some(
            ImageData { large: l, common: c, medium: m, small: s, grid: g },
        ),
        _ => None,
    }
}

pub open spec fn image_to_json(d: ImageData) -> JsonData {
    JsonData::Obj(
        seq![
            ("large"@, JsonData::Str(d.large)),
            ("common"@, JsonData::Str(d.common)),
            ("medium"@, JsonData::Str(d.medium)),
            ("small"@, JsonData::Str(d.small)),
            ("grid"@, JsonData::Str(d.grid)),
        ],
    )
}

pub fn decode_image(v: &JsonValue) -> (r: Option<Image>)
    ensures
        match r {
            Some(x) => image_of_json(json_view(*v)) == Some(image_view(x)),
            None => image_of_json(json_view(*v)) is None,
        },
{
    let large = match field_str(v, "large") {
        Some(x) => x,
        None => {
            return None;
        },
    };
    let common = match field_str(v, "common") {
        Some(x) => x,
        None => {
            return None;
        },
    };
    let medium = match field_str(v, "medium") {
        Some(x) => x,
        None => {
            return None;
        },
    };
    let small = match field_str(v, "small") {
        Some(x) => x,
        None => {
            return None;
        },
    };
    let grid = match field_str(v, "grid") {
        Some(x) => x,
        None => {
            return None;
        },
    };
    Some(Image { large, common, medium, small, grid })
}

pub fn encode_image(x: &Image) -> (r: JsonValue)
    ensures
        json_view(r) == image_to_json(image_view(*x)),
{
    let mut fields: Vec<(String, JsonValue)> = Vec::new();
    obj_field(&mut fields, "large", JsonValue::Str(x.large.clone()));
    obj_field(&mut fields, "common", JsonValue::Str(x.common.clone()));
    obj_field(&mut fields, "medium", JsonValue::Str(x.medium.clone()));
    obj_field(&mut fields, "small", JsonValue::Str(x.small.clone()));
    obj_field(&mut fields, "grid", JsonValue::Str(x.grid.clone()));
    proof {
        assert(fields_json_view(fields@) =~= image_to_json(image_view(*x))->Obj_0);
    }
    JsonValue::Obj(fields)
}

/// Encoding an image record and decoding it gives the record back.
pub proof fn lemma_image_round_trip(d: ImageData)
    ensures
        image_of_json(image_to_json(d)) == Some(d),
{
    let fs = image_to_json(d)->Obj_0;
    reveal_strlit("large");
    reveal_strlit("common");
    reveal_strlit("medium");
    reveal_strlit("small");
    reveal_strlit("grid");
    assert("large"@.len() == 5 && "large"@[0] == 'l');
    assert("common"@.len() == 6 && "common"@[0] == 'c');
    assert("medium"@.len() == 6 && "medium"@[0] == 'm');
    assert("small"@.len() == 5 && "small"@[0] == 's');
    assert("grid"@.len() == 4 && "grid"@[0] == 'g');
    lemma_lookup_at(fs, "large"@, 0);
    lemma_lookup_at(fs, "common"@, 1);
    lemma_lookup_at(fs, "medium"@, 2);
    lemma_lookup_at(fs, "small"@, 3);
    lemma_lookup_at(fs, "grid"@, 4);
}

/// The images of a character or person, in four sizes.
#[derive(Debug)]
pub struct SimpleImage {
    pub large: String,
    pub medium: String,
    pub small: String,
    pub grid: String,
}

/// The view of `SimpleImage`.
pub struct SimpleImageData {
    pub large: Seq<char>,
    pub medium: Seq<char>,
    pub small: Seq<char>,
    pub grid: Seq<char>,
}

pub open spec fn simple_image_view(x: SimpleImage) -> SimpleImageData {
    SimpleImageData { large: x.large@, medium: x.medium@, small: x.small@, grid: x.grid@ }
}

pub open spec fn simple_image_of_json(jd: JsonData) -> Option<SimpleImageData> {
    match (spec_field_str(jd, "large"@), spec_field_str(jd, "medium"@), spec_field_str(
        jd,
        "small"@,
    ), spec_field_str(jd, "grid"@)) {
        (Some(l), Some(m), Some(s), Some(g)) => Some(
            SimpleImageData { large: l, medium: m, small: s, grid: g },
        ),
        _ => None,
    }
}

pub open spec fn simple_image_to_json(d: SimpleImageData) -> JsonData {
    JsonData::Obj(
        seq![
            ("large"@, JsonData::Str(d.large)),
            ("medium"@, JsonData::Str(d.medium)),
            ("small"@, JsonData::Str(d.small)),
            ("grid"@, JsonData::Str(d.grid)),
        ],
    )
}

pub fn decode_simple_image(v: &JsonValue) -> (r: Option<SimpleImage>)
    ensures
        match r {
            Some(x) => simple_image_of_json(json_view(*v)) == Some(simple_image_view(x)),
            None => simple_image_of_json(json_view(*v)) is None,
        },
{
    let large = match field_str(v, "large") {
        Some(x) => x,
        None => {
            return None;
        },
    };
    let medium = match field_str(v, "medium") {
        Some(x) => x,
        None => {
            return None;
        },
    };
    let small = match field_str(v, "small") {
        Some(x) => x,
        None => {
            return None;
        },
    };
    let grid = match field_str(v, "grid") {
        Some(x) => x,
        None => {
            return None;
        },
    };
    Some(SimpleImage { large, medium, small, grid })
}

pub fn encode_simple_image(x: &SimpleImage) -> (r: JsonValue)
    ensures
        json_view(r) == simple_image_to_json(simple_image_view(*x)),
{
    let mut fields: Vec<(String, JsonValue)> = Vec::new();
    obj_field(&mut fields, "large", JsonValue::Str(x.large.clone()));
    obj_field(&mut fields, "medium", JsonValue::Str(x.medium.clone()));
    obj_field(&mut fields, "small", JsonValue::Str(x.small.clone()));
    obj_field(&mut fields, "grid", JsonValue::Str(x.grid.clone()));
    proof {
        assert(fields_json_view(fields@) =~= simple_image_to_json(simple_image_view(*x))->Obj_0);
    }
    JsonValue::Obj(fields)
}

/// Encoding a four-size image record and decoding it gives the record back.
pub proof fn lemma_simple_image_round_trip(d: SimpleImageData)
    ensures
        simple_image_of_json(simple_image_to_json(d)) == Some(d),
{
    let fs = simple_image_to_json(d)->Obj_0;
    reveal_strlit("large");
    reveal_strlit("medium");
    reveal_strlit("small");
    reveal_strlit("grid");
    assert("large"@.len() == 5 && "large"@[0] == 'l');
    assert("medium"@.len() == 6 && "medium"@[0] == 'm');
    assert("small"@.len() == 5 && "small"@[0] == 's');
    assert("grid"@.len() == 4 && "grid"@[0] == 'g');
    lemma_lookup_at(fs, "large"@, 0);
    lemma_lookup_at(fs, "medium"@, 1);
    lemma_lookup_at(fs, "small"@, 2);
    lemma_lookup_at(fs, "grid"@, 3);
}

/// A user tag on a subject, with its use count.
#[derive(Debug)]
pub struct Tag {
    pub name: String,
    pub count: u32,
    pub total_cont: u32,
}

/// The view of `Tag`.
pub struct TagData {
    pub name: Seq<char>,
    pub count: u32,
    pub total_cont: u32,
}

pub open spec fn tag_view(t: Tag) -> TagData {
    TagData { name: t.name@, count: t.count, total_cont: t.total_cont }
}

pub open spec fn tag_of_json(jd: JsonData) -> Option<TagData> {
    match (spec_field_str(jd, "name"@), spec_field_u32(jd, "count"@), spec_field_u32(
        jd,
        "total_cont"@,
    )) {
        (Some(n), Some(c), Some(t)) => Some(TagData { name: n, count: c, total_cont: t }),
        _ => None,
    }
}

pub open spec fn tag_to_json(d: TagData) -> JsonData {
    JsonData::Obj(
        seq![
            ("name"@, JsonData::Str(d.name)),
            ("count"@, JsonData::Int(d.count as i64)),
            ("total_cont"@, JsonData::Int(d.total_cont as i64)),
        ],
    )
}

pub fn decode_tag(v: &JsonValue) -> (r: Option<Tag>)
    ensures
        match r {
            Some(x) => tag_of_json(json_view(*v)) == Some(tag_view(x)),
            None => tag_of_json(json_view(*v)) is None,
        },
{
    let name = match field_str(v, "name") {
        Some(x) => x,
        None => {
            return None;
        },
    };
    let count = match field_u32(v, "count") {
        Some(x) => x,
        None => {
            return None;
        },
    };
    let total_cont = match field_u32(v, "total_cont") {
        Some(x) => x,
        None => {
            return None;
        },
    };
    Some(Tag { name, count, total_cont })
}

pub fn encode_tag(t: &Tag) -> (r: JsonValue)
    ensures
        json_view(r) == tag_to_json(tag_view(*t)),
{
    let mut fields: Vec<(String, JsonValue)> = Vec::new();
    obj_field(&mut fields, "name", JsonValue::Str(t.name.clone()));
    obj_field(&mut fields, "count", JsonValue::Int(t.count as i64));
    obj_field(&mut fields, "total_cont", JsonValue::Int(t.total_cont as i64));
    proof {
        assert(fields_json_view(fields@) =~= tag_to_json(tag_view(*t))->Obj_0);
    }
    JsonValue::Obj(fields)
}

/// Encoding a tag and decoding it gives the tag back.
pub proof fn lemma_tag_round_trip(d: TagData)
    ensures
        tag_of_json(tag_to_json(d)) == Some(d),
{
    let fs = tag_to_json(d)->Obj_0;
    reveal_strlit("name");
    reveal_strlit("count");
    reveal_strlit("total_cont");
    assert("name"@.len() == 4 && "name"@[0] == 'n');
    assert("count"@.len() == 5 && "count"@[0] == 'c');
    assert("total_cont"@.len() == 10 && "total_cont"@[0] == 't');
    lemma_lookup_at(fs, "name"@, 0);
    lemma_lookup_at(fs, "count"@, 1);
    lemma_lookup_at(fs, "total_cont"@, 2);
}

/// One entry of a subject's information box: a name and a free-form JSON
/// value, since the server fixes no schema for these.
#[derive(Debug)]
pub struct InfoBoxItem {
    pub key: String,
    pub value: JsonValue,
}

/// The view of `InfoBoxItem`.
pub struct InfoBoxItemData {
    pub key: Seq<char>,
    pub value: JsonData,
}

pub open spec fn infobox_item_view(x: InfoBoxItem) -> InfoBoxItemData {
    InfoBoxItemData { key: x.key@, value: json_view(x.value) }
}

pub open spec fn infobox_item_of_json(jd: JsonData) -> Option<InfoBoxItemData> {
    match (spec_field_str(jd, "key"@), data_field(jd, "value"@)) {
        (Some(k), Some(v)) => Some(InfoBoxItemData { key: k, value: v }),
        _ => None,
    }
}

pub open spec fn infobox_item_to_json(d: InfoBoxItemData) -> JsonData {
    JsonData::Obj(seq![("key"@, JsonData::Str(d.key)), ("value"@, d.value)])
}

pub fn decode_infobox_item(v: &JsonValue) -> (r: Option<InfoBoxItem>)
    ensures
        match r {
            Some(x) => infobox_item_of_json(json_view(*v)) == Some(infobox_item_view(x)),
            None => infobox_item_of_json(json_view(*v)) is None,
        },
{
    let key = match field_str(v, "key") {
        Some(x) => x,
        None => {
            return None;
        },
    };
    let value = match get_field(v, "value") {
        Some(x) => clone_json(x),
        None => {
            return None;
        },
    };
    Some(InfoBoxItem { key, value })
}

pub fn encode_infobox_item(x: &InfoBoxItem) -> (r: JsonValue)
    ensures
        json_view(r) == infobox_item_to_json(infobox_item_view(*x)),
{
    let mut fields: Vec<(String, JsonValue)> = Vec::new();
    obj_field(&mut fields, "key", JsonValue::Str(x.key.clone()));
    obj_field(&mut fields, "value", clone_json(&x.value));
    proof {
        assert(fields_json_view(fields@) =~= infobox_item_to_json(infobox_item_view(*x))->Obj_0);
    }
    JsonValue::Obj(fields)
}

/// Encoding an information-box entry and decoding it gives the entry back.
pub proof fn lemma_infobox_item_round_trip(d: InfoBoxItemData)
    ensures
        infobox_item_of_json(infobox_item_to_json(d)) == Some(d),
{
    let fs = infobox_item_to_json(d)->Obj_0;
    reveal_strlit("key");
    reveal_strlit("value");
    assert("key"@.len() == 3);
    assert("value"@.len() == 5);
    lemma_lookup_at(fs, "key"@, 0);
    lemma_lookup_at(fs, "value"@, 1);
}

/// The pagination envelope every list-returning endpoint wraps its items
/// in. The item list may be absent in a response; an absent list and an
/// empty list mean the same and `items` below collapses the two.
#[derive(Debug)]
pub struct Paged<T> {
    pub total: u32,
    pub limit: u32,
    pub offset: u32,
    pub data: Option<Vec<T>>,
}

impl<T> Paged<T> {
    /// The items of the page, with an absent list collapsed to the empty
    /// list.
    pub fn items(self) -> (r: Vec<T>)
        ensures
            match self.data {
                Some(v) => r == v,
                None => r@ == Seq::<T>::empty(),
            },
    {
        match self.data {
            Some(v) => v,
            None => Vec::new(),
        }
    }
}

/// The view of an envelope still holding its raw JSON items.
pub struct PagedRawData {
    pub total: u32,
    pub limit: u32,
    pub offset: u32,
    pub data: Option<Seq<JsonData>>,
}

pub open spec fn paged_raw_view(p: Paged<JsonValue>) -> PagedRawData {
    PagedRawData {
        total: p.total,
        limit: p.limit,
        offset: p.offset,
        data: match p.data {
            Some(v) => Some(seq_json_view(v@)),
            None => None,
        },
    }
}

/// What the envelope decodes to: the three counters are required, the
/// item list may be absent or null and is then `None`.
pub open spec fn paged_of_json(jd: JsonData) -> Option<PagedRawData> {
    match (spec_field_u32(jd, "total"@), spec_field_u32(jd, "limit"@), spec_field_u32(
        jd,
        "offset"@,
    )) {
        (Some(t), Some(l), Some(o)) => match data_field(jd, "data"@) {
            None => Some(PagedRawData { total: t, limit: l, offset: o, data: None }),
            Some(JsonData::Null) => Some(PagedRawData { total: t, limit: l, offset: o, data: None }),
            Some(JsonData::Arr(items)) => Some(
                PagedRawData { total: t, limit: l, offset: o, data: Some(items) },
            ),
            Some(_) => None,
        },
        _ => None,
    }
}

/// Decodes the pagination envelope, leaving the items as raw JSON for the
/// per-endpoint item decoders.
pub fn decode_paged(v: &JsonValue) -> (r: Option<Paged<JsonValue>>)
    ensures
        match r {
            Some(p) => paged_of_json(json_view(*v)) == Some(paged_raw_view(p)),
            None => paged_of_json(json_view(*v)) is None,
        },
{
    let total = match field_u32(v, "total") {
        Some(x) => x,
        None => {
            return None;
        },
    };
    let limit = match field_u32(v, "limit") {
        Some(x) => x,
        None => {
            return None;
        },
    };
    let offset = match field_u32(v, "offset") {
        Some(x) => x,
        None => {
            return None;
        },
    };
    let data = match get_field(v, "data") {
        None => None,
        Some(x) => match x {
            JsonValue::Null => None,
            JsonValue::Arr(items) => Some(crate::json::clone_json_list(items)),
            _ => {
                return None;
            },
        },
    };
    Some(Paged { total, limit, offset, data })
}

/// The collection state counters of a subject.
#[derive(Debug, Clone, Copy, PartialEq, Eq, Structural)]
pub struct CollectionStats {
    pub wish: Option<u32>,
    pub collect: Option<u32>,
    pub doing: Option<u32>,
    pub on_hold: Option<u32>,
    pub dropped: Option<u32>,
}

pub open spec fn collection_stats_of_json(jd: JsonData) -> Option<CollectionStats> {
    match (crate::json::spec_field_opt_u32(jd, "wish"@), crate::json::spec_field_opt_u32(
        jd,
        "collect"@,
    ), crate::json::spec_field_opt_u32(jd, "doing"@), crate::json::spec_field_opt_u32(
        jd,
        "on_hold"@,
    ), crate::json::spec_field_opt_u32(jd, "dropped"@)) {
        (Some(w), Some(c), Some(d), Some(h), Some(p)) => Some(
            CollectionStats { wish: w, collect: c, doing: d, on_hold: h, dropped: p },
        ),
        _ => None,
    }
}

pub open spec fn opt_u32_to_json(x: Option<u32>) -> JsonData {
    match x {
        Some(n) => JsonData::Int(n as i64),
        None => JsonData::Null,
    }
}

pub open spec fn collection_stats_to_json(s: CollectionStats) -> JsonData {
    JsonData::Obj(
        seq![
            ("wish"@, opt_u32_to_json(s.wish)),
            ("collect"@, opt_u32_to_json(s.collect)),
            ("doing"@, opt_u32_to_json(s.doing)),
            ("on_hold"@, opt_u32_to_json(s.on_hold)),
            ("dropped"@, opt_u32_to_json(s.dropped)),
        ],
    )
}

pub fn decode_collection_stats(v: &JsonValue) -> (r: Option<CollectionStats>)
    ensures
        r == collection_stats_of_json(json_view(*v)),
{
    let wish = match crate::json::field_opt_u32(v, "wish") {
        Some(x) => x,
        None => {
            return None;
        },
    };
    let collect = match crate::json::field_opt_u32(v, "collect") {
        Some(x) => x,
        None => {
            return None;
        },
    };
    let doing = match crate::json::field_opt_u32(v, "doing") {
        Some(x) => x,
        None => {
            return None;
        },
    };
    let on_hold = match crate::json::field_opt_u32(v, "on_hold") {
        Some(x) => x,
        None => {
            return None;
        },
    };
    let dropped = match crate::json::field_opt_u32(v, "dropped") {
        Some(x) => x,
        None => {
            return None;
        },
    };
    Some(CollectionStats { wish, collect, doing, on_hold, dropped })
}

fn opt_u32_value(x: Option<u32>) -> (r: JsonValue)
    ensures
        json_view(r) == opt_u32_to_json(x),
{
    match x {
        Some(n) => JsonValue::Int(n as i64),
        None => JsonValue::Null,
    }
}

pub fn encode_collection_stats(s: &CollectionStats) -> (r: JsonValue)
    ensures
        json_view(r) == collection_stats_to_json(*s),
{
    let mut fields: Vec<(String, JsonValue)> = Vec::new();
    obj_field(&mut fields, "wish", opt_u32_value(s.wish));
    obj_field(&mut fields, "collect", opt_u32_value(s.collect));
    obj_field(&mut fields, "doing", opt_u32_value(s.doing));
    obj_field(&mut fields, "on_hold", opt_u32_value(s.on_hold));
    obj_field(&mut fields, "dropped", opt_u32_value(s.dropped));
    proof {
        assert(fields_json_view(fields@) =~= collection_stats_to_json(*s)->Obj_0);
    }
    JsonValue::Obj(fields)
}

/// Encoding collection counters and decoding them gives the counters back.
pub proof fn lemma_collection_stats_round_trip(s: CollectionStats)
    ensures
        collection_stats_of_json(collection_stats_to_json(s)) == Some(s),
{
    let fs = collection_stats_to_json(s)->Obj_0;
    reveal_strlit("wish");
    reveal_strlit("collect");
    reveal_strlit("doing");
    reveal_strlit("on_hold");
    reveal_strlit("dropped");
    assert("wish"@.len() == 4 && "wish"@[0] == 'w');
    assert("collect"@.len() == 7 && "collect"@[0] == 'c');
    assert("doing"@.len() == 5 && "doing"@[0] == 'd');
    assert("on_hold"@.len() == 7 && "on_hold"@[0] == 'o');
    assert("dropped"@.len() == 7 && "dropped"@[0] == 'd' && "dropped"@[1] == 'r');
    lemma_lookup_at(fs, "wish"@, 0);
    lemma_lookup_at(fs, "collect"@, 1);
    lemma_lookup_at(fs, "doing"@, 2);
    lemma_lookup_at(fs, "on_hold"@, 3);
    lemma_lookup_at(fs, "dropped"@, 4);
}

/// The five sizes a subject image can be asked for.
#[derive(Debug, Clone, Copy, PartialEq, Eq, Structural)]
pub enum ImageType {
    Large,
    Common,
    Medium,
    Small,
    Grid,
}

/// The word an image size is written as in a query string.
pub open spec fn image_type_word(t: ImageType) -> Seq<char> {
    match t {
        ImageType::Large => "large"@,
        ImageType::Common => "common"@,
        ImageType::Medium => "medium"@,
        ImageType::Small => "small"@,
        ImageType::Grid => "grid"@,
    }
}

pub fn image_type_string(t: ImageType) -> (s: String)
    ensures
        s@ == image_type_word(t),
{
    match t {
        ImageType::Large => "large".to_owned(),
        ImageType::Common => "common".to_owned(),
        ImageType::Medium => "medium".to_owned(),
        ImageType::Small => "small".to_owned(),
        ImageType::Grid => "grid".to_owned(),
    }
}

/// The four sizes a character, person or avatar image can be asked for.
#[derive(Debug, Clone, Copy, PartialEq, Eq, Structural)]
pub enum SimpleImageType {
    Large,
    Medium,
    Small,
    Grid,
}

/// The word a four-size image is written as in a query string.
pub open spec fn simple_image_type_word(t: SimpleImageType) -> Seq<char> {
    match t {
        SimpleImageType::Large => "large"@,
        SimpleImageType::Medium => "medium"@,
        SimpleImageType::Small => "small"@,
        SimpleImageType::Grid => "grid"@,
    }
}

pub fn simple_image_type_string(t: SimpleImageType) -> (s: String)
    ensures
        s@ == simple_image_type_word(t),
{
    match t {
        SimpleImageType::Large => "large".to_owned(),
        SimpleImageType::Medium => "medium".to_owned(),
        SimpleImageType::Small => "small".to_owned(),
        SimpleImageType::Grid => "grid".to_owned(),
    }
}

/// How search results can be ordered.
#[derive(Debug, Clone, Copy, PartialEq, Eq, Structural)]
pub enum SearchSort {
    Match,
    Heat,
    Rank,
    Score,
}

/// The word a search order is written as.
pub open spec fn search_sort_word(t: SearchSort) -> Seq<char> {
    match t {
        SearchSort::Match => "match"@,
        SearchSort::Heat => "heat"@,
        SearchSort::Rank => "rank"@,
        SearchSort::Score => "score"@,
    }
}

pub fn search_sort_string(t: SearchSort) -> (s: String)
    ensures
        s@ == search_sort_word(t),
{
    match t {
        SearchSort::Match => "match".to_owned(),
        SearchSort::Heat => "heat".to_owned(),
        SearchSort::Rank => "rank".to_owned(),
        SearchSort::Score => "score".to_owned(),
    }
}

/// How browse listings can be ordered.
#[derive(Debug, Clone, Copy, PartialEq, Eq, Structural)]
pub enum BrowseSort {
    Match,
    Heat,
    Rank,
    Score,
}

/// The word a browse order is written as.
pub open spec fn browse_sort_word(t: BrowseSort) -> Seq<char> {
    match t {
        BrowseSort::Match => "match"@,
        BrowseSort::Heat => "heat"@,
        BrowseSort::Rank => "rank"@,
        BrowseSort::Score => "score"@,
    }
}

pub fn browse_sort_string(t: BrowseSort) -> (s: String)
    ensures
        s@ == browse_sort_word(t),
{
    match t {
        BrowseSort::Match => "match".to_owned(),
        BrowseSort::Heat => "heat".to_owned(),
        BrowseSort::Rank => "rank".to_owned(),
        BrowseSort::Score => "score".to_owned(),
    }
}

/// A blood group, coded as the server codes it.
#[derive(Debug, Clone, Copy, PartialEq, Eq, Structural)]
pub enum BloodType {
    A,
    B,
    AB,
    O,
}

/// The numeric code of a blood group on the wire.
pub open spec fn blood_type_code(b: BloodType) -> i64 {
    match b {
        BloodType::A => 1,
        BloodType::B => 2,
        BloodType::AB => 3,
        BloodType::O => 4,
    }
}

pub open spec fn blood_type_of_code(i: i64) -> Option<BloodType> {
    if i == 1 {
        Some(BloodType::A)
    } else if i == 2 {
        Some(BloodType::B)
    } else if i == 3 {
        Some(BloodType::AB)
    } else if i == 4 {
        Some(BloodType::O)
    } else {
        None
    }
}

pub fn blood_type_from_code(i: i64) -> (r: Option<BloodType>)
    ensures
        r == blood_type_of_code(i),
{
    if i == 1 {
        Some(BloodType::A)
    } else if i == 2 {
        Some(BloodType::B)
    } else if i == 3 {
        Some(BloodType::AB)
    } else if i == 4 {
        Some(BloodType::O)
    } else {
        None
    }
}

/// Every blood-group code decodes back to the group it encodes.
pub proof fn lemma_blood_type_round_trip(b: BloodType)
    ensures
        blood_type_of_code(blood_type_code(b)) == Some(b),
{
}

impl crate::json::JsonCodec for Stat {
    type Data = Stat;

    open spec fn of_json(jd: JsonData) -> Option<Stat> {
        stat_of_json(jd)
    }

    open spec fn to_json(d: Stat) -> JsonData {
        stat_to_json(d)
    }

    open spec fn view_data(self) -> Stat {
        self
    }

    fn decode(v: &JsonValue) -> (r: Option<Self>) {
        decode_stat(v)
    }

    fn encode(&self) -> (r: JsonValue) {
        encode_stat(self)
    }

    proof fn round_trip(d: Stat) {
        lemma_stat_round_trip(d);
    }
}

impl crate::json::JsonCodec for Image {
    type Data = ImageData;

    open spec fn of_json(jd: JsonData) -> Option<ImageData> {
        image_of_json(jd)
    }

    open spec fn to_json(d: ImageData) -> JsonData {
        image_to_json(d)
    }

    open spec fn view_data(self) -> ImageData {
        image_view(self)
    }

    fn decode(v: &JsonValue) -> (r: Option<Self>) {
        decode_image(v)
    }

    fn encode(&self) -> (r: JsonValue) {
        encode_image(self)
    }

    proof fn round_trip(d: ImageData) {
        lemma_image_round_trip(d);
    }
}

impl crate::json::JsonCodec for SimpleImage {
    type Data = SimpleImageData;

    open spec fn of_json(jd: JsonData) -> Option<SimpleImageData> {
        simple_image_of_json(jd)
    }

    open spec fn to_json(d: SimpleImageData) -> JsonData {
        simple_image_to_json(d)
    }

    open spec fn view_data(self) -> SimpleImageData {
        simple_image_view(self)
    }

    fn decode(v: &JsonValue) -> (r: Option<Self>) {
        decode_simple_image(v)
    }

    fn encode(&self) -> (r: JsonValue) {
        encode_simple_image(self)
    }

    proof fn round_trip(d: SimpleImageData) {
        lemma_simple_image_round_trip(d);
    }
}

impl crate::json::JsonCodec for Tag {
    type Data = TagData;

    open spec fn of_json(jd: JsonData) -> Option<TagData> {
        tag_of_json(jd)
    }

    open spec fn to_json(d: TagData) -> JsonData {
        tag_to_json(d)
    }

    open spec fn view_data(self) -> TagData {
        tag_view(self)
    }

    fn decode(v: &JsonValue) -> (r: Option<Self>) {
        decode_tag(v)
    }

    fn encode(&self) -> (r: JsonValue) {
        encode_tag(self)
    }

    proof fn round_trip(d: TagData) {
        lemma_tag_round_trip(d);
    }
}

impl crate::json::JsonCodec for InfoBoxItem {
    type Data = InfoBoxItemData;

    open spec fn of_json(jd: JsonData) -> Option<InfoBoxItemData> {
        infobox_item_of_json(jd)
    }

    open spec fn to_json(d: InfoBoxItemData) -> JsonData {
        infobox_item_to_json(d)
    }

    open spec fn view_data(self) -> InfoBoxItemData {
        infobox_item_view(self)
    }

    fn decode(v: &JsonValue) -> (r: Option<Self>) {
        decode_infobox_item(v)
    }

    fn encode(&self) -> (r: JsonValue) {
        encode_infobox_item(self)
    }

    proof fn round_trip(d: InfoBoxItemData) {
        lemma_infobox_item_round_trip(d);
    }
}

impl crate::json::JsonCodec for CollectionStats {
    type Data = CollectionStats;

    open spec fn of_json(jd: JsonData) -> Option<CollectionStats> {
        collection_stats_of_json(jd)
    }

    open spec fn to_json(d: CollectionStats) -> JsonData {
        collection_stats_to_json(d)
    }

    open spec fn view_data(self) -> CollectionStats {
        self
    }

    fn decode(v: &JsonValue) -> (r: Option<Self>) {
        decode_collection_stats(v)
    }

    fn encode(&self) -> (r: JsonValue) {
        encode_collection_stats(self)
    }

    proof fn round_trip(d: CollectionStats) {
        lemma_collection_stats_round_trip(d);
    }
}

} // verus!
