use crate::text::int_text;
use vstd::prelude::*;

verus! {

/// A JSON document held as plain data.
///
/// Every response body the catalog server sends is JSON; the library decodes
/// it into this type and then reads typed records out of it with verified
/// code. Numbers that fit a signed 64-bit integer are held as `Int`; any
/// other number is kept as its decimal text in `Num`, so no precision is
/// lost and no floating point is involved.
#[derive(Debug, PartialEq)]
pub enum JsonValue {
    Null,
    Bool(bool),
    Int(i64),
    /// A number that is not representable as `i64`, kept as its decimal text.
    Num(String),
    Str(String),
    Arr(Vec<JsonValue>),
    Obj(Vec<(String, JsonValue)>),
}

/// The mathematical shape of a JSON document: the view of `JsonValue`.
pub enum JsonData {
    Null,
    Bool(bool),
    Int(i64),
    Num(Seq<char>),
    Str(Seq<char>),
    Arr(Seq<JsonData>),
    Obj(Seq<(Seq<char>, JsonData)>),
}

/// The view of a `JsonValue`, mapping each text to its character sequence.
pub open spec fn json_view(v: JsonValue) -> JsonData
    decreases v,
{
    match v {
        JsonValue::Null => JsonData::Null,
        JsonValue::Bool(b) => JsonData::Bool(b),
        JsonValue::Int(i) => JsonData::Int(i),
        JsonValue::Num(t) => JsonData::Num(t@),
        JsonValue::Str(s) => JsonData::Str(s@),
        JsonValue::Arr(items) => JsonData::Arr(seq_json_view(items@)),
        JsonValue::Obj(fields) => JsonData::Obj(fields_json_view(fields@)),
    }
}

/// The views of the elements of a JSON array.
pub open spec fn seq_json_view(items: Seq<JsonValue>) -> Seq<JsonData>
    decreases items,
{
    if items.len() == 0 {
        Seq::empty()
    } else {
        seq![json_view(items[0])] + seq_json_view(items.drop_first())
    }
}

/// The views of the members of a JSON object.
pub open spec fn fields_json_view(fields: Seq<(String, JsonValue)>) -> Seq<(Seq<char>, JsonData)>
    decreases fields,
{
    if fields.len() == 0 {
        Seq::empty()
    } else {
        seq![(fields[0].0@, json_view(fields[0].1))] + fields_json_view(fields.drop_first())
    }
}

pub proof fn lemma_seq_json_view(items: Seq<JsonValue>)
    ensures
        seq_json_view(items).len() == items.len(),
        forall|i: int| 0 <= i < items.len() ==> seq_json_view(items)[i] == json_view(items[i]),
    decreases items,
{
    if items.len() > 0 {
        lemma_seq_json_view(items.drop_first());
    }
}

pub proof fn lemma_fields_json_view(fields: Seq<(String, JsonValue)>)
    ensures
        fields_json_view(fields).len() == fields.len(),
        forall|i: int| 0 <= i < fields.len() ==> fields_json_view(fields)[i]
            == (fields[i].0@, json_view(fields[i].1)),
    decreases fields,
{
    if fields.len() > 0 {
        lemma_fields_json_view(fields.drop_first());
    }
}

/// The first binding of `key` in an object's member sequence, if any.
pub open spec fn data_lookup(fields: Seq<(Seq<char>, JsonData)>, key: Seq<char>) -> Option<JsonData>
    decreases fields.len(),
{
    if fields.len() == 0 {
        None
    } else if fields[0].0 == key {
        Some(fields[0].1)
    } else {
        data_lookup(fields.drop_first(), key)
    }
}

/// The member named `key` of a JSON object; `None` on any other shape.
pub open spec fn data_field(jd: JsonData, key: Seq<char>) -> Option<JsonData> {
    match jd {
        JsonData::Obj(fields) => data_lookup(fields, key),
        _ => None,
    }
}

/// Relies on `<str as PartialEq>::eq`: true exactly when the two texts
/// are equal character for character.
#[verifier::external_body]
pub(crate) fn str_eq(a: &str, b: &str) -> (r: bool)
    ensures
        r == (a@ == b@),
{
    a == b
}

pub proof fn lemma_data_lookup_skip(fields: Seq<(Seq<char>, JsonData)>, key: Seq<char>, i: int)
    requires
        0 <= i <= fields.len(),
        forall|j: int| 0 <= j < i ==> fields[j].0 != key,
    ensures
        data_lookup(fields, key) == data_lookup(fields.skip(i), key),
    decreases i,
{
    if i == 0 {
        assert(fields.skip(0) =~= fields);
    } else {
        lemma_data_lookup_skip(fields, key, i - 1);
        assert(fields.skip(i - 1).len() > 0);
        assert(fields.skip(i - 1)[0] == fields[i - 1]);
        assert(fields.skip(i - 1).drop_first() =~= fields.skip(i));
    }
}

/// Looks up a member of a JSON object by name, returning the first binding.
pub fn get_field<'a>(v: &'a JsonValue, key: &str) -> (r: Option<&'a JsonValue>)
    ensures
        match r {
            Some(x) => data_field(json_view(*v), key@) == Some(json_view(*x)),
            None => data_field(json_view(*v), key@) is None,
        },
{
    match v {
        JsonValue::Obj(fields) => {
            proof {
                lemma_fields_json_view(fields@);
            }
            let ghost gf = fields_json_view(fields@);
            let n = fields.len();
            let mut i: usize = 0;
            while i < n
                invariant
                    n == fields@.len(),
                    json_view(*v) == JsonData::Obj(gf),
                    gf == fields_json_view(fields@),
                    gf.len() == n,
                    forall|j: int| 0 <= j < gf.len() ==> gf[j] == (fields@[j].0@, json_view(
                        fields@[j].1,
                    )),
                    i <= n,
                    forall|j: int| 0 <= j < i ==> gf[j].0 != key@,
                decreases n - i,
            {
                let pair = &fields[i];
                if str_eq(pair.0.as_str(), key) {
                    proof {
                        lemma_data_lookup_skip(gf, key@, i as int);
                        assert(gf.skip(i as int).len() > 0);
                        assert(gf.skip(i as int)[0] == gf[i as int]);
                        assert(gf[i as int].0 == key@);
                        assert(data_lookup(gf.skip(i as int), key@) == Some(gf[i as int].1));
                        assert(json_view(fields@[i as int].1) == gf[i as int].1);
                        assert(json_view(*v) == JsonData::Obj(gf));
                        assert(data_field(json_view(*v), key@) == data_lookup(gf, key@));
                    }
                    return Some(&pair.1);
                }
                i += 1;
            }
            proof {
                lemma_data_lookup_skip(gf, key@, n as int);
                assert(gf.skip(n as int) =~= Seq::empty());
            }
            None
        },
        _ => None,
    }
}

/// The member named `key` as an unsigned 32-bit integer.
pub open spec fn spec_field_u32(jd: JsonData, key: Seq<char>) -> Option<u32> {
    match data_field(jd, key) {
        Some(JsonData::Int(i)) => if 0 <= i <= 0xffff_ffffi64 {
            Some(i as u32)
        } else {
            None
        },
        _ => None,
    }
}

pub fn field_u32(v: &JsonValue, key: &str) -> (r: Option<u32>)
    ensures
        r == spec_field_u32(json_view(*v), key@),
{
    match get_field(v, key) {
        Some(x) => match x {
            JsonValue::Int(i) => if 0 <= *i && *i <= 0xffff_ffffi64 {
                Some(*i as u32)
            } else {
                None
            },
            _ => None,
        },
        None => None,
    }
}

/// The member named `key` as a signed 32-bit integer.
pub open spec fn spec_field_i32(jd: JsonData, key: Seq<char>) -> Option<i32> {
    match data_field(jd, key) {
        Some(JsonData::Int(i)) => if -0x8000_0000i64 <= i <= 0x7fff_ffffi64 {
            Some(i as i32)
        } else {
            None
        },
        _ => None,
    }
}

pub fn field_i32(v: &JsonValue, key: &str) -> (r: Option<i32>)
    ensures
        r == spec_field_i32(json_view(*v), key@),
{
    match get_field(v, key) {
        Some(x) => match x {
            JsonValue::Int(i) => if -0x8000_0000i64 <= *i && *i <= 0x7fff_ffffi64 {
                Some(*i as i32)
            } else {
                None
            },
            _ => None,
        },
        None => None,
    }
}

/// The member named `key` as a boolean.
pub open spec fn spec_field_bool(jd: JsonData, key: Seq<char>) -> Option<bool> {
    match data_field(jd, key) {
        Some(JsonData::Bool(b)) => Some(b),
        _ => None,
    }
}

pub fn field_bool(v: &JsonValue, key: &str) -> (r: Option<bool>)
    ensures
        r == spec_field_bool(json_view(*v), key@),
{
    match get_field(v, key) {
        Some(x) => match x {
            JsonValue::Bool(b) => Some(*b),
            _ => None,
        },
        None => None,
    }
}

/// The member named `key` as a text.
pub open spec fn spec_field_str(jd: JsonData, key: Seq<char>) -> Option<Seq<char>> {
    match data_field(jd, key) {
        Some(JsonData::Str(s)) => Some(s),
        _ => None,
    }
}

pub fn field_str(v: &JsonValue, key: &str) -> (r: Option<String>)
    ensures
        match r {
            Some(s) => spec_field_str(json_view(*v), key@) == Some(s@),
            None => spec_field_str(json_view(*v), key@) is None,
        },
{
    match get_field(v, key) {
        Some(x) => match x {
            JsonValue::Str(s) => Some(s.clone()),
            _ => None,
        },
        None => None,
    }
}

/// The member named `key` as the decimal text of a number: an integer
/// member is rendered as its digits, any other number keeps its own text.
pub open spec fn spec_field_numtext(jd: JsonData, key: Seq<char>) -> Option<Seq<char>> {
    match data_field(jd, key) {
        Some(JsonData::Int(i)) => Some(int_text(i as int)),
        Some(JsonData::Num(t)) => Some(t),
        _ => None,
    }
}

pub fn field_numtext(v: &JsonValue, key: &str) -> (r: Option<String>)
    ensures
        match r {
            Some(s) => spec_field_numtext(json_view(*v), key@) == Some(s@),
            None => spec_field_numtext(json_view(*v), key@) is None,
        },
{
    match get_field(v, key) {
        Some(x) => match x {
            JsonValue::Int(i) => Some(crate::text::i64_string(*i)),
            JsonValue::Num(t) => Some(t.clone()),
            _ => None,
        },
        None => None,
    }
}

/// The member named `key` as an array.
pub open spec fn spec_field_arr(jd: JsonData, key: Seq<char>) -> Option<Seq<JsonData>> {
    match data_field(jd, key) {
        Some(JsonData::Arr(items)) => Some(items),
        _ => None,
    }
}

pub fn field_arr<'a>(v: &'a JsonValue, key: &str) -> (r: Option<&'a Vec<JsonValue>>)
    ensures
        match r {
            Some(items) => spec_field_arr(json_view(*v), key@) == Some(seq_json_view(items@)),
            None => spec_field_arr(json_view(*v), key@) is None,
        },
{
    match get_field(v, key) {
        Some(x) => match x {
            JsonValue::Arr(items) => Some(items),
            _ => None,
        },
        None => None,
    }
}

/// A member that may be absent or null: `None` means the member is
/// malformed, `Some(None)` that it is absent or null.
pub open spec fn spec_field_opt_u32(jd: JsonData, key: Seq<char>) -> Option<Option<u32>> {
    match data_field(jd, key) {
        None => Some(None),
        Some(JsonData::Null) => Some(None),
        Some(JsonData::Int(i)) => if 0 <= i <= 0xffff_ffffi64 {
            Some(Some(i as u32))
        } else {
            None
        },
        _ => None,
    }
}

pub fn field_opt_u32(v: &JsonValue, key: &str) -> (r: Option<Option<u32>>)
    ensures
        r == spec_field_opt_u32(json_view(*v), key@),
{
    match get_field(v, key) {
        Some(x) => match x {
            JsonValue::Null => Some(None),
            JsonValue::Int(i) => if 0 <= *i && *i <= 0xffff_ffffi64 {
                Some(Some(*i as u32))
            } else {
                None
            },
            _ => None,
        },
        None => Some(None),
    }
}

/// A text member that may be absent or null, with the same convention.
pub open spec fn spec_field_opt_str(jd: JsonData, key: Seq<char>) -> Option<Option<Seq<char>>> {
    match data_field(jd, key) {
        None => Some(None),
        Some(JsonData::Null) => Some(None),
        Some(JsonData::Str(s)) => Some(Some(s)),
        _ => None,
    }
}

pub fn field_opt_str(v: &JsonValue, key: &str) -> (r: Option<Option<String>>)
    ensures
        match r {
            Some(Some(s)) => spec_field_opt_str(json_view(*v), key@) == Some(Some(s@)),
            Some(None) => spec_field_opt_str(json_view(*v), key@) == Some(None::<Seq<char>>),
            None => spec_field_opt_str(json_view(*v), key@) is None,
        },
{
    match get_field(v, key) {
        Some(x) => match x {
            JsonValue::Null => Some(None),
            JsonValue::Str(s) => Some(Some(s.clone())),
            _ => None,
        },
        None => Some(None),
    }
}

/// Declares `serde_json::Value`, the parser's own tree type, so that the
/// trusted converter below can take it; it is opaque here and never read
/// by verified code.
#[verifier::external_type_specification]
#[verifier::external_body]
pub struct ExSerdeValue(serde_json::Value);

/// What a JSON text parses to, if it parses: parsing is a function of the
/// text alone, so the tree it yields is given a name that the trusted
/// parser below is the only source of.
pub uninterp spec fn parsed_json(s: Seq<char>) -> Option<JsonData>;

/// Relies on the variants of `serde_json::Value`: rebuilds the parsed tree
/// as plain data, one arm for each variant. An integral number becomes
/// `Int`; any other number keeps its decimal text.
#[verifier::external_body]
fn plain_of_serde(v: serde_json::Value) -> JsonValue {
    match v {
        serde_json::Value::Null => JsonValue::Null,
        serde_json::Value::Bool(b) => JsonValue::Bool(b),
        serde_json::Value::Number(n) => match n.as_i64() {
            Some(i) => JsonValue::Int(i),
            None => JsonValue::Num(n.to_string()),
        },
        serde_json::Value::String(s) => JsonValue::Str(s),
        serde_json::Value::Array(a) => JsonValue::Arr(
            a.into_iter().map(plain_of_serde).collect(),
        ),
        serde_json::Value::Object(m) => JsonValue::Obj(
            m.into_iter().map(|(k, x)| (k, plain_of_serde(x))).collect(),
        ),
    }
}

/// Relies on `serde_json::from_str::<serde_json::Value>`: whether a text
/// parses, and what tree it parses to, depend on the text alone, which is
/// what lets the result carry the name `parsed_json`.
#[verifier::external_body]
pub fn parse_json(s: &str) -> (r: Option<JsonValue>)
    ensures
        match r {
            Some(j) => parsed_json(s@) == Some(json_view(j)),
            None => parsed_json(s@) is None,
        },
{
    match serde_json::from_str::<serde_json::Value>(s) {
        Ok(v) => Some(plain_of_serde(v)),
        Err(_) => None,
    }
}

/// A deep copy of a JSON value, equal to the original under the view.
pub fn clone_json(v: &JsonValue) -> (r: JsonValue)
    ensures
        json_view(r) == json_view(*v),
    decreases *v,
{
    match v {
        JsonValue::Null => JsonValue::Null,
        JsonValue::Bool(b) => JsonValue::Bool(*b),
        JsonValue::Int(i) => JsonValue::Int(*i),
        JsonValue::Num(t) => JsonValue::Num(t.clone()),
        JsonValue::Str(s) => JsonValue::Str(s.clone()),
        JsonValue::Arr(items) => {
            let n = items.len();
            let mut out: Vec<JsonValue> = Vec::new();
            let mut i: usize = 0;
            while i < n
                invariant
                    n == items@.len(),
                    *v == JsonValue::Arr(*items),
                    i <= n,
                    out@.len() == i,
                    forall|j: int| 0 <= j < i ==> json_view(out@[j]) == json_view(items@[j]),
                decreases n - i,
            {
                proof {
                    assert(decreases_to!(*v => v->Arr_0));
                    assert(decreases_to!(*items => items@));
                    assert(decreases_to!(items@ => items@[i as int]));
                    assert(decreases_to!(*v => items@[i as int]));
                }
                let c = clone_json(&items[i]);
                out.push(c);
                i += 1;
            }
            proof {
                lemma_seq_json_view(out@);
                lemma_seq_json_view(items@);
                assert(seq_json_view(out@) =~= seq_json_view(items@));
            }
            JsonValue::Arr(out)
        },
        JsonValue::Obj(fields) => {
            let n = fields.len();
            let mut out: Vec<(String, JsonValue)> = Vec::new();
            let mut i: usize = 0;
            while i < n
                invariant
                    n == fields@.len(),
                    *v == JsonValue::Obj(*fields),
                    i <= n,
                    out@.len() == i,
                    forall|j: int| 0 <= j < i ==> out@[j].0@ == fields@[j].0@ && json_view(
                        out@[j].1,
                    ) == json_view(fields@[j].1),
                decreases n - i,
            {
                let pair = &fields[i];
                proof {
                    assert(decreases_to!(*v => v->Obj_0));
                    assert(decreases_to!(*fields => fields@));
                    assert(decreases_to!(fields@ => fields@[i as int]));
                    assert(decreases_to!(fields@[i as int] => fields@[i as int].1));
                    assert(decreases_to!(*v => fields@[i as int].1));
                }
                let c = clone_json(&pair.1);
                out.push((pair.0.clone(), c));
                i += 1;
            }
            proof {
                lemma_fields_json_view(out@);
                lemma_fields_json_view(fields@);
                assert(fields_json_view(out@) =~= fields_json_view(fields@));
            }
            JsonValue::Obj(out)
        },
    }
}

/// Appends one member to an object under construction.
pub fn obj_field(fields: &mut Vec<(String, JsonValue)>, key: &str, val: JsonValue)
    ensures
        fields_json_view(final(fields)@) == fields_json_view(old(fields)@) + seq![
            (key@, json_view(val)),
        ],
{
    let ghost gval = json_view(val);
    fields.push((key.to_owned(), val));
    proof {
        lemma_fields_json_view(fields@);
        lemma_fields_json_view(old(fields)@);
        assert(fields_json_view(fields@) =~= fields_json_view(old(fields)@) + seq![(key@, gval)]);
    }
}

/// A deep copy of a list of JSON values, equal to the original under the
/// view.
pub fn clone_json_list(items: &Vec<JsonValue>) -> (r: Vec<JsonValue>)
    ensures
        seq_json_view(r@) == seq_json_view(items@),
{
    let n = items.len();
    let mut out: Vec<JsonValue> = Vec::new();
    let mut i: usize = 0;
    while i < n
        invariant
            n == items@.len(),
            i <= n,
            out@.len() == i,
            forall|j: int| 0 <= j < i ==> json_view(out@[j]) == json_view(items@[j]),
        decreases n - i,
    {
        let c = clone_json(&items[i]);
        out.push(c);
        i += 1;
    }
    proof {
        lemma_seq_json_view(out@);
        lemma_seq_json_view(items@);
        assert(seq_json_view(out@) =~= seq_json_view(items@));
    }
    out
}

/// What a JSON array of texts decodes to: the texts in order, or nothing
/// if any element is not a text.
pub open spec fn str_list_of_json(items: Seq<JsonData>) -> Option<Seq<Seq<char>>>
    decreases items.len(),
{
    if items.len() == 0 {
        Some(Seq::empty())
    } else {
        match items[0] {
            JsonData::Str(s) => match str_list_of_json(items.drop_first()) {
                Some(rest) => Some(seq![s] + rest),
                None => None,
            },
            _ => None,
        }
    }
}

pub proof fn lemma_str_list_of_json(items: Seq<JsonData>)
    ensures
        str_list_of_json(items) is Some <==> (forall|j: int|
            0 <= j < items.len() ==> items[j] is Str),
        str_list_of_json(items) matches Some(t) ==> t.len() == items.len() && (forall|j: int|
            0 <= j < items.len() ==> t[j] == items[j]->Str_0),
    decreases items.len(),
{
    if items.len() > 0 {
        lemma_str_list_of_json(items.drop_first());
        if items[0] is Str && str_list_of_json(items.drop_first()) is Some {
            let rest = str_list_of_json(items.drop_first())->0;
            assert(forall|j: int|
                1 <= j < items.len() ==> items[j] == items.drop_first()[j - 1]);
            assert(str_list_of_json(items) == Some(seq![items[0]->Str_0] + rest));
        } else {
            if !(items[0] is Str) {
            } else {
                let k = choose|j: int|
                    0 <= j < items.drop_first().len() && !(items.drop_first()[j] is Str);
                assert(items[k + 1] == items.drop_first()[k]);
            }
        }
    }
}

/// The view of a list of texts.
pub open spec fn strs_view(v: Seq<String>) -> Seq<Seq<char>> {
    v.map_values(|s: String| s@)
}

/// Decodes a JSON array of texts.
pub fn decode_str_list(items: &Vec<JsonValue>) -> (r: Option<Vec<String>>)
    ensures
        match r {
            Some(out) => str_list_of_json(seq_json_view(items@)) == Some(strs_view(out@)),
            None => str_list_of_json(seq_json_view(items@)) is None,
        },
{
    proof {
        lemma_seq_json_view(items@);
        lemma_str_list_of_json(seq_json_view(items@));
    }
    let ghost gitems = seq_json_view(items@);
    let n = items.len();
    let mut out: Vec<String> = Vec::new();
    let mut i: usize = 0;
    while i < n
        invariant
            n == items@.len(),
            gitems == seq_json_view(items@),
            gitems.len() == n,
            forall|j: int| 0 <= j < n ==> gitems[j] == json_view(items@[j]),
            i <= n,
            out@.len() == i,
            forall|j: int| 0 <= j < i ==> gitems[j] is Str && out@[j]@ == gitems[j]->Str_0,
        decreases n - i,
    {
        match &items[i] {
            JsonValue::Str(s) => {
                out.push(s.clone());
            },
            _ => {
                proof {
                    assert(!(gitems[i as int] is Str));
                    lemma_str_list_of_json(gitems);
                }
                return None;
            },
        }
        i += 1;
    }
    proof {
        lemma_str_list_of_json(gitems);
        assert(str_list_of_json(gitems) matches Some(t) ==> t =~= strs_view(out@));
    }
    Some(out)
}

/// Encodes a list of texts as a JSON array of texts.
pub fn encode_str_list(v: &Vec<String>) -> (r: Vec<JsonValue>)
    ensures
        seq_json_view(r@) == strs_view(v@).map_values(|s: Seq<char>| JsonData::Str(s)),
        str_list_of_json(seq_json_view(r@)) == Some(strs_view(v@)),
{
    let n = v.len();
    let mut out: Vec<JsonValue> = Vec::new();
    let mut i: usize = 0;
    while i < n
        invariant
            n == v@.len(),
            i <= n,
            out@.len() == i,
            forall|j: int| 0 <= j < i ==> (#[trigger] out@[j] matches JsonValue::Str(s) && s@
                == v@[j]@),
        decreases n - i,
    {
        out.push(JsonValue::Str(v[i].clone()));
        i += 1;
    }
    proof {
        lemma_seq_json_view(out@);
        lemma_str_list_of_json(seq_json_view(out@));
        assert(forall|j: int|
            0 <= j < n ==> #[trigger] seq_json_view(out@)[j] == JsonData::Str(v@[j]@));
        let t = str_list_of_json(seq_json_view(out@))->0;
        assert(t =~= strs_view(v@));
        assert(seq_json_view(out@) =~= strs_view(v@).map_values(|s: Seq<char>| JsonData::Str(s)));
    }
    out
}

/// Every element of an array that encodes a list of texts decodes back to
/// the text it encodes.
pub proof fn lemma_str_list_round_trip(ss: Seq<Seq<char>>)
    ensures
        str_list_of_json(ss.map_values(|s: Seq<char>| JsonData::Str(s))) == Some(ss),
{
    let g = ss.map_values(|s: Seq<char>| JsonData::Str(s));
    lemma_str_list_of_json(g);
    assert(forall|j: int| 0 <= j < g.len() ==> #[trigger] g[j] is Str);
    let t = str_list_of_json(g)->0;
    assert(t =~= ss);
}

/// A record that travels as a JSON object: its mathematical mirror, what a
/// JSON document decodes to, what the record encodes to, and the two
/// executable directions, each pinned to the spec-level codec.
pub trait JsonCodec: Sized {
    /// The mathematical mirror of the record.
    type Data;

    /// What a JSON document decodes to, if it is well formed.
    spec fn of_json(jd: JsonData) -> Option<Self::Data>;

    /// What the record encodes to.
    spec fn to_json(d: Self::Data) -> JsonData;

    /// The view of the record.
    spec fn view_data(self) -> Self::Data;

    fn decode(v: &JsonValue) -> (r: Option<Self>)
        ensures
            match r {
                Some(x) => Self::of_json(json_view(*v)) == Some(x.view_data()),
                None => Self::of_json(json_view(*v)) is None,
            },
    ;

    fn encode(&self) -> (r: JsonValue)
        ensures
            json_view(r) == Self::to_json(self.view_data()),
    ;

    /// Encoding a record and decoding it gives the record back.
    proof fn round_trip(d: Self::Data)
        ensures
            Self::of_json(Self::to_json(d)) == Some(d),
    ;
}

/// What a JSON array decodes to, element by element: the decoded records
/// in order, or nothing if any element is malformed.
pub open spec fn list_of_json<T: JsonCodec>(items: Seq<JsonData>) -> Option<Seq<T::Data>> {
    if forall|j: int| 0 <= j < items.len() ==> T::of_json(#[trigger] items[j]) is Some {
        Some(Seq::new(items.len(), |j: int| T::of_json(items[j])->0))
    } else {
        None
    }
}

/// The view of a list of records.
pub open spec fn list_view<T: JsonCodec>(v: Seq<T>) -> Seq<T::Data> {
    v.map_values(|x: T| x.view_data())
}

/// Decodes a JSON array of records.
pub fn decode_list<T: JsonCodec>(items: &Vec<JsonValue>) -> (r: Option<Vec<T>>)
    ensures
        match r {
            Some(out) => list_of_json::<T>(seq_json_view(items@)) == Some(list_view(out@)),
            None => list_of_json::<T>(seq_json_view(items@)) is None,
        },
{
    proof {
        lemma_seq_json_view(items@);
    }
    let ghost gitems = seq_json_view(items@);
    let n = items.len();
    let mut out: Vec<T> = Vec::new();
    let mut i: usize = 0;
    while i < n
        invariant
            n == items@.len(),
            gitems == seq_json_view(items@),
            gitems.len() == n,
            forall|j: int| 0 <= j < n ==> gitems[j] == json_view(items@[j]),
            i <= n,
            out@.len() == i,
            forall|j: int|
                0 <= j < i ==> T::of_json(#[trigger] gitems[j]) == Some(out@[j].view_data()),
        decreases n - i,
    {
        match T::decode(&items[i]) {
            Some(x) => {
                out.push(x);
            },
            None => {
                proof {
                    assert(T::of_json(gitems[i as int]) is None);
                }
                return None;
            },
        }
        i += 1;
    }
    proof {
        let t = list_of_json::<T>(gitems)->0;
        assert(t =~= list_view(out@));
    }
    Some(out)
}

/// Encodes a list of records as a JSON array.
pub fn encode_list<T: JsonCodec>(v: &Vec<T>) -> (r: Vec<JsonValue>)
    ensures
        seq_json_view(r@) == list_view(v@).map_values(|d: T::Data| T::to_json(d)),
        list_of_json::<T>(seq_json_view(r@)) == Some(list_view(v@)),
{
    let n = v.len();
    let mut out: Vec<JsonValue> = Vec::new();
    let mut i: usize = 0;
    while i < n
        invariant
            n == v@.len(),
            i <= n,
            out@.len() == i,
            forall|j: int|
                0 <= j < i ==> json_view(#[trigger] out@[j]) == T::to_json(v@[j].view_data()),
        decreases n - i,
    {
        out.push(v[i].encode());
        i += 1;
    }
    proof {
        lemma_seq_json_view(out@);
        let g = seq_json_view(out@);
        assert forall|j: int| 0 <= j < n implies T::of_json(#[trigger] g[j]) is Some by {
            T::round_trip(v@[j].view_data());
        }
        let t = list_of_json::<T>(g)->0;
        assert forall|j: int| 0 <= j < n implies t[j] == list_view(v@)[j] by {
            T::round_trip(v@[j].view_data());
        }
        assert(t =~= list_view(v@));
        assert(g =~= list_view(v@).map_values(|d: T::Data| T::to_json(d)));
    }
    out
}

/// The member named `key` as a record.
pub open spec fn spec_field_record<T: JsonCodec>(jd: JsonData, key: Seq<char>) -> Option<T::Data> {
    match data_field(jd, key) {
        Some(x) => T::of_json(x),
        None => None,
    }
}

pub fn field_record<T: JsonCodec>(v: &JsonValue, key: &str) -> (r: Option<T>)
    ensures
        match r {
            Some(x) => spec_field_record::<T>(json_view(*v), key@) == Some(x.view_data()),
            None => spec_field_record::<T>(json_view(*v), key@) is None,
        },
{
    match get_field(v, key) {
        Some(x) => T::decode(x),
        None => None,
    }
}

/// The member named `key` as a list of records.
pub open spec fn spec_field_list<T: JsonCodec>(jd: JsonData, key: Seq<char>) -> Option<
    Seq<T::Data>,
> {
    match spec_field_arr(jd, key) {
        Some(items) => list_of_json::<T>(items),
        None => None,
    }
}

pub fn field_list<T: JsonCodec>(v: &JsonValue, key: &str) -> (r: Option<Vec<T>>)
    ensures
        match r {
            Some(xs) => spec_field_list::<T>(json_view(*v), key@) == Some(list_view(xs@)),
            None => spec_field_list::<T>(json_view(*v), key@) is None,
        },
{
    match field_arr(v, key) {
        Some(items) => decode_list::<T>(items),
        None => None,
    }
}

/// The member named `key` as a list of texts.
pub open spec fn spec_field_strs(jd: JsonData, key: Seq<char>) -> Option<Seq<Seq<char>>> {
    match spec_field_arr(jd, key) {
        Some(items) => str_list_of_json(items),
        None => None,
    }
}

pub fn field_strs(v: &JsonValue, key: &str) -> (r: Option<Vec<String>>)
    ensures
        match r {
            Some(xs) => spec_field_strs(json_view(*v), key@) == Some(strs_view(xs@)),
            None => spec_field_strs(json_view(*v), key@) is None,
        },
{
    match field_arr(v, key) {
        Some(items) => decode_str_list(items),
        None => None,
    }
}

/// A record member that may be absent or null: `None` means the member is
/// malformed, `Some(None)` that it is absent or null.
pub open spec fn spec_field_opt_record<T: JsonCodec>(jd: JsonData, key: Seq<char>) -> Option<
    Option<T::Data>,
> {
    match data_field(jd, key) {
        None => Some(None),
        Some(JsonData::Null) => Some(None),
        Some(x) => match T::of_json(x) {
            Some(d) => Some(Some(d)),
            None => None,
        },
    }
}

pub fn field_opt_record<T: JsonCodec>(v: &JsonValue, key: &str) -> (r: Option<Option<T>>)
    ensures
        match r {
            Some(Some(x)) => spec_field_opt_record::<T>(json_view(*v), key@) == Some(
                Some(x.view_data()),
            ),
            Some(None) => spec_field_opt_record::<T>(json_view(*v), key@) == Some(None::<T::Data>),
            None => spec_field_opt_record::<T>(json_view(*v), key@) is None,
        },
{
    match get_field(v, key) {
        None => Some(None),
        Some(x) => match x {
            JsonValue::Null => Some(None),
            _ => match T::decode(x) {
                Some(d) => Some(Some(d)),
                None => None,
            },
        },
    }
}

/// A record-list member that may be absent or null, with the same
/// convention.
pub open spec fn spec_field_opt_list<T: JsonCodec>(jd: JsonData, key: Seq<char>) -> Option<
    Option<Seq<T::Data>>,
> {
    match data_field(jd, key) {
        None => Some(None),
        Some(JsonData::Null) => Some(None),
        Some(JsonData::Arr(items)) => match list_of_json::<T>(items) {
            Some(ds) => Some(Some(ds)),
            None => None,
        },
        Some(_) => None,
    }
}

pub fn field_opt_list<T: JsonCodec>(v: &JsonValue, key: &str) -> (r: Option<Option<Vec<T>>>)
    ensures
        match r {
            Some(Some(xs)) => spec_field_opt_list::<T>(json_view(*v), key@) == Some(
                Some(list_view(xs@)),
            ),
            Some(None) => spec_field_opt_list::<T>(json_view(*v), key@) == Some(
                None::<Seq<T::Data>>,
            ),
            None => spec_field_opt_list::<T>(json_view(*v), key@) is None,
        },
{
    match get_field(v, key) {
        None => Some(None),
        Some(x) => match x {
            JsonValue::Null => Some(None),
            JsonValue::Arr(items) => match decode_list::<T>(items) {
                Some(ds) => Some(Some(ds)),
                None => None,
            },
            _ => None,
        },
    }
}

/// Every element of an array that encodes a list of records decodes back
/// to the record it encodes.
pub proof fn lemma_list_round_trip<T: JsonCodec>(ds: Seq<T::Data>)
    ensures
        list_of_json::<T>(ds.map_values(|d: T::Data| T::to_json(d))) == Some(ds),
{
    let g = ds.map_values(|d: T::Data| T::to_json(d));
    assert forall|j: int| 0 <= j < g.len() implies T::of_json(#[trigger] g[j]) is Some by {
        T::round_trip(ds[j]);
    }
    let t = list_of_json::<T>(g)->0;
    assert forall|j: int| 0 <= j < g.len() implies t[j] == ds[j] by {
        T::round_trip(ds[j]);
    }
    assert(t =~= ds);
}

} // verus!
