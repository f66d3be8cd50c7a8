use bangumi_api::client::record_response;
use bangumi_api::json::{JsonCodec, JsonValue};
use bangumi_api::model::{
    BloodType, CollectionStats, Image, InfoBoxItem, SimpleImage, Stat, Tag,
};
use bangumi_api::person::{Person, PersonCareer, PersonType};
use bangumi_api::revision::{Creator, RevisionCommon};
use bangumi_api::user::{Avatar, UserGroup, UserPublic};

/// Renders a library JSON value as text, the way the transport would
/// serialize it before sending.
fn to_text(v: &JsonValue) -> String {
    convert(v).to_string()
}

fn convert(v: &JsonValue) -> serde_json::Value {
    match v {
        JsonValue::Null => serde_json::Value::Null,
        JsonValue::Bool(b) => serde_json::Value::Bool(*b),
        JsonValue::Int(i) => serde_json::Value::from(*i),
        JsonValue::Num(t) => {
            let n: f64 = t.parse().expect("numeric text");
            serde_json::Value::from(n)
        }
        JsonValue::Str(s) => serde_json::Value::String(s.clone()),
        JsonValue::Arr(items) => serde_json::Value::Array(items.iter().map(convert).collect()),
        JsonValue::Obj(fields) => serde_json::Value::Object(
            fields.iter().map(|(k, x)| (k.clone(), convert(x))).collect(),
        ),
    }
}

#[test]
fn stat_round_trips_through_real_json() {
    let s = Stat { comments: -3, collects: 99 };
    let text = to_text(&bangumi_api::model::encode_stat(&s));
    let decoded: Stat = record_response::<Stat>(200, &text).expect("stat should decode");
    assert_eq!(decoded, s);
}

#[test]
fn image_round_trips_through_real_json() {
    let img = Image {
        large: "L".to_string(),
        common: "C".to_string(),
        medium: "M".to_string(),
        small: "S".to_string(),
        grid: "G".to_string(),
    };
    let text = to_text(&bangumi_api::model::encode_image(&img));
    let decoded = record_response::<Image>(200, &text).expect("image should decode");
    assert_eq!(decoded.large, "L");
    assert_eq!(decoded.grid, "G");
}

#[test]
fn simple_image_decode_rejects_a_missing_member() {
    let v = JsonValue::Obj(vec![
        ("large".to_string(), JsonValue::Str("L".to_string())),
        ("medium".to_string(), JsonValue::Str("M".to_string())),
    ]);
    assert!(SimpleImage::decode(&v).is_none());
}

#[test]
fn tag_round_trips_through_real_json() {
    let t = Tag { name: "music".to_string(), count: 5, total_cont: 9 };
    let text = to_text(&bangumi_api::model::encode_tag(&t));
    let decoded = record_response::<Tag>(200, &text).expect("tag should decode");
    assert_eq!(decoded.name, "music");
    assert_eq!(decoded.count, 5);
    assert_eq!(decoded.total_cont, 9);
}

#[test]
fn collection_stats_round_trips_with_null_members() {
    let s = CollectionStats { wish: Some(1), collect: None, doing: Some(0), on_hold: None, dropped: Some(7) };
    let text = to_text(&bangumi_api::model::encode_collection_stats(&s));
    let decoded = record_response::<CollectionStats>(200, &text).expect("stats should decode");
    assert_eq!(decoded, s);
}

#[test]
fn infobox_entry_keeps_its_free_form_value() {
    let item = InfoBoxItem {
        key: "aliases".to_string(),
        value: JsonValue::Arr(vec![
            JsonValue::Str("a".to_string()),
            JsonValue::Int(4),
        ]),
    };
    let text = to_text(&bangumi_api::model::encode_infobox_item(&item));
    let decoded = record_response::<InfoBoxItem>(200, &text).expect("entry should decode");
    assert_eq!(decoded.key, "aliases");
    match decoded.value {
        JsonValue::Arr(items) => {
            assert_eq!(items.len(), 2);
            assert_eq!(items[0], JsonValue::Str("a".to_string()));
            assert_eq!(items[1], JsonValue::Int(4));
        }
        other => panic!("expected an array, got {:?}", other),
    }
}

#[test]
fn blood_type_codes_follow_the_wire_coding() {
    assert_eq!(bangumi_api::model::blood_type_from_code(1), Some(BloodType::A));
    assert_eq!(bangumi_api::model::blood_type_from_code(2), Some(BloodType::B));
    assert_eq!(bangumi_api::model::blood_type_from_code(3), Some(BloodType::AB));
    assert_eq!(bangumi_api::model::blood_type_from_code(4), Some(BloodType::O));
    assert_eq!(bangumi_api::model::blood_type_from_code(5), None);
}

#[test]
fn person_round_trips_through_real_json() {
    let p = Person {
        id: 9,
        name: "someone".to_string(),
        kind: PersonType::Individual,
        career: vec![PersonCareer::Seiyu, PersonCareer::Artist],
        images: SimpleImage {
            large: "l".to_string(),
            medium: "m".to_string(),
            small: "s".to_string(),
            grid: "g".to_string(),
        },
        short_summary: "short".to_string(),
        locked: false,
    };
    let text = to_text(&bangumi_api::person::encode_person(&p));
    let decoded = record_response::<Person>(200, &text).expect("person should decode");
    assert_eq!(decoded.id, 9);
    assert_eq!(decoded.kind, PersonType::Individual);
    assert_eq!(decoded.career, vec![PersonCareer::Seiyu, PersonCareer::Artist]);
    assert_eq!(decoded.images.medium, "m");
    assert!(!decoded.locked);
}

#[test]
fn unknown_career_word_is_rejected() {
    let v = JsonValue::Str("astronaut".to_string());
    assert!(PersonCareer::decode(&v).is_none());
}

#[test]
fn unknown_kind_code_is_rejected() {
    assert_eq!(bangumi_api::subject::subject_type_from_code(5), None);
    assert_eq!(bangumi_api::person::person_type_from_code(0), None);
    assert_eq!(bangumi_api::character::character_type_from_code(9), None);
    assert_eq!(bangumi_api::episode::episode_type_from_code(4), None);
    assert_eq!(bangumi_api::collection::collection_type_from_code(6), None);
    assert_eq!(bangumi_api::user::user_group_from_code(6), None);
}

#[test]
fn creator_and_revision_head_decode() {
    let body = "{\"id\":123,\"type\":1,\"creator\":{\"username\":\"u\",\"nickname\":\"n\"},\
        \"summary\":\"first\",\"created_at\":\"2020-01-01T00:00:00+08:00\"}";
    let r = record_response::<RevisionCommon>(200, body).expect("revision head should decode");
    assert_eq!(r.id, 123);
    assert_eq!(r.kind, 1);
    let c = r.creator.expect("creator present");
    assert_eq!(c.username, "u");
    assert_eq!(c.nickname, "n");
}

#[test]
fn revision_head_accepts_an_absent_creator() {
    let body = "{\"id\":5,\"type\":2,\"creator\":null,\"summary\":\"\",\"created_at\":\"t\"}";
    let r = record_response::<RevisionCommon>(200, body).expect("revision head should decode");
    assert!(r.creator.is_none());
}

#[test]
fn creator_encode_matches_the_wire_shape() {
    let c = Creator { username: "u".to_string(), nickname: "n".to_string() };
    let text = to_text(&c.encode());
    assert_eq!(text, "{\"nickname\":\"n\",\"username\":\"u\"}");
}

#[test]
fn user_record_decodes_with_its_group_code() {
    let body = "{\"id\":1,\"url\":\"https://bgm.tv/user/sai\",\"username\":\"sai\",\
        \"nickname\":\"Sai\",\"user_group\":10,\
        \"avatar\":{\"large\":\"l\",\"medium\":\"m\",\"small\":\"s\"},\"sign\":\"hi\"}";
    let u = record_response::<UserPublic>(200, body).expect("user should decode");
    assert_eq!(u.username, "sai");
    assert_eq!(u.user_group, UserGroup::User);
    assert_eq!(u.avatar.small, "s");
}

#[test]
fn avatar_round_trips_through_real_json() {
    let a = Avatar { large: "l".to_string(), medium: "m".to_string(), small: "s".to_string() };
    let text = to_text(&a.encode());
    let decoded = record_response::<Avatar>(200, &text).expect("avatar should decode");
    assert_eq!(decoded.large, "l");
    assert_eq!(decoded.medium, "m");
    assert_eq!(decoded.small, "s");
}

#[test]
fn episode_keeps_fractional_numbers_as_text() {
    let body = "{\"id\":1,\"type\":1,\"name\":\"sp\",\"name_cn\":\"\",\"sort\":1.5,\
        \"ep\":1.5,\"airdate\":\"2008-03-22\",\"comment\":4,\"duration\":\"24m\",\
        \"desc\":\"\",\"disc\":0,\"subject_id\":253,\"duration_seconds\":1440}";
    let e = record_response::<bangumi_api::episode::Episode>(200, body)
        .expect("episode should decode");
    assert_eq!(e.sort, "1.5");
    assert_eq!(e.ep, "1.5");
    assert_eq!(e.kind, bangumi_api::episode::EpisodeType::SP);
}

#[test]
fn collection_update_payload_always_names_every_member() {
    let p = bangumi_api::collection::CollectionSubjectUpdate {
        kind: Some(bangumi_api::collection::CollectionType::Doing),
        rate: Some(8),
        ep_status: None,
        vol_status: None,
        comment: Some("fun".to_string()),
        private: Some(false),
        tags: Some(vec!["tag1".to_string()]),
    };
    let text = to_text(&bangumi_api::collection::encode_collection_subject_update(&p));
    let parsed: serde_json::Value = serde_json::from_str(&text).unwrap();
    assert_eq!(parsed["type"], serde_json::Value::from(3));
    assert_eq!(parsed["rate"], serde_json::Value::from(8));
    assert_eq!(parsed["ep_status"], serde_json::Value::Null);
    assert_eq!(parsed["comment"], serde_json::Value::from("fun"));
    assert_eq!(parsed["tags"][0], serde_json::Value::from("tag1"));
}

#[test]
fn calendar_day_decodes_weekday_and_items() {
    let body = "[{\"weekday\":{\"en\":\"Mon\",\"cn\":\"m\",\"ja\":\"getsu\",\"id\":1},\
        \"items\":[]}]";
    let days = bangumi_api::client::list_response::<bangumi_api::subject::DailyCalendarItem>(
        200, body,
    )
    .expect("calendar should decode");
    assert_eq!(days.len(), 1);
    assert_eq!(days[0].weekday.en, "Mon");
    assert_eq!(days[0].weekday.id, 1);
    assert!(days[0].items.is_empty());
}

#[test]
fn character_decodes_with_optional_birth_members_absent() {
    let body = "{\"id\":32,\"name\":\"c\",\"type\":1,\
        \"images\":{\"large\":\"l\",\"medium\":\"m\",\"small\":\"s\",\"grid\":\"g\"},\
        \"summary\":\"\",\"locked\":false,\"infobox\":[],\"gender\":\"female\",\
        \"blood_type\":null,\"birth_year\":2000,\"birth_mon\":null,\
        \"stat\":{\"comments\":1,\"collects\":2},\"nsfw\":false}";
    let c = record_response::<bangumi_api::character::Character>(200, body)
        .expect("character should decode");
    assert_eq!(c.id, 32);
    assert_eq!(c.kind, bangumi_api::character::CharacterType::Character);
    assert_eq!(c.blood_type, None);
    assert_eq!(c.birth_year, Some(2000));
    assert_eq!(c.birth_mon, None);
    assert_eq!(c.birth_day, None);
    assert_eq!(c.stat, Stat { comments: 1, collects: 2 });
}

#[test]
fn index_decodes_with_its_creator() {
    let body = "{\"id\":5,\"title\":\"t\",\"desc\":\"d\",\"total\":3,\
        \"stat\":{\"comments\":0,\"collects\":1},\"created_at\":\"a\",\"updated_at\":\"b\",\
        \"creator\":{\"username\":\"u\",\"nickname\":\"n\"},\"ban\":false,\"nsfw\":false}";
    let i = record_response::<bangumi_api::indice::Index>(200, body).expect("index should decode");
    assert_eq!(i.id, 5);
    assert_eq!(i.total, Some(3));
    assert_eq!(i.creator.username, "u");
    assert!(!i.ban);
}

#[test]
fn out_of_range_counter_is_rejected() {
    let v = JsonValue::Obj(vec![
        ("comments".to_string(), JsonValue::Int(1)),
        ("collects".to_string(), JsonValue::Int(9999999999)),
    ]);
    assert!(Stat::decode(&v).is_none());
}

#[test]
fn subject_revision_decodes_its_typed_payload() {
    let body = "{\"id\":9,\"type\":1,\"creator\":null,\"summary\":\"s\",\"created_at\":\"t\",\
        \"data\":{\"field_eps\":22,\"field_infobox\":\"ib\",\"field_summary\":\"fs\",\
        \"name\":\"n\",\"name_cn\":\"cn\",\"platform\":1,\"subject_id\":8,\"type\":2,\
        \"type_id\":3,\"vote_field\":\"v\"}}";
    let r = bangumi_api::revision::revision_subject_response(200, body)
        .expect("revision should decode");
    let data = r.data.expect("payload present");
    assert_eq!(data.field_eps, 22);
    assert_eq!(data.subject_id, 8);
    assert_eq!(data.vote_field, "v");
}

#[test]
fn person_revision_keeps_its_payload_and_items_decode() {
    let body = "{\"id\":7,\"type\":1,\"creator\":null,\"summary\":\"\",\"created_at\":\"t\",\
        \"data\":{\"entry\":{\"prsn_infobox\":\"ib\",\"prsn_summary\":\"ps\",\
        \"profession\":{\"producer\":null,\"mangaka\":null,\"artist\":\"yes\",\"seiyu\":null,\
        \"writer\":null,\"illustrator\":null,\"actor\":null},\
        \"extra\":{\"img\":\"e.jpg\"},\"prsn_name\":\"pn\"}}}";
    let r = bangumi_api::revision::revision_person_response(200, body)
        .expect("revision should decode");
    let data = r.data.expect("payload present");
    let entry = bangumi_api::json::get_field(&data, "entry").expect("entry present");
    let item = bangumi_api::revision::RevisionPersonDataItem::decode(entry)
        .expect("entry should decode");
    assert_eq!(item.prsn_name, "pn");
    assert_eq!(item.profession.artist, Some("yes".to_string()));
    assert_eq!(item.extra.img, Some("e.jpg".to_string()));
}
