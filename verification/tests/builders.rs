use bangumi_api::client::{BangumiClient, HttpMethod};
use bangumi_api::episode::EpisodeType;
use bangumi_api::json::JsonValue;
use bangumi_api::model::ImageType;
use bangumi_api::user::AvatarType;
use bangumi_api::subject::{
    SubjectAnimeCategory, SubjectBrowseSort, SubjectCategory, SubjectSearch, SubjectSearchSort,
    SubjectType,
};
use bangumi_api::text::{bool_string, i64_string, u32_string, u64_string};

fn client() -> BangumiClient {
    BangumiClient::new("https://api.bgm.tv".to_string(), None, None)
}

#[test]
fn decimal_text_of_integers() {
    assert_eq!(u32_string(0), "0");
    assert_eq!(u32_string(7), "7");
    assert_eq!(u32_string(1027), "1027");
    assert_eq!(u32_string(4294967295), "4294967295");
    assert_eq!(u64_string(18446744073709551615), "18446744073709551615");
    assert_eq!(i64_string(-42), "-42");
    assert_eq!(i64_string(-9223372036854775808), "-9223372036854775808");
    assert_eq!(i64_string(9000), "9000");
    assert_eq!(bool_string(true), "true");
    assert_eq!(bool_string(false), "false");
}

#[test]
fn get_subject_request_builds_the_documented_url() {
    let r = client().get_subject_request(1027);
    assert_eq!(r.method, HttpMethod::Get);
    assert_eq!(r.url, "https://api.bgm.tv/v0/subjects/1027");
    assert!(r.query.is_empty());
    assert!(r.body.is_none());
}

#[test]
fn absent_optional_parameters_are_omitted_entirely() {
    let r = client().get_subjects_request(
        SubjectType::Anime,
        None,
        None,
        None,
        None,
        None,
        None,
        None,
        None,
    );
    assert_eq!(r.url, "https://api.bgm.tv/v0/subjects");
    assert_eq!(r.query, vec![("type".to_string(), "2".to_string())]);
}

#[test]
fn supplied_optional_parameters_are_sent_exactly() {
    let r = client().get_subjects_request(
        SubjectType::Anime,
        Some(SubjectCategory::Anime(SubjectAnimeCategory::Tv)),
        Some(true),
        Some("TV"),
        Some(SubjectBrowseSort::Rank),
        Some(2023),
        Some(4),
        Some(10),
        Some(0),
    );
    let expected: Vec<(String, String)> = vec![
        ("type".to_string(), "2".to_string()),
        ("cat".to_string(), "1".to_string()),
        ("series".to_string(), "true".to_string()),
        ("platform".to_string(), "TV".to_string()),
        ("sort".to_string(), "rank".to_string()),
        ("year".to_string(), "2023".to_string()),
        ("month".to_string(), "4".to_string()),
        ("limit".to_string(), "10".to_string()),
        ("offset".to_string(), "0".to_string()),
    ];
    assert_eq!(r.query, expected);
}

#[test]
fn search_subjects_request_carries_paging_and_payload() {
    let payload = SubjectSearch {
        keyword: "eva".to_string(),
        sort: Some(SubjectSearchSort::Rank),
        filter: None,
    };
    let r = client().search_subjects_request(Some(10), Some(0), Some(payload));
    assert_eq!(r.method, HttpMethod::Post);
    assert_eq!(r.url, "https://api.bgm.tv/v0/search/subjects");
    assert_eq!(
        r.query,
        vec![
            ("limit".to_string(), "10".to_string()),
            ("offset".to_string(), "0".to_string()),
        ]
    );
    match r.body {
        Some(JsonValue::Obj(fields)) => {
            assert_eq!(fields[0].0, "keyword");
            assert_eq!(fields[0].1, JsonValue::Str("eva".to_string()));
            assert_eq!(fields[1].0, "sort");
            assert_eq!(fields[1].1, JsonValue::Str("rank".to_string()));
            assert_eq!(fields.len(), 2);
        }
        other => panic!("expected an object body, got {:?}", other),
    }
}

#[test]
fn absent_search_payload_is_sent_as_null() {
    let r = client().search_subjects_request(None, None, None);
    assert!(r.query.is_empty());
    assert_eq!(r.body, Some(JsonValue::Null));
}

#[test]
fn image_request_carries_the_size_word() {
    let r = client().get_subject_image_request(8, ImageType::Large);
    assert_eq!(r.url, "https://api.bgm.tv/v0/subjects/8/image");
    assert_eq!(r.query, vec![("type".to_string(), "large".to_string())]);
}

#[test]
fn episode_list_request_always_names_its_subject() {
    let r = client().get_episodes_request(253, Some(EpisodeType::SP), None, Some(40));
    assert_eq!(r.url, "https://api.bgm.tv/v0/episodes");
    assert_eq!(
        r.query,
        vec![
            ("subject_id".to_string(), "253".to_string()),
            ("type".to_string(), "1".to_string()),
            ("offset".to_string(), "40".to_string()),
        ]
    );
}

#[test]
fn collection_requests_interpolate_user_and_subject() {
    let c = client();
    let r = c.get_collection_subject_request("sai", 8);
    assert_eq!(r.url, "https://api.bgm.tv/v0/users/sai/collections/8");
    let r = c.get_collection_episode_request(1027);
    assert_eq!(r.url, "https://api.bgm.tv/v0/users/-/collections/-/episodes/1027");
    let r = c.get_collection_characters_request("sai");
    assert_eq!(r.url, "https://api.bgm.tv/v0/users/sai/collections/-/characters");
}

#[test]
fn collect_requests_differ_only_in_method() {
    let c = client();
    let add = c.collect_character_request(32);
    let remove = c.uncollect_character_request(32);
    assert_eq!(add.url, remove.url);
    assert_eq!(add.url, "https://api.bgm.tv/v0/characters/32/collect");
    assert_eq!(add.method, HttpMethod::Post);
    assert_eq!(remove.method, HttpMethod::Delete);
}

#[test]
fn revision_requests_query_by_their_id_kind() {
    let c = client();
    let r = c.get_revision_persons_request(9, Some(30), None);
    assert_eq!(r.url, "https://api.bgm.tv/v0/revisions/persons");
    assert_eq!(
        r.query,
        vec![
            ("person_id".to_string(), "9".to_string()),
            ("limit".to_string(), "30".to_string()),
        ]
    );
    let r = c.get_revision_subject_request(665556);
    assert_eq!(r.url, "https://api.bgm.tv/v0/revisions/subjects/665556");
}

#[test]
fn index_requests_cover_the_full_path_family() {
    let c = client();
    assert_eq!(c.add_index_request().url, "https://api.bgm.tv/v0/indices");
    assert_eq!(c.get_index_request(5).url, "https://api.bgm.tv/v0/indices/5");
    assert_eq!(
        c.delete_index_subject_request(5, 8).url,
        "https://api.bgm.tv/v0/indices/5/subjects/8"
    );
    assert_eq!(c.collect_index_request(5).url, "https://api.bgm.tv/v0/indices/5/collect");
}

#[test]
fn user_requests_interpolate_the_username() {
    let c = client();
    assert_eq!(c.get_user_request("sai").url, "https://api.bgm.tv/v0/users/sai");
    assert_eq!(c.get_me_request().url, "https://api.bgm.tv/v0/me");
    let r = c.get_user_avatar_request("sai", AvatarType::Large);
    assert_eq!(r.url, "https://api.bgm.tv/v0/users/sai/avatar");
    assert_eq!(r.query, vec![("type".to_string(), "large".to_string())]);
}
