use bangumi_api::client::{
    failure_of_response, is_success_status, paged_response, record_response, unit_response,
    BangumiClient, HttpMethod,
};
use bangumi_api::error::ApiError;
use bangumi_api::json::JsonValue;
use bangumi_api::model::{decode_paged, Tag};
use bangumi_api::subject::{Subject, SubjectType};

fn client_with_token() -> BangumiClient {
    BangumiClient::new(
        "https://api.example.test".to_string(),
        Some("ua/1.0".to_string()),
        Some("sometoken".to_string()),
    )
}

fn client_without_token() -> BangumiClient {
    BangumiClient::new("https://api.example.test".to_string(), Some("ua/1.0".to_string()), None)
}

#[test]
fn no_token_attaches_no_authorization_header() {
    let c = client_without_token();
    let r = c.request_builder(HttpMethod::Get, "https://api.example.test/v0/me");
    assert!(r.headers.iter().all(|(k, _)| k != "Authorization"));
    assert_eq!(r.headers.len(), 1);
    assert_eq!(r.headers[0].0, "User-Agent");
    assert_eq!(r.headers[0].1, "ua/1.0");
}

#[test]
fn token_attaches_bearer_authorization_header() {
    let c = client_with_token();
    let r = c.request_builder(HttpMethod::Post, "https://api.example.test/v0/me");
    let auth: Vec<_> = r.headers.iter().filter(|(k, _)| k == "Authorization").collect();
    assert_eq!(auth.len(), 1);
    assert_eq!(auth[0].1, "Bearer sometoken");
    assert_eq!(r.method, HttpMethod::Post);
    assert!(r.query.is_empty());
    assert!(r.body.is_none());
}

#[test]
fn success_statuses_are_the_2xx_range() {
    assert!(is_success_status(200));
    assert!(is_success_status(204));
    assert!(is_success_status(299));
    assert!(!is_success_status(199));
    assert!(!is_success_status(300));
    assert!(!is_success_status(404));
    assert!(!is_success_status(500));
}

const ERROR_BODY: &str = "{\"title\":\"Not Found\",\"description\":\"resource can't be found in the database or has been removed\",\"details\":{\"path\":\"/v0/subjects/999999999\",\"method\":\"GET\"}}";

#[test]
fn not_found_with_error_body_yields_typed_server_error() {
    match unit_response(404, ERROR_BODY) {
        Err(ApiError::Server(status, e)) => {
            assert_eq!(status, 404);
            assert_eq!(e.title, "Not Found");
            assert_eq!(e.details.path, "/v0/subjects/999999999");
            assert_eq!(e.details.method, "GET");
            assert_eq!(e.details.error, None);
            assert_eq!(e.request_id, None);
        }
        other => panic!("expected a server error, got {:?}", other),
    }
}

#[test]
fn failure_with_unparseable_body_keeps_status_and_body() {
    match failure_of_response(502, "<html>bad gateway</html>") {
        ApiError::Decode(status, body) => {
            assert_eq!(status, 502);
            assert_eq!(body, "<html>bad gateway</html>");
        }
        other => panic!("expected a decode error, got {:?}", other),
    }
}

#[test]
fn failure_with_wrong_schema_is_a_decode_error() {
    match failure_of_response(400, "{\"unexpected\":true}") {
        ApiError::Decode(status, body) => {
            assert_eq!(status, 400);
            assert_eq!(body, "{\"unexpected\":true}");
        }
        other => panic!("expected a decode error, got {:?}", other),
    }
}

#[test]
fn success_status_with_malformed_body_is_a_decode_error_not_a_panic() {
    match record_response::<Subject>(200, "{\"id\": oops") {
        Err(ApiError::Decode(status, body)) => {
            assert_eq!(status, 200);
            assert_eq!(body, "{\"id\": oops");
        }
        other => panic!("expected a decode error, got {:?}", other),
    }
}

#[test]
fn success_status_with_wrong_shape_is_a_decode_error() {
    match record_response::<Subject>(200, "[1,2,3]") {
        Err(ApiError::Decode(200, _)) => {}
        other => panic!("expected a decode error, got {:?}", other),
    }
}

fn full_subject_body() -> String {
    let mut s = String::new();
    s.push_str("{\"id\":1027,\"type\":2,\"name\":\"CLANNAD\",");
    s.push_str("\"name_cn\":\"CLANNAD\",\"summary\":\"a visual novel adaptation\",");
    s.push_str("\"series\":false,\"nsfw\":false,\"locked\":false,\"date\":\"2007-10-04\",");
    s.push_str("\"platform\":\"TV\",");
    s.push_str(
        "\"images\":{\"large\":\"l\",\"common\":\"c\",\"medium\":\"m\",\"small\":\"s\",\"grid\":\"g\"},",
    );
    s.push_str("\"infobox\":[{\"key\":\"director\",\"value\":\"Tatsuya Ishihara\"}],");
    s.push_str("\"volumes\":0,\"eps\":22,");
    s.push_str("\"rating\":{\"rank\":150,\"total\":12000,\"count\":{\"1\":10,\"2\":20,\"3\":30,\"4\":40,\"5\":50,\"6\":60,\"7\":70,\"8\":80,\"9\":90,\"10\":100},\"score\":8.5},");
    s.push_str("\"collection\":{\"wish\":1,\"collect\":2,\"doing\":3,\"on_hold\":4,\"dropped\":5},");
    s.push_str("\"meta_tags\":[\"anime\"],");
    s.push_str("\"tags\":[{\"name\":\"key\",\"count\":42,\"total_cont\":43}]}");
    s
}

#[test]
fn subject_response_decodes_a_known_subject() {
    let body = full_subject_body();
    let subject = record_response::<Subject>(200, &body).expect("subject should decode");
    assert_eq!(subject.id, 1027);
    assert_eq!(subject.kind, SubjectType::Anime);
    assert_eq!(subject.name, "CLANNAD");
    assert_eq!(subject.date, Some("2007-10-04".to_string()));
    assert_eq!(subject.eps, 22);
    assert_eq!(subject.rating.score, "8.5");
    assert_eq!(subject.rating.count.param_10, 100);
    assert_eq!(subject.collection.wish, Some(1));
    assert_eq!(subject.meta_tags, vec!["anime".to_string()]);
    assert_eq!(subject.tags.len(), 1);
    assert_eq!(subject.tags[0].name, "key");
    assert_eq!(subject.infobox.len(), 1);
    assert_eq!(subject.infobox[0].key, "director");
    match &subject.infobox[0].value {
        JsonValue::Str(s) => assert_eq!(s, "Tatsuya Ishihara"),
        other => panic!("expected a text value, got {:?}", other),
    }
}

#[test]
fn subject_response_keeps_server_error_for_missing_subject() {
    match record_response::<Subject>(404, ERROR_BODY) {
        Err(ApiError::Server(404, e)) => {
            assert_eq!(e.details.path, "/v0/subjects/999999999");
            assert_eq!(e.details.method, "GET");
        }
        other => panic!("expected a server error, got {:?}", other),
    }
}

#[test]
fn pagination_envelope_decodes_counters_and_items() {
    let body = "{\"total\":42,\"limit\":10,\"offset\":0,\"data\":[\
        {\"name\":\"a\",\"count\":1,\"total_cont\":2},\
        {\"name\":\"b\",\"count\":3,\"total_cont\":4},\
        {\"name\":\"c\",\"count\":5,\"total_cont\":6}]}";
    let page = paged_response::<Tag>(200, body).expect("envelope should decode");
    assert_eq!(page.total, 42);
    assert_eq!(page.limit, 10);
    assert_eq!(page.offset, 0);
    let items = page.items();
    assert_eq!(items.len(), 3);
    assert_eq!(items[0].name, "a");
    assert_eq!(items[2].count, 5);
}

#[test]
fn pagination_envelope_with_absent_items_collapses_to_empty() {
    let v = JsonValue::Obj(vec![
        ("total".to_string(), JsonValue::Int(7)),
        ("limit".to_string(), JsonValue::Int(10)),
        ("offset".to_string(), JsonValue::Int(0)),
    ]);
    let page = decode_paged(&v).expect("envelope should decode");
    assert_eq!(page.total, 7);
    assert!(page.data.is_none());
    assert_eq!(page.items().len(), 0);
}

#[test]
fn pagination_envelope_with_null_items_collapses_to_empty() {
    let body = "{\"total\":0,\"limit\":30,\"offset\":0,\"data\":null}";
    let page = paged_response::<Tag>(200, body).expect("envelope should decode");
    assert_eq!(page.limit, 30);
    assert!(page.data.is_none());
    assert!(page.items().is_empty());
}

#[test]
fn get_field_finds_the_first_binding_by_name() {
    let v = JsonValue::Obj(vec![
        ("alpha".to_string(), JsonValue::Int(1)),
        ("beta".to_string(), JsonValue::Int(2)),
    ]);
    match bangumi_api::json::get_field(&v, "beta") {
        Some(JsonValue::Int(i)) => assert_eq!(*i, 2),
        other => panic!("expected the second member, got {:?}", other),
    }
    assert!(bangumi_api::json::get_field(&v, "gamma").is_none());
}
