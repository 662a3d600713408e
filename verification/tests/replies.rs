use postcode::reply::{find_refusal, receive, verdict_from_reply};
use postcode::{validate, Error, Method, Postcode, Request};

fn body(text: &str) -> Result<String, String> {
    Ok(text.to_string())
}

fn parsed(text: &str) -> serde_json::Value {
    serde_json::from_str(text).unwrap()
}

const WESTMINSTER: &str = r#"{"status":200,"result":{"postcode":"SW1W 0NY","quality":1,"eastings":528813,"northings":178953,"country":"England","nhs_ha":"London","longitude":-0.147421,"latitude":51.495373,"european_electoral_region":"London","primary_care_trust":"Westminster","region":"London","lsoa":"Westminster 023E","msoa":"Westminster 023","incode":"0NY","outcode":"SW1W","parliamentary_constituency":"Cities of London and Westminster","admin_district":"Westminster","parish":"Westminster, unparished area","admin_county":null,"admin_ward":"Knightsbridge and Belgravia","ced":null,"ccg":"NHS North West London","nuts":"Westminster","codes":{"admin_district":"E09000033","admin_county":"E99999999","admin_ward":"E05013798","parish":"E43000236","parliamentary_constituency":"E14000639","ccg":"E38000256","ccg_id":"W2U3Z","ced":"E99999999","nuts":"TLI32","lsoa":"E01004736","msoa":"E02000982","lau2":"E09000033"}}}"#;

const THREE: &str = r#"{"status":200,"result":[
    {"query":"PL8 1JN","result":{"postcode":"PL8 1JN","country":"England","latitude":50.325}},
    {"query":"SW4 6QT","result":{"postcode":"SW4 6QT","country":"England","latitude":51.46}},
    {"query":"OL4 2HJ","result":{"postcode":"OL4 2HJ","country":"England","latitude":53.54}}
]}"#;

#[test]
fn transport_failure_is_an_http_error() {
    let failed = || Err("connection refused".to_string());
    let expected = Error::Http("connection refused".to_string());
    assert_eq!(Postcode::from_code(failed()), Err(expected.clone()));
    assert_eq!(Postcode::random(failed()), Err(expected.clone()));
    assert_eq!(Postcode::from_coordinates(failed()), Err(expected.clone()));
    assert_eq!(Postcode::from_multi_lookup(failed()), Err(expected.clone()));
    assert_eq!(validate(failed()), Err(expected));
}

#[test]
fn body_that_is_no_json_is_a_parse_error_with_the_parser_message() {
    let expected = Error::Json("expected value at line 1 column 1".to_string());
    assert_eq!(Postcode::from_code(body("<html>")), Err(expected.clone()));
    assert_eq!(Postcode::random(body("<html>")), Err(expected.clone()));
    assert_eq!(Postcode::from_coordinates(body("<html>")), Err(expected.clone()));
    assert_eq!(Postcode::from_multi_lookup(body("<html>")), Err(expected.clone()));
    assert_eq!(validate(body("<html>")), Err(expected));
}

#[test]
fn truncated_body_is_a_parse_error() {
    assert_eq!(
        Postcode::from_code(body(r#"{"result":"#)),
        Err(Error::Json("EOF while parsing a value at line 1 column 10".to_string()))
    );
}

#[test]
fn receive_parses_the_body() {
    let reply = receive(body(r#"{"result": true}"#)).unwrap();
    assert_eq!(reply, parsed(r#"{"result":true}"#));
    assert_eq!(
        receive(Err("timed out".to_string())),
        Err(Error::Http("timed out".to_string()))
    );
}

#[test]
fn service_error_is_returned_word_for_word() {
    let refused = r#"{"status":404,"error":"Invalid postcode"}"#;
    let expected = Error::Other("Invalid postcode".to_string());
    assert_eq!(Postcode::from_code(body(refused)), Err(expected.clone()));
    assert_eq!(Postcode::random(body(refused)), Err(expected.clone()));
    assert_eq!(Postcode::from_coordinates(body(refused)), Err(expected.clone()));
    assert_eq!(Postcode::from_multi_lookup(body(refused)), Err(expected));
}

#[test]
fn service_error_wins_over_any_result() {
    let expected = Error::Other("Postcode not found".to_string());
    for result in [
        r#"{"postcode":"SW1W 0NY"}"#,
        r#"[{"postcode":"SW1W 0NY"}]"#,
        r#"[{"query":"x","result":{"postcode":"SW1W 0NY"}}]"#,
        "null",
        "true",
        "[]",
    ] {
        let text = format!(r#"{{"result":{},"error":"Postcode not found"}}"#, result);
        assert_eq!(Postcode::from_code(body(&text)), Err(expected.clone()));
        assert_eq!(Postcode::from_coordinates(body(&text)), Err(expected.clone()));
        assert_eq!(Postcode::from_multi_lookup(body(&text)), Err(expected.clone()));
    }
}

#[test]
fn service_error_keeps_quotes_and_escapes() {
    let refused = r#"{"error":"no \"such\" code\\"}"#;
    assert_eq!(
        Postcode::from_code(body(refused)),
        Err(Error::Other("no \"such\" code\\".to_string()))
    );
}

#[test]
fn error_member_that_is_no_string_is_not_a_refusal() {
    let p = Postcode::from_code(body(r#"{"error":404,"result":{"postcode":"SW1W 0NY"}}"#)).unwrap();
    assert_eq!(p.postcode, "SW1W 0NY");
    assert_eq!(find_refusal(&parsed(r#"{"error":null}"#)), None);
    assert_eq!(find_refusal(&parsed(r#"{"error":["x"]}"#)), None);
    assert_eq!(find_refusal(&parsed(r#"["error"]"#)), None);
    assert_eq!(find_refusal(&parsed(r#"{"error":"x"}"#)), Some("x".to_string()));
}

#[test]
fn single_lookup_reads_the_result() {
    let p = Postcode::from_code(body(WESTMINSTER)).unwrap();
    assert_eq!(p.postcode, "SW1W 0NY");
    assert_eq!(p.region, "London");
    assert_eq!(p.country, "England");
    assert_eq!(f64::from_bits(p.latitude.bits), 51.495373);
    assert_eq!(f64::from_bits(p.longitude.bits), -0.147421);
    assert_eq!(Postcode::random(body(WESTMINSTER)), Ok(p.clone()));
    assert_eq!(Postcode::from_reply(&parsed(WESTMINSTER)), Ok(p));
}

#[test]
fn single_lookup_without_result_gives_the_blank_record() {
    assert_eq!(Postcode::from_code(body(r#"{"status":200}"#)), Ok(Postcode::blank()));
    assert_eq!(Postcode::from_code(body(r#"{"result":null}"#)), Ok(Postcode::blank()));
    assert_eq!(Postcode::from_code(body("[]")), Ok(Postcode::blank()));
    assert_eq!(Postcode::random(body("7")), Ok(Postcode::blank()));
}

#[test]
fn bulk_lookup_keeps_the_order_of_the_reply() {
    let all = Postcode::from_multi_lookup(body(THREE)).unwrap();
    assert_eq!(all.len(), 3);
    assert_eq!(all[0].postcode, "PL8 1JN");
    assert_eq!(all[1].postcode, "SW4 6QT");
    assert_eq!(all[2].postcode, "OL4 2HJ");
    assert_eq!(f64::from_bits(all[0].latitude.bits), 50.325);
    assert_eq!(f64::from_bits(all[1].latitude.bits), 51.46);
    assert_eq!(f64::from_bits(all[2].latitude.bits), 53.54);
}

#[test]
fn bulk_lookup_of_three_codes() {
    let request = Request::bulk(&vec!["PL8 1JN", "SW4 6QT", "OL4 2HJ"]);
    assert_eq!(request.method, Method::Post);
    assert_eq!(
        request.body,
        Some(parsed(r#"{"postcodes":["PL8 1JN","SW4 6QT","OL4 2HJ"]}"#))
    );
    let all = Postcode::from_multi_lookup(body(THREE)).unwrap();
    let codes: Vec<&str> = all.iter().map(|p| p.postcode.as_str()).collect();
    assert_eq!(codes, vec!["PL8 1JN", "SW4 6QT", "OL4 2HJ"]);
}

#[test]
fn bulk_lookup_reads_each_entry_as_a_single_lookup_would() {
    let all = Postcode::each_from_reply(&parsed(THREE)).unwrap();
    let entries = parsed(THREE);
    for (i, p) in all.iter().enumerate() {
        let alone = Postcode::json(&entries["result"][i]["result"]).unwrap();
        assert_eq!(*p, alone);
    }
}

#[test]
fn bulk_lookup_of_nothing_gives_nothing() {
    assert_eq!(Postcode::from_multi_lookup(body(r#"{"result":[]}"#)), Ok(vec![]));
}

#[test]
fn bulk_lookup_fails_when_result_is_no_array() {
    let expected = Err(Error::Json(String::new()));
    assert_eq!(Postcode::from_multi_lookup(body(r#"{"status":200}"#)), expected);
    assert_eq!(Postcode::from_multi_lookup(body(r#"{"result":null}"#)), expected);
    assert_eq!(Postcode::from_multi_lookup(body(r#"{"result":{"postcode":"PL8 1JN"}}"#)), expected);
    assert_eq!(Postcode::from_multi_lookup(body("[]")), expected);
}

#[test]
fn bulk_lookup_fails_on_an_entry_without_a_record() {
    let expected = Err(Error::Json(String::new()));
    let null_entry = r#"{"result":[
        {"query":"PL8 1JN","result":{"postcode":"PL8 1JN"}},
        {"query":"XX0 0XX","result":null},
        {"query":"OL4 2HJ","result":{"postcode":"OL4 2HJ"}}
    ]}"#;
    assert_eq!(Postcode::from_multi_lookup(body(null_entry)), expected);
    let missing = r#"{"result":[{"query":"XX0 0XX"}]}"#;
    assert_eq!(Postcode::from_multi_lookup(body(missing)), expected);
    let no_object = r#"{"result":[{"result":{"postcode":"PL8 1JN"}}, 5]}"#;
    assert_eq!(Postcode::from_multi_lookup(body(no_object)), expected);
}

#[test]
fn bulk_entry_whose_record_is_no_object_is_blank() {
    let all = Postcode::from_multi_lookup(body(r#"{"result":[{"result":false}]}"#)).unwrap();
    assert_eq!(all, vec![Postcode::blank()]);
}

#[test]
fn coordinate_lookup_reads_the_first_match() {
    let two = r#"{"status":200,"result":[
        {"postcode":"WA4 6EF","latitude":53.3775,"distance":12.1},
        {"postcode":"WA4 6EG","latitude":53.3779,"distance":60.5}
    ]}"#;
    let p = Postcode::from_coordinates(body(two)).unwrap();
    assert_eq!(p.postcode, "WA4 6EF");
    assert_eq!(f64::from_bits(p.latitude.bits), 53.3775);
    assert_eq!(Postcode::first_from_reply(&parsed(two)), Ok(p));
}

#[test]
fn coordinate_lookup_fails_on_an_empty_result() {
    assert_eq!(
        Postcode::from_coordinates(body(r#"{"status":200,"result":[]}"#)),
        Err(Error::Json(String::new()))
    );
}

#[test]
fn coordinate_lookup_fails_when_result_is_no_array() {
    let expected = Err(Error::Json(String::new()));
    assert_eq!(Postcode::from_coordinates(body(r#"{"status":200,"result":null}"#)), expected);
    assert_eq!(Postcode::from_coordinates(body(r#"{"status":200}"#)), expected);
    assert_eq!(Postcode::from_coordinates(body(r#"{"result":{"postcode":"WA4 6EF"}}"#)), expected);
}

#[test]
fn validate_reads_the_boolean() {
    assert_eq!(validate(body(r#"{"result": true}"#)), Ok(true));
    assert_eq!(validate(body(r#"{"status":200,"result":false}"#)), Ok(false));
    assert_eq!(verdict_from_reply(&parsed(r#"{"result":true}"#)), Ok(true));
}

#[test]
fn validate_fails_on_a_result_that_is_no_boolean() {
    let expected = Err(Error::Json("result wasn't a bool".to_string()));
    assert_eq!(validate(body(r#"{"result": "true"}"#)), expected);
    assert_eq!(validate(body(r#"{"result": 1}"#)), expected);
    assert_eq!(validate(body(r#"{"result": null}"#)), expected);
    assert_eq!(validate(body(r#"{"status":200}"#)), expected);
    assert_eq!(validate(body("true")), expected);
}

#[test]
fn validate_does_not_look_at_the_error_member() {
    assert_eq!(validate(body(r#"{"error":"x","result":true}"#)), Ok(true));
    assert_eq!(
        validate(body(r#"{"error":"Invalid postcode"}"#)),
        Err(Error::Json("result wasn't a bool".to_string()))
    );
}

#[test]
fn same_body_read_twice_gives_equal_records() {
    let first = Postcode::from_code(body(WESTMINSTER)).unwrap();
    let second = Postcode::from_code(body(WESTMINSTER)).unwrap();
    assert_eq!(first, second);
    let all_first = Postcode::from_multi_lookup(body(THREE)).unwrap();
    let all_second = Postcode::from_multi_lookup(body(THREE)).unwrap();
    assert_eq!(all_first, all_second);
}
