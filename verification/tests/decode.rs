use ip_api::body::{collect_body, decode};
use ip_api::failure::{Failure, Stage};
use ip_api::response::{project, Coordinates, NameAndCode, Response};
use serde_json::Value;

fn some(text: &str) -> Option<String> {
    Some(text.to_owned())
}

fn pair(name: &str, code: &str) -> Option<NameAndCode> {
    Some(NameAndCode { name: name.to_owned(), code: code.to_owned() })
}

fn place(latitude: f64, longitude: f64) -> Option<Coordinates> {
    Some(Coordinates { latitude_bits: latitude.to_bits(), longitude_bits: longitude.to_bits() })
}

fn decoded(body: &str) -> Response {
    decode(body.as_bytes().to_vec()).unwrap()
}

const COMPLETE: &str = "{\"as\":\"AS15169 Google LLC\",\"city\":\"Mountain View\",\
    \"country\":\"United States\",\"countryCode\":\"US\",\"isp\":\"Google\",\
    \"lat\":37.4229,\"lon\":-122.085,\"mobile\":true,\"org\":\"Google Cloud\",\
    \"proxy\":true,\"query\":\"8.8.8.8\",\"region\":\"CA\",\"regionName\":\"California\",\
    \"reverse\":\"dns.google\",\"status\":\"success\",\"timezone\":\"America/Los_Angeles\",\
    \"zip\":\"94043\"}";

#[test]
fn it_works() {
    let expected = Response {
        query: "8.8.8.8".to_owned(),
        country: pair("United States", "US"),
        region: pair("California", "CA"),
        city: some("Mountain View"),
        zip: some(""),
        location: place(37.4229, -122.085),
        timezone: some("America/Los_Angeles"),
        isp: some("Google"),
        organization: some("Google"),
        autonomous_system: some("AS15169 Google LLC"),
        reverse: None,
        mobile: false,
        proxy: false,
    };
    let body = "{\"as\":\"AS15169 Google LLC\",\"city\":\"Mountain View\",\
        \"country\":\"United States\",\"countryCode\":\"US\",\"isp\":\"Google\",\
        \"lat\":37.4229,\"lon\":-122.085,\"org\":\"Google\",\"query\":\"8.8.8.8\",\
        \"region\":\"CA\",\"regionName\":\"California\",\"status\":\"success\",\
        \"timezone\":\"America/Los_Angeles\",\"zip\":\"\"}";
    let result = decoded(body);
    assert_eq!(result, expected);
    let location = result.location.unwrap();
    assert_eq!(f64::from_bits(location.latitude_bits) as f32, 37.4229f32);
    assert_eq!(f64::from_bits(location.longitude_bits) as f32, -122.085f32);
}

#[test]
fn end_to_end_scenario() {
    let body = "{\"query\":\"8.8.8.8\",\"country\":\"United States\",\"countryCode\":\"US\",\
        \"city\":\"Mountain View\",\"lat\":37.386,\"lon\":-122.0838,\"mobile\":false,\
        \"proxy\":false}";
    let result = decoded(body);
    assert_eq!(result.query, "8.8.8.8");
    assert_eq!(result.country, pair("United States", "US"));
    assert_eq!(result.city, some("Mountain View"));
    assert_eq!(result.location, place(37.386, -122.0838));
    let location = result.location.unwrap();
    assert_eq!(f64::from_bits(location.latitude_bits) as f32, 37.386f32);
    assert_eq!(f64::from_bits(location.longitude_bits) as f32, -122.0838f32);
    assert_eq!(result.region, None);
    assert!(!result.mobile);
    assert!(!result.proxy);
    assert_eq!(result.zip, None);
    assert_eq!(result.timezone, None);
    assert_eq!(result.isp, None);
    assert_eq!(result.organization, None);
    assert_eq!(result.autonomous_system, None);
    assert_eq!(result.reverse, None);
}

#[test]
fn complete_document_gives_every_field() {
    let expected = Response {
        query: "8.8.8.8".to_owned(),
        country: pair("United States", "US"),
        region: pair("California", "CA"),
        city: some("Mountain View"),
        zip: some("94043"),
        location: place(37.4229, -122.085),
        timezone: some("America/Los_Angeles"),
        isp: some("Google"),
        organization: some("Google Cloud"),
        autonomous_system: some("AS15169 Google LLC"),
        reverse: some("dns.google"),
        mobile: true,
        proxy: true,
    };
    assert_eq!(decoded(COMPLETE), expected);
}

#[test]
fn country_without_code_is_absent() {
    let result = decoded("{\"query\":\"1.1.1.1\",\"country\":\"Australia\"}");
    assert_eq!(result.country, None);
}

#[test]
fn code_without_country_is_absent() {
    let result = decoded("{\"query\":\"1.1.1.1\",\"countryCode\":\"AU\"}");
    assert_eq!(result.country, None);
}

#[test]
fn region_reads_name_and_code_from_its_own_keys() {
    let result = decoded("{\"query\":\"1.1.1.1\",\"regionName\":\"Queensland\",\"region\":\"QLD\"}");
    assert_eq!(result.region, pair("Queensland", "QLD"));
    assert_eq!(result.country, None);
}

#[test]
fn empty_half_makes_the_pair_absent() {
    let result = decoded(
        "{\"query\":\"10.0.0.1\",\"country\":\"\",\"countryCode\":\"XX\",\
         \"regionName\":\"Somewhere\",\"region\":\"\"}",
    );
    assert_eq!(result.country, None);
    assert_eq!(result.region, None);
}

#[test]
fn empty_string_field_is_kept() {
    let result = decoded("{\"query\":\"10.0.0.1\",\"zip\":\"\",\"city\":\"\"}");
    assert_eq!(result.zip, some(""));
    assert_eq!(result.city, some(""));
}

#[test]
fn absent_flags_read_false() {
    let result = decoded("{\"query\":\"1.1.1.1\"}");
    assert!(!result.mobile);
    assert!(!result.proxy);
}

#[test]
fn flags_of_another_kind_read_false() {
    let result = decoded("{\"query\":\"1.1.1.1\",\"mobile\":\"true\",\"proxy\":1}");
    assert!(!result.mobile);
    assert!(!result.proxy);
}

#[test]
fn flags_are_read_each_from_its_key() {
    let result = decoded("{\"query\":\"1.1.1.1\",\"mobile\":true,\"proxy\":false}");
    assert!(result.mobile);
    assert!(!result.proxy);
    let result = decoded("{\"query\":\"1.1.1.1\",\"mobile\":false,\"proxy\":true}");
    assert!(!result.mobile);
    assert!(result.proxy);
}

#[test]
fn textual_latitude_gives_no_location() {
    let result = decoded("{\"query\":\"1.1.1.1\",\"lat\":\"37.386\",\"lon\":-122.0838}");
    assert_eq!(result.location, None);
}

#[test]
fn lone_coordinate_gives_no_location() {
    assert_eq!(decoded("{\"query\":\"1.1.1.1\",\"lat\":1.5}").location, None);
    assert_eq!(decoded("{\"query\":\"1.1.1.1\",\"lon\":1.5}").location, None);
}

#[test]
fn whole_numbers_are_coordinates_too() {
    let result = decoded("{\"query\":\"1.1.1.1\",\"lat\":-33,\"lon\":151}");
    assert_eq!(result.location, place(-33.0, 151.0));
}

#[test]
fn null_and_other_kinds_are_no_strings() {
    let result = decoded("{\"query\":\"1.1.1.1\",\"city\":null,\"zip\":90210,\"isp\":[\"a\"],\"org\":{\"a\":\"b\"},\"as\":true}");
    assert_eq!(result.city, None);
    assert_eq!(result.zip, None);
    assert_eq!(result.isp, None);
    assert_eq!(result.organization, None);
    assert_eq!(result.autonomous_system, None);
}

#[test]
fn query_comes_from_the_document() {
    let result = decoded("{\"query\":\"203.0.113.7\",\"city\":\"8.8.8.8\"}");
    assert_eq!(result.query, "203.0.113.7");
}

#[test]
fn text_outside_ascii_is_copied_as_it_stands() {
    let result = decoded("{\"query\":\"1.1.1.1\",\"city\":\"Z\u{fc}rich\",\"isp\":\"\\u00e9t\\u00e9\"}");
    assert_eq!(result.city, some("Z\u{fc}rich"));
    assert_eq!(result.isp, some("\u{e9}t\u{e9}"));
}

#[test]
fn invalid_utf8_is_an_encoding_failure() {
    let body = vec![b'{', b'"', 0xff, 0xfe, b'"', b'}'];
    assert!(matches!(decode(body), Err(Failure::Encoding(_))));
    let mut body = "{\"query\":\"8.8.8.8\"}".as_bytes().to_vec();
    body.push(0x80);
    assert!(matches!(decode(body), Err(Failure::Encoding(_))));
    assert!(matches!(decode(vec![0xc3]), Err(Failure::Encoding(_))));
}

#[test]
fn truncated_json_is_a_parse_failure() {
    assert!(matches!(decode("{\"query\":".as_bytes().to_vec()), Err(Failure::Parse(_))));
}

#[test]
fn malformed_json_is_a_parse_failure() {
    assert!(matches!(decode(Vec::new()), Err(Failure::Parse(_))));
    assert!(matches!(decode("{\"query\":\"8.8.8.8\"} x".as_bytes().to_vec()), Err(Failure::Parse(_))));
    assert!(matches!(decode("{query:1}".as_bytes().to_vec()), Err(Failure::Parse(_))));
}

#[test]
fn missing_query_is_refused() {
    assert!(matches!(decode("{\"city\":\"Mountain View\"}".as_bytes().to_vec()), Err(Failure::MissingQuery)));
    assert!(matches!(decode("{\"query\":null}".as_bytes().to_vec()), Err(Failure::MissingQuery)));
    assert!(matches!(decode("{\"query\":8}".as_bytes().to_vec()), Err(Failure::MissingQuery)));
}

#[test]
fn document_that_is_no_object_is_refused() {
    assert!(matches!(decode("[\"query\"]".as_bytes().to_vec()), Err(Failure::MissingQuery)));
    assert!(matches!(decode("\"query\"".as_bytes().to_vec()), Err(Failure::MissingQuery)));
    assert!(matches!(decode("null".as_bytes().to_vec()), Err(Failure::MissingQuery)));
}

#[test]
fn project_reads_a_parsed_document() {
    let json: Value = serde_json::from_str(COMPLETE).unwrap();
    let result = project(&json).unwrap();
    assert_eq!(result, decoded(COMPLETE));
    let json: Value = serde_json::from_str("{\"zip\":\"94043\"}").unwrap();
    assert!(matches!(project(&json), Err(Failure::MissingQuery)));
}

#[test]
fn chunks_are_joined_in_order() {
    let chunks = vec![vec![1u8, 2, 3], vec![], vec![4u8], vec![5u8, 6]];
    assert_eq!(collect_body(&chunks), vec![1u8, 2, 3, 4, 5, 6]);
    assert_eq!(collect_body(&Vec::new()), Vec::<u8>::new());
    assert_eq!(collect_body(&vec![Vec::new(), Vec::new()]), Vec::<u8>::new());
}

#[test]
fn body_split_inside_a_character_decodes_once_joined() {
    let whole = "{\"query\":\"1.1.1.1\",\"city\":\"Z\u{fc}rich\"}".as_bytes().to_vec();
    let cut = whole.iter().position(|byte| *byte == 0xc3).unwrap() + 1;
    let chunks = vec![whole[..cut].to_vec(), whole[cut..].to_vec()];
    assert!(matches!(decode(chunks[0].clone()), Err(Failure::Encoding(_))));
    let result = decode(collect_body(&chunks)).unwrap();
    assert_eq!(result.city, some("Z\u{fc}rich"));
}

#[test]
fn failures_are_made_from_their_causes() {
    let cause = serde_json::from_str::<Value>("{").unwrap_err();
    assert!(matches!(Failure::from(cause), Failure::Parse(_)));
    let cause = String::from_utf8(vec![0xff]).unwrap_err();
    assert!(matches!(Failure::from(cause), Failure::Encoding(_)));
}

#[test]
fn each_failure_names_its_stage() {
    assert_eq!(decode(vec![0xff]).unwrap_err().stage(), Stage::Encoding);
    assert_eq!(decode("{\"query\":".as_bytes().to_vec()).unwrap_err().stage(), Stage::Parse);
    assert_eq!(decode("{}".as_bytes().to_vec()).unwrap_err().stage(), Stage::Projection);
    assert_eq!(Failure::MissingQuery.stage(), Stage::Projection);
}

#[test]
fn encoding_is_judged_before_syntax() {
    let body = vec![b'{', 0xff];
    assert_eq!(decode(body).unwrap_err().stage(), Stage::Encoding);
}

#[test]
fn syntax_is_judged_before_the_query() {
    let body = "{\"city\":\"Oslo\"".as_bytes().to_vec();
    assert_eq!(decode(body).unwrap_err().stage(), Stage::Parse);
}

#[test]
fn a_field_does_not_depend_on_other_keys() {
    let plain = decoded("{\"query\":\"1.1.1.1\",\"city\":\"Oslo\"}");
    let busy = decoded(
        "{\"query\":\"9.9.9.9\",\"city\":\"Oslo\",\"zip\":\"0150\",\"mobile\":true,\
         \"country\":\"Norway\",\"countryCode\":\"NO\",\"lat\":59.9,\"lon\":10.7}",
    );
    assert_eq!(plain.city, busy.city);
    assert_eq!(plain.city, some("Oslo"));
    assert_eq!(plain.zip, None);
    assert_eq!(busy.zip, some("0150"));
}
