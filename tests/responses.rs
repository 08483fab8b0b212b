use norges_bank_client::decode::{FromJson, has_unique_keys};
use norges_bank_client::json::parse_json;
use norges_bank_client::{DecodeError, DimensionScope, Json, Series, decode_response, parse_response};

const STRUCTURE: &str = r#"{
    "links": [{"rel": "self", "href": "https://example.org/structure"}],
    "name": "Norwegian government securities",
    "names": {"en": "Norwegian government securities"},
    "description": "Prices and yields",
    "dimensions": {
        "dataset": [],
        "series": [
            {"id": "FREQ", "name": "Frequency", "keyPosition": 0,
             "values": [{"id": "B", "name": "Business"}]},
            {"id": "INSTRUMENT_TYPE", "name": "Instrument", "keyPosition": 1,
             "values": [{"id": "GBON", "name": "Government bonds"}, {"id": "TBIL"}]},
            {"id": "ISIN", "name": "ISIN", "keyPosition": 2,
             "values": [{"id": "NO1"}, {"id": "NO2"}, {"id": "NO3"},
                        {"id": "NO0010757925", "name": "NST 480"}]}
        ],
        "observation": [
            {"id": "TIME_PERIOD", "name": "Date", "role": "time",
             "values": [{"id": "2025-12-15", "start": "2025-12-15T00:00:00", "end": "2025-12-15T23:59:59"}]}
        ]
    },
    "attributes": {
        "dataset": [],
        "series": [{"id": "DECIMALS", "name": "Decimals", "relationship": {"dimensions": ["FREQ"]}, "values": [{"id": "4"}]}],
        "observation": []
    }
}"#;

fn body_with(structure: &str) -> String {
    format!(
        r#"{{
    "meta": {{
        "id": "IREF000001",
        "prepared": "2025-12-17T10:00:00",
        "test": false,
        "datasetId": "SEC",
        "sender": {{"id": "NB"}},
        "receiver": {{"id": "ANONYMOUS"}},
        "links": [{{"rel": "request", "href": "https://example.org"}}]
    }},
    "data": {{
        "dataSets": [{{
            "reportingBegin": "2025-12-15T00:00:00",
            "reportingEnd": "2025-12-15T23:59:59",
            "action": "Replace",
            "series": {{
                "0:0:3": {{"attributes": [0, null], "observations": {{"0": ["99.5210"]}}}}
            }}
        }}],
        "structure": {structure}
    }}
}}"#
    )
}

fn body() -> String {
    body_with(STRUCTURE)
}

#[test]
fn observation_found_by_series_key_and_index() {
    let r = parse_response(body().as_bytes()).unwrap();
    let v = r.observation(0, "0:0:3", "0").unwrap();
    assert_eq!(v, &vec!["99.5210".to_string()]);
    let s = r.data.data_sets[0].series_by_key("0:0:3").unwrap();
    assert_eq!(s.observation("0").unwrap()[0], "99.5210");
    assert_eq!(s.attributes, vec![Some(0), None]);
}

#[test]
fn missing_observation_and_series_give_nothing() {
    let r = parse_response(body().as_bytes()).unwrap();
    assert!(r.observation(0, "0:0:3", "1").is_none());
    assert!(r.observation(0, "0:0:0", "0").is_none());
    assert!(r.observation(1, "0:0:3", "0").is_none());
}

#[test]
fn meta_and_structure_read() {
    let r = parse_response(body().as_bytes()).unwrap();
    assert_eq!(r.meta.id, "IREF000001");
    assert!(!r.meta.test);
    assert_eq!(r.meta.dataset_id, "SEC");
    assert_eq!(r.meta.sender.id, "NB");
    assert_eq!(r.meta.receiver.id, "ANONYMOUS");
    assert_eq!(r.meta.links.len(), 1);
    assert_eq!(r.data.data_sets[0].action, "Replace");
    assert!(r.data.data_sets[0].links.is_empty());
    let st = &r.data.structure;
    assert_eq!(st.name, "Norwegian government securities");
    assert_eq!(st.names, vec![("en".to_string(), "Norwegian government securities".to_string())]);
    assert!(st.descriptions.is_empty());
    assert_eq!(st.links[0].href.as_deref(), Some("https://example.org/structure"));
    assert_eq!(st.links[0].urn, None);
    assert_eq!(st.dimensions.series.len(), 3);
    assert_eq!(st.dimensions.series[2].key_position, Some(2));
    assert_eq!(st.dimensions.observation[0].role.as_deref(), Some("time"));
    let rel = st.attributes.series[0].relationship.as_ref().unwrap();
    assert_eq!(rel.dimensions, vec!["FREQ".to_string()]);
}

#[test]
fn dimension_value_and_name() {
    let r = parse_response(body().as_bytes()).unwrap();
    assert_eq!(r.get_dimension_value("ISIN", 3), "NO0010757925");
    assert_eq!(r.get_dimension_name("ISIN", 3), "NST 480");
    assert_eq!(r.get_dimension_value("INSTRUMENT_TYPE", 0), "GBON");
    assert_eq!(r.get_dimension_name("INSTRUMENT_TYPE", 1), "");
}

#[test]
fn unknown_dimension_or_index_gives_empty() {
    let r = parse_response(body().as_bytes()).unwrap();
    assert_eq!(r.get_dimension_value("NOPE", 0), "");
    assert_eq!(r.get_dimension_value("ISIN", 4), "");
    assert_eq!(r.get_dimension_name("ISIN", 99), "");
}

#[test]
fn find_value_by_scope() {
    let r = parse_response(body().as_bytes()).unwrap();
    let dims = &r.data.structure.dimensions;
    let v = dims.find_value(DimensionScope::Observation, "TIME_PERIOD", 0).unwrap();
    assert_eq!(v.id, "2025-12-15");
    assert_eq!(v.start.as_deref(), Some("2025-12-15T00:00:00"));
    assert_eq!(v.end.as_deref(), Some("2025-12-15T23:59:59"));
    assert!(dims.find_value(DimensionScope::Series, "TIME_PERIOD", 0).is_none());
    assert!(dims.find_value(DimensionScope::Dataset, "FREQ", 0).is_none());
    assert_eq!(dims.find_value(DimensionScope::Series, "FREQ", 0).unwrap().name.as_deref(), Some("Business"));
    assert!(dims.find_value(DimensionScope::Series, "FREQ", 1).is_none());
}

#[test]
fn missing_dimensions_is_a_decode_error() {
    let structure = r#"{"name": "n", "description": "d",
        "attributes": {"dataset": [], "series": [], "observation": []}}"#;
    let r = parse_response(body_with(structure).as_bytes());
    assert!(matches!(r, Err(DecodeError::Schema)));
}

#[test]
fn component_without_values_has_none() {
    let structure = r#"{"name": "n", "description": "d",
        "dimensions": {"dataset": [], "series": [{"id": "FREQ", "name": "Frequency"}], "observation": []},
        "attributes": {"dataset": [], "series": [], "observation": []}}"#;
    let r = parse_response(body_with(structure).as_bytes()).unwrap();
    let c = &r.data.structure.dimensions.series[0];
    assert!(c.values.is_empty());
    assert_eq!(c.key_position, None);
    assert!(c.relationship.is_none());
    assert!(r.data.structure.links.is_empty());
    assert!(r.data.structure.names.is_empty());
}

#[test]
fn body_that_is_no_json() {
    assert!(matches!(parse_response(b"<html>busy</html>"), Err(DecodeError::NotJson)));
    assert!(matches!(parse_response(b""), Err(DecodeError::NotJson)));
}

#[test]
fn missing_meta_id_is_a_decode_error() {
    let b = body().replace(r#""id": "IREF000001","#, "");
    assert!(matches!(parse_response(b.as_bytes()), Err(DecodeError::Schema)));
}

#[test]
fn wrong_type_is_a_decode_error() {
    let b = body().replace(r#""test": false"#, r#""test": "no""#);
    assert!(matches!(parse_response(b.as_bytes()), Err(DecodeError::Schema)));
}

#[test]
fn key_position_out_of_range_is_a_decode_error() {
    let b = body().replace(r#""keyPosition": 2"#, r#""keyPosition": 4294967296"#);
    assert!(matches!(parse_response(b.as_bytes()), Err(DecodeError::Schema)));
    let b = body().replace(r#""keyPosition": 2"#, r#""keyPosition": -1"#);
    assert!(matches!(parse_response(b.as_bytes()), Err(DecodeError::Schema)));
}

#[test]
fn null_optional_member_reads_as_nothing() {
    let b = body().replace(r#""keyPosition": 2"#, r#""keyPosition": null"#);
    let r = parse_response(b.as_bytes()).unwrap();
    assert_eq!(r.data.structure.dimensions.series[2].key_position, None);
}

#[test]
fn missing_series_map_is_a_decode_error() {
    let b = body().replace(r#""series": {"#, r#""other": {"#);
    assert!(matches!(parse_response(b.as_bytes()), Err(DecodeError::Schema)));
}

#[test]
fn decode_from_json_value() {
    let j = Json::Object(vec![("meta".to_string(), Json::Null)]);
    assert!(matches!(decode_response(&j), Err(DecodeError::Schema)));
    assert!(matches!(decode_response(&Json::Array(Vec::new())), Err(DecodeError::Schema)));
}

#[test]
fn repeated_series_key_in_body_is_read_once() {
    let b = body().replace(
        r#""0:0:3": {"attributes": [0, null], "observations": {"0": ["99.5210"]}}"#,
        r#""0:0:3": {"attributes": [], "observations": {"0": ["1.0"]}},
           "0:0:3": {"attributes": [0, null], "observations": {"0": ["99.5210"]}}"#,
    );
    let r = parse_response(b.as_bytes()).unwrap();
    assert_eq!(r.data.data_sets[0].series.len(), 1);
    assert_eq!(r.observation(0, "0:0:3", "0").unwrap()[0], "99.5210");
}

#[test]
fn repeated_key_in_hand_built_map_is_refused() {
    let obs = Json::Object(vec![
        ("0".to_string(), Json::Array(vec![Json::Str("1".to_string())])),
        ("0".to_string(), Json::Array(vec![Json::Str("2".to_string())])),
    ]);
    let series = Json::Object(vec![
        ("attributes".to_string(), Json::Array(Vec::new())),
        ("observations".to_string(), obs),
    ]);
    assert!(matches!(Series::from_json(&series), Err(DecodeError::Schema)));
    let pairs = vec![("a".to_string(), 1), ("b".to_string(), 2), ("a".to_string(), 3)];
    assert!(!has_unique_keys(&pairs));
    assert!(has_unique_keys(&pairs[..2].to_vec()));
}

#[test]
fn parsed_numbers_keep_whole_values_only() {
    let j = parse_json(br#"[1, -1, 2.5, 18446744073709551615, "x", null, true, {"b": 1, "a": 2}]"#).unwrap();
    let expected = "Array([Number(Some(1)), Number(None), Number(None), Number(Some(18446744073709551615)), Str(\"x\"), Null, Bool(true), Object([(\"a\", Number(Some(2))), (\"b\", Number(Some(1)))])])";
    assert_eq!(format!("{:?}", j), expected);
    assert!(parse_json(b"{").is_none());
}
