use norges_bank_client::{parse_response, series_key_indices};

const BODY: &str = r#"{
    "meta": {"id": "R1", "prepared": "2025-12-17T10:00:00", "test": true, "datasetId": "SEC",
             "sender": {"id": "NB"}, "receiver": {"id": "ANONYMOUS"}},
    "data": {
        "dataSets": [{"reportingBegin": "a", "reportingEnd": "b", "action": "Replace",
                      "series": {"1:0": {"attributes": [], "observations": {}}}}],
        "structure": {
            "name": "n", "description": "d",
            "dimensions": {
                "dataset": [],
                "series": [
                    {"id": "ISIN", "name": "ISIN", "keyPosition": 1,
                     "values": [{"id": "NO1"}, {"id": "NO2", "name": "Second"}]},
                    {"id": "FREQ", "name": "Frequency", "keyPosition": 0,
                     "values": [{"id": "B"}, {"id": "M", "name": "Monthly"}]}
                ],
                "observation": []
            },
            "attributes": {"dataset": [], "series": [], "observation": []}
        }
    }
}"#;

#[test]
fn key_indices_read_in_order() {
    assert_eq!(series_key_indices("0:0:3"), Some(vec![0, 0, 3]));
    assert_eq!(series_key_indices("12"), Some(vec![12]));
    assert_eq!(series_key_indices("007:10"), Some(vec![7, 10]));
}

#[test]
fn malformed_keys_give_nothing() {
    assert_eq!(series_key_indices(""), None);
    assert_eq!(series_key_indices("0::1"), None);
    assert_eq!(series_key_indices("0:1:"), None);
    assert_eq!(series_key_indices("a:1"), None);
    assert_eq!(series_key_indices("-1"), None);
    assert_eq!(series_key_indices("99999999999999999999999"), None);
}

#[test]
fn key_resolved_by_key_position() {
    let r = parse_response(BODY.as_bytes()).unwrap();
    let v = r.data.structure.resolve_series_key("1:1").unwrap();
    assert_eq!(v.len(), 2);
    assert_eq!(v[0].0, "FREQ");
    assert_eq!(v[0].1.id, "M");
    assert_eq!(v[0].1.name.as_deref(), Some("Monthly"));
    assert_eq!(v[1].0, "ISIN");
    assert_eq!(v[1].1.id, "NO2");
    let v = r.data.structure.resolve_series_key("0:0").unwrap();
    assert_eq!(v[0].1.id, "B");
    assert_eq!(v[1].1.id, "NO1");
}

#[test]
fn key_past_values_or_slots_gives_nothing() {
    let r = parse_response(BODY.as_bytes()).unwrap();
    assert!(r.data.structure.resolve_series_key("2:0").is_none());
    assert!(r.data.structure.resolve_series_key("0:0:0").is_none());
    assert!(r.data.structure.resolve_series_key("x").is_none());
}

#[test]
fn shorter_key_resolves_leading_slots() {
    let r = parse_response(BODY.as_bytes()).unwrap();
    let v = r.data.structure.resolve_series_key("1").unwrap();
    assert_eq!(v.len(), 1);
    assert_eq!(v[0].0, "FREQ");
    assert!(r.data.data_sets[0].series_by_key("1:0").is_some());
    assert!(r.data.data_sets[0].series_by_key("0:1").is_none());
}
