use norges_bank_client::{
    ConfigurationError, InstrumentSelection, InstrumentType, NorgesBankClientBuilder, TimeSelector,
};

fn pairs(v: &[(&str, &str)]) -> Vec<(String, String)> {
    v.iter().map(|(k, x)| (k.to_string(), x.to_string())).collect()
}

fn base() -> Vec<(String, String)> {
    pairs(&[("format", "sdmx-json"), ("locale", "en")])
}

#[test]
fn time_period_appends_start_then_end() {
    let ts = TimeSelector::TimePeriod { start: "2025-12-15".into(), end: "2025-12-17".into() };
    let params = ts.time_matching(base());
    assert_eq!(
        params,
        pairs(&[
            ("format", "sdmx-json"),
            ("locale", "en"),
            ("startPeriod", "2025-12-15"),
            ("endPeriod", "2025-12-17"),
        ])
    );
}

#[test]
fn dynamic_appends_last_n_observations() {
    let ts = TimeSelector::Dynamic { periods: "10".into() };
    let params = ts.time_matching(base());
    assert_eq!(
        params,
        pairs(&[("format", "sdmx-json"), ("locale", "en"), ("lastNObservations", "10")])
    );
}

#[test]
fn time_matching_on_empty_list() {
    let ts = TimeSelector::Dynamic { periods: "0".into() };
    assert_eq!(ts.time_matching(Vec::new()), pairs(&[("lastNObservations", "0")]));
}

#[test]
fn default_configuration() {
    let c = NorgesBankClientBuilder::new();
    assert_eq!(c.base_url, "https://data.norges-bank.no/api/data");
    assert_eq!(c.timeout_secs, 10);
    assert_eq!(c.user_agent, "MyRustClient/1.0");
}

#[test]
fn market_data_one_isin() {
    let c = NorgesBankClientBuilder::new();
    let ts = TimeSelector::Dynamic { periods: "10".into() };
    let req = c.market_data_request(ts, &vec!["NO0010757925".to_string()]).unwrap();
    assert_eq!(req.url, "https://data.norges-bank.no/api/data/SEC/B.NO0010757925.");
    assert_eq!(
        req.params,
        pairs(&[("format", "sdmx-json"), ("locale", "en"), ("lastNObservations", "10")])
    );
}

#[test]
fn market_data_isins_joined_in_order() {
    let c = NorgesBankClientBuilder::new();
    let ts = TimeSelector::TimePeriod { start: "2025-12-15".into(), end: "2025-12-17".into() };
    let isins = vec!["NO2".to_string(), "NO1".to_string(), "NO2".to_string()];
    let req = c.market_data_request(ts, &isins).unwrap();
    assert_eq!(req.url, "https://data.norges-bank.no/api/data/SEC/B.NO2+NO1+NO2.");
    assert!(req.url.ends_with("/SEC/B.NO2+NO1+NO2."));
    assert_eq!(
        req.params,
        pairs(&[
            ("format", "sdmx-json"),
            ("locale", "en"),
            ("startPeriod", "2025-12-15"),
            ("endPeriod", "2025-12-17"),
        ])
    );
}

#[test]
fn market_data_without_isin_is_refused() {
    let c = NorgesBankClientBuilder::new();
    let ts = TimeSelector::Dynamic { periods: "10".into() };
    let r = c.market_data_request(ts, &Vec::new());
    assert!(matches!(r, Err(ConfigurationError::NoIsin)));
}

#[test]
fn market_data_with_other_base_url() {
    let mut c = NorgesBankClientBuilder::new();
    c.base_url = "http://localhost:8080".to_string();
    let ts = TimeSelector::Dynamic { periods: "1".into() };
    let req = c.market_data_request(ts, &vec!["A".to_string()]).unwrap();
    assert_eq!(req.url, "http://localhost:8080/SEC/B.A.");
}

#[test]
fn instrument_codes() {
    assert_eq!(InstrumentType::Gbon.as_str(), "GBON");
    assert_eq!(InstrumentType::Tbil.as_str(), "TBIL");
}

#[test]
fn selections_list_their_types() {
    assert_eq!(InstrumentSelection::all().iter(), vec![InstrumentType::Gbon, InstrumentType::Tbil]);
    assert_eq!(InstrumentSelection::gbon().iter(), vec![InstrumentType::Gbon]);
    assert_eq!(InstrumentSelection::tbil().iter(), vec![InstrumentType::Tbil]);
    assert_eq!(InstrumentSelection::all().codes(), vec!["GBON".to_string(), "TBIL".to_string()]);
}

#[test]
fn primary_market_all_types() {
    let c = NorgesBankClientBuilder::new();
    let ts = TimeSelector::Dynamic { periods: "10".into() };
    let req = c.primary_market_request(ts, &InstrumentSelection::all()).unwrap();
    assert_eq!(req.url, "https://data.norges-bank.no/api/data/GOVT_PRIMARY_MARKET/GBON+TBIL..B...");
    assert_eq!(
        req.params,
        pairs(&[("format", "sdmx-json"), ("locale", "en"), ("lastNObservations", "10")])
    );
}

#[test]
fn primary_market_one_type() {
    let c = NorgesBankClientBuilder::new();
    let ts = TimeSelector::TimePeriod { start: "2025-01-01".into(), end: "2025-02-01".into() };
    let req = c.primary_market_request(ts, &InstrumentSelection::tbil()).unwrap();
    assert_eq!(req.url, "https://data.norges-bank.no/api/data/GOVT_PRIMARY_MARKET/TBIL..B...");
    assert_eq!(req.params.len(), 4);
}

#[test]
fn primary_market_types_in_given_order() {
    let c = NorgesBankClientBuilder::new();
    let ts = TimeSelector::Dynamic { periods: "3".into() };
    let sel = InstrumentSelection::from_types(vec![InstrumentType::Tbil, InstrumentType::Gbon]);
    let req = c.primary_market_request(ts, &sel).unwrap();
    assert!(req.url.ends_with("/GOVT_PRIMARY_MARKET/TBIL+GBON..B..."));
}

#[test]
fn primary_market_without_type_is_refused() {
    let c = NorgesBankClientBuilder::new();
    let ts = TimeSelector::Dynamic { periods: "10".into() };
    let r = c.primary_market_request(ts, &InstrumentSelection::from_types(Vec::new()));
    assert!(matches!(r, Err(ConfigurationError::NoInstrument)));
}

#[test]
fn selection_from_vec_keeps_order() {
    let sel = InstrumentSelection::from(vec![InstrumentType::Tbil, InstrumentType::Gbon]);
    assert_eq!(sel.iter(), vec![InstrumentType::Tbil, InstrumentType::Gbon]);
    assert_eq!(sel.codes(), vec!["TBIL".to_string(), "GBON".to_string()]);
}
