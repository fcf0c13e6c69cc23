use envoy_exporter::client::{Client, INVERTERS_PATH, LIFETIME_PATH, PRODUCTION_PATH};
use envoy_exporter::error::{ApiError, AuthError};
use envoy_exporter::http::{classify_response, is_success};
use envoy_exporter::metrics::ExporterMetrics;
use envoy_exporter::readings::{select_lifetime_watt_hours, InverterReading, ProductionSource};
use envoy_exporter::token::{TokenCache, TokenStep};

fn client() -> Client {
    Client::new("envoy.local", "me@example.com", "hunter2", "122233344455")
}

fn reading(serial: &str, watts: f64) -> InverterReading {
    InverterReading { serial_num: serial.to_string(), watts_bits: watts.to_bits() }
}

fn source(kind: &str, wh: f64) -> ProductionSource {
    ProductionSource { kind: kind.to_string(), wh_lifetime_bits: wh.to_bits() }
}

fn watts_of(metrics: &ExporterMetrics, serial: &str) -> Option<f64> {
    metrics.inverter_watts(&serial.to_string()).map(f64::from_bits)
}

/// Runs one fetch's token step the way a caller holding the lock does,
/// counting the exchanges it runs.
fn fetch_token(cache: &mut TokenCache, issued: &str, exchanges: &mut u32) -> Result<String, ApiError> {
    match cache.begin() {
        TokenStep::Ready(t) => Ok(t),
        TokenStep::Authenticate => {
            *exchanges += 1;
            cache.finish(Ok(issued.to_string()))
        }
    }
}

#[test]
fn success_class_is_two_hundreds() {
    assert!(is_success(200));
    assert!(is_success(204));
    assert!(is_success(299));
    assert!(!is_success(199));
    assert!(!is_success(300));
    assert!(!is_success(401));
    assert!(!is_success(500));
}

#[test]
fn unauthorized_status_is_its_own_error() {
    assert_eq!(classify_response(401, Some(1u64)), Err(ApiError::Unauthorized));
}

#[test]
fn other_failed_status_carries_its_code() {
    assert_eq!(classify_response(503, Some(1u64)), Err(ApiError::Status { status: 503 }));
    assert_eq!(classify_response(302, None::<u64>), Err(ApiError::Status { status: 302 }));
}

#[test]
fn undecodable_body_is_a_decode_error() {
    assert_eq!(classify_response(200, None::<u64>), Err(ApiError::Decode));
}

#[test]
fn decoded_body_is_the_result() {
    assert_eq!(classify_response(200, Some(532.1f64.to_bits())), Ok(532.1f64.to_bits()));
}

#[test]
fn zero_inverters_is_an_empty_list() {
    let r = classify_response(200, Some(Vec::<InverterReading>::new()));
    assert!(matches!(r, Ok(ref v) if v.is_empty()));
}

#[test]
fn lifetime_is_zero_without_an_inverters_record() {
    assert_eq!(select_lifetime_watt_hours(&vec![]), 0);
    let sources = vec![source("eim", 1234.5), source("storage", 99.0)];
    assert_eq!(f64::from_bits(select_lifetime_watt_hours(&sources)), 0.0);
}

#[test]
fn lifetime_takes_the_inverters_record_among_others() {
    let sources = vec![source("eim", 1234.5), source("inverters", 98765.4), source("storage", 7.0)];
    assert_eq!(f64::from_bits(select_lifetime_watt_hours(&sources)), 98765.4);
}

#[test]
fn lifetime_takes_the_first_inverters_record() {
    let sources = vec![source("inverters", 10.0), source("inverters", 20.0)];
    assert_eq!(f64::from_bits(select_lifetime_watt_hours(&sources)), 10.0);
}

#[test]
fn lifetime_kind_must_match_exactly() {
    let sources = vec![source("Inverters", 10.0), source("inverter", 20.0)];
    assert_eq!(select_lifetime_watt_hours(&sources), 0);
}

#[test]
fn device_urls_use_https_and_the_host() {
    let c = client();
    assert_eq!(c.url(PRODUCTION_PATH), "https://envoy.local/ivp/meters/reports/production");
    assert_eq!(c.url(INVERTERS_PATH), "https://envoy.local/api/v1/production/inverters");
    assert_eq!(c.url(LIFETIME_PATH), "https://envoy.local/production.json");
}

#[test]
fn login_form_carries_the_account() {
    let form = client().login_form();
    assert_eq!(form.email, "me@example.com");
    assert_eq!(form.password, "hunter2");
}

#[test]
fn cloud_login_rejection_is_distinguished() {
    let r = client().after_login(401, Some("abc".to_string()));
    assert!(matches!(r, Err(AuthError::CloudLoginFailed { status: 401 })));
}

#[test]
fn login_without_session_is_malformed() {
    let r = client().after_login(200, None);
    assert!(matches!(r, Err(AuthError::MalformedResponse)));
}

#[test]
fn login_success_leads_to_token_request() {
    match client().after_login(200, Some("sess-1".to_string())) {
        Ok(req) => {
            assert_eq!(req.session_id, "sess-1");
            assert_eq!(req.username, "me@example.com");
            assert_eq!(req.serial_num, "122233344455");
        }
        Err(e) => panic!("unexpected error {:?}", e),
    }
}

#[test]
fn token_issuance_rejection_is_distinguished() {
    let r = client().after_token_issuance(500, &b"oops".to_vec());
    assert_eq!(r, Err(AuthError::TokenIssuanceFailed { status: 500 }));
    assert_ne!(r, client().after_login(500, None).map(|_| String::new()));
}

#[test]
fn issued_token_is_the_body_text() {
    let r = client().after_token_issuance(200, &b"eyJhbGciOi.token".to_vec());
    assert_eq!(r, Ok("eyJhbGciOi.token".to_string()));
}

#[test]
fn issued_token_replaces_invalid_utf8() {
    let r = client().after_token_issuance(200, &vec![b'a', b'b', 0xff, b'c']);
    assert_eq!(r, Ok("ab\u{FFFD}c".to_string()));
}

#[test]
fn fresh_cache_asks_for_authentication() {
    let cache = TokenCache::new();
    assert!(cache.cached().is_none());
    assert!(matches!(cache.begin(), TokenStep::Authenticate));
}

#[test]
fn first_fetch_authenticates_once_then_reuses() {
    let mut cache = TokenCache::new();
    let mut exchanges = 0;
    assert_eq!(fetch_token(&mut cache, "t1", &mut exchanges), Ok("t1".to_string()));
    assert_eq!(exchanges, 1);
    assert_eq!(fetch_token(&mut cache, "t2", &mut exchanges), Ok("t1".to_string()));
    assert_eq!(exchanges, 1);
    assert_eq!(cache.cached(), Some("t1".to_string()));
}

#[test]
fn queued_fetches_share_one_token() {
    let mut cache = TokenCache::new();
    let mut exchanges = 0;
    let issued = ["a", "b", "c", "d", "e"];
    let handed: Vec<_> = issued.iter().map(|t| fetch_token(&mut cache, t, &mut exchanges)).collect();
    assert!(handed.iter().all(|t| *t == Ok("a".to_string())));
    assert_eq!(exchanges, 1);
    assert_eq!(cache.cached(), Some("a".to_string()));
}

#[test]
fn failed_authentication_leaves_cache_empty() {
    let mut cache = TokenCache::new();
    let r = cache.finish(Err(AuthError::CloudLoginFailed { status: 403 }));
    assert_eq!(r, Err(ApiError::Auth(AuthError::CloudLoginFailed { status: 403 })));
    assert!(cache.cached().is_none());
    assert!(matches!(cache.begin(), TokenStep::Authenticate));
}

#[test]
fn fresh_metrics_are_zero_and_empty() {
    let m = ExporterMetrics::new();
    assert_eq!(m.production_watts(), 0);
    assert_eq!(m.lifetime_watt_hours(), 0);
    assert!(m.inverter_entries().is_empty());
    assert_eq!(watts_of(&m, "INV1"), None);
}

#[test]
fn end_to_end_scrape_values() {
    let mut m = ExporterMetrics::new();
    let lifetime = select_lifetime_watt_hours(&vec![source("inverters", 98765.4)]);
    let r = m.record_scrape(Ok(532.1f64.to_bits()), Ok(vec![reading("INV1", 120.5)]), Ok(lifetime));
    assert_eq!(r, Ok(()));
    assert_eq!(f64::from_bits(m.production_watts()), 532.1);
    assert_eq!(watts_of(&m, "INV1"), Some(120.5));
    assert_eq!(f64::from_bits(m.lifetime_watt_hours()), 98765.4);
    assert_eq!(m.inverter_entries().len(), 1);
}

#[test]
fn rescrape_updates_adds_and_keeps_missing() {
    let mut m = ExporterMetrics::new();
    m.record_scrape(Ok(1), Ok(vec![reading("INV0", 5.0), reading("INV1", 120.5)]), Ok(2)).unwrap();
    m.record_scrape(Ok(3), Ok(vec![reading("INV1", 130.0), reading("INV2", 80.25)]), Ok(4)).unwrap();
    assert_eq!(watts_of(&m, "INV0"), Some(5.0));
    assert_eq!(watts_of(&m, "INV1"), Some(130.0));
    assert_eq!(watts_of(&m, "INV2"), Some(80.25));
    assert_eq!(m.inverter_entries().len(), 3);
    assert_eq!(m.production_watts(), 3);
    assert_eq!(m.lifetime_watt_hours(), 4);
}

#[test]
fn repeated_serial_in_one_scrape_keeps_last_report() {
    let mut m = ExporterMetrics::new();
    m.record_inverters(&vec![reading("INV1", 1.0), reading("INV1", 2.0)]);
    assert_eq!(watts_of(&m, "INV1"), Some(2.0));
    assert_eq!(m.inverter_entries().len(), 1);
}

#[test]
fn failed_fetch_fails_scrape_and_writes_nothing() {
    let mut m = ExporterMetrics::new();
    m.record_scrape(Ok(7), Ok(vec![reading("INV1", 1.0)]), Ok(8)).unwrap();
    let r = m.record_scrape(Ok(9), Ok(vec![reading("INV1", 2.0)]), Err(ApiError::Decode));
    assert_eq!(r, Err(ApiError::Decode));
    assert_eq!(m.production_watts(), 7);
    assert_eq!(m.lifetime_watt_hours(), 8);
    assert_eq!(watts_of(&m, "INV1"), Some(1.0));
}

#[test]
fn first_failed_fetch_is_reported() {
    let mut m = ExporterMetrics::new();
    let r = m.record_scrape(Err(ApiError::Transport), Err(ApiError::Unauthorized), Ok(1));
    assert_eq!(r, Err(ApiError::Transport));
    let r = m.record_scrape(Ok(1), Err(ApiError::Unauthorized), Err(ApiError::Decode));
    assert_eq!(r, Err(ApiError::Unauthorized));
}
