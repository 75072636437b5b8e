use rs_cdn::auth::is_authorized;
use rs_cdn::auth::resolve_source;
use rs_cdn::auth::screen;
use rs_cdn::auth::Admission;
use rs_cdn::auth::Forwarded;
use rs_cdn::cache::Cache;
use rs_cdn::cache::CacheError;
use rs_cdn::config::CdnConfig;
use rs_cdn::config::FirewallConfig;
use rs_cdn::config::IpAddress;
use rs_cdn::rest::authorize_health;
use rs_cdn::rest::get_health;
use rs_cdn::rest::write::firewall_outcome;
use rs_cdn::rest::write::UploadError;
use rs_cdn::rest::Body;
use rs_cdn::rest::GenericError;
use rs_cdn::rest::Response;

const LOOPBACK: IpAddress = IpAddress::V4(127, 0, 0, 1);
const OUTSIDE: IpAddress = IpAddress::V4(203, 0, 113, 7);
const TRUSTED: IpAddress = IpAddress::V4(10, 0, 0, 5);

fn firewall() -> FirewallConfig {
    FirewallConfig { trusted_sources: vec![TRUSTED, IpAddress::V6(1)] }
}

#[test]
fn loopback_addresses() {
    assert!(LOOPBACK.is_loopback());
    assert!(IpAddress::V4(127, 255, 1, 2).is_loopback());
    assert!(IpAddress::V6(1).is_loopback());
    assert!(!IpAddress::V6(2).is_loopback());
    assert!(!OUTSIDE.is_loopback());
}

#[test]
fn header_is_believed_from_loopback_only() {
    assert_eq!(resolve_source(LOOPBACK, Forwarded::Address(TRUSTED)), Some(TRUSTED));
    assert_eq!(resolve_source(OUTSIDE, Forwarded::Address(TRUSTED)), Some(OUTSIDE));
    assert_eq!(resolve_source(OUTSIDE, Forwarded::Absent), Some(OUTSIDE));
    assert_eq!(resolve_source(LOOPBACK, Forwarded::Malformed), None);
    assert_eq!(resolve_source(OUTSIDE, Forwarded::Malformed), Some(OUTSIDE));
}

#[test]
fn untrusted_peer_yields_401() {
    let verdict = screen(&firewall(), OUTSIDE, Forwarded::Address(TRUSTED));
    assert_eq!(verdict, Admission::Unknown(OUTSIDE));
    let error = firewall_outcome(verdict).unwrap_err();
    assert_eq!(error, UploadError::Unauthorized("Unknown remote address"));
    let expected = Response {
        status: 401,
        content_type: None,
        origin: None,
        body: Body::Error(GenericError { error: "Unauthorized. Unknown remote address".to_string() }),
    };
    assert_eq!(error.error_response(), expected);
}

#[test]
fn trusted_sources_are_admitted() {
    assert_eq!(screen(&firewall(), TRUSTED, Forwarded::Absent), Admission::Admitted);
    assert_eq!(screen(&firewall(), LOOPBACK, Forwarded::Address(TRUSTED)), Admission::Admitted);
    assert_eq!(screen(&firewall(), LOOPBACK, Forwarded::Absent), Admission::Unknown(LOOPBACK));
    assert_eq!(screen(&firewall(), LOOPBACK, Forwarded::Malformed), Admission::Unresolved);
    assert_eq!(firewall_outcome(Admission::Unresolved), Err(UploadError::InternalError));
    assert_eq!(firewall_outcome(Admission::Admitted), Ok(()));
}

#[test]
fn disabled_firewall_admits_everyone() {
    let open = FirewallConfig::default();
    assert!(!open.enabled());
    assert!(firewall().enabled());
    assert_eq!(screen(&open, OUTSIDE, Forwarded::Malformed), Admission::Admitted);
    assert_eq!(screen(&open, LOOPBACK, Forwarded::Malformed), Admission::Admitted);
}

#[test]
fn storage_root_defaults_to_uploads() {
    let config = CdnConfig::default();
    assert_eq!(config.storage_root(), "./uploads");
    let config = CdnConfig { storage_path: Some("/data".to_string()), firewall: firewall() };
    assert_eq!(config.storage_root(), "/data");
}

#[test]
fn health_needs_the_exact_secret() {
    assert!(is_authorized(Some("d3v_secret"), "d3v_secret"));
    assert!(!is_authorized(Some("d3v_secreT"), "d3v_secret"));
    assert!(!is_authorized(Some("d3v_secret "), "d3v_secret"));
    assert!(!is_authorized(None, "d3v_secret"));
    assert!(!is_authorized(Some(""), ""));
    assert_eq!(authorize_health(Some("s3cret"), "s3cret"), Ok(()));
    let refused = authorize_health(None, "s3cret").unwrap_err();
    assert_eq!(refused.status, 401);
}

#[test]
fn health_report_has_four_fields() {
    let info = "# Server\r\nredis_version:7.0.0\r\nuptime_in_seconds:9321\r\n# Memory\r\nused_memory:1000\r\nused_memory_human:976.56K\r\n";
    let health = Cache::new().get_redis_health(info, 2, vec!["a:b:png:128".to_string(), "k".to_string()]);
    assert_eq!(health.memory_usage(), "976.56K");
    assert_eq!(health.num_keys(), 2);
    assert_eq!(health.keys(), &vec!["a:b:png:128".to_string(), "k".to_string()]);
    assert_eq!(health.uptime_seconds(), 9321);
    let response = get_health(Ok(health));
    assert_eq!(response.status, 200);
    assert!(matches!(response.body, Body::Health(_)));
}

#[test]
fn failed_health_check_yields_500() {
    let response = get_health(Err(CacheError { message: "connection refused".to_string() }));
    let expected = Response {
        status: 500,
        content_type: None,
        origin: None,
        body: Body::Error(GenericError { error: "connection refused".to_string() }),
    };
    assert_eq!(response, expected);
}
