use mcp_crm::http::HttpError;
use mcp_crm::server::{d20, error_text, health_report, init_backend, manifest_verdict, BackendChoice, EnabledBackends};

const ALL: EnabledBackends = EnabledBackends { salesforce: true, hubspot: true, zoho_crm: true, pipedrive: true };

fn some(x: &str) -> Option<String> {
    Some(x.to_string())
}

#[test]
fn listing_default_is_twenty() {
    assert_eq!(d20(), 20);
}

#[test]
fn failed_tool_call_text() {
    assert_eq!(error_text("HTTP status client error (404 Not Found)"), "Error: HTTP status client error (404 Not Found)");
    assert_eq!(error_text(""), "Error: ");
}

#[test]
fn health_is_the_probe_outcome() {
    let ok = health_report("hubspot", &Ok(()));
    assert!(ok.healthy);
    assert_eq!(ok.message, Some("hubspot connected".to_string()));
    assert_eq!(ok.latency_ms, Some(1));
    let bad = health_report("pipedrive", &Err(HttpError { message: "401 Unauthorized".to_string() }));
    assert!(!bad.healthy);
    assert_eq!(bad.message, Some("pipedrive: 401 Unauthorized".to_string()));
    assert_eq!(bad.latency_ms, None);
}

#[test]
fn salesforce_needs_both_settings_and_wins() {
    match init_backend(ALL, some("https://a.my.salesforce.com/"), some("tok"), some("hs"), some("zo"), some("pd")) {
        Ok(BackendChoice::Salesforce(b)) => {
            assert_eq!(b.instance_url, "https://a.my.salesforce.com");
            assert_eq!(b.token, "tok");
        }
        other => panic!("unexpected {other:?}"),
    }
    match init_backend(ALL, some("https://a.my.salesforce.com"), None, some("hs"), some("zo"), None) {
        Ok(BackendChoice::HubSpot(b)) => assert_eq!(b.token, "hs"),
        other => panic!("unexpected {other:?}"),
    }
}

#[test]
fn backend_priority_after_salesforce() {
    match init_backend(ALL, None, some("tok"), None, some("zo"), some("pd")) {
        Ok(BackendChoice::ZohoCrm(b)) => assert_eq!(b.token, "zo"),
        other => panic!("unexpected {other:?}"),
    }
    match init_backend(ALL, None, None, None, None, some("pd")) {
        Ok(BackendChoice::Pipedrive(b)) => assert_eq!(b.token, "pd"),
        other => panic!("unexpected {other:?}"),
    }
}

#[test]
fn disabled_backends_are_never_chosen() {
    let default_build = EnabledBackends { salesforce: false, hubspot: true, zoho_crm: false, pipedrive: true };
    match init_backend(default_build, some("https://a.my.salesforce.com"), some("tok"), None, some("zo"), some("pd")) {
        Ok(BackendChoice::Pipedrive(b)) => assert_eq!(b.token, "pd"),
        other => panic!("unexpected {other:?}"),
    }
    assert!(init_backend(default_build, some("u"), some("t"), None, some("zo"), None).is_err());
}

#[test]
fn no_backend_configured() {
    match init_backend(ALL, None, None, None, None, None) {
        Err(m) => assert_eq!(
            m,
            "No CRM backend configured. Set one of: SALESFORCE_INSTANCE_URL+SALESFORCE_TOKEN, HUBSPOT_TOKEN, ZOHO_CRM_TOKEN, PIPEDRIVE_TOKEN"
        ),
        other => panic!("unexpected {other:?}"),
    }
}

#[test]
fn manifest_with_errors_is_refused() {
    assert_eq!(manifest_verdict(0), Ok(()));
    assert_eq!(manifest_verdict(3), Err("invalid mcp-server.toml (3 error(s))".to_string()));
    assert_eq!(manifest_verdict(12), Err("invalid mcp-server.toml (12 error(s))".to_string()));
}
