use clikit::capability::{Capabilities, Capability};
use clikit::error::Error;
use clikit::stream::{de, install_ring_provider, plan, ConnectPlan, Target, Tls};

fn target(scheme: Option<&str>, host: Option<&str>, port: Option<u16>) -> Target {
    Target {
        scheme: scheme.map(String::from),
        host: host.map(String::from),
        port,
    }
}

fn all_caps() -> Capabilities {
    Capabilities {
        external_command: true,
        credential_store: true,
        native_tls: true,
        rustls_aws: true,
        rustls_ring: true,
    }
}

#[test]
fn secure_target_without_tls_is_refused() {
    let r = plan(target(Some("https"), Some("host"), None), &Tls::Plain);
    assert!(matches!(r, Err(Error::SecureTargetWithoutTls)));
}

#[test]
fn secure_target_never_gets_a_plain_plan() {
    for tls in [Tls::Plain, Tls::NativeTls, Tls::RustlsAws, Tls::RustlsRing] {
        let r = plan(target(Some("https"), Some("host"), None), &tls);
        assert!(!matches!(r, Ok(ConnectPlan::Plain { .. })));
    }
}

#[test]
fn insecure_target_gets_plain_port_80_whatever_tls_says() {
    for tls in [Tls::Plain, Tls::NativeTls, Tls::RustlsAws, Tls::RustlsRing] {
        let r = plan(target(Some("http"), Some("host"), None), &tls).unwrap();
        assert_eq!(
            r,
            ConnectPlan::Plain {
                host: String::from("host"),
                port: 80,
            }
        );
    }
}

#[test]
fn secure_target_default_port_443() {
    let r = plan(target(Some("https"), Some("host"), None), &Tls::NativeTls).unwrap();
    assert_eq!(
        r,
        ConnectPlan::NativeTls {
            host: String::from("host"),
            port: 443,
        }
    );
}

#[test]
fn explicit_port_wins_over_scheme_default() {
    let r = plan(target(Some("https"), Some("host"), Some(8443)), &Tls::RustlsRing).unwrap();
    assert_eq!(
        r,
        ConnectPlan::RustlsRing {
            host: String::from("host"),
            port: 8443,
        }
    );
}

#[test]
fn missing_host_is_refused() {
    let r = plan(target(Some("https"), None, Some(443)), &Tls::RustlsRing);
    assert!(matches!(r, Err(Error::MissingHost)));
}

#[test]
fn unknown_scheme_without_port_is_refused() {
    let r = plan(target(Some("imap"), Some("host"), None), &Tls::RustlsRing);
    assert!(matches!(r, Err(Error::UnresolvablePort)));
}

#[test]
fn no_scheme_with_explicit_port_is_plain() {
    let r = plan(target(None, Some("host"), Some(1234)), &Tls::RustlsRing).unwrap();
    assert_eq!(
        r,
        ConnectPlan::Plain {
            host: String::from("host"),
            port: 1234,
        }
    );
}

#[test]
fn scheme_ending_in_s_is_secure() {
    let r = plan(target(Some("wss"), Some("host"), Some(443)), &Tls::RustlsAws).unwrap();
    assert_eq!(
        r,
        ConnectPlan::RustlsAws {
            host: String::from("host"),
            port: 443,
        }
    );
}

#[test]
fn tls_default_priority_order() {
    let mut caps = all_caps();
    assert_eq!(Tls::default_for(&caps), Tls::RustlsAws);
    caps.rustls_aws = false;
    assert_eq!(Tls::default_for(&caps), Tls::RustlsRing);
    caps.rustls_ring = false;
    assert_eq!(Tls::default_for(&caps), Tls::NativeTls);
    caps.native_tls = false;
    assert_eq!(Tls::default_for(&caps), Tls::Plain);
    assert_eq!(Tls::default(), Tls::Plain);
}

#[test]
fn tls_gating_admits_present_providers() {
    assert_eq!(
        de::Tls::NativeTls.try_into_tls(&all_caps()).unwrap(),
        Tls::NativeTls
    );
    assert_eq!(
        de::Tls::RustlsAws.try_into_tls(&all_caps()).unwrap(),
        Tls::RustlsAws
    );
    assert_eq!(
        de::Tls::RustlsRing.try_into_tls(&all_caps()).unwrap(),
        Tls::RustlsRing
    );
}

#[test]
fn tls_gating_rejects_absent_providers() {
    let caps = Capabilities::none();
    for (wire, cap) in [
        (de::Tls::NativeTls, Capability::NativeTls),
        (de::Tls::RustlsAws, Capability::RustlsAws),
        (de::Tls::RustlsRing, Capability::RustlsRing),
    ] {
        match wire.try_into_tls(&caps) {
            Err(Error::CapabilityUnavailable(c)) => assert_eq!(c, cap),
            other => panic!("expected a capability failure, got {other:?}"),
        }
    }
}

#[test]
fn tls_round_trip_per_provider() {
    for wire in [de::Tls::NativeTls, de::Tls::RustlsAws, de::Tls::RustlsRing] {
        let tls = wire.try_into_tls(&all_caps()).unwrap();
        let back = match tls {
            Tls::NativeTls => de::Tls::NativeTls,
            Tls::RustlsAws => de::Tls::RustlsAws,
            Tls::RustlsRing => de::Tls::RustlsRing,
            Tls::Plain => panic!("gating a provider name never yields the plain selection"),
        };
        assert_eq!(back, wire);
    }
}

#[test]
fn installing_the_ring_provider_is_idempotent() {
    // Installation succeeds exactly once per process; repeating it is
    // reported, never an error or a panic, and later behaviour is the same.
    let first = install_ring_provider();
    let second = install_ring_provider();
    let third = install_ring_provider();
    assert!(first);
    assert!(!second);
    assert!(!third);
    let ring_plan = ConnectPlan::RustlsRing {
        host: String::from("host"),
        port: 443,
    };
    assert!(!ring_plan.prepare());
    let plain_plan = ConnectPlan::Plain {
        host: String::from("host"),
        port: 80,
    };
    assert!(!plain_plan.prepare());
}

#[test]
fn error_messages_name_their_cause() {
    assert_eq!(
        Error::CapabilityUnavailable(Capability::RustlsRing).message(),
        "missing capability: rustls-ring"
    );
    assert_eq!(
        Error::MissingHost.message(),
        "missing host in connection target"
    );
    assert_eq!(
        Error::UnresolvablePort.message(),
        "cannot guess port from connection target"
    );
    assert_eq!(
        Error::SecureTargetWithoutTls.message(),
        "target implies TLS but no TLS provider is configured"
    );
    assert_eq!(
        Error::Io(String::from("broken pipe")).message(),
        "I/O failure: broken pipe"
    );
    assert_eq!(
        Error::CommandFailed(String::from("denied")).message(),
        "command failed: denied"
    );
    assert_eq!(
        Error::StoreLookupFailed(String::from("no entry")).message(),
        "credential-store lookup failed: no entry"
    );
}
