//! Building listeners from their descriptions.

use std::sync::Arc;

use mcp_inbound::listener::{
    Listener, ListenerBuild, ListenerError, ListenerMode, Parts, SseBuild, SseListener,
};
use mcp_inbound::peers::Peers;
use mcp_inbound::tls::{try_server_config, MissingPart, ServerConfigError};
use mcp_inbound::xds::{
    LocalDataSource, XdsAuthn, XdsListener, XdsListenerSpec, XdsSseListener, XdsTlsConfig,
};

/// A self-signed certificate for the key below, in DER.
const EC_CERT: &str = "308201943082013ba0030201020214212dc249ff5aa8376a8a6a6bbaf558352578e0a3300a06082a8648ce3d0403\
    0230143112301006035504030c096c6f63616c686f73743020170d3236313131363039303034335a180f32313236\
    313032333039303034335a30143112301006035504030c096c6f63616c686f73743059301306072a8648ce3d0201\
    06082a8648ce3d030107034200047d31dea408ff564c74a0c7aed002d95509dd5a38473f2eaa2a2be737cb51b514\
    17f3efd49d23f05bf98d3f4ade8c89a5eaeca8575800d1ca2495732b2baf8136a3693067301d0603551d0e041604\
    144b9f9f8b2e3bbcb9f9bb5e94474b928cb560e1be301f0603551d230418301680144b9f9f8b2e3bbcb9f9bb5e94\
    474b928cb560e1be300f0603551d130101ff040530030101ff30140603551d11040d300b82096c6f63616c686f73\
    74300a06082a8648ce3d0403020347003044022012457f8608312a6fd55c2a2753843a5724972ad6b35d877d9e5c\
    56c106cc9f9502207b23f48305f400e2a4e086825696e5226ccc43b4815b3d884ea146d1020cfe82";

/// A P-256 key, in SEC1.
const EC_KEY: &str = "30770201010420b30af44f573361eb7ec984245be36c2d207e169ce39233f5d6a248270def0a26a00a06082a8648\
    ce3d030107a144034200047d31dea408ff564c74a0c7aed002d95509dd5a38473f2eaa2a2be737cb51b51417f3ef\
    d49d23f05bf98d3f4ade8c89a5eaeca8575800d1ca2495732b2baf8136";

/// The bytes that a hexadecimal text stands for.
fn unhex(text: &str) -> Vec<u8> {
    let digits: Vec<u8> = text.chars().map(|c| c.to_digit(16).unwrap() as u8).collect();
    digits.chunks(2).map(|pair| pair[0] * 16 + pair[1]).collect()
}

/// A PEM section with this label.
fn pem(label: &str, der: &[u8]) -> Vec<u8> {
    let alphabet = "ABCDEFGHIJKLMNOPQRSTUVWXYZabcdefghijklmnopqrstuvwxyz0123456789+/".as_bytes();
    let mut text = format!("-----BEGIN {}-----\n", label).into_bytes();
    for line in der.chunks(48) {
        for group in line.chunks(3) {
            let mut bits: u32 = 0;
            for i in 0..3 {
                bits = bits * 256 + group.get(i).copied().unwrap_or(0) as u32;
            }
            for i in 0..4 {
                if i <= group.len() {
                    text.push(alphabet[(bits >> (18 - 6 * i)) as usize & 63]);
                } else {
                    text.push(61);
                }
            }
        }
        text.push(10);
    }
    text.extend(format!("-----END {}-----\n", label).into_bytes());
    text
}

struct Plain;

impl Peers for Plain {
    type Source = &'static str;
    type JwtConfig = &'static str;
    type Authenticator = String;
    type XdsRuleSet = &'static str;
    type RuleSet = String;
    type Error = &'static str;
}

/// The answers that a build gets in these tests, and the questions that it has asked.
struct Answers {
    cert: Result<Vec<u8>, &'static str>,
    key: Result<Vec<u8>, &'static str>,
    jwt: Result<String, &'static str>,
    asked: Vec<String>,
}

fn answers() -> Answers {
    Answers {
        cert: Ok(pem("CERTIFICATE", &unhex(EC_CERT))),
        key: Ok(pem("EC PRIVATE KEY", &unhex(EC_KEY))),
        jwt: Ok("authenticator".to_string()),
        asked: Vec::new(),
    }
}

/// Drives a build to its end. A rule set that starts with an exclamation mark fails. `None` stands
/// for malformed certificates.
fn drive(
    build: SseBuild<Plain>,
    with: &mut Answers,
) -> Option<Result<SseListener<String, String>, ListenerError<Plain>>> {
    let mut build = build;
    loop {
        build = match build {
            SseBuild::ResolveCert { source, then } => {
                with.asked.push(source.to_string());
                then.resume(with.cert.clone())
            }
            SseBuild::ResolveKey { source, then } => {
                with.asked.push(source.to_string());
                then.resume(with.key.clone())
            }
            SseBuild::Authenticate { jwt, then } => {
                with.asked.push(jwt.to_string());
                then.resume(with.jwt.clone())
            }
            SseBuild::ConvertRule { rule, then } => {
                with.asked.push(rule.to_string());
                if rule.starts_with('!') {
                    then.resume(Err(rule))
                } else {
                    then.resume(Ok(rule.to_uppercase()))
                }
            }
            SseBuild::Finished(result) => return Some(result),
            SseBuild::MalformedCertificates => return None,
        };
    }
}

fn description(rbac: Vec<&'static str>) -> XdsSseListener<Plain> {
    XdsSseListener {
        address: "127.0.0.1".to_string(),
        port: 3000,
        tls: Some(XdsTlsConfig {
            cert_pem: Some(LocalDataSource { source: Some("chain") }),
            key_pem: Some(LocalDataSource { source: Some("key") }),
        }),
        authn: Some(XdsAuthn { jwt: Some("tokens") }),
        rbac,
    }
}

#[test]
fn a_full_description_is_built() {
    let mut with = answers();
    let sse = drive(SseListener::from_xds(description(vec!["a", "b", "a"])), &mut with)
        .unwrap()
        .ok()
        .unwrap();
    assert_eq!(with.asked, vec!["chain", "key", "tokens", "a", "b", "a"]);
    assert_eq!(sse.host, "127.0.0.1");
    assert_eq!(sse.port, 3000);
    assert_eq!(sse.mode, None::<ListenerMode>);
    assert_eq!(sse.authn, Some("authenticator".to_string()));
    assert_eq!(sse.rbac, vec!["A", "B", "A"]);
    let offered = &sse.tls.unwrap().inner.alpn_protocols;
    assert_eq!(*offered, vec!["h2".as_bytes().to_vec(), "http/1.1".as_bytes().to_vec()]);
}

#[test]
fn a_bare_description_asks_nothing() {
    let value = XdsSseListener::<Plain> {
        address: "0.0.0.0".to_string(),
        port: 0,
        tls: None,
        authn: None,
        rbac: Vec::new(),
    };
    let mut with = answers();
    let sse = drive(SseListener::from_xds(value), &mut with).unwrap().ok().unwrap();
    assert!(with.asked.is_empty());
    assert!(sse.tls.is_none() && sse.authn.is_none() && sse.rbac.is_empty());
}

#[test]
fn authentication_without_token_settings_is_none() {
    let value = XdsSseListener { tls: None, authn: Some(XdsAuthn { jwt: None }), ..description(vec!["a"]) };
    let mut with = answers();
    let sse = drive(SseListener::from_xds(value), &mut with).unwrap().ok().unwrap();
    assert_eq!(with.asked, vec!["a"]);
    assert!(sse.authn.is_none());
}

#[test]
fn a_missing_part_ends_the_build_at_once() {
    let mut value = description(vec!["a"]);
    value.tls = Some(XdsTlsConfig { cert_pem: Some(LocalDataSource { source: Some("chain") }), key_pem: None });
    let mut with = answers();
    let error = drive(SseListener::from_xds(value), &mut with).unwrap().err().unwrap();
    assert!(matches!(error, ListenerError::Missing(MissingPart::KeyPem)));
    assert!(with.asked.is_empty());
}

#[test]
fn a_chain_that_cannot_be_fetched_ends_the_build() {
    let mut with = answers();
    with.cert = Err("gone");
    let error = drive(SseListener::from_xds(description(vec!["a"])), &mut with).unwrap().err();
    assert!(matches!(error, Some(ListenerError::CertSource("gone"))));
    assert_eq!(with.asked, vec!["chain"]);
}

#[test]
fn a_key_that_cannot_be_fetched_ends_the_build() {
    let mut with = answers();
    with.key = Err("locked");
    let error = drive(SseListener::from_xds(description(vec!["a"])), &mut with).unwrap().err();
    assert!(matches!(error, Some(ListenerError::KeySource("locked"))));
    assert_eq!(with.asked, vec!["chain", "key"]);
}

#[test]
fn an_unreadable_key_ends_the_build() {
    let mut with = answers();
    with.key = Ok(Vec::new());
    let error = drive(SseListener::from_xds(description(vec!["a"])), &mut with).unwrap().err();
    assert!(matches!(
        error,
        Some(ListenerError::ServerConfig(ServerConfigError::KeyPem(_)))
    ));
    assert_eq!(with.asked, vec!["chain", "key"]);
}

#[test]
fn a_refused_identity_ends_the_build() {
    let mut with = answers();
    with.cert = Ok(Vec::new());
    let error = drive(SseListener::from_xds(description(vec!["a"])), &mut with).unwrap().err();
    assert!(matches!(
        error,
        Some(ListenerError::ServerConfig(ServerConfigError::Identity(_)))
    ));
    assert_eq!(with.asked, vec!["chain", "key"]);
}

#[test]
fn malformed_certificates_end_the_build() {
    let mut with = answers();
    with.cert = Ok("-----BEGIN CERTIFICATE-----\n".as_bytes().to_vec());
    assert!(drive(SseListener::from_xds(description(vec!["a"])), &mut with).is_none());
    assert_eq!(with.asked, vec!["chain", "key"]);
}

#[test]
fn the_fetched_chain_is_kept_for_the_key() {
    let cert = pem("CERTIFICATE", &unhex(EC_CERT));
    let kept = match SseListener::from_xds(description(vec!["a"])) {
        SseBuild::ResolveCert { source, then } => {
            assert_eq!(source, "chain");
            then.resume(Ok(cert.clone()))
        }
        _ => panic!("the chain was not asked for"),
    };
    match kept {
        SseBuild::ResolveKey { source, then } => {
            assert_eq!(source, "key");
            assert_eq!(then.cert, cert);
            assert_eq!(then.parts.address, "127.0.0.1");
            assert_eq!(then.parts.rbac, vec!["a"]);
        }
        _ => panic!("the key was not asked for"),
    }
}

fn parts() -> Parts<Plain> {
    Parts {
        address: "127.0.0.1".to_string(),
        port: 3000,
        authn: Some(XdsAuthn { jwt: Some("tokens") }),
        rbac: vec!["a", "b"],
    }
}

#[test]
fn the_listener_has_the_configuration_that_was_made() {
    let cert = pem("CERTIFICATE", &unhex(EC_CERT));
    let key = pem("EC PRIVATE KEY", &unhex(EC_KEY));
    let config = try_server_config(&key, &cert).unwrap().ok().unwrap();
    let mut with = answers();
    let sse = drive(parts().configured(Some(Ok(config.clone()))), &mut with).unwrap().ok().unwrap();
    assert!(Arc::ptr_eq(&sse.tls.unwrap().inner, &config));
    assert_eq!(with.asked, vec!["tokens", "a", "b"]);
}

#[test]
fn a_configuration_error_is_passed_on_unchanged() {
    let refused = ServerConfigError::Identity(rustls::Error::NoCertificatesPresented);
    let mut with = answers();
    let error = drive(parts().configured(Some(Err(refused))), &mut with).unwrap().err();
    assert!(matches!(
        error,
        Some(ListenerError::ServerConfig(ServerConfigError::Identity(
            rustls::Error::NoCertificatesPresented
        )))
    ));
    let unreadable = ServerConfigError::KeyPem(rustls::pki_types::pem::Error::NoItemsFound);
    let error = drive(parts().configured(Some(Err(unreadable))), &mut with).unwrap().err();
    assert!(matches!(
        error,
        Some(ListenerError::ServerConfig(ServerConfigError::KeyPem(
            rustls::pki_types::pem::Error::NoItemsFound
        )))
    ));
    assert!(drive(parts().configured(None), &mut with).is_none());
    assert!(with.asked.is_empty());
}

#[test]
fn only_the_error_of_an_authenticator_has_a_prefix() {
    let failed: ListenerError<Plain> = ListenerError::Authenticator("no keys");
    assert_eq!(failed.prefix(), "error creating jwt authenticator: ");
    let others: Vec<ListenerError<Plain>> = vec![
        ListenerError::Missing(MissingPart::KeyPem),
        ListenerError::CertSource("gone"),
        ListenerError::KeySource("gone"),
        ListenerError::RuleSet("!a"),
    ];
    for other in others {
        assert_eq!(other.prefix(), "");
    }
}

#[test]
fn an_authenticator_that_fails_ends_the_build() {
    let mut with = answers();
    with.jwt = Err("no keys");
    let error = drive(SseListener::from_xds(description(vec!["!a"])), &mut with).unwrap().err();
    assert!(matches!(error, Some(ListenerError::Authenticator("no keys"))));
    assert_eq!(with.asked, vec!["chain", "key", "tokens"]);
}

#[test]
fn the_first_rule_set_that_fails_is_reported() {
    let mut with = answers();
    let value = description(vec!["a", "!b", "!c"]);
    let error = drive(SseListener::from_xds(value), &mut with).unwrap().err();
    assert!(matches!(error, Some(ListenerError::RuleSet("!b"))));
    assert_eq!(with.asked, vec!["chain", "key", "tokens", "a", "!b"]);
}

#[test]
fn other_descriptions_stand_for_stdio() {
    for listener in vec![None, Some(XdsListenerSpec::<Plain>::Stdio)] {
        assert!(matches!(
            Listener::from_xds(XdsListener { listener }),
            ListenerBuild::Ready(Listener::Stdio)
        ));
    }
}

#[test]
fn a_description_of_sse_is_built_as_one() {
    let listener = Some(XdsListenerSpec::Sse(description(vec![])));
    match Listener::from_xds(XdsListener { listener }) {
        ListenerBuild::Sse(build) => {
            let built = drive(build, &mut answers()).unwrap();
            match Listener::from_sse(built) {
                Ok(Listener::Sse(sse)) => assert_eq!(sse.port, 3000),
                _ => panic!("not a listener for server-sent events"),
            }
        }
        ListenerBuild::Ready(_) => panic!("nothing was asked"),
    }
}

#[test]
fn an_error_stays_the_error() {
    let failed: Result<Listener<(), ()>, &str> = Listener::from_sse(Err("broken"));
    assert!(matches!(failed, Err("broken")));
}

#[test]
fn the_default_listener_is_stdio() {
    assert!(matches!(Listener::<(), ()>::default(), Listener::Stdio));
}
