//! Server configurations from PEM text.

use std::sync::Arc;

use mcp_inbound::tls::{
    checked_key, complete_config, from_xds_tls_config, rustls_server_config, try_server_config,
    KeyFormat, MissingPart, PrivateKey, ServerConfigError,
};
use mcp_inbound::peers::Peers;
use mcp_inbound::xds::{LocalDataSource, XdsTlsConfig};
use rustls::client::danger::{HandshakeSignatureValid, ServerCertVerified, ServerCertVerifier};
use rustls::pki_types::{CertificateDer, PrivateKeyDer, PrivateSec1KeyDer, ServerName, UnixTime};
use rustls::{
    ClientConfig, ClientConnection, DigitallySignedStruct, ServerConfig, ServerConnection,
    SignatureScheme,
};

/// A self-signed certificate for the key below, in DER.
const EC_CERT: &str = "308201943082013ba0030201020214212dc249ff5aa8376a8a6a6bbaf558352578e0a3300a06082a8648ce3d0403\
    0230143112301006035504030c096c6f63616c686f73743020170d3236313131363039303034335a180f32313236\
    313032333039303034335a30143112301006035504030c096c6f63616c686f73743059301306072a8648ce3d0201\
    06082a8648ce3d030107034200047d31dea408ff564c74a0c7aed002d95509dd5a38473f2eaa2a2be737cb51b514\
    17f3efd49d23f05bf98d3f4ade8c89a5eaeca8575800d1ca2495732b2baf8136a3693067301d0603551d0e041604\
    144b9f9f8b2e3bbcb9f9bb5e94474b928cb560e1be301f0603551d230418301680144b9f9f8b2e3bbcb9f9bb5e94\
    474b928cb560e1be300f0603551d130101ff040530030101ff30140603551d11040d300b82096c6f63616c686f73\
    74300a06082a8648ce3d0403020347003044022012457f8608312a6fd55c2a2753843a5724972ad6b35d877d9e5c\
    56c106cc9f9502207b23f48305f400e2a4e086825696e5226ccc43b4815b3d884ea146d1020cfe82";

/// A P-256 key, in SEC1.
const EC_KEY: &str = "30770201010420b30af44f573361eb7ec984245be36c2d207e169ce39233f5d6a248270def0a26a00a06082a8648\
    ce3d030107a144034200047d31dea408ff564c74a0c7aed002d95509dd5a38473f2eaa2a2be737cb51b51417f3ef\
    d49d23f05bf98d3f4ade8c89a5eaeca8575800d1ca2495732b2baf8136";

/// The same key, in PKCS#8.
const EC_KEY_PKCS8: &str = "308187020100301306072a8648ce3d020106082a8648ce3d030107046d306b0201010420b30af44f573361eb7ec9\
    84245be36c2d207e169ce39233f5d6a248270def0a26a144034200047d31dea408ff564c74a0c7aed002d95509dd\
    5a38473f2eaa2a2be737cb51b51417f3efd49d23f05bf98d3f4ade8c89a5eaeca8575800d1ca2495732b2baf8136";

/// Another P-256 key, in SEC1.
const OTHER_KEY: &str = "30770201010420de7d81702842cb7cec017f3c17fc5bead5ae9117c799284bfd4a52b6a38bfab6a00a06082a8648\
    ce3d030107a144034200049c0117432bfe9c61c71c2c45442179970d12106a116a04b881dcea982f84c34bb0dbe6\
    f7537eacb974faa3200cd549e5d2dee239963c97931eafa62248f6dc67";

/// A self-signed certificate for the RSA key below, in DER.
const RSA_CERT: &str = "3082032130820209a0030201020214598ced4cfaaaf553e54286c9277b4a97fae33d88300d06092a864886f70d01\
    010b050030143112301006035504030c096c6f63616c686f73743020170d3236313131363039303034335a180f32\
    313236313032333039303034335a30143112301006035504030c096c6f63616c686f737430820122300d06092a86\
    4886f70d01010105000382010f003082010a0282010100c02e648c9c873bb3ff23ea9e3dfd963fcb6625777da9ff\
    0e28a42cbca5db2a1aa2a5de4c04ab398b0c0d531be13f990ba6e9bbc8555946e8430a89df6cf8e8b1cd580d0e9c\
    0e00bad80d1c14975e9028309654aa4d820ccf9906274f3c5de22082da6312aec7ec875bf1de8efe06bb78077ec0\
    a0889cba2b62b8b9bbd0918e2c3cd0384af9aedc3a59a65b77cd8b89609f0a3530d5728d31b77ed021406fe6d5ef\
    c7584bf508cd1b0819cfb8233574bf5b15e66ce9216befb4ce4aa5cf434ffe9e39d202da138b8ff9026b7caad38a\
    51baff5659994c5b910ba656c0d646fd6e7fb107677e5abbe2be755c73ad8860be9b5c128da0bfc06f8da4c4a181\
    24c7790203010001a3693067301d0603551d0e041604145bce4535e23f815113006f04c97dee4b5e874db2301f06\
    03551d230418301680145bce4535e23f815113006f04c97dee4b5e874db2300f0603551d130101ff040530030101\
    ff30140603551d11040d300b82096c6f63616c686f7374300d06092a864886f70d01010b050003820101009b9e82\
    31d310aa115d86db050d5df059af5d0416de346a655ec4856e48279f214172c6c2b500b5148efec7b266c614a9be\
    ff379a4bb14ac12408d25327130852d28b6717629b97d46893aff15521d25c35c7b272dc52510048e68896589d7d\
    8ec0c7c85dd0135d567b6cf78d719ae31914f5dbe02439029ed1b9e0f5bcf7aeddbeb04f4b28bb0a32537e914f8e\
    bd954b1d4872b60528980014c27a473a7da9b9d6a2a09133c9fad1b8d0b00bdbfcfdb330762a1081074fe8672b54\
    b78d271aac51ee45c4e8a43a128baa044c38d9d462e3a8a4bb0ca45a8d203899a8630d859841f8c91c7b7722c204\
    e738d942eda032f31ba262c7e6fea32f4c8a25239c7ae7";

/// An RSA key, in PKCS#1.
const RSA_KEY: &str = "308204a30201000282010100c02e648c9c873bb3ff23ea9e3dfd963fcb6625777da9ff0e28a42cbca5db2a1aa2a5\
    de4c04ab398b0c0d531be13f990ba6e9bbc8555946e8430a89df6cf8e8b1cd580d0e9c0e00bad80d1c14975e9028\
    309654aa4d820ccf9906274f3c5de22082da6312aec7ec875bf1de8efe06bb78077ec0a0889cba2b62b8b9bbd091\
    8e2c3cd0384af9aedc3a59a65b77cd8b89609f0a3530d5728d31b77ed021406fe6d5efc7584bf508cd1b0819cfb8\
    233574bf5b15e66ce9216befb4ce4aa5cf434ffe9e39d202da138b8ff9026b7caad38a51baff5659994c5b910ba6\
    56c0d646fd6e7fb107677e5abbe2be755c73ad8860be9b5c128da0bfc06f8da4c4a18124c7790203010001028201\
    0005fd8c3726813ff700e022e5e82dc43b5c80e4706b3e30cbf0055f659ea5371499cc4ccd16cf8032d989d2ca34\
    2fbcd009ab107b92a42945d5227a20b8ef5b502b83eff2ec220846200a41e7fc6894b0195a48ecfeb9d68cb96036\
    8fcd8f14478a274f88f0b7724e82805c1273504cbe003c79b9a74dd20471dbd5e249028dd41256d35fb0d4cb3bf3\
    8a7a00f7612ef2c670050aece813a020eade2a823ded25f8858644749c19517769cce7b7fea0920d9c30e619de2a\
    58bc70c5c1e381d591c91017c3a09debf2a6dac2b7aaa19aa37b82363611b1e8b456ff5259fad2e6e9321f75a292\
    1c22845f3295fa2792e4d5160151691811618f7f8ae2655d99528102818100e7448c2813e294c36013ad42a3ecc6\
    b06cb1e21bf819190e798596a3e541e25c064f83df88543ef1bd9c425561ba6d28f51aa86d1d78f977126efb430d\
    73bfe05c938e944e7ae8f4f7aad96214852e9484f75bc50f218e4504068ce15d6e4b53fbc5d0068bfe747c62082f\
    61102bb64a8cc7c177fbec46a4657ff62c19fabba102818100d4bbc4620802ddf5a7eaeb18fb269ff06a22ebe3fa\
    11447de72699749dd0763c016217cdea43e7b65e31bce6298dd6fbe716cf846e1e2cf991c9a86716cf52d8302988\
    6961667acef3e1ae547b343234f3fc716da40c376df1bc7be8ce993194618ab621d7196d7ebff97cc3b8c77d1cc0\
    ba71bd8c9f4ea87e75a4a264623cd902818003fe9f1d221acbcf041dd2e44fc88b3608ea99a93a03d4f6f70a63ab\
    b90e0646e8a4fef62178b30da1e4cd10847b9fdf113cc0a401da5114c970b94e533128a34b76110466c6a0b77a7f\
    acf990b92c30cc8b293ea2204640d2ecfa09fa7f2935ee27608c7c668cc4893cf2f48e3ef30b1e9b64b019dddeea\
    800651ce3934a78102818043ade112971de263af226bdd2cb9e314678fe8a045048d57c8dc5ce1defb5d4245e661\
    505f816f0c73f73af3b6b0ab7ec4cc5b04f4cba0df5d645cb13f6e821ac967cd40497e82ffa8535a5502455edbbd\
    ebc8626b587fa1f8d0505386b6f23114bf3ea6917a437d99b1d3e1a8bdbeae111abfe8dffe26d63035594558ce70\
    3102818100d2f88cd6073309a6344794659cf7b5445bfd56f4c21a2cea43b284092fa4e1829b03b50b3088eaa34e\
    069d624cc10461dbe6823da7acd066c1d2aded324cc0cf5bfe2649a5ad755170a439a75acf1a7638d382322e3647\
    6521e78835780dcaec87ed813c77bf01750f5d75a138277ed9aa88fd028ef646b293bad4044975b942";

/// The bytes that a hexadecimal text stands for.
fn unhex(text: &str) -> Vec<u8> {
    let digits: Vec<u8> = text.chars().map(|c| c.to_digit(16).unwrap() as u8).collect();
    digits.chunks(2).map(|pair| pair[0] * 16 + pair[1]).collect()
}

/// A PEM section with this label.
fn pem(label: &str, der: &[u8]) -> Vec<u8> {
    let alphabet = "ABCDEFGHIJKLMNOPQRSTUVWXYZabcdefghijklmnopqrstuvwxyz0123456789+/".as_bytes();
    let mut text = format!("-----BEGIN {}-----\n", label).into_bytes();
    for line in der.chunks(48) {
        for group in line.chunks(3) {
            let mut bits: u32 = 0;
            for i in 0..3 {
                bits = bits * 256 + group.get(i).copied().unwrap_or(0) as u32;
            }
            for i in 0..4 {
                if i <= group.len() {
                    text.push(alphabet[(bits >> (18 - 6 * i)) as usize & 63]);
                } else {
                    text.push(61);
                }
            }
        }
        text.push(10);
    }
    text.extend(format!("-----END {}-----\n", label).into_bytes());
    text
}

/// The alternatives that a TLS listener offers.
fn http_protocols() -> Vec<Vec<u8>> {
    vec!["h2".as_bytes().to_vec(), "http/1.1".as_bytes().to_vec()]
}

struct Plain;

impl Peers for Plain {
    type Source = &'static str;
    type JwtConfig = ();
    type Authenticator = ();
    type XdsRuleSet = ();
    type RuleSet = ();
    type Error = ();
}

fn entry(source: Option<&'static str>) -> Option<LocalDataSource<Plain>> {
    Some(LocalDataSource { source })
}

/// Takes any certificate for good.
#[derive(Debug)]
struct AnyCertificate;

impl ServerCertVerifier for AnyCertificate {
    fn verify_server_cert(
        &self,
        _end_entity: &CertificateDer<'_>,
        _intermediates: &[CertificateDer<'_>],
        _server_name: &ServerName<'_>,
        _ocsp_response: &[u8],
        _now: UnixTime,
    ) -> Result<ServerCertVerified, rustls::Error> {
        Ok(ServerCertVerified::assertion())
    }

    fn verify_tls12_signature(
        &self,
        message: &[u8],
        cert: &CertificateDer<'_>,
        dss: &DigitallySignedStruct,
    ) -> Result<HandshakeSignatureValid, rustls::Error> {
        let algorithms = rustls::crypto::ring::default_provider().signature_verification_algorithms;
        rustls::crypto::verify_tls12_signature(message, cert, dss, &algorithms)
    }

    fn verify_tls13_signature(
        &self,
        message: &[u8],
        cert: &CertificateDer<'_>,
        dss: &DigitallySignedStruct,
    ) -> Result<HandshakeSignatureValid, rustls::Error> {
        let algorithms = rustls::crypto::ring::default_provider().signature_verification_algorithms;
        rustls::crypto::verify_tls13_signature(message, cert, dss, &algorithms)
    }

    fn supported_verify_schemes(&self) -> Vec<SignatureScheme> {
        rustls::crypto::ring::default_provider()
            .signature_verification_algorithms
            .supported_schemes()
    }
}

/// Lets a client that has a certificate of its own shake hands with a server.
fn shake_hands(config: Arc<ServerConfig>) -> (ClientConnection, ServerConnection) {
    let provider = Arc::new(rustls::crypto::ring::default_provider());
    let mut client_config = ClientConfig::builder_with_provider(provider)
        .with_safe_default_protocol_versions()
        .unwrap()
        .dangerous()
        .with_custom_certificate_verifier(Arc::new(AnyCertificate))
        .with_client_auth_cert(
            vec![CertificateDer::from(unhex(EC_CERT))],
            PrivateKeyDer::Sec1(PrivateSec1KeyDer::from(unhex(EC_KEY))),
        )
        .unwrap();
    client_config.alpn_protocols = http_protocols().into_iter().rev().collect();
    let name = ServerName::try_from("localhost").unwrap();
    let mut client = ClientConnection::new(Arc::new(client_config), name).unwrap();
    let mut server = ServerConnection::new(config).unwrap();

    for _ in 0..10 {
        let mut wire = Vec::new();
        while client.wants_write() {
            client.write_tls(&mut wire).unwrap();
        }
        let mut sent = wire.as_slice();
        while !sent.is_empty() {
            server.read_tls(&mut sent).unwrap();
            server.process_new_packets().unwrap();
        }
        let mut wire = Vec::new();
        while server.wants_write() {
            server.write_tls(&mut wire).unwrap();
        }
        let mut sent = wire.as_slice();
        while !sent.is_empty() {
            client.read_tls(&mut sent).unwrap();
            client.process_new_packets().unwrap();
        }
    }

    assert!(!client.is_handshaking() && !server.is_handshaking());
    (client, server)
}

#[test]
fn clients_see_the_chain_and_the_preferred_protocol() {
    let key = pem("RSA PRIVATE KEY", &unhex(RSA_KEY));
    let mut cert = pem("CERTIFICATE", &unhex(RSA_CERT));
    cert.extend(pem("CERTIFICATE", &unhex(EC_CERT)));
    let config = try_server_config(&key, &cert).unwrap().ok().unwrap();
    let (client, _) = shake_hands(config);
    let seen: Vec<Vec<u8>> =
        client.peer_certificates().unwrap().iter().map(|cert| cert.to_vec()).collect();
    assert_eq!(seen, vec![unhex(RSA_CERT), unhex(EC_CERT)]);
    assert_eq!(client.alpn_protocol(), Some("h2".as_bytes()));
}

#[test]
fn clients_are_not_asked_for_a_certificate() {
    let key = pem("EC PRIVATE KEY", &unhex(EC_KEY));
    let cert = pem("CERTIFICATE", &unhex(EC_CERT));
    let (_, server) = shake_hands(rustls_server_config(&key, &cert).ok().unwrap());
    assert!(server.peer_certificates().is_none());
}

/// The RSA key in PKCS#8: its PKCS#1 form behind a version and an algorithm.
fn rsa_key_pkcs8() -> Vec<u8> {
    let key = unhex(RSA_KEY);
    let mut body = unhex("020100300d06092a864886f70d01010105000482");
    body.extend((key.len() as u16).to_be_bytes());
    body.extend(key);
    let mut der = unhex("3082");
    der.extend((body.len() as u16).to_be_bytes());
    der.extend(body);
    der
}

#[test]
fn an_rsa_key_in_pkcs8_makes_a_configuration() {
    let key = pem("PRIVATE KEY", &rsa_key_pkcs8());
    let mut cert = pem("CERTIFICATE", &unhex(RSA_CERT));
    cert.extend(pem("CERTIFICATE", &unhex(EC_CERT)));
    let (client, _) = shake_hands(try_server_config(&key, &cert).unwrap().ok().unwrap());
    let seen: Vec<Vec<u8>> =
        client.peer_certificates().unwrap().iter().map(|cert| cert.to_vec()).collect();
    assert_eq!(seen, vec![unhex(RSA_CERT), unhex(EC_CERT)]);
    let other = pem("CERTIFICATE", &unhex(EC_CERT));
    assert!(matches!(
        try_server_config(&key, &other),
        Some(Err(ServerConfigError::Identity(_)))
    ));
}

#[test]
fn other_sections_make_no_difference() {
    let mut key = pem("CERTIFICATE", &unhex(EC_CERT));
    key.extend(pem("PUBLIC KEY", &[0, 1, 2]));
    key.extend(pem("SOMETHING ELSE", &[3]));
    key.extend(pem("RSA PRIVATE KEY", &unhex(RSA_KEY)));
    key.extend("-----BEGIN PUBLIC KEY-----\n".as_bytes());
    let mut cert = pem("EC PRIVATE KEY", &unhex(EC_KEY));
    cert.extend(pem("CERTIFICATE", &unhex(RSA_CERT)));
    cert.extend(pem("SOMETHING ELSE", &[3]));
    cert.extend(pem("CERTIFICATE", &unhex(EC_CERT)));
    cert.extend(pem("PUBLIC KEY", &[0, 1, 2]));
    let (client, _) = shake_hands(try_server_config(&key, &cert).unwrap().ok().unwrap());
    let seen: Vec<Vec<u8>> =
        client.peer_certificates().unwrap().iter().map(|cert| cert.to_vec()).collect();
    assert_eq!(seen, vec![unhex(RSA_CERT), unhex(EC_CERT)]);
}

#[test]
fn a_malformed_section_of_any_kind_counts() {
    let malformed = "-----BEGIN PUBLIC KEY-----\n".as_bytes();
    let key = pem("RSA PRIVATE KEY", &unhex(RSA_KEY));
    let cert = pem("CERTIFICATE", &unhex(RSA_CERT));
    let mut cut = cert.clone();
    cut.extend(malformed);
    assert!(try_server_config(&key, &cut).is_none());
    let illegal = "-----BEGIN PUBLIC KEY\n".as_bytes().to_vec();
    assert!(matches!(
        try_server_config(&illegal, &cert),
        Some(Err(ServerConfigError::KeyPem(
            rustls::pki_types::pem::Error::IllegalSectionStart { .. }
        )))
    ));
}

#[test]
fn a_key_is_taken_up_as_it_was_read() {
    let read = PrivateKey { format: KeyFormat::Sec1, der: unhex(EC_KEY) };
    let key = checked_key(Ok(read)).ok().unwrap();
    assert!(matches!(key.format, KeyFormat::Sec1));
    assert_eq!(key.der, unhex(EC_KEY));
    assert!(matches!(
        checked_key(Err(rustls::pki_types::pem::Error::NoItemsFound)),
        Err(ServerConfigError::KeyPem(rustls::pki_types::pem::Error::NoItemsFound))
    ));
}

#[test]
fn ec_key_makes_a_configuration() {
    let key = pem("EC PRIVATE KEY", &unhex(EC_KEY));
    let cert = pem("CERTIFICATE", &unhex(EC_CERT));
    let config = try_server_config(&key, &cert).unwrap().ok().unwrap();
    assert_eq!(config.alpn_protocols, http_protocols());
}

#[test]
fn pkcs8_key_makes_a_configuration() {
    let key = pem("PRIVATE KEY", &unhex(EC_KEY_PKCS8));
    let cert = pem("CERTIFICATE", &unhex(EC_CERT));
    let config = rustls_server_config(&key, &cert).ok().unwrap();
    assert_eq!(config.alpn_protocols, http_protocols());
}

#[test]
fn pkcs1_key_makes_a_configuration() {
    let key = pem("RSA PRIVATE KEY", &unhex(RSA_KEY));
    let cert = pem("CERTIFICATE", &unhex(RSA_CERT));
    let config = try_server_config(&key, &cert).unwrap().ok().unwrap();
    assert_eq!(config.alpn_protocols, http_protocols());
}

#[test]
fn the_first_private_key_counts() {
    let mut key = pem("CERTIFICATE", &unhex(EC_CERT));
    key.extend(pem("EC PRIVATE KEY", &unhex(EC_KEY)));
    key.extend(pem("EC PRIVATE KEY", &unhex(OTHER_KEY)));
    let cert = pem("CERTIFICATE", &unhex(EC_CERT));
    assert!(try_server_config(&key, &cert).unwrap().is_ok());
}

#[test]
fn a_chain_may_have_more_than_one_certificate() {
    let key = pem("EC PRIVATE KEY", &unhex(EC_KEY));
    let mut cert = pem("CERTIFICATE", &unhex(EC_CERT));
    cert.extend(pem("CERTIFICATE", &unhex(RSA_CERT)));
    assert!(try_server_config(&key, &cert).unwrap().is_ok());
    let mut swapped = pem("CERTIFICATE", &unhex(RSA_CERT));
    swapped.extend(pem("CERTIFICATE", &unhex(EC_CERT)));
    assert!(matches!(
        try_server_config(&key, &swapped),
        Some(Err(ServerConfigError::Identity(_)))
    ));
}

#[test]
fn a_text_without_a_key_is_reported() {
    let cert = pem("CERTIFICATE", &unhex(EC_CERT));
    assert!(matches!(
        rustls_server_config(&Vec::new(), &cert),
        Err(ServerConfigError::KeyPem(rustls::pki_types::pem::Error::NoItemsFound))
    ));
    assert!(matches!(
        try_server_config(&cert, &cert),
        Some(Err(ServerConfigError::KeyPem(_)))
    ));
}

#[test]
fn an_unreadable_key_is_reported_before_malformed_certificates() {
    let malformed = "-----BEGIN CERTIFICATE-----\n".as_bytes().to_vec();
    assert!(matches!(
        try_server_config(&Vec::new(), &malformed),
        Some(Err(ServerConfigError::KeyPem(_)))
    ));
}

#[test]
fn malformed_certificates_are_set_apart() {
    let key = pem("EC PRIVATE KEY", &unhex(EC_KEY));
    let mut cert = pem("CERTIFICATE", &unhex(EC_CERT));
    cert.extend("-----BEGIN CERTIFICATE-----\n".as_bytes());
    assert!(try_server_config(&key, &cert).is_none());
}

#[test]
fn a_key_of_another_certificate_is_refused() {
    let key = pem("EC PRIVATE KEY", &unhex(OTHER_KEY));
    let cert = pem("CERTIFICATE", &unhex(EC_CERT));
    assert!(matches!(
        try_server_config(&key, &cert),
        Some(Err(ServerConfigError::Identity(_)))
    ));
}

#[test]
fn an_empty_chain_is_refused() {
    let key = pem("RSA PRIVATE KEY", &unhex(RSA_KEY));
    assert!(matches!(
        try_server_config(&key, &Vec::new()),
        Some(Err(ServerConfigError::Identity(_)))
    ));
}

#[test]
fn a_refusal_stays_the_refusal() {
    let refused = complete_config(Err(rustls::Error::NoCertificatesPresented));
    assert!(matches!(
        refused,
        Err(ServerConfigError::Identity(rustls::Error::NoCertificatesPresented))
    ));
}

#[test]
fn parts_are_missed_in_order() {
    let cases = vec![
        (None, None, MissingPart::CertPem, "cert_pem is required"),
        (None, entry(None), MissingPart::CertPem, "cert_pem is required"),
        (entry(None), None, MissingPart::CertPemSource, "cert_pem source is required"),
        (entry(Some("c")), None, MissingPart::KeyPem, "key_pem is required"),
        (entry(Some("c")), entry(None), MissingPart::KeyPemSource, "key_pem source is required"),
    ];
    for (cert_pem, key_pem, part, message) in cases {
        let missing = from_xds_tls_config(XdsTlsConfig::<Plain> { cert_pem, key_pem }).err();
        assert_eq!(missing, Some(part));
        assert_eq!(part.message(), message);
    }
}

#[test]
fn both_sources_are_taken_over() {
    let sources = from_xds_tls_config(XdsTlsConfig::<Plain> {
        cert_pem: entry(Some("the chain")),
        key_pem: entry(Some("the key")),
    })
    .ok()
    .unwrap();
    assert_eq!(sources.cert, "the chain");
    assert_eq!(sources.key, "the key");
}
