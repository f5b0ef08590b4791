//! TLS server configuration from PEM text.
//!
//! A listener that serves TLS is described by a certificate chain and a private key, both in PEM
//! form. [`rustls_server_config`] turns the two into a configuration for `rustls`, which offers
//! HTTP/2 before HTTP/1.1. [`try_server_config`] does the same for any text.

use std::sync::Arc;

use crate::peers::Peers;
use crate::xds::XdsTlsConfig;
use rustls::pki_types::pem::PemObject;
use rustls::pki_types::{
    CertificateDer, PrivateKeyDer, PrivatePkcs1KeyDer, PrivatePkcs8KeyDer, PrivateSec1KeyDer,
};
use rustls::ServerConfig;
use vstd::prelude::*;

verus! {

/// The encoding of a private key, as the label of its PEM section tells it.
#[derive(Clone, Copy, Debug, PartialEq, Eq, Structural)]
pub enum KeyFormat {
    /// `RSA PRIVATE KEY`
    Pkcs1,
    /// `EC PRIVATE KEY`
    Sec1,
    /// `PRIVATE KEY`
    Pkcs8,
}

/// What a section of PEM text holds, as its label tells it.
pub enum PemLabel {
    /// `CERTIFICATE`
    Certificate,
    /// A private key in this encoding.
    Key(KeyFormat),
    /// Anything else that `rustls` knows.
    Other,
}

/// A private key taken out of PEM text.
pub struct PrivateKey {
    pub format: KeyFormat,
    pub der: Vec<u8>,
}

impl PrivateKey {
    /// The encoding and the DER bytes.
    pub open spec fn view(&self) -> (KeyFormat, Seq<u8>) {
        (self.format, self.der@)
    }
}

/// The TLS side of a listener, ready to accept connections.
#[derive(Clone, Debug)]
pub struct TlsConfig {
    pub inner: Arc<ServerConfig>,
}

/// What a TLS configuration presents and offers.
pub struct TlsView {
    /// The certificate chain, in DER.
    pub chain: Seq<Seq<u8>>,
    /// The encoding of the private key and its DER bytes.
    pub key: (KeyFormat, Seq<u8>),
    /// The application protocols offered, most preferred first.
    pub alpn: Seq<Seq<u8>>,
    /// Whether clients are asked for a certificate.
    pub client_auth: bool,
}

impl TlsConfig {
    pub open spec fn view(&self) -> TlsView {
        TlsView {
            chain: config_chain(*self.inner),
            key: config_key(*self.inner),
            alpn: config_alpn(*self.inner),
            client_auth: config_client_auth(*self.inner),
        }
    }
}

/// Why PEM text makes no server configuration.
pub enum ServerConfigError {
    /// The key text holds no readable private key.
    KeyPem(rustls::pki_types::pem::Error),
    /// `rustls` takes the key and the chain for no identity.
    Identity(rustls::Error),
}

/// The application protocols that every TLS listener offers: `h2`, and `http/1.1` after it.
pub open spec fn offered_protocols() -> Seq<Seq<u8>> {
    seq![
        seq![0x68u8, 0x32u8],
        seq![0x68u8, 0x74u8, 0x74u8, 0x70u8, 0x2fu8, 0x31u8, 0x2eu8, 0x31u8],
    ]
}

/// What a configuration made of this chain and this key presents and offers. It asks no client
/// for a certificate.
pub open spec fn served_identity(chain: Seq<Seq<u8>>, key: (KeyFormat, Seq<u8>)) -> TlsView {
    TlsView { chain, key, alpn: offered_protocols(), client_auth: false }
}

/// The first private key among the sections of a PEM text.
pub open spec fn first_key(sections: Seq<(PemLabel, Seq<u8>)>) -> Option<(KeyFormat, Seq<u8>)>
    decreases sections.len(),
{
    if sections.len() == 0 {
        None
    } else {
        match sections[0] {
            (PemLabel::Key(format), der) => Some((format, der)),
            _ => first_key(sections.drop_first()),
        }
    }
}

/// The certificates among the sections of a PEM text, in order.
pub open spec fn certificates_in(sections: Seq<(PemLabel, Seq<u8>)>) -> Seq<Seq<u8>>
    decreases sections.len(),
{
    if sections.len() == 0 {
        Seq::empty()
    } else {
        match sections[0] {
            (PemLabel::Certificate, der) => seq![der] + certificates_in(sections.drop_first()),
            _ => certificates_in(sections.drop_first()),
        }
    }
}

/// The private key that is read out of a PEM text: the first one, or `None` where there is none
/// before the first malformed section.
pub open spec fn pem_private_key(pem: Seq<u8>) -> Option<(KeyFormat, Seq<u8>)> {
    first_key(pem_reading(pem).0)
}

/// The certificates that are read out of a PEM text: all of them, or `None` where a section is
/// malformed.
pub open spec fn pem_certificates(pem: Seq<u8>) -> Option<Seq<Seq<u8>>> {
    if pem_reading(pem).1 {
        Some(certificates_in(pem_reading(pem).0))
    } else {
        None
    }
}

/// Whether PEM texts can be taken up at all: a key that can be read must come with certificate
/// text of which every section is well formed.
pub open spec fn readable(key_pem: Seq<u8>, cert_pem: Seq<u8>) -> bool {
    pem_private_key(key_pem) is Some ==> pem_certificates(cert_pem) is Some
}

/// Whether `rustls` can refuse this chain and this key at all.
pub open spec fn refusal_possible(chain: Seq<Seq<u8>>, format: KeyFormat, key: Seq<u8>) -> bool {
    exists|error: rustls::Error| refused_with(chain, format, key, error)
}

/// What `rustls` may say of this chain and this key. It takes them for an identity only where they
/// make one; it then presents that chain, signs with that key and asks for no client certificate.
/// It refuses them only with an error that it can give for them. For a PKCS#1 key one of the two is
/// certain. A key of another encoding may be an ECDSA key; setting up such a key draws on the
/// random source of the system, and fails where that source fails.
pub open spec fn identity_outcome(
    chain: Seq<Seq<u8>>,
    key: (KeyFormat, Seq<u8>),
    outcome: Result<Arc<ServerConfig>, rustls::Error>,
) -> bool {
    match outcome {
        Ok(inner) => {
            &&& identity_accepted(chain, key.0, key.1)
            &&& chain.len() > 0
            &&& (TlsConfig { inner })@ == served_identity(chain, key)
        },
        Err(error) => {
            &&& refused_with(chain, key.0, key.1, error)
            &&& key.0 is Pkcs1 ==> !identity_accepted(chain, key.0, key.1)
        },
    }
}

/// What readable PEM texts come to: an unreadable key is reported before the certificates are
/// looked at, with the error of the reader, and a configuration comes out exactly where `rustls`
/// takes chain and key for an identity.
pub open spec fn server_config_outcome(
    key_pem: Seq<u8>,
    cert_pem: Seq<u8>,
    outcome: Result<Arc<ServerConfig>, ServerConfigError>,
) -> bool {
    match pem_private_key(key_pem) {
        None => outcome matches Err(ServerConfigError::KeyPem(error)) && pem_key_error(
            key_pem,
            error,
        ),
        Some(key) => {
            let chain = pem_certificates(cert_pem)->0;
            match outcome {
                Ok(inner) => identity_outcome(chain, key, Ok(inner)),
                Err(ServerConfigError::Identity(error)) => identity_outcome(chain, key, Err(error)),
                Err(ServerConfigError::KeyPem(_)) => false,
            }
        },
    }
}

/// What PEM texts come to: `None` where a readable key comes with malformed certificate text, and
/// otherwise what [`server_config_outcome`] says.
pub open spec fn config_answer(
    key_pem: Seq<u8>,
    cert_pem: Seq<u8>,
    answer: Option<Result<Arc<ServerConfig>, ServerConfigError>>,
) -> bool {
    match answer {
        None => !readable(key_pem, cert_pem),
        Some(outcome) => {
            &&& readable(key_pem, cert_pem)
            &&& server_config_outcome(key_pem, cert_pem, outcome)
        },
    }
}

/// The configuration type of `rustls`, opaque but for [`config_chain`], [`config_key`],
/// [`config_alpn`] and [`config_client_auth`].
#[verifier::external_type_specification]
#[verifier::external_body]
pub struct ExServerConfig(ServerConfig);

/// The error of the PEM reader of `rustls`, opaque.
#[verifier::external_type_specification]
#[verifier::external_body]
pub struct ExPemError(rustls::pki_types::pem::Error);

/// The error of `rustls`, opaque.
#[verifier::external_type_specification]
#[verifier::external_body]
pub struct ExRustlsError(rustls::Error);

/// What `SliceIter`, the section reader of `rustls`, finds in a PEM text: the sections that it knows,
/// in order, up to the end or to the first error, and whether it comes to the end.
pub uninterp spec fn pem_reading(pem: Seq<u8>) -> (Seq<(PemLabel, Seq<u8>)>, bool);

/// Whether `PrivateKeyDer::from_pem_slice` gives this error for this text.
pub uninterp spec fn pem_key_error(pem: Seq<u8>, error: rustls::pki_types::pem::Error) -> bool;

/// Whether `ConfigBuilder::with_single_cert` takes the chain and the key for a server identity,
/// with the `ring` provider and a random source that answers.
pub uninterp spec fn identity_accepted(chain: Seq<Seq<u8>>, format: KeyFormat, key: Seq<u8>) -> bool;

/// Whether `ConfigBuilder::with_single_cert` refuses the chain and the key with this error, with the
/// `ring` provider, in some state of the random source.
pub uninterp spec fn refused_with(
    chain: Seq<Seq<u8>>,
    format: KeyFormat,
    key: Seq<u8>,
    error: rustls::Error,
) -> bool;

/// The certificate chain that a configuration presents to every client.
pub uninterp spec fn config_chain(config: ServerConfig) -> Seq<Seq<u8>>;

/// The private key that a configuration signs with.
pub uninterp spec fn config_key(config: ServerConfig) -> (KeyFormat, Seq<u8>);

/// The `alpn_protocols` of a configuration, most preferred first.
pub uninterp spec fn config_alpn(config: ServerConfig) -> Seq<Seq<u8>>;

/// Whether the client certificate verifier of a configuration asks clients for a certificate.
pub uninterp spec fn config_client_auth(config: ServerConfig) -> bool;

/// Calls `PrivateKeyDer::from_pem_slice` of `rustls`, which decodes the first section that is a
/// private key. It fails where there is none, or where an error comes before it; the error that it
/// gives is one of those that [`pem_key_error`] names.
#[verifier::external_body]
fn first_private_key(pem: &Vec<u8>) -> (key: Result<PrivateKey, rustls::pki_types::pem::Error>)
    ensures
        match key {
            Ok(key) => first_key(pem_reading(pem@).0) == Some(key@),
            Err(error) => first_key(pem_reading(pem@).0) is None && pem_key_error(pem@, error),
        },
{
    match PrivateKeyDer::from_pem_slice(pem)? {
        PrivateKeyDer::Pkcs1(key) => Ok(PrivateKey {
            format: KeyFormat::Pkcs1,
            der: key.secret_pkcs1_der().to_vec(),
        }),
        PrivateKeyDer::Sec1(key) => Ok(PrivateKey {
            format: KeyFormat::Sec1,
            der: key.secret_sec1_der().to_vec(),
        }),
        key => Ok(PrivateKey { format: KeyFormat::Pkcs8, der: key.secret_der().to_vec() }),
    }
}

/// Calls `CertificateDer::pem_slice_iter` of `rustls`, which iterates over all sections that are
/// certificates, and collects what it yields. It fails where any section, of whatever kind, gives
/// an error.
#[verifier::external_body]
fn all_certificates(pem: &Vec<u8>) -> (chain: Result<
    Vec<Vec<u8>>,
    rustls::pki_types::pem::Error,
>)
    ensures
        match chain {
            Ok(chain) => pem_reading(pem@).1 && chain.deep_view() == certificates_in(
                pem_reading(pem@).0,
            ),
            Err(_) => !pem_reading(pem@).1,
        },
{
    CertificateDer::pem_slice_iter(pem).map(|cert| cert.map(|cert| cert.to_vec())).collect()
}

/// Calls `ConfigBuilder::with_single_cert` of `rustls`, on a builder with the `ring` provider, the
/// default protocol versions and no client authentication. That provider is used whichever one the
/// process has installed as its default.
///
/// Where it succeeds, the configuration presents the chain, signs with the key, asks no client for
/// a certificate and offers no application protocols yet; the chain is not empty, since its first
/// certificate is held against the key. Which chains and keys can succeed is named by
/// [`identity_accepted`], and which can fail, and how, by [`refused_with`]. The two exclude each
/// other but for ECDSA keys, for which `ring` draws a random nonce key: which of the two then comes
/// is left unsaid. Such a key comes in SEC1 or PKCS#8, so that a PKCS#1 key that fails is refused
/// for good.
#[verifier::external_body]
fn single_cert_config(chain: Vec<Vec<u8>>, key: PrivateKey) -> (config: Result<
    ServerConfig,
    rustls::Error,
>)
    ensures
        config is Ok ==> {
            &&& identity_accepted(chain.deep_view(), key.format, key.der@)
            &&& chain@.len() > 0
            &&& config_chain(config->Ok_0) == chain.deep_view()
            &&& config_key(config->Ok_0) == key@
            &&& config_alpn(config->Ok_0) == Seq::<Seq<u8>>::empty()
            &&& !config_client_auth(config->Ok_0)
        },
        config matches Err(error) ==> refused_with(
            chain.deep_view(),
            key.format,
            key.der@,
            error,
        ),
        config is Err && key.format is Pkcs1 ==> !identity_accepted(
            chain.deep_view(),
            key.format,
            key.der@,
        ),
{
    let key = match key.format {
        KeyFormat::Pkcs1 => PrivateKeyDer::Pkcs1(PrivatePkcs1KeyDer::from(key.der)),
        KeyFormat::Sec1 => PrivateKeyDer::Sec1(PrivateSec1KeyDer::from(key.der)),
        KeyFormat::Pkcs8 => PrivateKeyDer::Pkcs8(PrivatePkcs8KeyDer::from(key.der)),
    };
    let chain = chain.into_iter().map(CertificateDer::from).collect();
    ServerConfig::builder_with_provider(Arc::new(rustls::crypto::ring::default_provider()))
        .with_safe_default_protocol_versions()?
        .with_no_client_auth()
        .with_single_cert(chain, key)
}

/// Sets the public field `alpn_protocols` of a `rustls` configuration, and nothing else.
#[verifier::external_body]
fn set_alpn(config: &mut ServerConfig, protocols: Vec<Vec<u8>>)
    ensures
        config_alpn(*final(config)) == protocols.deep_view(),
        config_chain(*final(config)) == config_chain(*old(config)),
        config_key(*final(config)) == config_key(*old(config)),
        config_client_auth(*final(config)) == config_client_auth(*old(config)),
{
    config.alpn_protocols = protocols;
}

/// A part that the TLS section of a listener description must have, and does not.
#[derive(Clone, Copy, Debug, PartialEq, Eq, Structural)]
pub enum MissingPart {
    CertPem,
    CertPemSource,
    KeyPem,
    KeyPemSource,
}

impl MissingPart {
    /// The text of the report.
    pub open spec fn spec_message(self) -> Seq<char> {
        match self {
            MissingPart::CertPem => "cert_pem is required"@,
            MissingPart::CertPemSource => "cert_pem source is required"@,
            MissingPart::KeyPem => "key_pem is required"@,
            MissingPart::KeyPemSource => "key_pem source is required"@,
        }
    }

    /// The text of the report.
    pub fn message(&self) -> (message: &'static str)
        ensures
            message@ == self.spec_message(),
    {
        match self {
            MissingPart::CertPem => "cert_pem is required",
            MissingPart::CertPemSource => "cert_pem source is required",
            MissingPart::KeyPem => "key_pem is required",
            MissingPart::KeyPemSource => "key_pem source is required",
        }
    }
}

/// Where the certificate chain and the private key of a listener are.
pub struct TlsSources<P: Peers> {
    pub cert: P::Source,
    pub key: P::Source,
}

/// The two data sources of a TLS section, or the first part that it lacks: the certificate comes
/// before the key, and an entry before the source in it.
pub open spec fn required_sources<P: Peers>(value: XdsTlsConfig<P>) -> Result<
    TlsSources<P>,
    MissingPart,
> {
    if value.cert_pem is None {
        Err(MissingPart::CertPem)
    } else if value.cert_pem->0.source is None {
        Err(MissingPart::CertPemSource)
    } else if value.key_pem is None {
        Err(MissingPart::KeyPem)
    } else if value.key_pem->0.source is None {
        Err(MissingPart::KeyPemSource)
    } else {
        Ok(TlsSources { cert: value.cert_pem->0.source->0, key: value.key_pem->0.source->0 })
    }
}

/// Takes the two data sources out of the TLS section of a listener description.
pub fn from_xds_tls_config<P: Peers>(value: XdsTlsConfig<P>) -> (sources: Result<
    TlsSources<P>,
    MissingPart,
>)
    ensures
        sources == required_sources(value),
{
    let cert = match value.cert_pem {
        None => return Err(MissingPart::CertPem),
        Some(cert) => match cert.source {
            None => return Err(MissingPart::CertPemSource),
            Some(source) => source,
        },
    };
    let key = match value.key_pem {
        None => return Err(MissingPart::KeyPem),
        Some(key) => match key.source {
            None => return Err(MissingPart::KeyPemSource),
            Some(source) => source,
        },
    };
    Ok(TlsSources { cert, key })
}

/// The list of application protocols to offer.
fn protocol_list() -> (protocols: Vec<Vec<u8>>)
    ensures
        protocols.deep_view() == offered_protocols(),
{
    let mut protocols: Vec<Vec<u8>> = Vec::new();
    protocols.push(vec![0x68u8, 0x32u8]);
    protocols.push(vec![0x68u8, 0x74u8, 0x74u8, 0x70u8, 0x2fu8, 0x31u8, 0x2eu8, 0x31u8]);
    assert(protocols.deep_view() =~~= offered_protocols());
    protocols
}

/// Takes up what `rustls` has read out of the key text: an error stays that error.
pub fn checked_key(answer: Result<PrivateKey, rustls::pki_types::pem::Error>) -> (key: Result<
    PrivateKey,
    ServerConfigError,
>)
    ensures
        key == match answer {
            Ok(key) => Ok::<PrivateKey, ServerConfigError>(key),
            Err(e) => Err(ServerConfigError::KeyPem(e)),
        },
{
    match answer {
        Ok(key) => Ok(key),
        Err(e) => Err(ServerConfigError::KeyPem(e)),
    }
}

/// Completes what `rustls` has answered for a readable key and chain: a configuration is given the
/// application protocols that it offers and is shared; an error stays that error.
pub fn complete_config(answer: Result<ServerConfig, rustls::Error>) -> (config: Result<
    Arc<ServerConfig>,
    ServerConfigError,
>)
    ensures
        match answer {
            Ok(bare) => config is Ok && (TlsConfig { inner: config->Ok_0 })@ == (TlsView {
                chain: config_chain(bare),
                key: config_key(bare),
                alpn: offered_protocols(),
                client_auth: config_client_auth(bare),
            }),
            Err(e) => config == Err::<Arc<ServerConfig>, _>(ServerConfigError::Identity(e)),
        },
{
    match answer {
        Err(e) => Err(ServerConfigError::Identity(e)),
        Ok(bare) => {
            let mut config = bare;
            set_alpn(&mut config, protocol_list());
            Ok(Arc::new(config))
        },
    }
}

/// Makes a server configuration of a private key and a certificate chain in PEM form.
///
/// The key is read first. Certificate text with a malformed section is not for this function: use
/// [`try_server_config`] where the text is not known to be readable.
pub fn rustls_server_config(key: &Vec<u8>, cert: &Vec<u8>) -> (config: Result<
    Arc<ServerConfig>,
    ServerConfigError,
>)
    requires
        readable(key@, cert@),
    ensures
        server_config_outcome(key@, cert@, config),
{
    match checked_key(first_private_key(key)) {
        Err(e) => Err(e),
        Ok(key) => {
            let chain = all_certificates(cert).unwrap();
            complete_config(single_cert_config(chain, key))
        },
    }
}

/// Makes a server configuration of PEM text as [`rustls_server_config`] does, or returns `None`
/// where the key is readable and a section of the certificate text is malformed.
pub fn try_server_config(key: &Vec<u8>, cert: &Vec<u8>) -> (config: Option<
    Result<Arc<ServerConfig>, ServerConfigError>,
>)
    ensures
        config_answer(key@, cert@, config),
{
    if first_private_key(key).is_ok() && all_certificates(cert).is_err() {
        None
    } else {
        Some(rustls_server_config(key, cert))
    }
}

/// The two texts count only through the private key and the certificates that are read out of them:
/// other texts that give the same come to the same outcomes. Where the key is unreadable, the error
/// that is reported is that of its own text.
pub proof fn law_only_what_is_read_counts(
    key: Seq<u8>,
    cert: Seq<u8>,
    other_key: Seq<u8>,
    other_cert: Seq<u8>,
)
    requires
        pem_private_key(key) == pem_private_key(other_key),
        pem_certificates(cert) == pem_certificates(other_cert),
    ensures
        readable(key, cert) == readable(other_key, other_cert),
        forall|outcome: Result<Arc<ServerConfig>, ServerConfigError>|
            (outcome matches Err(ServerConfigError::KeyPem(error)) ==> pem_key_error(key, error)
                == pem_key_error(other_key, error)) ==> #[trigger] server_config_outcome(
                key,
                cert,
                outcome,
            ) == server_config_outcome(other_key, other_cert, outcome),
        forall|answer: Option<Result<Arc<ServerConfig>, ServerConfigError>>|
            (answer matches Some(Err(ServerConfigError::KeyPem(error))) ==> pem_key_error(
                key,
                error,
            ) == pem_key_error(other_key, error)) ==> #[trigger] config_answer(key, cert, answer)
                == config_answer(other_key, other_cert, answer),
{
}

/// Two configurations made of texts out of which the same is read present the same chain, sign with
/// the same key and offer the same protocols. For a PKCS#1 key either both are made or neither is.
pub proof fn law_same_reading_same_identity(
    key: Seq<u8>,
    cert: Seq<u8>,
    other_key: Seq<u8>,
    other_cert: Seq<u8>,
    outcome: Result<Arc<ServerConfig>, ServerConfigError>,
    other: Result<Arc<ServerConfig>, ServerConfigError>,
)
    requires
        pem_private_key(key) == pem_private_key(other_key),
        pem_certificates(cert) == pem_certificates(other_cert),
        server_config_outcome(key, cert, outcome),
        server_config_outcome(other_key, other_cert, other),
    ensures
        outcome is Ok && other is Ok ==> (TlsConfig { inner: outcome->Ok_0 })@ == (TlsConfig {
            inner: other->Ok_0,
        })@,
        pem_private_key(key) matches Some(k) && k.0 is Pkcs1 ==> (outcome is Ok <==> other is Ok),
        pem_private_key(key) is None ==> outcome is Err && other is Err,
{
}

/// Whether `longer` is `shorter` with sections inserted anywhere whose labels satisfy `extra`.
pub open spec fn inserted(
    longer: Seq<(PemLabel, Seq<u8>)>,
    shorter: Seq<(PemLabel, Seq<u8>)>,
    extra: spec_fn(PemLabel) -> bool,
) -> bool
    decreases longer.len(),
{
    if longer.len() == 0 {
        shorter.len() == 0
    } else {
        ||| extra(longer[0].0) && inserted(longer.drop_first(), shorter, extra)
        ||| {
            &&& shorter.len() > 0
            &&& longer[0] == shorter[0]
            &&& inserted(longer.drop_first(), shorter.drop_first(), extra)
        }
    }
}

/// Sections that are no private keys do not change which private key is the first.
proof fn lemma_first_key_among_others(
    longer: Seq<(PemLabel, Seq<u8>)>,
    shorter: Seq<(PemLabel, Seq<u8>)>,
    extra: spec_fn(PemLabel) -> bool,
)
    requires
        inserted(longer, shorter, extra),
        forall|label: PemLabel| #[trigger] extra(label) ==> !(label is Key),
    ensures
        first_key(longer) == first_key(shorter),
    decreases longer.len(),
{
    if longer.len() > 0 {
        if extra(longer[0].0) && inserted(longer.drop_first(), shorter, extra) {
            lemma_first_key_among_others(longer.drop_first(), shorter, extra);
        } else {
            lemma_first_key_among_others(longer.drop_first(), shorter.drop_first(), extra);
        }
    }
}

/// Sections that are no certificates do not change which certificates there are.
proof fn lemma_certificates_among_others(
    longer: Seq<(PemLabel, Seq<u8>)>,
    shorter: Seq<(PemLabel, Seq<u8>)>,
    extra: spec_fn(PemLabel) -> bool,
)
    requires
        inserted(longer, shorter, extra),
        forall|label: PemLabel| #[trigger] extra(label) ==> !(label is Certificate),
    ensures
        certificates_in(longer) == certificates_in(shorter),
    decreases longer.len(),
{
    if longer.len() > 0 {
        if extra(longer[0].0) && inserted(longer.drop_first(), shorter, extra) {
            lemma_certificates_among_others(longer.drop_first(), shorter, extra);
        } else {
            lemma_certificates_among_others(longer.drop_first(), shorter.drop_first(), extra);
        }
    }
}

/// Well-formed sections inserted anywhere make no difference, as long as none in the key text is a
/// private key and none in the certificate text a certificate: the same key and the same
/// certificates are read, so that [`law_only_what_is_read_counts`] and
/// [`law_same_reading_same_identity`] apply.
pub proof fn law_other_sections_make_no_difference(
    key: Seq<u8>,
    cert: Seq<u8>,
    longer_key: Seq<u8>,
    longer_cert: Seq<u8>,
)
    requires
        inserted(
            pem_reading(longer_key).0,
            pem_reading(key).0,
            |label: PemLabel| !(label is Key),
        ),
        inserted(
            pem_reading(longer_cert).0,
            pem_reading(cert).0,
            |label: PemLabel| !(label is Certificate),
        ),
        pem_reading(longer_cert).1 == pem_reading(cert).1,
    ensures
        pem_private_key(longer_key) == pem_private_key(key),
        pem_certificates(longer_cert) == pem_certificates(cert),
        readable(longer_key, longer_cert) == readable(key, cert),
        forall|outcome: Result<Arc<ServerConfig>, ServerConfigError>|
            (outcome matches Err(e) ==> e is Identity) ==> #[trigger] server_config_outcome(
                longer_key,
                longer_cert,
                outcome,
            ) == server_config_outcome(key, cert, outcome),
{
    lemma_first_key_among_others(
        pem_reading(longer_key).0,
        pem_reading(key).0,
        |label: PemLabel| !(label is Key),
    );
    lemma_certificates_among_others(
        pem_reading(longer_cert).0,
        pem_reading(cert).0,
        |label: PemLabel| !(label is Certificate),
    );
    law_only_what_is_read_counts(longer_key, longer_cert, key, cert);
}

} // verus!
