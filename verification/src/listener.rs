//! Listeners, and how one is built from its description.
//!
//! Building a listener takes work that this library cannot do itself: reading a certificate,
//! fetching the keys of an authenticator, compiling a rule set. [`SseListener::from_xds`]
//! therefore returns an [`SseBuild`], which is either finished or a question together with the
//! value whose `resume` takes the answer. The questions come one at a time, so that nothing is
//! asked once something has failed.

use std::sync::Arc;

use crate::peers::Peers;
use crate::tls;
use crate::tls::{MissingPart, ServerConfigError, TlsConfig};
use crate::xds::{XdsAuthn, XdsListener, XdsListenerSpec, XdsSseListener};
use rustls::ServerConfig;
use vstd::prelude::*;

verus! {

/// Who stands before a listener.
#[derive(Clone, Copy, Debug, PartialEq, Eq, Structural)]
pub enum ListenerMode {
    /// A proxy, which announces the client's address ahead of each connection.
    Proxy,
}

/// One way for clients to reach the proxy, with authenticators of type `A` and rule sets of type
/// `R`.
#[derive(Clone, Debug)]
pub enum Listener<A, R> {
    /// Server-sent events over HTTP.
    Sse(SseListener<A, R>),
    /// The standard input and output of the process.
    Stdio,
}

/// A listener that serves server-sent events.
#[derive(Clone, Debug)]
pub struct SseListener<A, R> {
    pub host: String,
    pub port: u32,
    pub mode: Option<ListenerMode>,
    pub authn: Option<A>,
    pub tls: Option<TlsConfig>,
    pub rbac: Vec<R>,
}

/// What there is to know of an [`SseListener`].
pub struct SseView<A, R> {
    pub host: Seq<char>,
    pub port: u32,
    pub mode: Option<ListenerMode>,
    pub authn: Option<A>,
    pub tls: Option<TlsConfig>,
    pub rbac: Seq<R>,
}

impl<A, R> SseListener<A, R> {
    pub open spec fn view(&self) -> SseView<A, R> {
        SseView {
            host: self.host@,
            port: self.port,
            mode: self.mode,
            authn: self.authn,
            tls: self.tls,
            rbac: self.rbac@,
        }
    }
}

/// Why a description makes no listener.
pub enum ListenerError<P: Peers> {
    /// The TLS section lacks a part.
    Missing(MissingPart),
    /// The certificate chain could not be fetched.
    CertSource(P::Error),
    /// The private key could not be fetched.
    KeySource(P::Error),
    /// The certificate chain and the private key make no server configuration.
    ServerConfig(ServerConfigError),
    /// The authenticator could not be set up.
    Authenticator(P::Error),
    /// A rule set could not be taken over.
    RuleSet(P::Error),
}

impl<P: Peers> ListenerError<P> {
    /// What a report puts before the error of the neighbouring module.
    pub fn prefix(&self) -> (prefix: &'static str)
        ensures
            prefix@ == match *self {
                ListenerError::Authenticator(_) => "error creating jwt authenticator: "@,
                _ => ""@,
            },
    {
        match self {
            ListenerError::Authenticator(_) => "error creating jwt authenticator: ",
            _ => "",
        }
    }
}

/// A piece of work that building a listener asks for.
pub enum Question<P: Peers> {
    /// Fetch the certificate chain.
    Cert(P::Source),
    /// Fetch the private key.
    Key(P::Source),
    /// Set up an authenticator.
    Jwt(P::JwtConfig),
    /// Take over a rule set.
    Rule(P::XdsRuleSet),
}

/// The answers that the questions of one build get.
pub struct Replies<P: Peers> {
    pub cert: Result<Seq<u8>, P::Error>,
    pub key: Result<Seq<u8>, P::Error>,
    /// The server configuration that the text of a private key, which comes first, and that of a
    /// certificate chain make, as [`tls::try_server_config`] gives it.
    pub config: spec_fn(Seq<u8>, Seq<u8>) -> Option<Result<Arc<ServerConfig>, ServerConfigError>>,
    pub jwt: Result<P::Authenticator, P::Error>,
    /// The answer for each rule set, in the order of the description.
    pub rules: Seq<Result<P::RuleSet, P::Error>>,
}

/// What a build comes to.
pub enum Outcome<P: Peers> {
    Built(SseView<P::Authenticator, P::RuleSet>),
    Missing(MissingPart),
    CertSource(P::Error),
    KeySource(P::Error),
    /// Chain and key make no server configuration.
    ServerConfig(ServerConfigError),
    /// A section of the certificate text is malformed, so that the build cannot go on.
    CertPem,
    Authenticator(P::Error),
    RuleSet(P::Error),
}

/// The whole course of a build: the questions in the order in which they are asked, and what they
/// come to.
#[verifier::ext_equal]
pub struct Course<P: Peers> {
    pub asked: Seq<Question<P>>,
    pub outcome: Outcome<P>,
}

impl<P: Peers> Course<P> {
    /// Nothing more is asked.
    pub open spec fn stop(outcome: Outcome<P>) -> Self {
        Course { asked: Seq::empty(), outcome }
    }

    /// This question is asked, and then things go on.
    pub open spec fn ask(question: Question<P>, rest: Course<P>) -> Self {
        Course { asked: seq![question] + rest.asked, outcome: rest.outcome }
    }
}

/// A build that is under way: what it asks for next, or what it has come to.
pub enum SseBuild<P: Peers> {
    ResolveCert { source: P::Source, then: AfterCert<P> },
    ResolveKey { source: P::Source, then: AfterKey<P> },
    Authenticate { jwt: P::JwtConfig, then: AfterJwt<P> },
    ConvertRule { rule: P::XdsRuleSet, then: AfterRule<P> },
    Finished(Result<SseListener<P::Authenticator, P::RuleSet>, ListenerError<P>>),
    /// The private key is readable, and a section of the certificate text is malformed.
    MalformedCertificates,
}

/// The parts of a description that are used once TLS is settled.
pub struct Parts<P: Peers> {
    pub address: String,
    pub port: u32,
    pub authn: Option<XdsAuthn<P>>,
    pub rbac: Vec<P::XdsRuleSet>,
}

/// A build that waits for the certificate chain.
pub struct AfterCert<P: Peers> {
    pub key: P::Source,
    pub parts: Parts<P>,
}

/// A build that waits for the private key.
pub struct AfterKey<P: Peers> {
    pub cert: Vec<u8>,
    pub parts: Parts<P>,
}

/// A build that waits for its authenticator.
pub struct AfterJwt<P: Peers> {
    pub address: String,
    pub port: u32,
    pub tls: Option<TlsConfig>,
    pub rbac: Vec<P::XdsRuleSet>,
}

/// A build that waits for a rule set.
pub struct AfterRule<P: Peers> {
    pub address: String,
    pub port: u32,
    pub tls: Option<TlsConfig>,
    pub authn: Option<P::Authenticator>,
    /// The rule sets taken over so far.
    pub done: Vec<P::RuleSet>,
    /// The rule sets still to be asked for.
    pub rest: Vec<P::XdsRuleSet>,
}

/// The bytes of an answer.
pub open spec fn reply_view<E>(reply: Result<Vec<u8>, E>) -> Result<Seq<u8>, E> {
    match reply {
        Ok(bytes) => Ok(bytes@),
        Err(e) => Err(e),
    }
}

/// What a failed build reports.
pub open spec fn failure<P: Peers>(error: ListenerError<P>) -> Outcome<P> {
    match error {
        ListenerError::Missing(part) => Outcome::Missing(part),
        ListenerError::CertSource(e) => Outcome::CertSource(e),
        ListenerError::KeySource(e) => Outcome::KeySource(e),
        ListenerError::ServerConfig(e) => Outcome::ServerConfig(e),
        ListenerError::Authenticator(e) => Outcome::Authenticator(e),
        ListenerError::RuleSet(e) => Outcome::RuleSet(e),
    }
}

/// The course of a build from its rule sets on: those in `rest` are asked for one by one, the
/// first that fails ends the build, and the listener gets them in the order of the description.
pub open spec fn rules_course<P: Peers>(
    listener: SseView<P::Authenticator, P::RuleSet>,
    rest: Seq<P::XdsRuleSet>,
    r: Replies<P>,
) -> Course<P>
    decreases rest.len(),
{
    if rest.len() == 0 {
        Course::stop(Outcome::Built(listener))
    } else {
        Course::ask(
            Question::Rule(rest[0]),
            match r.rules[listener.rbac.len() as int] {
                Err(e) => Course::stop(Outcome::RuleSet(e)),
                Ok(rule) => rules_course(
                    SseView { rbac: listener.rbac.push(rule), ..listener },
                    rest.drop_first(),
                    r,
                ),
            },
        )
    }
}

/// The listener that a build has before its first rule set.
pub open spec fn bare_listener<A, R>(
    address: Seq<char>,
    port: u32,
    tls: Option<TlsConfig>,
    authn: Option<A>,
) -> SseView<A, R> {
    SseView { host: address, port, mode: None, authn, tls, rbac: Seq::empty() }
}

/// The course of a build once TLS is settled: an authenticator is set up where the description
/// holds token settings, and the rule sets follow.
pub open spec fn settled_course<P: Peers>(
    parts: Parts<P>,
    tls: Option<TlsConfig>,
    r: Replies<P>,
) -> Course<P> {
    match parts.authn {
        Some(XdsAuthn { jwt: Some(jwt) }) => Course::ask(
            Question::Jwt(jwt),
            match r.jwt {
                Err(e) => Course::stop(Outcome::Authenticator(e)),
                Ok(authn) => rules_course(
                    bare_listener(parts.address@, parts.port, tls, Some(authn)),
                    parts.rbac@,
                    r,
                ),
            },
        ),
        _ => rules_course(bare_listener(parts.address@, parts.port, tls, None), parts.rbac@, r),
    }
}

/// The course of a build from its server configuration on: it goes on with the very configuration,
/// or reports the very error.
pub open spec fn configured_course<P: Peers>(
    parts: Parts<P>,
    config: Option<Result<Arc<ServerConfig>, ServerConfigError>>,
    r: Replies<P>,
) -> Course<P> {
    match config {
        None => Course::stop(Outcome::CertPem),
        Some(Err(e)) => Course::stop(Outcome::ServerConfig(e)),
        Some(Ok(inner)) => settled_course(parts, Some(TlsConfig { inner }), r),
    }
}

/// The course of a build from the answer for the private key on: the server configuration is made
/// of the key and of the certificate chain that was fetched before it.
pub open spec fn key_reply_course<P: Peers>(
    parts: Parts<P>,
    cert: Seq<u8>,
    key: Result<Seq<u8>, P::Error>,
    r: Replies<P>,
) -> Course<P> {
    match key {
        Err(e) => Course::stop(Outcome::KeySource(e)),
        Ok(key) => configured_course(parts, (r.config)(key, cert), r),
    }
}

/// The course of a build from the answer for the certificate chain on.
pub open spec fn cert_reply_course<P: Peers>(
    parts: Parts<P>,
    key_source: P::Source,
    cert: Result<Seq<u8>, P::Error>,
    r: Replies<P>,
) -> Course<P> {
    match cert {
        Err(e) => Course::stop(Outcome::CertSource(e)),
        Ok(cert) => Course::ask(
            Question::Key(key_source),
            key_reply_course(parts, cert, r.key, r),
        ),
    }
}

/// The parts of a description that are used once TLS is settled.
pub open spec fn parts_of<P: Peers>(value: XdsSseListener<P>) -> Parts<P> {
    Parts { address: value.address, port: value.port, authn: value.authn, rbac: value.rbac }
}

/// The course of building a listener from its description: TLS first, then the authenticator,
/// then the rule sets.
pub open spec fn description_course<P: Peers>(value: XdsSseListener<P>, r: Replies<P>) -> Course<
    P,
> {
    match value.tls {
        None => settled_course(parts_of(value), None, r),
        Some(tls) => match tls::required_sources(tls) {
            Err(part) => Course::stop(Outcome::Missing(part)),
            Ok(sources) => Course::ask(
                Question::Cert(sources.cert),
                cert_reply_course(parts_of(value), sources.key, r.cert, r),
            ),
        },
    }
}

impl<P: Peers> AfterRule<P> {
    /// The listener as far as it has come.
    pub open spec fn listener(self) -> SseView<P::Authenticator, P::RuleSet> {
        SseView {
            rbac: self.done@,
            ..bare_listener(self.address@, self.port, self.tls, self.authn)
        }
    }

    /// The course of the build from the answer on.
    pub open spec fn course(
        self,
        reply: Result<P::RuleSet, P::Error>,
        r: Replies<P>,
    ) -> Course<P> {
        match reply {
            Err(e) => Course::stop(Outcome::RuleSet(e)),
            Ok(rule) => rules_course(
                SseView { rbac: self.done@.push(rule), ..self.listener() },
                self.rest@,
                r,
            ),
        }
    }
}

impl<P: Peers> AfterJwt<P> {
    /// The course of the build from the answer on.
    pub open spec fn course(
        self,
        reply: Result<P::Authenticator, P::Error>,
        r: Replies<P>,
    ) -> Course<P> {
        match reply {
            Err(e) => Course::stop(Outcome::Authenticator(e)),
            Ok(authn) => rules_course(
                bare_listener(self.address@, self.port, self.tls, Some(authn)),
                self.rbac@,
                r,
            ),
        }
    }
}

impl<P: Peers> SseBuild<P> {
    /// The course that the build takes from here on with these answers.
    pub open spec fn course(self, r: Replies<P>) -> Course<P> {
        match self {
            SseBuild::ResolveCert { source, then } => Course::ask(
                Question::Cert(source),
                cert_reply_course(then.parts, then.key, r.cert, r),
            ),
            SseBuild::ResolveKey { source, then } => Course::ask(
                Question::Key(source),
                key_reply_course(then.parts, then.cert@, r.key, r),
            ),
            SseBuild::Authenticate { jwt, then } => Course::ask(
                Question::Jwt(jwt),
                then.course(r.jwt, r),
            ),
            SseBuild::ConvertRule { rule, then } => Course::ask(
                Question::Rule(rule),
                then.course(r.rules[then.done@.len() as int], r),
            ),
            SseBuild::Finished(Ok(listener)) => Course::stop(Outcome::Built(listener@)),
            SseBuild::Finished(Err(e)) => Course::stop(failure(e)),
            SseBuild::MalformedCertificates => Course::stop(Outcome::CertPem),
        }
    }

    /// Whether the build has come to its rule sets with these parts: it asks for the first of those
    /// in `rest`, or has come to its listener where there is none left.
    pub open spec fn at_rules(
        self,
        host: Seq<char>,
        port: u32,
        tls: Option<TlsConfig>,
        authn: Option<P::Authenticator>,
        done: Seq<P::RuleSet>,
        rest: Seq<P::XdsRuleSet>,
    ) -> bool {
        if rest.len() == 0 {
            &&& self matches SseBuild::Finished(Ok(listener))
            &&& listener.host@ == host
            &&& listener.port == port
            &&& listener.mode is None
            &&& listener.authn == authn
            &&& listener.tls == tls
            &&& listener.rbac@ == done
        } else {
            &&& self matches SseBuild::ConvertRule { rule, then }
            &&& rule == rest[0]
            &&& then.address@ == host
            &&& then.port == port
            &&& then.tls == tls
            &&& then.authn == authn
            &&& then.done@ == done
            &&& then.rest@ == rest.drop_first()
        }
    }

    /// Whether the build is what these parts come to next with this TLS side.
    pub open spec fn settled(self, parts: Parts<P>, tls: Option<TlsConfig>) -> bool {
        match parts.authn {
            Some(XdsAuthn { jwt: Some(jwt) }) => {
                &&& self matches SseBuild::Authenticate { jwt: asked, then }
                &&& asked == jwt
                &&& then == AfterJwt::<P> {
                    address: parts.address,
                    port: parts.port,
                    tls,
                    rbac: parts.rbac,
                }
            },
            _ => self.at_rules(
                parts.address@,
                parts.port,
                tls,
                None,
                Seq::empty(),
                parts.rbac@,
            ),
        }
    }

    /// Whether the build is the beginning for this description.
    pub open spec fn begins(self, value: XdsSseListener<P>) -> bool {
        match value.tls {
            None => self.settled(parts_of(value), None),
            Some(section) => match tls::required_sources(section) {
                Err(part) => self == SseBuild::<P>::Finished(Err(ListenerError::Missing(part))),
                Ok(sources) => self == SseBuild::<P>::ResolveCert {
                    source: sources.cert,
                    then: AfterCert { key: sources.key, parts: parts_of(value) },
                },
            },
        }
    }

    /// The TLS side that the build carries, or that its listener has, once it is settled.
    pub open spec fn tls(self) -> Option<TlsConfig> {
        match self {
            SseBuild::Authenticate { then, .. } => then.tls,
            SseBuild::ConvertRule { then, .. } => then.tls,
            SseBuild::Finished(Ok(listener)) => listener.tls,
            _ => None,
        }
    }
}

impl<P: Peers> AfterRule<P> {
    /// Goes on to the next rule set, or finishes the listener where there is none left.
    fn next(self) -> (build: SseBuild<P>)
        ensures
            forall|r: Replies<P>| #[trigger]
                build.course(r) == rules_course(self.listener(), self.rest@, r),
            build.tls() == self.tls,
            build.at_rules(
                self.address@,
                self.port,
                self.tls,
                self.authn,
                self.done@,
                self.rest@,
            ),
    {
        let mut this = self;
        if this.rest.len() == 0 {
            SseBuild::Finished(
                Ok(
                    SseListener {
                        host: this.address,
                        port: this.port,
                        mode: None,
                        authn: this.authn,
                        tls: this.tls,
                        rbac: this.done,
                    },
                ),
            )
        } else {
            let rule = this.rest.remove(0);
            assert(this.rest@ =~= self.rest@.drop_first());
            SseBuild::ConvertRule { rule, then: this }
        }
    }

    /// Takes the answer for a rule set.
    pub fn resume(self, reply: Result<P::RuleSet, P::Error>) -> (build: SseBuild<P>)
        ensures
            forall|r: Replies<P>| #[trigger] build.course(r) == self.course(reply, r),
            reply is Ok ==> build.tls() == self.tls,
            match reply {
                Err(e) => build == SseBuild::<P>::Finished(Err(ListenerError::RuleSet(e))),
                Ok(rule) => build.at_rules(
                    self.address@,
                    self.port,
                    self.tls,
                    self.authn,
                    self.done@.push(rule),
                    self.rest@,
                ),
            },
    {
        match reply {
            Err(e) => SseBuild::Finished(Err(ListenerError::RuleSet(e))),
            Ok(rule) => {
                let mut this = self;
                this.done.push(rule);
                this.next()
            },
        }
    }
}

impl<P: Peers> AfterJwt<P> {
    /// Goes on to the rule sets.
    fn start_rules(self, authn: Option<P::Authenticator>) -> (build: SseBuild<P>)
        ensures
            forall|r: Replies<P>| #[trigger]
                build.course(r) == rules_course(
                    bare_listener(self.address@, self.port, self.tls, authn),
                    self.rbac@,
                    r,
                ),
            build.tls() == self.tls,
            build.at_rules(
                self.address@,
                self.port,
                self.tls,
                authn,
                Seq::empty(),
                self.rbac@,
            ),
    {
        let then = AfterRule {
            address: self.address,
            port: self.port,
            tls: self.tls,
            authn,
            done: Vec::new(),
            rest: self.rbac,
        };
        then.next()
    }

    /// Takes the answer for the authenticator.
    pub fn resume(self, reply: Result<P::Authenticator, P::Error>) -> (build: SseBuild<P>)
        ensures
            forall|r: Replies<P>| #[trigger] build.course(r) == self.course(reply, r),
            reply is Ok ==> build.tls() == self.tls,
            match reply {
                Err(e) => build == SseBuild::<P>::Finished(Err(ListenerError::Authenticator(e))),
                Ok(authn) => build.at_rules(
                    self.address@,
                    self.port,
                    self.tls,
                    Some(authn),
                    Seq::empty(),
                    self.rbac@,
                ),
            },
    {
        match reply {
            Err(e) => SseBuild::Finished(Err(ListenerError::Authenticator(e))),
            Ok(authn) => self.start_rules(Some(authn)),
        }
    }
}

impl<P: Peers> Parts<P> {
    /// Goes on to the authenticator, or to the rule sets where none is asked for.
    fn settle(self, tls: Option<TlsConfig>) -> (build: SseBuild<P>)
        ensures
            forall|r: Replies<P>| #[trigger]
                build.course(r) == settled_course(self, tls, r),
            build.tls() == tls,
            build.settled(self, tls),
    {
        let then = AfterJwt { address: self.address, port: self.port, tls, rbac: self.rbac };
        match self.authn {
            Some(XdsAuthn { jwt: Some(jwt) }) => SseBuild::Authenticate { jwt, then },
            _ => then.start_rules(None),
        }
    }

    /// Goes on with the server configuration that the private key and the certificate chain make:
    /// `None` where the certificate text is malformed.
    pub fn configured(
        self,
        config: Option<Result<Arc<ServerConfig>, ServerConfigError>>,
    ) -> (build: SseBuild<P>)
        ensures
            forall|r: Replies<P>| #[trigger]
                build.course(r) == configured_course(self, config, r),
            config is None ==> build is MalformedCertificates,
            config matches Some(Err(e)) ==> build == SseBuild::<P>::Finished(
                Err(ListenerError::ServerConfig(e)),
            ),
            config matches Some(Ok(inner)) ==> build.tls() == Some(TlsConfig { inner }),
            config matches Some(Ok(inner)) ==> build.settled(self, Some(TlsConfig { inner })),
    {
        match config {
            None => SseBuild::MalformedCertificates,
            Some(Err(e)) => SseBuild::Finished(Err(ListenerError::ServerConfig(e))),
            Some(Ok(inner)) => self.settle(Some(TlsConfig { inner })),
        }
    }
}

impl<P: Peers> AfterKey<P> {
    /// Whether `build` is how things go on from this answer with this server configuration, and
    /// whether the key and the certificate chain may make it.
    pub open spec fn resumed(
        self,
        reply: Result<Vec<u8>, P::Error>,
        config: Option<Result<Arc<ServerConfig>, ServerConfigError>>,
        build: SseBuild<P>,
    ) -> bool {
        match reply {
            Err(e) => build == SseBuild::<P>::Finished(Err(ListenerError::KeySource(e))),
            Ok(key) => {
                &&& tls::config_answer(key@, self.cert@, config)
                &&& forall|r: Replies<P>| #[trigger]
                    build.course(r) == configured_course(self.parts, config, r)
                &&& config matches Some(Ok(inner)) ==> build.tls() == Some(TlsConfig { inner })
                &&& match config {
                    None => build is MalformedCertificates,
                    Some(Err(e)) => build == SseBuild::<P>::Finished(
                        Err(ListenerError::ServerConfig(e)),
                    ),
                    Some(Ok(inner)) => build.settled(self.parts, Some(TlsConfig { inner })),
                }
            },
        }
    }

    /// Takes the answer for the private key, and makes a server configuration of it and the
    /// certificate chain.
    pub fn resume(self, reply: Result<Vec<u8>, P::Error>) -> (build: SseBuild<P>)
        ensures
            exists|config: Option<Result<Arc<ServerConfig>, ServerConfigError>>|
                self.resumed(reply, config, build),
    {
        match reply {
            Err(e) => {
                let build = SseBuild::Finished(Err(ListenerError::KeySource(e)));
                assert(self.resumed(reply, None, build));
                build
            },
            Ok(key) => {
                let config = tls::try_server_config(&key, &self.cert);
                let ghost answer = config;
                let build = self.parts.configured(config);
                assert(self.resumed(reply, answer, build));
                build
            },
        }
    }
}

impl<P: Peers> AfterCert<P> {
    /// Takes the answer for the certificate chain.
    pub fn resume(self, reply: Result<Vec<u8>, P::Error>) -> (build: SseBuild<P>)
        ensures
            forall|r: Replies<P>| #[trigger]
                build.course(r) == cert_reply_course(self.parts, self.key, reply_view(reply), r),
            build == match reply {
                Err(e) => SseBuild::<P>::Finished(Err(ListenerError::CertSource(e))),
                Ok(cert) => SseBuild::ResolveKey {
                    source: self.key,
                    then: AfterKey { cert, parts: self.parts },
                },
            },
    {
        match reply {
            Err(e) => SseBuild::Finished(Err(ListenerError::CertSource(e))),
            Ok(cert) => SseBuild::ResolveKey {
                source: self.key,
                then: AfterKey { cert, parts: self.parts },
            },
        }
    }
}

impl<A, R> SseListener<A, R> {
    /// Starts building a listener from its description.
    pub fn from_xds<P: Peers<Authenticator = A, RuleSet = R>>(value: XdsSseListener<P>) -> (build:
        SseBuild<P>)
        ensures
            forall|r: Replies<P>| #[trigger] build.course(r) == description_course(value, r),
            build.begins(value),
    {
        let parts = Parts {
            address: value.address,
            port: value.port,
            authn: value.authn,
            rbac: value.rbac,
        };
        match value.tls {
            None => parts.settle(None),
            Some(tls) => match tls::from_xds_tls_config(tls) {
                Err(part) => SseBuild::Finished(Err(ListenerError::Missing(part))),
                Ok(sources) => SseBuild::ResolveCert {
                    source: sources.cert,
                    then: AfterCert { key: sources.key, parts },
                },
            },
        }
    }
}

/// A listener that is ready, or one that is being built.
pub enum ListenerBuild<P: Peers> {
    Ready(Listener<P::Authenticator, P::RuleSet>),
    Sse(SseBuild<P>),
}

impl<A, R> Listener<A, R> {
    /// Starts building a listener from its description. A description that names no kind of
    /// listener stands for the standard input and output.
    pub fn from_xds<P: Peers<Authenticator = A, RuleSet = R>>(value: XdsListener<P>) -> (build:
        ListenerBuild<P>)
        ensures
            match value.listener {
                Some(XdsListenerSpec::Sse(sse)) => {
                    &&& build is Sse
                    &&& forall|r: Replies<P>| #[trigger]
                        build->Sse_0.course(r) == description_course(sse, r)
                    &&& build->Sse_0.begins(sse)
                },
                _ => build == ListenerBuild::<P>::Ready(Listener::Stdio),
            },
    {
        match value.listener {
            Some(XdsListenerSpec::Sse(sse)) => ListenerBuild::Sse(SseListener::from_xds(sse)),
            Some(XdsListenerSpec::Stdio) => ListenerBuild::Ready(Listener::Stdio),
            None => ListenerBuild::Ready(Listener::Stdio),
        }
    }

    /// What a finished build of a server-sent events listener means for the whole: the listener,
    /// or the same error.
    pub fn from_sse<E>(built: Result<SseListener<A, R>, E>) -> (listener: Result<Self, E>)
        ensures
            listener == match built {
                Ok(sse) => Ok::<Self, E>(Listener::Sse(sse)),
                Err(e) => Err(e),
            },
    {
        match built {
            Ok(sse) => Ok(Listener::Sse(sse)),
            Err(e) => Err(e),
        }
    }
}

impl<A, R> Default for Listener<A, R> {
    fn default() -> (listener: Self)
        ensures
            listener == Listener::<A, R>::Stdio,
    {
        Listener::Stdio
    }
}

} // verus!
