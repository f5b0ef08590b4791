//! What holds of every build of a listener that is driven by its functions alone: from the
//! description, through one answer after the other, to its end.

use crate::listener::{
    AfterCert, AfterJwt, AfterKey, AfterRule, Listener, ListenerBuild, ListenerError, Parts,
    SseBuild, SseListener,
};
use crate::peers::Peers;
use crate::tls;
use crate::tls::{KeyFormat, PemLabel, ServerConfigError, TlsConfig};
use crate::tls_laws;
use crate::xds::{XdsListener, XdsListenerSpec, XdsSseListener};
use vstd::prelude::*;

verus! {

/// An answer to a question of a build.
pub enum Answer<P: Peers> {
    Bytes(Result<Vec<u8>, P::Error>),
    Authenticator(Result<P::Authenticator, P::Error>),
    Rule(Result<P::RuleSet, P::Error>),
}

/// Whether `next` is what comes of giving a build this answer.
pub open spec fn answered<P: Peers>(
    build: SseBuild<P>,
    answer: Answer<P>,
    next: SseBuild<P>,
) -> bool {
    match (build, answer) {
        (SseBuild::ResolveCert { then, .. }, Answer::Bytes(reply)) => call_ensures(
            AfterCert::<P>::resume,
            (then, reply),
            next,
        ),
        (SseBuild::ResolveKey { then, .. }, Answer::Bytes(reply)) => call_ensures(
            AfterKey::<P>::resume,
            (then, reply),
            next,
        ),
        (SseBuild::Authenticate { then, .. }, Answer::Authenticator(reply)) => call_ensures(
            AfterJwt::<P>::resume,
            (then, reply),
            next,
        ),
        (SseBuild::ConvertRule { then, .. }, Answer::Rule(reply)) => call_ensures(
            AfterRule::<P>::resume,
            (then, reply),
            next,
        ),
        _ => false,
    }
}

/// Whether a build goes through these steps when it is given these answers.
pub open spec fn driven<P: Peers>(steps: Seq<SseBuild<P>>, answers: Seq<Answer<P>>) -> bool {
    &&& steps.len() == answers.len() + 1
    &&& forall|i: int|
        0 <= i < answers.len() ==> answered(#[trigger] steps[i], answers[i], steps[i + 1])
}

/// Whether these are the steps of building this description with these answers.
pub open spec fn built_from<P: Peers>(
    value: XdsSseListener<P>,
    steps: Seq<SseBuild<P>>,
    answers: Seq<Answer<P>>,
) -> bool {
    &&& driven(steps, answers)
    &&& {
        ||| call_ensures(
            SseListener::<P::Authenticator, P::RuleSet>::from_xds::<P>,
            (value,),
            steps[0],
        )
        ||| call_ensures(
            Listener::<P::Authenticator, P::RuleSet>::from_xds::<P>,
            (XdsListener { listener: Some(XdsListenerSpec::Sse(value)) },),
            ListenerBuild::Sse(steps[0]),
        )
    }
}

/// Whether an answer is an error.
pub open spec fn fails<P: Peers>(answer: Answer<P>) -> bool {
    match answer {
        Answer::Bytes(reply) => reply is Err,
        Answer::Authenticator(reply) => reply is Err,
        Answer::Rule(reply) => reply is Err,
    }
}

/// How many answers the TLS side takes where it is settled.
pub open spec fn tls_answers<P: Peers>(value: XdsSseListener<P>) -> int {
    if value.tls is Some {
        2
    } else {
        0
    }
}

/// How many answers the authenticator takes.
pub open spec fn jwt_answers<P: Peers>(value: XdsSseListener<P>) -> int {
    if value.authn is Some && value.authn->0.jwt is Some {
        1
    } else {
        0
    }
}

/// The rest of a run is a run.
proof fn lemma_rest_is_driven<P: Peers>(steps: Seq<SseBuild<P>>, answers: Seq<Answer<P>>)
    requires
        driven(steps, answers),
        answers.len() > 0,
    ensures
        driven(steps.drop_first(), answers.drop_first()),
        answered(steps[0], answers[0], steps[1]),
        steps.drop_first().last() == steps.last(),
        steps.drop_first()[0] == steps[1],
{
    let rest = steps.drop_first();
    assert forall|i: int| 0 <= i < answers.drop_first().len() implies answered(
        #[trigger] rest[i],
        answers.drop_first()[i],
        rest[i + 1],
    ) by {
        assert(rest[i] == steps[i + 1]);
        assert(answered(steps[i + 1], answers[i + 1], steps[i + 1 + 1]));
    }
    assert(answered(steps[0], answers[0], steps[1]));
}

/// A build that asks for nothing more is at the end of its run.
proof fn lemma_run_ends<P: Peers>(steps: Seq<SseBuild<P>>, answers: Seq<Answer<P>>)
    requires
        driven(steps, answers),
        steps[0] is Finished || steps[0] is MalformedCertificates,
    ensures
        answers.len() == 0,
        steps.last() == steps[0],
{
    if answers.len() > 0 {
        lemma_rest_is_driven(steps, answers);
    }
}

/// How a run goes on from its rule sets.
#[verifier::spinoff_prover]
#[verifier::rlimit(60)]
proof fn lemma_rules_run<P: Peers>(
    steps: Seq<SseBuild<P>>,
    answers: Seq<Answer<P>>,
    host: Seq<char>,
    port: u32,
    tls: Option<TlsConfig>,
    authn: Option<P::Authenticator>,
    done: Seq<P::RuleSet>,
    rest: Seq<P::XdsRuleSet>,
)
    requires
        driven(steps, answers),
        steps[0].at_rules(host, port, tls, authn, done, rest),
    ensures
        !(steps.last() is MalformedCertificates),
        answers.len() <= rest.len(),
        forall|k: int|
            0 <= k < answers.len() ==> (#[trigger] steps[k] matches SseBuild::ConvertRule {
                rule,
                ..
            } && rule == rest[k]),
        forall|k: int| 0 <= k < answers.len() - 1 ==> !fails(#[trigger] answers[k]),
        steps.last() matches SseBuild::Finished(Ok(sse)) ==> {
            &&& answers.len() == rest.len()
            &&& sse.host@ == host
            &&& sse.port == port
            &&& sse.mode is None
            &&& sse.tls == tls
            &&& sse.authn == authn
            &&& sse.rbac@.len() == done.len() + rest.len()
            &&& sse.rbac@.take(done.len() as int) == done
            &&& forall|k: int|
                0 <= k < answers.len() ==> #[trigger] answers[k] == Answer::<P>::Rule(
                    Ok(sse.rbac@[done.len() + k]),
                )
        },
        steps.last() matches SseBuild::Finished(Err(error)) ==> {
            &&& answers.len() > 0
            &&& error matches ListenerError::RuleSet(e)
            &&& answers.last() == Answer::<P>::Rule(Err(e))
        },
        !(steps.last() is Finished) ==> {
            &&& answers.len() < rest.len()
            &&& steps.last() matches SseBuild::ConvertRule { rule, .. }
            &&& rule == rest[answers.len() as int]
            &&& answers.len() > 0 ==> !fails(answers.last())
        },
    decreases rest.len(),
{
    if rest.len() == 0 {
        lemma_run_ends(steps, answers);
        let sse = steps[0]->Finished_0->Ok_0;
        assert(sse.rbac@.take(done.len() as int) =~= done);
    } else if answers.len() > 0 {
        lemma_rest_is_driven(steps, answers);
        let later = steps.drop_first();
        let others = answers.drop_first();
        match answers[0] {
            Answer::Rule(Ok(rule)) => {
                lemma_rules_run(
                    later,
                    others,
                    host,
                    port,
                    tls,
                    authn,
                    done.push(rule),
                    rest.drop_first(),
                );
                assert forall|k: int| 0 <= k < answers.len() implies (
                #[trigger] steps[k] matches SseBuild::ConvertRule { rule, .. } && rule
                    == rest[k]) by {
                    if k > 0 {
                        assert(later[k - 1] == steps[k]);
                    }
                }
                assert forall|k: int| 0 <= k < answers.len() - 1 implies !fails(
                    #[trigger] answers[k],
                ) by {
                    if k > 0 {
                        assert(others[k - 1] == answers[k]);
                    }
                }
                if steps.last() is Finished && steps.last()->Finished_0 is Ok {
                    let sse = steps.last()->Finished_0->Ok_0;
                    let all = sse.rbac@.take(done.len() as int + 1);
                    assert(all == done.push(rule));
                    assert(sse.rbac@.take(done.len() as int) =~= done) by {
                        assert forall|i: int| 0 <= i < done.len() implies sse.rbac@[i]
                            == done[i] by {
                            assert(all[i] == done.push(rule)[i]);
                        }
                    }
                    assert(sse.rbac@[done.len() as int] == rule) by {
                        assert(all[done.len() as int] == rule);
                    }
                    assert forall|k: int| 0 <= k < answers.len() implies #[trigger] answers[k]
                        == Answer::<P>::Rule(Ok(sse.rbac@[done.len() + k])) by {
                        if k > 0 {
                            assert(others[k - 1] == answers[k]);
                        }
                    }
                }
                if others.len() > 0 {
                    assert(others.last() == answers.last());
                }
            },
            Answer::Rule(Err(e)) => {
                lemma_run_ends(later, others);
                assert(answers.last() == answers[0]);
            },
            _ => {},
        }
    }
}

/// How a run goes on once its TLS side is settled.
#[verifier::spinoff_prover]
#[verifier::rlimit(60)]
proof fn lemma_settled_run<P: Peers>(
    value: XdsSseListener<P>,
    steps: Seq<SseBuild<P>>,
    answers: Seq<Answer<P>>,
    tls: Option<TlsConfig>,
)
    requires
        driven(steps, answers),
        steps[0].settled(crate::listener::parts_of(value), tls),
    ensures
        !(steps.last() is MalformedCertificates),
        answers.len() <= jwt_answers(value) + value.rbac@.len(),
        forall|k: int| 0 <= k < answers.len() - 1 ==> !fails(#[trigger] answers[k]),
        jwt_answers(value) > 0 ==> (steps[0] matches SseBuild::Authenticate { jwt, .. } && jwt
            == value.authn->0.jwt->0),
        forall|k: int|
            jwt_answers(value) <= k < answers.len() ==> (
            #[trigger] steps[k] matches SseBuild::ConvertRule { rule, .. } && rule == value.rbac@[k
                - jwt_answers(value)]),
        steps.last() matches SseBuild::Finished(Ok(sse)) ==> {
            &&& answers.len() == jwt_answers(value) + value.rbac@.len()
            &&& sse.host@ == value.address@
            &&& sse.port == value.port
            &&& sse.mode is None
            &&& sse.tls == tls
            &&& sse.authn is Some <==> jwt_answers(value) > 0
            &&& sse.authn is Some ==> answers[0] == Answer::<P>::Authenticator(Ok(sse.authn->0))
            &&& sse.rbac@.len() == value.rbac@.len()
            &&& forall|k: int|
                jwt_answers(value) <= k < answers.len() ==> #[trigger] answers[k] == Answer::<
                    P,
                >::Rule(Ok(sse.rbac@[k - jwt_answers(value)]))
        },
        steps.last() matches SseBuild::Finished(Err(error)) ==> {
            &&& answers.len() > 0
            &&& match error {
                ListenerError::Authenticator(e) => answers.last() == Answer::<P>::Authenticator(
                    Err(e),
                ),
                ListenerError::RuleSet(e) => answers.last() == Answer::<P>::Rule(Err(e)),
                _ => false,
            }
        },
        !(steps.last() is Finished) ==> {
            &&& answers.len() < jwt_answers(value) + value.rbac@.len()
            &&& answers.len() > 0 ==> !fails(answers.last())
        },
{
    let parts = crate::listener::parts_of(value);
    if jwt_answers(value) > 0 {
        assert(steps[0] is Authenticate);
        if answers.len() > 0 {
            lemma_rest_is_driven(steps, answers);
            let later = steps.drop_first();
            let others = answers.drop_first();
            match answers[0] {
                Answer::Authenticator(Ok(authn)) => {
                    lemma_rules_run(
                        later,
                        others,
                        value.address@,
                        value.port,
                        tls,
                        Some(authn),
                        Seq::empty(),
                        value.rbac@,
                    );
                    assert forall|k: int| 1 <= k < answers.len() implies (
                    #[trigger] steps[k] matches SseBuild::ConvertRule { rule, .. } && rule
                        == value.rbac@[k - 1]) by {
                        assert(later[k - 1] == steps[k]);
                    }
                    assert forall|k: int| 0 <= k < answers.len() - 1 implies !fails(
                        #[trigger] answers[k],
                    ) by {
                        if k > 0 {
                            assert(others[k - 1] == answers[k]);
                        }
                    }
                    if steps.last() is Finished && steps.last()->Finished_0 is Ok {
                        let sse = steps.last()->Finished_0->Ok_0;
                        assert forall|k: int| 1 <= k < answers.len() implies #[trigger] answers[k]
                            == Answer::<P>::Rule(Ok(sse.rbac@[k - 1])) by {
                            assert(others[k - 1] == answers[k]);
                        }
                    }
                    if others.len() > 0 {
                        assert(others.last() == answers.last());
                    }
                },
                Answer::Authenticator(Err(e)) => {
                    lemma_run_ends(later, others);
                    assert(answers.last() == answers[0]);
                },
                _ => {},
            }
        }
    } else {
        lemma_rules_run(
            steps,
            answers,
            value.address@,
            value.port,
            tls,
            None,
            Seq::empty(),
            value.rbac@,
        );
    }
}

/// How a run begins.
proof fn lemma_run_begins<P: Peers>(
    value: XdsSseListener<P>,
    steps: Seq<SseBuild<P>>,
    answers: Seq<Answer<P>>,
)
    requires
        built_from(value, steps, answers),
    ensures
        steps[0].begins(value),
{
}

/// What comes of the texts that are fetched for a TLS side: the steps after them are again a run.
#[verifier::spinoff_prover]
#[verifier::rlimit(60)]
proof fn lemma_tls_run<P: Peers>(
    value: XdsSseListener<P>,
    steps: Seq<SseBuild<P>>,
    answers: Seq<Answer<P>>,
) -> (config: Option<Result<std::sync::Arc<rustls::ServerConfig>, ServerConfigError>>)
    requires
        built_from(value, steps, answers),
        value.tls is Some,
        answers.len() >= 2,
    ensures
        ({
            &&& value.tls->0.cert_pem is Some
            &&& value.tls->0.cert_pem->0.source is Some
            &&& value.tls->0.key_pem is Some
            &&& value.tls->0.key_pem->0.source is Some
            &&& steps[0] matches SseBuild::ResolveCert { source, .. }
            &&& source == value.tls->0.cert_pem->0.source->0
        }),
        steps[1] matches SseBuild::ResolveKey { source, .. } && source
            == value.tls->0.key_pem->0.source->0,
        answers[0] matches Answer::Bytes(Ok(_)),
        answers[1] matches Answer::Bytes(_),
        driven(steps.skip(2), answers.skip(2)),
        steps.skip(2).last() == steps.last(),
        steps.skip(2)[0] == steps[2],
        match answers[1]->Bytes_0 {
            Err(e) => {
                &&& steps[2] == SseBuild::<P>::Finished(Err(ListenerError::KeySource(e)))
                &&& steps.last() == steps[2]
                &&& answers.len() == 2
            },
            Ok(key) => {
                &&& tls::config_answer(key@, answers[0]->Bytes_0->Ok_0@, config)
                &&& match config {
                    None => {
                        &&& steps.last() is MalformedCertificates
                        &&& answers.len() == 2
                    },
                    Some(Err(e)) => {
                        &&& steps.last() == SseBuild::<P>::Finished(
                            Err(ListenerError::ServerConfig(e)),
                        )
                        &&& answers.len() == 2
                    },
                    Some(Ok(inner)) => steps[2].settled(
                        crate::listener::parts_of(value),
                        Some(TlsConfig { inner }),
                    ),
                }
            },
        },
{
    lemma_run_begins(value, steps, answers);
    if tls::required_sources(value.tls->0) is Err {
        lemma_run_ends(steps, answers);
    }
    lemma_rest_is_driven(steps, answers);
    let later = steps.drop_first();
    let others = answers.drop_first();
    if answers[0] matches Answer::Bytes(Err(_)) {
        lemma_run_ends(later, others);
    }
    lemma_rest_is_driven(later, others);
    assert(later.drop_first() =~= steps.skip(2));
    assert(others.drop_first() =~= answers.skip(2));
    assert(later[0] == steps[1] && later[1] == steps[2] && others[0] == answers[1]);
    match answers[1] {
        Answer::Bytes(reply) => {
            let then = steps[1]->ResolveKey_then;
            let config = choose|
                config: Option<Result<std::sync::Arc<rustls::ServerConfig>, ServerConfigError>>,
            |
                then.resumed(reply, config, steps[2]);
            assert(then.resumed(reply, config, steps[2]));
            assert(steps.skip(2)[0] == steps[2]);
            if steps[2] is Finished || steps[2] is MalformedCertificates {
                lemma_run_ends(steps.skip(2), answers.skip(2));
            }
            config
        },
        _ => None,
    }
}

/// A listener that comes out of a build is the one described, piece by piece. It has the host and the
/// port of the description and expects no proxy. It has an authenticator exactly where the
/// description holds token settings, and it is the one answered for them. It has a rule set for each
/// of the description, the one answered for it, in the same order. No answer was an error, and no
/// question was asked twice or in vain.
#[verifier::spinoff_prover]
#[verifier::rlimit(60)]
pub proof fn law_built_listener_is_the_one_described<P: Peers>(
    value: XdsSseListener<P>,
    steps: Seq<SseBuild<P>>,
    answers: Seq<Answer<P>>,
    sse: SseListener<P::Authenticator, P::RuleSet>,
)
    requires
        built_from(value, steps, answers),
        steps.last() == SseBuild::<P>::Finished(Ok(sse)),
    ensures
        sse.host@ == value.address@,
        sse.port == value.port,
        sse.mode is None,
        sse.tls is Some <==> value.tls is Some,
        sse.authn is Some <==> (value.authn is Some && value.authn->0.jwt is Some),
        sse.rbac@.len() == value.rbac@.len(),
        ({
            let t: int = if value.tls is Some {
                2
            } else {
                0
            };
            let j: int = if value.authn is Some && value.authn->0.jwt is Some {
                1
            } else {
                0
            };
            &&& answers.len() == t + j + value.rbac@.len()
            &&& sse.authn is Some ==> {
                &&& steps[t] matches SseBuild::Authenticate { jwt, .. }
                &&& jwt == value.authn->0.jwt->0
                &&& answers[t] == Answer::<P>::Authenticator(Ok(sse.authn->0))
            }
            &&& forall|k: int|
                t + j <= k < answers.len() ==> (
                #[trigger] steps[k] matches SseBuild::ConvertRule { rule, .. } && rule
                    == value.rbac@[k - t - j])
            &&& forall|k: int|
                t + j <= k < answers.len() ==> #[trigger] answers[k] == Answer::<P>::Rule(
                    Ok(sse.rbac@[k - t - j]),
                )
        }),
{
    lemma_run_begins(value, steps, answers);
    if value.tls is None {
        lemma_settled_run(value, steps, answers, None);
    } else {
        lemma_long_enough(value, steps, answers);
        let config = lemma_tls_run(value, steps, answers);
        let later = steps.skip(2);
        let others = answers.skip(2);
        lemma_settled_run(value, later, others, Some(TlsConfig { inner: config->0->Ok_0 }));
        let j = jwt_answers(value);
        assert(later[0] == steps[2]);
        assert(others.len() > 0 ==> others[0] == answers[2]);
        assert forall|k: int| 2 + j <= k < answers.len() implies (
        #[trigger] steps[k] matches SseBuild::ConvertRule { rule, .. } && rule == value.rbac@[k - 2
            - j]) by {
            assert(later[k - 2] == steps[k]);
        }
        assert forall|k: int| 2 + j <= k < answers.len() implies #[trigger] answers[k] == Answer::<
            P,
        >::Rule(Ok(sse.rbac@[k - 2 - j])) by {
            assert(others[k - 2] == answers[k]);
        }
    }
}

/// A run with a TLS side that does not end in an error of it, or before it, has fetched both texts.
proof fn lemma_long_enough<P: Peers>(
    value: XdsSseListener<P>,
    steps: Seq<SseBuild<P>>,
    answers: Seq<Answer<P>>,
)
    requires
        built_from(value, steps, answers),
        value.tls is Some,
    ensures
        answers.len() < 2 ==> match steps.last() {
            SseBuild::ResolveCert { .. } => answers.len() == 0,
            SseBuild::ResolveKey { .. } => answers.len() == 1 && !fails(answers[0]),
            SseBuild::Finished(Err(ListenerError::Missing(part))) => answers.len() == 0
                && tls::required_sources(value.tls->0) == Err::<tls::TlsSources<P>, _>(part),
            SseBuild::Finished(Err(ListenerError::CertSource(e))) => answers.len() == 1
                && answers[0] == Answer::<P>::Bytes(Err(e)),
            _ => false,
        },
{
    lemma_run_begins(value, steps, answers);
    if answers.len() == 1 {
        if tls::required_sources(value.tls->0) is Err {
            lemma_run_ends(steps, answers);
        }
        lemma_rest_is_driven(steps, answers);
    }
}

/// A listener with a TLS side serves what was fetched from the sources of its description: each
/// certificate of the text from the certificate source, in order and without gaps, and the first
/// private key of the text from the key source. `rustls` accepts them; the listener offers HTTP/2
/// and then HTTP/1.1, and asks no client for a certificate.
#[verifier::spinoff_prover]
#[verifier::rlimit(60)]
pub proof fn law_built_listener_serves_what_was_fetched<P: Peers>(
    value: XdsSseListener<P>,
    steps: Seq<SseBuild<P>>,
    answers: Seq<Answer<P>>,
    sse: SseListener<P::Authenticator, P::RuleSet>,
)
    requires
        built_from(value, steps, answers),
        steps.last() == SseBuild::<P>::Finished(Ok(sse)),
        value.tls is Some,
    ensures
        sse.tls is Some,
        ({
            &&& value.tls->0.cert_pem is Some
            &&& value.tls->0.key_pem is Some
            &&& steps[0] matches SseBuild::ResolveCert { source, .. }
            &&& value.tls->0.cert_pem->0.source == Some(source)
        }),
        steps[1] matches SseBuild::ResolveKey { source, .. } && value.tls->0.key_pem->0.source
            == Some(source),
        answers[0] matches Answer::Bytes(Ok(_)),
        answers[1] matches Answer::Bytes(Ok(_)),
        ({
            let cert = answers[0]->Bytes_0->Ok_0@;
            let sections = tls::pem_reading(cert).0;
            let config = *sse.tls->0.inner;
            let chain = tls::config_chain(config);
            let labelled = |section: (PemLabel, Seq<u8>)| section.0 is Certificate;
            &&& tls::pem_reading(cert).1
            &&& chain.len() > 0
            &&& chain.len() == sections.filter(labelled).len()
            &&& forall|n: int|
                0 <= n < chain.len() ==> #[trigger] chain[n] == sections.filter(labelled)[n].1
            &&& tls::identity_accepted(
                chain,
                tls::config_key(config).0,
                tls::config_key(config).1,
            )
            &&& !tls::config_client_auth(config)
            &&& tls::config_alpn(config).len() == 2
            &&& tls::config_alpn(config)[0] == seq![0x68u8, 0x32u8]
            &&& tls::config_alpn(config)[1] == seq![
                0x68u8,
                0x74u8,
                0x74u8,
                0x70u8,
                0x2fu8,
                0x31u8,
                0x2eu8,
                0x31u8,
            ]
        }),
        ({
            let sections = tls::pem_reading(answers[1]->Bytes_0->Ok_0@).0;
            let signer = tls::config_key(*sse.tls->0.inner);
            exists|i: int|
                {
                    &&& 0 <= i < sections.len()
                    &&& #[trigger] sections[i] == (PemLabel::Key(signer.0), signer.1)
                    &&& forall|j: int| 0 <= j < i ==> !((#[trigger] sections[j]).0 is Key)
                }
        }),
{
    lemma_long_enough(value, steps, answers);
    let config = lemma_tls_run(value, steps, answers);
    let inner = config->0->Ok_0;
    lemma_settled_run(value, steps.skip(2), answers.skip(2), Some(TlsConfig { inner }));
    tls_laws::lemma_configuration(
        answers[1]->Bytes_0->Ok_0@,
        answers[0]->Bytes_0->Ok_0@,
        inner,
    );
}

/// A build that fails reports why, and stops there: no answer before the last was an error. What a
/// neighbouring module reported is passed on unchanged, under the question that it was asked. A
/// missing part ends the build before anything is asked; a server configuration that cannot be made
/// ends it right after the two texts, and the error is one for these very texts.
#[verifier::spinoff_prover]
#[verifier::rlimit(60)]
pub proof fn law_failed_build_reports_the_first_failure<P: Peers>(
    value: XdsSseListener<P>,
    steps: Seq<SseBuild<P>>,
    answers: Seq<Answer<P>>,
    error: ListenerError<P>,
)
    requires
        built_from(value, steps, answers),
        steps.last() == SseBuild::<P>::Finished(Err(error)),
    ensures
        forall|k: int| 0 <= k < answers.len() - 1 ==> !fails(#[trigger] answers[k]),
        match error {
            ListenerError::Missing(_) => answers.len() == 0 && value.tls is Some,
            ListenerError::CertSource(e) => {
                &&& value.tls is Some
                &&& answers.len() == 1
                &&& answers[0] == Answer::<P>::Bytes(Err(e))
            },
            ListenerError::KeySource(e) => {
                &&& value.tls is Some
                &&& answers.len() == 2
                &&& answers[1] == Answer::<P>::Bytes(Err(e))
            },
            ListenerError::ServerConfig(e) => {
                &&& value.tls is Some
                &&& answers.len() == 2
                &&& answers[0] matches Answer::Bytes(Ok(cert))
                &&& answers[1] matches Answer::Bytes(Ok(key))
                &&& match e {
                    ServerConfigError::KeyPem(e) => {
                        &&& tls::pem_key_error(key@, e)
                        &&& forall|i: int|
                            0 <= i < tls::pem_reading(key@).0.len() ==> !((
                            #[trigger] tls::pem_reading(key@).0[i]).0 is Key)
                    },
                    ServerConfigError::Identity(e) => {
                        let chain = tls::pem_reading(cert@).0.filter(
                            |section: (PemLabel, Seq<u8>)| section.0 is Certificate,
                        ).map_values(|section: (PemLabel, Seq<u8>)| section.1);
                        let sections = tls::pem_reading(key@).0;
                        exists|i: int, format: KeyFormat|
                            {
                                &&& 0 <= i < sections.len()
                                &&& sections[i].0 == PemLabel::Key(format)
                                &&& forall|j: int|
                                    0 <= j < i ==> !((#[trigger] sections[j]).0 is Key)
                                &&& #[trigger] tls::refused_with(chain, format, sections[i].1, e)
                            }
                    },
                }
            },
            ListenerError::Authenticator(e) => answers.len() > 0 && answers.last() == Answer::<
                P,
            >::Authenticator(Err(e)),
            ListenerError::RuleSet(e) => answers.len() > 0 && answers.last() == Answer::<P>::Rule(
                Err(e),
            ),
        },
{
    lemma_run_begins(value, steps, answers);
    if value.tls is None {
        lemma_settled_run(value, steps, answers, None);
    } else {
        lemma_long_enough(value, steps, answers);
        if answers.len() >= 2 {
            let config = lemma_tls_run(value, steps, answers);
            let cert = answers[0]->Bytes_0->Ok_0@;
            if answers[1]->Bytes_0 is Ok {
                let key = answers[1]->Bytes_0->Ok_0@;
                match config {
                    Some(Ok(inner)) => {
                        let others = answers.skip(2);
                        lemma_settled_run(
                            value,
                            steps.skip(2),
                            others,
                            Some(TlsConfig { inner }),
                        );
                        assert(others.last() == answers.last());
                        assert forall|k: int| 0 <= k < answers.len() - 1 implies !fails(
                            #[trigger] answers[k],
                        ) by {
                            if k >= 2 {
                                assert(others[k - 2] == answers[k]);
                            }
                        }
                    },
                    Some(Err(e)) => {
                        tls_laws::lemma_refusal(key, cert, e);
                    },
                    None => {},
                }
            }
        }
    }
}

/// A build gets stuck on malformed certificates only where both texts were fetched, the key text
/// holds a private key, and the certificate text is malformed.
pub proof fn law_stuck_only_on_malformed_certificates<P: Peers>(
    value: XdsSseListener<P>,
    steps: Seq<SseBuild<P>>,
    answers: Seq<Answer<P>>,
)
    requires
        built_from(value, steps, answers),
        steps.last() is MalformedCertificates,
    ensures
        answers.len() == 2,
        answers[0] matches Answer::Bytes(Ok(cert)) && !tls::pem_reading(cert@).1,
        answers[1] matches Answer::Bytes(Ok(key)) && exists|i: int|
            0 <= i < tls::pem_reading(key@).0.len() && (#[trigger] tls::pem_reading(key@).0[i]).0
                is Key,
{
    lemma_run_begins(value, steps, answers);
    if value.tls is None {
        lemma_settled_run(value, steps, answers, None);
    } else {
        lemma_long_enough(value, steps, answers);
        let config = lemma_tls_run(value, steps, answers);
        if answers[1]->Bytes_0 is Ok {
            match config {
                Some(Ok(inner)) => {
                    lemma_settled_run(
                        value,
                        steps.skip(2),
                        answers.skip(2),
                        Some(TlsConfig { inner }),
                    );
                },
                _ => {},
            }
            tls_laws::lemma_key_is_there(answers[1]->Bytes_0->Ok_0@);
        }
    }
}

/// A build asks for no more than the description holds: two texts at most, one authenticator at most,
/// and each rule set once. As long as it has not come to its end, no answer was an error.
#[verifier::spinoff_prover]
#[verifier::rlimit(60)]
pub proof fn law_builds_come_to_their_end<P: Peers>(
    value: XdsSseListener<P>,
    steps: Seq<SseBuild<P>>,
    answers: Seq<Answer<P>>,
)
    requires
        built_from(value, steps, answers),
    ensures
        answers.len() <= 3 + value.rbac@.len(),
        value.tls is None ==> answers.len() <= 1 + value.rbac@.len(),
        forall|k: int| 0 <= k < answers.len() - 1 ==> !fails(#[trigger] answers[k]),
        !(steps.last() is Finished) && answers.len() > 0 ==> !fails(answers.last()),
{
    lemma_run_begins(value, steps, answers);
    if value.tls is None {
        lemma_settled_run(value, steps, answers, None);
    } else {
        lemma_long_enough(value, steps, answers);
        if answers.len() >= 2 {
            let config = lemma_tls_run(value, steps, answers);
            if answers[1]->Bytes_0 is Ok {
                match config {
                    Some(Ok(inner)) => {
                        let others = answers.skip(2);
                        lemma_settled_run(
                            value,
                            steps.skip(2),
                            others,
                            Some(TlsConfig { inner }),
                        );
                        assert forall|k: int| 0 <= k < answers.len() - 1 implies !fails(
                            #[trigger] answers[k],
                        ) by {
                            if k >= 2 {
                                assert(others[k - 2] == answers[k]);
                            }
                        }
                        if others.len() > 0 {
                            assert(others.last() == answers.last());
                        }
                    },
                    _ => {},
                }
            }
        }
    }
}

/// A build goes on with the very configuration that it is given, and with all other parts unchanged:
/// it asks for its authenticator, or for its first rule set, or has its listener. An error is
/// reported as it is.
pub proof fn law_configuration_is_carried_on<P: Peers>(
    parts: Parts<P>,
    config: Option<Result<std::sync::Arc<rustls::ServerConfig>, ServerConfigError>>,
    build: SseBuild<P>,
)
    requires
        call_ensures(Parts::<P>::configured, (parts, config), build),
    ensures
        build is MalformedCertificates <==> config is None,
        config matches Some(Err(e)) ==> build == SseBuild::<P>::Finished(
            Err(ListenerError::ServerConfig(e)),
        ),
        config matches Some(Ok(inner)) ==> match build {
            SseBuild::Authenticate { jwt, then } => {
                &&& parts.authn is Some
                &&& parts.authn->0.jwt == Some(jwt)
                &&& then.tls is Some
                &&& then.tls->0.inner == inner
                &&& then.address@ == parts.address@
                &&& then.port == parts.port
                &&& then.rbac@ == parts.rbac@
            },
            SseBuild::ConvertRule { rule, then } => {
                &&& parts.authn is None || parts.authn->0.jwt is None
                &&& parts.rbac@ == seq![rule] + then.rest@
                &&& then.done@.len() == 0
                &&& then.authn is None
                &&& then.tls is Some
                &&& then.tls->0.inner == inner
                &&& then.address@ == parts.address@
                &&& then.port == parts.port
            },
            SseBuild::Finished(Ok(sse)) => {
                &&& parts.authn is None || parts.authn->0.jwt is None
                &&& parts.rbac@.len() == 0
                &&& sse.rbac@.len() == 0
                &&& sse.authn is None
                &&& sse.mode is None
                &&& sse.tls is Some
                &&& sse.tls->0.inner == inner
                &&& sse.host@ == parts.address@
                &&& sse.port == parts.port
            },
            _ => false,
        },
{
    if build is ConvertRule {
        assert(parts.rbac@ =~= seq![parts.rbac@[0]] + parts.rbac@.drop_first());
    }
}

/// A description stands for the standard input and output exactly where it does not ask for
/// server-sent events, and then nothing is asked.
pub proof fn law_descriptions_without_sse_stand_for_stdio<P: Peers>(
    value: XdsListener<P>,
    build: ListenerBuild<P>,
)
    requires
        call_ensures(
            Listener::<P::Authenticator, P::RuleSet>::from_xds::<P>,
            (value,),
            build,
        ),
    ensures
        build is Sse <==> (value.listener matches Some(XdsListenerSpec::Sse(_))),
        build matches ListenerBuild::Ready(listener) ==> listener is Stdio,
{
}

/// A built listener, or the error of its build, is handed on unchanged.
pub proof fn law_built_listener_is_handed_on<A, R, E>(
    built: Result<SseListener<A, R>, E>,
    listener: Result<Listener<A, R>, E>,
)
    requires
        call_ensures(Listener::<A, R>::from_sse::<E>, (built,), listener),
    ensures
        listener is Ok <==> built is Ok,
        listener matches Ok(whole) ==> whole == Listener::<A, R>::Sse(built->Ok_0),
        listener matches Err(error) ==> error == built->Err_0,
{
}

/// Only the error of an authenticator is reported with something before it.
pub proof fn law_only_authenticators_have_a_prefix<P: Peers>(
    error: ListenerError<P>,
    prefix: &'static str,
)
    requires
        call_ensures(ListenerError::<P>::prefix, (&error,), prefix),
    ensures
        error is Authenticator ==> prefix@ == "error creating jwt authenticator: "@,
        !(error is Authenticator) ==> prefix@.len() == 0,
{
    reveal_strlit("");
}

} // verus!
