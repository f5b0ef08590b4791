//! What holds of every build of a listener, whatever its description and the answers it gets.

use std::sync::Arc;

use crate::listener;
use crate::listener::{
    AfterCert, AfterJwt, AfterKey, AfterRule, Course, Outcome, Question, Replies, SseBuild,
    SseListener, SseView,
};
use crate::peers::Peers;
use crate::tls;
use crate::tls::{ServerConfigError, TlsConfig};
use crate::xds::{XdsAuthn, XdsSseListener};
use rustls::ServerConfig;
use vstd::prelude::*;

verus! {

/// The token settings of a description, where it has any.
pub open spec fn jwt_of<P: Peers>(authn: Option<XdsAuthn<P>>) -> Option<P::JwtConfig> {
    match authn {
        Some(authn) => authn.jwt,
        None => None,
    }
}

/// The TLS side that a description gets with these answers: `None` where it fails, `Some(None)`
/// where it asks for none.
pub open spec fn tls_settled<P: Peers>(value: XdsSseListener<P>, r: Replies<P>) -> Option<
    Option<TlsConfig>,
> {
    match value.tls {
        None => Some(None),
        Some(section) => if tls::required_sources(section) is Ok && r.cert is Ok && r.key is Ok {
            match (r.config)(r.key->Ok_0, r.cert->Ok_0) {
                Some(Ok(inner)) => Some(Some(TlsConfig { inner })),
                _ => None,
            }
        } else {
            None
        },
    }
}

/// Whether the server configuration among these answers is one that the texts among them can make.
/// [`law_runs_are_configured_with_what_was_fetched`] shows that every run of a build keeps to this.
pub open spec fn config_fits<P: Peers>(r: Replies<P>) -> bool {
    r.cert is Ok && r.key is Ok ==> tls::config_answer(
        r.key->Ok_0,
        r.cert->Ok_0,
        (r.config)(r.key->Ok_0, r.cert->Ok_0),
    )
}

/// Whether the authenticator, if one is asked for, can be set up.
pub open spec fn authn_settled<P: Peers>(value: XdsSseListener<P>, r: Replies<P>) -> bool {
    jwt_of(value.authn) is Some ==> r.jwt is Ok
}

/// Whether the first `n` rule sets can be taken over.
pub open spec fn rules_settled<P: Peers>(n: nat, r: Replies<P>) -> bool {
    forall|i: int| 0 <= i < n ==> (#[trigger] r.rules[i]) is Ok
}

/// The listener that a description asks for, with these answers.
pub open spec fn wanted_listener<P: Peers>(value: XdsSseListener<P>, r: Replies<P>) -> SseView<
    P::Authenticator,
    P::RuleSet,
> {
    SseView {
        host: value.address@,
        port: value.port,
        mode: None,
        authn: if jwt_of(value.authn) is Some {
            Some(r.jwt->Ok_0)
        } else {
            None
        },
        tls: tls_settled(value, r)->0,
        rbac: Seq::new(value.rbac@.len(), |i: int| r.rules[i]->Ok_0),
    }
}

/// The rule sets as questions.
pub open spec fn rule_questions<P: Peers>(rules: Seq<P::XdsRuleSet>) -> Seq<Question<P>> {
    rules.map_values(|rule: P::XdsRuleSet| Question::Rule(rule))
}

/// Every question that a description can give rise to, in order.
pub open spec fn all_questions<P: Peers>(value: XdsSseListener<P>) -> Seq<Question<P>> {
    questions_before_rules(value) + rule_questions::<P>(value.rbac@)
}

/// Whether the rule set at `k` is the first one from `from` on that cannot be taken over.
pub open spec fn first_failure<P: Peers>(from: int, k: int, r: Replies<P>) -> bool {
    &&& from <= k
    &&& r.rules[k] is Err
    &&& forall|i: int| from <= i < k ==> (#[trigger] r.rules[i]) is Ok
}

/// Where every rule set is taken over, all are asked for and all are in the listener.
proof fn lemma_rules_built<P: Peers>(
    listener: SseView<P::Authenticator, P::RuleSet>,
    rest: Seq<P::XdsRuleSet>,
    r: Replies<P>,
)
    requires
        forall|k: int|
            listener.rbac.len() <= k < listener.rbac.len() + rest.len() ==> (#[trigger] r.rules[k])
                is Ok,
    ensures
        listener::rules_course(listener, rest, r) == (Course {
            asked: rule_questions::<P>(rest),
            outcome: Outcome::<P>::Built(
                SseView {
                    rbac: listener.rbac + Seq::new(
                        rest.len(),
                        |i: int| r.rules[listener.rbac.len() + i]->Ok_0,
                    ),
                    ..listener
                },
            ),
        }),
    decreases rest.len(),
{
    let from = listener.rbac.len() as int;
    let all = listener.rbac + Seq::new(rest.len(), |i: int| r.rules[from + i]->Ok_0);
    if rest.len() == 0 {
        assert(all =~= listener.rbac);
        assert(rule_questions::<P>(rest) =~= Seq::<Question<P>>::empty());
    } else {
        let rule = r.rules[from]->Ok_0;
        let next = SseView { rbac: listener.rbac.push(rule), ..listener };
        lemma_rules_built(next, rest.drop_first(), r);
        assert(all =~= next.rbac + Seq::new(
            rest.drop_first().len(),
            |i: int| r.rules[next.rbac.len() + i]->Ok_0,
        ));
        assert(rule_questions::<P>(rest) =~= seq![Question::<P>::Rule(rest[0])] + rule_questions::<P>(
            rest.drop_first(),
        ));
    }
}

/// Where a rule set cannot be taken over, the first such ends the build, and none after it is
/// asked for.
proof fn lemma_rules_failed<P: Peers>(
    listener: SseView<P::Authenticator, P::RuleSet>,
    rest: Seq<P::XdsRuleSet>,
    r: Replies<P>,
    k: int,
)
    requires
        first_failure(listener.rbac.len() as int, k, r),
        k < listener.rbac.len() + rest.len(),
    ensures
        listener::rules_course(listener, rest, r) == (Course {
            asked: rule_questions::<P>(rest).take(k - listener.rbac.len() + 1),
            outcome: Outcome::<P>::RuleSet(r.rules[k]->Err_0),
        }),
    decreases rest.len(),
{
    let from = listener.rbac.len() as int;
    let questions = rule_questions::<P>(rest);
    if k == from {
        assert(questions.take(1) =~= seq![Question::<P>::Rule(rest[0])] + Seq::<
            Question<P>,
        >::empty());
    } else {
        let rule = r.rules[from]->Ok_0;
        let next = SseView { rbac: listener.rbac.push(rule), ..listener };
        lemma_rules_failed(next, rest.drop_first(), r, k);
        assert(questions.take(k - from + 1) =~= seq![Question::<P>::Rule(rest[0])]
            + rule_questions::<P>(rest.drop_first()).take(k - from));
    }
}

/// Among finitely many rule sets, either all can be taken over or one is the first that cannot.
proof fn lemma_first_failure<P: Peers>(n: nat, r: Replies<P>) -> (k: int)
    ensures
        if rules_settled(n, r) {
            k == n
        } else {
            first_failure(0, k, r) && k < n
        },
    decreases n,
{
    if n == 0 {
        0
    } else {
        let k = lemma_first_failure((n - 1) as nat, r);
        if k < n - 1 {
            assert(r.rules[k] is Err);
            k
        } else if r.rules[n - 1] is Ok {
            n as int
        } else {
            n - 1
        }
    }
}

/// The questions before the rule sets.
pub open spec fn questions_before_rules<P: Peers>(value: XdsSseListener<P>) -> Seq<Question<P>> {
    let sources = match value.tls {
        None => Seq::<Question<P>>::empty(),
        Some(section) => match tls::required_sources(section) {
            Err(_) => Seq::<Question<P>>::empty(),
            Ok(sources) => seq![
                Question::<P>::Cert(sources.cert),
                Question::<P>::Key(sources.key),
            ],
        },
    };
    sources + match jwt_of(value.authn) {
        None => Seq::<Question<P>>::empty(),
        Some(jwt) => seq![Question::<P>::Jwt(jwt)],
    }
}

/// The course of a build whose TLS side and authenticator are settled is that of its rule sets.
proof fn lemma_reaches_rules<P: Peers>(value: XdsSseListener<P>, r: Replies<P>)
    requires
        tls_settled(value, r) is Some,
        authn_settled(value, r),
    ensures
        ({
            let course = listener::description_course(value, r);
            let rules = listener::rules_course(
                SseView { rbac: Seq::empty(), ..wanted_listener(value, r) },
                value.rbac@,
                r,
            );
            &&& course.outcome == rules.outcome
            &&& course.asked == questions_before_rules(value) + rules.asked
        }),
{
    let course = listener::description_course(value, r);
    let rules = listener::rules_course(
        SseView { rbac: Seq::empty(), ..wanted_listener(value, r) },
        value.rbac@,
        r,
    );
    assert(course.asked =~= questions_before_rules(value) + rules.asked);
}

/// A listener comes out of a build exactly where its TLS side can be settled, its authenticator
/// can be set up and all its rule sets can be taken over; it is then the one described.
pub proof fn law_built_exactly_when_settled<P: Peers>(value: XdsSseListener<P>, r: Replies<P>)
    ensures
        ({
            let outcome = listener::description_course(value, r).outcome;
            let settled = tls_settled(value, r) is Some && authn_settled(value, r) && rules_settled(
                value.rbac@.len(),
                r,
            );
            &&& outcome is Built <==> settled
            &&& outcome is Built ==> outcome->Built_0 == wanted_listener(value, r)
        }),
{
    if tls_settled(value, r) is Some && authn_settled(value, r) {
        lemma_reaches_rules(value, r);
        let bare = SseView { rbac: Seq::empty(), ..wanted_listener(value, r) };
        let k = lemma_first_failure(value.rbac@.len(), r);
        if rules_settled(value.rbac@.len(), r) {
            lemma_rules_built(bare, value.rbac@, r);
            assert(wanted_listener(value, r).rbac =~= bare.rbac + Seq::new(
                value.rbac@.len(),
                |i: int| r.rules[bare.rbac.len() + i]->Ok_0,
            ));
        } else {
            lemma_rules_failed(bare, value.rbac@, r, k);
        }
    }
}

/// Where the TLS side and the authenticator are settled, a build that fails reports the first
/// rule set that cannot be taken over.
pub proof fn law_first_failing_rule_is_reported<P: Peers>(
    value: XdsSseListener<P>,
    r: Replies<P>,
    k: int,
)
    requires
        tls_settled(value, r) is Some,
        authn_settled(value, r),
        first_failure(0, k, r),
        k < value.rbac@.len(),
    ensures
        listener::description_course(value, r).outcome == Outcome::<P>::RuleSet(r.rules[k]->Err_0),
{
    lemma_reaches_rules(value, r);
    lemma_rules_failed(
        SseView { rbac: Seq::empty(), ..wanted_listener(value, r) },
        value.rbac@,
        r,
        k,
    );
}

/// A build asks its questions in the order of the description, each at most once, and stops at
/// the first failure: what it has asked is always the beginning of the full list, and the full
/// list where a listener comes out.
pub proof fn law_questions_in_order<P: Peers>(value: XdsSseListener<P>, r: Replies<P>)
    ensures
        ({
            let course = listener::description_course(value, r);
            let all = all_questions(value);
            &&& course.asked.len() <= all.len()
            &&& course.asked == all.take(course.asked.len() as int)
            &&& course.outcome is Built ==> course.asked == all
        }),
{
    let course = listener::description_course(value, r);
    let all = all_questions(value);
    let before = questions_before_rules(value);
    let questions = rule_questions::<P>(value.rbac@);
    if tls_settled(value, r) is Some && authn_settled(value, r) {
        lemma_reaches_rules(value, r);
        let bare = SseView { rbac: Seq::empty(), ..wanted_listener(value, r) };
        let k = lemma_first_failure(value.rbac@.len(), r);
        if rules_settled(value.rbac@.len(), r) {
            lemma_rules_built(bare, value.rbac@, r);
        } else {
            lemma_rules_failed(bare, value.rbac@, r, k);
        }
        assert(course.asked =~= all.take(course.asked.len() as int));
    } else {
        assert(course.asked =~= all.take(course.asked.len() as int));
    }
}

/// A TLS side that fails decides the outcome alone: the authenticator and the rule sets have no
/// say in what is reported.
pub proof fn law_tls_comes_first<P: Peers>(
    value: XdsSseListener<P>,
    other: XdsSseListener<P>,
    r: Replies<P>,
    s: Replies<P>,
)
    requires
        value.tls == other.tls,
        r.cert == s.cert,
        r.key == s.key,
        r.config == s.config,
        tls_settled(value, r) is None,
    ensures
        listener::description_course(value, r) == listener::description_course(other, s),
{
}

/// An authenticator that cannot be set up decides the outcome where TLS is settled, whatever the
/// rule sets are.
pub proof fn law_authenticator_comes_before_rules<P: Peers>(
    value: XdsSseListener<P>,
    r: Replies<P>,
)
    requires
        tls_settled(value, r) is Some,
        !authn_settled(value, r),
    ensures
        listener::description_course(value, r).outcome == Outcome::<P>::Authenticator(
            r.jwt->Err_0,
        ),
{
}

/// A listener serves TLS exactly where its description asks for it. It then presents the chain and
/// signs with the key that were fetched, which `rustls` accepts; it offers HTTP/2, and HTTP/1.1
/// after it; and it asks no client for a certificate.
pub proof fn law_tls_side_is_the_one_fetched<P: Peers>(value: XdsSseListener<P>, r: Replies<P>)
    requires
        config_fits(r),
    ensures
        ({
            let outcome = listener::description_course(value, r).outcome;
            outcome is Built ==> {
                &&& outcome->Built_0.tls is Some <==> value.tls is Some
                &&& value.tls is Some ==> {
                    let side = outcome->Built_0.tls->0@;
                    &&& tls::pem_private_key(r.key->Ok_0) == Some(side.key)
                    &&& tls::pem_certificates(r.cert->Ok_0) == Some(side.chain)
                    &&& side.chain.len() > 0
                    &&& tls::identity_accepted(side.chain, side.key.0, side.key.1)
                    &&& side.alpn == tls::offered_protocols()
                    &&& !side.client_auth
                }
            }
        }),
{
    law_built_exactly_when_settled(value, r);
}

/// Once the TLS side is settled, no outcome tells of TLS any more.
proof fn lemma_late_outcome<P: Peers>(value: XdsSseListener<P>, r: Replies<P>)
    requires
        tls_settled(value, r) is Some,
    ensures
        ({
            let outcome = listener::description_course(value, r).outcome;
            outcome is Built || outcome is Authenticator || outcome is RuleSet
        }),
{
    if authn_settled(value, r) {
        lemma_reaches_rules(value, r);
        let bare = SseView { rbac: Seq::empty(), ..wanted_listener(value, r) };
        let k = lemma_first_failure(value.rbac@.len(), r);
        if rules_settled(value.rbac@.len(), r) {
            lemma_rules_built(bare, value.rbac@, r);
        } else {
            lemma_rules_failed(bare, value.rbac@, r, k);
        }
    }
}

/// Where the sources of a TLS section are there and are fetched, an unreadable key is reported as
/// such, malformed certificates stop the build, and what makes no identity is reported as refused.
/// The error that is reported is the very one that the configuration came to, and where `rustls`
/// cannot refuse the chain and the key, the TLS side is settled.
pub proof fn law_tls_failures<P: Peers>(value: XdsSseListener<P>, r: Replies<P>)
    requires
        config_fits(r),
        value.tls is Some,
        tls::required_sources(value.tls->0) is Ok,
        r.cert is Ok,
        r.key is Ok,
    ensures
        ({
            let outcome = listener::description_course(value, r).outcome;
            match (tls::pem_private_key(r.key->Ok_0), tls::pem_certificates(r.cert->Ok_0)) {
                (None, _) => outcome is ServerConfig && outcome->ServerConfig_0 is KeyPem,
                (Some(_), None) => outcome is CertPem,
                (Some(key), Some(chain)) => {
                    let refused = outcome is ServerConfig && outcome->ServerConfig_0 is Identity;
                    &&& refused <==> tls_settled(value, r) is None
                    &&& refused ==> tls::refusal_possible(chain, key.0, key.1)
                    &&& !tls::identity_accepted(chain, key.0, key.1) ==> refused
                },
            }
        }),
        ({
            let outcome = listener::description_course(value, r).outcome;
            outcome is ServerConfig ==> (r.config)(r.key->Ok_0, r.cert->Ok_0) == Some(
                Err::<Arc<ServerConfig>, _>(outcome->ServerConfig_0),
            )
        }),
{
    if tls_settled(value, r) is Some {
        lemma_late_outcome(value, r);
    }
}

/// A listener that is built from a description expects no proxy before it.
pub proof fn law_no_proxy_expected<P: Peers>(value: XdsSseListener<P>, r: Replies<P>)
    ensures
        ({
            let outcome = listener::description_course(value, r).outcome;
            outcome is Built ==> outcome->Built_0.mode is None
        }),
{
    law_built_exactly_when_settled(value, r);
}

/// What a build asks for, where it has not come to its end.
pub open spec fn question_of<P: Peers>(build: SseBuild<P>) -> Option<Question<P>> {
    match build {
        SseBuild::ResolveCert { source, .. } => Some(Question::Cert(source)),
        SseBuild::ResolveKey { source, .. } => Some(Question::Key(source)),
        SseBuild::Authenticate { jwt, .. } => Some(Question::Jwt(jwt)),
        SseBuild::ConvertRule { rule, .. } => Some(Question::Rule(rule)),
        _ => None,
    }
}

/// Whether `next` is what a build goes on with when it is given its answer out of `r`.
pub open spec fn goes_on<P: Peers>(build: SseBuild<P>, r: Replies<P>, next: SseBuild<P>) -> bool {
    match build {
        SseBuild::ResolveCert { then, .. } => {
            &&& next.course(r) == listener::cert_reply_course(then.parts, then.key, r.cert, r)
            &&& r.cert matches Ok(cert) ==> {
                &&& next matches SseBuild::ResolveKey { source, then: after }
                &&& source == then.key
                &&& after.cert@ == cert
                &&& after.parts == then.parts
            }
        },
        SseBuild::ResolveKey { then, .. } => {
            &&& r.cert == Ok::<Seq<u8>, P::Error>(then.cert@)
            &&& config_fits(r)
            &&& next.course(r) == listener::key_reply_course(then.parts, then.cert@, r.key, r)
        },
        SseBuild::Authenticate { then, .. } => next.course(r) == then.course(r.jwt, r),
        SseBuild::ConvertRule { then, .. } => next.course(r) == then.course(
            r.rules[then.done@.len() as int],
            r,
        ),
        _ => false,
    }
}

/// Each answer takes a build one question further along its course and changes nothing else of
/// it, so that it comes to its end, and to the outcome of the description.
pub proof fn law_answers_advance_the_build<P: Peers>(
    build: SseBuild<P>,
    r: Replies<P>,
    next: SseBuild<P>,
)
    requires
        goes_on(build, r, next),
    ensures
        question_of(build) is Some,
        build.course(r).asked == seq![question_of(build)->0] + next.course(r).asked,
        build.course(r).outcome == next.course(r).outcome,
        next.course(r).asked.len() < build.course(r).asked.len(),
{
}

/// The step that [`AfterCert::resume`] takes goes on, with the certificate chain that it was given.
pub proof fn law_certificate_answer_goes_on<P: Peers>(
    source: P::Source,
    then: AfterCert<P>,
    reply: Result<Vec<u8>, P::Error>,
    next: SseBuild<P>,
    r: Replies<P>,
)
    requires
        call_ensures(AfterCert::<P>::resume, (then, reply), next),
        r.cert == listener::reply_view(reply),
    ensures
        goes_on(SseBuild::ResolveCert { source, then }, r, next),
{
}

/// The step that [`AfterKey::resume`] takes goes on, with a server configuration that can be made of
/// the private key that it was given and of the certificate chain that was kept.
pub proof fn law_key_answer_goes_on<P: Peers>(
    source: P::Source,
    then: AfterKey<P>,
    cert: Seq<u8>,
    reply: Result<Vec<u8>, P::Error>,
    config: Option<Result<Arc<ServerConfig>, ServerConfigError>>,
    next: SseBuild<P>,
    r: Replies<P>,
)
    requires
        then.cert@ == cert,
        then.resumed(reply, config, next),
        r.cert == Ok::<Seq<u8>, P::Error>(cert),
        r.key == listener::reply_view(reply),
        reply is Ok ==> (r.config)(reply->Ok_0@, cert) == config,
    ensures
        config_fits(r),
        goes_on(SseBuild::ResolveKey { source, then }, r, next),
{
}

/// The step that [`AfterJwt::resume`] takes goes on.
pub proof fn law_authenticator_answer_goes_on<P: Peers>(
    jwt: P::JwtConfig,
    then: AfterJwt<P>,
    reply: Result<P::Authenticator, P::Error>,
    next: SseBuild<P>,
    r: Replies<P>,
)
    requires
        call_ensures(AfterJwt::<P>::resume, (then, reply), next),
        r.jwt == reply,
    ensures
        goes_on(SseBuild::Authenticate { jwt, then }, r, next),
{
}

/// The step that [`AfterRule::resume`] takes goes on.
pub proof fn law_rule_answer_goes_on<P: Peers>(
    rule: P::XdsRuleSet,
    then: AfterRule<P>,
    reply: Result<P::RuleSet, P::Error>,
    next: SseBuild<P>,
    r: Replies<P>,
)
    requires
        call_ensures(AfterRule::<P>::resume, (then, reply), next),
        r.rules[then.done@.len() as int] == reply,
    ensures
        goes_on(SseBuild::ConvertRule { rule, then }, r, next),
{
}

/// Whether a build goes through these steps, one after the other, when it is given its answers out
/// of `r`.
pub open spec fn runs<P: Peers>(steps: Seq<SseBuild<P>>, r: Replies<P>) -> bool
    decreases steps.len(),
{
    if steps.len() == 0 {
        false
    } else if steps.len() == 1 {
        question_of(steps[0]) is None
    } else {
        goes_on(steps[0], r, steps[1]) && runs(steps.drop_first(), r)
    }
}

/// Whether these are the steps of building this description, from the first to the last.
pub open spec fn runs_from<P: Peers>(
    value: XdsSseListener<P>,
    steps: Seq<SseBuild<P>>,
    r: Replies<P>,
) -> bool {
    &&& runs(steps, r)
    &&& steps[0].course(r) == listener::description_course(value, r)
}

/// A run asks one question of its course in each step, and ends in the outcome of its course.
proof fn lemma_run<P: Peers>(steps: Seq<SseBuild<P>>, r: Replies<P>)
    requires
        runs(steps, r),
    ensures
        steps.last().course(r).outcome == steps[0].course(r).outcome,
        steps[0].course(r).asked.len() == steps.len() - 1,
        forall|i: int|
            0 <= i < steps.len() - 1 ==> question_of(#[trigger] steps[i]) == Some(
                steps[0].course(r).asked[i],
            ),
        forall|i: int|
            0 <= i < steps.len() - 1 ==> goes_on(#[trigger] steps[i], r, steps[i + 1]),
    decreases steps.len(),
{
    if steps.len() > 1 {
        let rest = steps.drop_first();
        lemma_run(rest, r);
        law_answers_advance_the_build(steps[0], r, steps[1]);
        assert forall|i: int| 0 <= i < steps.len() - 1 implies question_of(#[trigger] steps[i])
            == Some(steps[0].course(r).asked[i]) && goes_on(steps[i], r, steps[i + 1]) by {
            if i > 0 {
                assert(rest[i - 1] == steps[i]);
                assert(rest[i - 1 + 1] == steps[i + 1]);
            }
        }
    }
}

/// A run asks the questions of its description one by one, and ends in the outcome of its
/// description.
pub proof fn law_run_follows_the_description<P: Peers>(
    value: XdsSseListener<P>,
    steps: Seq<SseBuild<P>>,
    r: Replies<P>,
)
    requires
        runs_from(value, steps, r),
    ensures
        ({
            let course = listener::description_course(value, r);
            &&& steps.last().course(r).outcome == course.outcome
            &&& course.asked.len() == steps.len() - 1
            &&& forall|i: int|
                0 <= i < steps.len() - 1 ==> question_of(#[trigger] steps[i]) == Some(
                    course.asked[i],
                )
        }),
{
    lemma_run(steps, r);
}

/// In every run of a description that names both sources, the server configuration is one that the
/// private key and the certificate chain make that were fetched.
pub proof fn law_runs_are_configured_with_what_was_fetched<P: Peers>(
    value: XdsSseListener<P>,
    steps: Seq<SseBuild<P>>,
    r: Replies<P>,
)
    requires
        runs_from(value, steps, r),
        value.tls is Some,
        tls::required_sources(value.tls->0) is Ok,
    ensures
        config_fits(r),
{
    lemma_run(steps, r);
    if r.cert is Ok && r.key is Ok {
        let sources = tls::required_sources(value.tls->0)->Ok_0;
        let course = listener::description_course(value, r);
        assert(course.asked[1] == Question::<P>::Key(sources.key));
        assert(question_of(steps[1]) is Some);
        assert(goes_on(steps[1], r, steps[2]));
    }
}

/// A run that ends in a listener for a description with a TLS section ends in one that serves what
/// was fetched: the chain of the certificate source and the key of the key source, as `rustls` reads
/// and accepts them.
pub proof fn law_run_serves_what_was_fetched<P: Peers>(
    value: XdsSseListener<P>,
    steps: Seq<SseBuild<P>>,
    r: Replies<P>,
    sse: SseListener<P::Authenticator, P::RuleSet>,
)
    requires
        runs_from(value, steps, r),
        value.tls is Some,
        steps.last() == SseBuild::<P>::Finished(Ok(sse)),
    ensures
        tls::required_sources(value.tls->0) is Ok,
        r.cert is Ok,
        r.key is Ok,
        sse.tls is Some,
        (r.config)(r.key->Ok_0, r.cert->Ok_0) == Some(
            Ok::<_, ServerConfigError>(sse.tls->0.inner),
        ),
        tls::pem_private_key(r.key->Ok_0) == Some(sse.tls->0@.key),
        tls::pem_certificates(r.cert->Ok_0) == Some(sse.tls->0@.chain),
        tls::identity_accepted(sse.tls->0@.chain, sse.tls->0@.key.0, sse.tls->0@.key.1),
        sse.tls->0@ == tls::served_identity(sse.tls->0@.chain, sse.tls->0@.key),
{
    lemma_run(steps, r);
    law_built_exactly_when_settled(value, r);
    law_runs_are_configured_with_what_was_fetched(value, steps, r);
    law_tls_side_is_the_one_fetched(value, r);
}

} // verus!
