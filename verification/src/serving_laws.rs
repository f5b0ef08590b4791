//! What holds of serving every listener.

use crate::decimal;
use crate::listener::{Listener, ListenerMode, SseListener};
use crate::serving::{Joined, ListenPlan, ServingError, SsePlan};
use vstd::arithmetic::power::*;
use vstd::prelude::*;

verus! {

/// The address of a listener is its host, a colon, and its port: what follows the colon reads as the
/// port, is made of digits alone, each the one that the port has at its place, and has no zero in
/// front.
pub proof fn law_address_is_host_and_port<A, R>(sse: SseListener<A, R>, text: String)
    requires
        call_ensures(SseListener::<A, R>::address, (&sse,), text),
    ensures
        ({
            let host = sse.host@.len() as int;
            let digits = text@.skip(host + 1);
            &&& text@.len() > host + 1
            &&& text@.take(host) == sse.host@
            &&& text@[host] == ':'
            &&& decimal::value_of(digits) == sse.port
            &&& digits.len() > 1 ==> digits[0] != '0'
            &&& forall|i: int| 0 <= i < digits.len() ==> '0' <= #[trigger] digits[i] <= '9'
            &&& forall|i: int|
                0 <= i < digits.len() ==> (#[trigger] digits[i]) as int - '0' as int == (
                sse.port as nat / (pow(10, (digits.len() - 1 - i) as nat) as nat)) % 10
        }),
{
    let host = sse.host@.len() as int;
    let port = sse.port as nat;
    decimal::lemma_decimal_places(port);
    decimal::lemma_no_leading_zero(port);
    assert(text@.take(host) =~= sse.host@);
    assert(text@.skip(host + 1) =~= decimal::decimal(port));
    assert forall|i: int| 0 <= i < decimal::decimal(port).len() implies '0'
        <= #[trigger] decimal::decimal(port)[i] <= '9' by {
        decimal::lemma_decimal_digits(port, i);
    }
}

/// A listener for server-sent events is served as it says. The plan has a TLS side exactly where the
/// listener has one, and it is the same; so for the authenticator. All rule sets are in the plan, in
/// order. A client's announcement is expected exactly in proxy mode, and the address is the
/// listener's own.
pub proof fn law_plan_is_that_of_the_listener<A, R>(
    sse: SseListener<A, R>,
    plan: ListenPlan<A, R>,
)
    requires
        call_ensures(Listener::<A, R>::listen, (&Listener::Sse(sse),), plan),
    ensures
        ({
            &&& plan matches ListenPlan::Sse(how)
            &&& how.name@ == "sse"@
            &&& how.tls is Some <==> sse.tls is Some
            &&& sse.tls is Some ==> how.tls->0.inner == sse.tls->0.inner
            &&& how.authenticator is Some <==> sse.authn is Some
            &&& sse.authn is Some ==> *how.authenticator->0 == sse.authn->0
            &&& how.rbac@.len() == sse.rbac@.len()
            &&& forall|i: int|
                0 <= i < sse.rbac@.len() ==> #[trigger] how.rbac@[i] == sse.rbac@[i]
            &&& how.enable_proxy <==> sse.mode is Some
            &&& how.address@.len() > sse.host@.len() + 1
            &&& how.address@.take(sse.host@.len() as int) == sse.host@
            &&& how.address@[sse.host@.len() as int] == ':'
            &&& decimal::value_of(how.address@.skip(sse.host@.len() as int + 1)) == sse.port
            &&& forall|i: int|
                sse.host@.len() < i < how.address@.len() ==> (#[trigger] how.address@[i]) as int
                    - '0' as int == (sse.port as nat / (pow(
                    10,
                    (how.address@.len() - 1 - i) as nat,
                ) as nat)) % 10
            &&& how.address@.len() > sse.host@.len() + 2 ==> how.address@[sse.host@.len() as int + 1]
                != '0'
        }),
{
    let how = plan->Sse_0;
    let port = sse.port as nat;
    let host = sse.host@.len() as int;
    decimal::lemma_decimal_places(port);
    decimal::lemma_no_leading_zero(port);
    assert(how.address@.take(host) =~= sse.host@);
    assert(how.address@.skip(host + 1) =~= decimal::decimal(port));
    assert forall|i: int| host < i < how.address@.len() implies (#[trigger] how.address@[i]) as int
        - '0' as int == (port / (pow(10, (how.address@.len() - 1 - i) as nat) as nat)) % 10 by {
        assert(how.address@[i] == decimal::decimal(port)[i - host - 1]);
    }
    match sse.mode {
        None => {},
        Some(mode) => {
            assert(mode == ListenerMode::Proxy);
        },
    }
}

/// Two listeners that are served alike have the same host, port, TLS side, authenticator and mode,
/// and the same rule sets.
pub proof fn law_plans_tell_listeners_apart<A, R>(
    sse: SseListener<A, R>,
    other: SseListener<A, R>,
    plan: SsePlan<A, R>,
    other_plan: SsePlan<A, R>,
)
    requires
        call_ensures(Listener::<A, R>::listen, (&Listener::Sse(sse),), ListenPlan::Sse(plan)),
        call_ensures(
            Listener::<A, R>::listen,
            (&Listener::Sse(other),),
            ListenPlan::Sse(other_plan),
        ),
        plan.address@ == other_plan.address@,
        plan.tls == other_plan.tls,
        plan.authenticator == other_plan.authenticator,
        plan.rbac@ == other_plan.rbac@,
        plan.enable_proxy == other_plan.enable_proxy,
    ensures
        sse.host@ == other.host@,
        sse.port == other.port,
        sse.tls == other.tls,
        sse.authn == other.authn,
        sse.rbac@ == other.rbac@,
        sse.mode == other.mode,
{
    crate::serving::law_address_tells_host_and_port(
        sse.host@,
        sse.port,
        other.host@,
        other.port,
    );
    law_plan_is_that_of_the_listener(sse, ListenPlan::Sse(plan));
    law_plan_is_that_of_the_listener(other, ListenPlan::Sse(other_plan));
    match (sse.mode, other.mode) {
        (Some(mode), Some(other_mode)) => {
            assert(mode == ListenerMode::Proxy && other_mode == ListenerMode::Proxy);
        },
        _ => {},
    }
}

/// The standard input and output are served as such, and nothing else is.
pub proof fn law_stdio_is_served_as_stdio<A, R>(
    listener: Listener<A, R>,
    plan: ListenPlan<A, R>,
)
    requires
        call_ensures(Listener::<A, R>::listen, (&listener,), plan),
    ensures
        plan is Stdio <==> listener is Stdio,
        plan matches ListenPlan::Stdio { name } ==> name@ == "stdio"@,
{
}

/// A proxy is expected exactly where the listener has a mode, since the only mode is that of a
/// proxy.
pub proof fn law_proxy_mode<A, R>(sse: SseListener<A, R>, enabled: bool)
    requires
        call_ensures(SseListener::<A, R>::enable_proxy, (&sse,), enabled),
    ensures
        enabled <==> sse.mode is Some,
{
    match sse.mode {
        None => {},
        Some(mode) => {
            assert(mode == ListenerMode::Proxy);
        },
    }
}

/// A server that ends well is no failure, one that ends in an error is that failure, and the two
/// ways of serving are told apart by it.
pub proof fn law_ends_are_passed_on<A, R, Q>(
    sse_ended: Result<(), std::io::Error>,
    sse: Result<(), ServingError>,
    stdio_ended: Result<Q, tokio::task::JoinError>,
    stdio: Result<(), ServingError>,
)
    requires
        call_ensures(SseListener::<A, R>::served, (sse_ended,), sse),
        call_ensures(Listener::<A, R>::stdio_served::<Q>, (stdio_ended,), stdio),
    ensures
        sse is Ok <==> sse_ended is Ok,
        sse matches Err(e) ==> e == ServingError::Sse(sse_ended->Err_0),
        stdio is Ok <==> stdio_ended is Ok,
        stdio matches Err(e) ==> e == ServingError::StdIo(stdio_ended->Err_0),
{
}

/// A listener is done exactly where no task is left, and then well; a task that failed is reported
/// with its error, one that did not is not.
pub proof fn law_listener_outlives_its_tasks<A, R, T>(
    ended: Option<Result<T, tokio::task::JoinError>>,
    next: Joined,
)
    requires
        call_ensures(SseListener::<A, R>::joined::<T>, (ended,), next),
    ensures
        next is Done <==> ended is None,
        next matches Joined::Done(result) ==> result is Ok,
        next matches Joined::Report(e) ==> ended == Some(Err::<T, _>(e)),
        next is Wait <==> (ended matches Some(Ok(_))),
{
}

} // verus!
