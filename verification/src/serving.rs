//! How a listener is served.
//!
//! Binding a socket and answering requests are not done here. [`Listener::listen`] says what is
//! to be served and how, and the functions beside it say what the ends of the tasks mean.

use crate::decimal;
use crate::listener::{Listener, ListenerMode, SseListener};
use crate::tls::TlsConfig;
use vstd::prelude::*;

verus! {

/// The error of the operating system's input and output, opaque.
#[verifier::external_type_specification]
#[verifier::external_body]
pub struct ExIoError(std::io::Error);

/// How a task of `tokio` fails to come to its end, opaque.
#[verifier::external_type_specification]
#[verifier::external_body]
pub struct ExJoinError(tokio::task::JoinError);

/// Why serving a listener has failed.
#[derive(Debug)]
pub enum ServingError {
    Sse(std::io::Error),
    StdIo(tokio::task::JoinError),
}

/// What is to be served, and how.
pub enum ListenPlan<'a, A, R> {
    /// Serve the standard input and output, under this name.
    Stdio { name: &'static str },
    /// Serve server-sent events.
    Sse(SsePlan<'a, A, R>),
}

/// How server-sent events are to be served.
pub struct SsePlan<'a, A, R> {
    /// The name to serve under.
    pub name: &'static str,
    /// The socket address to bind, as text.
    pub address: String,
    /// What authenticates clients, where they have to authenticate.
    pub authenticator: Option<&'a A>,
    /// The rules that requests have to meet.
    pub rbac: &'a Vec<R>,
    /// The TLS side, where connections are encrypted.
    pub tls: Option<&'a TlsConfig>,
    /// Whether each connection begins with an announcement of the client's address.
    pub enable_proxy: bool,
}

/// The text of a socket address: the host, a colon, and the port in decimal notation.
pub open spec fn address_text(host: Seq<char>, port: u32) -> Seq<char> {
    host + seq![':'] + decimal::decimal(port as nat)
}

/// Whether this is the way to serve the listener.
pub open spec fn serves<A, R>(listener: SseListener<A, R>, plan: SsePlan<A, R>) -> bool {
    &&& plan.name@ == "sse"@
    &&& plan.address@ == address_text(listener.host@, listener.port)
    &&& match listener.authn {
        Some(authn) => plan.authenticator == Some(&authn),
        None => plan.authenticator is None,
    }
    &&& *plan.rbac == listener.rbac
    &&& match listener.tls {
        Some(tls) => plan.tls == Some(&tls),
        None => plan.tls is None,
    }
    &&& plan.enable_proxy <==> listener.mode == Some(ListenerMode::Proxy)
}

impl<A, R> SseListener<A, R> {
    /// The socket address of the listener, as text.
    pub fn address(&self) -> (text: String)
        ensures
            text@ == address_text(self.host@, self.port),
    {
        proof {
            reveal_strlit(":");
        }
        let mut text = self.host.clone();
        text.append(":");
        decimal::append_decimal(&mut text, self.port);
        assert(":"@ =~= seq![':']);
        text
    }

    /// Whether a proxy stands before the listener.
    pub fn enable_proxy(&self) -> (enabled: bool)
        ensures
            enabled <==> self.mode == Some(ListenerMode::Proxy),
    {
        match self.mode {
            Some(mode) => mode == ListenerMode::Proxy,
            None => false,
        }
    }

    /// What the end of the server of a listener means.
    pub fn served(ended: Result<(), std::io::Error>) -> (result: Result<(), ServingError>)
        ensures
            result == match ended {
                Ok(_) => Ok::<(), ServingError>(()),
                Err(e) => Err(ServingError::Sse(e)),
            },
    {
        match ended {
            Ok(_) => Ok(()),
            Err(e) => Err(ServingError::Sse(e)),
        }
    }

    /// What the end of a task of a listener means, or, for `None`, that all have ended. A listener
    /// goes on until its last task has ended, and then ends well, however its tasks have fared.
    pub fn joined<T>(ended: Option<Result<T, tokio::task::JoinError>>) -> (next: Joined)
        ensures
            next == match ended {
                Some(Ok(_)) => Joined::Wait,
                Some(Err(e)) => Joined::Report(e),
                None => Joined::Done(Ok(())),
            },
    {
        match ended {
            Some(Ok(_)) => Joined::Wait,
            Some(Err(e)) => Joined::Report(e),
            None => Joined::Done(Ok(())),
        }
    }
}

/// What to do after a task of a listener has ended.
pub enum Joined {
    /// Wait for the next task to end.
    Wait,
    /// Log that the task failed, and wait for the next one to end.
    Report(tokio::task::JoinError),
    /// Return this.
    Done(Result<(), ServingError>),
}

impl<A, R> Listener<A, R> {
    /// Says what is to be served for a listener, and how.
    pub fn listen(&self) -> (plan: ListenPlan<'_, A, R>)
        ensures
            match *self {
                Listener::Stdio => plan is Stdio && plan->Stdio_name@ == "stdio"@,
                Listener::Sse(sse) => plan is Sse && serves(sse, plan->Sse_0),
            },
            *self matches Listener::Sse(sse) ==> {
                &&& plan->Sse_0.tls is Some <==> sse.tls is Some
                &&& sse.tls is Some ==> *plan->Sse_0.tls->0 == sse.tls->0
                &&& plan->Sse_0.authenticator is Some <==> sse.authn is Some
                &&& sse.authn is Some ==> *plan->Sse_0.authenticator->0 == sse.authn->0
                &&& *plan->Sse_0.rbac == sse.rbac
            },
    {
        match self {
            Listener::Stdio => ListenPlan::Stdio { name: "stdio" },
            Listener::Sse(sse) => ListenPlan::Sse(
                SsePlan {
                    name: "sse",
                    address: sse.address(),
                    authenticator: sse.authn.as_ref(),
                    rbac: &sse.rbac,
                    tls: sse.tls.as_ref(),
                    enable_proxy: sse.enable_proxy(),
                },
            ),
        }
    }

    /// What the end of serving the standard input and output means.
    pub fn stdio_served<Q>(ended: Result<Q, tokio::task::JoinError>) -> (result: Result<
        (),
        ServingError,
    >)
        ensures
            result == match ended {
                Ok(_) => Ok::<(), ServingError>(()),
                Err(e) => Err(ServingError::StdIo(e)),
            },
    {
        match ended {
            Ok(_) => Ok(()),
            Err(e) => Err(ServingError::StdIo(e)),
        }
    }
}

/// The text of a socket address tells the host and the port: no two pairs have the same text.
pub proof fn law_address_tells_host_and_port(
    host: Seq<char>,
    port: u32,
    other_host: Seq<char>,
    other_port: u32,
)
    requires
        address_text(host, port) == address_text(other_host, other_port),
    ensures
        host == other_host,
        port == other_port,
{
    let text = address_text(host, port);
    let digits = decimal::decimal(port as nat);
    let other_digits = decimal::decimal(other_port as nat);
    assert(text[host.len() as int] == ':');
    assert(address_text(other_host, other_port)[other_host.len() as int] == ':');
    assert(text.len() == host.len() + 1 + digits.len());
    assert(text.len() == other_host.len() + 1 + other_digits.len());
    if host.len() < other_host.len() {
        let i = other_host.len() - host.len() - 1;
        assert(text[other_host.len() as int] == digits[i]);
        decimal::lemma_decimal_digits(port as nat, i);
    } else if other_host.len() < host.len() {
        let i = host.len() - other_host.len() - 1;
        assert(address_text(other_host, other_port)[host.len() as int] == other_digits[i]);
        decimal::lemma_decimal_digits(other_port as nat, i);
    }
    assert(host =~= text.take(host.len() as int));
    assert(other_host =~= text.take(host.len() as int));
    assert(digits =~= text.skip(host.len() as int + 1));
    assert(other_digits =~= text.skip(host.len() as int + 1));
    decimal::lemma_decimal_injective(port as nat, other_port as nat);
}

} // verus!
