//! How listeners are served.

use mcp_inbound::decimal::append_decimal;
use mcp_inbound::listener::{Listener, ListenerMode, SseListener};
use mcp_inbound::serving::{Joined, ListenPlan, ServingError};
use tokio::task::JoinError;

fn listener(mode: Option<ListenerMode>) -> SseListener<&'static str, &'static str> {
    SseListener {
        host: "127.0.0.1".to_string(),
        port: 3000,
        mode,
        authn: Some("tokens"),
        tls: None,
        rbac: vec!["a", "b"],
    }
}

/// How a task that was aborted fails.
fn join_error() -> JoinError {
    let runtime = tokio::runtime::Builder::new_current_thread().build().unwrap();
    runtime.block_on(async {
        let task = tokio::spawn(std::future::pending::<()>());
        task.abort();
        task.await.unwrap_err()
    })
}

#[test]
fn decimal_notation() {
    for (n, expected) in [
        (0, "0"),
        (9, "9"),
        (10, "10"),
        (65535, "65535"),
        (1020304050, "1020304050"),
        (u32::MAX, "4294967295"),
    ] {
        let mut text = "n=".to_string();
        append_decimal(&mut text, n);
        assert_eq!(text, format!("n={}", expected));
    }
}

#[test]
fn stdio_is_served_under_its_name() {
    let stdio: Listener<(), ()> = Listener::Stdio;
    match stdio.listen() {
        ListenPlan::Stdio { name } => assert_eq!(name, "stdio"),
        ListenPlan::Sse(_) => panic!("not the standard input and output"),
    }
}

#[test]
fn sse_is_served_as_the_listener_says() {
    let sse = Listener::Sse(listener(None));
    match sse.listen() {
        ListenPlan::Sse(plan) => {
            assert_eq!(plan.name, "sse");
            assert_eq!(plan.address, "127.0.0.1:3000");
            assert_eq!(plan.authenticator, Some(&"tokens"));
            assert_eq!(*plan.rbac, vec!["a", "b"]);
            assert!(plan.tls.is_none());
            assert!(!plan.enable_proxy);
        }
        ListenPlan::Stdio { .. } => panic!("not server-sent events"),
    }
}

#[test]
fn a_proxy_is_expected_only_in_proxy_mode() {
    assert!(listener(Some(ListenerMode::Proxy)).enable_proxy());
    assert!(!listener(None).enable_proxy());
}

#[test]
fn addresses_differ_where_ports_do() {
    let one = SseListener { port: 1, ..listener(None) };
    let eleven = SseListener { port: 11, ..listener(None) };
    assert_eq!(one.address(), "127.0.0.1:1");
    assert_eq!(eleven.address(), "127.0.0.1:11");
    let colon = SseListener { host: "a:1".to_string(), ..listener(None) };
    assert_eq!(colon.address(), "a:1:3000");
}

#[test]
fn the_end_of_stdio() {
    assert!(Listener::<(), ()>::stdio_served::<u8>(Ok(1)).is_ok());
    assert!(matches!(
        Listener::<(), ()>::stdio_served::<u8>(Err(join_error())),
        Err(ServingError::StdIo(e)) if e.is_cancelled()
    ));
}

#[test]
fn the_end_of_a_server() {
    assert!(SseListener::<(), ()>::served(Ok(())).is_ok());
    let broken = std::io::Error::from(std::io::ErrorKind::AddrInUse);
    assert!(matches!(
        SseListener::<(), ()>::served(Err(broken)),
        Err(ServingError::Sse(e)) if e.kind() == std::io::ErrorKind::AddrInUse
    ));
}

#[test]
fn a_listener_ends_well_after_its_last_task() {
    assert!(matches!(SseListener::<(), ()>::joined(Some(Ok(()))), Joined::Wait));
    assert!(matches!(
        SseListener::<(), ()>::joined::<()>(Some(Err(join_error()))),
        Joined::Report(e) if e.is_cancelled()
    ));
    assert!(matches!(SseListener::<(), ()>::joined::<()>(None), Joined::Done(Ok(()))));
}
