use whim::client::{link_step, new_link, Link, LinkAction, LinkEvent};
use whim::routing::{authority, default_shell, http_authority, path_with_query, redirect_target, Health};
use whim::shell::{Card, CardID, CardMeta, Column, Command, Liveness, Shell, ShellID};

#[test]
fn health_is_fine() {
    assert_eq!(Health::fine().status, "Fine, thanks for asking.");
}

#[test]
fn default_shell_is_empty() {
    let s = default_shell(42);
    assert_eq!(s.id.0, 42);
    assert_eq!(s.name, "Default");
    assert!(s.history.is_empty());
    assert!(s.columns.is_empty());
}

#[test]
fn authorities() {
    assert_eq!(http_authority(), "localhost:8000");
    assert_eq!(authority(3000), "localhost:3000");
    assert_eq!(authority(0), "localhost:0");
    assert_eq!(authority(65535), "localhost:65535");
}

#[test]
fn redirect_keeps_path_and_query() {
    assert_eq!(redirect_target("/"), "https://localhost:3000/");
    assert_eq!(redirect_target("/api/v0/hello/ada?x=1"), "https://localhost:3000/api/v0/hello/ada?x=1");
}

fn is_attached(l: &Link) -> bool {
    matches!(l, Link::Attached)
}

#[test]
fn fresh_pointer_warns_on_send() {
    let l = new_link();
    assert!(!is_attached(&l));
    let (l, a) = link_step(l, LinkEvent::SendRequested);
    assert!(!is_attached(&l));
    assert!(matches!(a, LinkAction::WarnNoClient));
}

#[test]
fn connected_pointer_forwards() {
    let (l, a) = link_step(new_link(), LinkEvent::Connected);
    assert!(is_attached(&l));
    assert!(matches!(a, LinkAction::Attach));
    let (l, a) = link_step(l, LinkEvent::Received);
    assert!(is_attached(&l));
    assert!(matches!(a, LinkAction::KeepReading));
    let (l, a) = link_step(l, LinkEvent::SendRequested);
    assert!(is_attached(&l));
    assert!(matches!(a, LinkAction::Forward));
}

#[test]
fn ended_connection_detaches() {
    let (l, _) = link_step(new_link(), LinkEvent::Connected);
    let (l, a) = link_step(l, LinkEvent::Closed);
    assert!(!is_attached(&l));
    assert!(matches!(a, LinkAction::Detach));
    let (l, a) = link_step(l, LinkEvent::SendRequested);
    assert!(!is_attached(&l));
    assert!(matches!(a, LinkAction::WarnNoClient));
}

#[test]
fn failed_receive_detaches() {
    let (l, _) = link_step(new_link(), LinkEvent::Connected);
    let (l, a) = link_step(l, LinkEvent::ReceiveFailed);
    assert!(!is_attached(&l));
    assert!(matches!(a, LinkAction::Detach));
}

#[test]
fn shell_model_holds_cards() {
    let card = Card {
        id: CardID(1),
        command: Command {
            name: String::from("ls"),
            argv: serde_json::Value::Array(vec![serde_json::Value::String(String::from("-l"))]),
            env: std::collections::HashMap::new(),
            wd: std::path::PathBuf::from("/tmp"),
        },
        meta: CardMeta { live: Liveness::Period(std::time::Duration::from_secs(5)) },
        output: serde_json::Value::Null,
    };
    let shell = Shell {
        id: ShellID(3),
        name: String::from("work"),
        history: vec![card],
        columns: vec![Column { cards: vec![CardID(1)] }],
    };
    assert_eq!(shell.history[0].command.name, "ls");
    assert_eq!(shell.columns[0].cards[0].0, 1);
    assert!(matches!(shell.history[0].meta.live, Liveness::Period(d) if d.as_secs() == 5));
    let _ = CardMeta { live: Liveness::Static };
}


#[test]
fn request_target_keeps_query() {
    assert_eq!(path_with_query("/a/b", Some(String::from("x=1&y=2"))), "/a/b?x=1&y=2");
    assert_eq!(path_with_query("/a/b", None), "/a/b");
    assert_eq!(
        redirect_target(&path_with_query("/api", Some(String::from("q=1")))),
        "https://localhost:3000/api?q=1"
    );
}
