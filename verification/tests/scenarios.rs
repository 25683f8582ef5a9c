//! End-to-end scenarios over the session lifecycle engine, with the outside
//! world's answers (policy authority, pseudo-terminal allocation, fork/exec,
//! child polling) supplied as plain values.

use ele::attachment::{Attachment, ChildHandle};
use ele::dispatcher::{create, AuthReply};
use ele::error::ErrorKind;
use ele::registry::Registry;
use ele::session::{ReapDecision, Session, SpawnOutcome, WaitEvent};

fn authorized() -> AuthReply {
    AuthReply::Answer { authorized: true }
}

fn strings(v: &[&str]) -> Vec<String> {
    v.iter().map(|s| s.to_string()).collect()
}

#[test]
fn happy_interactive() {
    let mut reg = Registry::new();
    let sender = ":1.7".to_string();
    let auth = authorized();
    let r = create(
        &mut reg,
        Some(&sender),
        &"root".to_string(),
        strings(&["/usr/bin/id"]),
        true,
        Some(&auth),
        Some(5),
    );
    let (mut session, id, path) = r.expect("create should succeed");
    assert_eq!(id, 1);
    assert_eq!(path, "/de/ytvwld/Ele/1");
    assert_eq!(reg.next_id, 2);
    assert_eq!(reg.live_ids, vec![1]);
    assert_eq!(session.caller, ":1.7");
    assert_eq!(session.command.program, "/usr/bin/id");
    assert!(session.command.args.is_empty());
    assert!(session.command.interactive);
    assert_eq!(session.attachment, Attachment::Pty { master: 5 });

    session
        .spawn_request(Some(&sender))
        .expect("spawn gate should pass");
    let child = ChildHandle { pid: Some(4242), stdin_fd: None, stderr_fd: None, stdout_fd: None };
    let fds = session
        .spawn_attach(SpawnOutcome::Started(child))
        .expect("attach should succeed");
    assert_eq!(fds, vec![5]);

    // The child exits; the next sweep detaches and unpublishes the session.
    let decision = session.check_exited(WaitEvent::Exited);
    assert_eq!(decision, ReapDecision::Unpublish { release: Some(5) });
    assert_eq!(session.attachment, Attachment::Detached);
    assert!(reg.remove(1));
    assert!(reg.live_ids.is_empty());
}

#[test]
fn happy_batch() {
    let mut reg = Registry::new();
    let sender = ":1.9".to_string();
    let auth = authorized();
    let r = create(
        &mut reg,
        Some(&sender),
        &"root".to_string(),
        strings(&["/bin/echo", "hello"]),
        false,
        Some(&auth),
        None,
    );
    let (mut session, _, path) = r.expect("create should succeed");
    assert_eq!(path, "/de/ytvwld/Ele/1");
    assert_eq!(session.attachment, Attachment::Pipes);
    assert_eq!(session.command.program, "/bin/echo");
    assert_eq!(session.command.args, vec!["hello".to_string()]);

    session
        .environment(Some(&sender), vec![("X".to_string(), "1".to_string())])
        .expect("environment should succeed before spawn");
    session
        .directory(Some(&sender), "/tmp".to_string())
        .expect("directory should succeed before spawn");
    assert_eq!(session.command.envs, vec![("X".to_string(), "1".to_string())]);
    assert_eq!(session.command.cwd, Some("/tmp".to_string()));

    session
        .spawn_request(Some(&sender))
        .expect("spawn gate should pass");
    let child = ChildHandle {
        pid: Some(77),
        stdin_fd: Some(10),
        stderr_fd: Some(11),
        stdout_fd: Some(12),
    };
    let fds = session
        .spawn_attach(SpawnOutcome::Started(child))
        .expect("attach should succeed");
    // Fixed order: stdin, stderr, stdout.
    assert_eq!(fds, vec![10, 11, 12]);

    let decision = session.check_exited(WaitEvent::Exited);
    // No retained master for a pipes attachment.
    assert_eq!(decision, ReapDecision::Unpublish { release: None });
}

#[test]
fn successive_creates_get_distinct_paths() {
    let mut reg = Registry::new();
    let sender = ":1.40".to_string();
    let auth = authorized();
    let mut paths = Vec::new();
    for _ in 0..3 {
        let r = create(
            &mut reg,
            Some(&sender),
            &"root".to_string(),
            strings(&["/bin/true"]),
            false,
            Some(&auth),
            None,
        );
        let (_, _, path) = r.expect("create should succeed");
        paths.push(path);
    }
    assert_eq!(paths, vec![
        "/de/ytvwld/Ele/1".to_string(),
        "/de/ytvwld/Ele/2".to_string(),
        "/de/ytvwld/Ele/3".to_string(),
    ]);
    assert_eq!(reg.live_ids, vec![1, 2, 3]);
}

#[test]
fn caller_mismatch() {
    let sender_a = ":1.1".to_string();
    let sender_b = ":1.2".to_string();
    let mut session = Session::new(
        sender_a.clone(),
        strings(&["/usr/bin/id"]),
        Attachment::Pty { master: 9 },
    )
    .expect("session should build");

    assert_eq!(session.spawn_request(Some(&sender_b)), Err(ErrorKind::AccessDenied));
    assert_eq!(
        session.environment(Some(&sender_b), vec![("A".to_string(), "1".to_string())]),
        Err(ErrorKind::AccessDenied)
    );
    assert_eq!(session.directory(Some(&sender_b), "/".to_string()), Err(ErrorKind::AccessDenied));
    assert_eq!(session.signal(Some(&sender_b), 15), Err(ErrorKind::AccessDenied));
    assert_eq!(session.resize(Some(&sender_b)), Err(ErrorKind::AccessDenied));
    assert_eq!(session.spawn_request(None), Err(ErrorKind::AccessDenied));
    // The state is unchanged: the original sender can still spawn.
    assert!(session.command.envs.is_empty());
    assert_eq!(session.command.cwd, None);
    assert!(session.spawn_request(Some(&sender_a)).is_ok());
}

#[test]
fn configuration_after_spawn() {
    let sender = ":1.4".to_string();
    let mut session = Session::new(
        sender.clone(),
        strings(&["/usr/bin/id"]),
        Attachment::Pty { master: 3 },
    )
    .expect("session should build");
    session.spawn_request(Some(&sender)).expect("gate should pass");
    let child = ChildHandle { pid: Some(1), stdin_fd: None, stderr_fd: None, stdout_fd: None };
    session
        .spawn_attach(SpawnOutcome::Started(child))
        .expect("attach should succeed");

    assert_eq!(
        session.environment(Some(&sender), vec![("A".to_string(), "1".to_string())]),
        Err(ErrorKind::FileExists)
    );
    assert_eq!(session.directory(Some(&sender), "/tmp".to_string()), Err(ErrorKind::FileExists));
    assert_eq!(session.spawn_request(Some(&sender)), Err(ErrorKind::FileExists));
}

#[test]
fn invalid_argv() {
    let mut reg = Registry::new();
    let sender = ":1.5".to_string();
    let auth = authorized();
    let r = create(&mut reg, Some(&sender), &"root".to_string(), Vec::new(), true, Some(&auth), Some(4));
    assert_eq!(r.err(), Some(ErrorKind::InvalidArgs));
    // No id was spent and nothing was published.
    assert_eq!(reg.next_id, 1);
    assert!(reg.live_ids.is_empty());
}

#[test]
fn policy_denial() {
    let mut reg = Registry::new();
    let sender = ":1.6".to_string();
    let auth = AuthReply::Answer { authorized: false };
    let r = create(
        &mut reg,
        Some(&sender),
        &"root".to_string(),
        strings(&["/usr/bin/id"]),
        true,
        Some(&auth),
        Some(4),
    );
    assert_eq!(r.err(), Some(ErrorKind::AccessDenied));
    assert_eq!(reg.next_id, 1);
    assert!(reg.live_ids.is_empty());
}

#[test]
fn unsupported_user() {
    let mut reg = Registry::new();
    let sender = ":1.8".to_string();
    let auth = authorized();
    let r = create(
        &mut reg,
        Some(&sender),
        &"alice".to_string(),
        strings(&["/usr/bin/id"]),
        false,
        Some(&auth),
        None,
    );
    assert_eq!(r.err(), Some(ErrorKind::InvalidArgs));
    assert_eq!(reg.next_id, 1);
}

#[test]
fn missing_sender() {
    let mut reg = Registry::new();
    let auth = authorized();
    let r = create(&mut reg, None, &"root".to_string(), strings(&["/usr/bin/id"]), false, Some(&auth), None);
    assert_eq!(r.err(), Some(ErrorKind::AccessDenied));
    assert_eq!(reg.next_id, 1);
}

#[test]
fn pty_allocation_failure() {
    let mut reg = Registry::new();
    let sender = ":1.3".to_string();
    let auth = authorized();
    let r = create(
        &mut reg,
        Some(&sender),
        &"root".to_string(),
        strings(&["/usr/bin/id"]),
        true,
        Some(&auth),
        None,
    );
    assert_eq!(r.err(), Some(ErrorKind::SpawnFailed));
    assert_eq!(reg.next_id, 1);
}

#[test]
fn spawn_failure_keeps_session_retryable() {
    let sender = ":1.11".to_string();
    let mut session = Session::new(
        sender.clone(),
        strings(&["/bin/false"]),
        Attachment::Pipes,
    )
    .expect("session should build");
    session.spawn_request(Some(&sender)).expect("gate should pass");
    assert_eq!(session.spawn_attach(SpawnOutcome::Failed), Err(ErrorKind::SpawnFailed));
    // Still configuring: the child field is untouched and spawn may be retried.
    assert!(session.child.is_none());
    session.spawn_request(Some(&sender)).expect("gate should pass again");
    let child = ChildHandle {
        pid: Some(8),
        stdin_fd: Some(20),
        stderr_fd: Some(21),
        stdout_fd: Some(22),
    };
    let fds = session
        .spawn_attach(SpawnOutcome::Started(child))
        .expect("retry should succeed");
    assert_eq!(fds.len(), 3);
}
