//! Per-operation behaviour of a session: signal and resize gating, the
//! environment-update semantics, and the reaper decision.

use ele::attachment::{Attachment, ChildHandle};
use ele::error::ErrorKind;
use ele::session::{kill_outcome, KillPlan, ReapDecision, Session, SpawnOutcome, WaitEvent};

fn strings(v: &[&str]) -> Vec<String> {
    v.iter().map(|s| s.to_string()).collect()
}

fn running_session(sender: &str, pid: Option<u64>) -> Session {
    let mut session = Session::new(
        sender.to_string(),
        strings(&["/usr/bin/id"]),
        Attachment::Pty { master: 7 },
    )
    .expect("session should build");
    let child = ChildHandle { pid, stdin_fd: None, stderr_fd: None, stdout_fd: None };
    session
        .spawn_attach(SpawnOutcome::Started(child))
        .expect("attach should succeed");
    session
}

#[test]
fn signal_before_spawn() {
    let sender = ":1.20".to_string();
    let session = Session::new(
        sender.clone(),
        strings(&["/usr/bin/id"]),
        Attachment::Pipes,
    )
    .expect("session should build");
    assert_eq!(session.signal(Some(&sender), 15), Err(ErrorKind::FileNotFound));
}

#[test]
fn signal_numbers() {
    let sender = ":1.21".to_string();
    let session = running_session(&sender, Some(1234));
    // The named POSIX signals are 1 through 31 on this host.
    assert_eq!(session.signal(Some(&sender), 0), Err(ErrorKind::InvalidArgs));
    assert_eq!(session.signal(Some(&sender), -1), Err(ErrorKind::InvalidArgs));
    assert_eq!(session.signal(Some(&sender), 32), Err(ErrorKind::InvalidArgs));
    assert_eq!(session.signal(Some(&sender), 1), Ok(KillPlan { pid: 1234, signal: 1 }));
    assert_eq!(session.signal(Some(&sender), 15), Ok(KillPlan { pid: 1234, signal: 15 }));
    assert_eq!(session.signal(Some(&sender), 31), Ok(KillPlan { pid: 1234, signal: 31 }));
}

#[test]
fn signal_without_usable_pid() {
    let sender = ":1.22".to_string();
    let session = running_session(&sender, None);
    assert_eq!(session.signal(Some(&sender), 15), Err(ErrorKind::IoError));
    let session = running_session(&sender, Some(u64::from(u32::MAX) * 2));
    assert_eq!(session.signal(Some(&sender), 15), Err(ErrorKind::IoError));
}

#[test]
fn kill_outcome_classification() {
    assert_eq!(kill_outcome(true), Ok(()));
    assert_eq!(kill_outcome(false), Err(ErrorKind::IoError));
}

#[test]
fn resize_gating() {
    let sender = ":1.23".to_string();
    let other = ":1.24".to_string();
    let mut session = Session::new(
        sender.clone(),
        strings(&["/usr/bin/id"]),
        Attachment::Pty { master: 2 },
    )
    .expect("session should build");
    assert_eq!(session.resize(Some(&sender)), Err(ErrorKind::FileNotFound));
    let child = ChildHandle { pid: Some(5), stdin_fd: None, stderr_fd: None, stdout_fd: None };
    session
        .spawn_attach(SpawnOutcome::Started(child))
        .expect("attach should succeed");
    assert_eq!(session.resize(Some(&other)), Err(ErrorKind::AccessDenied));
    assert_eq!(session.resize(Some(&sender)), Ok(()));
}

#[test]
fn environment_replaces_in_insertion_order() {
    let sender = ":1.25".to_string();
    let mut session = Session::new(
        sender.clone(),
        strings(&["/bin/true"]),
        Attachment::Pipes,
    )
    .expect("session should build");
    session
        .environment(
            Some(&sender),
            vec![("A".to_string(), "1".to_string()), ("B".to_string(), "2".to_string())],
        )
        .expect("first environment call should succeed");
    session
        .environment(
            Some(&sender),
            vec![("A".to_string(), "3".to_string()), ("C".to_string(), "4".to_string())],
        )
        .expect("second environment call should succeed");
    // "A" is replaced in place, "C" appended: insertion order is kept.
    assert_eq!(
        session.command.envs,
        vec![
            ("A".to_string(), "3".to_string()),
            ("B".to_string(), "2".to_string()),
            ("C".to_string(), "4".to_string()),
        ]
    );
}

#[test]
fn environment_verbatim_round_trip() {
    let sender = ":1.26".to_string();
    let mut session = Session::new(
        sender.clone(),
        strings(&["/bin/true"]),
        Attachment::Pipes,
    )
    .expect("session should build");
    let m = vec![("X".to_string(), "1".to_string()), ("Y".to_string(), "2".to_string())];
    session
        .environment(Some(&sender), m.clone())
        .expect("environment should succeed");
    assert_eq!(session.command.envs, m);
}

#[test]
fn reaper_keeps_live_sessions() {
    let sender = ":1.27".to_string();
    // No child yet: nothing to reap, whatever the poll would have said.
    let mut session = Session::new(
        sender.clone(),
        strings(&["/usr/bin/id"]),
        Attachment::Pty { master: 8 },
    )
    .expect("session should build");
    assert_eq!(session.check_exited(WaitEvent::StillRunning), ReapDecision::Keep);
    let child = ChildHandle { pid: Some(5), stdin_fd: None, stderr_fd: None, stdout_fd: None };
    session
        .spawn_attach(SpawnOutcome::Started(child))
        .expect("attach should succeed");
    assert_eq!(session.check_exited(WaitEvent::StillRunning), ReapDecision::Keep);
    // A failed poll is logged by the host and the session kept.
    assert_eq!(session.check_exited(WaitEvent::Unknown), ReapDecision::Keep);
    assert_eq!(session.attachment, Attachment::Pty { master: 8 });
}

#[test]
fn detached_session_exposes_no_fds() {
    let sender = ":1.28".to_string();
    let mut session = running_session(&sender, Some(40));
    let decision = session.check_exited(WaitEvent::Exited);
    assert_eq!(decision, ReapDecision::Unpublish { release: Some(7) });
    let child = session.child.expect("child record is kept");
    assert!(session.attachment.fds(&child).is_empty());
}
