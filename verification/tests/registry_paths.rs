//! The registry's id discipline, the published paths, and the
//! policy-decision classification.

use ele::dispatcher::{check_authorization, create_validate, AuthReply, PolkitFailure};
use ele::error::ErrorKind;
use ele::path::session_path;
use ele::registry::Registry;

#[test]
fn paths_are_distinct_and_increasing() {
    let mut reg = Registry::new();
    let mut paths: Vec<String> = Vec::new();
    for expected in 1..=4u64 {
        let id = reg.allocate();
        assert_eq!(id, expected);
        paths.push(session_path(id));
    }
    assert_eq!(paths, vec![
        "/de/ytvwld/Ele/1".to_string(),
        "/de/ytvwld/Ele/2".to_string(),
        "/de/ytvwld/Ele/3".to_string(),
        "/de/ytvwld/Ele/4".to_string(),
    ]);
    for i in 0..paths.len() {
        for j in (i + 1)..paths.len() {
            assert_ne!(paths[i], paths[j]);
        }
    }
}

#[test]
fn multi_digit_paths() {
    assert_eq!(session_path(0), "/de/ytvwld/Ele/0");
    assert_eq!(session_path(10), "/de/ytvwld/Ele/10");
    assert_eq!(session_path(907), "/de/ytvwld/Ele/907");
    assert_eq!(session_path(u64::MAX), "/de/ytvwld/Ele/18446744073709551615");
}

#[test]
fn snapshot_and_remove() {
    let mut reg = Registry::new();
    let a = reg.allocate();
    let b = reg.allocate();
    let c = reg.allocate();
    assert_eq!(reg.snapshot(), vec![a, b, c]);
    assert!(reg.remove(b));
    assert_eq!(reg.snapshot(), vec![a, c]);
    assert!(!reg.remove(99));
    assert_eq!(reg.snapshot(), vec![a, c]);
    // Ids are never reissued: the counter is unaffected by removal.
    assert_eq!(reg.allocate(), 4);
}

#[test]
fn authorization_decision() {
    assert_eq!(check_authorization(&AuthReply::Answer { authorized: true }), Ok(()));
    assert_eq!(
        check_authorization(&AuthReply::Answer { authorized: false }),
        Err(ErrorKind::AccessDenied)
    );
    assert_eq!(
        check_authorization(&AuthReply::Subject(PolkitFailure::Io)),
        Err(ErrorKind::IoError)
    );
    assert_eq!(
        check_authorization(&AuthReply::Subject(PolkitFailure::ParseInt)),
        Err(ErrorKind::InvalidArgs)
    );
    assert_eq!(
        check_authorization(&AuthReply::Subject(PolkitFailure::BadSender)),
        Err(ErrorKind::InconsistentMessage)
    );
    assert_eq!(
        check_authorization(&AuthReply::Subject(PolkitFailure::MissingSender)),
        Err(ErrorKind::InconsistentMessage)
    );
    assert_eq!(
        check_authorization(&AuthReply::Subject(PolkitFailure::Other)),
        Err(ErrorKind::AuthFailed)
    );
    assert_eq!(check_authorization(&AuthReply::Transport), Err(ErrorKind::IoError));
}

#[test]
fn validation_order() {
    let sender = ":1.30".to_string();
    assert_eq!(create_validate(None, &"root".to_string()), Err(ErrorKind::AccessDenied));
    // A missing sender outranks a bad user.
    assert_eq!(create_validate(None, &"alice".to_string()), Err(ErrorKind::AccessDenied));
    assert_eq!(
        create_validate(Some(&sender), &"alice".to_string()),
        Err(ErrorKind::InvalidArgs)
    );
    assert_eq!(create_validate(Some(&sender), &"root".to_string()), Ok(()));
}
