//! The root object's `create` operation.
//!
//! `create(user, argv, interactive)` authenticates the calling sender against
//! the policy authority, builds a session bound to that sender, registers it
//! under a fresh id, and answers with the bus path of the new session object.
//!
//! The policy round trip itself is a bus call made by the unverified shell;
//! its outcome arrives here as an `AuthReply`. Likewise the pseudo-terminal
//! for an interactive session is allocated by the host, and its master
//! descriptor (or the news that allocation failed) arrives as an
//! `Option<i32>`.
//!
//! On every failure the registry is untouched: no id is spent and no session
//! is published.

use vstd::prelude::*;
use vstd::pervasive::unreached;
use vstd::string::StringExecFns;
use crate::attachment::Attachment;
use crate::error::ErrorKind;
use crate::path::{path_chars, session_path};
use crate::registry::{Registry, allocate_step};
use crate::session::{Session, fresh_session};

verus! {

/// Why the policy authority could not build a subject for the caller.
#[derive(Clone, Copy, Debug, PartialEq, Eq)]
pub enum PolkitFailure {
    /// An I/O error while reading the caller's credentials.
    Io,
    /// A malformed numeric field in the caller's credentials.
    ParseInt,
    /// The message header named a sender the bus does not know.
    BadSender,
    /// The message header carried no sender at all.
    MissingSender,
    /// Any other failure.
    Other,
}

/// How the policy-authority round trip ended.
#[derive(Clone, Copy, Debug, PartialEq, Eq)]
pub enum AuthReply {
    /// The authority answered.
    Answer { authorized: bool },
    /// A subject could not be constructed from the message header.
    Subject(PolkitFailure),
    /// The bus round trip to the authority failed.
    Transport,
}

/// The wire error each subject-construction failure maps to.
pub open spec fn polkit_failure_kind(f: PolkitFailure) -> ErrorKind {
    match f {
        PolkitFailure::Io => ErrorKind::IoError,
        PolkitFailure::ParseInt => ErrorKind::InvalidArgs,
        PolkitFailure::BadSender => ErrorKind::InconsistentMessage,
        PolkitFailure::MissingSender => ErrorKind::InconsistentMessage,
        PolkitFailure::Other => ErrorKind::AuthFailed,
    }
}

/// Turns the policy authority's reply into the broker's decision: proceed
/// only on an explicit "authorized"; classify everything else.
pub fn check_authorization(reply: &AuthReply) -> (r: Result<(), ErrorKind>)
    ensures
        match r {
            Ok(()) => *reply == (AuthReply::Answer { authorized: true }),
            Err(e) => match *reply {
                AuthReply::Answer { authorized } => !authorized && e == ErrorKind::AccessDenied,
                AuthReply::Subject(f) => e == polkit_failure_kind(f),
                AuthReply::Transport => e == ErrorKind::IoError,
            },
        },
{
    match reply {
        AuthReply::Answer { authorized } => {
            if *authorized {
                Ok(())
            } else {
                Err(ErrorKind::AccessDenied)
            }
        },
        AuthReply::Subject(f) => match f {
            PolkitFailure::Io => Err(ErrorKind::IoError),
            PolkitFailure::ParseInt => Err(ErrorKind::InvalidArgs),
            PolkitFailure::BadSender => Err(ErrorKind::InconsistentMessage),
            PolkitFailure::MissingSender => Err(ErrorKind::InconsistentMessage),
            PolkitFailure::Other => Err(ErrorKind::AuthFailed),
        },
        AuthReply::Transport => Err(ErrorKind::IoError),
    }
}

/// The checks that precede the policy round trip: the message must carry a
/// sender, and only the superuser is accepted as the target user in this
/// revision.
pub fn create_validate(sender: Option<&String>, user: &String) -> (r: Result<(), ErrorKind>)
    ensures
        match r {
            Ok(()) => sender is Some && user@ == "root"@,
            Err(e) => (e == ErrorKind::AccessDenied && sender is None) || (e
                == ErrorKind::InvalidArgs && sender is Some && user@ != "root"@),
        },
{
    match sender {
        None => {
            return Err(ErrorKind::AccessDenied);
        },
        Some(_) => {},
    }
    let root = String::from_str("root");
    if *user == root {
        Ok(())
    } else {
        Err(ErrorKind::InvalidArgs)
    }
}

/// The policy authority explicitly answered "authorized".
pub open spec fn authorized_reply(auth: Option<&AuthReply>) -> bool {
    match auth {
        Some(reply) => *reply == (AuthReply::Answer { authorized: true }),
        None => false,
    }
}

/// The request was valid: the message carried a sender and named the
/// superuser as the target user.
pub open spec fn valid_request(sender: Option<&String>, user: &String) -> bool {
    sender is Some && user@ == "root"@
}

/// The failures `create` can answer with, each tied to the inputs that
/// produce it.
pub open spec fn create_error(
    sender: Option<&String>,
    user: &String,
    argv: Seq<String>,
    interactive: bool,
    auth: Option<&AuthReply>,
    pty_master: Option<i32>,
    e: ErrorKind,
) -> bool {
    ||| (e == ErrorKind::AccessDenied && sender is None)
    ||| (e == ErrorKind::InvalidArgs && sender is Some && user@ != "root"@)
    ||| (valid_request(sender, user) && match auth {
        Some(reply) => match *reply {
            AuthReply::Answer { authorized } => !authorized && e == ErrorKind::AccessDenied,
            AuthReply::Subject(f) => e == polkit_failure_kind(f),
            AuthReply::Transport => e == ErrorKind::IoError,
        },
        None => false,
    })
    ||| (valid_request(sender, user) && authorized_reply(auth) && interactive && pty_master is None
        && e == ErrorKind::SpawnFailed)
    ||| (valid_request(sender, user) && authorized_reply(auth) && (interactive ==> pty_master
        is Some) && argv.len() == 0 && e == ErrorKind::InvalidArgs)
}

/// The whole `create` transition.
///
/// `auth` is the policy authority's reply, gathered by the host after
/// `create_validate` passed (hence it must be present whenever the request is
/// valid); `pty_master` is the master descriptor of a freshly allocated
/// pseudo-terminal when `interactive`, or `None` when allocation failed or
/// was not needed.
///
/// On success, exactly one fresh id is allocated, the returned session is
/// bound to the sender, and the returned path is the id's bus path. On every
/// failure the registry is unchanged: `next_id` is not advanced and nothing
/// was published.
pub fn create(
    registry: &mut Registry,
    sender: Option<&String>,
    user: &String,
    argv: Vec<String>,
    interactive: bool,
    auth: Option<&AuthReply>,
    pty_master: Option<i32>,
) -> (r: Result<(Session, u64, String), ErrorKind>)
    requires
        old(registry).wf(),
        old(registry).next_id < u64::MAX,
        valid_request(sender, user) ==> auth is Some,
    ensures
        final(registry).wf(),
        match r {
            Ok((s, id, path)) => valid_request(sender, user) && authorized_reply(auth) && (
            interactive ==> pty_master is Some) && s.wf() && fresh_session(
                s,
                *sender->0,
                argv@,
                if interactive {
                    (Attachment::Pty { master: pty_master->0 })
                } else {
                    Attachment::Pipes
                },
            ) && s.command.interactive == interactive && allocate_step(
                *old(registry),
                *final(registry),
                id,
            ) && path@ == path_chars(id as nat),
            Err(e) => *final(registry) == *old(registry) && create_error(
                sender,
                user,
                argv@,
                interactive,
                auth,
                pty_master,
                e,
            ),
        },
{
    match create_validate(sender, user) {
        Ok(()) => {},
        Err(e) => {
            return Err(e);
        },
    }
    let reply: &AuthReply = match auth {
        Some(a) => a,
        None => unreached(),
    };
    match check_authorization(reply) {
        Ok(()) => {},
        Err(e) => {
            return Err(e);
        },
    }
    let attachment = match Attachment::new(interactive, pty_master) {
        Ok(a) => a,
        Err(e) => {
            return Err(e);
        },
    };
    let name: String = match sender {
        Some(n) => n.clone(),
        None => unreached(),
    };
    let session = match Session::new(name, argv, attachment) {
        Ok(s) => s,
        Err(e) => {
            return Err(e);
        },
    };
    let id = registry.allocate();
    let path = session_path(id);
    Ok((session, id, path))
}

} // verus!
