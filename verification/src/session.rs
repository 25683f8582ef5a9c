//! A single elevation request in progress.
//!
//! A `Session` binds the identity of the client that created it, the command
//! being accumulated, the I/O attachment, and — once spawned — the child.
//! Every operation other than creation itself is accepted only from the
//! creating sender: the sender name is the sole capability token.
//!
//! The session moves through three states: configuring (no child),
//! running (child present), and detached (child exited and reaped).
//! `environment`, `directory` and `spawn_request` are accepted only while
//! configuring; `signal` and `resize` only while a child is present.

use vstd::prelude::*;
use crate::attachment::{Attachment, ChildHandle};
use crate::command::{CommandSpec, env_update, env_keys_distinct, lemma_env_round_trip};
use crate::error::ErrorKind;
use crate::signals::{valid_signal, signal_number_accepted};

verus! {

/// One elevation request and the resources for executing it.
pub struct Session {
    /// The bus unique name of the client that created this session;
    /// immutable, and the sole capability token for later operations.
    pub caller: String,
    /// The session's I/O endpoints.
    pub attachment: Attachment,
    /// The accumulated command; frozen once the child starts.
    pub command: CommandSpec,
    /// The child process, once spawned.
    pub child: Option<ChildHandle>,
}

/// What the host reports when the reaper polls a child without blocking.
#[derive(Clone, Copy, Debug, PartialEq, Eq)]
pub enum WaitEvent {
    /// The child has exited.
    Exited,
    /// The child is still running.
    StillRunning,
    /// The poll itself failed; nothing is known.
    Unknown,
}

/// What the reaper must do with a session after one poll.
#[derive(Clone, Copy, Debug, PartialEq, Eq)]
pub enum ReapDecision {
    /// Keep the session published.
    Keep,
    /// The child has exited: close the released descriptor (a retained
    /// pseudo-terminal master, if any), unpublish the session from the
    /// object server, and drop its id from the registry.
    Unpublish { release: Option<i32> },
}

/// How the host's attempt to launch the child ended.
pub enum SpawnOutcome {
    /// The child is running.
    Started(ChildHandle),
    /// Fork/exec, terminal wiring or the working directory failed.
    Failed,
}

/// The plan handed to the host to deliver a signal.
#[derive(Clone, Copy, Debug, PartialEq, Eq)]
pub struct KillPlan {
    /// The child's process id.
    pub pid: i32,
    /// The signal number to deliver.
    pub signal: i32,
}

impl Session {
    /// A session's internal invariant: the attachment shape agrees with the
    /// command's shape until detachment, detachment only happens after a
    /// child existed, and a batch child carries its pipe descriptors.
    pub open spec fn wf(self) -> bool {
        &&& (self.attachment is Detached ==> self.child is Some)
        &&& (!(self.attachment is Detached) ==> (self.command.interactive <==> self.attachment
            is Pty))
        &&& (self.child is Some && !self.command.interactive ==> self.child->0.has_pipe_fds())
    }

    /// Whether `sender` is the client this session is bound to.
    pub open spec fn caller_matches(self, sender: Option<&String>) -> bool {
        match sender {
            Some(name) => name@ == self.caller@,
            None => false,
        }
    }
}

/// The fields an operation on a live session never touches.
pub open spec fn config_frame(pre: Session, post: Session) -> bool {
    &&& post.caller == pre.caller
    &&& post.attachment == pre.attachment
    &&& post.child == pre.child
    &&& post.command.interactive == pre.command.interactive
    &&& post.command.program == pre.command.program
    &&& post.command.args == pre.command.args
}

/// What `Session::new` returns on success: a configuring session bound to
/// `sender`, holding `argv` verbatim and the given attachment.
pub open spec fn fresh_session(
    s: Session,
    sender: String,
    argv: Seq<String>,
    attachment: Attachment,
) -> bool {
    &&& argv.len() > 0
    &&& s.caller == sender
    &&& s.attachment == attachment
    &&& s.child is None
    &&& s.command.interactive == (attachment is Pty)
    &&& s.command.program == argv[0]
    &&& s.command.args@ == argv.skip(1)
    &&& s.command.envs.deep_view() == Seq::<(Seq<char>, Seq<char>)>::empty()
    &&& s.command.cwd is None
}

/// What a successful `environment` call does: the environment absorbs the
/// given bindings in order; everything else is untouched.
pub open spec fn environment_step(
    pre: Session,
    post: Session,
    environ: Seq<(Seq<char>, Seq<char>)>,
) -> bool {
    &&& config_frame(pre, post)
    &&& post.command.cwd == pre.command.cwd
    &&& post.command.envs.deep_view() == env_update(pre.command.envs.deep_view(), environ)
}

/// What a successful `directory` call does: the working directory is
/// replaced; everything else is untouched.
pub open spec fn directory_step(pre: Session, post: Session, path: String) -> bool {
    &&& config_frame(pre, post)
    &&& post.command.envs == pre.command.envs
    &&& post.command.cwd == Some(path)
}

impl Session {
    /// Creates a session bound to `sender`, wrapping `argv` into a fresh
    /// command. The first element of `argv` is the program; an empty `argv`
    /// is rejected. The attachment was built beforehand, so it is never
    /// `Detached` here.
    pub fn new(sender: String, argv: Vec<String>, attachment: Attachment) -> (r: Result<
        Session,
        ErrorKind,
    >)
        requires
            !(attachment is Detached),
        ensures
            match r {
                Ok(s) => s.wf() && fresh_session(s, sender, argv@, attachment),
                Err(e) => e == ErrorKind::InvalidArgs && argv@.len() == 0,
            },
    {
        let mut rest = argv;
        if rest.len() == 0 {
            return Err(ErrorKind::InvalidArgs);
        }
        let program = rest.remove(0);
        let interactive = matches!(attachment, Attachment::Pty { .. });
        let mut command = CommandSpec::new(program, interactive);
        command.args(rest);
        let s = Session { caller: sender, attachment, command, child: None };
        proof {
            assert(s.command.args@ =~= argv@.skip(1));
            assert(s.command.envs.deep_view() =~= Seq::<(Seq<char>, Seq<char>)>::empty());
        }
        Ok(s)
    }

    /// Accepts the operation only from the sender that created the session.
    pub fn check_caller(&self, sender: Option<&String>) -> (r: Result<(), ErrorKind>)
        ensures
            match r {
                Ok(()) => self.caller_matches(sender),
                Err(e) => !self.caller_matches(sender) && e == ErrorKind::AccessDenied,
            },
    {
        match sender {
            Some(name) => {
                if *name == self.caller {
                    Ok(())
                } else {
                    Err(ErrorKind::AccessDenied)
                }
            },
            None => Err(ErrorKind::AccessDenied),
        }
    }

    /// Sets environment variables for the child. Rejected once the child has
    /// been started; on any error the session is unchanged.
    pub fn environment(&mut self, sender: Option<&String>, environ: Vec<(String, String)>) -> (r:
        Result<(), ErrorKind>)
        requires
            old(self).wf(),
        ensures
            final(self).wf(),
            match r {
                Ok(()) => old(self).caller_matches(sender) && old(self).child is None
                    && environment_step(*old(self), *final(self), environ.deep_view()),
                Err(e) => *final(self) == *old(self) && ((e == ErrorKind::AccessDenied && !old(
                    self,
                ).caller_matches(sender)) || (e == ErrorKind::FileExists && old(
                    self,
                ).caller_matches(sender) && old(self).child is Some)),
            },
    {
        match self.check_caller(sender) {
            Ok(()) => {},
            Err(e) => {
                return Err(e);
            },
        }
        if self.child.is_some() {
            return Err(ErrorKind::FileExists);
        }
        self.command.envs(environ);
        Ok(())
    }

    /// Sets the child's working directory, an opaque byte string validated
    /// only at spawn time. Rejected once the child has been started; on any
    /// error the session is unchanged.
    pub fn directory(&mut self, sender: Option<&String>, path: String) -> (r: Result<
        (),
        ErrorKind,
    >)
        requires
            old(self).wf(),
        ensures
            final(self).wf(),
            match r {
                Ok(()) => old(self).caller_matches(sender) && old(self).child is None
                    && directory_step(*old(self), *final(self), path),
                Err(e) => *final(self) == *old(self) && ((e == ErrorKind::AccessDenied && !old(
                    self,
                ).caller_matches(sender)) || (e == ErrorKind::FileExists && old(
                    self,
                ).caller_matches(sender) && old(self).child is Some)),
            },
    {
        match self.check_caller(sender) {
            Ok(()) => {},
            Err(e) => {
                return Err(e);
            },
        }
        if self.child.is_some() {
            return Err(ErrorKind::FileExists);
        }
        self.command.current_dir(path);
        Ok(())
    }

    /// The checks in front of a spawn: only the creating sender may spawn,
    /// and only while no child exists. The host then launches the frozen
    /// command (`self.command`) and reports back through `spawn_attach`.
    pub fn spawn_request(&self, sender: Option<&String>) -> (r: Result<(), ErrorKind>)
        ensures
            match r {
                Ok(()) => self.caller_matches(sender) && self.child is None,
                Err(e) => (e == ErrorKind::AccessDenied && !self.caller_matches(sender)) || (e
                    == ErrorKind::FileExists && self.caller_matches(sender) && self.child is Some),
            },
    {
        match self.check_caller(sender) {
            Ok(()) => {},
            Err(e) => {
                return Err(e);
            },
        }
        if self.child.is_some() {
            return Err(ErrorKind::FileExists);
        }
        Ok(())
    }

    /// Records the outcome of the host's launch attempt. On success the child
    /// is attached and the client's descriptors are returned: exactly one for
    /// an interactive session, exactly three (stdin, stderr, stdout) for a
    /// batch session. On failure the session is unchanged — still
    /// configuring, so the spawn may be retried.
    pub fn spawn_attach(&mut self, outcome: SpawnOutcome) -> (r: Result<Vec<i32>, ErrorKind>)
        requires
            old(self).wf(),
            old(self).child is None,
            match outcome {
                SpawnOutcome::Started(c) => !old(self).command.interactive ==> c.has_pipe_fds(),
                SpawnOutcome::Failed => true,
            },
        ensures
            final(self).wf(),
            final(self).caller == old(self).caller,
            final(self).attachment == old(self).attachment,
            final(self).command == old(self).command,
            match r {
                Ok(fds) => match outcome {
                    SpawnOutcome::Started(c) => final(self).child == Some(c) && fds@ == old(
                        self,
                    ).attachment.fds_view(c) && (old(self).command.interactive ==> fds@.len() == 1)
                        && (!old(self).command.interactive ==> fds@.len() == 3),
                    SpawnOutcome::Failed => false,
                },
                Err(e) => e == ErrorKind::SpawnFailed && outcome is Failed && *final(self) == *old(
                    self,
                ),
            },
    {
        match outcome {
            SpawnOutcome::Started(c) => {
                let fds = self.attachment.fds(&c);
                self.child = Some(c);
                Ok(fds)
            },
            SpawnOutcome::Failed => Err(ErrorKind::SpawnFailed),
        }
    }

    /// The checks in front of a signal delivery: the caller binding, that a
    /// child exists, that the host reported a usable process id, and that the
    /// signal number is one the host accepts. The host then delivers the
    /// returned plan and classifies its answer with `kill_outcome`.
    pub fn signal(&self, sender: Option<&String>, signal: i32) -> (r: Result<KillPlan, ErrorKind>)
        ensures
            match r {
                Ok(plan) => self.caller_matches(sender) && self.child is Some && (match self.child {
                    Some(c) => c.pid is Some && c.pid->0 <= i32::MAX && plan.pid == c.pid->0 as i32,
                    None => false,
                }) && valid_signal(signal) && plan.signal == signal,
                Err(e) => if !self.caller_matches(sender) {
                    e == ErrorKind::AccessDenied
                } else if self.child is None {
                    e == ErrorKind::FileNotFound
                } else if match self.child {
                    Some(c) => c.pid is None || c.pid->0 > i32::MAX,
                    None => false,
                } {
                    e == ErrorKind::IoError
                } else {
                    e == ErrorKind::InvalidArgs && !valid_signal(signal)
                },
            },
    {
        match self.check_caller(sender) {
            Ok(()) => {},
            Err(e) => {
                return Err(e);
            },
        }
        match &self.child {
            Some(c) => {
                let pid_u64 = match c.pid {
                    Some(p) => p,
                    None => {
                        return Err(ErrorKind::IoError);
                    },
                };
                if pid_u64 > i32::MAX as u64 {
                    return Err(ErrorKind::IoError);
                }
                if !signal_number_accepted(signal) {
                    return Err(ErrorKind::InvalidArgs);
                }
                Ok(KillPlan { pid: pid_u64 as i32, signal })
            },
            None => Err(ErrorKind::FileNotFound),
        }
    }

    /// Placeholder for applying new terminal dimensions: the wire contract
    /// does not yet carry them, so a successful call does nothing. The
    /// caller-binding and child-present rules already apply.
    pub fn resize(&self, sender: Option<&String>) -> (r: Result<(), ErrorKind>)
        ensures
            match r {
                Ok(()) => self.caller_matches(sender) && self.child is Some,
                Err(e) => (e == ErrorKind::AccessDenied && !self.caller_matches(sender)) || (e
                    == ErrorKind::FileNotFound && self.caller_matches(sender) && self.child
                    is None),
            },
    {
        match self.check_caller(sender) {
            Ok(()) => {},
            Err(e) => {
                return Err(e);
            },
        }
        if self.child.is_none() {
            return Err(ErrorKind::FileNotFound);
        }
        Ok(())
    }

    /// One reaper poll. `wait` is what the host's non-blocking wait reported;
    /// it is consulted only when a child exists. When the child has exited,
    /// the attachment is detached and the decision names the descriptor the
    /// broker must explicitly close (the retained pseudo-terminal master, if
    /// any); the session is to be unpublished. In every other case the
    /// session is untouched.
    pub fn check_exited(&mut self, wait: WaitEvent) -> (r: ReapDecision)
        requires
            old(self).wf(),
        ensures
            final(self).wf(),
            match r {
                ReapDecision::Keep => *final(self) == *old(self) && !(old(self).child is Some
                    && wait is Exited),
                ReapDecision::Unpublish { release } => old(self).child is Some && wait is Exited
                    && final(self).attachment is Detached && final(self).caller == old(self).caller
                    && final(self).command == old(self).command && final(self).child == old(
                    self,
                ).child && release == (match old(self).attachment {
                    Attachment::Pty { master } => Some(master),
                    Attachment::Pipes => None::<i32>,
                    Attachment::Detached => None::<i32>,
                }),
            },
    {
        if self.child.is_none() {
            return ReapDecision::Keep;
        }
        match wait {
            WaitEvent::Exited => {
                let release = match self.attachment {
                    Attachment::Pty { master } => Some(master),
                    Attachment::Pipes => None,
                    Attachment::Detached => None,
                };
                self.attachment = Attachment::Detached;
                ReapDecision::Unpublish { release }
            },
            WaitEvent::StillRunning => ReapDecision::Keep,
            WaitEvent::Unknown => ReapDecision::Keep,
        }
    }
}

/// Classifies the host's answer to a signal delivery: a kernel failure
/// (including the child having already exited) surfaces as an I/O error.
pub fn kill_outcome(delivered: bool) -> (r: Result<(), ErrorKind>)
    ensures
        match r {
            Ok(()) => delivered,
            Err(e) => !delivered && e == ErrorKind::IoError,
        },
{
    if delivered {
        Ok(())
    } else {
        Err(ErrorKind::IoError)
    }
}

/// Law: the configuration the host receives at spawn time is exactly what
/// the client handed in. After creating a session with `argv`, setting an
/// environment map with pairwise-distinct keys, and setting a working
/// directory, the frozen command holds `argv[0]` as the program, the rest of
/// `argv` as the arguments, the map verbatim and in order as the
/// environment, and the directory as given.
pub proof fn lemma_config_round_trip(
    sender: String,
    argv: Seq<String>,
    attachment: Attachment,
    s0: Session,
    s1: Session,
    s2: Session,
    environ: Seq<(Seq<char>, Seq<char>)>,
    path: String,
)
    requires
        fresh_session(s0, sender, argv, attachment),
        environment_step(s0, s1, environ),
        directory_step(s1, s2, path),
        env_keys_distinct(environ),
    ensures
        argv.len() > 0,
        s2.command.program == argv[0],
        s2.command.args@ == argv.skip(1),
        s2.command.envs.deep_view() == environ,
        s2.command.cwd == Some(path),
{
    lemma_env_round_trip(environ);
}

} // verus!
