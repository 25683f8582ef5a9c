//! What a session's child is attached to.
//!
//! An interactive session owns the master side of a pseudo-terminal; a batch
//! session talks to the child over three pipes created at spawn time. When a
//! session is reaped its endpoints are released and the attachment becomes
//! `Detached`, after which it exposes no descriptors.
//!
//! Descriptors are modelled as the raw numbers the host hands out; the
//! unverified shell owns the live handles behind them.

use vstd::prelude::*;
use crate::error::ErrorKind;

verus! {

/// What the broker records about a spawned child process.
#[derive(Clone, Copy, Debug, PartialEq, Eq)]
pub struct ChildHandle {
    /// The OS process id, while the host still reports one.
    pub pid: Option<u64>,
    /// The child's stdin pipe, for a batch child.
    pub stdin_fd: Option<i32>,
    /// The child's stderr pipe, for a batch child.
    pub stderr_fd: Option<i32>,
    /// The child's stdout pipe, for a batch child.
    pub stdout_fd: Option<i32>,
}

impl ChildHandle {
    /// A batch child carries all three pipe descriptors.
    pub open spec fn has_pipe_fds(self) -> bool {
        self.stdin_fd is Some && self.stderr_fd is Some && self.stdout_fd is Some
    }
}

/// The I/O endpoints of a session.
#[derive(Clone, Copy, Debug, PartialEq, Eq)]
pub enum Attachment {
    /// A pseudo-terminal; the broker retains the master descriptor until the
    /// session is reaped.
    Pty { master: i32 },
    /// Piped stdin, stdout and stderr, created by the child at spawn time.
    Pipes,
    /// Endpoints released; the child has exited and been reaped.
    Detached,
}

impl Attachment {
    /// The descriptors handed back to the client after a spawn: the master
    /// end alone for a pseudo-terminal, the child's stdin, stderr and stdout
    /// (in that order) for pipes, nothing once detached.
    pub open spec fn fds_view(self, child: ChildHandle) -> Seq<i32> {
        match self {
            Attachment::Pty { master } => seq![master],
            Attachment::Pipes => seq![child.stdin_fd->0, child.stderr_fd->0, child.stdout_fd->0],
            Attachment::Detached => Seq::<i32>::empty(),
        }
    }

    /// Chooses the attachment for a new session. An interactive session needs
    /// the master descriptor of a freshly allocated pseudo-terminal; `None`
    /// there means the host could not allocate one.
    pub fn new(interactive: bool, pty_master: Option<i32>) -> (r: Result<Attachment, ErrorKind>)
        ensures
            match r {
                Ok(a) => if interactive {
                    pty_master is Some && a == (Attachment::Pty { master: pty_master->0 })
                } else {
                    a is Pipes
                },
                Err(e) => e == ErrorKind::SpawnFailed && interactive && pty_master is None,
            },
    {
        if interactive {
            match pty_master {
                Some(master) => Ok(Attachment::Pty { master }),
                None => Err(ErrorKind::SpawnFailed),
            }
        } else {
            Ok(Attachment::Pipes)
        }
    }

    /// The descriptors to return to the client.
    pub fn fds(&self, child: &ChildHandle) -> (r: Vec<i32>)
        requires
            self is Pipes ==> child.has_pipe_fds(),
        ensures
            r@ == self.fds_view(*child),
    {
        let mut out: Vec<i32> = Vec::new();
        match self {
            Attachment::Pty { master } => {
                out.push(*master);
                proof {
                    assert(out@ =~= self.fds_view(*child));
                }
            },
            Attachment::Pipes => {
                out.push(child.stdin_fd.unwrap());
                out.push(child.stderr_fd.unwrap());
                out.push(child.stdout_fd.unwrap());
                proof {
                    assert(out@ =~= self.fds_view(*child));
                }
            },
            Attachment::Detached => {
                proof {
                    assert(out@ =~= self.fds_view(*child));
                }
            },
        }
        out
    }
}

} // verus!
