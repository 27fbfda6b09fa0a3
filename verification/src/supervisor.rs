use vstd::prelude::*;
use vstd::string::StringExecFns;

verus! {

/// The platforms the shell runs on, as far as process handling differs:
/// one family knows a graceful termination signal, the other can only
/// terminate a process forcibly.
#[derive(Clone, Copy, Debug, PartialEq, Eq, Structural)]
pub enum Platform {
    Windows,
    Unix,
}

/// Whether the supervisor still holds its process as live.
#[derive(Clone, Copy, Debug, PartialEq, Eq, Structural)]
pub enum Status {
    Running,
    Terminated,
}

/// What the shell must now do to the operating-system process.
#[derive(Clone, Copy, Debug, PartialEq, Eq, Structural)]
pub enum TerminateAction {
    /// Send the graceful termination signal and do not kill forcibly.
    GracefulSignal,
    /// Terminate forcibly: the platform has no graceful signal.
    ForceKill,
}

/// How a running process is asked to stop on the given platform.
pub open spec fn shutdown_action(p: Platform) -> TerminateAction {
    match p {
        Platform::Windows => TerminateAction::ForceKill,
        Platform::Unix => TerminateAction::GracefulSignal,
    }
}

/// The file name of the backend executable on the given platform.
pub fn backend_file_name(p: Platform) -> (r: String)
    ensures
        p == Platform::Windows ==> r@ == "backend.exe"@,
        p != Platform::Windows ==> r@ == "backend"@,
{
    match p {
        Platform::Windows => String::from_str("backend.exe"),
        Platform::Unix => String::from_str("backend"),
    }
}

/// The one supervised sidecar process of an application run: what was
/// spawned, where, under which process identifier, and whether the
/// supervisor still holds it as live. The shell owns a single instance,
/// shared between setup and the window-close handler behind a lock.
#[derive(Debug)]
pub struct Supervisor {
    pub platform: Platform,
    pub executable: String,
    pub working_dir: Option<String>,
    pub pid: u64,
    pub status: Status,
}

impl Supervisor {
    /// The supervisor after a termination request: the process is held as
    /// terminated, everything else stands.
    pub open spec fn after_terminate(self) -> Supervisor {
        Supervisor { status: Status::Terminated, ..self }
    }

    /// The action a termination request asks of the shell: stop the process,
    /// in the platform's way, only where it is still held as live.
    pub open spec fn terminate_action(self) -> Option<TerminateAction> {
        if self.status == Status::Running {
            Some(shutdown_action(self.platform))
        } else {
            None
        }
    }

    /// Records a freshly spawned backend process; the supervisor holds it
    /// as running.
    pub fn started(
        platform: Platform,
        executable: String,
        working_dir: Option<String>,
        pid: u64,
    ) -> (s: Supervisor)
        ensures
            s == (Supervisor { platform, executable, working_dir, pid, status: Status::Running }),
    {
        Supervisor { platform, executable, working_dir, pid, status: Status::Running }
    }

    /// Requests termination. Never fails: on a process already terminated —
    /// by an earlier request, or because it exited on its own — nothing is
    /// asked of the shell. Otherwise the returned action tells the shell how
    /// to stop the process on this platform.
    pub fn terminate(&mut self) -> (action: Option<TerminateAction>)
        ensures
            *final(self) == old(self).after_terminate(),
            action == old(self).terminate_action(),
    {
        let action = if self.status == Status::Running {
            Some(match self.platform {
                Platform::Windows => TerminateAction::ForceKill,
                Platform::Unix => TerminateAction::GracefulSignal,
            })
        } else {
            None
        };
        self.status = Status::Terminated;
        action
    }

    /// Records that the process exited on its own.
    pub fn exited(&mut self)
        ensures
            *final(self) == old(self).after_terminate(),
    {
        self.status = Status::Terminated;
    }
}

/// Termination is idempotent: once the process is held as terminated — after
/// an earlier termination request, or after it exited on its own — a further
/// request changes nothing and asks no action of the shell.
pub proof fn lemma_terminate_idempotent(s: Supervisor)
    ensures
        s.after_terminate().after_terminate() == s.after_terminate(),
        s.after_terminate().terminate_action() is None,
        s.after_terminate().status == Status::Terminated,
{
}

} // verus!
