//! The orchestration state machine.
//!
//! A `Context` tracks at most one greeter process, at most one active login
//! session and at most one pending session request, together with the
//! immutable configuration the daemon was started with. Its operations are
//! pure decisions: each one validates a request, updates the supervision
//! state and tells the caller which outside actions to perform (launch a
//! process, arm the escalation timer, send a termination signal, switch the
//! terminal to text mode, exit). The surrounding event loop performs those
//! actions and reports launch outcomes back through the completion
//! operations.

use vstd::prelude::*;

use crate::session::ChildHandle;
use crate::session::PendingSession;
use crate::session::ServiceKind;
use crate::session::SessionSpec;
use crate::session::VtSelection;
use crate::session::copy_bytes;
use crate::session::launch_matches_pending;
use crate::session::launch_of;
use crate::session::scrub_bytes;

verus! {

/// Seconds the escalation timer is armed for when a login request is
/// accepted: the greeter's grace period before the first nudge.
pub const ALARM_FIRST_SECS: u64 = 5;

/// Seconds between subsequent escalation nudges.
pub const ALARM_RETRY_SECS: u64 = 1;

/// Milliseconds after a login request's acceptance beyond which the greeter
/// is terminated forcibly instead of gracefully.
pub const KILL_TIMEOUT_MILLIS: u64 = 10_000;

/// Exit status of a clean terminate.
pub const EXIT_CLEAN: i32 = 0;

/// Exit status used when the daemon loses its greeter with nothing to
/// replace it.
pub const EXIT_LOST_GREETER: i32 = 1;

/// What an orchestration operation can reject a request with, and the fatal
/// conditions the event loop reports through the same type.
#[derive(Clone, Copy, PartialEq, Eq, Structural, Debug)]
pub enum GreetdError {
    /// A greeter was requested while one is already running.
    AlreadyActive,
    /// Login or shutdown was requested with no greeter active.
    GreeterNotActive,
    /// Login was requested while a session is already running.
    SessionAlreadyActive,
    /// Process creation or exec failed (reported by the event loop).
    LaunchFailure,
    /// The terminal mode primitive failed (reported by the event loop).
    TerminalModeFailure,
}

/// One outside action the event loop must perform on the state machine's
/// behalf.
#[derive(Clone, Copy, PartialEq, Eq, Structural, Debug)]
pub enum Action {
    /// Ask this process to leave, best-effort and without waiting.
    Shoo(i32),
    /// Switch the virtual terminal to plain text mode.
    SetTextMode,
    /// Exit the daemon's process with this status.
    Exit(i32),
}

/// The supervision state: which of the greeter handle, the session handle
/// and the pending session request exist. Only the reachable combinations
/// are representable, so at most one of each exists and a pending request
/// never coexists with a running session.
pub enum Supervision {
    /// Nothing is supervised.
    NoGreeter,
    /// A greeter runs and nothing else is tracked.
    GreeterOnly { greeter: ChildHandle },
    /// A greeter runs and an accepted login request waits for it to vacate
    /// the terminal.
    GreeterWithPending { greeter: ChildHandle, pending: PendingSession },
    /// The greeter is gone and the pending request's launch is due; it stays
    /// pending until a launch outcome is reported.
    PendingOnly { pending: PendingSession },
    /// A login session runs.
    SessionRunning { session: ChildHandle },
    /// A login session runs and a greeter was started beside it.
    GreeterAndSession { greeter: ChildHandle, session: ChildHandle },
}

impl Supervision {
    /// The greeter handle, if one exists.
    pub open spec fn greeter_opt(self) -> Option<ChildHandle> {
        match self {
            Supervision::NoGreeter => None,
            Supervision::GreeterOnly { greeter } => Some(greeter),
            Supervision::GreeterWithPending { greeter, .. } => Some(greeter),
            Supervision::PendingOnly { .. } => None,
            Supervision::SessionRunning { .. } => None,
            Supervision::GreeterAndSession { greeter, .. } => Some(greeter),
        }
    }

    /// The session handle, if one exists.
    pub open spec fn session_opt(self) -> Option<ChildHandle> {
        match self {
            Supervision::NoGreeter => None,
            Supervision::GreeterOnly { .. } => None,
            Supervision::GreeterWithPending { .. } => None,
            Supervision::PendingOnly { .. } => None,
            Supervision::SessionRunning { session } => Some(session),
            Supervision::GreeterAndSession { session, .. } => Some(session),
        }
    }

    /// The pending session request, if one exists.
    pub open spec fn pending_opt(self) -> Option<PendingSession> {
        match self {
            Supervision::NoGreeter => None,
            Supervision::GreeterOnly { .. } => None,
            Supervision::GreeterWithPending { pending, .. } => Some(pending),
            Supervision::PendingOnly { pending } => Some(pending),
            Supervision::SessionRunning { .. } => None,
            Supervision::GreeterAndSession { .. } => None,
        }
    }

    /// The greeter's process id, if a greeter handle exists.
    pub open spec fn greeter_pid_opt(self) -> Option<i32> {
        match self.greeter_opt() {
            Some(g) => Some(g.pid),
            None => None,
        }
    }

    /// The session's process id, if a session handle exists.
    pub open spec fn session_pid_opt(self) -> Option<i32> {
        match self.session_opt() {
            Some(s) => Some(s.pid),
            None => None,
        }
    }

    /// How many greeter handles exist.
    pub open spec fn greeter_count(self) -> nat {
        if self.greeter_opt() is Some { 1nat } else { 0nat }
    }

    /// How many session handles exist.
    pub open spec fn session_count(self) -> nat {
        if self.session_opt() is Some { 1nat } else { 0nat }
    }

    /// How many pending session requests exist.
    pub open spec fn pending_count(self) -> nat {
        if self.pending_opt() is Some { 1nat } else { 0nat }
    }
}

/// At any observation point, at most one greeter handle, at most one session
/// handle and at most one pending session request exist, and a pending
/// request never coexists with a running session. This holds of every
/// representable supervision state, hence after every sequence of
/// operations.
pub proof fn lemma_at_most_one_of_each(s: Supervision)
    ensures
        s.greeter_count() <= 1,
        s.session_count() <= 1,
        s.pending_count() <= 1,
        s.pending_count() + s.session_count() <= 1,
{
}

/// A shutdown request's action.
#[derive(Clone, Copy, PartialEq, Eq, Structural, Debug)]
pub enum ShutdownAction {
    Poweroff,
    Reboot,
    Exit,
}

/// What a shutdown request asks the event loop to do.
pub enum ShutdownPlan {
    /// Fork and exec this command in a child process, without waiting for
    /// it; the daemon's own shutdown follows through the normal terminate
    /// path once the command takes effect.
    RunCommand(Vec<String>),
    /// Exit: perform these actions in order. The last one exits the daemon's
    /// process, so control never returns to the requester.
    Terminate(Vec<Action>),
}

/// What the reaping of one exited process id requires of the event loop.
pub enum ReapDisposition {
    /// The id belongs to no supervised process (for instance a transient
    /// shutdown command's child): nothing to do.
    Ignored,
    /// The session exited: start a fresh greeter at once, through `greet`;
    /// a failure there is fatal.
    StartGreeter,
    /// The greeter exited and a pending session waits: launch it now, then
    /// report through `session_started` or `session_start_failed`.
    StartPending(SessionSpec),
    /// The greeter exited with neither a pending session nor a running
    /// session left: perform these actions — text mode, then a non-zero
    /// exit — since an unsupervised terminal is not a state the daemon can
    /// recover from.
    FatalNoSupervisor(Vec<Action>),
}

/// The best-effort departure requests terminate sends: the session first,
/// then the greeter.
pub open spec fn shoo_actions(s: Supervision) -> Seq<Action> {
    (match s.session_opt() {
        Some(c) => seq![Action::Shoo(c.pid)],
        None => Seq::<Action>::empty(),
    }) + (match s.greeter_opt() {
        Some(c) => seq![Action::Shoo(c.pid)],
        None => Seq::<Action>::empty(),
    })
}

/// Everything terminate asks of the event loop: shoo the supervised
/// processes, fall back to text mode, exit cleanly.
pub open spec fn terminate_plan(s: Supervision) -> Seq<Action> {
    shoo_actions(s) + seq![Action::SetTextMode, Action::Exit(EXIT_CLEAN)]
}

/// What an alarm tick asks the event loop to do.
pub enum AlarmOutcome {
    /// No pending session exists: the tick is a no-op.
    Idle,
    /// A pending session waits for the greeter: ask the greeter (by its
    /// process id) to terminate, forcibly once the request is older than
    /// `KILL_TIMEOUT_MILLIS`, and re-arm the timer for `rearm_secs` seconds.
    Nudge { pid: i32, force: bool, rearm_secs: u64 },
    /// The greeter is already gone: launch the pending session now, then
    /// report through `session_started` or `session_start_failed`.
    StartPending(SessionSpec),
}

/// Milliseconds elapsed from a request's acceptance to `now` on the
/// monotonic clock; zero if the clock reads earlier than the acceptance.
pub open spec fn elapsed_millis(accepted_at: u64, now: u64) -> int {
    if now >= accepted_at {
        now - accepted_at
    } else {
        0
    }
}

/// The terminal a login request resolves to: the daemon's default or the
/// explicitly chosen one.
pub open spec fn resolve_vt(sel: VtSelection, default_vt: usize) -> usize {
    match sel {
        VtSelection::Current => default_vt,
        VtSelection::Vt(vt) => vt,
    }
}

/// Orchestrator state: the supervision record plus the daemon's immutable
/// configuration.
pub struct Context {
    /// Which handles and pending request exist.
    pub state: Supervision,
    /// Command that starts the greeter.
    pub greeter_bin: String,
    /// User the greeter runs as.
    pub greeter_user: String,
    /// Default terminal number.
    pub vt: usize,
}

/// The operation changed nothing but the supervision record.
pub open spec fn same_config(a: Context, b: Context) -> bool {
    &&& a.greeter_bin == b.greeter_bin
    &&& a.greeter_user == b.greeter_user
    &&& a.vt == b.vt
}

impl Context {
    /// A fresh orchestrator: nothing supervised yet.
    pub fn new(greeter_bin: String, greeter_user: String, vt: usize) -> (r: Context)
        ensures
            r.state is NoGreeter,
            r.greeter_bin == greeter_bin,
            r.greeter_user == greeter_user,
            r.vt == vt,
    {
        Context { state: Supervision::NoGreeter, greeter_bin, greeter_user, vt }
    }

    /// Whether a greeter handle exists.
    pub fn has_greeter(&self) -> (r: bool)
        ensures
            r == (self.state.greeter_opt() is Some),
    {
        match &self.state {
            Supervision::GreeterOnly { .. } => true,
            Supervision::GreeterWithPending { .. } => true,
            Supervision::GreeterAndSession { .. } => true,
            _ => false,
        }
    }

    /// Whether a session handle exists.
    pub fn has_session(&self) -> (r: bool)
        ensures
            r == (self.state.session_opt() is Some),
    {
        match &self.state {
            Supervision::SessionRunning { .. } => true,
            Supervision::GreeterAndSession { .. } => true,
            _ => false,
        }
    }

    /// Whether a pending session request exists.
    pub fn has_pending(&self) -> (r: bool)
        ensures
            r == (self.state.pending_opt() is Some),
    {
        match &self.state {
            Supervision::GreeterWithPending { .. } => true,
            Supervision::PendingOnly { .. } => true,
            _ => false,
        }
    }

    /// The greeter's process id, if a greeter handle exists.
    pub fn greeter_pid(&self) -> (r: Option<i32>)
        ensures
            r == self.state.greeter_pid_opt(),
    {
        match &self.state {
            Supervision::GreeterOnly { greeter } => Some(greeter.pid),
            Supervision::GreeterWithPending { greeter, .. } => Some(greeter.pid),
            Supervision::GreeterAndSession { greeter, .. } => Some(greeter.pid),
            _ => None,
        }
    }

    /// The session's process id, if a session handle exists.
    pub fn session_pid(&self) -> (r: Option<i32>)
        ensures
            r == self.state.session_pid_opt(),
    {
        match &self.state {
            Supervision::SessionRunning { session } => Some(session.pid),
            Supervision::GreeterAndSession { session, .. } => Some(session.pid),
            _ => None,
        }
    }

    /// Decide a start-greeter request. Rejected while a greeter handle
    /// exists; otherwise the returned launch request starts the configured
    /// greeter command as the configured greeter user on the default
    /// terminal, and `greeter_started` stores the handle once the launch
    /// succeeded. The state does not change here, so a failed launch leaves
    /// the orchestrator as it was.
    pub fn greet(&self) -> (r: Result<SessionSpec, GreetdError>)
        ensures
            self.state.greeter_opt() is Some ==> r == Err::<SessionSpec, GreetdError>(
                GreetdError::AlreadyActive,
            ),
            self.state.greeter_opt() is None ==> (r matches Ok(launch)
                && launch.service == ServiceKind::Greeter
                && launch.username == self.greeter_user
                && launch.password@ == Seq::<u8>::empty()
                && launch.cmd@ == seq![self.greeter_bin]
                && launch.env@ == Seq::<(String, String)>::empty()
                && launch.vt == self.vt),
    {
        if self.has_greeter() {
            return Err(GreetdError::AlreadyActive);
        }
        let mut cmd: Vec<String> = Vec::new();
        cmd.push(self.greeter_bin.clone());
        proof {
            assert(cmd@ =~= seq![self.greeter_bin]);
        }
        Ok(
            SessionSpec {
                service: ServiceKind::Greeter,
                username: self.greeter_user.clone(),
                password: Vec::new(),
                cmd,
                env: Vec::new(),
                vt: self.vt,
            },
        )
    }

    /// Store the handle of a greeter whose launch just succeeded.
    pub fn greeter_started(&mut self, pid: i32)
        requires
            old(self).state.greeter_opt() is None,
        ensures
            final(self).state.greeter_opt() == Some(
                ChildHandle { pid, service: ServiceKind::Greeter },
            ),
            final(self).state.session_opt() == old(self).state.session_opt(),
            final(self).state.pending_opt() == old(self).state.pending_opt(),
            same_config(*old(self), *final(self)),
    {
        let greeter = ChildHandle { pid, service: ServiceKind::Greeter };
        let mut st = Supervision::NoGreeter;
        core::mem::swap(&mut st, &mut self.state);
        match st {
            Supervision::NoGreeter => {
                self.state = Supervision::GreeterOnly { greeter };
            }
            Supervision::PendingOnly { pending } => {
                self.state = Supervision::GreeterWithPending { greeter, pending };
            }
            Supervision::SessionRunning { session } => {
                self.state = Supervision::GreeterAndSession { greeter, session };
            }
            _ => {
                // Unreachable: no greeter handle exists on this path.
                proof {
                    assert(false);
                }
            }
        }
    }

    /// Decide a login request at monotonic time `now` (milliseconds).
    /// Rejected with `GreeterNotActive` when no greeter handle exists and
    /// with `SessionAlreadyActive` when a session handle exists; otherwise
    /// the request becomes the pending session (replacing any previous one)
    /// and the escalation timer must be armed for the returned number of
    /// seconds. No process is launched yet: the launch waits until the
    /// greeter vacates the terminal. The caller's password buffer is
    /// overwritten with zeroes before the call returns, whether the request
    /// was accepted or not.
    pub fn login(
        &mut self,
        username: String,
        password: &mut Vec<u8>,
        cmd: Vec<String>,
        provided_env: Vec<(String, String)>,
        vt: VtSelection,
        now: u64,
    ) -> (r: Result<u64, GreetdError>)
        ensures
            final(password)@ == Seq::new(old(password)@.len(), |i: int| 0u8),
            old(self).state.greeter_opt() is None ==> r == Err::<u64, GreetdError>(
                GreetdError::GreeterNotActive,
            ) && *final(self) == *old(self),
            old(self).state.greeter_opt() is Some && old(self).state.session_opt() is Some ==> r
                == Err::<u64, GreetdError>(GreetdError::SessionAlreadyActive) && *final(self)
                == *old(self),
            old(self).state.greeter_opt() is Some && old(self).state.session_opt() is None ==> (
            final(self).state matches Supervision::GreeterWithPending { greeter, pending }
                && r == Ok::<u64, GreetdError>(ALARM_FIRST_SECS)
                && Some(greeter) == old(self).state.greeter_opt()
                && pending.username == username
                && pending.password@ == old(password)@
                && pending.cmd == cmd
                && pending.env == provided_env
                && pending.vt == resolve_vt(vt, old(self).vt)
                && pending.accepted_at == now
                && same_config(*old(self), *final(self))),
    {
        if !self.has_greeter() {
            scrub_bytes(password);
            return Err(GreetdError::GreeterNotActive);
        }
        if self.has_session() {
            scrub_bytes(password);
            return Err(GreetdError::SessionAlreadyActive);
        }
        let vt_num = match vt {
            VtSelection::Current => self.vt,
            VtSelection::Vt(v) => v,
        };
        let stored = copy_bytes(password);
        scrub_bytes(password);
        let pending = PendingSession {
            username,
            password: stored,
            cmd,
            env: provided_env,
            vt: vt_num,
            accepted_at: now,
        };
        let greeter = match &self.state {
            Supervision::GreeterOnly { greeter } => *greeter,
            Supervision::GreeterWithPending { greeter, .. } => *greeter,
            _ => {
                // Unreachable: a greeter handle exists and no session does.
                proof {
                    assert(false);
                }
                ChildHandle { pid: 0, service: ServiceKind::Greeter }
            }
        };
        self.state = Supervision::GreeterWithPending { greeter, pending };
        Ok(ALARM_FIRST_SECS)
    }

    /// Decide an alarm tick at monotonic time `now` (milliseconds). While
    /// the greeter still runs beside a pending session, the greeter is asked
    /// to terminate — gracefully within `KILL_TIMEOUT_MILLIS` of the
    /// request's acceptance, forcibly beyond it — and the timer is re-armed.
    /// If the pending session has outlived the greeter, it is launched now.
    /// Without a pending session the tick is a no-op.
    pub fn alarm(&self, now: u64) -> (r: AlarmOutcome)
        ensures
            self.state matches Supervision::GreeterWithPending { greeter, pending } ==> (r
                matches AlarmOutcome::Nudge { pid, force, rearm_secs }
                && pid == greeter.pid
                && (force <==> elapsed_millis(pending.accepted_at, now) > KILL_TIMEOUT_MILLIS)
                && rearm_secs == ALARM_RETRY_SECS),
            self.state matches Supervision::PendingOnly { pending } ==> (r
                matches AlarmOutcome::StartPending(launch)
                && launch_matches_pending(pending, launch)),
            self.state.pending_opt() is None ==> r is Idle,
    {
        match &self.state {
            Supervision::GreeterWithPending { greeter, pending } => {
                let elapsed: u64 = if now >= pending.accepted_at {
                    now - pending.accepted_at
                } else {
                    0
                };
                AlarmOutcome::Nudge {
                    pid: greeter.pid,
                    force: elapsed > KILL_TIMEOUT_MILLIS,
                    rearm_secs: ALARM_RETRY_SECS,
                }
            }
            Supervision::PendingOnly { pending } => AlarmOutcome::StartPending(launch_of(pending)),
            _ => AlarmOutcome::Idle,
        }
    }

    /// Store the handle of a pending session whose launch just succeeded:
    /// the pending request is consumed and becomes the session handle.
    pub fn session_started(&mut self, pid: i32)
        requires
            old(self).state is PendingOnly,
        ensures
            final(self).state == (Supervision::SessionRunning {
                session: ChildHandle { pid, service: ServiceKind::Login },
            }),
            same_config(*old(self), *final(self)),
    {
        self.state = Supervision::SessionRunning {
            session: ChildHandle { pid, service: ServiceKind::Login },
        };
    }

    /// Record that launching the pending session failed. The request is
    /// destroyed; the event loop must switch the terminal to text mode and
    /// surface the failure as fatal.
    pub fn session_start_failed(&mut self) -> (plan: Vec<Action>)
        requires
            old(self).state is PendingOnly,
        ensures
            final(self).state is NoGreeter,
            same_config(*old(self), *final(self)),
            plan@ == seq![Action::SetTextMode],
    {
        self.state = Supervision::NoGreeter;
        let mut plan: Vec<Action> = Vec::new();
        plan.push(Action::SetTextMode);
        proof {
            assert(plan@ =~= seq![Action::SetTextMode]);
        }
        plan
    }

    /// Decide a shutdown request. Rejected with `GreeterNotActive` unless a
    /// greeter handle exists and no session handle exists. Power-off and
    /// reboot ask the event loop to run the matching command in a forked
    /// child and change nothing here; exit behaves as terminate and never
    /// returns control to the requester.
    pub fn shutdown(&mut self, action: ShutdownAction) -> (r: Result<ShutdownPlan, GreetdError>)
        ensures
            old(self).state.greeter_opt() is None || old(self).state.session_opt() is Some ==> (r
                == Err::<ShutdownPlan, GreetdError>(GreetdError::GreeterNotActive) && *final(self)
                == *old(self)),
            old(self).state.greeter_opt() is Some && old(self).state.session_opt() is None
                && action == ShutdownAction::Poweroff ==> (r matches Ok(
                ShutdownPlan::RunCommand(c),
            )
                && c@.len() == 3
                && c@[0]@ == "/bin/sh"@
                && c@[1]@ == "-c"@
                && c@[2]@ == "poweroff"@
                && *final(self) == *old(self)),
            old(self).state.greeter_opt() is Some && old(self).state.session_opt() is None
                && action == ShutdownAction::Reboot ==> (r matches Ok(ShutdownPlan::RunCommand(c))
                && c@.len() == 3
                && c@[0]@ == "/bin/sh"@
                && c@[1]@ == "-c"@
                && c@[2]@ == "reboot"@
                && *final(self) == *old(self)),
            old(self).state.greeter_opt() is Some && old(self).state.session_opt() is None
                && action == ShutdownAction::Exit ==> (r matches Ok(ShutdownPlan::Terminate(plan))
                && plan@ == terminate_plan(old(self).state)
                && final(self).state is NoGreeter
                && same_config(*old(self), *final(self))),
    {
        if !self.has_greeter() || self.has_session() {
            return Err(GreetdError::GreeterNotActive);
        }
        match action {
            ShutdownAction::Exit => {
                let plan = self.terminate();
                Ok(ShutdownPlan::Terminate(plan))
            }
            ShutdownAction::Poweroff | ShutdownAction::Reboot => {
                let name: &str = match action {
                    ShutdownAction::Poweroff => "poweroff",
                    _ => "reboot",
                };
                let mut c: Vec<String> = Vec::new();
                c.push("/bin/sh".to_owned());
                c.push("-c".to_owned());
                c.push(name.to_owned());
                Ok(ShutdownPlan::RunCommand(c))
            }
        }
    }

    /// Account for one reaped process id (an exited or signal-killed child).
    /// A session's death asks for a fresh greeter; a greeter's death either
    /// hands the terminal to the pending session, or, with nothing left to
    /// supervise, asks for text mode and a non-zero exit; ids owned by
    /// neither handle are silently discarded.
    pub fn check_children(&mut self, pid: i32) -> (r: ReapDisposition)
        ensures
            old(self).state.session_pid_opt() == Some(pid) ==> (r is StartGreeter
                && final(self).state.session_opt() is None
                && final(self).state.greeter_opt() == old(self).state.greeter_opt()
                && final(self).state.pending_opt() == old(self).state.pending_opt()
                && same_config(*old(self), *final(self))),
            old(self).state.session_pid_opt() != Some(pid) && old(self).state.greeter_pid_opt()
                == Some(pid) && old(self).state.pending_opt() is Some ==> (final(self).state
                matches Supervision::PendingOnly { pending }
                && Some(pending) == old(self).state.pending_opt()
                && (r matches ReapDisposition::StartPending(launch) && launch_matches_pending(
                pending,
                launch,
            ))
                && same_config(*old(self), *final(self))),
            old(self).state.session_pid_opt() != Some(pid) && old(self).state.greeter_pid_opt()
                == Some(pid) && old(self).state.pending_opt() is None && old(
                self,
            ).state.session_opt() is None ==> (r matches ReapDisposition::FatalNoSupervisor(plan)
                && plan@ == seq![Action::SetTextMode, Action::Exit(EXIT_LOST_GREETER)]
                && final(self).state is NoGreeter
                && same_config(*old(self), *final(self))),
            old(self).state.session_pid_opt() != Some(pid) && old(self).state.greeter_pid_opt()
                == Some(pid) && old(self).state.pending_opt() is None && old(
                self,
            ).state.session_opt() is Some ==> (r is Ignored
                && final(self).state.session_opt() == old(self).state.session_opt()
                && final(self).state.greeter_opt() is None
                && final(self).state.pending_opt() is None
                && same_config(*old(self), *final(self))),
            old(self).state.session_pid_opt() != Some(pid) && old(self).state.greeter_pid_opt()
                != Some(pid) ==> (r is Ignored && *final(self) == *old(self)),
    {
        let session_owns = match self.session_pid() {
            Some(p) => p == pid,
            None => false,
        };
        if session_owns {
            let mut st = Supervision::NoGreeter;
            core::mem::swap(&mut st, &mut self.state);
            match st {
                Supervision::SessionRunning { .. } => {
                    self.state = Supervision::NoGreeter;
                }
                Supervision::GreeterAndSession { greeter, .. } => {
                    self.state = Supervision::GreeterOnly { greeter };
                }
                _ => {
                    // Unreachable: a session handle owns the reaped id here.
                    proof {
                        assert(false);
                    }
                }
            }
            return ReapDisposition::StartGreeter;
        }
        let greeter_owns = match self.greeter_pid() {
            Some(p) => p == pid,
            None => false,
        };
        if greeter_owns {
            let mut st = Supervision::NoGreeter;
            core::mem::swap(&mut st, &mut self.state);
            match st {
                Supervision::GreeterWithPending { pending, .. } => {
                    let launch = launch_of(&pending);
                    self.state = Supervision::PendingOnly { pending };
                    ReapDisposition::StartPending(launch)
                }
                Supervision::GreeterOnly { .. } => {
                    self.state = Supervision::NoGreeter;
                    let mut plan: Vec<Action> = Vec::new();
                    plan.push(Action::SetTextMode);
                    plan.push(Action::Exit(EXIT_LOST_GREETER));
                    proof {
                        assert(plan@ =~= seq![
                            Action::SetTextMode,
                            Action::Exit(EXIT_LOST_GREETER),
                        ]);
                    }
                    ReapDisposition::FatalNoSupervisor(plan)
                }
                Supervision::GreeterAndSession { session, .. } => {
                    self.state = Supervision::SessionRunning { session };
                    ReapDisposition::Ignored
                }
                _ => {
                    // Unreachable: a greeter handle owns the reaped id here.
                    proof {
                        assert(false);
                    }
                    ReapDisposition::Ignored
                }
            }
        } else {
            ReapDisposition::Ignored
        }
    }

    /// Terminate the daemon: ask the session and the greeter (in that order,
    /// whichever exist) to depart without waiting for them, fall back to
    /// text mode and exit cleanly. The returned plan's last action exits the
    /// process, so this operation never returns control to its caller.
    pub fn terminate(&mut self) -> (plan: Vec<Action>)
        ensures
            plan@ == terminate_plan(old(self).state),
            final(self).state is NoGreeter,
            same_config(*old(self), *final(self)),
    {
        let mut plan: Vec<Action> = Vec::new();
        match self.session_pid() {
            Some(pid) => plan.push(Action::Shoo(pid)),
            None => {},
        }
        match self.greeter_pid() {
            Some(pid) => plan.push(Action::Shoo(pid)),
            None => {},
        }
        plan.push(Action::SetTextMode);
        plan.push(Action::Exit(EXIT_CLEAN));
        self.state = Supervision::NoGreeter;
        proof {
            assert(plan@ =~= terminate_plan(old(self).state));
        }
        plan
    }
}

} // verus!
