//! Supporting data for supervised processes and launch requests.
//!
//! A `ChildHandle` stands for a running supervised process; a
//! `PendingSession` is an accepted login request that has not been launched
//! yet; a `SessionSpec` is everything the (external) session launcher needs
//! to start a process.

use vstd::prelude::*;

verus! {

/// The role a supervised process or launch request plays.
#[derive(Clone, Copy, PartialEq, Eq, Structural, Debug)]
pub enum ServiceKind {
    /// The unauthenticated UI process shown before login.
    Greeter,
    /// An authenticated user's login session.
    Login,
}

/// Which virtual terminal a login request should use.
#[derive(Clone, Copy, PartialEq, Eq, Structural, Debug)]
pub enum VtSelection {
    /// Use the daemon's configured default terminal.
    Current,
    /// Use this terminal.
    Vt(usize),
}

/// A running OS process under supervision.
#[derive(Clone, Copy, PartialEq, Eq, Structural, Debug)]
pub struct ChildHandle {
    /// The owning process id.
    pub pid: i32,
    /// Human-readable role tag.
    pub service: ServiceKind,
}

impl ChildHandle {
    /// Confirm ownership of a given process id, used when reaping. Ownership
    /// is always confirmed, never assumed, before a reaped id is attributed
    /// to a handle.
    pub fn owns_pid(&self, pid: i32) -> (r: bool)
        ensures
            r == (self.pid == pid),
    {
        self.pid == pid
    }
}

/// A login request accepted but not yet launched, because a greeter must
/// vacate the terminal first.
pub struct PendingSession {
    /// Target user identity.
    pub username: String,
    /// One-shot password material. The caller's own buffer is scrubbed the
    /// moment a request is accepted; this copy leaves supervision when the
    /// request is consumed or the daemon exits.
    pub password: Vec<u8>,
    /// Command vector to run.
    pub cmd: Vec<String>,
    /// Environment entries to provide.
    pub env: Vec<(String, String)>,
    /// Target terminal number.
    pub vt: usize,
    /// Monotonic time, in milliseconds, at which the request was accepted;
    /// measures elapsed escalation time.
    pub accepted_at: u64,
}

/// Everything the external session launcher needs to start one process.
pub struct SessionSpec {
    pub service: ServiceKind,
    pub username: String,
    pub password: Vec<u8>,
    pub cmd: Vec<String>,
    pub env: Vec<(String, String)>,
    pub vt: usize,
}

/// The launch request `launch` asks to start exactly the session that the
/// pending request `p` described.
pub open spec fn launch_matches_pending(p: PendingSession, launch: SessionSpec) -> bool {
    &&& launch.service == ServiceKind::Login
    &&& launch.username == p.username
    &&& launch.password@ == p.password@
    &&& launch.cmd@ == p.cmd@
    &&& launch.env@ == p.env@
    &&& launch.vt == p.vt
}

/// Copy a byte vector.
pub fn copy_bytes(v: &Vec<u8>) -> (r: Vec<u8>)
    ensures
        r@ == v@,
{
    let mut r: Vec<u8> = Vec::new();
    let mut i: usize = 0;
    while i < v.len()
        invariant
            i <= v@.len(),
            r@ == v@.subrange(0, i as int),
        decreases v@.len() - i,
    {
        r.push(v[i]);
        i = i + 1;
        proof {
            assert(r@ =~= v@.subrange(0, i as int));
        }
    }
    proof {
        assert(r@ =~= v@);
    }
    r
}

/// Copy a vector of strings.
pub fn clone_strings(v: &Vec<String>) -> (r: Vec<String>)
    ensures
        r@ == v@,
{
    let mut r: Vec<String> = Vec::new();
    let mut i: usize = 0;
    while i < v.len()
        invariant
            i <= v@.len(),
            r@ == v@.subrange(0, i as int),
        decreases v@.len() - i,
    {
        r.push(v[i].clone());
        i = i + 1;
        proof {
            assert(r@ =~= v@.subrange(0, i as int));
        }
    }
    proof {
        assert(r@ =~= v@);
    }
    r
}

/// Copy a vector of environment entries.
pub fn clone_env(v: &Vec<(String, String)>) -> (r: Vec<(String, String)>)
    ensures
        r@ == v@,
{
    let mut r: Vec<(String, String)> = Vec::new();
    let mut i: usize = 0;
    while i < v.len()
        invariant
            i <= v@.len(),
            r@ == v@.subrange(0, i as int),
        decreases v@.len() - i,
    {
        let name = v[i].0.clone();
        let value = v[i].1.clone();
        proof {
            assert((name, value) == v@[i as int]);
        }
        r.push((name, value));
        i = i + 1;
        proof {
            assert(r@ =~= v@.subrange(0, i as int));
        }
    }
    proof {
        assert(r@ =~= v@);
    }
    r
}

/// Overwrite every byte of `v` with zero. Secrets are actively scrubbed, not
/// merely dropped, so the material does not linger in the buffer.
pub fn scrub_bytes(v: &mut Vec<u8>)
    ensures
        final(v)@ == Seq::new(old(v)@.len(), |i: int| 0u8),
{
    let mut i: usize = 0;
    while i < v.len()
        invariant
            i <= v@.len(),
            v@.len() == old(v)@.len(),
            forall|j: int| 0 <= j < i ==> v@[j] == 0u8,
        decreases v@.len() - i,
    {
        v[i] = 0u8;
        i = i + 1;
    }
    proof {
        assert(v@ =~= Seq::new(old(v)@.len(), |i: int| 0u8));
    }
}

/// Build the launch request that starts the session a pending request
/// described. The pending request itself stays in place until the launch's
/// outcome is reported.
pub fn launch_of(p: &PendingSession) -> (r: SessionSpec)
    ensures
        launch_matches_pending(*p, r),
{
    SessionSpec {
        service: ServiceKind::Login,
        username: p.username.clone(),
        password: copy_bytes(&p.password),
        cmd: clone_strings(&p.cmd),
        env: clone_env(&p.env),
        vt: p.vt,
    }
}

} // verus!
