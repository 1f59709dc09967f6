//! Session clocks: when the current file or workspace began to be tracked.
use vstd::prelude::*;
use std::time::Instant;

verus! {

#[verifier::external_type_specification]
#[verifier::external_body]
pub struct ExInstant(Instant);

/// Relies on `Instant::now`: a reading of the monotonic clock.
#[verifier::external_body]
pub(crate) fn instant_now() -> Instant {
    Instant::now()
}

/// Relies on `Instant::elapsed`: whole seconds gone by since `start`.
#[verifier::external_body]
fn elapsed_secs(start: &Instant) -> u64 {
    start.elapsed().as_secs()
}

/// Relies on `SystemTime::elapsed` of the Unix epoch: the wall-clock time in
/// whole seconds, or nothing where the clock stands before the epoch.
#[verifier::external_body]
fn epoch_now_secs() -> Option<u64> {
    std::time::UNIX_EPOCH.elapsed().ok().map(|d| d.as_secs())
}

/// `a - b`, or 0 where `b` exceeds `a`.
pub open spec fn saturating_diff(a: u64, b: u64) -> u64 {
    if a >= b {
        (a - b) as u64
    } else {
        0
    }
}

/// The wall-clock second at which a session began, from the wall-clock time
/// now and the seconds gone by since the session's start; 0 where more
/// seconds have gone by than the epoch counts.
pub fn start_epoch(now_epoch: u64, elapsed: u64) -> (r: u64)
    ensures
        r == saturating_diff(now_epoch, elapsed),
{
    if now_epoch >= elapsed {
        now_epoch - elapsed
    } else {
        0
    }
}

/// The wall-clock second at which a session that started at `start` began.
fn epoch_of_start(start: &Instant) -> u64 {
    let elapsed = elapsed_secs(start);
    let now = match epoch_now_secs() {
        Some(now) => now,
        None => 0,
    };
    start_epoch(now, elapsed)
}

/// A session tracked per file.
pub struct FileState {
    pub filename: String,
    pub workspace: String,
    pub start_time: Instant,
}

impl FileState {
    /// A session of `filename` in `workspace`, starting now.
    pub fn new(filename: String, workspace: String) -> (r: Self)
        ensures
            r.filename == filename,
            r.workspace == workspace,
    {
        FileState { filename, workspace, start_time: instant_now() }
    }

    /// The wall-clock second at which this session began.
    pub fn get_start_timestamp(&self) -> u64 {
        epoch_of_start(&self.start_time)
    }
}

/// A session tracked per workspace.
pub struct WorkspaceState {
    pub workspace: String,
    pub start_time: Instant,
}

impl WorkspaceState {
    /// A session of `workspace`, starting now.
    pub fn new(workspace: String) -> (r: Self)
        ensures
            r.workspace == workspace,
    {
        WorkspaceState { workspace, start_time: instant_now() }
    }

    /// The wall-clock second at which this session began.
    pub fn get_start_timestamp(&self) -> u64 {
        epoch_of_start(&self.start_time)
    }
}

} // verus!
