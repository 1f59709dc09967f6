//! The dispatcher: which session an editor event leaves behind, and what is
//! to be sent to the status service for it.
use vstd::prelude::*;
use std::time::Instant;
use crate::config::{ActivityPayload, Config, TimeTracking};
use crate::language::{detect_language, language_for};
use crate::state::{instant_now, FileState, WorkspaceState};
use crate::workspace::{filename_of_uri, get_filename_from_uri};

verus! {

broadcast use vstd::string::group_string_axioms;

/// The workspace name used where none could be resolved.
pub const UNKNOWN_WORKSPACE: &'static str = "unknown workspace";

/// The one session held at a time: per file, or per workspace together with
/// the file last seen in it.
pub enum Session {
    File(FileState),
    Workspace { state: WorkspaceState, filename: String },
}

impl Session {
    pub open spec fn filename_spec(&self) -> Seq<char> {
        match self {
            Session::File(f) => f.filename@,
            Session::Workspace { filename, .. } => filename@,
        }
    }

    pub open spec fn workspace_spec(&self) -> Seq<char> {
        match self {
            Session::File(f) => f.workspace@,
            Session::Workspace { state, .. } => state.workspace@,
        }
    }

    /// The instant at which the session started.
    pub open spec fn start(&self) -> Instant {
        match self {
            Session::File(f) => f.start_time,
            Session::Workspace { state, .. } => state.start_time,
        }
    }

    pub fn filename(&self) -> (r: &str)
        ensures
            r@ == self.filename_spec(),
    {
        match self {
            Session::File(f) => f.filename.as_str(),
            Session::Workspace { filename, .. } => filename.as_str(),
        }
    }

    pub fn workspace(&self) -> (r: &str)
        ensures
            r@ == self.workspace_spec(),
    {
        match self {
            Session::File(f) => f.workspace.as_str(),
            Session::Workspace { state, .. } => state.workspace.as_str(),
        }
    }

    /// The wall-clock second at which the session began.
    pub fn start_timestamp(&self) -> u64 {
        match self {
            Session::File(f) => f.get_start_timestamp(),
            Session::Workspace { state, .. } => state.get_start_timestamp(),
        }
    }
}

/// Whether an event in workspace `workspace` resumes session `old`: a
/// per-workspace session of that same workspace.
pub open spec fn resumes(old: Option<Session>, workspace: Seq<char>) -> bool {
    match old {
        Some(Session::Workspace { state, .. }) => state.workspace@ == workspace,
        _ => false,
    }
}

/// Whether `new` is the session that an event at instant `now`, for file
/// `filename` of workspace `workspace`, leaves after session `old`: per file,
/// a session that starts at `now`; per workspace, one that keeps the start of
/// a session of the same workspace and otherwise starts at `now`.
pub open spec fn follows(
    old: Option<Session>,
    new: Session,
    tracking: TimeTracking,
    filename: Seq<char>,
    workspace: Seq<char>,
    now: Instant,
) -> bool {
    &&& new.filename_spec() == filename
    &&& new.workspace_spec() == workspace
    &&& match tracking {
        TimeTracking::File => new is File && new.start() == now,
        TimeTracking::Workspace => new is Workspace && new.start() == if resumes(old, workspace) {
            old->0.start()
        } else {
            now
        },
    }
}

/// The workspace name of an event: the one resolved, else the placeholder.
pub open spec fn workspace_or_unknown(workspace: Option<String>) -> Seq<char> {
    match workspace {
        Some(w) => w@,
        None => UNKNOWN_WORKSPACE@,
    }
}

/// Whether `p` is the payload that `config` gives session `s`: composed for
/// its file and workspace in the file's language, with a start time.
pub open spec fn payload_of_session(config: &Config, s: Session, p: ActivityPayload) -> bool {
    &&& p.composed_from(config, s.filename_spec(), s.workspace_spec(), language_for(s.filename_spec()))
    &&& p.start is Some
}

/// What the daemon does after an editor event.
pub enum Dispatch {
    /// The event named no file: nothing changed, nothing is sent.
    Ignore,
    /// The status client is not ready: nothing is sent.
    Skip,
    /// Send this payload to the status client.
    Submit(ActivityPayload),
}

/// The dispatcher's state: the current session, if any.
pub struct PresenceState {
    pub session: Option<Session>,
}

/// The payload for session `s`.
fn payload_for(config: &Config, s: &Session) -> (r: ActivityPayload)
    ensures
        payload_of_session(config, *s, r),
{
    let language = detect_language(s.filename());
    config.build_activity(s.filename(), s.workspace(), &language, Some(s.start_timestamp()))
}

impl PresenceState {
    pub fn new() -> (r: Self)
        ensures
            r.session is None,
    {
        PresenceState { session: None }
    }

    /// Moves to the session that an event at instant `now`, for file
    /// `filename` of workspace `workspace`, leaves under `tracking`.
    pub fn track(&mut self, tracking: TimeTracking, filename: String, workspace: String, now: Instant)
        ensures
            final(self).session is Some,
            follows(old(self).session, final(self).session->0, tracking, filename@, workspace@, now),
    {
        let start = match (&self.session, tracking) {
            (Some(Session::Workspace { state, .. }), TimeTracking::Workspace) => {
                if state.workspace == workspace {
                    state.start_time
                } else {
                    now
                }
            },
            _ => now,
        };
        let next = match tracking {
            TimeTracking::File => Session::File(FileState { filename, workspace, start_time: now }),
            TimeTracking::Workspace => Session::Workspace {
                state: WorkspaceState { workspace, start_time: start },
                filename,
            },
        };
        self.session = Some(next);
    }

    /// Handles the opening or change of the document at `uri`, in workspace
    /// `workspace` where one was resolved, with the status client `ready` or
    /// not: moves to the next session and says what to send.
    pub fn on_file_event(
        &mut self,
        config: &Config,
        uri: &str,
        workspace: Option<String>,
        ready: bool,
    ) -> (r: Dispatch)
        ensures
            filename_of_uri(uri@) is None ==> r is Ignore && final(self).session == old(
                self,
            ).session,
            filename_of_uri(uri@) is Some ==> {
                &&& final(self).session is Some
                &&& exists|now: Instant|
                    #[trigger] follows(
                        old(self).session,
                        final(self).session->0,
                        config.time_tracking_spec(),
                        filename_of_uri(uri@)->0,
                        workspace_or_unknown(workspace),
                        now,
                    )
                &&& !ready ==> r is Skip
                &&& ready ==> (r matches Dispatch::Submit(p) && payload_of_session(
                    config,
                    final(self).session->0,
                    p,
                ))
            },
    {
        let filename = match get_filename_from_uri(uri) {
            Some(f) => f,
            None => return Dispatch::Ignore,
        };
        let ghost old_workspace = workspace;
        let workspace = match workspace {
            Some(w) => w,
            None => UNKNOWN_WORKSPACE.to_string(),
        };
        let ghost old_session = self.session;
        let ghost f = filename@;
        let ghost w = workspace@;
        let now = instant_now();
        self.track(config.get_time_tracking(), filename, workspace, now);
        assert(follows(old_session, self.session->0, config.time_tracking_spec(), f, w, now));
        assert(f == filename_of_uri(uri@)->0);
        assert(w == workspace_or_unknown(old_workspace));
        if !ready {
            return Dispatch::Skip;
        }
        match &self.session {
            Some(s) => Dispatch::Submit(payload_for(config, s)),
            None => Dispatch::Skip,
        }
    }

    /// The payload to send once the status client has become ready: that of
    /// the current session, if there is one.
    pub fn on_ready(&self, config: &Config) -> (r: Option<ActivityPayload>)
        ensures
            self.session is None ==> r is None,
            self.session is Some ==> r is Some && payload_of_session(
                config,
                self.session->0,
                r->0,
            ),
    {
        match &self.session {
            Some(s) => Some(payload_for(config, s)),
            None => None,
        }
    }
}

/// Under per-workspace tracking, of two consecutive events the second keeps
/// the start of the session when it is in the workspace of the first, and
/// starts the session anew, at its own instant, when it is in another.
pub proof fn lemma_workspace_tracking_keeps_start(
    s0: Option<Session>,
    s1: Session,
    s2: Session,
    f1: Seq<char>,
    w1: Seq<char>,
    t1: Instant,
    f2: Seq<char>,
    w2: Seq<char>,
    t2: Instant,
)
    requires
        follows(s0, s1, TimeTracking::Workspace, f1, w1, t1),
        follows(Some(s1), s2, TimeTracking::Workspace, f2, w2, t2),
    ensures
        w2 == w1 ==> s2.start() == s1.start(),
        w2 != w1 ==> s2.start() == t2,
{
}

/// Under per-file tracking every event starts the session anew, at its own
/// instant, whatever came before: the same file again included.
pub proof fn lemma_file_tracking_restarts(
    s0: Option<Session>,
    s1: Session,
    s2: Session,
    f1: Seq<char>,
    w1: Seq<char>,
    t1: Instant,
    f2: Seq<char>,
    w2: Seq<char>,
    t2: Instant,
)
    requires
        follows(s0, s1, TimeTracking::File, f1, w1, t1),
        follows(Some(s1), s2, TimeTracking::File, f2, w2, t2),
    ensures
        s1.start() == t1,
        s2.start() == t2,
{
}

} // verus!
