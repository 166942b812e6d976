//! The login session: consumes poll outcomes and drives the QR login to an end.
//!
//! A background poller publishes one outcome per round; the owner of the session
//! feeds each to [`LoginSession::on_poll`] and carries out the returned action.
//! The session never touches the network itself.
use vstd::prelude::*;
use crate::qrcode::QRCodePollData;
use crate::user::UserInfoData;
use crate::fav::FavObj;

verus! {

/// Status code of a confirmed login.
pub const STATUS_SUCCESS: i32 = 0;
/// Status code of a challenge that was scanned and awaits confirmation.
pub const STATUS_SCANNED: i32 = 86090;
/// Status code of a challenge that nobody has scanned yet.
pub const STATUS_PENDING: i32 = 86101;

/// Where a login attempt stands.
#[derive(Debug, Clone, Copy, PartialEq, Eq, Structural)]
pub enum Phase {
    Idle,
    AwaitingScan,
    Scanned,
    Authenticated,
    Failed,
}

/// Why a login attempt failed.
#[derive(Debug, Clone, Copy, PartialEq, Eq, Structural)]
pub enum SessionError {
    /// The server answered with a status code outside the known set.
    UnexpectedStatus(i32),
    /// A poll request did not complete.
    Transport,
}

/// What the owner of the session does after an event.
#[derive(Debug, Clone, Copy, PartialEq, Eq, Structural)]
pub enum PollAction {
    /// The outcome was not taken: no attempt is in flight.
    Ignored,
    /// Keep polling.
    Wait,
    /// Keep polling; show that the code was scanned.
    NotifyScanned,
    /// Stop the poller and its timer, then fetch the identity and collections.
    LoggedIn,
    /// Stop the poller and its timer, and report the error.
    Fatal(SessionError),
}

/// Whether the phase belongs to an attempt in flight.
pub open spec fn is_polling(p: Phase) -> bool {
    p == Phase::AwaitingScan || p == Phase::Scanned
}

/// Whether the phase ends an attempt: nothing is taken after it.
pub open spec fn is_terminal(p: Phase) -> bool {
    p == Phase::Authenticated || p == Phase::Failed
}

/// Whether `code` is one of the three status codes of the login protocol.
pub open spec fn is_known_status(code: i32) -> bool {
    code == STATUS_SUCCESS || code == STATUS_SCANNED || code == STATUS_PENDING
}

/// Phase after an outcome with status `code` arrives in phase `p`.
pub open spec fn next_phase(p: Phase, code: i32) -> Phase {
    if is_terminal(p) {
        p
    } else if !is_known_status(code) {
        Phase::Failed
    } else if !is_polling(p) {
        p
    } else if code == STATUS_SUCCESS {
        Phase::Authenticated
    } else if code == STATUS_SCANNED {
        Phase::Scanned
    } else if code == STATUS_PENDING {
        p
    } else {
        Phase::Failed
    }
}

/// Action for an outcome with status `code` arriving in phase `p`.
pub open spec fn poll_action(p: Phase, code: i32) -> PollAction {
    if is_terminal(p) {
        PollAction::Ignored
    } else if !is_known_status(code) {
        PollAction::Fatal(SessionError::UnexpectedStatus(code))
    } else if !is_polling(p) {
        PollAction::Ignored
    } else if code == STATUS_SUCCESS {
        PollAction::LoggedIn
    } else if code == STATUS_SCANNED {
        PollAction::NotifyScanned
    } else if code == STATUS_PENDING {
        PollAction::Wait
    } else {
        PollAction::Fatal(SessionError::UnexpectedStatus(code))
    }
}

/// Whether an outcome with status `code` in phase `p` ends the attempt, so
/// that the poller must stop.
pub open spec fn stops_poller(p: Phase, code: i32) -> bool {
    (!is_terminal(p) && !is_known_status(code)) || (is_polling(p) && code == STATUS_SUCCESS)
}

/// Phase after the outcomes with status `codes` arrive in order, from phase `p`.
pub open spec fn phase_after(p: Phase, codes: Seq<i32>) -> Phase
    decreases codes.len(),
{
    if codes.len() == 0 {
        p
    } else {
        phase_after(next_phase(p, codes[0]), codes.drop_first())
    }
}

/// State of the login flow, owned by the thread that drives the interface.
#[derive(Debug, Clone)]
pub struct LoginSession {
    pub phase: Phase,
    /// Raised when the poller must stop; the poller only reads it.
    pub stop_requested: bool,
    pub poll_url: String,
    pub refresh_token: String,
    pub timestamp: i64,
    pub identity: Option<UserInfoData>,
    pub favlist: Vec<FavObj>,
}

impl LoginSession {
    /// A session with no attempt started.
    pub fn new() -> (r: LoginSession)
        ensures
            r.phase == Phase::Idle,
            !r.stop_requested,
            r.poll_url@.len() == 0,
            r.refresh_token@.len() == 0,
            r.timestamp == 0,
            r.identity is None,
            r.favlist@.len() == 0,
    {
        LoginSession {
            phase: Phase::Idle,
            stop_requested: false,
            poll_url: String::new(),
            refresh_token: String::new(),
            timestamp: 0,
            identity: None,
            favlist: Vec::new(),
        }
    }

    /// Begins a new attempt. Returns whether an attempt was in flight, whose
    /// poller the caller must stop before starting a new one.
    pub fn start(&mut self) -> (retire_previous: bool)
        ensures
            retire_previous == is_polling(old(self).phase),
            final(self).phase == Phase::AwaitingScan,
            !final(self).stop_requested,
            final(self).poll_url@ == old(self).poll_url@,
            final(self).refresh_token@ == old(self).refresh_token@,
            final(self).timestamp == old(self).timestamp,
            final(self).identity == old(self).identity,
            final(self).favlist@ == old(self).favlist@,
    {
        let retire = self.phase == Phase::AwaitingScan || self.phase == Phase::Scanned;
        self.phase = Phase::AwaitingScan;
        self.stop_requested = false;
        retire
    }

    /// Consumes one poll outcome.
    ///
    /// After an attempt ended (`Authenticated` or `Failed`) the outcome is not
    /// taken and nothing changes. In any other phase, `Idle` included, a code
    /// outside the three known ones moves to `Failed`. A known code is not taken
    /// in `Idle`. While an attempt is in flight, a pending code keeps the phase,
    /// a scanned code moves to `Scanned`, and success moves to `Authenticated`
    /// and keeps the login address, refresh token and time. Both endings raise
    /// the stop flag.
    pub fn on_poll(&mut self, outcome: &QRCodePollData) -> (r: PollAction)
        ensures
            r == poll_action(old(self).phase, outcome.code),
            final(self).phase == next_phase(old(self).phase, outcome.code),
            final(self).stop_requested == (old(self).stop_requested || stops_poller(
                old(self).phase,
                outcome.code,
            )),
            is_polling(old(self).phase) && outcome.code == STATUS_SUCCESS ==> {
                &&& final(self).poll_url@ == outcome.url@
                &&& final(self).refresh_token@ == outcome.refresh_token@
                &&& final(self).timestamp == outcome.timestamp
            },
            !(is_polling(old(self).phase) && outcome.code == STATUS_SUCCESS) ==> {
                &&& final(self).poll_url@ == old(self).poll_url@
                &&& final(self).refresh_token@ == old(self).refresh_token@
                &&& final(self).timestamp == old(self).timestamp
            },
            final(self).identity == old(self).identity,
            final(self).favlist@ == old(self).favlist@,
    {
        if self.phase == Phase::Authenticated || self.phase == Phase::Failed {
            return PollAction::Ignored;
        }
        let code = outcome.code;
        if code != STATUS_SUCCESS && code != STATUS_SCANNED && code != STATUS_PENDING {
            self.stop_requested = true;
            self.phase = Phase::Failed;
            return PollAction::Fatal(SessionError::UnexpectedStatus(code));
        }
        if self.phase == Phase::Idle {
            return PollAction::Ignored;
        }
        if code == STATUS_SUCCESS {
            self.stop_requested = true;
            self.phase = Phase::Authenticated;
            self.poll_url = outcome.url.clone();
            self.refresh_token = outcome.refresh_token.clone();
            self.timestamp = outcome.timestamp;
            PollAction::LoggedIn
        } else if code == STATUS_SCANNED {
            self.phase = Phase::Scanned;
            PollAction::NotifyScanned
        } else {
            PollAction::Wait
        }
    }

    /// A poll request failed: an attempt in flight ends in `Failed`.
    pub fn on_transport_error(&mut self) -> (r: PollAction)
        ensures
            is_polling(old(self).phase) ==> {
                &&& r == PollAction::Fatal(SessionError::Transport)
                &&& final(self).phase == Phase::Failed
                &&& final(self).stop_requested
            },
            !is_polling(old(self).phase) ==> {
                &&& r == PollAction::Ignored
                &&& final(self).phase == old(self).phase
                &&& final(self).stop_requested == old(self).stop_requested
            },
            final(self).poll_url@ == old(self).poll_url@,
            final(self).refresh_token@ == old(self).refresh_token@,
            final(self).timestamp == old(self).timestamp,
            final(self).identity == old(self).identity,
            final(self).favlist@ == old(self).favlist@,
    {
        if self.phase == Phase::AwaitingScan || self.phase == Phase::Scanned {
            self.phase = Phase::Failed;
            self.stop_requested = true;
            PollAction::Fatal(SessionError::Transport)
        } else {
            PollAction::Ignored
        }
    }

    /// Keeps the identity fetched after the login, once authenticated.
    /// Returns whether it was kept.
    pub fn set_identity(&mut self, info: UserInfoData) -> (kept: bool)
        ensures
            kept == (old(self).phase == Phase::Authenticated),
            kept ==> final(self).identity == Some(info),
            !kept ==> final(self).identity == old(self).identity,
            final(self).phase == old(self).phase,
            final(self).stop_requested == old(self).stop_requested,
            final(self).poll_url@ == old(self).poll_url@,
            final(self).refresh_token@ == old(self).refresh_token@,
            final(self).timestamp == old(self).timestamp,
            final(self).favlist@ == old(self).favlist@,
    {
        if self.phase == Phase::Authenticated {
            self.identity = Some(info);
            true
        } else {
            false
        }
    }

    /// Keeps the user's collections fetched after the login, once authenticated.
    /// Returns whether they were kept.
    pub fn set_favlist(&mut self, list: Vec<FavObj>) -> (kept: bool)
        ensures
            kept == (old(self).phase == Phase::Authenticated),
            kept ==> final(self).favlist@ == list@,
            !kept ==> final(self).favlist@ == old(self).favlist@,
            final(self).phase == old(self).phase,
            final(self).stop_requested == old(self).stop_requested,
            final(self).poll_url@ == old(self).poll_url@,
            final(self).refresh_token@ == old(self).refresh_token@,
            final(self).timestamp == old(self).timestamp,
            final(self).identity == old(self).identity,
    {
        if self.phase == Phase::Authenticated {
            self.favlist = list;
            true
        } else {
            false
        }
    }
}

/// While nobody scans the code, any number of pending outcomes leaves an
/// attempt awaiting its scan.
pub proof fn lemma_pending_keeps_waiting(codes: Seq<i32>)
    requires
        forall|i: int| 0 <= i < codes.len() ==> codes[i] == STATUS_PENDING,
    ensures
        phase_after(Phase::AwaitingScan, codes) == Phase::AwaitingScan,
    decreases codes.len(),
{
    if codes.len() > 0 {
        let rest = codes.drop_first();
        assert forall|i: int| 0 <= i < rest.len() implies rest[i] == STATUS_PENDING by {
            assert(rest[i] == codes[i + 1]);
        }
        lemma_pending_keeps_waiting(rest);
    }
}

/// One success outcome while awaiting the scan authenticates the session,
/// raises the stop flag and asks for the login to be finished.
pub proof fn lemma_success_authenticates(p: Phase)
    requires
        is_polling(p),
    ensures
        next_phase(p, STATUS_SUCCESS) == Phase::Authenticated,
        poll_action(p, STATUS_SUCCESS) == PollAction::LoggedIn,
        stops_poller(p, STATUS_SUCCESS),
{
}

/// A status outside the known set fails the session in any phase that has not
/// ended (`Idle` included), raises the stop flag, and from then on no outcome
/// is taken: every later one is ignored and the phase stays `Failed`.
pub proof fn lemma_unknown_status_fails(p: Phase, code: i32, later: Seq<i32>)
    requires
        !is_terminal(p),
        code != STATUS_SUCCESS,
        code != STATUS_SCANNED,
        code != STATUS_PENDING,
    ensures
        next_phase(p, code) == Phase::Failed,
        stops_poller(p, code),
        poll_action(p, code) == PollAction::Fatal(SessionError::UnexpectedStatus(code)),
        phase_after(Phase::Failed, later) == Phase::Failed,
        forall|c: i32| poll_action(Phase::Failed, c) == PollAction::Ignored,
    decreases later.len(),
{
    if later.len() > 0 {
        lemma_unknown_status_fails(p, code, later.drop_first());
    }
}

} // verus!
