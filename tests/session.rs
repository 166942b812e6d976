use nicopad::qrcode::{generate_url, poll_url, QRCodePollData};
use nicopad::session::{LoginSession, Phase, PollAction, SessionError};
use nicopad::fav::FavObj;
use nicopad::user::{myinfo_url, UserInfoData, VipData};

fn outcome(code: i32) -> QRCodePollData {
    QRCodePollData {
        url: "https://login.example/ok".to_string(),
        refresh_token: "tok".to_string(),
        timestamp: 1700000000000,
        code,
        message: String::new(),
    }
}

#[test]
fn new_session_is_idle() {
    let s = LoginSession::new();
    assert_eq!(s.phase, Phase::Idle);
    assert!(!s.stop_requested);
    assert!(s.identity.is_none());
}

#[test]
fn idle_session_ignores_outcomes() {
    let mut s = LoginSession::new();
    assert_eq!(s.on_poll(&outcome(0)), PollAction::Ignored);
    assert_eq!(s.phase, Phase::Idle);
    assert!(!s.stop_requested);
}

#[test]
fn unknown_status_fails_from_idle() {
    let mut s = LoginSession::new();
    assert_eq!(s.on_poll(&outcome(86038)), PollAction::Fatal(SessionError::UnexpectedStatus(86038)));
    assert_eq!(s.phase, Phase::Failed);
    assert!(s.stop_requested);
    assert_eq!(s.on_poll(&outcome(86101)), PollAction::Ignored);
    assert_eq!(s.phase, Phase::Failed);
}

#[test]
fn pending_outcomes_keep_waiting() {
    let mut s = LoginSession::new();
    assert!(!s.start());
    for _ in 0..10 {
        assert_eq!(s.on_poll(&outcome(86101)), PollAction::Wait);
        assert_eq!(s.phase, Phase::AwaitingScan);
        assert!(!s.stop_requested);
    }
}

#[test]
fn success_authenticates_and_stops_poller() {
    let mut s = LoginSession::new();
    s.start();
    assert_eq!(s.on_poll(&outcome(86101)), PollAction::Wait);
    assert_eq!(s.on_poll(&outcome(0)), PollAction::LoggedIn);
    assert_eq!(s.phase, Phase::Authenticated);
    assert!(s.stop_requested);
    assert_eq!(s.poll_url, "https://login.example/ok");
    assert_eq!(s.refresh_token, "tok");
    assert_eq!(s.timestamp, 1700000000000);
}

#[test]
fn scanned_then_success() {
    let mut s = LoginSession::new();
    s.start();
    assert_eq!(s.on_poll(&outcome(86090)), PollAction::NotifyScanned);
    assert_eq!(s.phase, Phase::Scanned);
    assert!(!s.stop_requested);
    assert_eq!(s.on_poll(&outcome(86101)), PollAction::Wait);
    assert_eq!(s.phase, Phase::Scanned);
    assert_eq!(s.on_poll(&outcome(0)), PollAction::LoggedIn);
    assert_eq!(s.phase, Phase::Authenticated);
}

#[test]
fn unknown_status_fails_and_nothing_more_is_taken() {
    let mut s = LoginSession::new();
    s.start();
    assert_eq!(s.on_poll(&outcome(86038)), PollAction::Fatal(SessionError::UnexpectedStatus(86038)));
    assert_eq!(s.phase, Phase::Failed);
    assert!(s.stop_requested);
    assert_eq!(s.on_poll(&outcome(0)), PollAction::Ignored);
    assert_eq!(s.on_poll(&outcome(86090)), PollAction::Ignored);
    assert_eq!(s.phase, Phase::Failed);
    assert_eq!(s.refresh_token, "");
}

#[test]
fn unknown_status_fails_from_scanned() {
    let mut s = LoginSession::new();
    s.start();
    s.on_poll(&outcome(86090));
    assert_eq!(s.on_poll(&outcome(-1)), PollAction::Fatal(SessionError::UnexpectedStatus(-1)));
    assert_eq!(s.phase, Phase::Failed);
}

#[test]
fn authenticated_session_ignores_later_outcomes() {
    let mut s = LoginSession::new();
    s.start();
    s.on_poll(&outcome(0));
    assert_eq!(s.on_poll(&outcome(12345)), PollAction::Ignored);
    assert_eq!(s.phase, Phase::Authenticated);
}

#[test]
fn transport_error_fails_attempt() {
    let mut s = LoginSession::new();
    s.start();
    assert_eq!(s.on_transport_error(), PollAction::Fatal(SessionError::Transport));
    assert_eq!(s.phase, Phase::Failed);
    assert!(s.stop_requested);
    assert_eq!(s.on_transport_error(), PollAction::Ignored);
}

#[test]
fn restart_retires_previous_poller() {
    let mut s = LoginSession::new();
    assert!(!s.start());
    assert!(s.start());
    s.on_poll(&outcome(86038));
    assert!(!s.start());
    assert_eq!(s.phase, Phase::AwaitingScan);
    assert!(!s.stop_requested);
}

#[test]
fn identity_and_favlist_kept_only_after_login() {
    let info = UserInfoData {
        mid: 42,
        name: "someone".to_string(),
        face: "https://i.example/f.jpg".to_string(),
        level: 6,
        vip: VipData { vip_type: 2, status: 1 },
    };
    let fav = FavObj { mlid: 7, fid: 1, attr: 0, title: "default".to_string(), fav_state: 0, media_count: 3 };
    let mut s = LoginSession::new();
    s.start();
    assert!(!s.set_identity(info.clone()));
    assert!(!s.set_favlist(vec![fav.clone()]));
    assert!(s.identity.is_none());
    s.on_poll(&outcome(0));
    assert!(s.set_identity(info.clone()));
    assert!(s.set_favlist(vec![fav.clone()]));
    assert_eq!(s.identity, Some(info));
    assert_eq!(s.favlist, vec![fav]);
}

#[test]
fn vip_flag_follows_status() {
    assert!(VipData { vip_type: 1, status: 1 }.is_vip());
    assert!(!VipData { vip_type: 1, status: 0 }.is_vip());
}

#[test]
fn login_addresses() {
    assert_eq!(generate_url(), "https://passport.bilibili.com/x/passport-login/web/qrcode/generate");
    assert_eq!(
        poll_url("abc123"),
        "https://passport.bilibili.com/x/passport-login/web/qrcode/poll?qrcode_key=abc123"
    );
    assert_eq!(myinfo_url(), "https://api.bilibili.com/x/space/myinfo");
}
