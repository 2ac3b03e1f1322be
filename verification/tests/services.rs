use backend::services::auth::{
    connect_failure, login_reply_status, login_step, ConnectFailure, Credentials, LoginAction,
    LoginEvent, LoginReply, LoginStage,
};
use backend::services::APIError;
use backend::models::models::Credentials as Creds;
use backend::services::auth::password_hash;

fn run(events: &[LoginEvent]) -> (Vec<LoginAction>, LoginStage) {
    let mut stage = LoginStage::Connecting;
    let mut actions = Vec::new();
    for e in events {
        let (next, action) = login_step(stage, *e);
        stage = next;
        actions.push(action);
    }
    (actions, stage)
}

#[test]
fn login_success_stores_then_answers_ok() {
    let (actions, stage) = run(&[
        LoginEvent::ClientCreated,
        LoginEvent::Probed(200),
        LoginEvent::LoggedIn,
        LoginEvent::Stored,
    ]);
    assert_eq!(
        actions,
        vec![
            LoginAction::Probe,
            LoginAction::LogIn,
            LoginAction::Store,
            LoginAction::Reply(LoginReply::Status(200)),
        ]
    );
    assert_eq!(stage, LoginStage::Done);
}

#[test]
fn login_failures_follow_documented_codes() {
    assert_eq!(
        run(&[LoginEvent::ClientFailed(ConnectFailure::InvalidAddress)]).0,
        vec![LoginAction::Reply(LoginReply::BadRequest)]
    );
    assert_eq!(
        run(&[LoginEvent::ClientFailed(ConnectFailure::Unreachable)]).0,
        vec![LoginAction::Reply(LoginReply::NotFound)]
    );
    assert_eq!(
        run(&[LoginEvent::ClientFailed(ConnectFailure::Refused)]).0,
        vec![LoginAction::Reply(LoginReply::Unauthorized)]
    );
    assert_eq!(
        run(&[LoginEvent::ClientCreated, LoginEvent::ProbeFailed]).0,
        vec![LoginAction::Probe, LoginAction::Reply(LoginReply::NotFound)]
    );
    assert_eq!(
        run(&[LoginEvent::ClientCreated, LoginEvent::Probed(200), LoginEvent::LoginFailed]).0,
        vec![LoginAction::Probe, LoginAction::LogIn, LoginAction::Reply(LoginReply::Unauthorized)]
    );
}

#[test]
fn login_reply_codes() {
    assert_eq!(login_reply_status(LoginReply::Status(200)), (true, 200));
    assert_eq!(login_reply_status(LoginReply::Status(401)), (true, 401));
    assert_eq!(login_reply_status(LoginReply::BadRequest), (false, 400));
    assert_eq!(login_reply_status(LoginReply::NotFound), (false, 404));
    assert_eq!(login_reply_status(LoginReply::Unauthorized), (false, 401));
}

#[test]
fn connect_failures_are_classed() {
    assert_eq!(connect_failure(None), ConnectFailure::InvalidAddress);
    assert_eq!(connect_failure(Some(APIError::RequestFailed)), ConnectFailure::Unreachable);
    assert_eq!(connect_failure(Some(APIError::InvalidStatusCode(403))), ConnectFailure::Refused);
}

#[test]
fn login_other_probe_code_is_passed_on() {
    assert_eq!(
        run(&[LoginEvent::ClientCreated, LoginEvent::Probed(401)]).0,
        vec![LoginAction::Probe, LoginAction::Reply(LoginReply::Status(401))]
    );
}

#[test]
fn login_ignores_out_of_order_events() {
    assert_eq!(
        login_step(LoginStage::Connecting, LoginEvent::Stored),
        (LoginStage::Connecting, LoginAction::Ignore)
    );
    assert_eq!(
        login_step(LoginStage::Done, LoginEvent::Probed(200)),
        (LoginStage::Done, LoginAction::Ignore)
    );
}

#[test]
fn api_error_status_codes() {
    assert_eq!(APIError::RequestFailed.status_code(), 404);
    assert_eq!(APIError::InvalidStatusCode(403).status_code(), 403);
}

#[test]
fn auth_credentials_default() {
    let c = Credentials::default();
    assert!(c.login.is_empty() && c.password.is_empty());
}

#[test]
fn password_hash_is_password_bytes() {
    let c = Some(Creds { login: "admin".into(), password: "pässword".into() });
    assert_eq!(password_hash(&c), "pässword".as_bytes().to_vec());
    assert_eq!(password_hash(&None), Vec::<u8>::new());
}

