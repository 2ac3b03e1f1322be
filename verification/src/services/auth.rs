//! Login to a BOB cluster. The steps that reach the cluster run outside the
//! library; the decisions between them are the transition function here.
use vstd::prelude::*;
use vstd::string::StrSliceExecFns;

verus! {

/// Optional credentials for a BOB cluster
#[derive(Clone, Debug, PartialEq, Eq, PartialOrd, Ord, Hash)]
pub struct Credentials {
    pub login: String,
    pub password: String,
}

impl Default for Credentials {
    fn default() -> (r: Self)
        ensures
            r.login@ == Seq::<char>::empty(),
            r.password@ == Seq::<char>::empty(),
    {
        Credentials { login: String::new(), password: String::new() }
    }
}

/// The password bytes a logged-in client is known by: the UTF-8 bytes of
/// the password of its credentials, or nothing where it has none.
pub open spec fn password_hash_of(credentials: Option<crate::models::models::Credentials>) -> Seq<u8> {
    match credentials {
        Some(c) => vstd::utf8::encode_utf8(c.password@),
        None => Seq::empty(),
    }
}

/// The password bytes of the credentials a client logs in with; empty where
/// it has none.
pub fn password_hash(credentials: &Option<crate::models::models::Credentials>) -> (r: Vec<u8>)
    ensures
        r@ == password_hash_of(*credentials),
{
    match credentials {
        Some(c) => c.password.as_str().as_bytes_vec(),
        None => Vec::new(),
    }
}

/// Why the client for a cluster could not be made.
#[derive(Clone, Copy, Debug, PartialEq, Eq, Structural)]
pub enum ConnectFailure {
    /// The hostname is not an address the client accepts.
    InvalidAddress,
    /// The cluster could not be reached.
    Unreachable,
    /// The cluster refused the request.
    Refused,
}

/// Where a login stands.
#[derive(Clone, Copy, Debug, PartialEq, Eq, Structural)]
pub enum LoginStage {
    /// The client for the cluster is being built.
    Connecting,
    /// The cluster is being probed.
    Probing,
    /// The session logs the client in; the probe answered with this code.
    LoggingIn(u16),
    /// The client is being stored; the probe answered with this code.
    Storing(u16),
    /// The login has been answered.
    Done,
}

/// What the outside step of a login came to.
#[derive(Clone, Copy, Debug, PartialEq, Eq, Structural)]
pub enum LoginEvent {
    ClientCreated,
    ClientFailed(ConnectFailure),
    Probed(u16),
    ProbeFailed,
    LoggedIn,
    LoginFailed,
    Stored,
}

/// The answer to a login request.
#[derive(Clone, Copy, Debug, PartialEq, Eq, Structural)]
pub enum LoginReply {
    /// The code that the cluster answered the probe with.
    Status(u16),
    /// `400 Bad Request`: the hostname could not be used.
    BadRequest,
    /// `404 Not Found`: the cluster could not be reached.
    NotFound,
    /// `401 Unauthorized`: the client could not authorize on the cluster.
    Unauthorized,
}

/// What the caller does next.
#[derive(Clone, Copy, Debug, PartialEq, Eq, Structural)]
pub enum LoginAction {
    Probe,
    LogIn,
    Store,
    Reply(LoginReply),
    /// The event does not belong to this stage; nothing happens.
    Ignore,
}

/// The answer to a client that could not be made.
pub open spec fn connect_failure_reply(failure: ConnectFailure) -> LoginReply {
    match failure {
        ConnectFailure::InvalidAddress => LoginReply::BadRequest,
        ConnectFailure::Unreachable => LoginReply::NotFound,
        ConnectFailure::Refused => LoginReply::Unauthorized,
    }
}

pub open spec fn login_transition(stage: LoginStage, event: LoginEvent) -> (LoginStage, LoginAction) {
    match (stage, event) {
        (LoginStage::Connecting, LoginEvent::ClientCreated) => (
            LoginStage::Probing,
            LoginAction::Probe,
        ),
        (LoginStage::Connecting, LoginEvent::ClientFailed(failure)) => (
            LoginStage::Done,
            LoginAction::Reply(connect_failure_reply(failure)),
        ),
        (LoginStage::Probing, LoginEvent::Probed(code)) => if code == 200 {
            (LoginStage::LoggingIn(code), LoginAction::LogIn)
        } else {
            (LoginStage::Done, LoginAction::Reply(LoginReply::Status(code)))
        },
        (LoginStage::Probing, LoginEvent::ProbeFailed) => (
            LoginStage::Done,
            LoginAction::Reply(LoginReply::NotFound),
        ),
        (LoginStage::LoggingIn(code), LoginEvent::LoggedIn) => (
            LoginStage::Storing(code),
            LoginAction::Store,
        ),
        (LoginStage::LoggingIn(_), LoginEvent::LoginFailed) => (
            LoginStage::Done,
            LoginAction::Reply(LoginReply::Unauthorized),
        ),
        (LoginStage::Storing(code), LoginEvent::Stored) => (
            LoginStage::Done,
            LoginAction::Reply(LoginReply::Status(code)),
        ),
        _ => (stage, LoginAction::Ignore),
    }
}

/// One decision of a login. A client that cannot be made is answered
/// `400 Bad Request` where its hostname cannot be used, `404 Not Found` where
/// the cluster cannot be reached, `401 Unauthorized` where it refuses; a probe
/// that fails is answered `404 Not Found`; a probe that answers another code
/// than `200` is answered with that code; a `200` logs the session in (or is
/// answered `401 Unauthorized` where that fails), stores the client, then
/// answers `200`.
pub fn login_step(stage: LoginStage, event: LoginEvent) -> (r: (LoginStage, LoginAction))
    ensures
        r == login_transition(stage, event),
{
    match (stage, event) {
        (LoginStage::Connecting, LoginEvent::ClientCreated) => (
            LoginStage::Probing,
            LoginAction::Probe,
        ),
        (LoginStage::Connecting, LoginEvent::ClientFailed(failure)) => {
            let reply = match failure {
                ConnectFailure::InvalidAddress => LoginReply::BadRequest,
                ConnectFailure::Unreachable => LoginReply::NotFound,
                ConnectFailure::Refused => LoginReply::Unauthorized,
            };
            (LoginStage::Done, LoginAction::Reply(reply))
        },
        (LoginStage::Probing, LoginEvent::Probed(code)) => if code == 200 {
            (LoginStage::LoggingIn(code), LoginAction::LogIn)
        } else {
            (LoginStage::Done, LoginAction::Reply(LoginReply::Status(code)))
        },
        (LoginStage::Probing, LoginEvent::ProbeFailed) => (
            LoginStage::Done,
            LoginAction::Reply(LoginReply::NotFound),
        ),
        (LoginStage::LoggingIn(code), LoginEvent::LoggedIn) => (
            LoginStage::Storing(code),
            LoginAction::Store,
        ),
        (LoginStage::LoggingIn(_), LoginEvent::LoginFailed) => (
            LoginStage::Done,
            LoginAction::Reply(LoginReply::Unauthorized),
        ),
        (LoginStage::Storing(code), LoginEvent::Stored) => (
            LoginStage::Done,
            LoginAction::Reply(LoginReply::Status(code)),
        ),
        _ => (stage, LoginAction::Ignore),
    }
}

/// The status code of an answer, and whether it is a success.
pub open spec fn reply_status(reply: LoginReply) -> (bool, u16) {
    match reply {
        LoginReply::Status(code) => (true, code),
        LoginReply::BadRequest => (false, 400),
        LoginReply::NotFound => (false, 404),
        LoginReply::Unauthorized => (false, 401),
    }
}

/// The status code that a login answer is sent with, and whether it is sent
/// as a success.
pub fn login_reply_status(reply: LoginReply) -> (r: (bool, u16))
    ensures
        r == reply_status(reply),
{
    match reply {
        LoginReply::Status(code) => (true, code),
        LoginReply::BadRequest => (false, 400),
        LoginReply::NotFound => (false, 404),
        LoginReply::Unauthorized => (false, 401),
    }
}

/// How a failure to make the client is classed: no API error means the
/// client could not be built from the hostname; a failed request means the
/// cluster could not be reached; an unexpected status means it refused.
pub fn connect_failure(api_error: Option<crate::services::APIError>) -> (r: ConnectFailure)
    ensures
        api_error is None ==> r == ConnectFailure::InvalidAddress,
        api_error == Some(crate::services::APIError::RequestFailed) ==> r
            == ConnectFailure::Unreachable,
        api_error matches Some(crate::services::APIError::InvalidStatusCode(_)) ==> r
            == ConnectFailure::Refused,
{
    match api_error {
        None => ConnectFailure::InvalidAddress,
        Some(crate::services::APIError::RequestFailed) => ConnectFailure::Unreachable,
        Some(crate::services::APIError::InvalidStatusCode(_)) => ConnectFailure::Refused,
    }
}

/// The reply that a run of events from `stage` ends in, if it ends in one.
pub open spec fn login_reply_after(stage: LoginStage, events: Seq<LoginEvent>) -> Option<LoginReply>
    decreases events.len(),
{
    if events.len() == 0 {
        None
    } else {
        let (next, action) = login_transition(stage, events[0]);
        match action {
            LoginAction::Reply(reply) => Some(reply),
            _ => login_reply_after(next, events.drop_first()),
        }
    }
}

/// The events of a login whose client was made or failed, whose probe failed
/// or answered a code, and whose session did or did not log in.
pub open spec fn login_events(client: Result<(), ConnectFailure>, probe: Option<u16>, logged_in: bool) -> Seq<
    LoginEvent,
> {
    match client {
        Err(failure) => seq![LoginEvent::ClientFailed(failure)],
        Ok(_) => match probe {
            None => seq![LoginEvent::ClientCreated, LoginEvent::ProbeFailed],
            Some(code) => if code != 200 {
                seq![LoginEvent::ClientCreated, LoginEvent::Probed(code)]
            } else if !logged_in {
                seq![LoginEvent::ClientCreated, LoginEvent::Probed(code), LoginEvent::LoginFailed]
            } else {
                seq![
                    LoginEvent::ClientCreated,
                    LoginEvent::Probed(code),
                    LoginEvent::LoggedIn,
                    LoginEvent::Stored,
                ]
            },
        },
    }
}

/// The answer a login owes for the outcomes of its steps.
pub open spec fn login_outcome(client: Result<(), ConnectFailure>, probe: Option<u16>, logged_in: bool) -> LoginReply {
    match client {
        Err(failure) => connect_failure_reply(failure),
        Ok(_) => match probe {
            None => LoginReply::NotFound,
            Some(code) => if code == 200 && !logged_in {
                LoginReply::Unauthorized
            } else {
                LoginReply::Status(code)
            },
        },
    }
}

/// A login that starts from scratch and sees the events of its outside steps
/// ends in the answer that [`login_outcome`] gives for them.
pub proof fn lemma_login_answers(client: Result<(), ConnectFailure>, probe: Option<u16>, logged_in: bool)
    ensures
        login_reply_after(LoginStage::Connecting, login_events(client, probe, logged_in))
            == Some(login_outcome(client, probe, logged_in)),
{
    let events = login_events(client, probe, logged_in);
    reveal_with_fuel(login_reply_after, 5);
    if client is Ok {
        assert(events.drop_first() =~= events.subrange(1, events.len() as int));
        if let Some(code) = probe {
            if code == 200 {
                assert(events.drop_first().drop_first() =~= events.subrange(2, events.len() as int));
                if logged_in {
                    assert(events.drop_first().drop_first().drop_first() =~= seq![LoginEvent::Stored]);
                }
            }
        }
    }
}

/// A login answers `200` only once its client is stored: the only step that
/// replies with a `200` is the one that follows the store.
pub proof fn lemma_ok_only_after_store(stage: LoginStage, event: LoginEvent)
    ensures
        login_transition(stage, event).1 == LoginAction::Reply(LoginReply::Status(200)) ==> (
        stage == LoginStage::Storing(200) && event == LoginEvent::Stored),
{
}

/// A failed step is never answered as a success.
pub proof fn lemma_failures_not_success(stage: LoginStage, event: LoginEvent)
    ensures
        (event is ClientFailed || event == LoginEvent::ProbeFailed || event
            == LoginEvent::LoginFailed) ==> match login_transition(stage, event).1 {
            LoginAction::Reply(reply) => !reply_status(reply).0,
            LoginAction::Ignore => true,
            _ => false,
        },
{
}

} // verus!
