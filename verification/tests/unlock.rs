use door_gateway::auth::generate_token_at;
use door_gateway::clock::{Moment, TimeOfDay};
use door_gateway::controllers::door::{
    step, unlock, unlock_door, Outcome, UnlockAction, UnlockEvent, UnlockState, UserAuth,
};
use door_gateway::middlewares::auth::admit_at;
use door_gateway::models::user::{find_by_login, Timestamp, User};
use door_gateway::models::users_accesses::{has_access_at, UserAccess};
use door_gateway::services::mqtt::{publish_open_door, REQUEST_CAPACITY};
use door_gateway::utils::errors::ControllerError;
use door_gateway::utils::MappedErrors;

const SECRET: &str = "a-signing-secret";
const ISSUED: u64 = 1_700_000_000;

/// A store, a broker queue and a clock to run the turns against.
struct World {
    users: Vec<User>,
    windows: Vec<UserAccess>,
    moment: Moment,
    now: u64,
    client: rumqttc::AsyncClient,
    queue: flume::Receiver<rumqttc::Request>,
    lookups: usize,
    evaluations: usize,
}

fn world(moment: Moment, now: u64) -> World {
    let (tx, queue) = flume::bounded(REQUEST_CAPACITY);
    World {
        users: vec![User {
            id: 4,
            username: "ana".to_string(),
            password: "segredo-da-ana".to_string(),
            email: "ana@example.com".to_string(),
            created_at: Timestamp { secs: 0, nanos: 0 },
        }],
        windows: vec![UserAccess {
            user_id: 4,
            day_of_week: 2,
            start: TimeOfDay::from_hms(8, 0, 0).unwrap(),
            end: TimeOfDay::from_hms(17, 0, 0).unwrap(),
        }],
        moment,
        now,
        client: rumqttc::AsyncClient::from_senders(tx),
        queue,
        lookups: 0,
        evaluations: 0,
    }
}

fn monday_at(hour: u32) -> Moment {
    Moment { weekday: 2, time: TimeOfDay::from_hms(hour, 0, 0).unwrap() }
}

fn unlock_publishes_seen(w: &World) -> usize {
    let mut seen = 0;
    while let Ok(request) = w.queue.try_recv() {
        match request {
            rumqttc::Request::Publish(p) => {
                assert_eq!(p.topic, "gca/api-gateway/unlock");
                assert_eq!(&p.payload[..], b"true");
                assert_eq!(p.qos, rumqttc::QoS::AtLeastOnce);
                seen += 1;
            }
            other => panic!("not a publish: {:?}", other),
        }
    }
    seen
}

/// Takes the turns of one request to its answer, doing each turn's work.
fn serve(w: &mut World, authorization: Option<String>, body: Option<UserAuth>) -> Outcome {
    let claims = admit_at(&authorization, SECRET, w.now);
    let body = body.map(|b| UserAuth::from_request(Ok(b)));
    let mut state = UnlockState::Start;
    let mut event = UnlockEvent::Arrived { claims, body };
    loop {
        let (next, action) = step(state, event);
        state = next;
        event = match action.expect("every turn here is in turn") {
            UnlockAction::ResolveUser { email, password } => {
                w.lookups += 1;
                UnlockEvent::UserResolved(find_by_login(&w.users, &email, &password))
            }
            UnlockAction::EvaluateAccess { user_id } => {
                w.evaluations += 1;
                UnlockEvent::AccessEvaluated(Ok(has_access_at(&w.windows, user_id, &w.moment)))
            }
            UnlockAction::PublishOpenDoor => {
                UnlockEvent::Published(publish_open_door(&w.client).is_ok())
            }
            UnlockAction::Answer(outcome) => {
                assert_eq!(state, UnlockState::Done);
                return outcome;
            }
        };
    }
}

fn bearer(issued: u64) -> Option<String> {
    let token = generate_token_at(4, "ana@example.com".to_string(), SECRET, Some(issued)).unwrap();
    Some(format!("Bearer {}", token))
}

fn credentials(password: &str) -> Option<UserAuth> {
    Some(UserAuth { email: "ana@example.com".to_string(), password: password.to_string() })
}

#[test]
fn unlock_with_a_good_token_and_a_covering_window_publishes_once() {
    let mut w = world(monday_at(9), ISSUED + 60);
    let outcome = serve(&mut w, bearer(ISSUED), credentials("segredo-da-ana"));
    assert_eq!(outcome, Outcome::Unlocked);
    assert_eq!(unlock_publishes_seen(&w), 1);
    assert_eq!((w.lookups, w.evaluations), (1, 1));
    let response = unlock(outcome).unwrap();
    assert_eq!(response.message, "Porta destrancada");
    assert_eq!(unlock_door(Outcome::Unlocked).0, 200);
}

#[test]
fn unlock_by_token_alone_publishes_once() {
    let mut w = world(monday_at(9), ISSUED + 60);
    let outcome = serve(&mut w, bearer(ISSUED), None);
    assert_eq!(outcome, Outcome::Unlocked);
    assert_eq!(unlock_publishes_seen(&w), 1);
    assert_eq!((w.lookups, w.evaluations), (0, 1));
}

#[test]
fn unlock_with_an_expired_token_is_401_and_nothing_else_happens() {
    let mut w = world(monday_at(9), ISSUED + 86400);
    let outcome = serve(&mut w, bearer(ISSUED), credentials("segredo-da-ana"));
    assert_eq!(outcome, Outcome::TokenRefused);
    assert_eq!(unlock_publishes_seen(&w), 0);
    assert_eq!((w.lookups, w.evaluations), (0, 0));
    let err = unlock(outcome).unwrap_err();
    assert_eq!(err.status_code, 401);
    assert_eq!(unlock_door(Outcome::TokenRefused).0, 401);
}

#[test]
fn unlock_without_a_covering_window_is_401_and_nothing_is_published() {
    let mut w = world(monday_at(18), ISSUED + 60);
    let outcome = serve(&mut w, bearer(ISSUED), credentials("segredo-da-ana"));
    assert_eq!(outcome, Outcome::NoAccess);
    assert_eq!(unlock_publishes_seen(&w), 0);
    assert_eq!((w.lookups, w.evaluations), (1, 1));
    let err = unlock(outcome).unwrap_err();
    assert_eq!((err.message.as_str(), err.status_code), ("Usuário não tem acesso no momento", 401));

    let mut w = world(Moment { weekday: 3, time: TimeOfDay::from_hms(9, 0, 0).unwrap() }, ISSUED);
    assert_eq!(serve(&mut w, bearer(ISSUED), None), Outcome::NoAccess);
    assert_eq!(unlock_publishes_seen(&w), 0);
}

#[test]
fn unlock_with_wrong_credentials_is_401_and_access_is_never_evaluated() {
    let mut w = world(monday_at(9), ISSUED + 60);
    let outcome = serve(&mut w, bearer(ISSUED), credentials("segredo-errado"));
    assert_eq!(outcome, Outcome::InvalidUser);
    assert_eq!(unlock_publishes_seen(&w), 0);
    assert_eq!((w.lookups, w.evaluations), (1, 0));
    let err = unlock(outcome).unwrap_err();
    assert_eq!((err.message.as_str(), err.status_code), ("Usuário inválido", 401));
}

#[test]
fn unlock_with_a_body_that_breaks_the_rules_is_400() {
    let mut w = world(monday_at(9), ISSUED + 60);
    let outcome = serve(&mut w, bearer(ISSUED), credentials("curta"));
    let err = unlock(outcome).unwrap_err();
    assert_eq!((err.message.as_str(), err.status_code), ("Request body inválido", 400));
    assert_eq!(unlock_publishes_seen(&w), 0);
    assert_eq!((w.lookups, w.evaluations), (0, 0));

    let bad_email = UserAuth { email: "not-an-email".to_string(), password: "12345678".to_string() };
    assert!(!bad_email.validate());
    let err = UserAuth::from_request(Ok(bad_email)).unwrap_err();
    assert_eq!(err.status_code, 400);
    let err = UserAuth::from_request(Err("expected value at line 1".to_string())).unwrap_err();
    assert_eq!((err.message.as_str(), err.status_code), ("expected value at line 1", 400));
    let good = UserAuth { email: "ana@example.com".to_string(), password: "12345678".to_string() };
    assert_eq!(UserAuth::from_request(Ok(good.clone())), Ok(good.clone()));
    assert_eq!(UserAuth::accept(good.clone(), true), Ok(good.clone()));
    assert_eq!(UserAuth::accept(good.clone(), false).unwrap_err().status_code, 400);
    let short = UserAuth { password: "1234567".to_string(), ..good };
    assert_eq!(UserAuth::accept(short, true).unwrap_err().message, "Request body inválido");
}

#[test]
fn unlock_fails_with_500_when_the_broker_client_refuses() {
    let mut w = world(monday_at(9), ISSUED + 60);
    for _ in 0..REQUEST_CAPACITY {
        publish_open_door(&w.client).unwrap();
    }
    let outcome = serve(&mut w, bearer(ISSUED), credentials("segredo-da-ana"));
    assert_eq!(outcome, Outcome::BrokerFailure);
    assert_eq!(unlock_publishes_seen(&w), REQUEST_CAPACITY);
    let err = unlock(outcome).unwrap_err();
    assert_eq!(err.status_code, 500);
}

#[test]
fn store_failures_are_500_and_nothing_is_published() {
    let (state, action) = step(
        UnlockState::ResolvingUser,
        UnlockEvent::UserResolved(Err(MappedErrors::InternalServerError)),
    );
    assert_eq!((state, action), (UnlockState::Done, Some(UnlockAction::Answer(Outcome::StoreFailure))));
    let (state, action) = step(
        UnlockState::CheckingAccess { user_id: 4 },
        UnlockEvent::AccessEvaluated(Err(MappedErrors::InternalServerError)),
    );
    assert_eq!((state, action), (UnlockState::Done, Some(UnlockAction::Answer(Outcome::StoreFailure))));
    let (state, action) = step(
        UnlockState::CheckingAccess { user_id: 4 },
        UnlockEvent::AccessEvaluated(Err(MappedErrors::NotFound)),
    );
    assert_eq!((state, action), (UnlockState::Done, Some(UnlockAction::Answer(Outcome::NoAccess))));
    assert_eq!(unlock(Outcome::StoreFailure).unwrap_err().status_code, 500);
    assert_eq!(unlock(Outcome::StoreFailure).unwrap_err().message, "Erro interno");
}

#[test]
fn reports_out_of_turn_change_nothing() {
    let states = [
        UnlockState::Start,
        UnlockState::ResolvingUser,
        UnlockState::CheckingAccess { user_id: 4 },
        UnlockState::Publishing,
        UnlockState::Done,
    ];
    for state in states {
        if state != (UnlockState::CheckingAccess { user_id: 4 }) {
            assert_eq!(step(state, UnlockEvent::AccessEvaluated(Ok(true))), (state, None));
        }
        if state != UnlockState::Publishing {
            assert_eq!(step(state, UnlockEvent::Published(true)), (state, None));
        }
        if state != UnlockState::ResolvingUser {
            assert_eq!(step(state, UnlockEvent::UserResolved(Ok(4))), (state, None));
        }
        if state != UnlockState::Start {
            let arrived = UnlockEvent::Arrived { claims: None, body: None };
            assert_eq!(step(state, arrived), (state, None));
        }
    }
}

#[test]
fn outcomes_are_worded_plainly() {
    let complaint = ControllerError::validation_error("bad".to_string());
    let cases = [
        (Outcome::Unlocked, 200, "Valid user"),
        (Outcome::TokenRefused, 401, "Invalid token"),
        (Outcome::BadBody(complaint.clone()), 400, "Invalid request"),
        (Outcome::InvalidUser, 401, "Invalid User"),
        (Outcome::NoAccess, 401, "User has no access"),
        (Outcome::StoreFailure, 500, "Internal server error"),
        (Outcome::BrokerFailure, 500, "Internal server error"),
    ];
    for (outcome, status, message) in cases {
        let (s, body) = unlock_door(outcome);
        assert_eq!((s, body.message.as_str()), (status, message));
    }
    assert_eq!(unlock(Outcome::BadBody(complaint.clone())), Err(complaint));
    assert_eq!(unlock(Outcome::TokenRefused).unwrap_err().message, "Não autorizado");
}
