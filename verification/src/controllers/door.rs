//! Unlocking the door.
//!
//! A request is answered in turns: the guard checks the token, the store
//! resolves the credentials where the body carries any, the access windows
//! are evaluated, and only then the unlock command is published. Each turn
//! is one [`step`]: it takes what the last turn's work came back with and
//! says what to do next. The caller does the work and comes back.

use vstd::prelude::*;
use crate::auth::Claims;
use crate::models::user::{check_password, email_is_well_formed, password_ok, well_formed_email};
use crate::utils::error_handlers::MappedErrors;
use crate::utils::errors::{ControllerError, ControllerErrorType};
use crate::utils::response_builder::{build_response, Response};
use crate::utils::status::{BAD_REQUEST, INTERNAL_SERVER_ERROR, OK, UNAUTHORIZED};

verus! {

/// The credentials in the body of an unlock request.
#[derive(Debug, Clone, PartialEq, Eq)]
pub struct UserAuth {
    pub email: String,
    pub password: String,
}

impl UserAuth {
    pub open spec fn wf(self) -> bool {
        well_formed_email(self.email@) && password_ok(self.password@)
    }

    /// Whether the e-mail address is one and the password has at least 8
    /// characters.
    pub fn validate(&self) -> (r: bool)
        ensures
            r == self.wf(),
    {
        email_is_well_formed(&self.email) && check_password(&self.password)
    }

    /// Lets credentials through whose e-mail address was found to be one
    /// (`email_ok`) and whose password has at least 8 characters; others are
    /// answered with the stock error for an invalid body.
    pub fn accept(user: UserAuth, email_ok: bool) -> (r: Result<UserAuth, ControllerError>)
        ensures
            if email_ok && password_ok(user.password@) {
                r == Ok::<UserAuth, ControllerError>(user)
            } else {
                r matches Err(e) && e.says(ControllerErrorType::BodyParsingError.text(), BAD_REQUEST)
            },
    {
        if email_ok && check_password(&user.password) {
            Ok(user)
        } else {
            Err(ControllerError::from_type(ControllerErrorType::BodyParsingError))
        }
    }

    /// Takes the credentials out of a request body: `parsed` is the body as
    /// read, or the reader's complaint. A body that could not be read is
    /// answered with the complaint under status 400, one whose fields break
    /// the rules with the stock error for an invalid body.
    pub fn from_request(parsed: Result<UserAuth, String>) -> (r: Result<UserAuth, ControllerError>)
        ensures
            match parsed {
                Err(complaint) => r matches Err(e) && e.says(complaint@, BAD_REQUEST),
                Ok(user) => if user.wf() {
                    r == Ok::<UserAuth, ControllerError>(user)
                } else {
                    r matches Err(e) && e.says(
                        ControllerErrorType::BodyParsingError.text(),
                        BAD_REQUEST,
                    )
                },
            },
    {
        match parsed {
            Err(complaint) => Err(ControllerError::validation_error(complaint)),
            Ok(user) => {
                let email_ok = email_is_well_formed(&user.email);
                Self::accept(user, email_ok)
            },
        }
    }
}

/// How far an unlock request has come.
#[derive(Debug, Clone, Copy, PartialEq, Eq, Structural)]
pub enum UnlockState {
    /// The request has not been looked at.
    Start,
    /// The store is resolving the credentials.
    ResolvingUser,
    /// The user's access is being evaluated.
    CheckingAccess { user_id: i32 },
    /// The unlock command is with the broker client.
    Publishing,
    /// The request has been answered.
    Done,
}

/// What the last turn's work came back with.
#[derive(Debug, PartialEq, Eq)]
pub enum UnlockEvent {
    /// The request arrived: the claims the guard let it in under (`None`
    /// where it turned the request away), and the credentials taken out of
    /// its body (`None` where the body carries none).
    Arrived { claims: Option<Claims>, body: Option<Result<UserAuth, ControllerError>> },
    /// The store resolved the credentials, or failed to.
    UserResolved(Result<i32, MappedErrors>),
    /// The user's access was evaluated, or the store failed.
    AccessEvaluated(Result<bool, MappedErrors>),
    /// The broker client took the unlock command (`true`) or refused it.
    Published(bool),
}

/// What to do next.
#[derive(Debug, Clone, PartialEq, Eq)]
pub enum UnlockAction {
    /// Look the user up by these credentials.
    ResolveUser { email: String, password: String },
    /// Evaluate this user's access at the current moment.
    EvaluateAccess { user_id: i32 },
    /// Publish the unlock command.
    PublishOpenDoor,
    /// Answer the request.
    Answer(Outcome),
}

/// How an unlock request ended.
#[derive(Debug, Clone, PartialEq, Eq)]
pub enum Outcome {
    /// The command was published.
    Unlocked,
    /// The guard turned the request away.
    TokenRefused,
    /// The body was unreadable or broke the rules.
    BadBody(ControllerError),
    /// The credentials are nobody's.
    InvalidUser,
    /// No access window covers the current moment.
    NoAccess,
    /// The store failed.
    StoreFailure,
    /// Access was granted, but the broker client refused the command.
    BrokerFailure,
}

/// The turn taken in `state` on `event`: the next state, and what to do. An
/// event that the state does not wait for changes nothing and asks for
/// nothing.
pub open spec fn step_spec(state: UnlockState, event: UnlockEvent) -> (UnlockState, Option<UnlockAction>) {
    match (state, event) {
        (UnlockState::Start, UnlockEvent::Arrived { claims: None, body }) => (
            UnlockState::Done,
            Some(UnlockAction::Answer(Outcome::TokenRefused)),
        ),
        (UnlockState::Start, UnlockEvent::Arrived { claims: Some(c), body: None }) => (
            UnlockState::CheckingAccess { user_id: c.user_id },
            Some(UnlockAction::EvaluateAccess { user_id: c.user_id }),
        ),
        (UnlockState::Start, UnlockEvent::Arrived { claims: Some(c), body: Some(Err(e)) }) => (
            UnlockState::Done,
            Some(UnlockAction::Answer(Outcome::BadBody(e))),
        ),
        (UnlockState::Start, UnlockEvent::Arrived { claims: Some(c), body: Some(Ok(user)) }) => (
            UnlockState::ResolvingUser,
            Some(UnlockAction::ResolveUser { email: user.email, password: user.password }),
        ),
        (UnlockState::ResolvingUser, UnlockEvent::UserResolved(Ok(user_id))) => (
            UnlockState::CheckingAccess { user_id },
            Some(UnlockAction::EvaluateAccess { user_id }),
        ),
        (UnlockState::ResolvingUser, UnlockEvent::UserResolved(Err(MappedErrors::NotFound))) => (
            UnlockState::Done,
            Some(UnlockAction::Answer(Outcome::InvalidUser)),
        ),
        (
            UnlockState::ResolvingUser,
            UnlockEvent::UserResolved(Err(MappedErrors::InternalServerError)),
        ) => (UnlockState::Done, Some(UnlockAction::Answer(Outcome::StoreFailure))),
        (UnlockState::CheckingAccess { user_id }, UnlockEvent::AccessEvaluated(Ok(true))) => (
            UnlockState::Publishing,
            Some(UnlockAction::PublishOpenDoor),
        ),
        (UnlockState::CheckingAccess { user_id }, UnlockEvent::AccessEvaluated(Ok(false))) => (
            UnlockState::Done,
            Some(UnlockAction::Answer(Outcome::NoAccess)),
        ),
        (
            UnlockState::CheckingAccess { user_id },
            UnlockEvent::AccessEvaluated(Err(MappedErrors::NotFound)),
        ) => (UnlockState::Done, Some(UnlockAction::Answer(Outcome::NoAccess))),
        (
            UnlockState::CheckingAccess { user_id },
            UnlockEvent::AccessEvaluated(Err(MappedErrors::InternalServerError)),
        ) => (UnlockState::Done, Some(UnlockAction::Answer(Outcome::StoreFailure))),
        (UnlockState::Publishing, UnlockEvent::Published(true)) => (
            UnlockState::Done,
            Some(UnlockAction::Answer(Outcome::Unlocked)),
        ),
        (UnlockState::Publishing, UnlockEvent::Published(false)) => (
            UnlockState::Done,
            Some(UnlockAction::Answer(Outcome::BrokerFailure)),
        ),
        (s, _) => (s, None),
    }
}

/// Takes one turn: see [`step_spec`].
pub fn step(state: UnlockState, event: UnlockEvent) -> (r: (UnlockState, Option<UnlockAction>))
    ensures
        r == step_spec(state, event),
{
    match (state, event) {
        (UnlockState::Start, UnlockEvent::Arrived { claims, body }) => match claims {
            None => (UnlockState::Done, Some(UnlockAction::Answer(Outcome::TokenRefused))),
            Some(c) => match body {
                None => (
                    UnlockState::CheckingAccess { user_id: c.user_id },
                    Some(UnlockAction::EvaluateAccess { user_id: c.user_id }),
                ),
                Some(Err(e)) => (UnlockState::Done, Some(UnlockAction::Answer(Outcome::BadBody(e)))),
                Some(Ok(user)) => (
                    UnlockState::ResolvingUser,
                    Some(UnlockAction::ResolveUser { email: user.email, password: user.password }),
                ),
            },
        },
        (UnlockState::ResolvingUser, UnlockEvent::UserResolved(found)) => match found {
            Ok(user_id) => (
                UnlockState::CheckingAccess { user_id },
                Some(UnlockAction::EvaluateAccess { user_id }),
            ),
            Err(MappedErrors::NotFound) => (
                UnlockState::Done,
                Some(UnlockAction::Answer(Outcome::InvalidUser)),
            ),
            Err(MappedErrors::InternalServerError) => (
                UnlockState::Done,
                Some(UnlockAction::Answer(Outcome::StoreFailure)),
            ),
        },
        (UnlockState::CheckingAccess { user_id }, UnlockEvent::AccessEvaluated(access)) => match access {
            Ok(true) => (UnlockState::Publishing, Some(UnlockAction::PublishOpenDoor)),
            Ok(false) => (UnlockState::Done, Some(UnlockAction::Answer(Outcome::NoAccess))),
            Err(MappedErrors::NotFound) => (
                UnlockState::Done,
                Some(UnlockAction::Answer(Outcome::NoAccess)),
            ),
            Err(MappedErrors::InternalServerError) => (
                UnlockState::Done,
                Some(UnlockAction::Answer(Outcome::StoreFailure)),
            ),
        },
        (UnlockState::Publishing, UnlockEvent::Published(taken)) => {
            if taken {
                (UnlockState::Done, Some(UnlockAction::Answer(Outcome::Unlocked)))
            } else {
                (UnlockState::Done, Some(UnlockAction::Answer(Outcome::BrokerFailure)))
            }
        },
        (s, _) => (s, None),
    }
}

/// What happens when `events` come in turn, starting in `state`: the state
/// reached, and the actions asked for on the way.
pub open spec fn run(state: UnlockState, events: Seq<UnlockEvent>) -> (UnlockState, Seq<UnlockAction>)
    decreases events.len(),
{
    if events.len() == 0 {
        (state, Seq::empty())
    } else {
        let turn = step_spec(state, events[0]);
        let rest = run(turn.0, events.drop_first());
        (
            rest.0,
            match turn.1 {
                Some(action) => seq![action] + rest.1,
                None => rest.1,
            },
        )
    }
}

/// How often `actions` ask for the unlock command to be published.
pub open spec fn publishes(actions: Seq<UnlockAction>) -> nat
    decreases actions.len(),
{
    if actions.len() == 0 {
        0
    } else {
        let here: nat = if actions[0] is PublishOpenDoor {
            1
        } else {
            0
        };
        here + publishes(actions.drop_first())
    }
}

/// Whether `event` reports that access is granted.
pub open spec fn is_grant(event: UnlockEvent) -> bool {
    event == UnlockEvent::AccessEvaluated(Ok(true))
}

/// Whether `event` is the arrival of a request that the guard let in.
pub open spec fn is_admission(event: UnlockEvent) -> bool {
    event matches UnlockEvent::Arrived { claims: Some(_), .. }
}

proof fn lemma_publishes_cons(action: UnlockAction, rest: Seq<UnlockAction>)
    ensures
        publishes(seq![action] + rest) == publishes(rest) + (if action is PublishOpenDoor {
            1nat
        } else {
            0nat
        }),
{
    assert((seq![action] + rest).drop_first() =~= rest);
}

proof fn lemma_run_unfold(state: UnlockState, events: Seq<UnlockEvent>)
    requires
        events.len() > 0,
    ensures
        publishes(run(state, events).1) == publishes(
            run(step_spec(state, events[0]).0, events.drop_first()).1,
        ) + (if step_spec(state, events[0]).1 == Some(UnlockAction::PublishOpenDoor) {
            1nat
        } else {
            0nat
        }),
        forall|a: UnlockAction|
            run(state, events).1.contains(a) <==> step_spec(state, events[0]).1 == Some(a) || run(
                step_spec(state, events[0]).0,
                events.drop_first(),
            ).1.contains(a),
{
    let turn = step_spec(state, events[0]);
    let rest = run(turn.0, events.drop_first());
    match turn.1 {
        Some(action) => {
            lemma_publishes_cons(action, rest.1);
            let all = seq![action] + rest.1;
            assert forall|a: UnlockAction| all.contains(a) <==> action == a || rest.1.contains(
                a,
            ) by {
                if all.contains(a) {
                    let i = choose|i: int| 0 <= i < all.len() && all[i] == a;
                    if i > 0 {
                        assert(rest.1[i - 1] == a);
                    }
                }
                if action == a {
                    assert(all[0] == a);
                }
                if rest.1.contains(a) {
                    let i = choose|i: int| 0 <= i < rest.1.len() && rest.1[i] == a;
                    assert(all[i + 1] == a);
                }
            }
        },
        None => {},
    }
}

/// Once a request has been answered nothing more is asked for, whatever
/// comes in.
pub proof fn lemma_done_is_final(events: Seq<UnlockEvent>)
    ensures
        run(UnlockState::Done, events) == (UnlockState::Done, Seq::<UnlockAction>::empty()),
    decreases events.len(),
{
    if events.len() > 0 {
        lemma_done_is_final(events.drop_first());
    }
}

/// The unlock command is published at most once per request, and not at all
/// once it is with the broker client or the request has been answered.
pub proof fn lemma_publishes_at_most_once(state: UnlockState, events: Seq<UnlockEvent>)
    ensures
        publishes(run(state, events).1) <= 1,
        state is Publishing || state is Done ==> publishes(run(state, events).1) == 0,
    decreases events.len(),
{
    if events.len() > 0 {
        lemma_run_unfold(state, events);
        lemma_publishes_at_most_once(step_spec(state, events[0]).0, events.drop_first());
    }
}

/// Without a report that access is granted, the unlock command is never
/// published: not for a denied user, not for a failing store, and not for
/// reports that come out of turn.
pub proof fn lemma_no_grant_no_publish(state: UnlockState, events: Seq<UnlockEvent>)
    requires
        forall|i: int| 0 <= i < events.len() ==> !is_grant(#[trigger] events[i]),
    ensures
        publishes(run(state, events).1) == 0,
    decreases events.len(),
{
    if events.len() > 0 {
        lemma_run_unfold(state, events);
        assert(!is_grant(events[0]));
        assert forall|i: int| 0 <= i < events.drop_first().len() implies !is_grant(
            #[trigger] events.drop_first()[i],
        ) by {
            assert(events.drop_first()[i] == events[i + 1]);
        }
        lemma_no_grant_no_publish(step_spec(state, events[0]).0, events.drop_first());
    }
}

/// A request that the guard turns away is answered at once, and nothing else
/// is ever asked for on its behalf: no user is looked up, no access is
/// evaluated, nothing is published.
pub proof fn lemma_refused_token_ends_it(
    body: Option<Result<UserAuth, ControllerError>>,
    later: Seq<UnlockEvent>,
)
    ensures
        run(
            UnlockState::Start,
            seq![UnlockEvent::Arrived { claims: None, body }] + later,
        ) == (UnlockState::Done, seq![UnlockAction::Answer(Outcome::TokenRefused)]),
{
    let events = seq![UnlockEvent::Arrived { claims: None, body }] + later;
    assert(events.drop_first() =~= later);
    lemma_done_is_final(later);
    assert(seq![UnlockAction::Answer(Outcome::TokenRefused)] + Seq::<UnlockAction>::empty()
        =~= seq![UnlockAction::Answer(Outcome::TokenRefused)]);
}

/// Where a request, taken from `state` on, is answered as unlocked, the
/// command was published for it exactly once: it is still to come, after a
/// report that access is granted, unless it is already with the broker
/// client.
proof fn lemma_unlocked_from(state: UnlockState, events: Seq<UnlockEvent>)
    requires
        run(state, events).1.contains(UnlockAction::Answer(Outcome::Unlocked)),
    ensures
        state !is Done,
        state is Publishing ==> publishes(run(state, events).1) == 0,
        state !is Publishing ==> publishes(run(state, events).1) == 1 && exists|i: int|
            0 <= i < events.len() && is_grant(#[trigger] events[i]),
        state is Start ==> exists|i: int| 0 <= i < events.len() && is_admission(#[trigger] events[i]),
    decreases events.len(),
{
    let unlocked = UnlockAction::Answer(Outcome::Unlocked);
    if events.len() == 0 {
        assert(!Seq::<UnlockAction>::empty().contains(unlocked));
    } else {
        let turn = step_spec(state, events[0]);
        let tail = events.drop_first();
        lemma_run_unfold(state, events);
        lemma_done_is_final(tail);
        lemma_publishes_at_most_once(turn.0, tail);
        if state is Done {
            lemma_done_is_final(events);
            assert(!Seq::<UnlockAction>::empty().contains(unlocked));
        }
        if turn.1 != Some(unlocked) {
            assert(run(turn.0, tail).1.contains(unlocked));
            lemma_unlocked_from(turn.0, tail);
            if state !is Publishing {
                if is_grant(events[0]) {
                } else {
                    let i = choose|i: int| 0 <= i < tail.len() && is_grant(#[trigger] tail[i]);
                    assert(events[i + 1] == tail[i]);
                }
            }
            if state is Start {
                if is_admission(events[0]) {
                } else {
                    let i = choose|i: int| 0 <= i < tail.len() && is_admission(#[trigger] tail[i]);
                    assert(events[i + 1] == tail[i]);
                }
            }
        } else {
            assert(state is Publishing);
            assert(!Seq::<UnlockAction>::empty().contains(unlocked));
        }
    }
}

/// A request is answered as unlocked only if the guard let it in, access was
/// reported as granted, and the unlock command was published exactly once.
pub proof fn lemma_unlocked_means_granted(events: Seq<UnlockEvent>)
    requires
        run(UnlockState::Start, events).1.contains(UnlockAction::Answer(Outcome::Unlocked)),
    ensures
        publishes(run(UnlockState::Start, events).1) == 1,
        exists|i: int| 0 <= i < events.len() && is_grant(#[trigger] events[i]),
        exists|i: int| 0 <= i < events.len() && is_admission(#[trigger] events[i]),
{
    lemma_unlocked_from(UnlockState::Start, events);
}

/// The answer to an unlock request.
pub open spec fn unlock_answer(outcome: Outcome, r: Result<Response, ControllerError>) -> bool {
    match outcome {
        Outcome::Unlocked => r matches Ok(resp) && resp.message@ == "Porta destrancada"@,
        Outcome::TokenRefused => r matches Err(e) && e.says(
            ControllerErrorType::Unauthorized.text(),
            UNAUTHORIZED,
        ),
        Outcome::BadBody(complaint) => r == Err::<Response, ControllerError>(complaint),
        Outcome::InvalidUser => r matches Err(e) && e.says("Usuário inválido"@, UNAUTHORIZED),
        Outcome::NoAccess => r matches Err(e) && e.says(
            "Usuário não tem acesso no momento"@,
            UNAUTHORIZED,
        ),
        Outcome::StoreFailure => r matches Err(e) && e.says(
            ControllerErrorType::InternalServerError.text(),
            INTERNAL_SERVER_ERROR,
        ),
        Outcome::BrokerFailure => r matches Err(e) && e.says(
            ControllerErrorType::InternalServerError.text(),
            INTERNAL_SERVER_ERROR,
        ),
    }
}

/// Words the answer to an unlock request: 200 where the door was unlocked,
/// 401 where the token, the credentials or the access windows say no, 400
/// for a bad body, and 500 where the store or the broker client failed.
pub fn unlock(outcome: Outcome) -> (r: Result<Response, ControllerError>)
    ensures
        unlock_answer(outcome, r),
{
    match outcome {
        Outcome::Unlocked => Ok(Response { message: "Porta destrancada".to_owned() }),
        Outcome::TokenRefused => Err(ControllerError::from_type(ControllerErrorType::Unauthorized)),
        Outcome::BadBody(complaint) => Err(complaint),
        Outcome::InvalidUser => Err(
            ControllerError::new("Usuário inválido".to_owned(), UNAUTHORIZED),
        ),
        Outcome::NoAccess => Err(
            ControllerError::new("Usuário não tem acesso no momento".to_owned(), UNAUTHORIZED),
        ),
        Outcome::StoreFailure => Err(
            ControllerError::from_type(ControllerErrorType::InternalServerError),
        ),
        Outcome::BrokerFailure => Err(
            ControllerError::from_type(ControllerErrorType::InternalServerError),
        ),
    }
}

/// The status an unlock request is answered with.
pub open spec fn outcome_status(outcome: Outcome) -> u16 {
    match outcome {
        Outcome::Unlocked => OK,
        Outcome::TokenRefused => UNAUTHORIZED,
        Outcome::BadBody(complaint) => BAD_REQUEST,
        Outcome::InvalidUser => UNAUTHORIZED,
        Outcome::NoAccess => UNAUTHORIZED,
        Outcome::StoreFailure => INTERNAL_SERVER_ERROR,
        Outcome::BrokerFailure => INTERNAL_SERVER_ERROR,
    }
}

/// The plain wording of an outcome.
pub open spec fn outcome_text(outcome: Outcome) -> Seq<char> {
    match outcome {
        Outcome::Unlocked => "Valid user"@,
        Outcome::TokenRefused => "Invalid token"@,
        Outcome::BadBody(complaint) => "Invalid request"@,
        Outcome::InvalidUser => "Invalid User"@,
        Outcome::NoAccess => "User has no access"@,
        Outcome::StoreFailure => "Internal server error"@,
        Outcome::BrokerFailure => "Internal server error"@,
    }
}

/// Words the answer to an unlock request plainly: the status of
/// [`outcome_status`] with the message of [`outcome_text`].
pub fn unlock_door(outcome: Outcome) -> (r: (u16, Response))
    ensures
        r.0 == outcome_status(outcome),
        r.1.message@ == outcome_text(outcome),
{
    match outcome {
        Outcome::Unlocked => build_response(OK, "Valid user".to_owned()),
        Outcome::TokenRefused => build_response(UNAUTHORIZED, "Invalid token".to_owned()),
        Outcome::BadBody(_) => build_response(BAD_REQUEST, "Invalid request".to_owned()),
        Outcome::InvalidUser => build_response(UNAUTHORIZED, "Invalid User".to_owned()),
        Outcome::NoAccess => build_response(UNAUTHORIZED, "User has no access".to_owned()),
        Outcome::StoreFailure => build_response(
            INTERNAL_SERVER_ERROR,
            "Internal server error".to_owned(),
        ),
        Outcome::BrokerFailure => build_response(
            INTERNAL_SERVER_ERROR,
            "Internal server error".to_owned(),
        ),
    }
}

} // verus!
