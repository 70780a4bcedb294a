//! The path of one submission: validated, stored, answered, and then, once
//! it is stored, handed to a notification task that runs on its own.
//!
//! The functions here decide; they perform nothing. Whoever serves the
//! request brings it to [`receive`], which turns it away or says what the store
//! is to be asked. The store's answer goes to [`conclude`], which gives the
//! response and, for a stored submission only, the [`NotificationTask`] to
//! detach. The task is run by asking a [`TaskState`] what to do next and
//! telling it what came of it.

use vstd::prelude::*;
use crate::db::{save_plan, save_statements, statement_views, Statement, StoreError};
use crate::email::{confirmation_result, contact_result, settle_confirmation, settle_contact};
use crate::email::{Fault, Reply};
use crate::json::{self, Json, json_of, no_members};

verus! {

/// What the caller is told when the submission is stored.
pub const SUCCESS_MESSAGE: &'static str = "Success";

/// What the caller is told when the store fails.
pub const SAVE_FAILED_MESSAGE: &'static str = "Failed to save user";

/// What the caller is told when the email is missing.
pub const MISSING_EMAIL_MESSAGE: &'static str = "email is required";

/// What the caller is told when the country is missing.
pub const MISSING_COUNTRY_MESSAGE: &'static str = "country is required";

/// A submission to the waitlist.
#[derive(Debug, PartialEq, Eq)]
pub struct JoinWaitlistRequest {
    pub email: String,
    pub country: String,
    pub state: Option<String>,
}

/// The fields of a submission as mathematical values.
pub struct JoinView {
    pub email: Seq<char>,
    pub country: Seq<char>,
    pub state: Option<Seq<char>>,
}

impl View for JoinWaitlistRequest {
    type V = JoinView;

    open spec fn view(&self) -> JoinView {
        JoinView {
            email: self.email@,
            country: self.country@,
            state: match self.state {
                Some(s) => Some(s@),
                None => None,
            },
        }
    }
}

/// Why a submission is turned away before the store is asked.
#[derive(Clone, Copy, Debug, PartialEq, Eq, Structural)]
pub enum ValidationError {
    MissingEmail,
    MissingCountry,
}

/// What the caller is told.
#[derive(Clone, Copy, Debug, PartialEq, Eq, Structural)]
pub enum Response {
    /// The submission is stored, now or from before.
    Accepted,
    /// The submission was turned away; nothing was stored.
    Rejected(ValidationError),
    /// The store failed.
    StoreFailed,
}

/// What the detached task works on: the fields of a stored submission.
#[derive(Debug, PartialEq, Eq)]
pub struct NotificationTask {
    pub email: String,
    pub country: String,
    pub state: Option<String>,
}

impl View for NotificationTask {
    type V = JoinView;

    open spec fn view(&self) -> JoinView {
        JoinView {
            email: self.email@,
            country: self.country@,
            state: match self.state {
                Some(s) => Some(s@),
                None => None,
            },
        }
    }
}

/// What is done with a submission before the store is asked.
#[derive(Debug, PartialEq, Eq)]
pub enum Admission {
    /// The submission is turned away with this response; the store is not
    /// asked.
    Rejected(Response),
    /// The store is asked to run these statements, in order.
    Persist(Vec<Statement>),
}

/// How a submission ends for the caller, and what is detached.
#[derive(Debug, PartialEq, Eq)]
pub struct Conclusion {
    pub response: Response,
    pub task: Option<NotificationTask>,
}

/// A submission is valid when it names an email and a country; the email is
/// looked at first.
pub open spec fn validity(request: JoinView) -> Result<(), ValidationError> {
    if request.email.len() == 0 {
        Err(ValidationError::MissingEmail)
    } else if request.country.len() == 0 {
        Err(ValidationError::MissingCountry)
    } else {
        Ok(())
    }
}

/// The response that the store's answer calls for.
pub open spec fn response_for(stored: Result<(), StoreError>) -> Response {
    match stored {
        Ok(_) => Response::Accepted,
        Err(_) => Response::StoreFailed,
    }
}

/// The response to a submission, given what the store would answer: a
/// rejection where the submission is invalid, else what the store's answer
/// calls for.
pub open spec fn response_to(request: JoinView, stored: Result<(), StoreError>) -> Response {
    match validity(request) {
        Err(e) => Response::Rejected(e),
        Ok(_) => response_for(stored),
    }
}

/// A notification task is detached for a valid submission that the store
/// took, and for no other.
pub open spec fn detaches(request: JoinView, stored: Result<(), StoreError>) -> bool {
    validity(request) is Ok && stored is Ok
}

impl ValidationError {
    /// The sentence that tells the caller what is missing.
    pub open spec fn message_text(self) -> Seq<char> {
        match self {
            ValidationError::MissingEmail => MISSING_EMAIL_MESSAGE@,
            ValidationError::MissingCountry => MISSING_COUNTRY_MESSAGE@,
        }
    }

    /// The sentence that tells the caller what is missing.
    pub fn message(self) -> (message: &'static str)
        ensures
            message@ == self.message_text(),
    {
        match self {
            ValidationError::MissingEmail => MISSING_EMAIL_MESSAGE,
            ValidationError::MissingCountry => MISSING_COUNTRY_MESSAGE,
        }
    }
}

impl Response {
    /// The HTTP status: 200 for a stored submission, 422 for a rejected one,
    /// 500 where the store failed.
    pub open spec fn status_code(self) -> u16 {
        match self {
            Response::Accepted => 200,
            Response::Rejected(_) => 422,
            Response::StoreFailed => 500,
        }
    }

    /// The body: a message for a stored submission, an error otherwise.
    pub open spec fn body_json(self) -> Json {
        match self {
            Response::Accepted => Json::Object(
                no_members().insert("message"@, Json::Text(SUCCESS_MESSAGE@)),
            ),
            Response::Rejected(e) => Json::Object(
                no_members().insert("error"@, Json::Text(e.message_text())),
            ),
            Response::StoreFailed => Json::Object(
                no_members().insert("error"@, Json::Text(SAVE_FAILED_MESSAGE@)),
            ),
        }
    }

    /// The HTTP status of the response.
    pub fn status(self) -> (status: u16)
        ensures
            status == self.status_code(),
    {
        match self {
            Response::Accepted => 200,
            Response::Rejected(_) => 422,
            Response::StoreFailed => 500,
        }
    }

    /// The JSON body of the response.
    pub fn body(self) -> (body: serde_json::Value)
        ensures
            json_of(body) == self.body_json(),
    {
        let mut members = json::empty_map();
        match self {
            Response::Accepted => {
                json::insert(&mut members, "message", json::text(SUCCESS_MESSAGE));
            },
            Response::Rejected(e) => {
                json::insert(&mut members, "error", json::text(e.message()));
            },
            Response::StoreFailed => {
                json::insert(&mut members, "error", json::text(SAVE_FAILED_MESSAGE));
            },
        }
        json::object(members)
    }
}

/// Checks a submission before the store is asked.
pub fn validate(request: &JoinWaitlistRequest) -> (checked: Result<(), ValidationError>)
    ensures
        checked == validity(request@),
{
    if request.email.as_str().is_empty() {
        Err(ValidationError::MissingEmail)
    } else if request.country.as_str().is_empty() {
        Err(ValidationError::MissingCountry)
    } else {
        Ok(())
    }
}

/// Decides what is done with a submission before the store is asked: an
/// invalid one is turned away at once, a valid one goes to the store with the
/// statements that store it.
pub fn receive(request: &JoinWaitlistRequest) -> (admission: Admission)
    ensures
        validity(request@) matches Err(e) ==> admission == Admission::Rejected(
            Response::Rejected(e),
        ),
        validity(request@) is Ok ==> (admission matches Admission::Persist(plan)
            && statement_views(plan@) == save_plan(
            request@.email,
            request@.country,
            request@.state,
        )),
{
    match validate(request) {
        Err(e) => Admission::Rejected(Response::Rejected(e)),
        Ok(_) => {
            let state = match &request.state {
                Some(s) => Some(s.as_str()),
                None => None,
            };
            Admission::Persist(
                save_statements(request.email.as_str(), request.country.as_str(), state),
            )
        },
    }
}

/// Ends the caller's part once the store has answered. A valid submission
/// that the store took is accepted and its notification task is handed out.
/// A failed store gives the failure response and no task. A submission that
/// is not valid is turned away here too, whatever the store is said to have
/// answered, and has no task either.
pub fn conclude(request: JoinWaitlistRequest, stored: Result<(), StoreError>) -> (conclusion:
    Conclusion)
    ensures
        conclusion.response == response_to(request@, stored),
        detaches(request@, stored) ==> conclusion.task is Some && conclusion.task->0@ == request@,
        !detaches(request@, stored) ==> conclusion.task is None,
{
    match validate(&request) {
        Err(e) => Conclusion { response: Response::Rejected(e), task: None },
        Ok(_) => match stored {
            Ok(_) => Conclusion {
                response: Response::Accepted,
                task: Some(
                    NotificationTask {
                        email: request.email,
                        country: request.country,
                        state: request.state,
                    },
                ),
            },
            Err(_) => Conclusion { response: Response::StoreFailed, task: None },
        },
    }
}

/// How far the detached task has come. It has no state for an error: a
/// failed call is recorded and the task goes on.
#[derive(Clone, Copy, Debug, PartialEq, Eq)]
pub enum TaskState {
    /// Nothing has been attempted yet.
    Started,
    /// The contact registration has been attempted.
    ContactAttempted { contact: Result<(), Fault> },
    /// The confirmation has been attempted too.
    EmailAttempted { contact: Result<(), Fault>, email: Result<(), Fault> },
    /// Both results have been reported; nothing is left to do.
    Done { contact: Result<(), Fault>, email: Result<(), Fault> },
}

/// What the task asks for next.
#[derive(Clone, Copy, Debug, PartialEq, Eq)]
pub enum TaskAction {
    /// Send the contact registration and bring back the reply.
    RegisterContact,
    /// Send the confirmation and bring back the reply.
    SendConfirmation,
    /// Put both results on record; failures are reported nowhere else.
    Report { contact: Result<(), Fault>, email: Result<(), Fault> },
    /// Nothing: the task is over.
    Stop,
}

/// What came of an action.
#[derive(Debug, PartialEq, Eq)]
pub enum TaskEvent {
    /// The reply to the contact registration.
    ContactReplied(Reply),
    /// The reply to the confirmation.
    ConfirmationReplied(Reply),
    /// The results are on record.
    Reported,
}

impl TaskState {
    /// The action that a state asks for.
    pub open spec fn action(self) -> TaskAction {
        match self {
            TaskState::Started => TaskAction::RegisterContact,
            TaskState::ContactAttempted { .. } => TaskAction::SendConfirmation,
            TaskState::EmailAttempted { contact, email } => TaskAction::Report { contact, email },
            TaskState::Done { .. } => TaskAction::Stop,
        }
    }

    /// The event that answers a state's action.
    pub open spec fn awaits(self, event: TaskEvent) -> bool {
        match self {
            TaskState::Started => event is ContactReplied,
            TaskState::ContactAttempted { .. } => event is ConfirmationReplied,
            TaskState::EmailAttempted { .. } => event is Reported,
            TaskState::Done { .. } => false,
        }
    }

    /// The state after an event. The event that answers the state's action
    /// moves the task one state on, whatever the reply was; any other event
    /// leaves the state as it is.
    pub open spec fn after(self, event: TaskEvent) -> TaskState {
        match (self, event) {
            (TaskState::Started, TaskEvent::ContactReplied(reply)) => TaskState::ContactAttempted {
                contact: contact_result(reply),
            },
            (
                TaskState::ContactAttempted { contact },
                TaskEvent::ConfirmationReplied(reply),
            ) => TaskState::EmailAttempted {
                contact,
                email: confirmation_result(reply),
            },
            (TaskState::EmailAttempted { contact, email }, TaskEvent::Reported) => TaskState::Done {
                contact,
                email,
            },
            _ => self,
        }
    }

    /// How many steps the state is away from the start.
    pub open spec fn rank(self) -> nat {
        match self {
            TaskState::Started => 0,
            TaskState::ContactAttempted { .. } => 1,
            TaskState::EmailAttempted { .. } => 2,
            TaskState::Done { .. } => 3,
        }
    }

    /// The state in which every task begins.
    pub fn start() -> (state: TaskState)
        ensures
            state == TaskState::Started,
    {
        TaskState::Started
    }

    /// What to do next.
    pub fn next_action(&self) -> (action: TaskAction)
        ensures
            action == self.action(),
    {
        match self {
            TaskState::Started => TaskAction::RegisterContact,
            TaskState::ContactAttempted { .. } => TaskAction::SendConfirmation,
            TaskState::EmailAttempted { contact, email } => TaskAction::Report {
                contact: *contact,
                email: *email,
            },
            TaskState::Done { .. } => TaskAction::Stop,
        }
    }

    /// Takes in what came of the last action.
    pub fn advance(self, event: &TaskEvent) -> (next: TaskState)
        ensures
            next == self.after(*event),
    {
        match self {
            TaskState::Started => match event {
                TaskEvent::ContactReplied(reply) => TaskState::ContactAttempted {
                    contact: settle_contact(reply),
                },
                _ => self,
            },
            TaskState::ContactAttempted { contact } => match event {
                TaskEvent::ConfirmationReplied(reply) => TaskState::EmailAttempted {
                    contact,
                    email: settle_confirmation(reply),
                },
                _ => self,
            },
            TaskState::EmailAttempted { contact, email } => match event {
                TaskEvent::Reported => TaskState::Done { contact, email },
                _ => self,
            },
            TaskState::Done { .. } => self,
        }
    }

    /// Whether the task is over.
    pub fn is_done(&self) -> (done: bool)
        ensures
            done == (*self is Done),
    {
        match self {
            TaskState::Done { .. } => true,
            _ => false,
        }
    }
}

} // verus!
