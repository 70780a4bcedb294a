//! What holds of every submission, proved from the contracts of the store,
//! the handler and the notification task.

use vstd::prelude::*;
use crate::db::{count_of, distinct_emails, holds, inserted_if_absent, save_plan};
use crate::db::{EntryView, StatementView, StoreError};
use crate::email::{attributes_json, confirmation_json, contact_json};
use crate::email::{confirmation_outcome, confirmation_result, contact_outcome, contact_result};
use crate::email::{Fault, Outcome, Reply, FALLBACK_HTML, FALLBACK_SUBJECT};
use crate::json::Json;
use crate::handler::{detaches, response_to, validity, JoinView, Response};
use crate::handler::{TaskAction, TaskEvent, TaskState};

verus! {

/// One thing that happens in the course of a submission.
pub enum Step {
    /// The store is asked to run these statements, and answers.
    Persist(Seq<StatementView>),
    /// The caller gets the response.
    Respond(Response),
    /// The detached task asks for an action.
    Dispatch(TaskAction),
}

/// What a detached task asks for, from its start until both results are on
/// record, when the provider answers with the given replies.
pub open spec fn task_course(contact: Reply, confirmation: Reply) -> Seq<Step> {
    let started = TaskState::Started;
    let contacted = started.after(TaskEvent::ContactReplied(contact));
    let mailed = contacted.after(TaskEvent::ConfirmationReplied(confirmation));
    seq![
        Step::Dispatch(started.action()),
        Step::Dispatch(contacted.action()),
        Step::Dispatch(mailed.action()),
    ]
}

/// Everything that one submission causes, in order, when the store and the
/// provider answer as given. Each step is what one function of the handler
/// decides: `receive` turns an invalid submission away, and it is answered at
/// once; a valid one goes to the store with the statements that `receive`
/// gave; `conclude` answers it by what the store said and, where the store
/// took it, detaches the task, whose actions follow.
pub open spec fn course(
    request: JoinView,
    stored: Result<(), StoreError>,
    contact: Reply,
    confirmation: Reply,
) -> Seq<Step> {
    match validity(request) {
        Err(_) => seq![Step::Respond(response_to(request, stored))],
        Ok(_) => {
            let served = seq![
                Step::Persist(save_plan(request.email, request.country, request.state)),
                Step::Respond(response_to(request, stored)),
            ];
            if detaches(request, stored) {
                served + task_course(contact, confirmation)
            } else {
                served
            }
        },
    }
}

/// The steps answer the caller once, with `response`.
pub open spec fn answers_with(steps: Seq<Step>, response: Response) -> bool {
    &&& exists|i: int| 0 <= i < steps.len() && steps[i] == Step::Respond(response)
    &&& forall|i: int, j: int|
        0 <= i < steps.len() && 0 <= j < steps.len() && steps[i] is Respond && steps[j] is Respond
            ==> i == j
}

/// Where no two rows share an email, an email is counted once if some row
/// has it and not at all otherwise.
pub proof fn lemma_count_of_distinct(rows: Seq<EntryView>, email: Seq<char>)
    requires
        distinct_emails(rows),
    ensures
        count_of(rows, email) == if holds(rows, email) {
            1nat
        } else {
            0nat
        },
    decreases rows.len(),
{
    if rows.len() > 0 {
        let front = rows.drop_last();
        let last = rows.len() - 1;
        assert forall|i: int, j: int| 0 <= i < j < front.len() implies front[i].email
            != front[j].email by {
            assert(front[i] == rows[i] && front[j] == rows[j]);
        }
        lemma_count_of_distinct(front, email);
        if holds(front, email) {
            let i = choose|i: int| 0 <= i < front.len() && front[i].email == email;
            assert(rows[i] == front[i]);
            assert(rows[i].email != rows[last].email);
        } else if holds(rows, email) {
            let i = choose|i: int| 0 <= i < rows.len() && rows[i].email == email;
            if i < last {
                assert(front[i] == rows[i]);
            }
        } else {
            assert(rows[last].email != email);
        }
        if rows.last().email == email {
            assert(rows[last].email == email);
        }
    }
}

/// An insert that gives way to an existing entry keeps the emails distinct
/// and leaves exactly one row with the inserted email.
pub proof fn lemma_insert_keeps_one(rows: Seq<EntryView>, entry: EntryView)
    requires
        distinct_emails(rows),
    ensures
        distinct_emails(inserted_if_absent(rows, entry)),
        holds(inserted_if_absent(rows, entry), entry.email),
        count_of(inserted_if_absent(rows, entry), entry.email) == 1,
{
    let after = inserted_if_absent(rows, entry);
    if !holds(rows, entry.email) {
        assert forall|i: int, j: int| 0 <= i < j < after.len() implies after[i].email
            != after[j].email by {
            if j < rows.len() {
                assert(after[i] == rows[i] && after[j] == rows[j]);
            } else {
                assert(after[i] == rows[i]);
            }
        }
        assert(after[rows.len() as int].email == entry.email);
    }
    lemma_count_of_distinct(after, entry.email);
}

/// Storing the same email twice leaves exactly one row for it, the one that
/// the first call left: the second call changes nothing, whatever country,
/// state and time it brings. Both calls succeed, as the contract of
/// `save_user` says of every call.
pub proof fn lemma_idempotent_identity(
    rows: Seq<EntryView>,
    email: Seq<char>,
    first: EntryView,
    second: EntryView,
)
    requires
        distinct_emails(rows),
        first.email == email,
        second.email == email,
    ensures
        inserted_if_absent(inserted_if_absent(rows, first), second) == inserted_if_absent(
            rows,
            first,
        ),
        count_of(inserted_if_absent(inserted_if_absent(rows, first), second), email) == 1,
        distinct_emails(inserted_if_absent(inserted_if_absent(rows, first), second)),
{
    lemma_insert_keeps_one(rows, first);
}

/// An insert leaves every other email's rows as they were.
pub proof fn lemma_insert_spares_others(rows: Seq<EntryView>, entry: EntryView, other: Seq<char>)
    requires
        other != entry.email,
    ensures
        count_of(inserted_if_absent(rows, entry), other) == count_of(rows, other),
        holds(inserted_if_absent(rows, entry), other) == holds(rows, other),
{
    let after = inserted_if_absent(rows, entry);
    if !holds(rows, entry.email) {
        assert(after.drop_last() == rows);
        if holds(rows, other) {
            let i = choose|i: int| 0 <= i < rows.len() && rows[i].email == other;
            assert(after[i] == rows[i]);
        }
        if holds(after, other) {
            let i = choose|i: int| 0 <= i < after.len() && after[i].email == other;
            assert(i < rows.len());
            assert(after[i] == rows[i]);
        }
    }
}

/// The caller is answered once, and the answer is fixed by the submission
/// and the store: two courses that differ only in what the provider replied
/// give the caller the same response.
pub proof fn lemma_response_isolated(
    request: JoinView,
    stored: Result<(), StoreError>,
    contact: Reply,
    confirmation: Reply,
    other_contact: Reply,
    other_confirmation: Reply,
)
    ensures
        answers_with(course(request, stored, contact, confirmation), response_to(request, stored)),
        answers_with(
            course(request, stored, other_contact, other_confirmation),
            response_to(request, stored),
        ),
{
    lemma_answered_once(request, stored, contact, confirmation);
    lemma_answered_once(request, stored, other_contact, other_confirmation);
}

/// Every course answers the caller once, with the response that the
/// submission and the store call for.
pub proof fn lemma_answered_once(
    request: JoinView,
    stored: Result<(), StoreError>,
    contact: Reply,
    confirmation: Reply,
)
    ensures
        answers_with(course(request, stored, contact, confirmation), response_to(request, stored)),
{
    let steps = course(request, stored, contact, confirmation);
    let response = response_to(request, stored);
    match validity(request) {
        Err(e) => {
            assert(steps[0] == Step::Respond(response));
        },
        Ok(_) => {
            assert(steps[1] == Step::Respond(response));
            assert forall|i: int| 0 <= i < steps.len() && steps[i] is Respond implies i == 1 by {
                if stored is Ok {
                    let tail = task_course(contact, confirmation);
                    if i >= 2 {
                        assert(steps[i] == tail[i - 2]);
                    }
                }
            }
        },
    }
}

/// The store's step stands somewhere before position `i`.
pub open spec fn persisted_before(steps: Seq<Step>, i: int) -> bool {
    exists|j: int| 0 <= j < i && j < steps.len() && steps[j] is Persist
}

/// Some step is an action of the detached task.
pub open spec fn has_dispatch(steps: Seq<Step>) -> bool {
    exists|i: int| 0 <= i < steps.len() && steps[i] is Dispatch
}

/// The provider is called only for a stored submission, and only after the
/// store has answered: every action of the task has the store's step before
/// it, and where the store fails, or the submission is invalid, no action of
/// the task is in the course.
pub proof fn lemma_persistence_first(
    request: JoinView,
    stored: Result<(), StoreError>,
    contact: Reply,
    confirmation: Reply,
)
    ensures
        forall|i: int|
            0 <= i < course(request, stored, contact, confirmation).len() && (#[trigger] course(
                request,
                stored,
                contact,
                confirmation,
            )[i]) is Dispatch ==> persisted_before(
                course(request, stored, contact, confirmation),
                i,
            ),
        has_dispatch(course(request, stored, contact, confirmation)) ==> stored is Ok && validity(
            request,
        ) is Ok,
        stored is Err ==> !has_dispatch(course(request, stored, contact, confirmation)),
{
    let steps = course(request, stored, contact, confirmation);
    assert forall|i: int| 0 <= i < steps.len() && (#[trigger] steps[i]) is Dispatch implies persisted_before(
        steps,
        i,
    ) by {
        assert(steps[0] is Persist);
    }
}

/// What the provider refuses of a contact registration goes no further than
/// the reply's classification: every reply that was answered, a refusal
/// too, ends the contact step well, and only a request that never got through
/// ends it with a fault. The confirmation step ends well on a success alone
/// and keeps the fault of every other reply.
pub proof fn lemma_refusal_swallowed(reply: Reply)
    ensures
        reply is Answered ==> TaskState::Started.after(TaskEvent::ContactReplied(reply))
            == (TaskState::ContactAttempted { contact: Ok(()) }),
        reply is Unreachable ==> TaskState::Started.after(TaskEvent::ContactReplied(reply))
            == (TaskState::ContactAttempted { contact: Err(Fault::Unreachable) }),
        contact_outcome(reply) is Success || contact_outcome(reply) is RecognizedConflict
            ==> contact_result(reply) is Ok,
        contact_result(reply) is Err <==> contact_outcome(reply) == Outcome::Failure(
            Fault::Unreachable,
        ),
        confirmation_result(reply) is Ok <==> confirmation_outcome(reply) is Success,
        confirmation_outcome(reply) matches Outcome::Failure(fault) ==> confirmation_result(reply)
            == Err::<(), Fault>(fault),
{
}

/// A contact registration that meets the recognized conflict is taken as one
/// that succeeded: the task is in the same state afterwards, and the whole
/// course of the submission is the same.
pub proof fn lemma_conflict_absorbed(
    request: JoinView,
    stored: Result<(), StoreError>,
    conflict: Reply,
    success: Reply,
    confirmation: Reply,
)
    requires
        contact_outcome(conflict) == Outcome::RecognizedConflict,
        contact_outcome(success) == Outcome::Success,
    ensures
        TaskState::Started.after(TaskEvent::ContactReplied(conflict))
            == TaskState::Started.after(TaskEvent::ContactReplied(success)),
        TaskState::Started.after(TaskEvent::ContactReplied(conflict))
            == (TaskState::ContactAttempted { contact: Ok(()) }),
        course(request, stored, conflict, confirmation) == course(
            request,
            stored,
            success,
            confirmation,
        ),
{
}

/// Whatever the provider replies, the task registers the contact, then sends
/// the confirmation, then reports, and is done: a failed registration does
/// not keep the confirmation from being sent.
pub proof fn lemma_task_completes(contact: Reply, confirmation: Reply)
    ensures
        task_course(contact, confirmation).len() == 3,
        task_course(contact, confirmation)[0] == Step::Dispatch(TaskAction::RegisterContact),
        task_course(contact, confirmation)[1] == Step::Dispatch(TaskAction::SendConfirmation),
        task_course(contact, confirmation)[2] is Dispatch,
        task_course(contact, confirmation)[2]->Dispatch_0 is Report,
        TaskState::Started.after(TaskEvent::ContactReplied(contact)).after(
            TaskEvent::ConfirmationReplied(confirmation),
        ).after(TaskEvent::Reported) is Done,
{
}

/// An event never takes the task back. The event that answers the state's
/// action takes it exactly one state on; any other leaves it where it is.
pub proof fn lemma_task_moves_forward(state: TaskState, event: TaskEvent)
    ensures
        state.awaits(event) ==> state.after(event).rank() == state.rank() + 1,
        !state.awaits(event) ==> state.after(event) == state,
        state.after(event).rank() <= 3,
{
}

/// A contact's document always names the email and the attributes and
/// enables updates; it names a list exactly where an identifier is
/// configured, and then that list alone.
pub proof fn lemma_contact_members(
    email: Seq<char>,
    country: Seq<char>,
    state: Option<Seq<char>>,
    list_id: Option<i64>,
)
    ensures
        contact_json(email, country, state, list_id) is Object,
        contact_json(email, country, state, list_id)->Object_0["email"@] == Json::Text(email),
        contact_json(email, country, state, list_id)->Object_0["attributes"@] == attributes_json(
            country,
            state,
        ),
        contact_json(email, country, state, list_id)->Object_0["updateEnabled"@] == Json::Bool(
            true,
        ),
        contact_json(email, country, state, list_id)->Object_0.contains_key("listIds"@)
            <==> list_id is Some,
        list_id matches Some(id) ==> contact_json(
            email,
            country,
            state,
            list_id,
        )->Object_0["listIds"@] == Json::List(seq![Json::Number(id as int)]),
{
    reveal_strlit("email");
    reveal_strlit("attributes");
    reveal_strlit("updateEnabled");
    reveal_strlit("listIds");
    assert("email"@.len() == 5 && "attributes"@.len() == 10);
    assert("updateEnabled"@.len() == 13 && "listIds"@.len() == 7);
}

/// A contact's attributes always name the country; they name a state
/// exactly where the submission gave one.
pub proof fn lemma_attribute_members(country: Seq<char>, state: Option<Seq<char>>)
    ensures
        attributes_json(country, state) is Object,
        attributes_json(country, state)->Object_0["COUNTRY"@] == Json::Text(country),
        attributes_json(country, state)->Object_0.contains_key("STATE"@) <==> state is Some,
        state matches Some(s) ==> attributes_json(country, state)->Object_0["STATE"@]
            == Json::Text(s),
{
    reveal_strlit("COUNTRY");
    reveal_strlit("STATE");
    assert("COUNTRY"@.len() == 7 && "STATE"@.len() == 5);
}

/// A confirmation refers to a template or carries the built-in subject and
/// body, never both: the template where an identifier is configured, the
/// built-in content where none is.
pub proof fn lemma_confirmation_members(
    email: Seq<char>,
    sender_name: Seq<char>,
    sender_email: Seq<char>,
    template_id: Option<i64>,
)
    ensures
        confirmation_json(email, sender_name, sender_email, template_id) is Object,
        confirmation_json(email, sender_name, sender_email, template_id)->Object_0.contains_key(
            "templateId"@,
        ) <==> template_id is Some,
        confirmation_json(email, sender_name, sender_email, template_id)->Object_0.contains_key(
            "subject"@,
        ) <==> template_id is None,
        confirmation_json(email, sender_name, sender_email, template_id)->Object_0.contains_key(
            "htmlContent"@,
        ) <==> template_id is None,
        template_id matches Some(id) ==> confirmation_json(
            email,
            sender_name,
            sender_email,
            template_id,
        )->Object_0["templateId"@] == Json::Number(id as int),
        template_id is None ==> confirmation_json(
            email,
            sender_name,
            sender_email,
            template_id,
        )->Object_0["subject"@] == Json::Text(FALLBACK_SUBJECT@),
        template_id is None ==> confirmation_json(
            email,
            sender_name,
            sender_email,
            template_id,
        )->Object_0["htmlContent"@] == Json::Text(FALLBACK_HTML@),
{
    reveal_strlit("sender");
    reveal_strlit("to");
    reveal_strlit("templateId");
    reveal_strlit("subject");
    reveal_strlit("htmlContent");
    assert("sender"@.len() == 6 && "to"@.len() == 2 && "templateId"@.len() == 10);
    assert("subject"@.len() == 7 && "htmlContent"@.len() == 11);
}

} // verus!
