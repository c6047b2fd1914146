//! The mutation coordinator: what happens to a create, update or delete
//! between the security gate and the event bus.
//!
//! The external store performs the write itself, so a mutation runs in two
//! verified halves. `prepare` (and the guarded `handle_mutation`) validates
//! the request and payload and either rejects it — touching neither store
//! nor bus — or hands back the store command to run. `complete` takes the
//! store's outcome: on success it constructs the domain event, publishes it,
//! and acknowledges; a store conflict or failure publishes nothing. The bus
//! never refuses a publish, so notification can only lag, not block, a
//! committed write.

use vstd::prelude::*;

use crate::bus::{publish_step, DomainEvent, EventBus, LabeledEvent};
use crate::gate::{spec_csrf_check, GateError, RequestContext, SecurityGate};
use crate::models::message::{
    spec_validate_content, spec_validate_title, MessageModel, MessageModelError,
};
use crate::session::SessionStore;
use crate::wire::{decimal_i32, spec_decimal_i32};

verus! {

/// One requested mutation, with its payload.
#[derive(Debug)]
pub enum Operation {
    Create { title: String, content: String },
    Update { id: i32, title: String, content: String },
    Delete { id: i32 },
}

/// The store call an accepted mutation asks for.
#[derive(Debug)]
pub enum StoreCommand {
    Insert { title: String, content: String },
    Modify { id: i32, title: String, content: String },
    Remove { id: i32 },
}

/// What the external store reported back: the written row's id, a rejected
/// write (for instance a uniqueness conflict), or a transient failure.
#[derive(Debug)]
pub enum StoreOutcome {
    Done { id: i32 },
    Conflict { detail: String },
    Unavailable,
}

/// Why a mutation was refused: rejected by the security filter, by field
/// validation, or by the store, or the store was unreachable.
#[derive(Debug)]
pub enum MutationError {
    Gate(GateError),
    Validation(MessageModelError),
    Conflict(String),
    Unavailable,
}

/// The acknowledgment of a committed mutation: the affected id and the
/// caller-facing toast line.
#[derive(Debug)]
pub struct Ack {
    pub id: i32,
    pub toast: String,
}

/// The payload's fields all pass validation; a delete has none to check.
pub open spec fn spec_op_valid(op: Operation) -> bool {
    match op {
        Operation::Create { title, content } => spec_validate_title(title@) is None
            && spec_validate_content(content@) is None,
        Operation::Update { id, title, content } => spec_validate_title(title@) is None
            && spec_validate_content(content@) is None,
        Operation::Delete { id } => true,
    }
}

/// The store command a valid operation asks for.
pub open spec fn spec_command_of(op: Operation) -> StoreCommand {
    match op {
        Operation::Create { title, content } => StoreCommand::Insert { title, content },
        Operation::Update { id, title, content } => StoreCommand::Modify { id, title, content },
        Operation::Delete { id } => StoreCommand::Remove { id },
    }
}

/// The id a mutation affects: the row the store inserted for a create, the
/// addressed row otherwise.
pub open spec fn spec_resolved_id(op: Operation, store_id: i32) -> i32 {
    match op {
        Operation::Create { title, content } => store_id,
        Operation::Update { id, title, content } => id,
        Operation::Delete { id } => id,
    }
}

/// The domain event a committed mutation publishes.
pub open spec fn spec_event_of(op: Operation, rid: i32) -> DomainEvent {
    match op {
        Operation::Create { title, content } => DomainEvent::Created { id: rid, title, content },
        Operation::Update { id, title, content } => DomainEvent::Updated {
            id: rid,
            title,
            content,
        },
        Operation::Delete { id } => DomainEvent::Deleted { id: rid },
    }
}

/// The toast acknowledging a committed mutation.
pub open spec fn spec_toast(op: Operation, rid: i32) -> Seq<char> {
    "Message #"@ + spec_decimal_i32(rid as int) + match op {
        Operation::Create { title, content } => " sent."@,
        Operation::Update { id, title, content } => " edited."@,
        Operation::Delete { id } => " deleted."@,
    }
}

/// Validates a mutation's payload. A rejected payload produces the
/// per-field errors and asks for no store call; an accepted one produces
/// exactly the store command for this operation. Neither store nor bus is
/// touched here.
pub fn prepare(op: &Operation) -> (r: Result<StoreCommand, MutationError>)
    ensures
        match r {
            Ok(cmd) => spec_op_valid(*op) && cmd == spec_command_of(*op),
            Err(e) => !spec_op_valid(*op) && match e {
                MutationError::Validation(v) => match *op {
                    Operation::Create { title, content } => v.title.deep_view()
                        == spec_validate_title(title@) && v.content.deep_view()
                        == spec_validate_content(content@),
                    Operation::Update { id, title, content } => v.title.deep_view()
                        == spec_validate_title(title@) && v.content.deep_view()
                        == spec_validate_content(content@),
                    Operation::Delete { id } => false,
                },
                _ => false,
            },
        },
{
    match op {
        Operation::Create { title, content } => {
            let message = MessageModel {
                id: None,
                title: title.clone(),
                content: content.clone(),
            };
            match MessageModel::validate(&message) {
                Some(e) => Err(MutationError::Validation(e)),
                None => Ok(StoreCommand::Insert { title: title.clone(), content: content.clone() }),
            }
        },
        Operation::Update { id, title, content } => {
            let message = MessageModel {
                id: Some(*id),
                title: title.clone(),
                content: content.clone(),
            };
            match MessageModel::validate(&message) {
                Some(e) => Err(MutationError::Validation(e)),
                None => Ok(
                    StoreCommand::Modify {
                        id: *id,
                        title: title.clone(),
                        content: content.clone(),
                    },
                ),
            }
        },
        Operation::Delete { id } => Ok(StoreCommand::Remove { id: *id }),
    }
}

/// The request's session id names a session that is live now.
pub open spec fn spec_session_live(sessions: SessionStore, request: RequestContext, now: u64) -> bool {
    match request.session {
        Some(id) => sessions.spec_live(id, now),
        None => false,
    }
}

/// Runs a mutating request through the full gate: the source and CSRF
/// checks, then the session requirement, then payload validation. A request
/// that fails any of them is rejected before any store call can happen —
/// the store command exists only in the success case. The bus is untouched.
pub fn handle_mutation(
    gate: &SecurityGate,
    sessions: &SessionStore,
    request: &RequestContext,
    op: &Operation,
    now: u64,
) -> (r: Result<StoreCommand, MutationError>)
    requires
        sessions.wf(),
        request.method.spec_mutating(),
    ensures
        !request.hx_request ==> (r matches Err(e) && e == MutationError::Gate(
            GateError::MissingSource,
        )),
        spec_csrf_check(*gate, *request) matches Err(ge) ==> (request.hx_request ==> (r matches Err(
            e,
        ) && e == MutationError::Gate(ge))),
        request.hx_request && spec_csrf_check(*gate, *request) is Ok && !spec_session_live(
            *sessions,
            *request,
            now,
        ) ==> (r matches Err(e) && e == MutationError::Gate(GateError::Unauthorized)),
        request.hx_request && spec_csrf_check(*gate, *request) is Ok && spec_session_live(
            *sessions,
            *request,
            now,
        ) ==> match r {
            Ok(cmd) => spec_op_valid(*op) && cmd == spec_command_of(*op),
            Err(e) => !spec_op_valid(*op) && match e {
                MutationError::Validation(v) => match *op {
                    Operation::Create { title, content } => v.title.deep_view()
                        == spec_validate_title(title@) && v.content.deep_view()
                        == spec_validate_content(content@),
                    Operation::Update { id, title, content } => v.title.deep_view()
                        == spec_validate_title(title@) && v.content.deep_view()
                        == spec_validate_content(content@),
                    Operation::Delete { id } => false,
                },
                _ => false,
            },
        },
{
    if !request.hx_request {
        return Err(MutationError::Gate(GateError::MissingSource));
    }
    match crate::gate::csrf_verifier(gate, request) {
        Err(e) => {
            return Err(MutationError::Gate(e));
        },
        Ok(()) => (),
    }
    match sessions.require_session(request.session, now) {
        Err(e) => {
            return Err(MutationError::Gate(e));
        },
        Ok(principal) => (),
    }
    prepare(op)
}

/// Finishes a mutation once the store has answered. A committed write
/// publishes exactly one matching domain event and acknowledges with the
/// affected id and its toast; the acknowledgment comes only after the
/// publish, which never fails and never blocks on slow subscribers. A
/// conflict or an unreachable store publishes nothing and leaves the bus
/// exactly as it was.
pub fn complete(op: &Operation, outcome: StoreOutcome, bus: &mut EventBus) -> (r: Result<
    Ack,
    MutationError,
>)
    requires
        old(bus).wf(),
        old(bus).next_seq < u64::MAX,
    ensures
        final(bus).wf(),
        final(bus).capacity == old(bus).capacity,
        final(bus).next_subscriber == old(bus).next_subscriber,
        final(bus).subscribers@.len() == old(bus).subscribers@.len(),
        forall|s: u64|
            #[trigger] final(bus).spec_has_subscriber(s) == old(bus).spec_has_subscriber(s),
        match outcome {
            StoreOutcome::Done { id } => ({
                let rid = spec_resolved_id(*op, id);
                let lbl = LabeledEvent {
                    seq: old(bus).next_seq,
                    event: spec_event_of(*op, rid),
                };
                &&& final(bus).next_seq == old(bus).next_seq + 1
                &&& final(bus).history@ == old(bus).history@.push(lbl)
                &&& (forall|i: int|
                    0 <= i < final(bus).subscribers@.len() ==> publish_step(
                        old(bus).subscribers@[i],
                        #[trigger] final(bus).subscribers@[i],
                        lbl,
                        old(bus).capacity,
                    ))
                &&& r matches Ok(ack) && ack.id == rid && ack.toast@ == spec_toast(*op, rid)
            }),
            StoreOutcome::Conflict { detail } => r matches Err(e) && e matches
                MutationError::Conflict(d) && d@ == detail@ && *final(bus) == *old(bus),
            StoreOutcome::Unavailable => r matches Err(e) && e is Unavailable && *final(bus)
                == *old(bus),
        },
{
    let store_id = match outcome {
        StoreOutcome::Done { id } => id,
        StoreOutcome::Conflict { detail } => {
            return Err(MutationError::Conflict(detail));
        },
        StoreOutcome::Unavailable => {
            return Err(MutationError::Unavailable);
        },
    };
    let (rid, event, suffix): (i32, DomainEvent, &'static str) = match op {
        Operation::Create { title, content } => (
            store_id,
            DomainEvent::Created {
                id: store_id,
                title: title.clone(),
                content: content.clone(),
            },
            " sent.",
        ),
        Operation::Update { id, title, content } => (
            *id,
            DomainEvent::Updated { id: *id, title: title.clone(), content: content.clone() },
            " edited.",
        ),
        Operation::Delete { id } => (*id, DomainEvent::Deleted { id: *id }, " deleted."),
    };
    bus.publish(event);
    let mut toast = String::from_str("Message #");
    let digits = decimal_i32(rid);
    toast.append(digits.as_str());
    toast.append(suffix);
    proof {
        reveal_strlit("Message #");
        reveal_strlit(" sent.");
        reveal_strlit(" edited.");
        reveal_strlit(" deleted.");
        assert(toast@ =~= spec_toast(*op, rid));
    }
    Ok(Ack { id: rid, toast })
}

} // verus!
