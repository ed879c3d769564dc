use crate::events::{
    call_answer, combined, event_answer, has_handler, routes_to, EscrowType, EventAction, EventBus,
    KeriEvent, KeriObserver, ObserverCall, ObserverResponse,
};
use crate::records::{KeyStateRecord, SerderKERI};
use std::sync::Arc;
use vstd::prelude::*;

verus! {

/// With no observer responses the bus answers `Continue`.
pub proof fn lemma_combined_empty()
    ensures
        combined(Seq::<ObserverResponse>::empty()) == EventAction::Continue,
{
}

/// The bus answers `Continue` exactly when no observer handled the event.
pub proof fn lemma_combined_all_continue(rs: Seq<ObserverResponse>)
    ensures
        (combined(rs) == EventAction::Continue) <==> (forall|i: int|
            0 <= i < rs.len() ==> !(#[trigger] rs[i].handled())),
{
}

/// Asking one more observer: the answer becomes `Handled` if that observer
/// handled the event, and otherwise is the answer of the observers before it.
pub proof fn lemma_combined_push(rs: Seq<ObserverResponse>, r: ObserverResponse)
    ensures
        combined(rs.push(r)) == (if r.handled() {
            EventAction::Handled
        } else {
            combined(rs)
        }),
{
    let rs2 = rs.push(r);
    if r.handled() {
        assert(rs2[rs.len() as int] == r);
    } else {
        assert forall|i: int| 0 <= i < rs2.len() && #[trigger] rs2[i].handled() implies 0 <= i
            < rs.len() && rs[i].handled() by {}
        assert forall|i: int| 0 <= i < rs.len() && #[trigger] rs[i].handled() implies 0 <= i
            < rs2.len() && rs2[i].handled() by {
            assert(rs2[i] == rs[i]);
        }
    }
}

/// Once some observers handled an event, the answer stays `Handled` whatever
/// further observers answer.
pub proof fn lemma_combined_handled_absorbing(rs: Seq<ObserverResponse>, more: Seq<ObserverResponse>)
    requires
        combined(rs) == EventAction::Handled,
    ensures
        combined(rs + more) == EventAction::Handled,
{
    let i = choose|i: int| 0 <= i < rs.len() && #[trigger] rs[i].handled();
    assert((rs + more)[i] == rs[i]);
}

/// A bus with no observers answers `Continue` to every event.
pub proof fn lemma_empty_bus_continues(
    event: KeriEvent,
    rs: Seq<ObserverResponse>,
    result: EventAction,
)
    requires
        EventBus::accounts_for(event, 0, rs, result),
    ensures
        result == EventAction::Continue,
{
}

/// To a query response or an unfulfilled query, which reach no
/// event-specific method, the bus answers `Handled` exactly when some
/// observer's `on_event` answered `Handled`.
pub proof fn lemma_query_answer_is_on_event(
    event: KeriEvent,
    n: nat,
    rs: Seq<ObserverResponse>,
    result: EventAction,
)
    requires
        !has_handler(event),
        EventBus::accounts_for(event, n, rs, result),
    ensures
        (result == EventAction::Handled) <==> (exists|i: int|
            0 <= i < rs.len() && #[trigger] rs[i].general == EventAction::Handled),
{
    if result == EventAction::Handled {
        let i = choose|i: int| 0 <= i < rs.len() && #[trigger] rs[i].handled();
        assert(rs[i].specific == EventAction::Continue);
    } else {
        assert forall|i: int| 0 <= i < rs.len() implies #[trigger] rs[i].general
            != EventAction::Handled by {
            assert(!rs[i].handled());
        }
    }
}

/// The identifier prefix an event is about, where it has one.
pub open spec fn event_prefix(e: KeriEvent) -> Option<Seq<char>> {
    match e {
        KeriEvent::KeyStateNew { prefix, .. } => Some(prefix@),
        KeriEvent::KeyStateUpdated { prefix, .. } => Some(prefix@),
        KeriEvent::ReceiptNeeded { prefix, .. } => Some(prefix@),
        KeriEvent::EventNotice { prefix, .. } => Some(prefix@),
        KeriEvent::WitnessNeeded { prefix, .. } => Some(prefix@),
        KeriEvent::MissingSignature { prefix, .. } => Some(prefix@),
        KeriEvent::OutOfOrder { prefix, .. } => Some(prefix@),
        KeriEvent::EscrowResolved { prefix, .. } => Some(prefix@),
        KeriEvent::EscrowTimedOut { prefix, .. } => Some(prefix@),
        KeriEvent::DuplicitousEvent { prefix, .. } => Some(prefix@),
        KeriEvent::QueryResponse { prefix, .. } => Some(prefix@),
        KeriEvent::QueryNotFound { prefix } => Some(prefix@),
        _ => None,
    }
}

/// The prefix argument of an observer call, where it has one.
pub open spec fn call_prefix(c: ObserverCall) -> Option<Seq<char>> {
    match c {
        ObserverCall::KeyStateNew { prefix, .. } => Some(prefix@),
        ObserverCall::KeyStateUpdated { prefix, .. } => Some(prefix@),
        ObserverCall::ReceiptNeeded { prefix, .. } => Some(prefix@),
        ObserverCall::EventNotice { prefix, .. } => Some(prefix@),
        ObserverCall::WitnessNeeded { prefix, .. } => Some(prefix@),
        ObserverCall::Escrowed { prefix, .. } => Some(prefix@),
        ObserverCall::EscrowResolved { prefix, .. } => Some(prefix@),
        ObserverCall::EscrowTimedOut { prefix, .. } => Some(prefix@),
        ObserverCall::Duplicitous { prefix, .. } => Some(prefix@),
        _ => None,
    }
}

/// The sequence number an event carries, where it has one.
pub open spec fn event_sn(e: KeriEvent) -> Option<u64> {
    match e {
        KeriEvent::MissingSignature { sn, .. } => Some(sn),
        KeriEvent::OutOfOrder { sn, .. } => Some(sn),
        KeriEvent::EscrowResolved { sn, .. } => Some(sn),
        KeriEvent::EscrowTimedOut { sn, .. } => Some(sn),
        KeriEvent::DuplicitousEvent { sn, .. } => Some(sn),
        _ => None,
    }
}

/// The sequence-number argument of an observer call, where it has one.
pub open spec fn call_sn(c: ObserverCall) -> Option<u64> {
    match c {
        ObserverCall::Escrowed { sn, .. } => Some(sn),
        ObserverCall::EscrowResolved { sn, .. } => Some(sn),
        ObserverCall::EscrowTimedOut { sn, .. } => Some(sn),
        ObserverCall::Duplicitous { sn, .. } => Some(sn),
        _ => None,
    }
}

/// The serialized message an event carries, for the events that reach an
/// event-specific method with one.
pub open spec fn event_serder(e: KeriEvent) -> Option<SerderKERI> {
    match e {
        KeriEvent::KeyStateNew { serder, .. } => Some(serder),
        KeriEvent::KeyStateUpdated { serder, .. } => Some(serder),
        KeriEvent::ReceiptNeeded { serder, .. } => Some(serder),
        KeriEvent::EventNotice { serder, .. } => Some(serder),
        KeriEvent::WitnessNeeded { serder, .. } => Some(serder),
        KeriEvent::EscrowResolved { serder, .. } => Some(serder),
        _ => None,
    }
}

/// The serialized-message argument of an observer call, where it has one.
pub open spec fn call_serder(c: ObserverCall) -> Option<SerderKERI> {
    match c {
        ObserverCall::KeyStateNew { serder, .. } => Some(*serder),
        ObserverCall::KeyStateUpdated { serder, .. } => Some(*serder),
        ObserverCall::ReceiptNeeded { serder, .. } => Some(*serder),
        ObserverCall::EventNotice { serder, .. } => Some(*serder),
        ObserverCall::WitnessNeeded { serder, .. } => Some(*serder),
        ObserverCall::EscrowResolved { serder, .. } => Some(*serder),
        _ => None,
    }
}

/// The optional key state a key-state event carries.
pub open spec fn event_state(e: KeriEvent) -> Option<Option<KeyStateRecord>> {
    match e {
        KeriEvent::KeyStateNew { state, .. } => Some(state),
        KeriEvent::KeyStateUpdated { state, .. } => Some(state),
        _ => None,
    }
}

/// The key state a borrowed optional key state refers to.
pub open spec fn owned_state(s: Option<&KeyStateRecord>) -> Option<KeyStateRecord> {
    match s {
        Some(r) => Some(*r),
        None => None,
    }
}

/// The key-state argument of an observer call, where it has one.
pub open spec fn call_state(c: ObserverCall) -> Option<Option<KeyStateRecord>> {
    match c {
        ObserverCall::KeyStateNew { state, .. } => Some(owned_state(state)),
        ObserverCall::KeyStateUpdated { state, .. } => Some(owned_state(state)),
        _ => None,
    }
}

/// The escrow an event concerns: an out-of-order event is held in the
/// out-of-order escrow; the other escrow events name theirs.
pub open spec fn event_escrow(e: KeriEvent) -> Option<EscrowType> {
    match e {
        KeriEvent::MissingSignature { escrow_type, .. } => Some(escrow_type),
        KeriEvent::OutOfOrder { .. } => Some(EscrowType::OutOfOrder),
        KeriEvent::EscrowResolved { escrow_type, .. } => Some(escrow_type),
        KeriEvent::EscrowTimedOut { escrow_type, .. } => Some(escrow_type),
        _ => None,
    }
}

/// The escrow-type argument of an observer call, where it has one.
pub open spec fn call_escrow(c: ObserverCall) -> Option<EscrowType> {
    match c {
        ObserverCall::Escrowed { escrow_type, .. } => Some(escrow_type),
        ObserverCall::EscrowResolved { escrow_type, .. } => Some(escrow_type),
        ObserverCall::EscrowTimedOut { escrow_type, .. } => Some(escrow_type),
        _ => None,
    }
}

/// The route and SAID of an exchange or reply event.
pub open spec fn event_message(e: KeriEvent) -> Option<(Seq<char>, Seq<char>)> {
    match e {
        KeriEvent::ExchangeReceived { route, said } => Some((route@, said@)),
        KeriEvent::ReplyProcessed { route, said } => Some((route@, said@)),
        _ => None,
    }
}

/// The route and SAID arguments of an observer call, where it has them.
pub open spec fn call_message(c: ObserverCall) -> Option<(Seq<char>, Seq<char>)> {
    match c {
        ObserverCall::Exchange { route, said } => Some((route@, said@)),
        ObserverCall::Reply { route, said } => Some((route@, said@)),
        _ => None,
    }
}

/// The observer call an event is routed to carries exactly the event's own
/// data: its prefix, sequence number, message, key state, escrow, route and
/// SAID, nothing dropped and nothing added.
pub proof fn lemma_route_carries_event_data(event: KeriEvent, call: ObserverCall)
    requires
        routes_to(event, Some(call)),
    ensures
        call_prefix(call) == event_prefix(event),
        call_sn(call) == event_sn(event),
        call_serder(call) == event_serder(event),
        call_state(call) == event_state(event),
        call_escrow(call) == event_escrow(event),
        call_message(call) == event_message(event),
{
    match event {
        KeriEvent::KeyStateNew { state, .. } => {
            assert(call_state(call) == Some(state));
        },
        KeriEvent::KeyStateUpdated { state, .. } => {
            assert(call_state(call) == Some(state));
        },
        _ => {},
    }
}

/// If some observer's `on_event` answers only `Handled` to an event, the bus
/// answers `Handled` to it, whatever the event's kind and whatever the other
/// observers answer.
pub proof fn lemma_emit_handled_by_on_event(
    event: KeriEvent,
    observers: Seq<Arc<dyn KeriObserver + 'static>>,
    call: Option<ObserverCall>,
    rs: Seq<ObserverResponse>,
    result: EventAction,
    j: int,
)
    requires
        EventBus::accounts_for(event, observers.len(), rs, result),
        EventBus::answered_by(event, observers, call, rs),
        0 <= j < observers.len(),
        forall|a: EventAction|
            #[trigger] event_answer::<dyn KeriObserver + 'static>(&*observers[j], event, a) ==> a
                == EventAction::Handled,
    ensures
        result == EventAction::Handled,
{
    assert(event_answer::<dyn KeriObserver + 'static>(&*observers[j], event, rs[j].general));
    assert(rs[j].handled());
}

/// If some observer's event-specific method, called with the routed
/// arguments, answers only `Handled`, the bus answers `Handled`, whatever
/// that observer's place among the observers and whatever the others answer.
pub proof fn lemma_emit_handled_by_specific(
    event: KeriEvent,
    observers: Seq<Arc<dyn KeriObserver + 'static>>,
    call: ObserverCall,
    rs: Seq<ObserverResponse>,
    result: EventAction,
    j: int,
)
    requires
        EventBus::accounts_for(event, observers.len(), rs, result),
        EventBus::answered_by(event, observers, Some(call), rs),
        0 <= j < observers.len(),
        forall|a: EventAction|
            #[trigger] call_answer::<dyn KeriObserver + 'static>(&*observers[j], call, a) ==> a
                == EventAction::Handled,
    ensures
        result == EventAction::Handled,
{
    assert(call_answer::<dyn KeriObserver + 'static>(&*observers[j], call, rs[j].specific));
    assert(rs[j].handled());
}

/// If no observer answers `Handled`, neither through `on_event` nor through
/// the event-specific method the event is routed to, the bus answers
/// `Continue`.
pub proof fn lemma_emit_continue_when_none_handles(
    event: KeriEvent,
    observers: Seq<Arc<dyn KeriObserver + 'static>>,
    call: Option<ObserverCall>,
    rs: Seq<ObserverResponse>,
    result: EventAction,
)
    requires
        EventBus::accounts_for(event, observers.len(), rs, result),
        EventBus::answered_by(event, observers, call, rs),
        forall|j: int, a: EventAction|
            0 <= j < observers.len() && #[trigger] event_answer::<dyn KeriObserver + 'static>(
                &*observers[j],
                event,
                a,
            ) ==> a == EventAction::Continue,
        forall|j: int, c: ObserverCall, a: EventAction|
            0 <= j < observers.len() && call == Some(c)
                && #[trigger] call_answer::<dyn KeriObserver + 'static>(&*observers[j], c, a) ==> a
                == EventAction::Continue,
    ensures
        result == EventAction::Continue,
{
    assert forall|j: int| 0 <= j < rs.len() implies !(#[trigger] rs[j].handled()) by {
        assert(event_answer::<dyn KeriObserver + 'static>(&*observers[j], event, rs[j].general));
        if let Some(c) = call {
            assert(call_answer::<dyn KeriObserver + 'static>(&*observers[j], c, rs[j].specific));
        }
    }
}

/// Every observer, whatever earlier observers answered, is asked through
/// the event-specific method with the event's own data: its specific answer
/// is an answer of that method on arguments that carry exactly the event's
/// prefix, sequence number, message, key state, escrow, route and SAID.
pub proof fn lemma_emit_asks_every_observer_with_event_data(
    event: KeriEvent,
    observers: Seq<Arc<dyn KeriObserver + 'static>>,
    call: ObserverCall,
    rs: Seq<ObserverResponse>,
    j: int,
)
    requires
        routes_to(event, Some(call)),
        EventBus::answered_by(event, observers, Some(call), rs),
        0 <= j < observers.len(),
    ensures
        call_answer::<dyn KeriObserver + 'static>(&*observers[j], call, rs[j].specific),
        call_prefix(call) == event_prefix(event),
        call_sn(call) == event_sn(event),
        call_serder(call) == event_serder(event),
        call_state(call) == event_state(event),
        call_escrow(call) == event_escrow(event),
        call_message(call) == event_message(event),
{
    lemma_route_carries_event_data(event, call);
}

} // verus!
