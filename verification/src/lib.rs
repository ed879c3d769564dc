//! KERI (Key Event Receipt Infrastructure): the typed event bus through which
//! the library hands key-state, escrow and receipt events to its consumers,
//! and the initialisation of the cryptographic backend.

mod errors;
mod events;
mod laws;
mod records;
mod sodium;

pub use crate::errors::Error;
pub use crate::events::{
    call_answer, combined, escrow_label, event_answer, fold_response, has_handler, route, routes_to, EscrowType, EventAction,
    EventBus, KeriEvent, KeriObserver, ObserverCall, ObserverResponse,
};
pub use crate::laws::{
    lemma_combined_all_continue, lemma_combined_empty, lemma_combined_handled_absorbing,
    lemma_combined_push, lemma_emit_asks_every_observer_with_event_data,
    lemma_emit_continue_when_none_handles, lemma_emit_handled_by_on_event,
    lemma_emit_handled_by_specific, lemma_empty_bus_continues, lemma_query_answer_is_on_event,
    lemma_route_carries_event_data,
};
pub use crate::records::{KeyStateRecord, SerderKERI};
pub use crate::sodium::{init, init_outcome};
