use crate::laws::lemma_combined_push;
use crate::records::{KeyStateRecord, SerderKERI};
use std::sync::Arc;
use vstd::prelude::*;

verus! {

/// Categorizes the type of escrow an event is held in.
#[derive(Debug, Clone, Copy, PartialEq, Eq, Structural)]
pub enum EscrowType {
    /// Out-of-order event
    OutOfOrder,
    /// Partially signed event
    PartiallySigned,
    /// Partially witnessed event
    PartiallyWitnessed,
    /// Likely duplicitous event
    LikelyDuplicitous,
    /// Unverified witness receipt
    UnverifiedWitnessReceipt,
    /// Unverified receipt
    UnverifiedReceipt,
    /// Unverified transferable receipt
    UnverifiedTransReceipt,
    /// Key state notice
    KeyStateNotice,
    /// Query not found
    QueryNotFound,
}

/// The text under which an escrow type is displayed.
pub open spec fn escrow_label(t: EscrowType) -> Seq<char> {
    match t {
        EscrowType::OutOfOrder => "out-of-order"@,
        EscrowType::PartiallySigned => "partially-signed"@,
        EscrowType::PartiallyWitnessed => "partially-witnessed"@,
        EscrowType::LikelyDuplicitous => "likely-duplicitous"@,
        EscrowType::UnverifiedWitnessReceipt => "unverified-witness-receipt"@,
        EscrowType::UnverifiedReceipt => "unverified-receipt"@,
        EscrowType::UnverifiedTransReceipt => "unverified-trans-receipt"@,
        EscrowType::KeyStateNotice => "key-state-notice"@,
        EscrowType::QueryNotFound => "query-not-found"@,
    }
}

impl EscrowType {
    /// The display text of this escrow type, such as `out-of-order`.
    pub fn to_string(&self) -> (s: String)
        ensures
            s@ == escrow_label(*self),
    {
        match self {
            EscrowType::OutOfOrder => "out-of-order".to_owned(),
            EscrowType::PartiallySigned => "partially-signed".to_owned(),
            EscrowType::PartiallyWitnessed => "partially-witnessed".to_owned(),
            EscrowType::LikelyDuplicitous => "likely-duplicitous".to_owned(),
            EscrowType::UnverifiedWitnessReceipt => "unverified-witness-receipt".to_owned(),
            EscrowType::UnverifiedReceipt => "unverified-receipt".to_owned(),
            EscrowType::UnverifiedTransReceipt => "unverified-trans-receipt".to_owned(),
            EscrowType::KeyStateNotice => "key-state-notice".to_owned(),
            EscrowType::QueryNotFound => "query-not-found".to_owned(),
        }
    }
}

/// Typed KERI events that flow from the library to the consumer.
/// Each variant carries exactly the data needed to act on it.
#[derive(Debug, Clone)]
pub enum KeriEvent {
    /// A new key state has been verified and accepted for a prefix.
    /// Fires after Kever creation on first inception.
    KeyStateNew { prefix: String, state: Option<KeyStateRecord>, serder: SerderKERI },
    /// An existing key state was updated (rotation, interaction).
    KeyStateUpdated { prefix: String, state: Option<KeyStateRecord>, serder: SerderKERI },
    /// A receipt is needed for a verified event.
    ReceiptNeeded { prefix: String, serder: SerderKERI },
    /// A notice of a new event that was accepted.
    EventNotice { prefix: String, serder: SerderKERI },
    /// Witness processing is needed for a locally-sourced event.
    WitnessNeeded { prefix: String, serder: SerderKERI },
    /// An event is missing required signatures and has been escrowed.
    MissingSignature { prefix: String, sn: u64, escrow_type: EscrowType },
    /// An out-of-order event was received and escrowed.
    OutOfOrder { prefix: String, sn: u64 },
    /// An escrowed event has been resolved (unescrowed successfully).
    EscrowResolved { prefix: String, sn: u64, serder: SerderKERI, escrow_type: EscrowType },
    /// An escrowed event timed out and was discarded.
    EscrowTimedOut { prefix: String, sn: u64, escrow_type: EscrowType },
    /// A new exchange message (exn) was received.
    ExchangeReceived { route: String, said: String },
    /// A reply message was processed.
    ReplyProcessed { route: String, said: String },
    /// A likely duplicitous event was detected.
    DuplicitousEvent { prefix: String, sn: u64 },
    /// A query response was received.
    QueryResponse { prefix: String, serder: SerderKERI },
    /// A query could not be fulfilled (no matching data found).
    QueryNotFound { prefix: String },
}

/// Controls whether the library proceeds with default handling after the callback.
#[derive(Debug, Clone, Copy, PartialEq, Eq, Structural)]
pub enum EventAction {
    /// Continue with default library behavior (e.g., auto-receipt generation).
    Continue,
    /// Suppress the default behavior; the consumer handles it.
    Handled,
}

/// The event-specific observer method that an event is delivered to, with
/// the arguments it is called with.
#[derive(Debug, Clone, Copy)]
pub enum ObserverCall<'a> {
    /// `on_key_state_new(prefix, state, serder)`
    KeyStateNew { prefix: &'a str, state: Option<&'a KeyStateRecord>, serder: &'a SerderKERI },
    /// `on_key_state_updated(prefix, state, serder)`
    KeyStateUpdated { prefix: &'a str, state: Option<&'a KeyStateRecord>, serder: &'a SerderKERI },
    /// `on_receipt_needed(prefix, serder)`
    ReceiptNeeded { prefix: &'a str, serder: &'a SerderKERI },
    /// `on_event_notice(prefix, serder)`
    EventNotice { prefix: &'a str, serder: &'a SerderKERI },
    /// `on_witness_needed(prefix, serder)`
    WitnessNeeded { prefix: &'a str, serder: &'a SerderKERI },
    /// `on_exchange(route, said)`
    Exchange { route: &'a str, said: &'a str },
    /// `on_reply(route, said)`
    Reply { route: &'a str, said: &'a str },
    /// `on_escrowed(prefix, sn, escrow_type)`
    Escrowed { prefix: &'a str, sn: u64, escrow_type: EscrowType },
    /// `on_escrow_resolved(prefix, sn, serder, escrow_type)`
    EscrowResolved { prefix: &'a str, sn: u64, serder: &'a SerderKERI, escrow_type: EscrowType },
    /// `on_escrow_timed_out(prefix, sn, escrow_type)`
    EscrowTimedOut { prefix: &'a str, sn: u64, escrow_type: EscrowType },
    /// `on_duplicitous(prefix, sn)`
    Duplicitous { prefix: &'a str, sn: u64 },
}

/// Whether an optional borrowed key state is the event's optional key state.
pub open spec fn same_state(a: Option<&KeyStateRecord>, b: Option<KeyStateRecord>) -> bool {
    match (a, b) {
        (None, None) => true,
        (Some(x), Some(y)) => *x == y,
        _ => false,
    }
}

/// Whether an event is delivered to some event-specific observer method;
/// query responses and unfulfilled queries are not.
pub open spec fn has_handler(event: KeriEvent) -> bool {
    !(event is QueryResponse || event is QueryNotFound)
}

/// `call` is the event-specific observer call that `event` is delivered as:
/// the method that the event's kind selects, with the event's own data.
pub open spec fn routes_to<'a>(event: KeriEvent, call: Option<ObserverCall<'a>>) -> bool {
    match event {
        KeriEvent::KeyStateNew { prefix, state, serder } => call matches Some(
            ObserverCall::KeyStateNew { prefix: p, state: s, serder: d },
        ) && p@ == prefix@ && same_state(s, state) && *d == serder,
        KeriEvent::KeyStateUpdated { prefix, state, serder } => call matches Some(
            ObserverCall::KeyStateUpdated { prefix: p, state: s, serder: d },
        ) && p@ == prefix@ && same_state(s, state) && *d == serder,
        KeriEvent::ReceiptNeeded { prefix, serder } => call matches Some(
            ObserverCall::ReceiptNeeded { prefix: p, serder: d },
        ) && p@ == prefix@ && *d == serder,
        KeriEvent::EventNotice { prefix, serder } => call matches Some(
            ObserverCall::EventNotice { prefix: p, serder: d },
        ) && p@ == prefix@ && *d == serder,
        KeriEvent::WitnessNeeded { prefix, serder } => call matches Some(
            ObserverCall::WitnessNeeded { prefix: p, serder: d },
        ) && p@ == prefix@ && *d == serder,
        KeriEvent::MissingSignature { prefix, sn, escrow_type } => call matches Some(
            ObserverCall::Escrowed { prefix: p, sn: n, escrow_type: t },
        ) && p@ == prefix@ && n == sn && t == escrow_type,
        KeriEvent::OutOfOrder { prefix, sn } => call matches Some(
            ObserverCall::Escrowed { prefix: p, sn: n, escrow_type: t },
        ) && p@ == prefix@ && n == sn && t == EscrowType::OutOfOrder,
        KeriEvent::EscrowResolved { prefix, sn, serder, escrow_type } => call matches Some(
            ObserverCall::EscrowResolved { prefix: p, sn: n, serder: d, escrow_type: t },
        ) && p@ == prefix@ && n == sn && *d == serder && t == escrow_type,
        KeriEvent::EscrowTimedOut { prefix, sn, escrow_type } => call matches Some(
            ObserverCall::EscrowTimedOut { prefix: p, sn: n, escrow_type: t },
        ) && p@ == prefix@ && n == sn && t == escrow_type,
        KeriEvent::ExchangeReceived { route, said } => call matches Some(
            ObserverCall::Exchange { route: r, said: s },
        ) && r@ == route@ && s@ == said@,
        KeriEvent::ReplyProcessed { route, said } => call matches Some(
            ObserverCall::Reply { route: r, said: s },
        ) && r@ == route@ && s@ == said@,
        KeriEvent::DuplicitousEvent { prefix, sn } => call matches Some(
            ObserverCall::Duplicitous { prefix: p, sn: n },
        ) && p@ == prefix@ && n == sn,
        KeriEvent::QueryResponse { .. } => call is None,
        KeriEvent::QueryNotFound { .. } => call is None,
    }
}

/// Selects the event-specific observer method that `event` is delivered to,
/// and the arguments it is called with; `None` where the event has none.
pub fn route<'a>(event: &'a KeriEvent) -> (call: Option<ObserverCall<'a>>)
    ensures
        routes_to(*event, call),
        call is Some <==> has_handler(*event),
{
    match event {
        KeriEvent::KeyStateNew { prefix, state, serder } => Some(
            ObserverCall::KeyStateNew { prefix: prefix.as_str(), state: state.as_ref(), serder },
        ),
        KeriEvent::KeyStateUpdated { prefix, state, serder } => Some(
            ObserverCall::KeyStateUpdated {
                prefix: prefix.as_str(),
                state: state.as_ref(),
                serder,
            },
        ),
        KeriEvent::ReceiptNeeded { prefix, serder } => Some(
            ObserverCall::ReceiptNeeded { prefix: prefix.as_str(), serder },
        ),
        KeriEvent::EventNotice { prefix, serder } => Some(
            ObserverCall::EventNotice { prefix: prefix.as_str(), serder },
        ),
        KeriEvent::WitnessNeeded { prefix, serder } => Some(
            ObserverCall::WitnessNeeded { prefix: prefix.as_str(), serder },
        ),
        KeriEvent::ExchangeReceived { route, said } => Some(
            ObserverCall::Exchange { route: route.as_str(), said: said.as_str() },
        ),
        KeriEvent::ReplyProcessed { route, said } => Some(
            ObserverCall::Reply { route: route.as_str(), said: said.as_str() },
        ),
        KeriEvent::MissingSignature { prefix, sn, escrow_type } => Some(
            ObserverCall::Escrowed { prefix: prefix.as_str(), sn: *sn, escrow_type: *escrow_type },
        ),
        KeriEvent::OutOfOrder { prefix, sn } => Some(
            ObserverCall::Escrowed {
                prefix: prefix.as_str(),
                sn: *sn,
                escrow_type: EscrowType::OutOfOrder,
            },
        ),
        KeriEvent::EscrowResolved { prefix, sn, serder, escrow_type } => Some(
            ObserverCall::EscrowResolved {
                prefix: prefix.as_str(),
                sn: *sn,
                serder,
                escrow_type: *escrow_type,
            },
        ),
        KeriEvent::EscrowTimedOut { prefix, sn, escrow_type } => Some(
            ObserverCall::EscrowTimedOut {
                prefix: prefix.as_str(),
                sn: *sn,
                escrow_type: *escrow_type,
            },
        ),
        KeriEvent::DuplicitousEvent { prefix, sn } => Some(
            ObserverCall::Duplicitous { prefix: prefix.as_str(), sn: *sn },
        ),
        KeriEvent::QueryResponse { .. } => None,
        KeriEvent::QueryNotFound { .. } => None,
    }
}

/// Trait that consumers implement to receive KERI events.
///
/// All methods have default no-op implementations, so consumers
/// only override the events they care about.
pub trait KeriObserver: Send + Sync {
    /// Called for every event. Override for catch-all logging/metrics.
    fn on_event(&self, _event: &KeriEvent) -> (action: EventAction)
        default_ensures
            action == EventAction::Continue,
    {
        EventAction::Continue
    }

    /// A new identifier's key state was established.
    fn on_key_state_new(
        &self,
        _prefix: &str,
        _state: Option<&KeyStateRecord>,
        _serder: &SerderKERI,
    ) -> (action: EventAction)
        default_ensures
            action == EventAction::Continue,
    {
        EventAction::Continue
    }

    /// An existing identifier's key state changed.
    fn on_key_state_updated(
        &self,
        _prefix: &str,
        _state: Option<&KeyStateRecord>,
        _serder: &SerderKERI,
    ) -> (action: EventAction)
        default_ensures
            action == EventAction::Continue,
    {
        EventAction::Continue
    }

    /// A receipt should be generated for a verified event.
    fn on_receipt_needed(&self, _prefix: &str, _serder: &SerderKERI) -> (action: EventAction)
        default_ensures
            action == EventAction::Continue,
    {
        EventAction::Continue
    }

    /// A notice of a new accepted event.
    fn on_event_notice(&self, _prefix: &str, _serder: &SerderKERI) -> (action: EventAction)
        default_ensures
            action == EventAction::Continue,
    {
        EventAction::Continue
    }

    /// Witness processing is needed for a locally-sourced event.
    fn on_witness_needed(&self, _prefix: &str, _serder: &SerderKERI) -> (action: EventAction)
        default_ensures
            action == EventAction::Continue,
    {
        EventAction::Continue
    }

    /// An exchange message was received.
    fn on_exchange(&self, _route: &str, _said: &str) -> (action: EventAction)
        default_ensures
            action == EventAction::Continue,
    {
        EventAction::Continue
    }

    /// A reply message was processed.
    fn on_reply(&self, _route: &str, _said: &str) -> (action: EventAction)
        default_ensures
            action == EventAction::Continue,
    {
        EventAction::Continue
    }

    /// An event was escrowed due to missing data.
    fn on_escrowed(&self, _prefix: &str, _sn: u64, _escrow_type: EscrowType) -> (action:
        EventAction)
        default_ensures
            action == EventAction::Continue,
    {
        EventAction::Continue
    }

    /// An escrowed event was successfully resolved.
    fn on_escrow_resolved(
        &self,
        _prefix: &str,
        _sn: u64,
        _serder: &SerderKERI,
        _escrow_type: EscrowType,
    ) -> (action: EventAction)
        default_ensures
            action == EventAction::Continue,
    {
        EventAction::Continue
    }

    /// An escrowed event timed out and was discarded.
    fn on_escrow_timed_out(&self, _prefix: &str, _sn: u64, _escrow_type: EscrowType) -> (action:
        EventAction)
        default_ensures
            action == EventAction::Continue,
    {
        EventAction::Continue
    }

    /// A likely duplicitous event was detected.
    fn on_duplicitous(&self, _prefix: &str, _sn: u64) -> (action: EventAction)
        default_ensures
            action == EventAction::Continue,
    {
        EventAction::Continue
    }
}

/// What one observer answered to one event: its catch-all `on_event`
/// answer, and its answer from the event-specific method (`Continue` where
/// the event has no such method).
#[derive(Debug, Clone, Copy, PartialEq, Eq, Structural)]
pub struct ObserverResponse {
    pub general: EventAction,
    pub specific: EventAction,
}

impl ObserverResponse {
    /// The observer handled the event in either of its answers.
    pub open spec fn handled(self) -> bool {
        self.general == EventAction::Handled || self.specific == EventAction::Handled
    }
}

/// The bus's answer to a sequence of observer responses: `Handled` exactly
/// when some observer handled the event.
pub open spec fn combined(rs: Seq<ObserverResponse>) -> EventAction {
    if exists|i: int| 0 <= i < rs.len() && #[trigger] rs[i].handled() {
        EventAction::Handled
    } else {
        EventAction::Continue
    }
}

/// Folds one observer's response into the answer so far: an observer that
/// handled the event makes the answer `Handled`; otherwise it stays.
pub fn fold_response(acc: EventAction, response: ObserverResponse) -> (r: EventAction)
    ensures
        r == (if response.handled() {
            EventAction::Handled
        } else {
            acc
        }),
{
    let mut result = acc;
    if response.general == EventAction::Handled {
        result = EventAction::Handled;
    }
    if response.specific == EventAction::Handled {
        result = EventAction::Handled;
    }
    result
}

/// `a` is an answer that `o`'s `on_event` gives to `event`.
pub open spec fn event_answer<O: KeriObserver + ?Sized>(
    o: &O,
    event: KeriEvent,
    a: EventAction,
) -> bool {
    call_ensures(O::on_event, (o, &event), a)
}

/// `a` is an answer that the observer method `call` names gives when `o`
/// is called with `call`'s arguments.
pub open spec fn call_answer<O: KeriObserver + ?Sized>(
    o: &O,
    call: ObserverCall,
    a: EventAction,
) -> bool {
    match call {
        ObserverCall::KeyStateNew { prefix, state, serder } => call_ensures(
            O::on_key_state_new,
            (o, prefix, state, serder),
            a,
        ),
        ObserverCall::KeyStateUpdated { prefix, state, serder } => call_ensures(
            O::on_key_state_updated,
            (o, prefix, state, serder),
            a,
        ),
        ObserverCall::ReceiptNeeded { prefix, serder } => call_ensures(
            O::on_receipt_needed,
            (o, prefix, serder),
            a,
        ),
        ObserverCall::EventNotice { prefix, serder } => call_ensures(
            O::on_event_notice,
            (o, prefix, serder),
            a,
        ),
        ObserverCall::WitnessNeeded { prefix, serder } => call_ensures(
            O::on_witness_needed,
            (o, prefix, serder),
            a,
        ),
        ObserverCall::Exchange { route, said } => call_ensures(O::on_exchange, (o, route, said), a),
        ObserverCall::Reply { route, said } => call_ensures(O::on_reply, (o, route, said), a),
        ObserverCall::Escrowed { prefix, sn, escrow_type } => call_ensures(
            O::on_escrowed,
            (o, prefix, sn, escrow_type),
            a,
        ),
        ObserverCall::EscrowResolved { prefix, sn, serder, escrow_type } => call_ensures(
            O::on_escrow_resolved,
            (o, prefix, sn, serder, escrow_type),
            a,
        ),
        ObserverCall::EscrowTimedOut { prefix, sn, escrow_type } => call_ensures(
            O::on_escrow_timed_out,
            (o, prefix, sn, escrow_type),
            a,
        ),
        ObserverCall::Duplicitous { prefix, sn } => call_ensures(
            O::on_duplicitous,
            (o, prefix, sn),
            a,
        ),
    }
}

/// Asks `observer` through its catch-all `on_event`.
fn ask_event<O: KeriObserver + ?Sized>(observer: &O, event: &KeriEvent) -> (action: EventAction)
    ensures
        event_answer(observer, *event, action),
{
    let f = O::on_event;
    f(observer, event)
}

/// Calls the observer method that `call` names, with its arguments, and
/// answers what that method answered.
fn deliver<O: KeriObserver + ?Sized>(observer: &O, call: &ObserverCall) -> (action: EventAction)
    ensures
        call_answer(observer, *call, action),
{
    match call {
        ObserverCall::KeyStateNew { prefix, state, serder } => {
            let f = O::on_key_state_new;
            f(observer, prefix, *state, serder)
        },
        ObserverCall::KeyStateUpdated { prefix, state, serder } => {
            let f = O::on_key_state_updated;
            f(observer, prefix, *state, serder)
        },
        ObserverCall::ReceiptNeeded { prefix, serder } => {
            let f = O::on_receipt_needed;
            f(observer, prefix, serder)
        },
        ObserverCall::EventNotice { prefix, serder } => {
            let f = O::on_event_notice;
            f(observer, prefix, serder)
        },
        ObserverCall::WitnessNeeded { prefix, serder } => {
            let f = O::on_witness_needed;
            f(observer, prefix, serder)
        },
        ObserverCall::Exchange { route, said } => {
            let f = O::on_exchange;
            f(observer, route, said)
        },
        ObserverCall::Reply { route, said } => {
            let f = O::on_reply;
            f(observer, route, said)
        },
        ObserverCall::Escrowed { prefix, sn, escrow_type } => {
            let f = O::on_escrowed;
            f(observer, prefix, *sn, *escrow_type)
        },
        ObserverCall::EscrowResolved { prefix, sn, serder, escrow_type } => {
            let f = O::on_escrow_resolved;
            f(observer, prefix, *sn, serder, *escrow_type)
        },
        ObserverCall::EscrowTimedOut { prefix, sn, escrow_type } => {
            let f = O::on_escrow_timed_out;
            f(observer, prefix, *sn, *escrow_type)
        },
        ObserverCall::Duplicitous { prefix, sn } => {
            let f = O::on_duplicitous;
            f(observer, prefix, *sn)
        },
    }
}

/// Appends `item` to `items`; the item comes first so that its type fixes
/// the element type.
fn append<T>(item: T, items: &mut Vec<T>)
    ensures
        final(items)@ == old(items)@.push(item),
{
    items.push(item);
}

/// Distributes KeriEvents to registered observers.
/// Thread-safe, can be shared via Arc across Kevery, Parser, Revery.
pub struct EventBus {
    observers: Vec<Arc<dyn KeriObserver + 'static>>,
}

impl View for EventBus {
    type V = Seq<Arc<dyn KeriObserver + 'static>>;

    /// The registered observers, in the order they subscribed.
    closed spec fn view(&self) -> Seq<Arc<dyn KeriObserver + 'static>> {
        self.observers@
    }
}

impl EventBus {
    /// `rs` accounts for an emission of `event` to `n` observers that
    /// answered `result`: one response per observer, no event-specific
    /// answer where the event has no event-specific method, and `result`
    /// is `Handled` exactly when some observer handled the event.
    pub open spec fn accounts_for(
        event: KeriEvent,
        n: nat,
        rs: Seq<ObserverResponse>,
        result: EventAction,
    ) -> bool {
        &&& rs.len() == n
        &&& !has_handler(event) ==> forall|j: int|
            0 <= j < rs.len() ==> #[trigger] rs[j].specific == EventAction::Continue
        &&& result == combined(rs)
    }

    /// `rs` are the answers that `observers` gave to `event`, delivered as
    /// `call`: each observer's `on_event` answer, and the answer of the
    /// event-specific method that `call` names, called with `call`'s
    /// arguments (`Continue` where there is no such method).
    pub open spec fn answered_by(
        event: KeriEvent,
        observers: Seq<Arc<dyn KeriObserver + 'static>>,
        call: Option<ObserverCall>,
        rs: Seq<ObserverResponse>,
    ) -> bool {
        &&& rs.len() == observers.len()
        &&& forall|j: int|
            0 <= j < rs.len() ==> event_answer::<dyn KeriObserver + 'static>(
                &*observers[j],
                event,
                #[trigger] rs[j].general,
            )
        &&& forall|j: int|
            0 <= j < rs.len() ==> match call {
                Some(c) => call_answer::<dyn KeriObserver + 'static>(
                    &*observers[j],
                    c,
                    #[trigger] rs[j].specific,
                ),
                None => rs[j].specific == EventAction::Continue,
            }
    }

    /// A bus with no observers.
    pub fn new() -> (bus: Self)
        ensures
            bus@ == Seq::<Arc<dyn KeriObserver + 'static>>::empty(),
    {
        Self { observers: Vec::new() }
    }

    /// Register an observer to receive events.
    pub fn subscribe(&mut self, observer: Arc<dyn KeriObserver + 'static>)
        ensures
            final(self)@.len() == old(self)@.len() + 1,
            final(self)@.drop_last() == old(self)@,
            final(self)@.last() == observer,
    {
        append(observer, &mut self.observers);
    }

    /// Emit an event to all observers. Returns `Handled` if any observer handled it.
    ///
    /// Each observer, in subscription order, is asked first through `on_event`
    /// and then through the event-specific method that `route` selects.
    pub fn emit(&self, event: &KeriEvent) -> (result: EventAction)
        ensures
            exists|call: Option<ObserverCall>, rs: Seq<ObserverResponse>|
                #![trigger Self::answered_by(*event, self@, call, rs)]
                routes_to(*event, call) && Self::accounts_for(*event, self@.len(), rs, result)
                    && Self::answered_by(*event, self@, call, rs),
    {
        let call = route(event);
        let mut result = EventAction::Continue;
        let ghost mut rs: Seq<ObserverResponse> = Seq::empty();
        let n = self.observers.len();
        let mut i: usize = 0;
        while i < n
            invariant
                n == self.observers.len(),
                i <= n,
                rs.len() == i,
                call is Some <==> has_handler(*event),
                !has_handler(*event) ==> forall|j: int|
                    0 <= j < rs.len() ==> #[trigger] rs[j].specific == EventAction::Continue,
                result == combined(rs),
                routes_to(*event, call),
                forall|j: int|
                    0 <= j < rs.len() ==> event_answer::<dyn KeriObserver + 'static>(
                        &*self@[j],
                        *event,
                        #[trigger] rs[j].general,
                    ),
                forall|j: int|
                    0 <= j < rs.len() ==> match call {
                        Some(c) => call_answer::<dyn KeriObserver + 'static>(
                            &*self@[j],
                            c,
                            #[trigger] rs[j].specific,
                        ),
                        None => rs[j].specific == EventAction::Continue,
                    },
            decreases n - i,
        {
            let observer = &self.observers[i];
            let general = ask_event::<dyn KeriObserver + 'static>(&**observer, event);
            let specific = match &call {
                Some(c) => deliver::<dyn KeriObserver + 'static>(&**observer, c),
                None => EventAction::Continue,
            };
            let response = ObserverResponse { general, specific };
            result = fold_response(result, response);
            proof {
                lemma_combined_push(rs, response);
                let ghost prev = rs;
                rs = rs.push(response);
                assert(forall|j: int| 0 <= j < prev.len() ==> rs[j] == prev[j]);
                assert(rs[i as int] == response);
            }
            i = i + 1;
        }
        assert(Self::accounts_for(*event, self@.len(), rs, result));
        assert(Self::answered_by(*event, self@, call, rs));
        result
    }

    /// Returns true if there are no registered observers.
    pub fn is_empty(&self) -> (b: bool)
        ensures
            b == (self@.len() == 0),
    {
        self.observers.len() == 0
    }

    /// The number of registered observers.
    pub fn observer_count(&self) -> (n: usize)
        ensures
            n == self@.len(),
    {
        self.observers.len()
    }
}

impl Default for EventBus {
    fn default() -> (bus: Self)
        ensures
            bus@ == Seq::<Arc<dyn KeriObserver + 'static>>::empty(),
    {
        Self::new()
    }
}

} // verus!
