use keri::{
    fold_response, route, EscrowType, EventAction, EventBus, KeriEvent, KeriObserver,
    KeyStateRecord, ObserverCall, ObserverResponse, SerderKERI,
};
use std::sync::atomic::{AtomicUsize, Ordering};
use std::sync::{Arc, Mutex};

struct CountingObserver {
    count: AtomicUsize,
}

impl CountingObserver {
    fn new() -> Self {
        Self {
            count: AtomicUsize::new(0),
        }
    }

    fn count(&self) -> usize {
        self.count.load(Ordering::SeqCst)
    }
}

impl KeriObserver for CountingObserver {
    fn on_event(&self, _event: &KeriEvent) -> EventAction {
        self.count.fetch_add(1, Ordering::SeqCst);
        EventAction::Continue
    }
}

struct HandlingObserver;

impl KeriObserver for HandlingObserver {
    fn on_exchange(&self, _route: &str, _said: &str) -> EventAction {
        EventAction::Handled
    }
}

/// Records every call it receives, and answers `Handled` from every
/// event-specific method.
struct RecordingObserver {
    calls: Mutex<Vec<String>>,
}

impl RecordingObserver {
    fn new() -> Self {
        Self {
            calls: Mutex::new(Vec::new()),
        }
    }

    fn note(&self, s: String) -> EventAction {
        self.calls.lock().unwrap().push(s);
        EventAction::Handled
    }

    fn calls(&self) -> Vec<String> {
        self.calls.lock().unwrap().clone()
    }
}

impl KeriObserver for RecordingObserver {
    fn on_event(&self, _event: &KeriEvent) -> EventAction {
        self.calls.lock().unwrap().push("event".to_string());
        EventAction::Continue
    }
    fn on_key_state_new(
        &self,
        prefix: &str,
        state: Option<&KeyStateRecord>,
        _serder: &SerderKERI,
    ) -> EventAction {
        self.note(format!("key_state_new {} {}", prefix, state.is_some()))
    }
    fn on_key_state_updated(
        &self,
        prefix: &str,
        state: Option<&KeyStateRecord>,
        _serder: &SerderKERI,
    ) -> EventAction {
        self.note(format!("key_state_updated {} {}", prefix, state.is_some()))
    }
    fn on_receipt_needed(&self, prefix: &str, _serder: &SerderKERI) -> EventAction {
        self.note(format!("receipt_needed {}", prefix))
    }
    fn on_event_notice(&self, prefix: &str, _serder: &SerderKERI) -> EventAction {
        self.note(format!("event_notice {}", prefix))
    }
    fn on_witness_needed(&self, prefix: &str, _serder: &SerderKERI) -> EventAction {
        self.note(format!("witness_needed {}", prefix))
    }
    fn on_exchange(&self, route: &str, said: &str) -> EventAction {
        self.note(format!("exchange {} {}", route, said))
    }
    fn on_reply(&self, route: &str, said: &str) -> EventAction {
        self.note(format!("reply {} {}", route, said))
    }
    fn on_escrowed(&self, prefix: &str, sn: u64, escrow_type: EscrowType) -> EventAction {
        self.note(format!("escrowed {} {} {}", prefix, sn, escrow_type.to_string()))
    }
    fn on_escrow_resolved(
        &self,
        prefix: &str,
        sn: u64,
        _serder: &SerderKERI,
        escrow_type: EscrowType,
    ) -> EventAction {
        self.note(format!("resolved {} {} {}", prefix, sn, escrow_type.to_string()))
    }
    fn on_escrow_timed_out(&self, prefix: &str, sn: u64, escrow_type: EscrowType) -> EventAction {
        self.note(format!("timed_out {} {} {}", prefix, sn, escrow_type.to_string()))
    }
    fn on_duplicitous(&self, prefix: &str, sn: u64) -> EventAction {
        self.note(format!("duplicitous {} {}", prefix, sn))
    }
}

struct CatchAllObserver;

impl KeriObserver for CatchAllObserver {
    fn on_event(&self, _event: &KeriEvent) -> EventAction {
        EventAction::Handled
    }
}

fn serder() -> SerderKERI {
    SerderKERI {
        raw: b"{\"v\":\"KERI10JSON\"}".to_vec(),
    }
}

fn record() -> KeyStateRecord {
    KeyStateRecord {
        i: "Eprefix".to_string(),
        s: "0".to_string(),
        d: "Edigest".to_string(),
    }
}

#[test]
fn test_event_bus_no_observers() {
    let bus = EventBus::new();
    assert!(bus.is_empty());
    let action = bus.emit(&KeriEvent::OutOfOrder {
        prefix: "test".to_string(),
        sn: 0,
    });
    assert_eq!(action, EventAction::Continue);
}

#[test]
fn test_event_bus_counting_observer() {
    let mut bus = EventBus::new();
    let observer = Arc::new(CountingObserver::new());
    bus.subscribe(observer.clone());

    bus.emit(&KeriEvent::OutOfOrder {
        prefix: "test".to_string(),
        sn: 0,
    });
    bus.emit(&KeriEvent::DuplicitousEvent {
        prefix: "test".to_string(),
        sn: 1,
    });

    assert_eq!(observer.count(), 2);
}

#[test]
fn test_event_bus_handled_action() {
    let mut bus = EventBus::new();
    bus.subscribe(Arc::new(HandlingObserver));

    // HandlingObserver returns Handled for ExchangeReceived
    let action = bus.emit(&KeriEvent::ExchangeReceived {
        route: "/test".to_string(),
        said: "SAID123".to_string(),
    });
    assert_eq!(action, EventAction::Handled);

    // But Continue for other events
    let action = bus.emit(&KeriEvent::OutOfOrder {
        prefix: "test".to_string(),
        sn: 0,
    });
    assert_eq!(action, EventAction::Continue);
}

#[test]
fn test_multiple_observers() {
    let mut bus = EventBus::new();
    let counter = Arc::new(CountingObserver::new());
    bus.subscribe(counter.clone());
    bus.subscribe(Arc::new(HandlingObserver));

    // Both observers see the event
    let action = bus.emit(&KeriEvent::ExchangeReceived {
        route: "/test".to_string(),
        said: "SAID123".to_string(),
    });

    assert_eq!(counter.count(), 1);
    assert_eq!(action, EventAction::Handled);
}

#[test]
fn test_escrow_type_display() {
    assert_eq!(EscrowType::OutOfOrder.to_string(), "out-of-order");
    assert_eq!(EscrowType::PartiallySigned.to_string(), "partially-signed");
    assert_eq!(
        EscrowType::LikelyDuplicitous.to_string(),
        "likely-duplicitous"
    );
}

#[test]
fn escrow_type_display_all_labels() {
    let cases = [
        (EscrowType::OutOfOrder, "out-of-order"),
        (EscrowType::PartiallySigned, "partially-signed"),
        (EscrowType::PartiallyWitnessed, "partially-witnessed"),
        (EscrowType::LikelyDuplicitous, "likely-duplicitous"),
        (EscrowType::UnverifiedWitnessReceipt, "unverified-witness-receipt"),
        (EscrowType::UnverifiedReceipt, "unverified-receipt"),
        (EscrowType::UnverifiedTransReceipt, "unverified-trans-receipt"),
        (EscrowType::KeyStateNotice, "key-state-notice"),
        (EscrowType::QueryNotFound, "query-not-found"),
    ];
    for (t, label) in cases {
        assert_eq!(t.to_string(), label);
    }
}

#[test]
fn fold_response_table() {
    let c = EventAction::Continue;
    let h = EventAction::Handled;
    let r = |g, s| ObserverResponse { general: g, specific: s };
    assert_eq!(fold_response(c, r(c, c)), c);
    assert_eq!(fold_response(h, r(c, c)), h);
    assert_eq!(fold_response(c, r(h, c)), h);
    assert_eq!(fold_response(c, r(c, h)), h);
    assert_eq!(fold_response(c, r(h, h)), h);
    assert_eq!(fold_response(h, r(h, c)), h);
}

#[test]
fn route_out_of_order_is_escrowed_as_out_of_order() {
    let event = KeriEvent::OutOfOrder {
        prefix: "Eabc".to_string(),
        sn: 7,
    };
    match route(&event) {
        Some(ObserverCall::Escrowed {
            prefix,
            sn,
            escrow_type,
        }) => {
            assert_eq!(prefix, "Eabc");
            assert_eq!(sn, 7);
            assert_eq!(escrow_type, EscrowType::OutOfOrder);
        }
        other => panic!("unexpected route {:?}", other),
    }
}

#[test]
fn route_missing_signature_keeps_escrow_type() {
    let event = KeriEvent::MissingSignature {
        prefix: "Eabc".to_string(),
        sn: 3,
        escrow_type: EscrowType::PartiallySigned,
    };
    match route(&event) {
        Some(ObserverCall::Escrowed {
            prefix,
            sn,
            escrow_type,
        }) => {
            assert_eq!(prefix, "Eabc");
            assert_eq!(sn, 3);
            assert_eq!(escrow_type, EscrowType::PartiallySigned);
        }
        other => panic!("unexpected route {:?}", other),
    }
}

#[test]
fn route_key_state_new_passes_state_and_serder() {
    let event = KeriEvent::KeyStateNew {
        prefix: "Eabc".to_string(),
        state: Some(record()),
        serder: serder(),
    };
    match route(&event) {
        Some(ObserverCall::KeyStateNew {
            prefix,
            state,
            serder: s,
        }) => {
            assert_eq!(prefix, "Eabc");
            assert_eq!(state, Some(&record()));
            assert_eq!(s, &serder());
        }
        other => panic!("unexpected route {:?}", other),
    }
}

#[test]
fn route_queries_have_no_handler() {
    let response = KeriEvent::QueryResponse {
        prefix: "Eabc".to_string(),
        serder: serder(),
    };
    assert!(route(&response).is_none());
    let not_found = KeriEvent::QueryNotFound {
        prefix: "Eabc".to_string(),
    };
    assert!(route(&not_found).is_none());
}

#[test]
fn emit_calls_the_specific_handler_after_on_event() {
    let mut bus = EventBus::new();
    let recorder = Arc::new(RecordingObserver::new());
    bus.subscribe(recorder.clone());
    let events = vec![
        KeriEvent::KeyStateNew {
            prefix: "A".to_string(),
            state: Some(record()),
            serder: serder(),
        },
        KeriEvent::KeyStateUpdated {
            prefix: "B".to_string(),
            state: None,
            serder: serder(),
        },
        KeriEvent::ReceiptNeeded {
            prefix: "C".to_string(),
            serder: serder(),
        },
        KeriEvent::EventNotice {
            prefix: "D".to_string(),
            serder: serder(),
        },
        KeriEvent::WitnessNeeded {
            prefix: "E".to_string(),
            serder: serder(),
        },
        KeriEvent::MissingSignature {
            prefix: "F".to_string(),
            sn: 1,
            escrow_type: EscrowType::PartiallyWitnessed,
        },
        KeriEvent::OutOfOrder {
            prefix: "G".to_string(),
            sn: 2,
        },
        KeriEvent::EscrowResolved {
            prefix: "H".to_string(),
            sn: 3,
            serder: serder(),
            escrow_type: EscrowType::UnverifiedReceipt,
        },
        KeriEvent::EscrowTimedOut {
            prefix: "I".to_string(),
            sn: 4,
            escrow_type: EscrowType::KeyStateNotice,
        },
        KeriEvent::ExchangeReceived {
            route: "/r".to_string(),
            said: "S1".to_string(),
        },
        KeriEvent::ReplyProcessed {
            route: "/p".to_string(),
            said: "S2".to_string(),
        },
        KeriEvent::DuplicitousEvent {
            prefix: "J".to_string(),
            sn: 5,
        },
    ];
    for event in &events {
        assert_eq!(bus.emit(event), EventAction::Handled);
    }
    let expected = vec![
        "event",
        "key_state_new A true",
        "event",
        "key_state_updated B false",
        "event",
        "receipt_needed C",
        "event",
        "event_notice D",
        "event",
        "witness_needed E",
        "event",
        "escrowed F 1 partially-witnessed",
        "event",
        "escrowed G 2 out-of-order",
        "event",
        "resolved H 3 unverified-receipt",
        "event",
        "timed_out I 4 key-state-notice",
        "event",
        "exchange /r S1",
        "event",
        "reply /p S2",
        "event",
        "duplicitous J 5",
    ];
    assert_eq!(recorder.calls(), expected);
}

#[test]
fn emit_queries_reach_only_on_event() {
    let mut bus = EventBus::new();
    let recorder = Arc::new(RecordingObserver::new());
    bus.subscribe(recorder.clone());
    let action = bus.emit(&KeriEvent::QueryNotFound {
        prefix: "X".to_string(),
    });
    assert_eq!(action, EventAction::Continue);
    let action = bus.emit(&KeriEvent::QueryResponse {
        prefix: "X".to_string(),
        serder: serder(),
    });
    assert_eq!(action, EventAction::Continue);
    assert_eq!(recorder.calls(), vec!["event", "event"]);
}

#[test]
fn emit_on_event_handled_alone_suffices() {
    let mut bus = EventBus::new();
    bus.subscribe(Arc::new(CatchAllObserver));
    let action = bus.emit(&KeriEvent::QueryNotFound {
        prefix: "X".to_string(),
    });
    assert_eq!(action, EventAction::Handled);
}

#[test]
fn emit_handled_is_not_undone_by_later_observers() {
    let mut bus = EventBus::new();
    let counter = Arc::new(CountingObserver::new());
    bus.subscribe(Arc::new(HandlingObserver));
    bus.subscribe(counter.clone());
    let action = bus.emit(&KeriEvent::ExchangeReceived {
        route: "/x".to_string(),
        said: "S".to_string(),
    });
    assert_eq!(action, EventAction::Handled);
    assert_eq!(counter.count(), 1);
}

#[test]
fn subscribe_counts_observers() {
    let mut bus = EventBus::default();
    assert!(bus.is_empty());
    assert_eq!(bus.observer_count(), 0);
    bus.subscribe(Arc::new(HandlingObserver));
    assert!(!bus.is_empty());
    assert_eq!(bus.observer_count(), 1);
    bus.subscribe(Arc::new(CatchAllObserver));
    assert_eq!(bus.observer_count(), 2);
}
