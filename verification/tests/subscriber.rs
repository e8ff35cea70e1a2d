use std::sync::{Arc, Mutex};
use zenoh_sub::config::SubscriberConfig;
use zenoh_sub::deferred::{Deferred, Poll};
use zenoh_sub::handler::{
    bounded_handler, settle, Delivery, IntoHandler, SendOutcome, API_DATA_RECEPTION_CHANNEL_SIZE,
};
use zenoh_sub::info::{Period, Reliability, SubInfo, SubMode};
use zenoh_sub::sample::Sample;
use zenoh_sub::session::{Declaration, Request, SubscriberState};
use zenoh_sub::subscriber::{
    CallbackSubscriber, HandlerSubscriber, HandlerSubscriberBuilder, SubscriberBuilder,
};

/// What a session saw of the calls made on it.
#[derive(Debug, PartialEq, Eq)]
enum Call {
    Declare(String, SubInfo),
    DeclareLocal(String),
    Undeclare(usize),
    Pull(String),
}

/// A session that records every call and accepts every declaration, unless
/// told to refuse.
struct RecordingSession {
    calls: Vec<Call>,
    next_id: usize,
    refuse: bool,
}

impl RecordingSession {
    fn new() -> Self {
        RecordingSession { calls: Vec::new(), next_id: 1, refuse: false }
    }

    fn declare<C>(&mut self, declaration: Declaration<C>) -> (Result<SubscriberState, String>, C) {
        let (key_expr, consumer) = match declaration {
            Declaration::Subscriber { key_expr, consumer, info } => {
                self.calls.push(Call::Declare(key_expr.clone(), info));
                (key_expr, consumer)
            }
            Declaration::LocalSubscriber { key_expr, consumer } => {
                self.calls.push(Call::DeclareLocal(key_expr.clone()));
                (key_expr, consumer)
            }
        };
        if self.refuse {
            return (Err(format!("cannot declare {}", key_expr)), consumer);
        }
        let id = self.next_id;
        self.next_id += 1;
        (Ok(SubscriberState { id, key_expr }), consumer)
    }

    fn perform(&mut self, request: Request) {
        match request {
            Request::UndeclareSubscriber { id } => self.calls.push(Call::Undeclare(id)),
            Request::Pull { key_expr } => self.calls.push(Call::Pull(key_expr)),
        }
    }
}

fn sample(key: &str, value: u8) -> Sample {
    Sample { key_expr: key.to_string(), value: vec![value] }
}

fn period() -> Period {
    Period { origin: 0, period: 10, duration: 2 }
}

#[test]
fn new_builder_has_the_defaults() {
    let b = SubscriberBuilder::new("a/b".to_string(), Reliability::Reliable);
    assert_eq!(b.configuration().key_expr, "a/b");
    assert_eq!(b.configuration().reliability, Reliability::Reliable);
    assert_eq!(b.configuration().mode, SubMode::Push);
    assert_eq!(b.configuration().period, None);
    assert!(!b.configuration().local);
    assert!(b.is_pending());
    assert_eq!(
        *b.configuration(),
        SubscriberConfig::new("a/b".to_string(), Reliability::Reliable)
    );
}

#[test]
fn setters_change_one_field() {
    let b = SubscriberBuilder::new("a/b".to_string(), Reliability::Reliable);
    assert_eq!(
        b.clone().best_effort().configuration().reliability,
        Reliability::BestEffort
    );
    assert_eq!(
        b.clone().best_effort().reliable().configuration().reliability,
        Reliability::Reliable
    );
    assert_eq!(
        b.clone().reliability(Reliability::BestEffort).configuration().reliability,
        Reliability::BestEffort
    );
    assert_eq!(b.clone().pull_mode().configuration().mode, SubMode::Pull);
    assert_eq!(b.clone().mode(SubMode::Pull).configuration().mode, SubMode::Pull);
    assert_eq!(
        b.clone().period(Some(period())).configuration().period,
        Some(period())
    );
    assert!(b.clone().local().configuration().local);
    let c = b.clone().pull_mode().period(Some(period())).local().best_effort();
    assert!(c.is_pending());
    assert_eq!(
        *c.configuration(),
        SubscriberConfig {
            key_expr: "a/b".to_string(),
            reliability: Reliability::BestEffort,
            mode: SubMode::Pull,
            period: Some(period()),
            local: true,
        }
    );
}

#[test]
fn configuration_setters_change_one_option() {
    let c = SubscriberConfig::new("a/b".to_string(), Reliability::BestEffort);
    assert_eq!(c.clone().reliability(Reliability::Reliable).reliability, Reliability::Reliable);
    assert_eq!(c.clone().mode(SubMode::Pull).mode, SubMode::Pull);
    assert_eq!(c.clone().period(Some(period())).period, Some(period()));
    assert_eq!(c.clone().period(Some(period())).mode(SubMode::Push).period, None);
    assert_eq!(
        c.clone().period(Some(period())).mode(SubMode::Pull).period,
        Some(period())
    );
    assert!(c.clone().local().local);
    assert_eq!(
        c.clone().mode(SubMode::Pull).period(Some(period())).sub_info(),
        SubInfo { reliability: Reliability::BestEffort, mode: SubMode::Pull, period: Some(period()) }
    );
    assert!(matches!(
        c.clone().declare(7u8),
        Declaration::Subscriber { ref key_expr, consumer: 7, ref info }
            if key_expr == "a/b" && *info == c.sub_info()
    ));
    assert!(matches!(
        c.local().declare(7u8),
        Declaration::LocalSubscriber { ref key_expr, consumer: 7 } if key_expr == "a/b"
    ));
}

#[test]
fn push_mode_clears_the_period() {
    let b = SubscriberBuilder::new("a/b".to_string(), Reliability::Reliable);
    assert_eq!(b.configuration().mode, SubMode::Push);
    let with_period = b.period(Some(period()));
    assert_eq!(with_period.configuration().period, Some(period()));
    let again = with_period.clone().mode(SubMode::Push);
    assert_eq!(again.configuration().mode, SubMode::Push);
    assert_eq!(again.configuration().period, None);
    assert_eq!(with_period.clone().push_mode().configuration().period, None);
    assert_eq!(
        with_period
            .clone()
            .pull_mode()
            .period(Some(period()))
            .push_mode()
            .configuration()
            .period,
        None
    );
    assert_eq!(with_period.pull_mode().configuration().period, Some(period()));
}

#[test]
fn push_mode_clears_the_period_of_specialised_builders() {
    let b = SubscriberBuilder::new("a/b".to_string(), Reliability::Reliable);
    let cb = b.clone().callback(|_s: Sample| {}).period(Some(period())).mode(SubMode::Push);
    assert_eq!(cb.configuration().period, None);
    let cb = cb.pull_mode().period(Some(period()));
    assert_eq!(cb.configuration().period, Some(period()));
    assert_eq!(cb.push_mode().configuration().period, None);
    let hb = b.with(flume::bounded::<Sample>(1)).period(Some(period())).push_mode();
    assert_eq!(hb.configuration().period, None);
    assert_eq!(hb.configuration().mode, SubMode::Push);
}

#[test]
fn callback_builder_declares_exactly_once() {
    let mut session = RecordingSession::new();
    let mut builder = SubscriberBuilder::new("a/b".to_string(), Reliability::Reliable)
        .callback(|_s: Sample| {})
        .pull_mode()
        .period(Some(period()));
    assert!(builder.is_pending());
    let declaration = builder.run();
    assert!(!builder.is_pending());
    let (outcome, _consumer) = session.declare(declaration);
    let handle = CallbackSubscriber::declared(outcome).unwrap();
    assert!(handle.is_alive());
    assert_eq!(handle.id(), 1);
    assert_eq!(handle.key_expr(), "a/b");
    assert_eq!(
        session.calls,
        vec![Call::Declare(
            "a/b".to_string(),
            SubInfo {
                reliability: Reliability::Reliable,
                mode: SubMode::Pull,
                period: Some(period()),
            }
        )]
    );
}

#[test]
fn wait_and_poll_resolve_as_run_does() {
    let b = SubscriberBuilder::new("a/b".to_string(), Reliability::BestEffort);
    let by_wait = b.clone().callback(|_s: Sample| {}).wait();
    assert!(matches!(
        by_wait,
        Declaration::Subscriber { ref key_expr, ref info, .. }
            if key_expr == "a/b" && info.mode == SubMode::Push && info.period.is_none()
    ));
    let mut builder = b.clone().local().callback(|_s: Sample| {});
    match builder.poll() {
        Poll::Ready(Declaration::LocalSubscriber { key_expr, .. }) => assert_eq!(key_expr, "a/b"),
        _ => panic!("a poll step reports the local declaration at once"),
    }
    assert!(!builder.is_pending());
    let mut handler_builder = b.with(flume::bounded::<Sample>(2));
    match handler_builder.poll() {
        Poll::Ready(registration) => {
            assert!(matches!(registration.declaration, Declaration::Subscriber { .. }))
        }
        Poll::Pending => panic!("a poll step never reports pending"),
    }
    assert!(!handler_builder.is_pending());
}

#[test]
fn refused_declaration_gives_no_handle() {
    let mut session = RecordingSession::new();
    session.refuse = true;
    let mut builder =
        SubscriberBuilder::new("bad key".to_string(), Reliability::Reliable).callback(|_s: Sample| {});
    let (outcome, _consumer) = session.declare(builder.run());
    let refused = CallbackSubscriber::declared(outcome);
    assert_eq!(refused.err(), Some("cannot declare bad key".to_string()));
    let (consumer, receiver) = bounded_handler(1);
    let mut builder = HandlerSubscriberBuilder::new(
        SubscriberConfig::new("bad key".to_string(), Reliability::Reliable),
        consumer,
        receiver,
    );
    let registration = builder.run();
    let (outcome, _consumer) = session.declare(registration.declaration);
    let refused = HandlerSubscriber::declared(outcome, registration.receiver);
    assert_eq!(refused.err(), Some("cannot declare bad key".to_string()));
    assert_eq!(session.calls.len(), 2);
}

#[test]
fn close_undeclares_exactly_once() {
    let mut session = RecordingSession::new();
    let mut builder =
        SubscriberBuilder::new("a/b".to_string(), Reliability::Reliable).callback(|_s: Sample| {});
    let (outcome, _consumer) = session.declare(builder.run());
    let handle = CallbackSubscriber::declared(outcome).unwrap();
    let id = handle.id();
    let mut action = handle.close();
    assert!(action.is_pending());
    session.perform(action.run());
    assert!(!action.is_pending());
    assert_eq!(
        session.calls.iter().filter(|c| **c == Call::Undeclare(id)).count(),
        1
    );
}

#[test]
fn released_handle_undeclares_no_more() {
    let mut handle =
        CallbackSubscriber::declared::<String>(Ok(SubscriberState { id: 7, key_expr: "a".to_string() }))
            .unwrap();
    assert_eq!(handle.release(), Some(Request::UndeclareSubscriber { id: 7 }));
    assert!(!handle.is_alive());
    assert_eq!(handle.release(), None);
    assert_eq!(handle.id(), 7);
    let action = handle.close();
    assert!(!action.is_pending());
}

#[test]
fn two_handles_on_one_record_with_one_alive() {
    let state = SubscriberState { id: 3, key_expr: "a".to_string() };
    let first = CallbackSubscriber::declared::<String>(Ok(state.clone())).unwrap();
    let mut second = CallbackSubscriber::declared::<String>(Ok(state)).unwrap();
    assert_eq!(second.release(), Some(Request::UndeclareSubscriber { id: 3 }));
    assert!(first.is_alive() && !second.is_alive());
    let mut requests = Vec::new();
    let mut a = first.close();
    if a.is_pending() {
        requests.push(a.run());
    }
    let mut b = second.close();
    if b.is_pending() {
        requests.push(b.run());
    }
    assert_eq!(requests, vec![Request::UndeclareSubscriber { id: 3 }]);
}

#[test]
fn handler_overflow_drops_without_blocking() {
    let n: u8 = 4;
    let (consumer, receiver) = bounded_handler(n as usize);
    for i in 0..n {
        assert_eq!(consumer.deliver(sample("k", i)), Delivery::Delivered);
    }
    assert_eq!(consumer.deliver(sample("k", n)), Delivery::DroppedFull);
    for i in 0..n {
        assert_eq!(receiver.try_recv(), Ok(sample("k", i)));
    }
    assert_eq!(receiver.try_recv(), Err(flume::TryRecvError::Empty));
    assert_eq!(consumer.deliver(sample("k", 9)), Delivery::Delivered);
    assert_eq!(receiver.try_recv(), Ok(sample("k", 9)));
}

#[test]
fn delivery_to_a_dropped_receiver_is_no_error() {
    let (consumer, receiver) = bounded_handler(2);
    drop(receiver);
    assert_eq!(consumer.deliver(sample("k", 1)), Delivery::DroppedDisconnected);
    assert_eq!(consumer.deliver(sample("k", 2)), Delivery::DroppedDisconnected);
}

#[test]
fn settle_names_each_outcome() {
    assert_eq!(settle(SendOutcome::Sent), Delivery::Delivered);
    assert_eq!(settle(SendOutcome::Full(sample("k", 1))), Delivery::DroppedFull);
    assert_eq!(
        settle(SendOutcome::Disconnected(sample("k", 1))),
        Delivery::DroppedDisconnected
    );
}

#[test]
fn into_handler_keeps_both_ends_of_the_channel() {
    let (consumer, receiver) = flume::bounded::<Sample>(1).into_handler();
    assert_eq!(consumer.deliver(sample("k", 5)), Delivery::Delivered);
    assert_eq!(receiver.try_recv(), Ok(sample("k", 5)));
}

#[test]
fn local_subscription_uses_the_local_entry_only() {
    let mut session = RecordingSession::new();
    let mut builder = SubscriberBuilder::new("a/b".to_string(), Reliability::Reliable)
        .pull_mode()
        .local()
        .callback(|_s: Sample| {});
    let (outcome, _consumer) = session.declare(builder.run());
    let handle = CallbackSubscriber::declared(outcome).unwrap();
    let mut builder = SubscriberBuilder::new("c/d".to_string(), Reliability::Reliable)
        .local()
        .with(flume::bounded::<Sample>(1));
    let registration = builder.run();
    let (outcome, _consumer) = session.declare(registration.declaration);
    let subscriber = HandlerSubscriber::declared(outcome, registration.receiver).unwrap();
    assert_eq!(subscriber.subscriber.key_expr(), "c/d");
    drop(handle);
    assert_eq!(
        session.calls,
        vec![Call::DeclareLocal("a/b".to_string()), Call::DeclareLocal("c/d".to_string())]
    );
}

#[test]
fn scenario_push_callback_subscription() {
    let mut session = RecordingSession::new();
    let seen: Arc<Mutex<Vec<Sample>>> = Arc::new(Mutex::new(Vec::new()));
    let sink = seen.clone();
    let mut builder = SubscriberBuilder::new("sensor/temp".to_string(), Reliability::Reliable)
        .push_mode()
        .best_effort()
        .callback(move |s: Sample| sink.lock().unwrap().push(s));
    let (outcome, mut consumer) = session.declare(builder.run());
    let mut handle = CallbackSubscriber::declared(outcome).unwrap();
    assert!(handle.is_alive());
    assert_eq!(
        session.calls,
        vec![Call::Declare(
            "sensor/temp".to_string(),
            SubInfo { reliability: Reliability::BestEffort, mode: SubMode::Push, period: None }
        )]
    );
    consumer(sample("sensor/temp", 42));
    assert_eq!(*seen.lock().unwrap(), vec![sample("sensor/temp", 42)]);
    if let Some(request) = handle.release() {
        session.perform(request);
    }
    if let Some(request) = handle.release() {
        session.perform(request);
    }
    assert_eq!(
        session.calls.iter().filter(|c| matches!(c, Call::Undeclare(_))).count(),
        1
    );
    assert_eq!(session.calls.last(), Some(&Call::Undeclare(handle.id())));
}

#[test]
fn scenario_pull_twice() {
    let mut session = RecordingSession::new();
    let seen: Arc<Mutex<Vec<Sample>>> = Arc::new(Mutex::new(Vec::new()));
    let sink = seen.clone();
    let mut builder = SubscriberBuilder::new("sensor/temp".to_string(), Reliability::Reliable)
        .pull_mode()
        .callback(move |s: Sample| sink.lock().unwrap().push(s));
    let (outcome, _consumer) = session.declare(builder.run());
    let handle = CallbackSubscriber::declared(outcome).unwrap();
    assert_eq!(
        session.calls,
        vec![Call::Declare(
            "sensor/temp".to_string(),
            SubInfo { reliability: Reliability::Reliable, mode: SubMode::Pull, period: None }
        )]
    );
    session.perform(handle.pull().wait());
    session.perform(handle.pull().wait());
    assert_eq!(
        session.calls[1..],
        [Call::Pull("sensor/temp".to_string()), Call::Pull("sensor/temp".to_string())]
    );
    assert!(seen.lock().unwrap().is_empty());
    assert!(handle.is_alive());
}

#[test]
fn handler_subscriber_pulls_and_closes_through_its_handle() {
    let mut session = RecordingSession::new();
    let mut builder = SubscriberBuilder::new("a/b".to_string(), Reliability::Reliable)
        .with(flume::bounded::<Sample>(3))
        .pull_mode();
    let registration = builder.run();
    assert!(!builder.is_pending());
    let (outcome, consumer) = session.declare(registration.declaration);
    let subscriber = HandlerSubscriber::declared(outcome, registration.receiver).unwrap();
    session.perform(subscriber.pull().wait());
    assert_eq!(consumer.deliver(sample("a/b", 1)), Delivery::Delivered);
    assert_eq!(consumer.deliver(sample("a/b", 2)), Delivery::Delivered);
    assert_eq!(subscriber.try_recv(), Ok(sample("a/b", 1)));
    assert_eq!(subscriber.receiver().try_recv(), Ok(sample("a/b", 2)));
    let id = subscriber.subscriber.id();
    session.perform(subscriber.close().wait());
    assert_eq!(session.calls[1..], [Call::Pull("a/b".to_string()), Call::Undeclare(id)]);
    assert_eq!(consumer.deliver(sample("a/b", 3)), Delivery::DroppedDisconnected);
}

#[test]
fn default_handler_has_the_default_capacity() {
    let mut builder = SubscriberBuilder::new("a/b".to_string(), Reliability::Reliable).pull_mode();
    let other = builder.clone();
    assert!(builder.is_pending());
    let registration = builder.run();
    assert!(!builder.is_pending());
    assert_eq!(builder.configuration().mode, SubMode::Pull);
    let consumer = match registration.declaration {
        Declaration::Subscriber { key_expr, consumer, info } => {
            assert_eq!(key_expr, "a/b");
            assert_eq!(info.mode, SubMode::Pull);
            consumer
        }
        Declaration::LocalSubscriber { .. } => panic!("the builder is not local"),
    };
    assert_eq!(registration.receiver.capacity(), Some(API_DATA_RECEPTION_CHANNEL_SIZE));
    for i in 0..API_DATA_RECEPTION_CHANNEL_SIZE {
        assert_eq!(consumer.deliver(sample("a/b", (i % 256) as u8)), Delivery::Delivered);
    }
    assert_eq!(consumer.deliver(sample("a/b", 0)), Delivery::DroppedFull);
    assert_eq!(registration.receiver.len(), API_DATA_RECEPTION_CHANNEL_SIZE);
    assert_eq!(registration.receiver.try_recv(), Ok(sample("a/b", 0)));
    let by_wait = other.clone().local().wait();
    assert!(by_wait.receiver.is_empty());
    assert!(matches!(by_wait.declaration, Declaration::LocalSubscriber { .. }));
    let mut polled = other;
    assert!(matches!(polled.poll(), Poll::Ready(_)));
    assert!(!polled.is_pending());
}

#[test]
fn default_handler_reads_what_its_consumer_is_fed() {
    let mut builder = SubscriberBuilder::new("a/b".to_string(), Reliability::Reliable);
    let registration = builder.run();
    let consumer = match registration.declaration {
        Declaration::Subscriber { consumer, .. } => consumer,
        Declaration::LocalSubscriber { consumer, .. } => consumer,
    };
    assert!(registration.receiver.is_empty());
    assert_eq!(consumer.deliver(sample("a/b", 1)), Delivery::Delivered);
    assert_eq!(consumer.deliver(sample("a/b", 2)), Delivery::Delivered);
    assert_eq!(registration.receiver.try_recv(), Ok(sample("a/b", 1)));
    assert_eq!(registration.receiver.try_recv(), Ok(sample("a/b", 2)));
    let (fed, read) = bounded_handler(2);
    assert_eq!(fed.deliver(sample("k", 3)), Delivery::Delivered);
    assert_eq!(read.try_recv(), Ok(sample("k", 3)));
    assert_eq!(registration.receiver.try_recv(), Err(flume::TryRecvError::Empty));
}

#[test]
fn deferred_action_hands_its_work_out_once() {
    let mut action = Deferred::new(5u32);
    assert!(action.is_pending());
    assert_eq!(action.run(), 5);
    assert!(!action.is_pending());
    assert_eq!(Deferred::new("w").wait(), "w");
    let mut polled = Deferred::new(9u8);
    assert_eq!(polled.poll(), Poll::Ready(9));
    assert!(!polled.is_pending());
    assert!(!Deferred::<u8>::resolved().is_pending());
}

#[test]
fn record_and_handle_describe_themselves() {
    let state = SubscriberState { id: 42, key_expr: "sensor/temp".to_string() };
    assert_eq!(state.to_string(), "Subscriber{ id:42, key_expr:sensor/temp }");
    let handle = CallbackSubscriber::declared::<String>(Ok(state)).unwrap();
    assert_eq!(handle.to_string(), "Subscriber{ id:42, key_expr:sensor/temp }");
    let zero = SubscriberState { id: 0, key_expr: String::new() };
    assert_eq!(zero.to_string(), "Subscriber{ id:0, key_expr: }");
}

#[test]
fn channel_without_a_bound_is_never_full() {
    let (consumer, receiver) = flume::unbounded::<Sample>().into_handler();
    for i in 0..1000u32 {
        assert_eq!(consumer.deliver(sample("k", (i % 256) as u8)), Delivery::Delivered);
    }
    assert_eq!(receiver.len(), 1000);
    assert_eq!(receiver.try_recv(), Ok(sample("k", 0)));
    drop(receiver);
    assert_eq!(consumer.deliver(sample("k", 1)), Delivery::DroppedDisconnected);
}

#[test]
fn channel_of_no_capacity_drops_what_nobody_waits_for() {
    let (consumer, receiver) = bounded_handler(0);
    assert_eq!(consumer.deliver(sample("k", 1)), Delivery::DroppedFull);
    assert_eq!(receiver.try_recv(), Err(flume::TryRecvError::Empty));
}
