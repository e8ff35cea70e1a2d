//! Subscribing primitives: the builders that configure a subscription and
//! the handles that stand for a declared one.
//!
//! A builder is a deferred action. Resolving it hands out the one
//! declaration that the session is to perform; the session's answer makes
//! the handle. A handle issues its undeclaration at most once, on `close`
//! or when it is released.

use crate::config::{declaration_of, SubscriberConfig};
use crate::deferred::{Deferred, Poll};
use crate::handler::{
    bounded_handler, channel_capacity, same_channel, FlumeConsumer, IntoHandler,
    API_DATA_RECEPTION_CHANNEL_SIZE,
};
use crate::info::{Period, Reliability, SubMode};
use crate::sample::Sample;
use crate::session::{state_text, Declaration, Request, SubscriberState};
use vstd::prelude::*;

verus! {

/// A builder for initializing a subscriber: the configuration of a
/// subscription, before the kind of delivery is chosen.
///
/// Resolved as it is, it declares a subscriber that delivers through a
/// channel of `API_DATA_RECEPTION_CHANNEL_SIZE` samples. It holds the
/// capacity of that channel in a slot that the first resolution empties.
#[derive(Clone, Debug, PartialEq, Eq)]
#[must_use]
pub struct SubscriberBuilder {
    config: SubscriberConfig,
    channel_size: Option<usize>,
}

impl SubscriberBuilder {
    /// The configuration built so far.
    pub closed spec fn config(&self) -> SubscriberConfig {
        self.config
    }

    /// The capacity of the channel that waits to be made: `None` once the
    /// builder was resolved.
    pub closed spec fn slot(&self) -> Option<usize> {
        self.channel_size
    }

    /// A builder for a subscription to `key_expr`, with the reliability
    /// that the session gives by default: push mode, no period, not local.
    pub fn new(key_expr: String, reliability: Reliability) -> (r: Self)
        ensures
            r.config() == (SubscriberConfig {
                key_expr,
                reliability,
                mode: SubMode::Push,
                period: None,
                local: false,
            }),
            r.slot() == Some(API_DATA_RECEPTION_CHANNEL_SIZE),
    {
        SubscriberBuilder {
            config: SubscriberConfig::new(key_expr, reliability),
            channel_size: Some(API_DATA_RECEPTION_CHANNEL_SIZE),
        }
    }

    /// The configuration built so far.
    pub fn configuration(&self) -> (r: &SubscriberConfig)
        ensures
            *r == self.config(),
    {
        &self.config
    }

    /// Whether the builder has not been resolved yet.
    pub fn is_pending(&self) -> (r: bool)
        ensures
            r == self.slot() is Some,
    {
        self.channel_size.is_some()
    }

    /// Make the built subscriber a `CallbackSubscriber`.
    pub fn callback<Callback>(self, callback: Callback) -> (r: CallbackSubscriberBuilder<Callback>)
        where Callback: FnMut(Sample) + Send + Sync + 'static
        ensures
            r.config() == self.config(),
            r.slot() == Some(callback),
    {
        CallbackSubscriberBuilder { config: self.config, callback: Some(callback) }
    }

    /// Make the built subscriber a `HandlerSubscriber`.
    pub fn with<Handler, Consumer, Receiver>(self, handler: Handler) -> (r:
        HandlerSubscriberBuilder<Consumer, Receiver>)
        where Handler: IntoHandler<Consumer, Receiver>
        ensures
            r.config() == self.config(),
            r.slot() matches Some(pair) && handler.yields(pair),
    {
        HandlerSubscriberBuilder { config: self.config, handler: Some(handler.into_handler()) }
    }

    /// Change the subscription reliability.
    pub fn reliability(self, reliability: Reliability) -> (r: Self)
        ensures
            r.config() == self.config().with_reliability(reliability),
            r.slot() == self.slot(),
    {
        SubscriberBuilder {
            config: self.config.reliability(reliability),
            channel_size: self.channel_size,
        }
    }

    /// Change the subscription reliability to `Reliable`.
    pub fn reliable(self) -> (r: Self)
        ensures
            r.config() == self.config().with_reliability(Reliability::Reliable),
            r.slot() == self.slot(),
    {
        self.reliability(Reliability::Reliable)
    }

    /// Change the subscription reliability to `BestEffort`.
    pub fn best_effort(self) -> (r: Self)
        ensures
            r.config() == self.config().with_reliability(Reliability::BestEffort),
            r.slot() == self.slot(),
    {
        self.reliability(Reliability::BestEffort)
    }

    /// Change the subscription mode. Setting it to `Push` clears the period.
    pub fn mode(self, mode: SubMode) -> (r: Self)
        ensures
            r.config() == self.config().with_mode(mode),
            r.slot() == self.slot(),
    {
        SubscriberBuilder { config: self.config.mode(mode), channel_size: self.channel_size }
    }

    /// Change the subscription mode to Push. This clears the period.
    pub fn push_mode(self) -> (r: Self)
        ensures
            r.config() == self.config().with_mode(SubMode::Push),
            r.slot() == self.slot(),
    {
        self.mode(SubMode::Push)
    }

    /// Change the subscription mode to Pull.
    pub fn pull_mode(self) -> (r: Self)
        ensures
            r.config() == self.config().with_mode(SubMode::Pull),
            r.slot() == self.slot(),
    {
        self.mode(SubMode::Pull)
    }

    /// Change the subscription period.
    pub fn period(self, period: Option<Period>) -> (r: Self)
        ensures
            r.config() == self.config().with_period(period),
            r.slot() == self.slot(),
    {
        SubscriberBuilder { config: self.config.period(period), channel_size: self.channel_size }
    }

    /// Make the subscription local only.
    pub fn local(self) -> (r: Self)
        ensures
            r.config() == self.config().with_local(),
            r.slot() == self.slot(),
    {
        SubscriberBuilder { config: self.config.local(), channel_size: self.channel_size }
    }

    /// What resolving the builder hands out, for the two ends of the
    /// channel that it makes: the declaration that the configuration asks
    /// for, with the sending end as consumer, beside the receiving end.
    pub open spec fn resolves_to(
        &self,
        r: HandlerRegistration<FlumeConsumer, flume::Receiver<Sample>>,
    ) -> bool {
        &&& r.declaration == declaration_of(self.config(), r.declaration.consumer())
        &&& channel_capacity(r.declaration.consumer().sender()) == self.slot()
        &&& same_channel(r.declaration.consumer().sender(), r.receiver)
    }

    /// Resolves the builder with the default handler: takes the capacity
    /// out of its slot, makes a channel of that capacity, and hands out the
    /// one declaration to perform, with the channel's sending end as
    /// consumer, beside its receiving end. The slot stays empty, so the
    /// builder cannot be resolved again.
    pub fn run(&mut self) -> (r: HandlerRegistration<FlumeConsumer, flume::Receiver<Sample>>)
        requires
            old(self).slot() is Some,
        ensures
            old(self).resolves_to(r),
            old(self).config().local <==> r.declaration is LocalSubscriber,
            final(self).slot() is None,
            final(self).config() == old(self).config(),
    {
        let capacity = self.channel_size.take().unwrap();
        let (consumer, receiver) = bounded_handler(capacity);
        let mut builder = HandlerSubscriberBuilder {
            config: SubscriberConfig {
                key_expr: self.config.key_expr.clone(),
                reliability: self.config.reliability,
                mode: self.config.mode,
                period: self.config.period,
                local: self.config.local,
            },
            handler: Some((consumer, receiver)),
        };
        builder.run()
    }

    /// Resolves the builder on the calling thread, as `run` does.
    pub fn wait(self) -> (r: HandlerRegistration<FlumeConsumer, flume::Receiver<Sample>>)
        requires
            self.slot() is Some,
        ensures
            self.resolves_to(r),
    {
        let mut builder = self;
        builder.run()
    }

    /// Resolves the builder in one poll step: the step does what `run` does
    /// and reports completion at once.
    pub fn poll(&mut self) -> (r: Poll<HandlerRegistration<FlumeConsumer, flume::Receiver<Sample>>>)
        requires
            old(self).slot() is Some,
        ensures
            r matches Poll::Ready(registration) && old(self).resolves_to(registration),
            final(self).slot() is None,
            final(self).config() == old(self).config(),
    {
        Poll::Ready(self.run())
    }
}

/// A builder for initializing a `CallbackSubscriber`.
///
/// It holds the callback in a slot that the first resolution empties.
#[derive(Clone)]
#[must_use]
pub struct CallbackSubscriberBuilder<Callback> where
    Callback: FnMut(Sample) + Send + Sync + 'static,
 {
    config: SubscriberConfig,
    callback: Option<Callback>,
}

impl<Callback> CallbackSubscriberBuilder<Callback> where
    Callback: FnMut(Sample) + Send + Sync + 'static,
 {
    /// The configuration built so far.
    pub closed spec fn config(&self) -> SubscriberConfig {
        self.config
    }

    /// The callback that waits to be declared: `None` once the builder
    /// was resolved.
    pub closed spec fn slot(&self) -> Option<Callback> {
        self.callback
    }

    /// The configuration built so far.
    pub fn configuration(&self) -> (r: &SubscriberConfig)
        ensures
            *r == self.config(),
    {
        &self.config
    }

    /// Whether the builder has not been resolved yet.
    pub fn is_pending(&self) -> (r: bool)
        ensures
            r == self.slot() is Some,
    {
        self.callback.is_some()
    }

    /// Change the subscription reliability.
    pub fn reliability(self, reliability: Reliability) -> (r: Self)
        ensures
            r.config() == self.config().with_reliability(reliability),
            r.slot() == self.slot(),
    {
        CallbackSubscriberBuilder {
            config: self.config.reliability(reliability),
            callback: self.callback,
        }
    }

    /// Change the subscription reliability to `Reliable`.
    pub fn reliable(self) -> (r: Self)
        ensures
            r.config() == self.config().with_reliability(Reliability::Reliable),
            r.slot() == self.slot(),
    {
        self.reliability(Reliability::Reliable)
    }

    /// Change the subscription reliability to `BestEffort`.
    pub fn best_effort(self) -> (r: Self)
        ensures
            r.config() == self.config().with_reliability(Reliability::BestEffort),
            r.slot() == self.slot(),
    {
        self.reliability(Reliability::BestEffort)
    }

    /// Change the subscription mode. Setting it to `Push` clears the period.
    pub fn mode(self, mode: SubMode) -> (r: Self)
        ensures
            r.config() == self.config().with_mode(mode),
            r.slot() == self.slot(),
    {
        CallbackSubscriberBuilder { config: self.config.mode(mode), callback: self.callback }
    }

    /// Change the subscription mode to Push. This clears the period.
    pub fn push_mode(self) -> (r: Self)
        ensures
            r.config() == self.config().with_mode(SubMode::Push),
            r.slot() == self.slot(),
    {
        self.mode(SubMode::Push)
    }

    /// Change the subscription mode to Pull.
    pub fn pull_mode(self) -> (r: Self)
        ensures
            r.config() == self.config().with_mode(SubMode::Pull),
            r.slot() == self.slot(),
    {
        self.mode(SubMode::Pull)
    }

    /// Change the subscription period.
    pub fn period(self, period: Option<Period>) -> (r: Self)
        ensures
            r.config() == self.config().with_period(period),
            r.slot() == self.slot(),
    {
        CallbackSubscriberBuilder { config: self.config.period(period), callback: self.callback }
    }

    /// Make the subscription local only.
    pub fn local(self) -> (r: Self)
        ensures
            r.config() == self.config().with_local(),
            r.slot() == self.slot(),
    {
        CallbackSubscriberBuilder { config: self.config.local(), callback: self.callback }
    }

    /// Resolves the builder: takes the callback out of its slot and hands
    /// out the one declaration to perform, with the callback as consumer.
    /// The slot stays empty, so the builder cannot be resolved again.
    pub fn run(&mut self) -> (r: Declaration<Callback>)
        requires
            old(self).slot() is Some,
        ensures
            r == declaration_of(old(self).config(), old(self).slot()->0),
            old(self).config().local <==> r is LocalSubscriber,
            final(self).slot() is None,
            final(self).config() == old(self).config(),
    {
        let callback = self.callback.take().unwrap();
        self.config.declare(callback)
    }

    /// Resolves the builder on the calling thread, as `run` does.
    pub fn wait(self) -> (r: Declaration<Callback>)
        requires
            self.slot() is Some,
        ensures
            r == declaration_of(self.config(), self.slot()->0),
    {
        let mut builder = self;
        builder.run()
    }

    /// Resolves the builder in one poll step: the step does what `run` does
    /// and reports completion at once.
    pub fn poll(&mut self) -> (r: Poll<Declaration<Callback>>)
        requires
            old(self).slot() is Some,
        ensures
            r == Poll::Ready(declaration_of(old(self).config(), old(self).slot()->0)),
            final(self).slot() is None,
            final(self).config() == old(self).config(),
    {
        Poll::Ready(self.run())
    }
}

/// A builder for initializing a `HandlerSubscriber`.
///
/// It holds the two sides of the handler in a slot that the first
/// resolution empties.
#[derive(Clone)]
#[must_use]
pub struct HandlerSubscriberBuilder<Consumer, Receiver> {
    config: SubscriberConfig,
    handler: Option<(Consumer, Receiver)>,
}

/// What resolving a handler-backed builder hands out: the declaration to
/// perform, and the receiver to pair with the handle that comes of it.
pub struct HandlerRegistration<Consumer, Receiver> {
    pub declaration: Declaration<Consumer>,
    pub receiver: Receiver,
}

impl<Consumer, Receiver> HandlerSubscriberBuilder<Consumer, Receiver> {
    /// The configuration built so far.
    pub closed spec fn config(&self) -> SubscriberConfig {
        self.config
    }

    /// The two sides of the handler that wait to be declared: `None` once
    /// the builder was resolved.
    pub closed spec fn slot(&self) -> Option<(Consumer, Receiver)> {
        self.handler
    }

    /// What resolving the builder hands out.
    pub open spec fn registration(&self) -> HandlerRegistration<Consumer, Receiver> {
        let handler = self.slot().unwrap();
        HandlerRegistration {
            declaration: declaration_of(self.config(), handler.0),
            receiver: handler.1,
        }
    }

    /// A builder with this configuration for the two sides of a handler.
    pub fn new(config: SubscriberConfig, consumer: Consumer, receiver: Receiver) -> (r: Self)
        ensures
            r.config() == config,
            r.slot() == Some((consumer, receiver)),
    {
        HandlerSubscriberBuilder { config, handler: Some((consumer, receiver)) }
    }

    /// The configuration built so far.
    pub fn configuration(&self) -> (r: &SubscriberConfig)
        ensures
            *r == self.config(),
    {
        &self.config
    }

    /// Whether the builder has not been resolved yet.
    pub fn is_pending(&self) -> (r: bool)
        ensures
            r == self.slot() is Some,
    {
        self.handler.is_some()
    }

    /// Change the subscription reliability.
    pub fn reliability(self, reliability: Reliability) -> (r: Self)
        ensures
            r.config() == self.config().with_reliability(reliability),
            r.slot() == self.slot(),
    {
        HandlerSubscriberBuilder {
            config: self.config.reliability(reliability),
            handler: self.handler,
        }
    }

    /// Change the subscription reliability to `Reliable`.
    pub fn reliable(self) -> (r: Self)
        ensures
            r.config() == self.config().with_reliability(Reliability::Reliable),
            r.slot() == self.slot(),
    {
        self.reliability(Reliability::Reliable)
    }

    /// Change the subscription reliability to `BestEffort`.
    pub fn best_effort(self) -> (r: Self)
        ensures
            r.config() == self.config().with_reliability(Reliability::BestEffort),
            r.slot() == self.slot(),
    {
        self.reliability(Reliability::BestEffort)
    }

    /// Change the subscription mode. Setting it to `Push` clears the period.
    pub fn mode(self, mode: SubMode) -> (r: Self)
        ensures
            r.config() == self.config().with_mode(mode),
            r.slot() == self.slot(),
    {
        HandlerSubscriberBuilder { config: self.config.mode(mode), handler: self.handler }
    }

    /// Change the subscription mode to Push. This clears the period.
    pub fn push_mode(self) -> (r: Self)
        ensures
            r.config() == self.config().with_mode(SubMode::Push),
            r.slot() == self.slot(),
    {
        self.mode(SubMode::Push)
    }

    /// Change the subscription mode to Pull.
    pub fn pull_mode(self) -> (r: Self)
        ensures
            r.config() == self.config().with_mode(SubMode::Pull),
            r.slot() == self.slot(),
    {
        self.mode(SubMode::Pull)
    }

    /// Change the subscription period.
    pub fn period(self, period: Option<Period>) -> (r: Self)
        ensures
            r.config() == self.config().with_period(period),
            r.slot() == self.slot(),
    {
        HandlerSubscriberBuilder { config: self.config.period(period), handler: self.handler }
    }

    /// Make the subscription local only.
    pub fn local(self) -> (r: Self)
        ensures
            r.config() == self.config().with_local(),
            r.slot() == self.slot(),
    {
        HandlerSubscriberBuilder { config: self.config.local(), handler: self.handler }
    }

    /// Resolves the builder: takes the handler out of its slot and hands
    /// out the one declaration to perform, with the handler's consumer,
    /// beside the handler's receiver. The slot stays empty, so the builder
    /// cannot be resolved again.
    pub fn run(&mut self) -> (r: HandlerRegistration<Consumer, Receiver>)
        requires
            old(self).slot() is Some,
        ensures
            r == old(self).registration(),
            old(self).config().local <==> r.declaration is LocalSubscriber,
            final(self).slot() is None,
            final(self).config() == old(self).config(),
    {
        let (consumer, receiver) = self.handler.take().unwrap();
        HandlerRegistration { declaration: self.config.declare(consumer), receiver }
    }

    /// Resolves the builder on the calling thread, as `run` does.
    pub fn wait(self) -> (r: HandlerRegistration<Consumer, Receiver>)
        requires
            self.slot() is Some,
        ensures
            r == self.registration(),
    {
        let mut builder = self;
        builder.run()
    }

    /// Resolves the builder in one poll step: the step does what `run` does
    /// and reports completion at once.
    pub fn poll(&mut self) -> (r: Poll<HandlerRegistration<Consumer, Receiver>>)
        requires
            old(self).slot() is Some,
        ensures
            r == Poll::Ready(old(self).registration()),
            final(self).slot() is None,
            final(self).config() == old(self).config(),
    {
        Poll::Ready(self.run())
    }
}

/// A subscriber that provides data through a callback.
///
/// The handle of a declared subscription: it reads the session's record
/// and knows whether the subscription is still to be undeclared.
#[derive(Debug)]
pub struct CallbackSubscriber {
    state: SubscriberState,
    alive: bool,
}

impl CallbackSubscriber {
    /// The session's record of the subscription.
    pub closed spec fn state(&self) -> SubscriberState {
        self.state
    }

    /// Whether the subscription is still to be undeclared.
    pub closed spec fn alive(&self) -> bool {
        self.alive
    }

    /// The undeclaration that this handle still owes: that of its record
    /// while it is alive, none afterwards.
    pub open spec fn owed(&self) -> Option<Request> {
        if self.alive() {
            Some(Request::UndeclareSubscriber { id: self.state().id })
        } else {
            None
        }
    }

    /// This handle once it is no longer alive.
    pub closed spec fn released(self) -> Self {
        CallbackSubscriber { state: self.state, alive: false }
    }

    /// What the session answered to a declaration, as a handle: a live
    /// handle on the record when the session accepted, and the session's
    /// error, with no handle, when it refused.
    pub fn declared<E>(outcome: Result<SubscriberState, E>) -> (r: Result<CallbackSubscriber, E>)
        ensures
            match outcome {
                Ok(state) => r matches Ok(handle) && handle.state() == state && handle.alive(),
                Err(e) => r == Err::<CallbackSubscriber, E>(e),
            },
    {
        match outcome {
            Ok(state) => Ok(CallbackSubscriber { state, alive: true }),
            Err(e) => Err(e),
        }
    }

    /// Whether the subscription is still to be undeclared.
    pub fn is_alive(&self) -> (r: bool)
        ensures
            r == self.alive(),
    {
        self.alive
    }

    /// The identifier of the subscription.
    pub fn id(&self) -> (r: usize)
        ensures
            r == self.state().id,
    {
        self.state.id
    }

    /// The key expression of the subscription.
    pub fn key_expr(&self) -> (r: &str)
        ensures
            r@ == self.state().key_expr@,
    {
        self.state.key_expr.as_str()
    }

    /// Pull available data for a pull-mode subscriber: the action that asks
    /// the session for what it holds for this key expression. It is handed
    /// out whatever the mode.
    pub fn pull(&self) -> (r: Deferred<Request>)
        ensures
            r.slot() == Some(Request::Pull { key_expr: self.state().key_expr }),
    {
        Deferred::new(Request::Pull { key_expr: self.state.key_expr.clone() })
    }

    /// Close the subscriber: the handle stops being alive, and then the
    /// action that undeclares it is handed out. A handle that was no longer
    /// alive hands out an action with nothing left to do.
    pub fn close(self) -> (r: Deferred<Request>)
        ensures
            r.slot() == self.owed(),
    {
        let mut handle = self;
        match handle.release() {
            Some(request) => Deferred::new(request),
            None => Deferred::resolved(),
        }
    }

    /// What is to be done when the handle goes away without `close`: a
    /// handle that is alive stops being so and hands out its undeclaration,
    /// whose result nobody waits for; any other hands out nothing.
    pub fn release(&mut self) -> (r: Option<Request>)
        ensures
            r == old(self).owed(),
            *final(self) == old(self).released(),
            final(self).owed() is None,
            final(self).state() == old(self).state(),
    {
        if self.alive {
            self.alive = false;
            Some(Request::UndeclareSubscriber { id: self.state.id })
        } else {
            None
        }
    }

    /// Describes the subscriber by its record.
    pub fn to_string(&self) -> (r: String)
        ensures
            r@ == state_text(self.state().id, self.state().key_expr@),
    {
        self.state.to_string()
    }
}

/// A subscriber that provides data through a handler: the handle, and the
/// receiving side of the handler.
pub struct HandlerSubscriber<Receiver> {
    pub subscriber: CallbackSubscriber,
    pub receiver: Receiver,
}

/// A subscriber that provides data through a channel.
pub type FlumeSubscriber = HandlerSubscriber<flume::Receiver<Sample>>;

impl<Receiver> HandlerSubscriber<Receiver> {
    /// What the session answered to a declaration, as a subscriber: a live
    /// handle paired with `receiver` when the session accepted, and the
    /// session's error, with nothing else, when it refused.
    pub fn declared<E>(outcome: Result<SubscriberState, E>, receiver: Receiver) -> (r: Result<
        HandlerSubscriber<Receiver>,
        E,
    >)
        ensures
            match outcome {
                Ok(state) => r matches Ok(handle) && handle.subscriber.state() == state
                    && handle.subscriber.alive() && handle.receiver == receiver,
                Err(e) => r == Err::<HandlerSubscriber<Receiver>, E>(e),
            },
    {
        match CallbackSubscriber::declared(outcome) {
            Ok(subscriber) => Ok(HandlerSubscriber { subscriber, receiver }),
            Err(e) => Err(e),
        }
    }

    /// Pull available data for a pull-mode subscriber.
    pub fn pull(&self) -> (r: Deferred<Request>)
        ensures
            r.slot() == Some(Request::Pull { key_expr: self.subscriber.state().key_expr }),
    {
        self.subscriber.pull()
    }

    /// Close the subscriber, as `CallbackSubscriber::close` does. The
    /// receiver goes with it.
    pub fn close(self) -> (r: Deferred<Request>)
        ensures
            r.slot() == self.subscriber.owed(),
    {
        self.subscriber.close()
    }

    /// The receiving side of the handler.
    pub fn receiver(&self) -> (r: &Receiver)
        ensures
            *r == self.receiver,
    {
        &self.receiver
    }
}

impl<Receiver> core::ops::Deref for HandlerSubscriber<Receiver> {
    type Target = Receiver;

    /// The receiving side of the handler.
    fn deref(&self) -> (r: &Receiver)
        ensures
            *r == self.receiver,
    {
        &self.receiver
    }
}

/// What `n` teardowns of a handle hand out, one after the other. A
/// teardown is a `close` or a `release`: each hands out what the handle
/// owes and leaves it released.
pub open spec fn teardowns(handle: CallbackSubscriber, n: nat) -> Seq<Request>
    decreases n,
{
    if n == 0 {
        Seq::empty()
    } else {
        let first = match handle.owed() {
            Some(request) => seq![request],
            None => Seq::empty(),
        };
        first + teardowns(handle.released(), (n - 1) as nat)
    }
}

/// A released handle owes nothing, and releasing changes nothing else.
pub proof fn lemma_released_owes_nothing(handle: CallbackSubscriber)
    ensures
        handle.released().owed() is None,
        handle.released().state() == handle.state(),
        handle.released().released() == handle.released(),
{
}

/// A handle hands out its undeclaration at most once: all its teardowns
/// together hand out the undeclaration of its record once if the handle
/// was alive and is torn down at all, and nothing otherwise.
pub proof fn lemma_undeclared_at_most_once(handle: CallbackSubscriber, n: nat)
    ensures
        teardowns(handle, n) == if handle.alive() && n > 0 {
            seq![Request::UndeclareSubscriber { id: handle.state().id }]
        } else {
            Seq::<Request>::empty()
        },
    decreases n,
{
    if n > 0 {
        lemma_undeclared_at_most_once(handle.released(), (n - 1) as nat);
        assert(teardowns(handle, n) =~= if handle.alive() {
            seq![Request::UndeclareSubscriber { id: handle.state().id }]
        } else {
            Seq::<Request>::empty()
        });
    }
}

/// Two handles on one record, of which at most one is alive, hand out one
/// undeclaration of that record between them at most.
pub proof fn lemma_shared_record_undeclared_once(
    first: CallbackSubscriber,
    second: CallbackSubscriber,
    n: nat,
    m: nat,
)
    requires
        first.state() == second.state(),
        !(first.alive() && second.alive()),
    ensures
        (teardowns(first, n) + teardowns(second, m)).len() <= 1,
        first.owed() is None || second.owed() is None,
{
    lemma_undeclared_at_most_once(first, n);
    lemma_undeclared_at_most_once(second, m);
}

} // verus!
