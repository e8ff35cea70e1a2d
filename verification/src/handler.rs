//! The handler bridge: a consumer that feeds delivered samples into a
//! bounded channel, whose receiving end the caller reads.
//!
//! Delivery never waits and never fails. A sample that finds the channel
//! full, or its receiver gone, is dropped, and the delivery says so.

use crate::sample::Sample;
use vstd::prelude::*;

verus! {

/// `flume::Sender`, the sending end of a channel. Nothing is known of what
/// is inside.
#[verifier::external_type_specification]
#[verifier::external_body]
#[verifier::reject_recursive_types(T)]
pub struct ExSender<T>(flume::Sender<T>);

/// `flume::Receiver`, the receiving end of a channel. Nothing is known of
/// what is inside.
#[verifier::external_type_specification]
#[verifier::external_body]
#[verifier::reject_recursive_types(T)]
pub struct ExReceiver<T>(flume::Receiver<T>);

/// The number of samples that a handler's channel holds at most, unless the
/// caller says otherwise.
pub const API_DATA_RECEPTION_CHANNEL_SIZE: usize = 256;

/// The capacity that the channel of this sender was made with, as
/// `flume::Sender::capacity` reports it: `None` for a channel without a
/// bound. It is fixed when the channel is made.
pub uninterp spec fn channel_capacity(sender: flume::Sender<Sample>) -> Option<usize>;

/// Whether the sender and the receiver are the two ends of one channel:
/// what the one sends is what the other reads. The two are bound together
/// when the channel is made.
pub uninterp spec fn same_channel(
    sender: flume::Sender<Sample>,
    receiver: flume::Receiver<Sample>,
) -> bool;

/// `flume::bounded`: makes a channel and hands out its two ends. The
/// contract claims that the channel has the capacity asked for, and that
/// the two ends handed out are the ends of that one channel.
#[verifier::external_body]
fn bounded(capacity: usize) -> (r: (flume::Sender<Sample>, flume::Receiver<Sample>))
    ensures
        channel_capacity(r.0) == Some(capacity),
        same_channel(r.0, r.1),
{
    flume::bounded(capacity)
}

/// What the channel answered to one attempt to send.
pub enum SendOutcome {
    /// The channel took the sample.
    Sent,
    /// The channel was full; it hands the sample back.
    Full(Sample),
    /// Every receiver is gone; the channel hands the sample back.
    Disconnected(Sample),
}

/// `flume::Sender::try_send`: offers the sample to the channel without
/// waiting. The contract claims that a sample that comes back is the one
/// that was offered, and that only a channel with a bound answers that it
/// is full. Which of the answers comes beyond that depends on what the
/// other end of the channel has done.
#[verifier::external_body]
fn try_send(sender: &flume::Sender<Sample>, sample: Sample) -> (r: SendOutcome)
    ensures
        r matches SendOutcome::Full(back) ==> back == sample,
        r matches SendOutcome::Disconnected(back) ==> back == sample,
        r is Full ==> channel_capacity(*sender) is Some,
{
    match sender.try_send(sample) {
        Ok(()) => SendOutcome::Sent,
        Err(flume::TrySendError::Full(back)) => SendOutcome::Full(back),
        Err(flume::TrySendError::Disconnected(back)) => SendOutcome::Disconnected(back),
    }
}

/// How one delivery ended. None of the three is an error for the one who
/// delivers; a dropped sample is worth a warning, no more.
#[derive(Clone, Copy, Debug, PartialEq, Eq, Structural)]
pub enum Delivery {
    /// The sample is in the channel.
    Delivered,
    /// The channel was full: the sample is dropped.
    DroppedFull,
    /// The receiver is gone: the sample is dropped.
    DroppedDisconnected,
}

/// How a delivery ends, given what the channel answered: a sample that the
/// channel did not take is dropped.
pub open spec fn delivery_of(outcome: SendOutcome) -> Delivery {
    match outcome {
        SendOutcome::Sent => Delivery::Delivered,
        SendOutcome::Full(_) => Delivery::DroppedFull,
        SendOutcome::Disconnected(_) => Delivery::DroppedDisconnected,
    }
}

/// Settles one attempt to send: drops the sample that came back, if one
/// did, and says how the delivery ended.
pub fn settle(outcome: SendOutcome) -> (r: Delivery)
    ensures
        r == delivery_of(outcome),
{
    match outcome {
        SendOutcome::Sent => Delivery::Delivered,
        SendOutcome::Full(_) => Delivery::DroppedFull,
        SendOutcome::Disconnected(_) => Delivery::DroppedDisconnected,
    }
}

/// Something that becomes the two sides of a handler: the consumer that
/// the session invokes, and the receiver that the caller reads.
pub trait IntoHandler<Consumer, Receiver>: Sized {
    /// Whether `handler` is a pair that `self` may become.
    spec fn yields(self, handler: (Consumer, Receiver)) -> bool;

    /// Converts `self` into the consumer and the receiver.
    fn into_handler(self) -> (handler: (Consumer, Receiver))
        ensures
            self.yields(handler),
    ;
}

/// The consumer side of a channel-backed handler: it sends each delivered
/// sample into the channel.
pub struct FlumeConsumer {
    sender: flume::Sender<Sample>,
}

impl FlumeConsumer {
    /// The sending end that this consumer feeds.
    pub closed spec fn sender(&self) -> flume::Sender<Sample> {
        self.sender
    }

    /// Delivers one sample. It does not wait for room in the channel, and
    /// it has no failure to report: a sample that cannot be sent is dropped.
    /// A sample is dropped for want of room only where the channel has a
    /// bound; whether there is room, and whether the receiver is still
    /// there, is decided at the other end of the channel.
    pub fn deliver(&self, sample: Sample) -> (r: Delivery)
        ensures
            r == Delivery::DroppedFull ==> channel_capacity(self.sender()) is Some,
    {
        settle(try_send(&self.sender, sample))
    }
}

impl IntoHandler<FlumeConsumer, flume::Receiver<Sample>> for (
    flume::Sender<Sample>,
    flume::Receiver<Sample>,
) {
    open spec fn yields(self, handler: (FlumeConsumer, flume::Receiver<Sample>)) -> bool {
        handler.0.sender() == self.0 && handler.1 == self.1
    }

    fn into_handler(self) -> (handler: (FlumeConsumer, flume::Receiver<Sample>)) {
        let (sender, receiver) = self;
        (FlumeConsumer { sender }, receiver)
    }
}

/// A channel-backed handler for at most `capacity` waiting samples: the
/// consumer feeds the channel that the receiver reads.
pub fn bounded_handler(capacity: usize) -> (handler: (FlumeConsumer, flume::Receiver<Sample>))
    ensures
        channel_capacity(handler.0.sender()) == Some(capacity),
        same_channel(handler.0.sender(), handler.1),
{
    bounded(capacity).into_handler()
}

} // verus!
