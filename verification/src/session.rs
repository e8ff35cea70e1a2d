//! The boundary with the session: what the subscription layer asks of it,
//! and the record it answers a declaration with.
//!
//! The session itself is not part of this library. A function here that
//! needs something done by the session hands out a value that says what;
//! the caller performs it and hands back what the session answered.

use crate::info::SubInfo;
use crate::text::{decimal, write_decimal};
use vstd::prelude::*;
use vstd::string::StringExecFns;

verus! {

/// The one call that registers a subscription. `consumer` is what the
/// session shall invoke once per delivered sample.
#[derive(Debug)]
pub enum Declaration<Consumer> {
    /// `declare_subscriber`: a networked declaration, with the
    /// configuration that the transport needs.
    Subscriber { key_expr: String, consumer: Consumer, info: SubInfo },
    /// `declare_local_subscriber`: matches publishers of the same process
    /// only, and never reaches the network.
    LocalSubscriber { key_expr: String, consumer: Consumer },
}

/// A call on a subscription that the session already knows.
#[derive(Clone, Debug, PartialEq, Eq)]
pub enum Request {
    /// `undeclare_subscriber`: removes the subscription with this identifier.
    UndeclareSubscriber { id: usize },
    /// `pull`: releases the samples that the session holds for this key
    /// expression.
    Pull { key_expr: String },
}

/// The session's record of a declared subscription, as far as a handle
/// reads it. It is made once, when the session accepts a declaration, and
/// never changed afterwards.
#[derive(Clone, Debug, PartialEq, Eq)]
pub struct SubscriberState {
    pub id: usize,
    pub key_expr: String,
}

/// The text that describes a record with this identifier and key expression.
pub open spec fn state_text(id: usize, key_expr: Seq<char>) -> Seq<char> {
    "Subscriber{ id:"@ + decimal(id as nat) + ", key_expr:"@ + key_expr + " }"@
}

impl SubscriberState {
    /// Describes the record: `Subscriber{ id:7, key_expr:a/b }`.
    pub fn to_string(&self) -> (r: String)
        ensures
            r@ == state_text(self.id, self.key_expr@),
    {
        let mut out = String::from_str("Subscriber{ id:");
        write_decimal(&mut out, self.id);
        out.append(", key_expr:");
        out.append(self.key_expr.as_str());
        out.append(" }");
        out
    }
}

impl<Consumer> Declaration<Consumer> {
    /// The key expression to declare.
    pub open spec fn key_expr(self) -> String {
        match self {
            Declaration::Subscriber { key_expr, .. } => key_expr,
            Declaration::LocalSubscriber { key_expr, .. } => key_expr,
        }
    }

    /// The consumer to invoke once per delivered sample.
    pub open spec fn consumer(self) -> Consumer {
        match self {
            Declaration::Subscriber { consumer, .. } => consumer,
            Declaration::LocalSubscriber { consumer, .. } => consumer,
        }
    }
}

} // verus!
