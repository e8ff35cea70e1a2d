//! The configuration of a subscription: the options that a builder
//! gathers, and the declaration that they ask for.

use crate::info::{Period, Reliability, SubInfo, SubMode};
use crate::session::Declaration;
use vstd::prelude::*;

verus! {

/// The options of a subscription. Every setter gives a new configuration
/// with one option changed.
#[derive(Clone, Debug, PartialEq, Eq)]
pub struct SubscriberConfig {
    pub key_expr: String,
    pub reliability: Reliability,
    pub mode: SubMode,
    pub period: Option<Period>,
    pub local: bool,
}

/// The declaration that a configuration asks for, with `consumer` as the
/// one to invoke: a local one when the configuration is local, else a
/// networked one that carries reliability, mode and period.
pub open spec fn declaration_of<Consumer>(
    config: SubscriberConfig,
    consumer: Consumer,
) -> Declaration<Consumer> {
    if config.local {
        Declaration::LocalSubscriber { key_expr: config.key_expr, consumer }
    } else {
        Declaration::Subscriber { key_expr: config.key_expr, consumer, info: config.info() }
    }
}

impl SubscriberConfig {
    /// This configuration with another reliability.
    pub open spec fn with_reliability(self, reliability: Reliability) -> Self {
        SubscriberConfig { reliability, ..self }
    }

    /// This configuration with another mode. Setting the mode to `Push`
    /// clears the period.
    pub open spec fn with_mode(self, mode: SubMode) -> Self {
        SubscriberConfig {
            mode,
            period: if mode == SubMode::Push {
                None
            } else {
                self.period
            },
            ..self
        }
    }

    /// This configuration with another period.
    pub open spec fn with_period(self, period: Option<Period>) -> Self {
        SubscriberConfig { period, ..self }
    }

    /// This configuration, made local.
    pub open spec fn with_local(self) -> Self {
        SubscriberConfig { local: true, ..self }
    }

    /// What a networked declaration carries of this configuration.
    pub open spec fn info(self) -> SubInfo {
        SubInfo { reliability: self.reliability, mode: self.mode, period: self.period }
    }

    /// The configuration of a subscription to `key_expr`, with the
    /// reliability that the session gives by default: push mode, no period,
    /// not local.
    pub fn new(key_expr: String, reliability: Reliability) -> (r: Self)
        ensures
            r == (SubscriberConfig {
                key_expr,
                reliability,
                mode: SubMode::Push,
                period: None,
                local: false,
            }),
    {
        SubscriberConfig { key_expr, reliability, mode: SubMode::Push, period: None, local: false }
    }

    /// What a networked declaration carries of this configuration.
    pub fn sub_info(&self) -> (r: SubInfo)
        ensures
            r == self.info(),
    {
        SubInfo { reliability: self.reliability, mode: self.mode, period: self.period }
    }

    /// The declaration that this configuration asks for, with `consumer`
    /// as the one to invoke.
    pub fn declare<Consumer>(&self, consumer: Consumer) -> (r: Declaration<Consumer>)
        ensures
            r == declaration_of(*self, consumer),
    {
        if self.local {
            Declaration::LocalSubscriber { key_expr: self.key_expr.clone(), consumer }
        } else {
            Declaration::Subscriber {
                key_expr: self.key_expr.clone(),
                consumer,
                info: self.sub_info(),
            }
        }
    }

    /// Change the subscription reliability.
    pub fn reliability(self, reliability: Reliability) -> (r: Self)
        ensures
            r == self.with_reliability(reliability),
    {
        let mut config = self;
        config.reliability = reliability;
        config
    }

    /// Change the subscription mode. Setting it to `Push` clears the period.
    pub fn mode(self, mode: SubMode) -> (r: Self)
        ensures
            r == self.with_mode(mode),
            mode == SubMode::Push ==> r.period is None,
    {
        let mut config = self;
        match mode {
            SubMode::Push => {
                config.mode = SubMode::Push;
                config.period = None;
            },
            SubMode::Pull => {
                config.mode = SubMode::Pull;
            },
        }
        config
    }

    /// Change the subscription period.
    pub fn period(self, period: Option<Period>) -> (r: Self)
        ensures
            r == self.with_period(period),
    {
        let mut config = self;
        config.period = period;
        config
    }

    /// Make the subscription local only.
    pub fn local(self) -> (r: Self)
        ensures
            r == self.with_local(),
    {
        let mut config = self;
        config.local = true;
        config
    }
}

/// Setting the mode to push clears the period: whatever period was set
/// before, in whatever mode, none is left.
pub proof fn lemma_push_clears_period(config: SubscriberConfig, period: Option<Period>)
    ensures
        config.with_period(period).with_mode(SubMode::Push).period is None,
        config.with_period(period).with_mode(SubMode::Push).mode == SubMode::Push,
        config.with_period(period).with_mode(SubMode::Pull).period == period,
{
}

/// A local configuration asks for the local declaration, and any other for
/// the networked one: which entry of the session is used depends on
/// locality alone.
pub proof fn lemma_local_declares_locally<Consumer>(config: SubscriberConfig, consumer: Consumer)
    ensures
        config.local <==> declaration_of(config, consumer) is LocalSubscriber,
        !config.local <==> declaration_of(config, consumer) is Subscriber,
        declaration_of(config, consumer).consumer() == consumer,
        declaration_of(config, consumer).key_expr() == config.key_expr,
        declaration_of(config, consumer) matches Declaration::Subscriber { info, .. } ==> info
            == config.info(),
{
}

} // verus!
