use vstd::prelude::*;

verus! {

/// The options that decide which accessibility stages make up the chain.
/// A threshold of zero switches its feature off; a negative one is malformed.
#[derive(Clone, Copy, Debug, PartialEq, Eq, Structural)]
pub struct InputFilterConfiguration {
    pub sticky_keys_enabled: bool,
    pub slow_keys_threshold_ns: i64,
    pub bounce_keys_threshold_ns: i64,
}

impl Default for InputFilterConfiguration {
    /// Every feature switched off.
    fn default() -> (r: InputFilterConfiguration)
        ensures
            r == default_configuration(),
    {
        InputFilterConfiguration {
            sticky_keys_enabled: false,
            slow_keys_threshold_ns: 0,
            bounce_keys_threshold_ns: 0,
        }
    }
}

/// Why a configuration change was turned down. The installed chain stays as it was.
#[derive(Clone, Copy, Debug, PartialEq, Eq, Structural)]
pub enum ConfigurationError {
    NegativeSlowKeysThreshold,
    NegativeBounceKeysThreshold,
    /// A stage that needs timed wakeups was asked for, and the host gave no timer thread.
    TimerThreadUnavailable,
}

/// One link of the filter chain.
#[derive(Clone, Copy, Debug, PartialEq, Eq, Structural)]
pub enum FilterStage {
    /// The terminal stage: hands each event unchanged to the receiver.
    Base,
    /// Sticky keys; reports modifier state through a `ModifierStateListener`.
    StickyKeys,
    /// Slow keys; schedules its delays on the shared timer thread.
    SlowKeys { threshold_ns: i64 },
    /// Bounce keys; schedules its suppression window on the shared timer thread.
    BounceKeys { threshold_ns: i64 },
}

pub open spec fn default_configuration() -> InputFilterConfiguration {
    InputFilterConfiguration {
        sticky_keys_enabled: false,
        slow_keys_threshold_ns: 0,
        bounce_keys_threshold_ns: 0,
    }
}

/// The error that a configuration is turned down with, if it is malformed.
pub open spec fn malformation(c: InputFilterConfiguration) -> Option<ConfigurationError> {
    if c.slow_keys_threshold_ns < 0 {
        Some(ConfigurationError::NegativeSlowKeysThreshold)
    } else if c.bounce_keys_threshold_ns < 0 {
        Some(ConfigurationError::NegativeBounceKeysThreshold)
    } else {
        None
    }
}

/// Whether a stage of this configuration schedules timed wakeups.
pub open spec fn uses_timer(c: InputFilterConfiguration) -> bool {
    c.slow_keys_threshold_ns > 0 || c.bounce_keys_threshold_ns > 0
}

/// `inner` wrapped by `stage` when `present` holds; chains are written outermost first.
pub open spec fn wrap_if(inner: Seq<FilterStage>, present: bool, stage: FilterStage) -> Seq<FilterStage> {
    if present {
        seq![stage] + inner
    } else {
        inner
    }
}

/// The chain that a configuration asks for, outermost stage first: the base stage wrapped,
/// in this fixed order, by sticky keys, then slow keys, then bounce keys, each where enabled.
pub open spec fn planned_chain(c: InputFilterConfiguration) -> Seq<FilterStage> {
    wrap_if(
        wrap_if(
            wrap_if(seq![FilterStage::Base], c.sticky_keys_enabled, FilterStage::StickyKeys),
            c.slow_keys_threshold_ns > 0,
            FilterStage::SlowKeys { threshold_ns: c.slow_keys_threshold_ns },
        ),
        c.bounce_keys_threshold_ns > 0,
        FilterStage::BounceKeys { threshold_ns: c.bounce_keys_threshold_ns },
    )
}

/// A chain is well formed when it ends at the base stage, holds it nowhere else,
/// and every threshold in it is positive.
pub open spec fn chain_wf(chain: Seq<FilterStage>) -> bool {
    &&& chain.len() >= 1
    &&& chain.last() == FilterStage::Base
    &&& forall|i: int| 0 <= i < chain.len() - 1 ==> stage_ok(#[trigger] chain[i])
}

pub open spec fn stage_ok(s: FilterStage) -> bool {
    match s {
        FilterStage::Base => false,
        FilterStage::StickyKeys => true,
        FilterStage::SlowKeys { threshold_ns } => threshold_ns > 0,
        FilterStage::BounceKeys { threshold_ns } => threshold_ns > 0,
    }
}

impl InputFilterConfiguration {
    /// Turns down a malformed configuration before any chain is touched.
    pub fn check(&self) -> (r: Result<(), ConfigurationError>)
        ensures
            r.is_ok() <==> malformation(*self).is_none(),
            r.is_err() ==> r == Err::<(), ConfigurationError>(malformation(*self).unwrap()),
    {
        if self.slow_keys_threshold_ns < 0 {
            Err(ConfigurationError::NegativeSlowKeysThreshold)
        } else if self.bounce_keys_threshold_ns < 0 {
            Err(ConfigurationError::NegativeBounceKeysThreshold)
        } else {
            Ok(())
        }
    }

    /// Whether any stage of the chain this configuration asks for needs the timer thread.
    pub fn uses_timer_thread(&self) -> (r: bool)
        ensures
            r == uses_timer(*self),
    {
        self.slow_keys_threshold_ns > 0 || self.bounce_keys_threshold_ns > 0
    }

    /// Builds the chain this configuration asks for: outermost stage first, base stage last.
    pub fn plan_chain(&self) -> (r: Vec<FilterStage>)
        ensures
            r@ == planned_chain(*self),
            chain_wf(r@),
    {
        let mut chain: Vec<FilterStage> = vec![FilterStage::Base];
        if self.sticky_keys_enabled {
            chain.insert(0, FilterStage::StickyKeys);
        }
        if self.slow_keys_threshold_ns > 0 {
            chain.insert(0, FilterStage::SlowKeys { threshold_ns: self.slow_keys_threshold_ns });
        }
        if self.bounce_keys_threshold_ns > 0 {
            chain.insert(0, FilterStage::BounceKeys { threshold_ns: self.bounce_keys_threshold_ns });
        }
        proof {
            assert(chain@ =~= planned_chain(*self));
        }
        chain
    }
}

} // verus!
