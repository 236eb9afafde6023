use vstd::prelude::*;

use crate::config::{
    chain_wf, default_configuration, malformation, planned_chain, stage_ok, uses_timer, wrap_if, ConfigurationError, FilterStage,
    InputFilterConfiguration,
};
use crate::event::{DeviceInfo, KeyEvent};

verus! {

/// Where one key event goes next.
#[derive(Clone, Copy, Debug, PartialEq, Eq, Structural)]
pub enum KeyDispatch {
    /// The chain is the base stage alone: the event goes to the receiver unchanged.
    ToReceiver(KeyEvent),
    /// The event goes to the outermost stage of the chain installed under `generation`.
    ToStage { generation: u64, stage: FilterStage, event: KeyEvent },
}

/// Where one device-list notification goes next.
#[derive(Debug)]
pub enum DevicesDispatch {
    /// The chain is the base stage alone, which ignores device changes.
    Ignored,
    /// The list goes to the outermost stage of the chain installed under `generation`.
    ToStage { generation: u64, stage: FilterStage, device_infos: Vec<DeviceInfo> },
}

/// What a configuration change does to the chain: the stages of the old chain to destroy,
/// outermost first, and the stages of the new chain to install, outermost first (they are
/// constructed from the base stage outward, so in the reverse order).
#[derive(Debug)]
pub struct Rebuild {
    pub destroyed: Vec<FilterStage>,
    pub installed: Vec<FilterStage>,
    pub generation: u64,
}

pub open spec fn key_dispatch(chain: Seq<FilterStage>, generation: u64, event: KeyEvent) -> KeyDispatch {
    if chain[0] == FilterStage::Base {
        KeyDispatch::ToReceiver(event)
    } else {
        KeyDispatch::ToStage { generation, stage: chain[0], event }
    }
}

/// The error a configuration change is turned down with, given whether the host has a timer
/// thread for the stages that need one.
pub open spec fn rejection(config: InputFilterConfiguration, timer_thread_available: bool) -> Option<
    ConfigurationError,
> {
    if malformation(config).is_some() {
        malformation(config)
    } else if uses_timer(config) && !timer_thread_available {
        Some(ConfigurationError::TimerThreadUnavailable)
    } else {
        None
    }
}

pub open spec fn next_generation(g: u64) -> u64 {
    if g == u64::MAX {
        0
    } else {
        (g + 1) as u64
    }
}

/// The chain installed after a configuration change.
pub open spec fn chain_after(
    chain: Seq<FilterStage>,
    config: InputFilterConfiguration,
    timer_thread_available: bool,
) -> Seq<FilterStage> {
    if rejection(config, timer_thread_available).is_some() {
        chain
    } else {
        planned_chain(config)
    }
}

/// The generation of the chain installed after a configuration change.
pub open spec fn generation_after(
    generation: u64,
    config: InputFilterConfiguration,
    timer_thread_available: bool,
) -> u64 {
    if rejection(config, timer_thread_available).is_some() {
        generation
    } else {
        next_generation(generation)
    }
}

/// The stages destroyed by a configuration change.
pub open spec fn destroyed_by(
    chain: Seq<FilterStage>,
    config: InputFilterConfiguration,
    timer_thread_available: bool,
) -> Seq<FilterStage> {
    if rejection(config, timer_thread_available).is_some() {
        Seq::empty()
    } else {
        chain
    }
}

/// The filter-chain orchestrator. Taking `&mut self` for a configuration change is what
/// makes it exclusive with event delivery: a caller shares the orchestrator behind one lock.
pub struct InputFilter {
    chain: Vec<FilterStage>,
    enabled: bool,
    generation: u64,
}

impl InputFilter {
    /// The installed chain, outermost stage first.
    pub closed spec fn chain(&self) -> Seq<FilterStage> {
        self.chain@
    }

    pub closed spec fn enabled(&self) -> bool {
        self.enabled
    }

    /// Tells installed chains apart: each configuration change that goes through installs
    /// its chain under the generation after the previous one.
    pub closed spec fn generation(&self) -> u64 {
        self.generation
    }

    /// The chain ends at the base stage, and the filter is enabled exactly when
    /// some other stage stands in front of it.
    pub open spec fn wf(&self) -> bool {
        &&& chain_wf(self.chain())
        &&& self.enabled() == (self.chain().len() > 1)
    }

    /// An orchestrator with no configuration applied: the base stage alone.
    pub fn new() -> (r: InputFilter)
        ensures
            r.wf(),
            r.chain() == seq![FilterStage::Base],
            !r.enabled(),
            r.generation() == 0,
    {
        InputFilter { chain: vec![FilterStage::Base], enabled: false, generation: 0 }
    }

    /// An orchestrator whose chain is `first_filter` in front of the base stage
    /// (or the base stage alone, where `first_filter` is the base stage).
    pub fn create_input_filter(first_filter: FilterStage) -> (r: InputFilter)
        requires
            first_filter == FilterStage::Base || stage_ok(first_filter),
        ensures
            r.wf(),
            first_filter == FilterStage::Base ==> r.chain() == seq![FilterStage::Base],
            first_filter != FilterStage::Base ==> r.chain() == seq![first_filter, FilterStage::Base],
            r.generation() == 0,
    {
        let mut chain: Vec<FilterStage> = vec![FilterStage::Base];
        let mut enabled = false;
        if first_filter != FilterStage::Base {
            chain.insert(0, first_filter);
            enabled = true;
        }
        proof {
            assert(first_filter != FilterStage::Base ==> chain@ =~= seq![first_filter, FilterStage::Base]);
        }
        InputFilter { chain, enabled, generation: 0 }
    }

    pub fn is_enabled(&self) -> (r: bool)
        ensures
            r == self.enabled(),
    {
        self.enabled
    }

    /// Hands a key event to the outermost stage of the installed chain.
    pub fn notify_key(&self, event: &KeyEvent) -> (r: KeyDispatch)
        requires
            self.wf(),
        ensures
            r == key_dispatch(self.chain(), self.generation(), *event),
    {
        let head = self.chain[0];
        if head == FilterStage::Base {
            KeyDispatch::ToReceiver(*event)
        } else {
            KeyDispatch::ToStage { generation: self.generation, stage: head, event: *event }
        }
    }

    /// Hands the full device list to the outermost stage of the installed chain.
    pub fn notify_input_devices_changed(&self, device_infos: &[DeviceInfo]) -> (r: DevicesDispatch)
        requires
            self.wf(),
        ensures
            self.chain()[0] == FilterStage::Base ==> r is Ignored,
            self.chain()[0] != FilterStage::Base ==> (r matches DevicesDispatch::ToStage {
                generation,
                stage,
                device_infos: d,
            } && generation == self.generation() && stage == self.chain()[0] && d@
                == device_infos@),
    {
        let head = self.chain[0];
        if head == FilterStage::Base {
            DevicesDispatch::Ignored
        } else {
            let mut copy: Vec<DeviceInfo> = Vec::new();
            let mut i: usize = 0;
            while i < device_infos.len()
                invariant
                    i <= device_infos@.len(),
                    copy@ == device_infos@.subrange(0, i as int),
                decreases device_infos@.len() - i,
            {
                copy.push(device_infos[i]);
                i = i + 1;
                proof {
                    assert(copy@ =~= device_infos@.subrange(0, i as int));
                }
            }
            proof {
                assert(copy@ =~= device_infos@);
            }
            DevicesDispatch::ToStage { generation: self.generation, stage: head, device_infos: copy }
        }
    }

    /// Replaces the whole chain by the one `config` asks for: the old chain is destroyed, the
    /// new one installed under the next generation, and the enabled flag follows it. A malformed
    /// configuration, or one that needs a timer thread where the host has none, is turned down
    /// and leaves everything as it was.
    pub fn notify_configuration_changed(
        &mut self,
        config: &InputFilterConfiguration,
        timer_thread_available: bool,
    ) -> (r: Result<Rebuild, ConfigurationError>)
        requires
            old(self).wf(),
        ensures
            final(self).wf(),
            final(self).chain() == chain_after(old(self).chain(), *config, timer_thread_available),
            final(self).generation() == generation_after(
                old(self).generation(),
                *config,
                timer_thread_available,
            ),
            r.is_err() <==> rejection(*config, timer_thread_available).is_some(),
            r.is_err() ==> r == Err::<Rebuild, ConfigurationError>(
                rejection(*config, timer_thread_available).unwrap(),
            ),
            r.is_ok() ==> r.unwrap().destroyed@ == destroyed_by(
                old(self).chain(),
                *config,
                timer_thread_available,
            ),
            r.is_ok() ==> r.unwrap().installed@ == final(self).chain(),
            r.is_ok() ==> r.unwrap().generation == final(self).generation(),
    {
        match config.check() {
            Err(e) => {
                return Err(e);
            },
            Ok(()) => {},
        }
        if config.uses_timer_thread() && !timer_thread_available {
            return Err(ConfigurationError::TimerThreadUnavailable);
        }
        let installed = config.plan_chain();
        let destroyed = self.chain.clone();
        self.chain = installed.clone();
        self.enabled = installed.len() > 1;
        self.generation = if self.generation == u64::MAX {
            0
        } else {
            self.generation + 1
        };
        Ok(Rebuild { destroyed, installed, generation: self.generation })
    }
}

/// With no configuration applied the filter is off, and every key event goes to the
/// receiver unchanged.
pub proof fn lemma_unconfigured_forwards_unchanged(f: InputFilter, event: KeyEvent)
    requires
        f.wf(),
        f.chain() == seq![FilterStage::Base],
    ensures
        !f.enabled(),
        key_dispatch(f.chain(), f.generation(), event) == KeyDispatch::ToReceiver(event),
{
}

/// Around one configuration change, each key event is routed by one whole chain version:
/// the chain left installed is well formed and is either the old chain or the new one in
/// full, a new chain is installed under a generation other than the old one, and events
/// before the change go to the head of the old chain under the old generation, events after
/// it to the head of the chain left installed under the generation left installed.
pub proof fn lemma_events_see_one_chain_version(
    chain: Seq<FilterStage>,
    generation: u64,
    config: InputFilterConfiguration,
    timer_thread_available: bool,
    before: Seq<KeyEvent>,
    after: Seq<KeyEvent>,
)
    requires
        chain_wf(chain),
    ensures
        chain_wf(chain_after(chain, config, timer_thread_available)),
        chain_after(chain, config, timer_thread_available) == chain || chain_after(
            chain,
            config,
            timer_thread_available,
        ) == planned_chain(config),
        rejection(config, timer_thread_available).is_none() ==> generation_after(
            generation,
            config,
            timer_thread_available,
        ) != generation,
        forall|i: int|
            0 <= i < before.len() ==> routed_by(
                #[trigger] key_dispatch(chain, generation, before[i]),
                chain,
                generation,
                before[i],
            ),
        forall|j: int|
            0 <= j < after.len() ==> routed_by(
                #[trigger] key_dispatch(
                    chain_after(chain, config, timer_thread_available),
                    generation_after(generation, config, timer_thread_available),
                    after[j],
                ),
                chain_after(chain, config, timer_thread_available),
                generation_after(generation, config, timer_thread_available),
                after[j],
            ),
{
    if rejection(config, timer_thread_available).is_none() {
        lemma_planned_chain_wf(config);
    }
}

/// `d` hands `event` on unchanged to the head of `chain`, naming `generation` where the head
/// is a stage in front of the base one.
pub open spec fn routed_by(d: KeyDispatch, chain: Seq<FilterStage>, generation: u64, event: KeyEvent) -> bool {
    match d {
        KeyDispatch::ToReceiver(e) => chain[0] == FilterStage::Base && e == event,
        KeyDispatch::ToStage { generation: g, stage, event: e } => g == generation && stage
            == chain[0] && stage != FilterStage::Base && e == event,
    }
}

/// The chain a configuration asks for is well formed.
pub proof fn lemma_planned_chain_wf(config: InputFilterConfiguration)
    requires
        malformation(config).is_none(),
    ensures
        chain_wf(planned_chain(config)),
{
    let base = seq![FilterStage::Base];
    let s1 = wrap_if(base, config.sticky_keys_enabled, FilterStage::StickyKeys);
    let s2 = wrap_if(
        s1,
        config.slow_keys_threshold_ns > 0,
        FilterStage::SlowKeys { threshold_ns: config.slow_keys_threshold_ns },
    );
    let s3 = planned_chain(config);
    assert(chain_wf(base));
    assert(chain_wf(s1)) by {
        if config.sticky_keys_enabled {
            assert forall|i: int| 0 <= i < s1.len() - 1 implies stage_ok(
                #[trigger] s1[i],
            ) by {
                assert(s1[i] == FilterStage::StickyKeys);
            }
        }
    }
    assert(chain_wf(s2)) by {
        if config.slow_keys_threshold_ns > 0 {
            assert forall|i: int| 0 <= i < s2.len() - 1 implies stage_ok(
                #[trigger] s2[i],
            ) by {
                if i > 0 {
                    assert(s2[i] == s1[i - 1]);
                }
            }
        }
    }
    assert(chain_wf(s3)) by {
        if config.bounce_keys_threshold_ns > 0 {
            assert forall|i: int| 0 <= i < s3.len() - 1 implies stage_ok(
                #[trigger] s3[i],
            ) by {
                if i > 0 {
                    assert(s3[i] == s2[i - 1]);
                }
            }
        }
    }
}

/// Enabling any feature (sticky keys, or a positive slow keys or bounce keys threshold) in a
/// configuration change that goes through turns the filter on.
pub proof fn lemma_feature_enables(
    f: InputFilter,
    g: InputFilter,
    config: InputFilterConfiguration,
    timer_thread_available: bool,
)
    requires
        f.wf(),
        g.wf(),
        g.chain() == chain_after(f.chain(), config, timer_thread_available),
        rejection(config, timer_thread_available).is_none(),
        config.sticky_keys_enabled || config.slow_keys_threshold_ns > 0
            || config.bounce_keys_threshold_ns > 0,
    ensures
        g.enabled(),
{
}

/// Going back to the default configuration always goes through, whatever came before: it
/// leaves the base stage alone installed, turns the filter off, and destroys every stage of
/// the previous chain, each exactly once.
pub proof fn lemma_default_destroys_previous_chain(
    f: InputFilter,
    g: InputFilter,
    timer_thread_available: bool,
)
    requires
        f.wf(),
        g.wf(),
        g.chain() == chain_after(f.chain(), default_configuration(), timer_thread_available),
    ensures
        rejection(default_configuration(), timer_thread_available).is_none(),
        g.chain() == seq![FilterStage::Base],
        !g.enabled(),
        destroyed_by(f.chain(), default_configuration(), timer_thread_available).len()
            == f.chain().len(),
        forall|i: int|
            0 <= i < f.chain().len() ==> #[trigger] destroyed_by(
                f.chain(),
                default_configuration(),
                timer_thread_available,
            )[i] == f.chain()[i],
{
    assert(planned_chain(default_configuration()) =~= seq![FilterStage::Base]);
}

} // verus!
