//! The probing engine: one cache entry per logical fact, filled by the
//! fallback chain and cleared only by explicit invalidation - never by
//! time. The engine decides; the calling layer performs each requested
//! invocation and feeds the result back.

use vstd::prelude::*;

use crate::chain::{
    chain_feed, chain_start, next_call, spec_chain_feed, spec_chain_start, spec_event_view,
    ChainState, ChainStateView,
};
use crate::outcome::{InvocationError, ProbeOutcome, ProbeOutcomeView};
use crate::probe::{LogicalFact, ProbeCall, RawProbeOutput};
use crate::version::SemanticVersion;

verus! {

/// What the engine asks of the calling layer after each step: nothing -
/// the requested fact's entry is ready to read - or one invocation,
/// whose result is to be fed back.
#[derive(Clone, Copy, Debug, PartialEq, Eq, Structural)]
pub enum EngineStep {
    /// The fact's outcome is in the cache; read it with `lookup`.
    Ready,
    /// Perform this call and feed its result back.
    AwaitProbe(ProbeCall),
}

/// The engine: the version read once at startup, the last outcome per
/// fact, and the chain in flight, if any.
#[derive(Debug)]
pub struct Engine {
    pub version: Option<SemanticVersion>,
    pub power: Option<ProbeOutcome>,
    pub current: Option<ProbeOutcome>,
    pub nearby: Option<ProbeOutcome>,
    pub config: Option<ProbeOutcome>,
    pub active: Option<ChainState>,
}

#[verifier::ext_equal]
pub struct EngineView {
    pub version: Option<SemanticVersion>,
    pub power: Option<ProbeOutcomeView>,
    pub current: Option<ProbeOutcomeView>,
    pub nearby: Option<ProbeOutcomeView>,
    pub config: Option<ProbeOutcomeView>,
    pub active: Option<ChainStateView>,
}

pub open spec fn spec_opt_outcome(o: Option<ProbeOutcome>) -> Option<ProbeOutcomeView> {
    match o {
        Some(v) => Some(v@),
        None => None,
    }
}

impl View for Engine {
    type V = EngineView;

    open spec fn view(&self) -> EngineView {
        EngineView {
            version: self.version,
            power: spec_opt_outcome(self.power),
            current: spec_opt_outcome(self.current),
            nearby: spec_opt_outcome(self.nearby),
            config: spec_opt_outcome(self.config),
            active: (match self.active {
                Some(c) => Some(c@),
                None => None,
            }),
        }
    }
}

/// The cached entry of one fact.
pub open spec fn spec_entry(e: EngineView, fact: LogicalFact) -> Option<ProbeOutcomeView> {
    match fact {
        LogicalFact::WirelessPower => e.power,
        LogicalFact::CurrentNetworkName => e.current,
        LogicalFact::NearbyNetworkSet => e.nearby,
        LogicalFact::SecurityConfigBits => e.config,
    }
}

/// The engine with one fact's entry replaced; the other facts' entries
/// are independent and untouched.
pub open spec fn spec_set_entry(
    e: EngineView,
    fact: LogicalFact,
    o: Option<ProbeOutcomeView>,
) -> EngineView {
    match fact {
        LogicalFact::WirelessPower => EngineView { power: o, ..e },
        LogicalFact::CurrentNetworkName => EngineView { current: o, ..e },
        LogicalFact::NearbyNetworkSet => EngineView { nearby: o, ..e },
        LogicalFact::SecurityConfigBits => EngineView { config: o, ..e },
    }
}

impl EngineView {
    /// At most one probe runs at a time, and while one runs its chain is
    /// consistent and unsettled.
    pub open spec fn wf(self) -> bool {
        match self.active {
            Some(c) => c.wf() && c.outcome is None,
            None => true,
        }
    }
}

/// What a request does: a cached fact is answered from the cache with
/// the engine untouched; otherwise the chain starts - immediately
/// settling as `Unsupported` and caching that when nothing is eligible,
/// else asking for the first eligible strategy's call.
pub open spec fn spec_request(e: EngineView, fact: LogicalFact) -> (EngineView, EngineStep) {
    match spec_entry(e, fact) {
        Some(_) => (e, EngineStep::Ready),
        None => {
            let c = spec_chain_start(fact, e.version);
            match c.outcome {
                Some(o) => (spec_set_entry(e, fact, Some(o)), EngineStep::Ready),
                None => (
                    EngineView { active: Some(c), ..e },
                    EngineStep::AwaitProbe(c.eligible[0].call),
                ),
            }
        },
    }
}

/// What feeding one invocation result does: the chain advances; once it
/// settles, its outcome is stored under its fact and the engine is idle
/// again, else the next strategy's call is asked for.
pub open spec fn spec_feed(
    e: EngineView,
    ev: Result<crate::probe::RawProbeOutputView, crate::outcome::InvocationErrorView>,
) -> (EngineView, EngineStep) {
    let c0 = (match e.active {
        Some(c) => c,
        None => spec_chain_start(LogicalFact::WirelessPower, e.version),
    });
    let c2 = spec_chain_feed(c0, ev);
    match c2.outcome {
        Some(o) => (
            spec_set_entry(EngineView { active: None, ..e }, c2.fact, Some(o)),
            EngineStep::Ready,
        ),
        None => (
            EngineView { active: Some(c2), ..e },
            EngineStep::AwaitProbe(c2.eligible[c2.tried].call),
        ),
    }
}

impl Engine {
    /// A fresh engine: the version as detected once at startup, every
    /// cache entry empty, no probe in flight.
    pub fn new(version: Option<SemanticVersion>) -> (e: Engine)
        ensures
            e@.version == version,
            e@.power is None,
            e@.current is None,
            e@.nearby is None,
            e@.config is None,
            e@.active is None,
            e@.wf(),
    {
        Engine { version, power: None, current: None, nearby: None, config: None, active: None }
    }

    /// Read a fact's cached outcome. Callers never see which strategy
    /// produced it, only the fact's current value.
    pub fn lookup(&self, fact: LogicalFact) -> (r: &Option<ProbeOutcome>)
        ensures
            spec_opt_outcome(*r) == spec_entry(self@, fact),
    {
        match fact {
            LogicalFact::WirelessPower => &self.power,
            LogicalFact::CurrentNetworkName => &self.current,
            LogicalFact::NearbyNetworkSet => &self.nearby,
            LogicalFact::SecurityConfigBits => &self.config,
        }
    }

    /// Clear one fact's entry unconditionally: the explicit reload, or
    /// the invalidation after a state-changing action on the same fact.
    pub fn invalidate(&mut self, fact: LogicalFact)
        ensures
            final(self)@ == spec_set_entry(old(self)@, fact, None::<ProbeOutcomeView>),
    {
        match fact {
            LogicalFact::WirelessPower => {
                self.power = None;
            },
            LogicalFact::CurrentNetworkName => {
                self.current = None;
            },
            LogicalFact::NearbyNetworkSet => {
                self.nearby = None;
            },
            LogicalFact::SecurityConfigBits => {
                self.config = None;
            },
        }
        proof {
            assert(self@ =~= spec_set_entry(old(self)@, fact, None::<ProbeOutcomeView>));
        }
    }

    /// Return the cached outcome if present, else start the fallback
    /// chain for the fact.
    pub fn get_or_probe(&mut self, fact: LogicalFact) -> (step: EngineStep)
        requires
            old(self)@.active is None,
        ensures
            (final(self)@, step) == spec_request(old(self)@, fact),
            final(self)@.wf(),
    {
        let cached = match fact {
            LogicalFact::WirelessPower => self.power.is_some(),
            LogicalFact::CurrentNetworkName => self.current.is_some(),
            LogicalFact::NearbyNetworkSet => self.nearby.is_some(),
            LogicalFact::SecurityConfigBits => self.config.is_some(),
        };
        if cached {
            return EngineStep::Ready;
        }
        let c = chain_start(fact, &self.version);
        match next_call(&c) {
            Some(call) => {
                self.active = Some(c);
                proof {
                    assert(self@ =~= (EngineView {
                        active: Some(spec_chain_start(fact, old(self)@.version)),
                        ..old(self)@
                    }));
                }
                EngineStep::AwaitProbe(call)
            },
            None => {
                let outcome = match c.outcome {
                    Some(o) => o,
                    None => vstd::pervasive::unreached(),
                };
                let ghost ov = outcome@;
                match fact {
                    LogicalFact::WirelessPower => {
                        self.power = Some(outcome);
                    },
                    LogicalFact::CurrentNetworkName => {
                        self.current = Some(outcome);
                    },
                    LogicalFact::NearbyNetworkSet => {
                        self.nearby = Some(outcome);
                    },
                    LogicalFact::SecurityConfigBits => {
                        self.config = Some(outcome);
                    },
                }
                proof {
                    assert(self@ =~= spec_set_entry(old(self)@, fact, Some(ov)));
                }
                EngineStep::Ready
            },
        }
    }

    /// The wireless radio's power state, from the cache or by probing.
    pub fn wireless_power(&mut self) -> (step: EngineStep)
        requires
            old(self)@.active is None,
        ensures
            (final(self)@, step) == spec_request(old(self)@, LogicalFact::WirelessPower),
            final(self)@.wf(),
    {
        self.get_or_probe(LogicalFact::WirelessPower)
    }

    /// The current network's name, from the cache or by probing.
    pub fn current_network_name(&mut self) -> (step: EngineStep)
        requires
            old(self)@.active is None,
        ensures
            (final(self)@, step) == spec_request(old(self)@, LogicalFact::CurrentNetworkName),
            final(self)@.wf(),
    {
        self.get_or_probe(LogicalFact::CurrentNetworkName)
    }

    /// The nearby networks, from the cache or by probing.
    pub fn nearby_networks(&mut self) -> (step: EngineStep)
        requires
            old(self)@.active is None,
        ensures
            (final(self)@, step) == spec_request(old(self)@, LogicalFact::NearbyNetworkSet),
            final(self)@.wf(),
    {
        self.get_or_probe(LogicalFact::NearbyNetworkSet)
    }

    /// The security-configuration bitfield, from the cache or by probing.
    pub fn security_config_bits(&mut self) -> (step: EngineStep)
        requires
            old(self)@.active is None,
        ensures
            (final(self)@, step) == spec_request(old(self)@, LogicalFact::SecurityConfigBits),
            final(self)@.wf(),
    {
        self.get_or_probe(LogicalFact::SecurityConfigBits)
    }

    /// The explicit reload: drop the cached entry and probe afresh.
    pub fn reload(&mut self, fact: LogicalFact) -> (step: EngineStep)
        requires
            old(self)@.active is None,
        ensures
            (final(self)@, step) == spec_request(
                spec_set_entry(old(self)@, fact, None::<ProbeOutcomeView>),
                fact,
            ),
            final(self)@.wf(),
    {
        self.invalidate(fact);
        self.get_or_probe(fact)
    }

    /// Feed the result of the invocation the engine last asked for.
    pub fn feed(&mut self, event: Result<RawProbeOutput, InvocationError>) -> (step: EngineStep)
        requires
            old(self)@.active is Some,
            old(self)@.wf(),
        ensures
            (final(self)@, step) == spec_feed(old(self)@, spec_event_view(event)),
            final(self)@.wf(),
    {
        let chain = match self.active.take() {
            Some(c) => c,
            None => vstd::pervasive::unreached(),
        };
        let c2 = chain_feed(chain, event);
        let ChainState { fact, eligible, tried, causes, outcome } = c2;
        match outcome {
            Some(o) => {
                let ghost ov = o@;
                match fact {
                    LogicalFact::WirelessPower => {
                        self.power = Some(o);
                    },
                    LogicalFact::CurrentNetworkName => {
                        self.current = Some(o);
                    },
                    LogicalFact::NearbyNetworkSet => {
                        self.nearby = Some(o);
                    },
                    LogicalFact::SecurityConfigBits => {
                        self.config = Some(o);
                    },
                }
                proof {
                    assert(self@ =~= spec_set_entry(
                        EngineView { active: None, ..old(self)@ },
                        fact,
                        Some(ov),
                    ));
                }
                EngineStep::Ready
            },
            None => {
                let call = eligible[tried].call;
                self.active = Some(ChainState { fact, eligible, tried, causes, outcome: None });
                proof {
                    assert(self@ =~= (EngineView {
                        active: Some(
                            spec_chain_feed(
                                (match old(self)@.active {
                                    Some(c) => c,
                                    None => spec_chain_start(
                                        LogicalFact::WirelessPower,
                                        old(self)@.version,
                                    ),
                                }),
                                spec_event_view(event),
                            ),
                        ),
                        ..old(self)@
                    }));
                }
                EngineStep::AwaitProbe(call)
            },
        }
    }
}

// ---------------------------------------------------------------------------
// Laws of the cache
// ---------------------------------------------------------------------------

/// Law (cache hit): a request for a fact whose entry is present is
/// answered from the cache - the engine is unchanged and no invocation,
/// hence no chain, is started.
pub proof fn lemma_cached_request_probes_nothing(e: EngineView, fact: LogicalFact)
    requires
        spec_entry(e, fact) is Some,
    ensures
        spec_request(e, fact) == (e, EngineStep::Ready),
{
}

/// Law (probe at most once): whenever a request answers `Ready`, the
/// fact's entry is cached afterwards, so a second request without an
/// intervening invalidation answers from the cache and changes nothing:
/// the chain runs at most once between invalidations.
pub proof fn lemma_ready_request_caches(e: EngineView, fact: LogicalFact)
    requires
        spec_request(e, fact).1 == EngineStep::Ready,
    ensures
        spec_entry(spec_request(e, fact).0, fact) is Some,
        spec_request(spec_request(e, fact).0, fact) == (spec_request(e, fact).0, EngineStep::Ready),
{
}

/// Law (probe at most once, through feeds): when a fed result settles
/// the running chain, the outcome is cached under the chain's fact, so
/// the next request for it is answered from the cache with the engine
/// unchanged.
pub proof fn lemma_ready_feed_caches(
    e: EngineView,
    c: ChainStateView,
    ev: Result<crate::probe::RawProbeOutputView, crate::outcome::InvocationErrorView>,
)
    requires
        e.active == Some(c),
        spec_feed(e, ev).1 == EngineStep::Ready,
    ensures
        spec_entry(spec_feed(e, ev).0, c.fact) is Some,
        spec_request(spec_feed(e, ev).0, c.fact) == (spec_feed(e, ev).0, EngineStep::Ready),
{
    assert(spec_chain_feed(c, ev).fact == c.fact);
}

/// Law (invalidate forces a fresh probe): after invalidation the fact's
/// entry is gone, so the next request starts the chain anew: it asks for
/// the first eligible strategy's call, or immediately reports
/// `Unsupported` when nothing is eligible.
pub proof fn lemma_invalidate_forces_fresh_probe(e: EngineView, fact: LogicalFact)
    ensures
        ({
            let e2 = spec_set_entry(e, fact, None::<ProbeOutcomeView>);
            let c = spec_chain_start(fact, e.version);
            &&& spec_entry(e2, fact) is None
            &&& (c.eligible.len() == 0 ==> spec_request(e2, fact) == (
                spec_set_entry(e2, fact, Some(ProbeOutcomeView::Unsupported)),
                EngineStep::Ready,
            ))
            &&& (c.eligible.len() > 0 ==> spec_request(e2, fact) == (
                EngineView { active: Some(c), ..e2 },
                EngineStep::AwaitProbe(c.eligible[0].call),
            ))
        }),
{
    let e2 = spec_set_entry(e, fact, None::<ProbeOutcomeView>);
    assert(e2.version == e.version);
}

/// Law (independent entries): invalidating one fact leaves every other
/// fact's entry as it was.
pub proof fn lemma_invalidate_is_local(e: EngineView, fact: LogicalFact, other: LogicalFact)
    requires
        other != fact,
    ensures
        spec_entry(spec_set_entry(e, fact, None::<ProbeOutcomeView>), other) == spec_entry(
            e,
            other,
        ),
{
}

} // verus!
