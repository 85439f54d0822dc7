//! The corporate-network gate.
//!
//! When enabled, the network gate owns the proxy's live routing, swapping between the
//! configured routing (on-corp) and `Direct` (off-corp) as the network changes.
//! Detection, the routing rebuild and the on-corp report are injected, so the
//! decisions are testable anywhere; a monitor thread elsewhere calls
//! [`NetworkGate::evaluate_now`] after each network change or poll interval.

use crate::config::model::{copy_strings, DEFAULT_POLL_SECONDS};
use crate::config::Config;
use crate::netmon::{on_corp, on_corp_of};
use crate::proxy::{Routing, RoutingHandle};
use vstd::prelude::*;

verus! {

/// Whether the corporate-network gate is enabled in `config`.
pub open spec fn gate_enabled_of(config: Config) -> bool {
    match config.routing.corp_network {
        Some(c) => c.enabled,
        None => false,
    }
}

/// The effective gate parameters of a config: `(enabled, suffixes, poll
/// seconds)`. An enabled gate polls at least every second; a disabled or
/// absent gate yields a harmless default poll.
pub open spec fn params_of(config: Config) -> (bool, Seq<String>, u64) {
    match config.routing.corp_network {
        Some(c) => if c.enabled {
            (true, c.dns_suffixes@, if c.poll_seconds >= 1 { c.poll_seconds } else { 1 })
        } else {
            (false, Seq::empty(), DEFAULT_POLL_SECONDS)
        },
        None => (false, Seq::empty(), DEFAULT_POLL_SECONDS),
    }
}

/// Whether the corporate-network gate is enabled in `config`.
pub fn gate_enabled(config: &Config) -> (b: bool)
    ensures
        b == gate_enabled_of(*config),
{
    match &config.routing.corp_network {
        Some(c) => c.enabled,
        None => false,
    }
}

/// Extract the effective gate parameters from a config.
pub fn gate_params(config: &Config) -> (p: (bool, Vec<String>, u64))
    ensures
        (p.0, p.1@, p.2) == params_of(*config),
{
    match &config.routing.corp_network {
        Some(c) => if c.enabled {
            let poll = if c.poll_seconds >= 1 {
                c.poll_seconds
            } else {
                1
            };
            (true, copy_strings(&c.dns_suffixes), poll)
        } else {
            let v: Vec<String> = Vec::new();
            assert(v@ =~= Seq::<String>::empty());
            (false, v, DEFAULT_POLL_SECONDS)
        },
        None => {
            let v: Vec<String> = Vec::new();
            assert(v@ =~= Seq::<String>::empty());
            (false, v, DEFAULT_POLL_SECONDS)
        },
    }
}

/// The abstract state of a gate.
pub struct GateView {
    pub enabled: bool,
    pub suffixes: Seq<String>,
    pub poll_seconds: u64,
    /// The last applied on-corp decision; `None` forces the next evaluation
    /// to apply.
    pub last: Option<bool>,
}

/// The network gate a config sets up, before any evaluation.
pub open spec fn fresh_gate(config: Config) -> GateView {
    let (enabled, suffixes, poll_seconds) = params_of(config);
    GateView { enabled, suffixes, poll_seconds, last: None }
}

/// One evaluation against the active suffixes: a disabled gate does nothing;
/// an enabled one decides on-corp and applies the decision only when it
/// differs from the last applied one.
pub open spec fn gate_step(v: GateView, active: Seq<String>) -> (GateView, Option<bool>) {
    if !v.enabled {
        (v, None)
    } else {
        let corp = on_corp_of(active, v.suffixes);
        if v.last == Some(corp) {
            (v, None)
        } else {
            (GateView { last: Some(corp), ..v }, Some(corp))
        }
    }
}

/// The network gate's decision state.
pub struct GateCore {
    enabled: bool,
    suffixes: Vec<String>,
    poll_seconds: u64,
    config: Config,
    last: Option<bool>,
}

impl View for GateCore {
    type V = GateView;

    closed spec fn view(&self) -> GateView {
        GateView {
            enabled: self.enabled,
            suffixes: self.suffixes@,
            poll_seconds: self.poll_seconds,
            last: self.last,
        }
    }
}

impl GateCore {
    /// The config the network gate rebuilds routing from.
    pub closed spec fn spec_config(&self) -> Config {
        self.config
    }

    /// A gate for `config`, not yet evaluated.
    pub fn new(config: Config) -> (g: Self)
        ensures
            g@ == fresh_gate(config),
            g.spec_config() == config,
    {
        let (enabled, suffixes, poll_seconds) = gate_params(&config);
        GateCore { enabled, suffixes, poll_seconds, config, last: None }
    }

    /// Whether the network gate is gating.
    pub fn enabled(&self) -> (b: bool)
        ensures
            b == self@.enabled,
    {
        self.enabled
    }

    /// How often the monitor re-checks, in seconds.
    pub fn poll_seconds(&self) -> (s: u64)
        ensures
            s == self@.poll_seconds,
    {
        self.poll_seconds
    }

    /// The config the network gate rebuilds routing from.
    pub fn config(&self) -> (c: &Config)
        ensures
            *c == self.spec_config(),
    {
        &self.config
    }

    /// Evaluate against the active suffixes: the on-corp decision to apply,
    /// if it changed.
    pub fn evaluate(&mut self, active: &[String]) -> (applied: Option<bool>)
        ensures
            (final(self)@, applied) == gate_step(old(self)@, active@),
            final(self).spec_config() == old(self).spec_config(),
    {
        if !self.enabled {
            return None;
        }
        let corp = on_corp(active, self.suffixes.as_slice());
        if self.last == Some(corp) {
            return None;
        }
        self.last = Some(corp);
        Some(corp)
    }

    /// Adopt a new config: refresh suffixes and poll, and forget the last
    /// decision so the next evaluation applies.
    pub fn reconfigure(&mut self, config: Config)
        ensures
            final(self)@ == fresh_gate(config),
            final(self).spec_config() == config,
    {
        let (enabled, suffixes, poll_seconds) = gate_params(&config);
        self.enabled = enabled;
        self.suffixes = suffixes;
        self.poll_seconds = poll_seconds;
        self.config = config;
        self.last = None;
    }
}

/// The corporate-network gate over a live routing handle, with injected
/// routing `rebuild`, suffix `detect` and on-corp `report`.
pub struct NetworkGate<R, D, P> {
    routing: RoutingHandle,
    core: GateCore,
    rebuild: R,
    detect: D,
    report: P,
    /// The routing last handed to the live handle, if any.
    applied: Ghost<Option<Routing>>,
    /// The on-corp state last reported, if any.
    reported: Ghost<Option<Option<bool>>>,
}

impl<R, D, P> NetworkGate<R, D, P> where
    R: Fn(&Config) -> Routing,
    D: Fn() -> Vec<String>,
    P: Fn(Option<bool>),
 {
    /// The network gate's decision state.
    pub closed spec fn spec_core(&self) -> GateView {
        self.core@
    }

    /// The injected suffix detection.
    pub closed spec fn spec_detect(&self) -> D {
        self.detect
    }

    /// The injected routing rebuild.
    pub closed spec fn spec_rebuild(&self) -> R {
        self.rebuild
    }

    /// The config the network gate rebuilds routing from.
    pub closed spec fn spec_config(&self) -> Config {
        self.core.spec_config()
    }

    /// The routing last handed to the live handle, if any.
    pub closed spec fn spec_applied(&self) -> Option<Routing> {
        self.applied@
    }

    /// The on-corp state last reported, if any.
    pub closed spec fn spec_reported(&self) -> Option<Option<bool>> {
        self.reported@
    }

    /// What an evaluation that decided `d` leaves applied and reported,
    /// from `before` to `after`: without a decision nothing new; with one,
    /// its on-corp state is reported and the routing applied is the one
    /// `rebuild` gives for `config` on-corp, `Direct` off-corp.
    pub open spec fn decision_effect(rebuild: R, config: Config, d: Option<bool>, before: Self, after: Self) -> bool {
        match d {
            None => after.spec_applied() == before.spec_applied() && after.spec_reported()
                == before.spec_reported(),
            Some(c) => after.spec_reported() == Some(Some(c)) && if c {
                after.spec_applied() matches Some(r) && call_ensures(rebuild, (&config,), r)
            } else {
                after.spec_applied() == Some(Routing::Direct)
            },
        }
    }

    /// The injected calls accept every argument.
    pub closed spec fn callable(&self) -> bool {
        &&& forall|c: &Config| call_requires(self.rebuild, (c,))
        &&& call_requires(self.detect, ())
        &&& forall|s: Option<bool>| call_requires(self.report, (s,))
    }

    /// Build a gate from the current `config`.
    pub fn new(routing: RoutingHandle, config: Config, rebuild: R, detect: D, report: P) -> (g: Self)
        requires
            forall|c: &Config| call_requires(rebuild, (c,)),
            call_requires(detect, ()),
            forall|s: Option<bool>| call_requires(report, (s,)),
        ensures
            g.spec_core() == fresh_gate(config),
            g.spec_config() == config,
            g.spec_detect() == detect,
            g.spec_rebuild() == rebuild,
            g.spec_applied() == None::<Routing>,
            g.spec_reported() == None::<Option<bool>>,
            g.callable(),
    {
        NetworkGate {
            routing,
            core: GateCore::new(config),
            rebuild,
            detect,
            report,
            applied: Ghost(None),
            reported: Ghost(None),
        }
    }

    /// How often the monitor re-checks, in seconds.
    pub fn poll_seconds(&self) -> (s: u64)
        ensures
            s == self.spec_core().poll_seconds,
    {
        self.core.poll_seconds()
    }

    /// Swap the live routing for the given on-corp state and report it:
    /// on-corp the routing rebuilt from the config, off-corp `Direct`.
    fn apply(&mut self, corp: bool)
        requires
            old(self).callable(),
        ensures
            final(self).callable(),
            final(self).spec_core() == old(self).spec_core(),
            final(self).spec_detect() == old(self).spec_detect(),
            final(self).spec_rebuild() == old(self).spec_rebuild(),
            final(self).spec_config() == old(self).spec_config(),
            final(self).spec_reported() == Some(Some(corp)),
            corp ==> (final(self).spec_applied() matches Some(r) && call_ensures(
                old(self).spec_rebuild(),
                (&old(self).spec_config(),),
                r,
            )),
            !corp ==> final(self).spec_applied() == Some(Routing::Direct),
    {
        let routing = if corp {
            (self.rebuild)(self.core.config())
        } else {
            Routing::Direct
        };
        let ghost stored = routing;
        self.routing.set(routing);
        self.applied = Ghost(Some(stored));
        (self.report)(Some(corp));
        self.reported = Ghost(Some(Some(corp)));
    }

    /// Detect the current network and, if the on-corp decision changed, swap
    /// the live routing (fresh on-corp routing, or `Direct` off-corp). Does
    /// nothing, not even detection, while the network gate is disabled.
    pub fn evaluate_now(&mut self)
        requires
            old(self).callable(),
        ensures
            final(self).callable(),
            final(self).spec_detect() == old(self).spec_detect(),
            final(self).spec_rebuild() == old(self).spec_rebuild(),
            final(self).spec_config() == old(self).spec_config(),
            !old(self).spec_core().enabled ==> final(self).spec_core() == old(self).spec_core()
                && final(self).spec_applied() == old(self).spec_applied() && final(self).spec_reported()
                == old(self).spec_reported(),
            old(self).spec_core().enabled ==> exists|active: Vec<String>|
                call_ensures(old(self).spec_detect(), (), active) && #[trigger] gate_step(
                    old(self).spec_core(),
                    active@,
                ).0 == final(self).spec_core() && Self::decision_effect(
                    old(self).spec_rebuild(),
                    old(self).spec_config(),
                    gate_step(old(self).spec_core(), active@).1,
                    *old(self),
                    *final(self),
                ),
    {
        if !self.core.enabled() {
            return;
        }
        let active = (self.detect)();
        let applied = self.core.evaluate(active.as_slice());
        match applied {
            Some(corp) => self.apply(corp),
            None => {},
        }
        assert(gate_step(old(self).spec_core(), active@).0 == self.spec_core());
        assert(Self::decision_effect(
            old(self).spec_rebuild(),
            old(self).spec_config(),
            gate_step(old(self).spec_core(), active@).1,
            *old(self),
            *self,
        ));
    }

    /// Adopt a new config, re-evaluating now. If the network gate was turned off,
    /// apply the plain configured routing once, report no on-corp state, and
    /// go dormant.
    pub fn reconfigure(&mut self, config: Config)
        requires
            old(self).callable(),
        ensures
            final(self).callable(),
            final(self).spec_detect() == old(self).spec_detect(),
            final(self).spec_rebuild() == old(self).spec_rebuild(),
            final(self).spec_config() == config,
            !gate_enabled_of(config) ==> final(self).spec_core() == fresh_gate(config)
                && final(self).spec_reported() == Some(None::<bool>) && (final(self).spec_applied() matches Some(r)
                && call_ensures(old(self).spec_rebuild(), (&config,), r)),
            gate_enabled_of(config) ==> exists|active: Vec<String>|
                call_ensures(old(self).spec_detect(), (), active) && #[trigger] gate_step(
                    fresh_gate(config),
                    active@,
                ).0 == final(self).spec_core() && Self::decision_effect(
                    old(self).spec_rebuild(),
                    config,
                    gate_step(fresh_gate(config), active@).1,
                    *old(self),
                    *final(self),
                ),
    {
        self.core.reconfigure(config);
        if self.core.enabled() {
            self.evaluate_now();
        } else {
            let routing = (self.rebuild)(self.core.config());
            let ghost stored = routing;
            self.routing.set(routing);
            self.applied = Ghost(Some(stored));
            (self.report)(None);
            self.reported = Ghost(Some(None));
        }
    }
}

/// The network gate only applies a decision on change: evaluating again against the
/// same network applies nothing.
pub proof fn law_applies_only_on_change(v: GateView, active: Seq<String>)
    ensures
        gate_step(gate_step(v, active).0, active).1 is None,
        gate_step(gate_step(v, active).0, active).0 == gate_step(v, active).0,
{
}

/// A disabled gate never gates: it applies nothing and keeps its state.
pub proof fn law_disabled_gate_is_dormant(v: GateView, active: Seq<String>)
    requires
        !v.enabled,
    ensures
        gate_step(v, active) == (v, None::<bool>),
{
}

/// A freshly (re)configured enabled gate always applies its first decision.
pub proof fn law_fresh_gate_applies(config: Config, active: Seq<String>)
    requires
        gate_enabled_of(config),
    ensures
        gate_step(fresh_gate(config), active).1 == Some(on_corp_of(active, params_of(config).1)),
{
}


/// An enabled gate watches exactly the configured DNS suffixes, all of them
/// in order, and polls at the configured interval (at least one second); its
/// first evaluation decides on-corp against those configured suffixes.
pub proof fn law_gate_watches_configured_suffixes(config: Config, active: Seq<String>)
    requires
        config.routing.corp_network is Some,
        config.routing.corp_network->Some_0.enabled,
    ensures
        fresh_gate(config).enabled,
        fresh_gate(config).suffixes == config.routing.corp_network->Some_0.dns_suffixes@,
        fresh_gate(config).poll_seconds >= 1,
        config.routing.corp_network->Some_0.poll_seconds >= 1 ==> fresh_gate(config).poll_seconds
            == config.routing.corp_network->Some_0.poll_seconds,
        fresh_gate(config).last is None,
        gate_step(fresh_gate(config), active).1 == Some(
            on_corp_of(active, config.routing.corp_network->Some_0.dns_suffixes@),
        ),
{
}

} // verus!
