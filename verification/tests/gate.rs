use std::sync::atomic::{AtomicUsize, Ordering};
use std::sync::{Arc, Mutex};
use zicade::config::{Config, CorpNetworkConfig};
use zicade::gate::{gate_enabled, gate_params, GateCore, NetworkGate};
use zicade::proxy::{Routing, RoutingHandle, UpstreamAuth, UpstreamTarget};

type Rebuild = Box<dyn Fn(&Config) -> Routing + Send>;
type Detect = Box<dyn Fn() -> Vec<String> + Send>;
type Report = Box<dyn Fn(Option<bool>) + Send>;

fn corp_config(suffixes: &[&str]) -> Config {
    let mut cfg = Config::default();
    cfg.routing.corp_network = Some(CorpNetworkConfig {
        enabled: true,
        dns_suffixes: suffixes.iter().map(|s| (*s).to_owned()).collect(),
        poll_seconds: 30,
    });
    cfg
}

fn intended() -> Routing {
    Routing::Upstream(UpstreamTarget {
        addr: "wp8080:8080".to_owned(),
        auth: UpstreamAuth::NoAuth,
    })
}

fn label(handle: &RoutingHandle) -> String {
    handle.current().label().to_owned()
}

fn test_gate(
    config: Config,
    active: Arc<Mutex<Vec<String>>>,
    transitions: Arc<AtomicUsize>,
) -> (NetworkGate<Rebuild, Detect, Report>, RoutingHandle) {
    let handle = RoutingHandle::new(Routing::Direct);
    let gate = NetworkGate::new(
        handle.clone(),
        config,
        Box::new(|_cfg: &Config| intended()) as Rebuild,
        Box::new(move || active.lock().unwrap().clone()) as Detect,
        Box::new(move |_state: Option<bool>| {
            transitions.fetch_add(1, Ordering::SeqCst);
        }) as Report,
    );
    (gate, handle)
}

#[test]
fn on_corp_applies_intended_routing() {
    let active = Arc::new(Mutex::new(vec!["dy.droot.org".to_owned()]));
    let (mut gate, handle) = test_gate(
        corp_config(&["droot.org"]),
        active,
        Arc::new(AtomicUsize::new(0)),
    );
    gate.evaluate_now();
    assert_eq!(label(&handle), "Upstream", "on-corp uses configured routing");
}

#[test]
fn off_corp_falls_back_to_direct() {
    let active = Arc::new(Mutex::new(vec!["home.lan".to_owned()]));
    let (mut gate, handle) = test_gate(
        corp_config(&["droot.org"]),
        active,
        Arc::new(AtomicUsize::new(0)),
    );
    gate.evaluate_now();
    assert_eq!(label(&handle), "Direct", "off-corp routes Direct");
}

#[test]
fn only_applies_on_change() {
    let active = Arc::new(Mutex::new(vec!["home.lan".to_owned()]));
    let transitions = Arc::new(AtomicUsize::new(0));
    let (mut gate, handle) = test_gate(
        corp_config(&["droot.org"]),
        Arc::clone(&active),
        Arc::clone(&transitions),
    );

    gate.evaluate_now();
    gate.evaluate_now();
    assert_eq!(transitions.load(Ordering::SeqCst), 1);
    assert_eq!(label(&handle), "Direct");

    *active.lock().unwrap() = vec!["dy.droot.org".to_owned()];
    gate.evaluate_now();
    gate.evaluate_now();
    assert_eq!(transitions.load(Ordering::SeqCst), 2);
    assert_eq!(label(&handle), "Upstream");
}

#[test]
fn reconfigure_disable_applies_configured_routing_and_stops_gating() {
    let active = Arc::new(Mutex::new(vec!["home.lan".to_owned()]));
    let (mut gate, handle) = test_gate(
        corp_config(&["droot.org"]),
        Arc::clone(&active),
        Arc::new(AtomicUsize::new(0)),
    );
    gate.evaluate_now();
    assert_eq!(label(&handle), "Direct");

    gate.reconfigure(Config::default());
    assert_eq!(label(&handle), "Upstream", "disabled gate uses configured routing");
    gate.evaluate_now();
    assert_eq!(label(&handle), "Upstream", "disabled gate no longer gates");
}

#[test]
fn gate_params_of_default_config_are_disabled() {
    let cfg = Config::default();
    assert!(!gate_enabled(&cfg));
    let (enabled, suffixes, poll) = gate_params(&cfg);
    assert!(!enabled);
    assert!(suffixes.is_empty());
    assert_eq!(poll, 30);
}

#[test]
fn gate_params_clamp_zero_poll_to_one_second() {
    let mut cfg = corp_config(&["droot.org"]);
    cfg.routing.corp_network.as_mut().unwrap().poll_seconds = 0;
    let (enabled, suffixes, poll) = gate_params(&cfg);
    assert!(enabled);
    assert_eq!(suffixes, vec!["droot.org".to_owned()]);
    assert_eq!(poll, 1);
}

#[test]
fn gate_core_applies_only_changed_decisions() {
    let mut core = GateCore::new(corp_config(&["droot.org"]));
    assert!(core.enabled());
    assert_eq!(core.poll_seconds(), 30);
    let home = vec!["home.lan".to_owned()];
    let corp = vec!["dy.droot.org".to_owned()];
    assert_eq!(core.evaluate(&home), Some(false));
    assert_eq!(core.evaluate(&home), None);
    assert_eq!(core.evaluate(&corp), Some(true));
    assert_eq!(core.evaluate(&corp), None);
    core.reconfigure(corp_config(&["droot.org"]));
    assert_eq!(core.evaluate(&corp), Some(true));
}

#[test]
fn disabled_gate_core_never_applies() {
    let mut core = GateCore::new(Config::default());
    assert!(!core.enabled());
    assert_eq!(core.evaluate(&["dy.droot.org".to_owned()]), None);
    assert_eq!(core.evaluate(&["home.lan".to_owned()]), None);
}
