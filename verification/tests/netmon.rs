use zicade::netmon::{normalize, on_corp};

fn v(items: &[&str]) -> Vec<String> {
    items.iter().map(|s| (*s).to_owned()).collect()
}

#[test]
fn exact_suffix_matches() {
    assert!(on_corp(&v(&["droot.org"]), &v(&["droot.org"])));
}

#[test]
fn subdomain_matches_on_dot_boundary() {
    assert!(on_corp(&v(&["dy.droot.org"]), &v(&["droot.org"])));
}

#[test]
fn is_case_insensitive() {
    assert!(on_corp(&v(&["DY.DRoot.Org"]), &v(&["droot.org"])));
}

#[test]
fn ignores_leading_dots_and_whitespace() {
    assert!(on_corp(&v(&["  .dy.droot.org. "]), &v(&[" .droot.org "])));
}

#[test]
fn non_dot_boundary_does_not_match() {
    // "notdroot.org" must NOT be treated as inside "droot.org".
    assert!(!on_corp(&v(&["notdroot.org"]), &v(&["droot.org"])));
}

#[test]
fn no_active_suffix_is_off_corp() {
    assert!(!on_corp(&[], &v(&["droot.org"])));
}

#[test]
fn empty_configured_is_off_corp() {
    // A misconfigured/empty suffix list never reports on-corp.
    assert!(!on_corp(&v(&["dy.droot.org"]), &[]));
    assert!(!on_corp(&v(&["dy.droot.org"]), &v(&["", "  "])));
}

#[test]
fn matches_any_of_several_configured() {
    let configured = v(&["corp.example", "droot.org"]);
    assert!(on_corp(&v(&["home.lan", "dy.droot.org"]), &configured));
    assert!(!on_corp(&v(&["home.lan", "guest.wifi"]), &configured));
}

#[test]
fn normalize_strips_dots_whitespace_and_case() {
    let n = normalize("  ..Corp.Example.. ").expect("non-empty");
    assert_eq!(n.iter().collect::<String>(), "corp.example");
    assert!(normalize(" . ").is_none());
    assert!(normalize("").is_none());
}

#[test]
fn suffix_matching_itself_is_on_corp() {
    assert!(on_corp(&v(&["corp.example"]), &v(&["corp.example"])));
    // The configured suffix being longer than the active one never matches.
    assert!(!on_corp(&v(&["example"]), &v(&["corp.example"])));
}

#[test]
fn more_adapters_keep_on_corp() {
    let configured = v(&["droot.org"]);
    assert!(on_corp(&v(&["dy.droot.org"]), &configured));
    assert!(on_corp(&v(&["dy.droot.org", "home.lan"]), &configured));
}
