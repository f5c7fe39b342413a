use sidecar_orchestration::runtime_options::{
    bun_env_overrides, is_valid_dns_result_order, sanitize_dns_result_order_args,
};

fn find<'a>(overrides: &'a [(String, String)], key: &str) -> Option<&'a str> {
    overrides
        .iter()
        .find(|(k, _)| k == key)
        .map(|(_, v)| v.as_str())
}

#[test]
fn strips_invalid_dns_result_order_from_bun_options() {
    let overrides = bun_env_overrides(Some("--smol --dns-result-order=ipv6first --hot"), None);
    assert_eq!(find(&overrides, "BUN_OPTIONS"), Some("--smol --hot"));
}

#[test]
fn strips_invalid_split_dns_result_order_from_node_options() {
    let overrides = bun_env_overrides(None, Some("--max-old-space-size=4096 --dns-result-order weird"));
    assert_eq!(find(&overrides, "NODE_OPTIONS"), Some("--max-old-space-size=4096"));
}

#[test]
fn keeps_valid_dns_result_order_flags() {
    let overrides = bun_env_overrides(
        Some("--dns-result-order=ipv4first"),
        Some("--dns-result-order verbatim"),
    );
    assert!(!overrides.iter().any(|(key, _)| key == "BUN_OPTIONS"));
    assert!(!overrides.iter().any(|(key, _)| key == "NODE_OPTIONS"));
}

#[test]
fn forced_dns_order_comes_first() {
    let overrides = bun_env_overrides(None, None);
    assert_eq!(overrides.len(), 1);
    assert_eq!(overrides[0].0, "BUN_CONFIG_DNS_RESULT_ORDER");
    assert_eq!(overrides[0].1, "verbatim");
}

#[test]
fn sanitize_drops_invalid_flag_and_keeps_rest() {
    assert_eq!(
        sanitize_dns_result_order_args("--smol --dns-result-order=ipv6first --hot"),
        Some("--smol --hot".to_string())
    );
    assert_eq!(sanitize_dns_result_order_args("--dns-result-order=ipv4first"), None);
}

#[test]
fn sanitize_drops_trailing_bare_flag() {
    assert_eq!(
        sanitize_dns_result_order_args("  --a   --dns-result-order"),
        Some("--a".to_string())
    );
    assert_eq!(sanitize_dns_result_order_args(""), None);
    assert_eq!(
        sanitize_dns_result_order_args("--dns-result-order VERBATIM\t--x"),
        None
    );
}

#[test]
fn valid_orders_ignore_case_and_space() {
    assert!(is_valid_dns_result_order(" IPv4First "));
    assert!(is_valid_dns_result_order("verbatim"));
    assert!(!is_valid_dns_result_order("ipv6first"));
    assert!(!is_valid_dns_result_order(""));
}
