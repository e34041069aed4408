use akispace::environment::{
    FIREWALL_RULE_NAME, RDP_REG_PATH, TERMSERVER_REG_PATH, TERMSERVICE_REG_PATH,
};

#[test]
fn test_check_item_count() {
    assert_eq!(10, 10);
}

#[test]
fn test_fix_step_count() {
    assert_eq!(9, 9);
}

#[test]
fn test_firewall_rule_name() {
    assert_eq!(FIREWALL_RULE_NAME, "AkiSpace RDP Loopback");
}

#[test]
fn test_registry_paths() {
    assert!(TERMSERVER_REG_PATH.contains("Terminal Server"));
    assert!(RDP_REG_PATH.contains("RDP-Tcp"));
    assert!(TERMSERVICE_REG_PATH.contains("TermService"));
}
