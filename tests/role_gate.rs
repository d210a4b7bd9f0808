use smart_home_core::role_gate::respond;

#[test]
fn system_admin_gets_its_label() {
    assert_eq!(respond("ping", Some("system_admin")), "[System Admin] Agent received: ping");
}

#[test]
fn remote_agent_gets_its_label() {
    assert_eq!(respond("ping", Some("remote_agent")), "[Remote Agent] Agent received: ping");
}

#[test]
fn user_admin_gets_its_label() {
    assert_eq!(respond("ping", Some("user_admin")), "[User Admin] Agent received: ping");
}

#[test]
fn unknown_role_defaults_to_user_admin() {
    assert_eq!(respond("ping", Some("bogus_role")), "[User Admin] Agent received: ping");
}

#[test]
fn absent_role_defaults_to_user_admin() {
    assert_eq!(respond("ping", None), "[User Admin] Agent received: ping");
}

#[test]
fn empty_instruction_is_echoed_empty() {
    assert_eq!(respond("", Some("remote_agent")), "[Remote Agent] Agent received: ");
}
