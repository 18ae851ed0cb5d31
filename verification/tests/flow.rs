use keycrate_demo::flow::{
    command_choice, credentials_request, license_login, login_outcome, menu_choice, mode_choice, password_login,
    register_request, registration, registration_lines, result_line, MenuChoice, Mode,
};

#[test]
fn license_key_is_sent_with_the_identifier() {
    let r = license_login("  ABCD-1234 \n", Some("4dfafe5aac0f1caa")).unwrap();
    assert_eq!(r.license.as_deref(), Some("ABCD-1234"));
    assert_eq!(r.hwid.as_deref(), Some("4dfafe5aac0f1caa"));
    assert_eq!(r.username, None);
    assert_eq!(r.password, None);
}

#[test]
fn license_key_without_an_identifier() {
    let r = license_login("KEY\n", None).unwrap();
    assert_eq!(r.license.as_deref(), Some("KEY"));
    assert_eq!(r.hwid, None);
}

#[test]
fn blank_key_asks_for_credentials() {
    assert!(license_login("\n", Some("id")).is_none());
    assert!(license_login("", None).is_none());
    assert!(license_login("  \t \r\n", None).is_none());
}

#[test]
fn password_login_needs_both_fields() {
    assert!(password_login("\n", "secret\n", Some("id")).is_none());
    assert!(password_login("alice\n", "   \n", Some("id")).is_none());
    assert!(password_login("", "", None).is_none());
    let r = password_login(" alice \n", "secret\n", Some("id")).unwrap();
    assert_eq!(r.license, None);
    assert_eq!(r.username.as_deref(), Some("alice"));
    assert_eq!(r.password.as_deref(), Some("secret"));
    assert_eq!(r.hwid.as_deref(), Some("id"));
}

#[test]
fn credentials_request_sends_what_was_typed() {
    let r = credentials_request("\n", " pw \n", None);
    assert_eq!(r.license, None);
    assert_eq!(r.username.as_deref(), Some(""));
    assert_eq!(r.password.as_deref(), Some("pw"));
    assert_eq!(r.hwid, None);
}

#[test]
fn registration_with_an_empty_field_sends_nothing() {
    assert!(register_request("KEY", "", "secret").is_none());
    assert!(register_request("KEY", "alice", "").is_none());
    assert!(register_request("KEY", " \n", "secret\n").is_none());
    assert!(register_request("KEY", "alice\n", "\t\n").is_none());
    assert!(register_request("KEY", "\n", "\n").is_none());
}

#[test]
fn registration_with_both_fields_is_sent() {
    let r = register_request(" KEY ", " alice\n", "secret \n").unwrap();
    assert_eq!(r.license, " KEY ");
    assert_eq!(r.username, "alice");
    assert_eq!(r.password, "secret");
}

#[test]
fn registration_with_an_empty_license_sends_nothing() {
    assert!(register_request("", "alice\n", "hunter2\n").is_none());
    assert!(register_request("", "", "").is_none());
}

#[test]
fn registration_sends_a_blank_license_as_it_is() {
    let r = register_request(" ", "alice\n", "hunter2\n").unwrap();
    assert_eq!(r.license, " ");
    assert_eq!(r.username, "alice");
    assert_eq!(r.password, "hunter2");
}

#[test]
fn registration_trims_every_line() {
    let r = registration(" KEY \n", " alice\n", " pw\r\n").unwrap();
    assert_eq!(r.license, "KEY");
    assert_eq!(r.username, "alice");
    assert_eq!(r.password, "pw");
}

#[test]
fn registration_needs_all_three_lines() {
    assert!(registration("\n", "alice\n", "pw\n").is_none());
    assert!(registration("KEY\n", "\n", "pw\n").is_none());
    assert!(registration("KEY\n", "alice\n", " \t\r\n").is_none());
    assert!(registration("", "", "").is_none());
    assert!(registration(" \u{a0}\n", "alice\n", "pw\n").is_none());
}

#[test]
fn registration_lines_report_success_in_one_line() {
    assert_eq!(registration_lines(true, "OK"), vec!["\n\x1b[32mSUCCESS: OK\x1b[0m"]);
    assert_eq!(
        registration_lines(true, "LICENSE_NOT_FOUND"),
        vec!["\n\x1b[32mSUCCESS: LICENSE_NOT_FOUND\x1b[0m"]
    );
}

#[test]
fn registration_lines_explain_a_failure() {
    assert_eq!(
        registration_lines(false, "LICENSE_NOT_FOUND"),
        vec![
            "\n\x1b[31mFAILED: LICENSE_NOT_FOUND\x1b[0m",
            "License key not found \u{2013} double-check it."
        ]
    );
    assert_eq!(
        registration_lines(false, "HWID_MISMATCH"),
        vec![
            "\n\x1b[31mFAILED: HWID_MISMATCH\x1b[0m",
            "HWID does not match the registered device.",
            "HWID reset not allowed."
        ]
    );
    assert_eq!(
        registration_lines(false, "LICENSE_EXPIRED"),
        vec!["\n\x1b[31mFAILED: LICENSE_EXPIRED\x1b[0m", "License has expired."]
    );
    assert_eq!(
        registration_lines(false, "username taken"),
        vec![
            "\n\x1b[31mFAILED: username taken\x1b[0m",
            "Unexpected error: username taken. Contact support."
        ]
    );
}

#[test]
fn login_outcome_keeps_the_key_only_on_success() {
    assert_eq!(login_outcome(true, Some("K".to_string())), (true, Some("K".to_string())));
    assert_eq!(login_outcome(true, None), (true, None));
    assert_eq!(login_outcome(false, Some("K".to_string())), (false, None));
    assert_eq!(login_outcome(false, None), (false, None));
}

#[test]
fn result_line_is_coloured() {
    assert_eq!(result_line(true, "OK"), "\n\x1b[32mSUCCESS: OK\x1b[0m");
    assert_eq!(result_line(false, "LICENSE_EXPIRED"), "\n\x1b[31mFAILED: LICENSE_EXPIRED\x1b[0m");
    assert_eq!(result_line(false, ""), "\n\x1b[31mFAILED: \x1b[0m");
}

#[test]
fn menu_choice_reads_commands_in_any_case() {
    assert_eq!(menu_choice("exit\n"), MenuChoice::Exit);
    assert_eq!(menu_choice("  EXIT \n"), MenuChoice::Exit);
    assert_eq!(menu_choice("Register\n"), MenuChoice::Register);
    assert_eq!(menu_choice("quit\n"), MenuChoice::Invalid);
    assert_eq!(menu_choice(""), MenuChoice::Invalid);
    assert_eq!(menu_choice("exit now"), MenuChoice::Invalid);
}

#[test]
fn mode_choice_reads_one_or_two() {
    assert_eq!(mode_choice("1\n"), Mode::Authenticate);
    assert_eq!(mode_choice(" 2 \n"), Mode::Register);
    assert_eq!(mode_choice("3\n"), Mode::Invalid);
    assert_eq!(mode_choice("\n"), Mode::Invalid);
    assert_eq!(mode_choice("12"), Mode::Invalid);
}

#[test]
fn command_choice_reads_the_exact_command() {
    assert_eq!(command_choice("exit"), MenuChoice::Exit);
    assert_eq!(command_choice("register"), MenuChoice::Register);
    assert_eq!(command_choice("EXIT"), MenuChoice::Invalid);
    assert_eq!(command_choice(" exit"), MenuChoice::Invalid);
    assert_eq!(command_choice("registe"), MenuChoice::Invalid);
    assert_eq!(command_choice(""), MenuChoice::Invalid);
}
