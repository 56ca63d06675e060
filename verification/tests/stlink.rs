use probe_web_core::stlink::{open_failure_kind, stlink_interface_failure};

#[test]
fn endpoint_not_found_on_stlink_is_stlink_interface() {
    let message = "The debug probe could not be created. (ProbeCouldNotBeCreated(ProbeSpecific(EndpointNotFound)))";
    assert_eq!(open_failure_kind(0x0483, message), "stlink-interface");
}

#[test]
fn hid_copy_is_not_reused_for_other_vendors() {
    assert_eq!(
        open_failure_kind(0x0d28, "USB endpoint not found"),
        "open-failed"
    );
}

#[test]
fn unrelated_stlink_open_failure_stays_open_failed() {
    assert_eq!(
        open_failure_kind(0x0483, "permission denied"),
        "open-failed"
    );
}

#[test]
fn every_phrase_is_an_interface_failure() {
    for message in [
        "endpoint not found",
        "endpointnotfound",
        "interface not found",
        "claiminterface",
        "could not be claimed",
    ] {
        assert!(stlink_interface_failure(message), "{}", message);
        assert_eq!(open_failure_kind(0x0483, message), "stlink-interface");
        assert_eq!(open_failure_kind(0x0d28, message), "open-failed");
    }
}

#[test]
fn ascii_case_does_not_matter() {
    assert!(stlink_interface_failure("USB ENDPOINT NOT FOUND"));
    assert!(stlink_interface_failure("ClaimInterface failed"));
    assert!(stlink_interface_failure("interface 3 Could Not Be Claimed"));
}

#[test]
fn only_ascii_is_lowered() {
    // U+0130 and U+212A lower to "i" and "k" beyond ASCII.
    assert!(!stlink_interface_failure("cla\u{130}minterface"));
    assert!(stlink_interface_failure("\u{212a}: claimINTERFACE \u{1f50c}"));
}

#[test]
fn characters_next_to_the_letters_keep_apart() {
    // '@' and '[' stand before 'A' and after 'Z'.
    assert!(!stlink_interface_failure("cl@iminterface"));
    assert!(!stlink_interface_failure("claiminterf[ce"));
    assert!(stlink_interface_failure("[CLAIMINTERFACE@"));
}

#[test]
fn quoting_keeps_the_kind() {
    let message = "interface not found";
    let quoted = format!("open failed: \"{}\" (attempt 2)", message);
    assert_eq!(
        open_failure_kind(0x0483, &quoted),
        open_failure_kind(0x0483, message)
    );
}

#[test]
fn partial_phrases_are_not_enough() {
    assert!(!stlink_interface_failure(""));
    assert!(!stlink_interface_failure("endpoint not foun"));
    assert!(!stlink_interface_failure("endpoint  not found"));
    assert!(!stlink_interface_failure("ndpoint not found"));
    assert!(!stlink_interface_failure("claim interface"));
}

#[test]
fn a_phrase_may_overlap_its_own_start() {
    assert!(stlink_interface_failure("claimclaiminterface"));
    assert!(stlink_interface_failure("endpoint not endpoint not found"));
}
