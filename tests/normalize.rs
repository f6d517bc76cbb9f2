use libcec_sys::normalize::{strip_instance_prefix, TidySymbols};

fn short(enum_name: Option<&str>, variant: &str) -> Option<String> {
    TidySymbols.enum_variant_name(enum_name, variant)
}

#[test]
fn same_constant_same_short_name_across_revisions() {
    let abi4 = short(Some("cec_device_status"), "CEC_DEVICE_STATUS_PRESENT");
    let abi6 = short(Some("enum libcec_device_status"), "LIBCEC_DEVICE_STATUS_PRESENT");
    assert_eq!(abi4.as_deref(), Some("PRESENT"));
    assert_eq!(abi6.as_deref(), Some("PRESENT"));
}

#[test]
fn leading_digit_gets_separator() {
    assert_eq!(short(Some("cec_version"), "CEC_VERSION_1").as_deref(), Some("_1"));
    assert_eq!(short(Some("cec_version"), "CEC_VERSION_1_3A").as_deref(), Some("_1_3A"));
}

#[test]
fn longest_exceptional_prefix_wins() {
    assert_eq!(short(None, "CEC_AUDIO_RATE_INVALID_RATE").as_deref(), Some("INVALID_RATE"));
    assert_eq!(short(None, "CEC_AUDIO_MUTE_STATUS_MASK").as_deref(), Some("MUTE_STATUS_MASK"));
    assert_eq!(short(None, "CECDEVICE_TV").as_deref(), Some("TV"));
    assert_eq!(short(None, "ADAPTERTYPE_P8_EXTERNAL").as_deref(), Some("P8_EXTERNAL"));
    assert_eq!(short(None, "CEC_VENDOR_SAMSUNG").as_deref(), Some("SAMSUNG"));
}

#[test]
fn enum_name_is_upper_cased_before_matching() {
    assert_eq!(short(Some("cec_logical_address"), "CECDEVICE_AUDIOSYSTEM").as_deref(), Some("AUDIOSYSTEM"));
    assert_eq!(short(Some("cec_user_control_code"), "CEC_USER_CONTROL_CODE_SELECT").as_deref(), Some("SELECT"));
    assert_eq!(short(Some("enum cec_opcode"), "CEC_OPCODE_ACTIVE_SOURCE").as_deref(), Some("ACTIVE_SOURCE"));
}

#[test]
fn lib_prefix_of_type_name_is_dropped() {
    assert_eq!(short(Some("LIBCEC_ALERT"), "CEC_ALERT_CONNECTION_LOST").as_deref(), Some("CONNECTION_LOST"));
}

#[test]
fn abbreviated_prefix_is_matched() {
    // the longest shared run, "CEC_DECK_C", is not followed by "_" in the variant
    assert_eq!(short(Some("cec_deck_control_mode"), "CEC_DECK_CTL_MODE_STOP"), None);
    assert_eq!(short(Some("cec_menu_state"), "CEC_MENU_STATE_ACTIVATED").as_deref(), Some("ACTIVATED"));
}

#[test]
fn no_enum_name_keeps_raw_name() {
    assert_eq!(short(None, "CEC_OPCODE_STANDBY"), None);
}

#[test]
fn strip_uses_longest_common_run() {
    assert_eq!(strip_instance_prefix("CEC_POWER_STATUS_ON", "CEC_POWER_STATUS").as_deref(), Some("ON"));
    assert_eq!(strip_instance_prefix("  CEC_POWER_STATUS_ON  ", "CEC_POWER_STATUS").as_deref(), Some("ON"));
    assert_eq!(strip_instance_prefix("XY_Z", "QQQQ"), None);
    assert_eq!(strip_instance_prefix("_Z", "QQQQ").as_deref(), Some("Z"));
}

#[test]
fn short_and_non_ascii_names() {
    assert_eq!(strip_instance_prefix("A", "A"), None);
    assert_eq!(strip_instance_prefix("CÉC_X", "CÉC"), None);
}
