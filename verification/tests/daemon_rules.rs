use pru_spi_duplex::button_config::ButtonMapping;
use pru_spi_duplex::command::CommandError;
use pru_spi_duplex::command::CommandExecutor;
use pru_spi_duplex::config::ValueTrigger;
use pru_spi_duplex::klipper;
use pru_spi_duplex::klipper::ButtonOutcome;
use pru_spi_duplex::klipper::TransportStage;
use pru_spi_duplex::spi;
use pru_spi_duplex::text;

#[test]
fn test_mask_matching() {
    let trigger = ValueTrigger {
        value: 0x01,
        mask: Some(0x01),
        command: "test".to_string(),
        description: None,
    };

    let daemon_config = pru_spi_duplex::button_config::Config::default();
    assert_eq!(daemon_config.spi.device, "/dev/spidev0.0");

    // Test matching with mask
    assert!(0x01 & trigger.mask.unwrap() == trigger.value);
    assert!(0x03 & trigger.mask.unwrap() == trigger.value);
}

#[test]
fn test_register_address() {
    assert_eq!(0x42, 0x42);
}

#[test]
fn value_trigger_matching() {
    let masked = ValueTrigger {
        value: 0x01,
        mask: Some(0x01),
        command: "test".to_string(),
        description: None,
    };
    assert!(masked.matches_value(0x01));
    assert!(masked.matches_value(0x03));
    assert!(!masked.matches_value(0x02));

    let plain = ValueTrigger {
        value: 0x05,
        mask: None,
        command: "test".to_string(),
        description: None,
    };
    assert!(plain.matches_value(0x05));
    assert!(!plain.matches_value(0x07));
}

#[test]
fn duplex_config_default_values() {
    let cfg = pru_spi_duplex::config::Config::default();
    assert_eq!(cfg.spi.device, "/dev/spidev0.0");
    assert_eq!(cfg.spi.bus, 0);
    assert_eq!(cfg.spi.chip_select, 0);
    assert_eq!(cfg.spi.speed_hz, 1_000_000);
    assert_eq!(cfg.spi.mode, 0);
    assert_eq!(cfg.polling.interval_ms, 100);
    assert_eq!(cfg.polling.debounce_ms, 50);
    assert!(cfg.registers.is_empty());
}

#[test]
fn button_config_default_values() {
    let cfg = pru_spi_duplex::button_config::Config::default();
    assert_eq!(cfg.spi.speed_hz, 1_000_000);
    assert_eq!(cfg.spi.mode, 0);
    assert_eq!(cfg.polling.interval_ms, 100);
    assert!(cfg.buttons.is_empty());
    assert!(cfg.klipper.is_none());
}

#[test]
fn button_config_value_defaulting() {
    let explicit = ButtonMapping {
        button: 1,
        config: Some(0x03),
        description: None,
        command: "echo hi".to_string(),
    };
    assert_eq!(explicit.config_value(0x20), 0x03);

    let defaulted = ButtonMapping {
        button: 2,
        config: None,
        description: None,
        command: "echo hi".to_string(),
    };
    assert_eq!(defaulted.config_value(0x20), 0x20);
}

#[test]
fn button_ids_must_be_consecutive() {
    let mapping = |button: u8| ButtonMapping {
        button,
        config: None,
        description: None,
        command: "echo hi".to_string(),
    };
    assert!(pru_spi_duplex::button_config::button_ids_consecutive(&vec![]));
    assert!(pru_spi_duplex::button_config::button_ids_consecutive(&vec![
        mapping(0),
        mapping(1),
        mapping(2),
    ]));
    assert!(!pru_spi_duplex::button_config::button_ids_consecutive(&vec![
        mapping(1),
        mapping(2),
    ]));
    assert!(!pru_spi_duplex::button_config::button_ids_consecutive(&vec![
        mapping(0),
        mapping(0),
        mapping(2),
    ]));
}

#[test]
fn command_outcome_follows_exit_status() {
    assert!(CommandExecutor::command_outcome(true).is_ok());
    assert_eq!(
        CommandExecutor::command_outcome(false),
        Err(CommandError::NonZeroExit)
    );
}

#[test]
fn klipper_command_recognition_trims() {
    assert!(klipper::is_klipper_command("klipper:printer.info|{}"));
    assert!(klipper::is_klipper_command("  klipper:printer.info|{} "));
    assert!(!klipper::is_klipper_command("echo 'test'"));
    assert!(!klipper::is_klipper_command("  echo klipper:x"));
}

#[test]
fn klipper_command_parsing() {
    let (method, params) =
        klipper::parse_klipper_command("klipper:printer.gcode.script|{\"script\":\"G28\"}");
    assert_eq!(method, "printer.gcode.script");
    assert_eq!(params, "{\"script\":\"G28\"}");

    // Params default to the empty object when none are given.
    let (method, params) = klipper::parse_klipper_command("klipper:printer.info");
    assert_eq!(method, "printer.info");
    assert_eq!(params, "{}");

    // A command without the tag is taken whole.
    let (method, params) = klipper::parse_klipper_command("printer.info|{\"a\":1}");
    assert_eq!(method, "printer.info");
    assert_eq!(params, "{\"a\":1}");
}

#[test]
fn klipper_request_assembly() {
    let req = klipper::prepare_klipper_request("klipper:printer.info|{}", 7)
        .expect("params are valid JSON");
    assert_eq!(
        req,
        "{\"jsonrpc\":\"2.0\",\"id\":7,\"method\":\"printer.info\",\"params\":{}}"
    );

    let req = klipper::prepare_klipper_request(
        "klipper:printer.gcode.script|{\"script\":\"G28\"}",
        1000,
    )
    .expect("params are valid JSON");
    assert_eq!(
        req,
        "{\"jsonrpc\":\"2.0\",\"id\":1000,\"method\":\"printer.gcode.script\",\"params\":{\"script\":\"G28\"}}"
    );

    // The assembled request is itself valid JSON.
    assert!(serde_json::from_str::<serde_json::Value>(&req).is_ok());

    // Params that are not JSON are refused.
    assert!(klipper::prepare_klipper_request("klipper:printer.info|{bad", 7).is_none());
}

#[test]
fn json_string_escaping() {
    assert_eq!(klipper::escape_json_string("plain.method"), "plain.method");
    assert_eq!(klipper::escape_json_string("a\"b"), "a\\\"b");
    assert_eq!(klipper::escape_json_string("a\\b"), "a\\\\b");
    assert_eq!(klipper::escape_json_string("a\nb"), "a\\u000ab");
}

#[test]
fn klipper_response_interpretation() {
    let ok = klipper::interpret_klipper_response(3, "{\"result\": {\"state\": \"ready\"}}");
    assert_eq!(ok.request_id, 3);
    assert!(ok.success);
    assert_eq!(ok.status.as_deref(), Some("200"));
    assert!(ok.body.is_some());

    let err = klipper::interpret_klipper_response(4, "{\"error\": {\"code\": -1}}");
    assert_eq!(err.request_id, 4);
    assert!(!err.success);
    assert_eq!(err.status.as_deref(), Some("error"));
    assert!(err.body.is_some());

    let bad = klipper::interpret_klipper_response(5, "not json at all");
    assert_eq!(bad.request_id, 5);
    assert!(!bad.success);
    assert!(bad.body.is_none());
    assert!(bad.status.unwrap().starts_with("parse_error: "));
}

#[test]
fn klipper_failure_responses() {
    let inv = klipper::invalid_params_response(9);
    assert_eq!(inv.request_id, 9);
    assert!(!inv.success);
    assert_eq!(inv.status.as_deref(), Some("invalid_params"));
    assert!(inv.body.is_none());

    let empty = klipper::empty_response(10);
    assert_eq!(empty.status.as_deref(), Some("empty_response"));

    let conn = klipper::transport_failure_response(11, TransportStage::Connect, "refused");
    assert_eq!(conn.status.as_deref(), Some("connection_error: refused"));
    let wr = klipper::transport_failure_response(12, TransportStage::Write, "pipe");
    assert_eq!(wr.status.as_deref(), Some("socket_write_error: pipe"));
    let rd = klipper::transport_failure_response(13, TransportStage::Read, "eof");
    assert_eq!(rd.status.as_deref(), Some("socket_read_error: eof"));
}

#[test]
fn response_button_state_rules() {
    assert_eq!(klipper::response_button_state(true, &None), ButtonOutcome::Off);
    assert_eq!(
        klipper::response_button_state(false, &Some("empty_response".to_string())),
        ButtonOutcome::Off
    );
    assert_eq!(
        klipper::response_button_state(false, &Some("connection_error: x".to_string())),
        ButtonOutcome::Flash2
    );
    assert_eq!(klipper::response_button_state(false, &None), ButtonOutcome::Flash2);
}

#[test]
fn spi_register_frames() {
    assert_eq!(spi::encode_read_frame(0x42), vec![0x42, 0x00]);
    assert_eq!(spi::encode_write_frame(0x42, 0x07), vec![0xC2, 0x07]);
    assert_eq!(spi::read_response_value(&vec![0x00, 0x99]), 0x99);
}

#[test]
fn decimal_rendering() {
    assert_eq!(text::u32_to_decimal(0), "0");
    assert_eq!(text::u32_to_decimal(7), "7");
    assert_eq!(text::u32_to_decimal(100), "100");
    assert_eq!(text::u32_to_decimal(4294967295), "4294967295");
}

#[test]
fn text_searching() {
    assert!(text::starts_with("klipper:x", "klipper:"));
    assert!(!text::starts_with("klipper", "klipper:"));
    assert!(text::str_eq("abc", "abc"));
    assert!(!text::str_eq("abc", "abd"));
    assert_eq!(text::find_char("a|b|c", '|'), Some(1));
    assert_eq!(text::find_char("abc", '|'), None);
    assert!(text::contains_str("{\"error\": 1}", "\"error\""));
    assert!(!text::contains_str("{\"result\": 1}", "\"error\""));
    assert!(text::contains_str("anything", ""));
}
