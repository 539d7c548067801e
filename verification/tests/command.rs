use ossm::command::{command, parse_line, parse_u32, split_whitespace, Command, Fault};
use ossm::motion::WaveKind;

fn parsed(line: &str) -> (Command, String, String) {
    let r = parse_line(line);
    (r.command, r.name, r.args)
}

fn is(line: &str, expected: Command, name: &str, args: &str) {
    assert_eq!(parsed(line), (expected, name.to_string(), args.to_string()), "line {:?}", line);
}

#[test]
fn commands_without_arguments() {
    is("pause", Command::Pause, "pause", "");
    is("start\n", Command::Start, "start", "");
    is("help\r\n", Command::Help, "help", "");
    is("get_motor_config", Command::GetMotorConfig, "get_motor_config", "");
    is("  get_pin_configuration  ", Command::GetPinConfiguration, "get_pin_configuration", "");
}

#[test]
fn arguments_are_what_follows_the_first_blank() {
    is("set_wifi_ssid my home net\n", Command::SetWifiSsid, "set_wifi_ssid", "my home net");
    is("set_wifi_password  p w \n", Command::SetWifiPassword, "set_wifi_password", " p w");
    is("set_bpm 36.5", Command::SetBpm, "set_bpm", "36.5");
    is("set_depth 0.8", Command::SetDepth, "set_depth", "0.8");
    is("set_sharpness 0.3", Command::SetSharpness, "set_sharpness", "0.3");
    is("set_paused_position x", Command::SetPausedPosition, "set_paused_position", "x");
    is(
        "set_motor_config {\"bpm\": 36.0, \"paused\": true}",
        Command::SetMotorConfig,
        "set_motor_config",
        "{\"bpm\": 36.0, \"paused\": true}",
    );
    is("set_wifi_ssid", Command::SetWifiSsid, "set_wifi_ssid", "");
}

#[test]
fn a_line_is_trimmed_of_every_white_space() {
    is("\t pause \u{a0}\u{3000}\r\n", Command::Pause, "pause", "");
    is("\u{2003}set_bpm 60\u{85}", Command::SetBpm, "set_bpm", "60");
    is("\u{feff}pause", Command::Unknown, "\u{feff}pause", "");
}

#[test]
fn only_a_blank_ends_the_word() {
    is("set_bpm\t60", Command::Unknown, "set_bpm\t60", "");
    is("pause\u{a0}now", Command::Unknown, "pause\u{a0}now", "");
}

#[test]
fn an_empty_line_is_unknown() {
    is("", Command::Unknown, "", "");
    is("   \r\n", Command::Unknown, "", "");
    is("PAUSE", Command::Unknown, "PAUSE", "");
    is("paus", Command::Unknown, "paus", "");
    is("pause now", Command::Pause, "pause", "now");
    is("restart now please", Command::Unknown, "restart", "now please");
}

#[test]
fn pins_are_numbers() {
    is("set_pin_modbus_tx 18", Command::SetPinModbusTx(18), "set_pin_modbus_tx", "18");
    is("set_pin_modbus_rx 019", Command::SetPinModbusRx(19), "set_pin_modbus_rx", "019");
    is("set_pin_modbus_de_re +20", Command::SetPinModbusDeRe(20), "set_pin_modbus_de_re", "+20");
    is(
        "set_pin_modbus_tx 4294967295",
        Command::SetPinModbusTx(u32::MAX),
        "set_pin_modbus_tx",
        "4294967295",
    );
}

#[test]
fn a_pin_that_is_no_number_is_invalid() {
    for args in ["", " 18", "18 ", "-1", "1.0", "0x12", "4294967296", "+", "+-1", "1_000", "١٢"] {
        let line = format!("set_pin_modbus_tx {}", args);
        assert_eq!(
            command("set_pin_modbus_tx", args),
            Command::Invalid(Fault::Pin),
            "line {:?}",
            line
        );
    }
    is("set_pin_modbus_rx", Command::Invalid(Fault::Pin), "set_pin_modbus_rx", "");
    is("set_pin_modbus_de_re  7", Command::Invalid(Fault::Pin), "set_pin_modbus_de_re", " 7");
}

#[test]
fn numbers_are_parsed_as_the_standard_library_does() {
    for text in [
        "0", "7", "+7", "007", "+0", "4294967295", "4294967296", "99999999999999999999999", "",
        "+", "-0", "-7", "++7", "7+", " 7", "7 ", "7a", "a", "1e3", "0x10", "１２",
        "00000000000000000000000000000000004294967295",
    ] {
        assert_eq!(parse_u32(text), text.parse::<u32>().ok(), "text {:?}", text);
    }
}

#[test]
fn waveforms_are_chosen_by_name() {
    is("set_wave sine", Command::SetWave(WaveKind::Sine), "set_wave", "sine");
    is("set_wave thrust", Command::SetWave(WaveKind::Thrust), "set_wave", "thrust");
    is("set_wave spline", Command::SetWave(WaveKind::Spline), "set_wave", "spline");
    is("set_wave square", Command::Invalid(Fault::Wave), "set_wave", "square");
    is("set_wave", Command::Invalid(Fault::Wave), "set_wave", "");
    is("set_wave  sine", Command::Invalid(Fault::Wave), "set_wave", " sine");
}

#[test]
fn flags_are_true_or_false() {
    is("set_depth_top true", Command::SetDepthTop(true), "set_depth_top", "true");
    is("set_depth_top false", Command::SetDepthTop(false), "set_depth_top", "false");
    for args in ["", "1", "0", "True", "yes", "true false"] {
        assert_eq!(command("set_depth_top", args), Command::Invalid(Fault::Flag));
        assert_eq!(args.parse::<bool>().ok(), None);
    }
}

#[test]
fn spline_points_are_tokens() {
    is("set_spline_points 0 0.5 1", Command::SetSplinePoints, "set_spline_points", "0 0.5 1");
    is("set_spline_points", Command::Invalid(Fault::NoPoints), "set_spline_points", "");
    assert_eq!(command("set_spline_points", " \t "), Command::Invalid(Fault::NoPoints));
    assert_eq!(command("set_spline_points", " \t x"), Command::SetSplinePoints);
}

#[test]
fn tokens_are_split_at_white_space() {
    for text in [
        "", " ", "a", " a", "a ", "0 0.5 1", "  0.0\t0.5 \u{a0} 1.0  ", "a\u{2003}b\nc\r\nd",
        "\u{3000}", "x\u{85}y", "caf\u{e9} \u{1f600}  z",
    ] {
        let expected: Vec<String> = text.split_whitespace().map(|t| t.to_string()).collect();
        assert_eq!(split_whitespace(text), expected, "text {:?}", text);
    }
}

#[test]
fn lines_are_cut_as_the_standard_library_does() {
    for line in [
        "", " ", "pause", " pause ", "set_bpm 60", "set_bpm  60 ", "a b c", "\ta\tb c\n",
        "\u{a0}x y\u{2028}", "set_motor_config {\"a\": [1, 2]}\r\n", " \u{e9} \u{e9} ",
    ] {
        let trimmed = line.trim();
        let parts: Vec<&str> = trimmed.splitn(2, ' ').collect();
        let args = if parts.len() > 1 { parts[1] } else { "" };
        let r = parse_line(line);
        assert_eq!((r.name.as_str(), r.args.as_str()), (parts[0], args), "line {:?}", line);
    }
}
