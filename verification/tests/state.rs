use s76_kbd_led_statemgr::config::{default_config, Config, DeviceConfig};
use s76_kbd_led_statemgr::effect::Effect;
use s76_kbd_led_statemgr::state::{read_state, write_state, State};

fn state(brightness: &str, color: &str) -> State {
    State { brightness: brightness.to_string(), color: color.to_string() }
}

fn config_with_defaults(brightness: &str, color: &str) -> Config {
    Config {
        brightness: DeviceConfig {
            path: "/dev/kbd/brightness".to_string(),
            default: brightness.to_string(),
        },
        color: DeviceConfig { path: "/dev/kbd/color".to_string(), default: color.to_string() },
        state_path: "/var/lib/kbd/state.json".to_string(),
    }
}

/// The state as the state file holds it, without the line end.
fn encode(state: &State) -> String {
    let mut fields = serde_json::Map::new();
    fields.insert("brightness".to_string(), serde_json::Value::String(state.brightness.clone()));
    fields.insert("color".to_string(), serde_json::Value::String(state.color.clone()));
    serde_json::to_string_pretty(&serde_json::Value::Object(fields)).unwrap()
}

/// The state that a state file's content holds, if it holds one.
fn decode(content: &str) -> Option<State> {
    let value: serde_json::Value = serde_json::from_str(content).ok()?;
    Some(State {
        brightness: value.get("brightness")?.as_str()?.to_string(),
        color: value.get("color")?.as_str()?.to_string(),
    })
}

#[test]
fn read_state_keeps_a_valid_state() {
    let config = default_config();
    assert_eq!(read_state(&config, Some(state("200", "00FFFF"))), state("200", "00FFFF"));
    assert_eq!(read_state(&config, Some(state("0", "000000"))), state("0", "000000"));
    assert_eq!(read_state(&config, Some(state("255", "FFFFFF"))), state("255", "FFFFFF"));
}

#[test]
fn read_state_falls_back_field_by_field() {
    let config = config_with_defaults("48", "FF0000");
    assert_eq!(read_state(&config, Some(state("999", "00FF00"))), state("48", "00FF00"));
    assert_eq!(read_state(&config, Some(state("12", "00ff00"))), state("12", "FF0000"));
    assert_eq!(read_state(&config, Some(state("", ""))), state("48", "FF0000"));
    assert_eq!(read_state(&config, Some(state("-1", "FF00F"))), state("48", "FF0000"));
    assert_eq!(read_state(&config, Some(state(" 72", "FF00FF\n"))), state("48", "FF0000"));
}

#[test]
fn read_state_without_a_stored_state_gives_the_defaults() {
    assert_eq!(read_state(&default_config(), None), state("48", "FF0000"));
    let config = config_with_defaults("7", "00FF00");
    assert_eq!(read_state(&config, None), state("7", "00FF00"));
}

#[test]
fn read_state_hands_the_defaults_out_as_they_are_configured() {
    let config = config_with_defaults("dim", "red");
    assert_eq!(read_state(&config, None), state("dim", "red"));
    assert_eq!(read_state(&config, Some(state("300", "blue"))), state("dim", "red"));
    assert_eq!(read_state(&config, Some(state("30", "blue"))), state("30", "red"));
}

#[test]
fn read_state_twice_gives_the_same_state() {
    let config = default_config();
    for stored in [
        None,
        Some(state("12", "0000FF")),
        Some(state("999", "00FF00")),
        Some(state("12", "nothing")),
        Some(state("", "")),
    ] {
        let first = read_state(&config, stored.clone());
        let second = read_state(&config, stored.clone());
        assert_eq!(first, second);
        let again = read_state(&config, Some(first.clone()));
        assert_eq!(again, first);
    }
}

#[test]
fn read_state_gives_a_valid_state_whatever_was_stored() {
    let config = default_config();
    for stored in [
        None,
        Some(state("12", "0000FF")),
        Some(state("256", "00FF00")),
        Some(state("12", "0000ff")),
        Some(state("twelve", "blue")),
    ] {
        assert!(read_state(&config, stored).is_valid());
    }
}

#[test]
fn is_valid_checks_both_fields() {
    assert!(state("48", "FF0000").is_valid());
    assert!(!state("480", "FF0000").is_valid());
    assert!(!state("48", "ff0000").is_valid());
    assert!(!state("", "").is_valid());
}

#[test]
fn write_state_as_root_makes_the_directory_and_writes_the_file() {
    let config = config_with_defaults("48", "FF0000");
    let plan = write_state(&config, "{\n  \"brightness\": \"72\"\n}", true);
    assert_eq!(
        plan,
        vec![
            Effect::CreateParentDirs { of: "/var/lib/kbd/state.json".to_string() },
            Effect::WriteFile {
                path: "/var/lib/kbd/state.json".to_string(),
                content: "{\n  \"brightness\": \"72\"\n}\n".to_string(),
            },
        ]
    );
}

#[test]
fn write_state_in_a_dry_run_only_prints() {
    let config = config_with_defaults("48", "FF0000");
    let plan = write_state(&config, "{}", false);
    assert_eq!(
        plan,
        vec![Effect::Print {
            text: "DRY-RUN: Would write state to '/var/lib/kbd/state.json':\n{}".to_string(),
        }]
    );
}

#[test]
fn write_state_takes_an_empty_encoding_as_it_is() {
    let config = default_config();
    assert_eq!(
        write_state(&config, "", true),
        vec![
            Effect::CreateParentDirs { of: "/var/lib/s76-kbd-led-statemgr/state.json".to_string() },
            Effect::WriteFile {
                path: "/var/lib/s76-kbd-led-statemgr/state.json".to_string(),
                content: "\n".to_string(),
            },
        ]
    );
}

#[test]
fn a_valid_state_survives_being_written_and_read() {
    let config = default_config();
    for brightness in ["0", "48", "72", "255"] {
        for color in [
            "000000", "0000FF", "00FF00", "00FFFF", "FF0000", "FF00FF", "FFFF00", "FFFFFF",
        ] {
            let written = state(brightness, color);
            assert!(written.is_valid());
            let plan = write_state(&config, &encode(&written), true);
            assert_eq!(plan.len(), 2);
            let content = match &plan[1] {
                Effect::WriteFile { content, .. } => content.clone(),
                other => panic!("not a write: {:?}", other),
            };
            assert_eq!(
                content,
                format!("{{\n  \"brightness\": \"{}\",\n  \"color\": \"{}\"\n}}\n", brightness, color)
            );
            assert_eq!(read_state(&config, decode(&content)), written);
        }
    }
}

#[test]
fn a_state_file_that_holds_no_state_gives_the_defaults() {
    let config = default_config();
    for content in ["", "not json", "{}", "{\"brightness\": \"12\"}", "{\"brightness\": 12, \"color\": 3}"] {
        assert_eq!(read_state(&config, decode(content)), state("48", "FF0000"), "{:?}", content);
    }
}
