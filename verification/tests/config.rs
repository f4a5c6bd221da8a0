use s76_kbd_led_statemgr::config::{
    config_paths, default_config, read_configuration, Config, DeviceConfig,
};

fn sample(tag: &str) -> Config {
    Config {
        brightness: DeviceConfig { path: format!("/dev/{}/brightness", tag), default: "7".into() },
        color: DeviceConfig { path: format!("/dev/{}/color", tag), default: "00FF00".into() },
        state_path: format!("/tmp/{}/state.json", tag),
    }
}

#[test]
fn default_config_holds_the_built_in_values() {
    let config = default_config();
    assert_eq!(
        config.brightness.path,
        "/sys/class/leds/system76_acpi::kbd_backlight/brightness"
    );
    assert_eq!(config.brightness.default, "48");
    assert_eq!(config.color.path, "/sys/class/leds/system76_acpi::kbd_backlight/color");
    assert_eq!(config.color.default, "FF0000");
    assert_eq!(config.state_path, "/var/lib/s76-kbd-led-statemgr/state.json");
}

#[test]
fn config_paths_are_searched_in_order_of_precedence() {
    assert_eq!(
        config_paths(),
        vec![
            "/usr/local/etc/s76-kbd-led-statemgr.json".to_string(),
            "/etc/s76-kbd-led-statemgr.json".to_string(),
        ]
    );
}

#[test]
fn read_configuration_without_any_file_gives_the_built_in_one() {
    assert_eq!(read_configuration(vec![]), default_config());
    assert_eq!(read_configuration(vec![None]), default_config());
    assert_eq!(read_configuration(vec![None, None]), default_config());
}

#[test]
fn read_configuration_takes_the_first_that_was_read() {
    assert_eq!(read_configuration(vec![Some(sample("a")), Some(sample("b"))]), sample("a"));
    assert_eq!(read_configuration(vec![Some(sample("a")), None]), sample("a"));
    assert_eq!(read_configuration(vec![None, Some(sample("b"))]), sample("b"));
    assert_eq!(
        read_configuration(vec![None, None, Some(sample("c")), Some(sample("d"))]),
        sample("c")
    );
}

#[test]
fn read_configuration_does_not_check_the_defaults_it_is_given() {
    let mut odd = sample("odd");
    odd.brightness.default = "bright".into();
    odd.color.default = "red".into();
    let expected = odd.clone();
    assert_eq!(read_configuration(vec![Some(odd)]), expected);
}
