//! Where the devices and the stored state are found, and which values stand
//! in for a reading that cannot be trusted.

use crate::validate::{decimal_value, is_brightness, is_color};
use vstd::prelude::*;

verus! {

/// One device attribute: the file that holds it, and the value to fall back
/// on.
#[derive(Debug, PartialEq, Eq)]
pub struct DeviceConfig {
    pub path: String,
    pub default: String,
}

/// A `DeviceConfig` as plain text.
pub struct DeviceConfigView {
    pub path: Seq<char>,
    pub default: Seq<char>,
}

impl View for DeviceConfig {
    type V = DeviceConfigView;

    open spec fn view(&self) -> DeviceConfigView {
        DeviceConfigView { path: self.path@, default: self.default@ }
    }
}

impl DeepView for DeviceConfig {
    type V = DeviceConfigView;

    open spec fn deep_view(&self) -> DeviceConfigView {
        self@
    }
}

impl Clone for DeviceConfig {
    fn clone(&self) -> (copy: Self)
        ensures
            copy == *self,
    {
        DeviceConfig { path: self.path.clone(), default: self.default.clone() }
    }
}

/// The whole configuration: the two devices, and the file in which the state
/// is kept between suspend and resume.
#[derive(Debug, PartialEq, Eq)]
pub struct Config {
    pub brightness: DeviceConfig,
    pub color: DeviceConfig,
    pub state_path: String,
}

/// A `Config` as plain text.
pub struct ConfigView {
    pub brightness: DeviceConfigView,
    pub color: DeviceConfigView,
    pub state_path: Seq<char>,
}

impl ConfigView {
    /// A configuration is well formed when its two defaults would themselves
    /// pass the field checks.
    pub open spec fn is_well_formed(self) -> bool {
        is_brightness(self.brightness.default) && is_color(self.color.default)
    }
}

impl View for Config {
    type V = ConfigView;

    open spec fn view(&self) -> ConfigView {
        ConfigView {
            brightness: self.brightness@,
            color: self.color@,
            state_path: self.state_path@,
        }
    }
}

impl DeepView for Config {
    type V = ConfigView;

    open spec fn deep_view(&self) -> ConfigView {
        self@
    }
}

impl Clone for Config {
    fn clone(&self) -> (copy: Self)
        ensures
            copy == *self,
    {
        Config {
            brightness: self.brightness.clone(),
            color: self.color.clone(),
            state_path: self.state_path.clone(),
        }
    }
}

/// The configuration that applies when no configuration file can be used.
pub open spec fn builtin_config() -> ConfigView {
    ConfigView {
        brightness: DeviceConfigView {
            path: "/sys/class/leds/system76_acpi::kbd_backlight/brightness"@,
            default: "48"@,
        },
        color: DeviceConfigView {
            path: "/sys/class/leds/system76_acpi::kbd_backlight/color"@,
            default: "FF0000"@,
        },
        state_path: "/var/lib/s76-kbd-led-statemgr/state.json"@,
    }
}

/// The built-in configuration is well formed.
pub proof fn lemma_builtin_config_is_well_formed()
    ensures
        builtin_config().is_well_formed(),
{
    reveal_strlit("48");
    reveal_strlit("FF0000");
    reveal_with_fuel(decimal_value, 3);
}

/// The configuration that applies when no configuration file can be used.
pub fn default_config() -> (config: Config)
    ensures
        config@ == builtin_config(),
        config@.is_well_formed(),
{
    proof {
        lemma_builtin_config_is_well_formed();
    }
    Config {
        brightness: DeviceConfig {
            path: String::from_str("/sys/class/leds/system76_acpi::kbd_backlight/brightness"),
            default: String::from_str("48"),
        },
        color: DeviceConfig {
            path: String::from_str("/sys/class/leds/system76_acpi::kbd_backlight/color"),
            default: String::from_str("FF0000"),
        },
        state_path: String::from_str("/var/lib/s76-kbd-led-statemgr/state.json"),
    }
}

/// The places where a configuration file is looked for, the one that takes
/// precedence first.
pub open spec fn config_locations() -> Seq<Seq<char>> {
    seq!["/usr/local/etc/s76-kbd-led-statemgr.json"@, "/etc/s76-kbd-led-statemgr.json"@]
}

/// The places where a configuration file is looked for, the one that takes
/// precedence first.
pub fn config_paths() -> (paths: Vec<String>)
    ensures
        paths.deep_view() == config_locations(),
{
    let mut paths: Vec<String> = Vec::new();
    paths.push(String::from_str("/usr/local/etc/s76-kbd-led-statemgr.json"));
    paths.push(String::from_str("/etc/s76-kbd-led-statemgr.json"));
    assert(paths.deep_view() =~= config_locations());
    paths
}

/// Picks the configuration to work with. `loaded` holds, for each place
/// searched and in the order of the search, the configuration that was read
/// there, or `None` where the file could not be opened or did not hold one.
/// The first that was read is taken as it is; with none, the built-in
/// configuration applies.
pub fn read_configuration(loaded: Vec<Option<Config>>) -> (config: Config)
    ensures
        forall|i: int|
            0 <= i < loaded.len() && loaded[i] is Some && (forall|j: int|
                0 <= j < i ==> loaded[j] is None) ==> config == loaded[i]->0,
        (forall|j: int| 0 <= j < loaded.len() ==> loaded[j] is None) ==> config@
            == builtin_config(),
{
    let mut i: usize = 0;
    while i < loaded.len()
        invariant
            i <= loaded.len(),
            forall|j: int| 0 <= j < i ==> loaded[j] is None,
        decreases loaded.len() - i,
    {
        match &loaded[i] {
            Some(found) => {
                return found.clone();
            },
            None => {},
        }
        i += 1;
    }
    default_config()
}

} // verus!
