//! The state that is carried across a suspend: how a stored state is
//! checked, field by field, before it is handed out, and what is written
//! when a state is stored.

use vstd::prelude::*;
use crate::config::{Config, ConfigView};
use crate::effect::{Effect, EffectView};
use crate::validate::{is_brightness, is_color, is_valid_brightness, is_valid_color};

verus! {

/// The backlight's brightness and colour, as text.
#[derive(Debug, PartialEq, Eq)]
pub struct State {
    pub brightness: String,
    pub color: String,
}

/// A `State` as plain text.
pub struct StateView {
    pub brightness: Seq<char>,
    pub color: Seq<char>,
}

impl StateView {
    /// A state is valid when both of its fields pass their checks.
    pub open spec fn is_valid(self) -> bool {
        is_brightness(self.brightness) && is_color(self.color)
    }
}

impl View for State {
    type V = StateView;

    open spec fn view(&self) -> StateView {
        StateView { brightness: self.brightness@, color: self.color@ }
    }
}

impl DeepView for State {
    type V = StateView;

    open spec fn deep_view(&self) -> StateView {
        self@
    }
}

impl Clone for State {
    fn clone(&self) -> (copy: Self)
        ensures
            copy == *self,
    {
        State { brightness: self.brightness.clone(), color: self.color.clone() }
    }
}

impl State {
    /// Whether both fields pass their checks.
    pub fn is_valid(&self) -> (ok: bool)
        ensures
            ok == self@.is_valid(),
    {
        is_valid_brightness(self.brightness.as_str()) && is_valid_color(self.color.as_str())
    }
}

impl ConfigView {
    /// The state made of the two configured defaults.
    pub open spec fn default_state(self) -> StateView {
        StateView { brightness: self.brightness.default, color: self.color.default }
    }
}

/// The state to work with, given what was stored: each field of the stored
/// state that passes its check is kept, and each that fails gives way to the
/// configured default, the one independently of the other. With nothing
/// stored, both defaults apply.
pub open spec fn restored_state(config: ConfigView, stored: Option<StateView>) -> StateView {
    match stored {
        None => config.default_state(),
        Some(found) => StateView {
            brightness: if is_brightness(found.brightness) {
                found.brightness
            } else {
                config.brightness.default
            },
            color: if is_color(found.color) {
                found.color
            } else {
                config.color.default
            },
        },
    }
}

/// The state to restore. `stored` is what the state file held, or `None`
/// where the file could not be opened or did not hold a state. Never fails:
/// whatever cannot be trusted is replaced by the configured default, field
/// by field. With a well-formed configuration the result is always valid.
pub fn read_state(config: &Config, stored: Option<State>) -> (state: State)
    ensures
        state@ == restored_state(config@, stored.deep_view()),
        config@.is_well_formed() ==> state@.is_valid(),
{
    match stored {
        None => State {
            brightness: config.brightness.default.clone(),
            color: config.color.default.clone(),
        },
        Some(found) => {
            let brightness = if is_valid_brightness(found.brightness.as_str()) {
                found.brightness
            } else {
                config.brightness.default.clone()
            };
            let color = if is_valid_color(found.color.as_str()) {
                found.color
            } else {
                config.color.default.clone()
            };
            State { brightness, color }
        },
    }
}

/// The line that a dry run prints in place of storing a state.
pub open spec fn state_notice(path: Seq<char>, encoded: Seq<char>) -> Seq<char> {
    "DRY-RUN: Would write state to '"@ + path + "':\n"@ + encoded
}

/// What storing a state takes. With the privilege to do it: the state
/// file's directory is made sure of, then the file is written, the encoded
/// state followed by a line feed. Without: one printed line that says so.
pub open spec fn write_state_plan(config: ConfigView, encoded: Seq<char>, is_root: bool) -> Seq<
    EffectView,
> {
    if is_root {
        seq![
            EffectView::CreateParentDirs { of: config.state_path },
            EffectView::WriteFile { path: config.state_path, content: encoded + "\n"@ },
        ]
    } else {
        seq![EffectView::Print { text: state_notice(config.state_path, encoded) }]
    }
}

/// Plans the storing of a state. `encoded` is the state in the form in which
/// the state file holds it, without a line end; `is_root` says whether the
/// caller may touch the system. The caller carries the plan out.
pub fn write_state(config: &Config, encoded: &str, is_root: bool) -> (plan: Vec<Effect>)
    ensures
        plan.deep_view() == write_state_plan(config@, encoded@, is_root),
{
    let mut plan: Vec<Effect> = Vec::new();
    if is_root {
        let mut content = String::from_str(encoded);
        content.append("\n");
        plan.push(Effect::CreateParentDirs { of: config.state_path.clone() });
        plan.push(Effect::WriteFile { path: config.state_path.clone(), content });
    } else {
        let mut text = String::from_str("DRY-RUN: Would write state to '");
        text.append(config.state_path.as_str());
        text.append("':\n");
        text.append(encoded);
        plan.push(Effect::Print { text });
    }
    assert(plan.deep_view() =~= write_state_plan(config@, encoded@, is_root));
    plan
}

/// A state that is valid comes back from storage as it went in.
pub proof fn lemma_valid_state_is_kept(config: ConfigView, state: StateView)
    requires
        state.is_valid(),
    ensures
        restored_state(config, Some(state)) == state,
{
}

/// With a well-formed configuration, whatever was stored, the state handed
/// out is valid.
pub proof fn lemma_restored_state_is_valid(config: ConfigView, stored: Option<StateView>)
    requires
        config.is_well_formed(),
    ensures
        restored_state(config, stored).is_valid(),
{
}

/// Reading is idempotent: a state that was handed out, stored unchanged and
/// read again comes out the same.
pub proof fn lemma_read_state_is_idempotent(config: ConfigView, stored: Option<StateView>)
    ensures
        restored_state(config, Some(restored_state(config, stored))) == restored_state(
            config,
            stored,
        ),
{
}

} // verus!
