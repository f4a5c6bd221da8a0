//! The two transitions: `pre` captures what the devices report before a
//! suspend, `post` puts a checked state back after the resume.

use vstd::prelude::*;
use crate::config::{Config, ConfigView};
use crate::effect::{all_harmless, Effect, EffectView};
use crate::error::{Error, ErrorView};
use crate::state::{read_state, restored_state, write_state, write_state_plan, State, StateView};
use crate::text::{trim, trimmed};

verus! {

/// Which of the two transitions to run.
#[derive(Clone, Copy, Debug, PartialEq, Eq, Structural)]
pub enum Transition {
    /// Capture, before the suspend.
    Pre,
    /// Restore, after the resume.
    Post,
}

/// The transition that an argument names: `pre` or `post`, written exactly
/// so. Anything else is refused, and so is no argument at all.
pub open spec fn named_transition(argument: Option<Seq<char>>) -> Result<Transition, ErrorView> {
    match argument {
        None => Err(ErrorView::MissingArgument),
        Some(name) => if name == "pre"@ {
            Ok(Transition::Pre)
        } else if name == "post"@ {
            Ok(Transition::Post)
        } else {
            Err(ErrorView::InvalidArgument { given: name })
        },
    }
}

/// The transition that the command line asks for. `argument` is the first
/// argument after the program's name, if there is one.
pub fn parse_transition(argument: Option<&str>) -> (parsed: Result<Transition, Error>)
    ensures
        match parsed {
            Ok(transition) => named_transition(argument.deep_view()) == Ok::<
                Transition,
                ErrorView,
            >(transition),
            Err(error) => named_transition(argument.deep_view()) == Err::<Transition, ErrorView>(
                error@,
            ),
        },
{
    match argument {
        None => Err(Error::MissingArgument),
        Some(name) => {
            let given = String::from_str(name);
            if given == String::from_str("pre") {
                Ok(Transition::Pre)
            } else if given == String::from_str("post") {
                Ok(Transition::Post)
            } else {
                Err(Error::InvalidArgument { given })
            }
        },
    }
}

/// The line that a dry run prints in place of setting the brightness.
pub open spec fn brightness_notice(value: Seq<char>, path: Seq<char>) -> Seq<char> {
    "DRY-RUN: Would write brightness '"@ + value + "' to '"@ + path + "'"@
}

/// The line that a dry run prints in place of setting the colour.
pub open spec fn color_notice(value: Seq<char>, path: Seq<char>) -> Seq<char> {
    "DRY-RUN: Would write color '"@ + value + "' to '"@ + path + "'"@
}

/// What putting a state on the devices takes. With the privilege to do it:
/// the brightness is written to its device, then the colour to its own, each
/// followed by a line feed. Without: one printed line for each.
pub open spec fn apply_state_plan(config: ConfigView, state: StateView, is_root: bool) -> Seq<
    EffectView,
> {
    if is_root {
        seq![
            EffectView::WriteFile {
                path: config.brightness.path,
                content: state.brightness + "\n"@,
            },
            EffectView::WriteFile { path: config.color.path, content: state.color + "\n"@ },
        ]
    } else {
        seq![
            EffectView::Print {
                text: brightness_notice(state.brightness, config.brightness.path),
            },
            EffectView::Print { text: color_notice(state.color, config.color.path) },
        ]
    }
}

/// Plans the putting of `state` on the devices. `is_root` says whether the
/// caller may touch the system. The caller carries the plan out.
pub fn apply_state(config: &Config, state: &State, is_root: bool) -> (plan: Vec<Effect>)
    ensures
        plan.deep_view() == apply_state_plan(config@, state@, is_root),
{
    let mut plan: Vec<Effect> = Vec::new();
    if is_root {
        let mut brightness = state.brightness.clone();
        brightness.append("\n");
        let mut color = state.color.clone();
        color.append("\n");
        plan.push(Effect::WriteFile { path: config.brightness.path.clone(), content: brightness });
        plan.push(Effect::WriteFile { path: config.color.path.clone(), content: color });
    } else {
        let mut brightness = String::from_str("DRY-RUN: Would write brightness '");
        brightness.append(state.brightness.as_str());
        brightness.append("' to '");
        brightness.append(config.brightness.path.as_str());
        brightness.append("'");
        let mut color = String::from_str("DRY-RUN: Would write color '");
        color.append(state.color.as_str());
        color.append("' to '");
        color.append(config.color.path.as_str());
        color.append("'");
        plan.push(Effect::Print { text: brightness });
        plan.push(Effect::Print { text: color });
    }
    assert(plan.deep_view() =~= apply_state_plan(config@, state@, is_root));
    plan
}

/// The restore: the stored state is checked field by field, and what comes
/// of it is put on the devices. `stored` is what the state file held, or
/// `None` where the file could not be opened or did not hold a state.
pub fn do_post(config: &Config, stored: Option<State>, is_root: bool) -> (plan: Vec<Effect>)
    ensures
        plan.deep_view() == apply_state_plan(
            config@,
            restored_state(config@, stored.deep_view()),
            is_root,
        ),
{
    let state = read_state(config, stored);
    apply_state(config, &state, is_root)
}

/// What a capture needs next.
#[derive(Debug, PartialEq, Eq)]
pub enum PreStep {
    /// The text of the brightness device, which is the file at `path`.
    ReadBrightness { path: String },
    /// The text of the colour device, which is the file at `path`.
    ReadColor { path: String },
    /// `state` in the form in which the state file holds it.
    Encode { state: State },
    /// Nothing more: `plan` is to be carried out.
    Perform { plan: Vec<Effect> },
    /// Nothing more: the capture is refused.
    Fail { error: Error },
}

/// A `PreStep` as plain text.
pub enum PreStepView {
    ReadBrightness { path: Seq<char> },
    ReadColor { path: Seq<char> },
    Encode { state: StateView },
    Perform { plan: Seq<EffectView> },
    Fail { error: ErrorView },
}

impl View for PreStep {
    type V = PreStepView;

    open spec fn view(&self) -> PreStepView {
        match self {
            PreStep::ReadBrightness { path } => PreStepView::ReadBrightness { path: path@ },
            PreStep::ReadColor { path } => PreStepView::ReadColor { path: path@ },
            PreStep::Encode { state } => PreStepView::Encode { state: state@ },
            PreStep::Perform { plan } => PreStepView::Perform { plan: plan.deep_view() },
            PreStep::Fail { error } => PreStepView::Fail { error: error@ },
        }
    }
}

/// The capture, as far as it can go on what is known. The brightness is read
/// first and must not be blank; then the colour, likewise; what is left of
/// the two once the white space around them is gone becomes the state, as
/// it is and unchecked, for the devices are taken at their word; the state is
/// encoded and stored.
pub open spec fn pre_step(
    config: ConfigView,
    is_root: bool,
    brightness: Option<Seq<char>>,
    color: Option<Seq<char>>,
    encoded: Option<Seq<char>>,
) -> PreStepView {
    if brightness is None {
        PreStepView::ReadBrightness { path: config.brightness.path }
    } else if trimmed(brightness->0).len() == 0 {
        PreStepView::Fail { error: ErrorView::EmptyValue { path: config.brightness.path } }
    } else if color is None {
        PreStepView::ReadColor { path: config.color.path }
    } else if trimmed(color->0).len() == 0 {
        PreStepView::Fail { error: ErrorView::EmptyValue { path: config.color.path } }
    } else if encoded is None {
        PreStepView::Encode {
            state: StateView { brightness: trimmed(brightness->0), color: trimmed(color->0) },
        }
    } else {
        PreStepView::Perform { plan: write_state_plan(config, encoded->0, is_root) }
    }
}

/// The capture, one step at a time. The caller hands in what it has got so
/// far, `None` for what it has not: the text read from the brightness
/// device, the text read from the colour device, and the encoded state. The
/// result is what to get next, or how the capture ends. `is_root` says
/// whether the caller may touch the system.
pub fn do_pre(
    config: &Config,
    is_root: bool,
    brightness: Option<&str>,
    color: Option<&str>,
    encoded: Option<&str>,
) -> (step: PreStep)
    ensures
        step@ == pre_step(
            config@,
            is_root,
            brightness.deep_view(),
            color.deep_view(),
            encoded.deep_view(),
        ),
{
    let brightness = match brightness {
        None => {
            return PreStep::ReadBrightness { path: config.brightness.path.clone() };
        },
        Some(reading) => trim(reading),
    };
    if brightness.unicode_len() == 0 {
        return PreStep::Fail { error: Error::EmptyValue { path: config.brightness.path.clone() } };
    }
    let color = match color {
        None => {
            return PreStep::ReadColor { path: config.color.path.clone() };
        },
        Some(reading) => trim(reading),
    };
    if color.unicode_len() == 0 {
        return PreStep::Fail { error: Error::EmptyValue { path: config.color.path.clone() } };
    }
    match encoded {
        None => PreStep::Encode {
            state: State {
                brightness: String::from_str(brightness),
                color: String::from_str(color),
            },
        },
        Some(text) => PreStep::Perform { plan: write_state(config, text, is_root) },
    }
}

/// A dry run touches nothing: without the privilege, whatever the
/// configuration, the state and the readings, every effect that is planned
/// only prints.
pub proof fn lemma_dry_run_is_harmless(
    config: ConfigView,
    state: StateView,
    brightness: Option<Seq<char>>,
    color: Option<Seq<char>>,
    encoded: Option<Seq<char>>,
)
    ensures
        all_harmless(apply_state_plan(config, state, false)),
        encoded matches Some(text) ==> all_harmless(write_state_plan(config, text, false)),
        pre_step(config, false, brightness, color, encoded) matches PreStepView::Perform { plan }
            ==> all_harmless(plan),
{
}

} // verus!
