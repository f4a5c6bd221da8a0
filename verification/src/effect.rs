//! What a transition asks of the system around it. The library decides; the
//! caller carries the effects out, in order, and stops at the first that
//! fails. Nothing that was done before a failure is undone.

use vstd::prelude::*;

verus! {

/// One thing to do to the system.
#[derive(Debug, PartialEq, Eq)]
pub enum Effect {
    /// Print `text` as a line on standard output.
    Print { text: String },
    /// Make sure that the directory in which `of` lies exists, creating it
    /// and every missing directory above it.
    CreateParentDirs { of: String },
    /// Write `content` to the file at `path`, in place of whatever it held.
    WriteFile { path: String, content: String },
}

/// An `Effect` as plain text.
pub enum EffectView {
    Print { text: Seq<char> },
    CreateParentDirs { of: Seq<char> },
    WriteFile { path: Seq<char>, content: Seq<char> },
}

impl View for Effect {
    type V = EffectView;

    open spec fn view(&self) -> EffectView {
        match self {
            Effect::Print { text } => EffectView::Print { text: text@ },
            Effect::CreateParentDirs { of } => EffectView::CreateParentDirs { of: of@ },
            Effect::WriteFile { path, content } => EffectView::WriteFile {
                path: path@,
                content: content@,
            },
        }
    }
}

impl DeepView for Effect {
    type V = EffectView;

    open spec fn deep_view(&self) -> EffectView {
        self@
    }
}

impl EffectView {
    /// Whether carrying the effect out leaves every file as it was.
    pub open spec fn is_harmless(self) -> bool {
        self is Print
    }
}

/// Whether carrying the plan out leaves every file as it was.
pub open spec fn all_harmless(plan: Seq<EffectView>) -> bool {
    forall|i: int| 0 <= i < plan.len() ==> (#[trigger] plan[i]).is_harmless()
}

} // verus!
