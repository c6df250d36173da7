use vstd::prelude::*;

verus! {

/// The input-interpretation context: which overlay is shown and how the next
/// keystroke is read.  Editing and selection overlays capture the index of
/// the task they act on.
#[derive(Clone, Copy, Debug, PartialEq, Eq, Structural)]
pub enum AppMode {
    Normal,
    AddingTask,
    EditingTime(usize),
    SelectingPreset(usize),
    SelectingCategory(usize),
    StartupAnimation,
    ShowStats,
    ShowHelp,
}

impl Default for AppMode {
    /// The resting state every workflow returns to.
    fn default() -> (r: Self)
        ensures
            r == AppMode::Normal,
    {
        AppMode::Normal
    }
}

} // verus!
