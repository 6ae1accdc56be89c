use vstd::prelude::*;

verus! {

/// What a file dialog was opened for.
#[derive(Clone, Copy, Debug, PartialEq, Eq, Structural)]
pub enum FileDialogAction {
    Save,
    Load,
}

} // verus!
