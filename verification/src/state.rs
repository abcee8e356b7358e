//! The two-phase application state.

use vstd::prelude::*;

verus! {

/// The phase the program is in. Exactly one value is active at a time; the
/// only transition this program makes is `Loading` to `Playing`, once.
#[derive(Clone, Copy, Debug, PartialEq, Eq, Structural)]
pub enum ApplicationState {
    Loading,
    Playing,
}

impl Default for ApplicationState {
    /// The program starts on the loading screen.
    fn default() -> (r: Self)
        ensures
            r == ApplicationState::Loading,
    {
        ApplicationState::Loading
    }
}

} // verus!
