//! The services a user interface offers to a run.

use vstd::prelude::*;

verus! {

/// A user interface that shows the run: its header, its numbered steps,
/// the progress of the clones, and that asks for the search mode.
pub trait UserInterface {
    fn show_header(&self);

    fn start_step(&mut self, step: usize, message: &str);

    fn complete_step(&mut self, step: usize, message: &str, details: &str);

    fn show_progress(&self, current: usize, total: usize);

    fn configure_search(&self) -> Option<String>;

    fn finalize(&self);
}

} // verus!
