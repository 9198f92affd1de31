//! The application delegate: how a directory chosen by the user becomes
//! the new image set.

use vstd::prelude::*;
use crate::data::{session_wf, ProgramData};
use crate::sequencer::keep_image_paths;

verus! {

pub struct Delegate;

impl Delegate {
    /// Handle a directory-selection command: remember the chosen directory,
    /// take the directory's listing (read by the caller) as the new image
    /// set, and stop any running session.  The transform toggles survive,
    /// as on any stop.  Returns true: the command was handled.
    pub fn command(
        &self,
        data: &mut ProgramData,
        directory: String,
        paths: Vec<String>,
    ) -> (handled: bool)
        requires
            session_wf(*old(data)),
        ensures
            session_wf(*final(data)),
            final(data).state is Stopped,
            final(data).config.current_directory == Some(directory),
            final(data).config.schedule == old(data).config.schedule,
            final(data).images_paths@.to_multiset() == keep_image_paths(paths@).to_multiset(),
            final(data).black_and_white == old(data).black_and_white,
            final(data).mirrored == old(data).mirrored,
            handled,
    {
        data.config.current_directory = Some(directory);
        data.reload(paths);
        true
    }
}

} // verus!
