//! Where the current state is published.
use vstd::prelude::*;

use std::path::PathBuf;

verus! {

/// `std::path::PathBuf`, carried through unchanged.
#[verifier::external_type_specification]
#[verifier::external_body]
pub struct ExPathBuf(PathBuf);

/// Publishes each state sample to a JSON file.
pub struct StatePublisher {
    current_state_path: PathBuf,
}

impl StatePublisher {
    /// The file the publisher writes.
    pub closed spec fn target(&self) -> PathBuf {
        self.current_state_path
    }

    /// A publisher writing to `current_state_path`.
    pub fn new(current_state_path: PathBuf) -> (p: StatePublisher)
        ensures
            p.target() == current_state_path,
    {
        StatePublisher { current_state_path }
    }

    /// The file the publisher writes.
    pub fn path(&self) -> (p: &PathBuf)
        ensures
            *p == self.target(),
    {
        &self.current_state_path
    }
}

} // verus!
