//! The flag that ends the session.

use vstd::prelude::*;

verus! {

/// Remembers whether the performer has asked to quit. It starts out
/// running, and once asked it never runs again.
pub struct QuitWatcher {
    quit: bool,
}

impl QuitWatcher {
    /// Nobody has asked to quit yet.
    pub closed spec fn running(&self) -> bool {
        !self.quit
    }

    /// A watcher that is running.
    pub fn new() -> (watcher: QuitWatcher)
        ensures
            watcher.running(),
    {
        QuitWatcher { quit: false }
    }

    /// Tells whether to go on.
    pub fn is_running(&self) -> (running: bool)
        ensures
            running == self.running(),
    {
        !self.quit
    }

    /// Records that the performer asked to quit.
    pub fn request_quit(&mut self)
        ensures
            !final(self).running(),
    {
        self.quit = true;
    }
}

} // verus!
