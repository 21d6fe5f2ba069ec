use vstd::prelude::*;
use std::sync::atomic::{AtomicBool, Ordering};

verus! {

/// A cancellation flag shared by whoever asks to cancel and the job that
/// watches for it. One flag serves the one job in flight; relaxed ordering
/// suffices, as a late observation only delays the cancellation.
pub struct CancelSignal {
    flag: AtomicBool,
}

impl CancelSignal {
    pub fn new() -> (r: CancelSignal) {
        CancelSignal { flag: AtomicBool::new(false) }
    }

    /// Asks the job in flight to stop; the request is always acknowledged.
    pub fn request(&self) -> (r: bool)
        ensures
            r,
    {
        self.flag.store(true, Ordering::Relaxed);
        true
    }

    /// Clears the flag, as a new job starts.
    pub fn clear(&self) {
        self.flag.store(false, Ordering::Relaxed);
    }

    /// Whether a cancellation has been asked for since the last `clear`.
    pub fn is_requested(&self) -> (r: bool) {
        self.flag.load(Ordering::Relaxed)
    }
}

} // verus!
