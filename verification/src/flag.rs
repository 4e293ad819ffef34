//! The speaking state flag: one boolean shared between the audio callback,
//! which writes it, and the presenter, which reads it.
//!
//! Reads and writes never block and are sequentially consistent. The flag
//! keeps no history: a read sees the latest write and nothing of the writes
//! before it.

use vstd::prelude::*;
use std::sync::atomic::AtomicBool;
use std::sync::atomic::Ordering;
use std::sync::Arc;

verus! {

/// A handle to the shared flag. All handles made from one another by
/// `handle` speak of the same boolean.
pub struct SpeakingFlag {
    cell: Arc<AtomicBool>,
}

impl SpeakingFlag {
    /// A fresh flag that reads `false` until something is published.
    pub fn new() -> (flag: SpeakingFlag) {
        SpeakingFlag { cell: Arc::new(AtomicBool::new(false)) }
    }

    /// Another handle to the same flag, to be moved to the other thread.
    /// A handle is known by the cell it points to, so the new handle equals
    /// this one: what is published through either is observed through both.
    pub fn handle(&self) -> (other: SpeakingFlag)
        ensures
            other == *self,
    {
        SpeakingFlag { cell: Arc::clone(&self.cell) }
    }

    /// Overwrites the flag, whether or not the value differs from the one it
    /// holds.
    pub fn publish(&self, speaking: bool) {
        self.cell.store(speaking, Ordering::SeqCst);
    }

    /// Reads the flag as it is now. What comes back is whatever was
    /// published last, by any handle on any thread; nothing is known of it
    /// here.
    pub fn observe(&self) -> (speaking: bool) {
        self.cell.load(Ordering::SeqCst)
    }
}

} // verus!
