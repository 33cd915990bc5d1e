//! A sink that accepts everything and holds nothing.

use vstd::prelude::*;

verus! {

/// Stands in for a log file when nothing is to be logged.
pub struct DevNullFile;

impl DevNullFile {
    pub fn new() -> DevNullFile {
        DevNullFile
    }

    /// Accepts the whole buffer.
    pub fn write(&mut self, buf: &[u8]) -> (written: usize)
        ensures
            written == buf@.len(),
    {
        buf.len()
    }

    /// There is nothing to flush.
    pub fn flush(&mut self) {
    }

    /// There is nothing to read: no byte is handed out.
    pub fn read(&mut self, _buf: &[u8]) -> (count: usize)
        ensures
            count == 0,
    {
        0
    }

    /// Every position is the start.
    pub fn seek(&mut self, _offset: i64) -> (position: u64)
        ensures
            position == 0,
    {
        0
    }
}

} // verus!
