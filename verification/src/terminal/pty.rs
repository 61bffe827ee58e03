//! Handle for the pseudo-terminal of a local shell.
//!
//! The handle records which shell a session runs and the size that the
//! shell was told. It is not attached to a process: it accepts every
//! write in full and reports the end of the stream on every read.

use vstd::prelude::*;
use vstd::string::StringExecFns;

verus! {

/// The error type of the standard library's I/O operations. The handle
/// only passes it through; it never makes one.
#[verifier::external_type_specification]
#[verifier::external_body]
pub struct ExIoError(std::io::Error);

/// Handle for the pseudo-terminal of a local shell.
#[derive(Debug)]
pub struct PtyHandle {
    /// Command of the shell.
    pub shell: String,
    pub rows: u16,
    pub cols: u16,
}

impl PtyHandle {
    /// A handle for `shell` at the given size.
    pub fn new(shell: &str, rows: u16, cols: u16) -> (result: Result<Self, std::io::Error>)
        ensures
            result matches Ok(handle) && handle.shell@ == shell@ && handle.rows == rows
                && handle.cols == cols,
    {
        Ok(PtyHandle { shell: String::from_str(shell), rows, cols })
    }

    /// Writes `data` to the shell and returns how many bytes were
    /// taken: all of them.
    pub fn write(&mut self, data: &[u8]) -> (result: Result<usize, std::io::Error>)
        ensures
            result matches Ok(taken) && taken == data@.len(),
            *final(self) == *old(self),
    {
        Ok(data.len())
    }

    /// Reads output of the shell into `buf` and returns how many bytes
    /// were read: none, which marks the end of the stream. The buffer is
    /// left as it was.
    pub fn read(&mut self, buf: &mut [u8]) -> (result: Result<usize, std::io::Error>)
        ensures
            result matches Ok(count) && count == 0,
            final(buf)@ == old(buf)@,
            *final(self) == *old(self),
    {
        Ok(0)
    }

    /// Records a new size.
    pub fn set_size(&mut self, rows: u16, cols: u16) -> (result: Result<(), std::io::Error>)
        ensures
            result is Ok,
            final(self).rows == rows,
            final(self).cols == cols,
            final(self).shell == old(self).shell,
    {
        self.rows = rows;
        self.cols = cols;
        Ok(())
    }
}

} // verus!
