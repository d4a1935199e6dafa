//! System console interfaces.
use vstd::prelude::*;

verus! {

/// Console write functions.
pub trait Write {
    /// Write a single character.
    fn write_char(&mut self, c: char);

    /// Block until the last buffered character has been physically put on
    /// the TX wire.
    fn flush(&self);
}

/// Console read functions.
pub trait Read {
    /// Read a single character.
    fn read_char(&self) -> (c: char)
        default_ensures
            c == ' ',
    {
        ' '
    }

    /// Clear RX buffers, if any.
    fn clear_rx(&self);
}

/// Console statistics.
pub trait Statistics {
    /// The number of characters written.
    fn chars_written(&self) -> (n: usize)
        default_ensures
            n == 0,
    {
        0
    }

    /// The number of characters read.
    fn chars_read(&self) -> (n: usize)
        default_ensures
            n == 0,
    {
        0
    }
}

} // verus!
