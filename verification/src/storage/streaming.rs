//! Position bookkeeping of streaming file readers and writers. The file
//! handles and buffers belong to the application, which reports each
//! seek, read and write here.

use vstd::prelude::*;

verus! {

/// Buffer size of streaming readers (256 KiB).
pub const READ_BUFFER_SIZE: usize = 262144;

/// Buffer size of streaming writers (256 KiB).
pub const WRITE_BUFFER_SIZE: usize = 262144;

/// Where a streaming reader stands in its file.
pub struct ReadCursor {
    /// Size of the file in bytes.
    pub file_size: u64,
    /// Offset of the next byte to read.
    pub position: u64,
}

impl ReadCursor {
    /// At the start of a file of `file_size` bytes.
    pub fn new(file_size: u64) -> (c: Self)
        ensures
            c.file_size == file_size,
            c.position == 0,
    {
        ReadCursor { file_size, position: 0 }
    }

    /// After seeking to `offset` and reading `bytes_read` bytes there.
    pub fn read_at(&mut self, offset: u64, bytes_read: u64)
        requires
            offset + bytes_read <= u64::MAX,
        ensures
            final(self).position == offset + bytes_read,
            final(self).file_size == old(self).file_size,
    {
        self.position = offset + bytes_read;
    }

    /// After reading `bytes_read` more bytes at the current position.
    pub fn advance(&mut self, bytes_read: u64)
        requires
            old(self).position + bytes_read <= u64::MAX,
        ensures
            final(self).position == old(self).position + bytes_read,
            final(self).file_size == old(self).file_size,
    {
        self.position = self.position + bytes_read;
    }

    /// Whether the whole file has been read.
    pub fn is_eof(&self) -> (b: bool)
        ensures
            b == (self.position >= self.file_size),
    {
        self.position >= self.file_size
    }

    /// Bytes left to read (none once past the end).
    pub fn remaining(&self) -> (n: u64)
        ensures
            n == if self.position >= self.file_size {
                0
            } else {
                self.file_size - self.position
            },
    {
        if self.position >= self.file_size {
            0
        } else {
            self.file_size - self.position
        }
    }
}

/// How much a streaming writer has written of its file.
pub struct WriteProgress {
    /// Size the file was created with.
    pub total_size: u64,
    /// Bytes written so far (each write counted, also rewrites).
    pub bytes_written: u64,
}

impl WriteProgress {
    /// Nothing written to a file of `total_size` bytes.
    pub fn new(total_size: u64) -> (w: Self)
        ensures
            w.total_size == total_size,
            w.bytes_written == 0,
    {
        WriteProgress { total_size, bytes_written: 0 }
    }

    /// After writing `len` bytes.
    pub fn record(&mut self, len: u64)
        requires
            old(self).bytes_written + len <= u64::MAX,
        ensures
            final(self).bytes_written == old(self).bytes_written + len,
            final(self).total_size == old(self).total_size,
    {
        self.bytes_written = self.bytes_written + len;
    }
}

} // verus!
