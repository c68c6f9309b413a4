//! Reading a file character by character, one buffered line at a time.
//!
//! The file itself is read outside this library. This module holds the decisions: which
//! character is handed out next, when another line is read, how often reading is tried
//! again after an interruption, and when the characters end.

use vstd::prelude::*;

verus! {

/// How many times in a row reading is tried again after it was interrupted.
pub const RETRY_LIMIT: u8 = 10;

/// The place of a file that is to be read.
#[derive(Debug, Clone, PartialEq, Eq)]
pub struct FileReader {
    path: String,
}

impl FileReader {
    /// The path of the file.
    pub closed spec fn path_spec(&self) -> Seq<char> {
        self.path@
    }

    /// Creates a new `FileReader` that stands for the file at the given path.
    pub fn new(path: String) -> (r: FileReader)
        ensures
            r.path_spec() == path@,
    {
        FileReader { path }
    }

    /// Returns the path of the file.
    pub fn path(&self) -> (r: &str)
        ensures
            r@ == self.path_spec(),
    {
        self.path.as_str()
    }
}

/// What an attempt to read the next line of the file gave.
#[derive(Debug, PartialEq, Eq)]
pub enum ReadEvent {
    /// The characters of the next line, with the new line that ends it if there is one.
    Line(Vec<char>),
    /// The end of the file.
    End,
    /// Reading was interrupted, and may succeed if it is tried again.
    Interrupted,
    /// Reading failed for good.
    Failed,
}

/// What is to be done after an attempt to read a line.
#[derive(Debug, Clone, Copy, PartialEq, Eq, Structural)]
pub enum ReadStep {
    /// The character is the next one of the file.
    Yield(char),
    /// The next line is to be read once more.
    Retry,
    /// The characters of the file have come to their end.
    Stop,
}

/// The line of the file that was read last, the characters of which are handed out one by
/// one, and the number of interruptions in a row.
#[derive(Debug, PartialEq, Eq)]
pub struct LineBuffer {
    buffer: Vec<char>,
    index: usize,
    retries: u8,
}

impl LineBuffer {
    /// The characters of the line that have yet to be handed out.
    pub closed spec fn pending(&self) -> Seq<char> {
        if self.index <= self.buffer@.len() {
            self.buffer@.subrange(self.index as int, self.buffer@.len() as int)
        } else {
            Seq::empty()
        }
    }

    /// The number of times in a row that reading was interrupted.
    pub closed spec fn retries(&self) -> u8 {
        self.retries
    }

    /// Creates a new `LineBuffer` that holds no line.
    pub fn new() -> (r: LineBuffer)
        ensures
            r.pending().len() == 0,
            r.retries() == 0,
    {
        LineBuffer { buffer: Vec::new(), index: 0, retries: 0 }
    }

    /// Hands out the next character of the line, if one is left.
    pub fn pop(&mut self) -> (r: Option<char>)
        ensures
            final(self).retries() == old(self).retries(),
            match r {
                Some(c) => old(self).pending().len() > 0 && c == old(self).pending()[0] && final(self).pending() == old(self).pending().skip(1),
                None => old(self).pending().len() == 0 && final(self).pending().len() == 0,
            },
    {
        if self.index < self.buffer.len() {
            let c = self.buffer[self.index];
            self.index += 1;
            assert(self.pending() =~= old(self).pending().skip(1));
            Some(c)
        } else {
            None
        }
    }

    /// Takes what an attempt to read the next line gave, and says what is to be done.
    ///
    /// A line that is not empty becomes the line of the buffer: its first character is
    /// handed out at once, and the others are left. An empty line and the end of the file
    /// end the characters. After an interruption the line is read once more, unless
    /// reading was interrupted [`RETRY_LIMIT`] times in a row before; any other failure
    /// ends the characters. Every line or end that was read sets the number of
    /// interruptions back to none.
    pub fn on_read(&mut self, event: ReadEvent) -> (r: ReadStep)
        requires
            old(self).pending().len() == 0,
        ensures
            match event {
                ReadEvent::Line(line) => final(self).retries() == 0 && if line@.len() > 0 {
                    r == ReadStep::Yield(line@[0]) && final(self).pending() == line@.skip(1)
                } else {
                    r == ReadStep::Stop && final(self).pending().len() == 0
                },
                ReadEvent::End => r == ReadStep::Stop && final(self).retries() == 0 && final(self).pending().len() == 0,
                ReadEvent::Interrupted => final(self).pending().len() == 0 && if old(self).retries() < RETRY_LIMIT {
                    r == ReadStep::Retry && final(self).retries() == old(self).retries() + 1
                } else {
                    r == ReadStep::Stop && final(self).retries() == old(self).retries()
                },
                ReadEvent::Failed => r == ReadStep::Stop && final(self).retries() == old(self).retries() && final(self).pending().len() == 0,
            },
    {
        match event {
            ReadEvent::Line(line) => {
                self.retries = 0;
                if line.len() > 0 {
                    let first = line[0];
                    self.buffer = line;
                    self.index = 1;
                    assert(self.pending() =~= line@.skip(1));
                    ReadStep::Yield(first)
                } else {
                    ReadStep::Stop
                }
            },
            ReadEvent::End => {
                self.retries = 0;
                ReadStep::Stop
            },
            ReadEvent::Interrupted => {
                if self.retries < RETRY_LIMIT {
                    self.retries += 1;
                    ReadStep::Retry
                } else {
                    ReadStep::Stop
                }
            },
            ReadEvent::Failed => ReadStep::Stop,
        }
    }
}

} // verus!
