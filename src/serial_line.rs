use vstd::prelude::*;

verus! {

/// Collects the bytes of one reply line read from the serial port, up to
/// (and without) its newline.
#[derive(Debug)]
pub struct LineReader {
    bytes: Vec<u8>,
    complete: bool,
}

impl View for LineReader {
    type V = (Seq<u8>, bool);

    closed spec fn view(&self) -> (Seq<u8>, bool) {
        (self.bytes@, self.complete)
    }
}

impl LineReader {
    pub fn new() -> (r: LineReader)
        ensures
            r@ == (Seq::<u8>::empty(), false),
    {
        LineReader { bytes: Vec::new(), complete: false }
    }

    /// Takes one byte read from the port; returns whether the line is
    /// complete. A newline completes it; bytes after that are ignored.
    pub fn feed(&mut self, byte: u8) -> (done: bool)
        ensures
            old(self)@.1 ==> final(self)@ == old(self)@ && done,
            !old(self)@.1 && byte == 10 ==> final(self)@ == (old(self)@.0, true) && done,
            !old(self)@.1 && byte != 10 ==> final(self)@ == (old(self)@.0.push(byte), false) && !done,
    {
        if self.complete {
            return true;
        }
        if byte == 10 {
            self.complete = true;
            true
        } else {
            self.bytes.push(byte);
            false
        }
    }

    /// The bytes of the line read so far.
    pub fn into_bytes(self) -> (r: Vec<u8>)
        ensures
            r@ == self@.0,
    {
        self.bytes
    }
}

} // verus!
