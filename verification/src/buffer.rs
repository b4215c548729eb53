use vstd::prelude::*;
use vstd::string::StringSliceAdditionalSpecFns;

verus! {

/// Ceiling kept on the buffer's idle allocation, in bytes.
pub const MAX_BUFFER_CAPACITY: usize = 4096;

/// The single line terminator appended after each rendered line.
pub const LINE_FEED: u8 = 10;

/// A reusable byte buffer that renders one text line at a time: the
/// line's UTF-8 bytes followed by exactly one line-feed byte. The buffer
/// is cleared before each render, and an oversized allocation left over
/// from a large line is shrunk back towards `MAX_BUFFER_CAPACITY` while
/// the buffer is empty, bounding idle memory.
pub struct Buffer(Vec<u8>);

impl View for Buffer {
    type V = Seq<u8>;

    closed spec fn view(&self) -> Seq<u8> {
        self.0@
    }
}

/// Relies on `Vec::capacity`: the allocated capacity is at least the length.
#[verifier::external_body]
fn vec_capacity(v: &Vec<u8>) -> (r: usize)
    ensures
        r >= v@.len(),
{
    v.capacity()
}

/// Relies on `Vec::shrink_to`: it may reduce spare capacity but keeps the
/// elements themselves untouched.
#[verifier::external_body]
fn vec_shrink_to(v: &mut Vec<u8>, min_capacity: usize)
    ensures
        final(v)@ == old(v)@,
{
    v.shrink_to(min_capacity)
}

impl Buffer {
    /// A fresh, empty buffer.
    pub fn new() -> (r: Self)
        ensures
            r@ == Seq::<u8>::empty(),
    {
        Buffer(Vec::new())
    }

    /// Renders `line`: afterwards the buffer holds exactly the UTF-8
    /// bytes of `line` followed by one line-feed byte, whatever the
    /// buffer held before and however long the line is. The returned
    /// slice borrows the buffer's contents and is overwritten by the
    /// next render.
    pub fn write_line<'a>(&'a mut self, line: &str) -> (r: &'a Vec<u8>)
        ensures
            final(self)@ == line.spec_bytes().push(LINE_FEED),
            r@ == final(self)@,
    {
        self.0.clear();
        if vec_capacity(&self.0) > MAX_BUFFER_CAPACITY {
            vec_shrink_to(&mut self.0, MAX_BUFFER_CAPACITY);
        }
        let bytes = line.as_bytes();
        self.0.extend_from_slice(bytes);
        self.0.push(LINE_FEED);
        &self.0
    }

    /// The buffer's current allocated capacity, in bytes.
    pub fn capacity(&self) -> (r: usize)
        ensures
            r >= self@.len(),
    {
        vec_capacity(&self.0)
    }
}

} // verus!
