//! Heap-allocated thread stacks.
use vstd::prelude::*;

verus! {

/// `addr` rounded down to a multiple of 16.
pub open spec fn align_down_16(addr: int) -> int {
    addr - addr % 16
}

/// A thread stack: a buffer of bytes that grows down from its top.
pub struct BoxStack {
    buffer: Vec<u8>,
}

impl View for BoxStack {
    type V = Seq<u8>;

    closed spec fn view(&self) -> Seq<u8> {
        self.buffer@
    }
}

impl BoxStack {
    /// A stack of `size` bytes, all zero.
    pub fn new(size: usize) -> (stack: BoxStack)
        ensures
            stack@.len() == size,
            forall|i: int| 0 <= i < size ==> stack@[i] == 0u8,
    {
        BoxStack { buffer: vec![0u8; size] }
    }

    /// The stack's size in bytes.
    pub fn len(&self) -> (len: usize)
        ensures
            len == self@.len(),
    {
        self.buffer.len()
    }

    /// The stack's bytes, lowest address first.
    pub fn as_slice(&self) -> (bytes: &[u8])
        ensures
            bytes@ == self@,
    {
        self.buffer.as_slice()
    }

    /// Gives up the stack's buffer, for the thread that will run on it.
    pub fn into_buffer(self) -> (buffer: Vec<u8>)
        ensures
            buffer@ == self@,
    {
        self.buffer
    }

    /// The initial stack pointer for a stack whose buffer starts at address
    /// `base`: its end rounded down to the 16-byte alignment that the
    /// calling convention asks for.
    pub fn top(&self, base: usize) -> (top: usize)
        requires
            base + self@.len() <= usize::MAX,
        ensures
            top == align_down_16(base + self@.len()),
            top % 16 == 0,
            base + self@.len() - 16 < top <= base + self@.len(),
    {
        let raw_top: usize = base + self.buffer.len();
        let top = raw_top & !0xFusize;
        assert(raw_top & !0xFusize == raw_top - raw_top % 16) by (bit_vector);
        top
    }
}

} // verus!
