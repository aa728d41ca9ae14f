//! The three blocks of state that live across the calls of one query:
//! what bind computed, the flag shared by the scan, and a worker's budget.

use vstd::prelude::*;

verus! {

/// What a [`HelloBindData`] holds, as plain mathematical values.
pub struct BindView {
    /// The bytes of the name, or `None` once the buffer has been released.
    pub name: Option<Seq<u8>>,
    /// The number of rows that each worker is to emit.
    pub count: u32,
}

impl BindView {
    /// The same data with its text buffer given back.
    pub open spec fn released(self) -> BindView {
        BindView { name: None, count: self.count }
    }
}

/// Query-scoped data: the owned text buffer with the name, and the number
/// of rows asked for. Production steps only read it.
#[derive(Debug)]
pub struct HelloBindData {
    /// The owned buffer, held from bind until release.
    pub name: Option<Vec<u8>>,
    /// The number of rows to emit.
    pub count: u32,
}

impl View for HelloBindData {
    type V = BindView;

    open spec fn view(&self) -> BindView {
        BindView {
            name: match self.name {
                Some(bytes) => Some(bytes@),
                None => None,
            },
            count: self.count,
        }
    }
}

impl HelloBindData {
    /// Whether the text buffer is still held.
    pub fn holds_buffer(&self) -> (held: bool)
        ensures
            held == (self@.name is Some),
    {
        self.name.is_some()
    }

    /// Releases the text buffer. The buffer is dropped here and nowhere
    /// else; on data that was already released nothing happens, so the
    /// buffer is never given back twice.
    pub fn free(&mut self)
        ensures
            final(self)@ == old(self)@.released(),
            old(self)@.name is None ==> final(self)@ == old(self)@,
    {
        self.name = None;
    }
}

/// Scan-scoped state, shared by the workers of one scan.
#[derive(Clone, Copy, Debug, PartialEq, Eq, Structural)]
pub struct HelloGlobalData {
    /// Set once the stream has emitted its last row; never reset.
    pub done: bool,
}

/// Worker-scoped state.
#[derive(Clone, Copy, Debug, PartialEq, Eq, Structural)]
pub struct HelloLocalData {
    /// The rows that this worker has yet to emit; it only ever goes down.
    pub remaining: u32,
}

} // verus!
