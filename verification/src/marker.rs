//! The completion marker: a file that starts empty and that the child fills
//! with a fixed payload once the test body has returned.

use vstd::prelude::*;

verus! {

/// The payload that marks a body as completed.
pub open spec fn marker_bytes() -> Seq<u8> {
    seq![0x64u8, 0x6fu8, 0x6eu8, 0x65u8, 0x0au8]
}

/// Whether a file with these contents records a completed body: it holds
/// the payload, whole and with nothing else.
pub open spec fn holds_marker(contents: Seq<u8>) -> bool {
    contents == marker_bytes()
}

/// What a completion marker file holds.
pub struct CompletionMarker {
    /// The bytes of the file.
    pub contents: Vec<u8>,
}

impl View for CompletionMarker {
    type V = Seq<u8>;

    open spec fn view(&self) -> Seq<u8> {
        self.contents@
    }
}

impl CompletionMarker {
    /// Whether the contents are exactly the payload.
    pub open spec fn present(&self) -> bool {
        holds_marker(self@)
    }

    /// A marker as the driver creates it: empty.
    pub fn create() -> (m: Self)
        ensures
            m@ == Seq::<u8>::empty(),
            !m.present(),
    {
        let m = CompletionMarker { contents: Vec::new() };
        assert(marker_bytes().len() == 5);
        m
    }

    /// A marker with the bytes that were read from its file.
    pub fn from_contents(contents: Vec<u8>) -> (m: Self)
        ensures
            m@ == contents@,
    {
        CompletionMarker { contents }
    }

    /// Replaces the contents by the payload.
    pub fn write_marker(&mut self)
        ensures
            final(self)@ == marker_bytes(),
            final(self).present(),
    {
        let mut payload: Vec<u8> = Vec::new();
        payload.push(0x64);
        payload.push(0x6f);
        payload.push(0x6e);
        payload.push(0x65);
        payload.push(0x0a);
        assert(payload@ =~= marker_bytes());
        self.contents = payload;
    }

    /// Whether the child recorded that the body completed: the contents are
    /// the payload, whole and with nothing else.
    pub fn read_marker(&self) -> (present: bool)
        ensures
            present == self.present(),
    {
        let payload: [u8; 5] = [0x64, 0x6f, 0x6e, 0x65, 0x0a];
        assert(payload@ =~= marker_bytes());
        if self.contents.len() != 5 {
            return false;
        }
        let mut i: usize = 0;
        while i < 5
            invariant
                i <= 5,
                self.contents@.len() == 5,
                payload@ == marker_bytes(),
                forall|k: int| 0 <= k < i ==> self.contents@[k] == payload@[k],
            decreases 5 - i,
        {
            if self.contents[i] != payload[i] {
                return false;
            }
            i += 1;
        }
        assert(self.contents@ =~= marker_bytes());
        true
    }
}

} // verus!
