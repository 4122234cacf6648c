//! The graffiti value embedded in produced blocks: at most 32 bytes of
//! UTF-8 text, right-padded with zero bytes into a fixed 32-byte buffer.

use vstd::prelude::*;
use vstd::slice::slice_to_vec;
use vstd::utf8::encode_utf8;

verus! {

/// A 32-byte graffiti buffer.
#[derive(Clone, Debug)]
pub struct Graffiti {
    pub bytes: Vec<u8>,
}

impl Graffiti {
    pub open spec fn wf(self) -> bool {
        self.bytes@.len() == 32
    }
}

/// The 32-byte buffer holding `b` followed by zero bytes.
pub open spec fn padded_graffiti(b: Seq<u8>) -> Seq<u8> {
    b + Seq::new((32 - b.len()) as nat, |i: int| 0u8)
}

/// Builds the graffiti buffer from its textual form; `None` when the text
/// is longer than 32 bytes.
pub fn make_graffiti(s: &str) -> (r: Option<Graffiti>)
    ensures
        r is Some <==> encode_utf8(s@).len() <= 32,
        r is Some ==> r->0.wf() && r->0.bytes@ == padded_graffiti(encode_utf8(s@)),
{
    let b = s.as_bytes();
    if b.len() > 32 {
        return None;
    }
    let ghost raw = encode_utf8(s@);
    let mut bytes: Vec<u8> = slice_to_vec(b);
    proof {
        assert(bytes@.take(raw.len() as int) =~= raw);
    }
    while bytes.len() < 32
        invariant
            raw.len() <= bytes@.len() <= 32,
            bytes@.take(raw.len() as int) == raw,
            forall|j: int| raw.len() <= j < bytes@.len() ==> bytes@[j] == 0u8,
        decreases 32 - bytes.len(),
    {
        bytes.push(0u8);
        proof {
            assert(bytes@.take(raw.len() as int) =~= raw);
        }
    }
    proof {
        assert(bytes@ =~= padded_graffiti(raw));
    }
    Some(Graffiti { bytes })
}

} // verus!
