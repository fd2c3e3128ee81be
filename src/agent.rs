//! The guest agent binaries embedded into the seed media.
use vstd::prelude::*;
use crate::cloud_init::chars_of;

verus! {

/// What a build without real agent binaries embeds in their place.
pub const PLACEHOLDER_AGENT: &'static str = "PLACEHOLDER_AGENT_BINARY";

/// The bytes of an ASCII text.
pub open spec fn ascii_bytes(s: Seq<char>) -> Seq<u8> {
    s.map_values(|c: char| c as u8)
}

/// Whether `binary` is the placeholder rather than a real agent.
pub fn is_placeholder(binary: &[u8]) -> (r: bool)
    ensures
        r == (binary@ == ascii_bytes(PLACEHOLDER_AGENT@)),
{
    let p = chars_of(PLACEHOLDER_AGENT);
    if p.len() != binary.len() {
        return false;
    }
    let mut i: usize = 0;
    while i < p.len()
        invariant
            p@ == PLACEHOLDER_AGENT@,
            p@.len() == binary@.len(),
            i <= p@.len(),
            forall|k: int| 0 <= k < i ==> binary@[k] == p@[k] as u8,
        decreases p@.len() - i,
    {
        if binary[i] != p[i] as u8 {
            assert(binary@[i as int] != ascii_bytes(p@)[i as int]);
            return false;
        }
        i += 1;
    }
    assert(binary@ =~= ascii_bytes(p@));
    true
}

} // verus!
