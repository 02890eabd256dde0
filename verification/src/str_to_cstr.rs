//! The literal rewrite at the heart of the code generator: turn one text
//! literal into a nul-terminated byte string, refusing text that already
//! embeds a nul byte.

use crate::plugin::{first_nul_at, NulError};
use vstd::prelude::*;

verus! {

/// Append exactly one terminating nul byte to `text`, or report the position
/// of the first embedded nul byte. Never truncates and never encodes an
/// interior nul.
pub fn convert(text: &Vec<u8>) -> (r: Result<Vec<u8>, NulError>)
    ensures
        match r {
            Ok(b) => {
                &&& !text@.contains(0u8)
                &&& b@ == text@.push(0u8)
            },
            Err(e) => first_nul_at(text@, e.position as int),
        },
{
    let n = text.len();
    let mut out: Vec<u8> = Vec::new();
    let mut i: usize = 0;
    while i < n
        invariant
            n == text@.len(),
            i <= n,
            out@ == text@.subrange(0, i as int),
            forall|j: int| 0 <= j < i ==> text@[j] != 0u8,
        decreases n - i,
    {
        let b = text[i];
        if b == 0u8 {
            return Err(NulError { position: i });
        }
        out.push(b);
        i += 1;
    }
    out.push(0u8);
    proof {
        assert(out@ =~= text@.push(0u8));
        assert(!text@.contains(0u8)) by {
            if text@.contains(0u8) {
                let k = choose|k: int| 0 <= k < text@.len() && text@[k] == 0u8;
                assert(text@[k] != 0u8);
            }
        }
    }
    Ok(out)
}

} // verus!
