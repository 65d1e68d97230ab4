//! Crossing the native call boundary: a fragment of text as a byte string
//! of its own, ended by a zero byte.

use vstd::prelude::*;
use vstd::string::StringSliceAdditionalSpecFns;

verus! {

/// The form in which `text` crosses the boundary: its UTF-8 bytes and one
/// zero byte after them.
pub open spec fn terminated(text: Seq<u8>) -> Seq<u8> {
    text.push(0u8)
}

/// Encodes one fragment for a native caller, in storage of its own. A
/// fragment that holds a zero byte cannot cross: the caller would read it as
/// ending there.
pub fn c_string_bytes(token: &str) -> (bytes: Option<Vec<u8>>)
    ensures
        bytes is Some <==> !token.spec_bytes().contains(0u8),
        bytes matches Some(b) ==> b@ == terminated(token.spec_bytes()),
{
    let source = token.as_bytes();
    let mut bytes: Vec<u8> = Vec::new();
    let mut i: usize = 0;
    while i < source.len()
        invariant
            i <= source.len(),
            source@ == token.spec_bytes(),
            bytes@ == source@.take(i as int),
            !bytes@.contains(0u8),
        decreases source.len() - i,
    {
        let b: u8 = source[i];
        if b == 0 {
            assert(source@[i as int] == 0u8);
            return None;
        }
        bytes.push(b);
        proof {
            let now = bytes@;
            assert(now =~= source@.take(i + 1));
            assert forall|k: int| 0 <= k < now.len() implies now[k] != 0u8 by {
                if k < i {
                    assert(source@.take(i as int)[k] == now[k]);
                    assert(source@.take(i as int).contains(now[k]));
                }
            }
        }
        i += 1;
    }
    assert(source@.take(i as int) =~= source@);
    bytes.push(0);
    Some(bytes)
}

} // verus!
