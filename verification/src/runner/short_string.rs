//! Field elements read as short texts: the bytes of the number are the
//! characters of the text.

use vstd::prelude::*;
use crate::felt::{be_bytes, Felt252};
use crate::text::push_char;

verus! {

/// Where the text in the bytes ends: at the first zero byte, or where the
/// bytes end.
pub open spec fn text_end(bytes: Seq<u8>) -> int
    decreases bytes.len(),
{
    if bytes.len() == 0 || bytes[0] == 0 {
        0
    } else {
        1 + text_end(bytes.skip(1))
    }
}

/// The characters that the bytes are the codes of.
pub open spec fn ascii_text(bytes: Seq<u8>) -> Seq<char> {
    Seq::new(bytes.len(), |i: int| bytes[i] as char)
}

/// The text that the bytes hold: every byte of it is the code of an ASCII
/// character, and only zero bytes follow it. Other bytes hold no text.
pub open spec fn short_string(bytes: Seq<u8>) -> Option<Seq<char>> {
    let end = text_end(bytes);
    if (forall|i: int| 0 <= i < end ==> bytes[i] < 128) && (forall|i: int|
        end <= i < bytes.len() ==> bytes[i] == 0) {
        Some(ascii_text(bytes.take(end)))
    } else {
        None
    }
}

/// The text ends at `end` where no byte before it is zero, and the bytes end
/// there or the byte there is zero.
proof fn lemma_text_end(bytes: Seq<u8>, end: int)
    requires
        0 <= end <= bytes.len(),
        forall|i: int| 0 <= i < end ==> bytes[i] != 0,
        end < bytes.len() ==> bytes[end] == 0,
    ensures
        text_end(bytes) == end,
    decreases end,
{
    if end > 0 {
        lemma_text_end(bytes.skip(1), end - 1);
    }
}

/// The text ends within the bytes.
proof fn lemma_bounds(bytes: Seq<u8>)
    ensures
        0 <= text_end(bytes) <= bytes.len(),
    decreases bytes.len(),
{
    if bytes.len() > 0 && bytes[0] != 0 {
        lemma_bounds(bytes.skip(1));
    }
}

/// The text does not end before bytes that are not zero.
proof fn lemma_prefix_nonzero(bytes: Seq<u8>, n: int)
    requires
        0 <= n <= bytes.len(),
        forall|i: int| 0 <= i < n ==> bytes[i] != 0,
    ensures
        text_end(bytes) >= n,
    decreases n,
{
    if n > 0 {
        assert(bytes[0] != 0);
        lemma_prefix_nonzero(bytes.skip(1), n - 1);
    } else {
        lemma_bounds(bytes);
    }
}

/// The text of a field element, where its bytes hold one.
pub fn as_cairo_short_string(value: &Felt252) -> (res: Option<String>)
    ensures
        match res {
            Some(text) => short_string(be_bytes(value@)) == Some(text@),
            None => short_string(be_bytes(value@)) is None,
        },
{
    let bytes = value.to_bytes_be();
    let mut as_string = String::new();
    let mut is_end = false;
    let ghost mut end: int = 0;
    let mut i: usize = 0;
    while i < bytes.len()
        invariant
            bytes@ == be_bytes(value@),
            i <= bytes@.len(),
            0 <= end <= i,
            !is_end ==> end == i,
            is_end ==> end < i && bytes@[end] == 0,
            forall|k: int| 0 <= k < end ==> 0 < #[trigger] bytes@[k] < 128,
            forall|k: int| end <= k < i ==> bytes@[k] == 0,
            as_string@ == ascii_text(bytes@.take(end)),
        decreases bytes@.len() - i,
    {
        let byte = bytes[i];
        if byte == 0 {
            is_end = true;
        } else if is_end || byte >= 128 {
            proof {
                if is_end {
                    lemma_text_end(bytes@, end);
                } else {
                    lemma_bounds(bytes@);
                    lemma_prefix_nonzero(bytes@, i as int + 1);
                }
            }
            return None;
        } else {
            push_char(&mut as_string, byte as char);
            proof {
                assert(as_string@ =~= ascii_text(bytes@.take(end + 1)));
                end = end + 1;
            }
        }
        i = i + 1;
    }
    proof {
        lemma_text_end(bytes@, end);
    }
    Some(as_string)
}

} // verus!
