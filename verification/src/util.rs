//! Copying text into the fixed-size, zero-terminated buffers of the host API.

use vstd::prelude::*;
use vstd::string::*;
use vstd::utf8::*;

verus! {

/// How many bytes of a text of `src_len` bytes fit in a buffer of `capacity`
/// bytes that must also hold the terminating zero.
pub open spec fn copied_len(src_len: nat, capacity: nat) -> nat
    recommends
        capacity >= 1,
{
    if src_len <= capacity - 1 {
        src_len
    } else {
        (capacity - 1) as nat
    }
}

/// The buffer `dst` after `src` has been copied into it: as much of `src` as
/// fits, a zero byte, and behind it what the buffer held before.
pub open spec fn copied_buffer(src: Seq<u8>, dst: Seq<u8>) -> Seq<u8>
    recommends
        dst.len() >= 1,
{
    let n = copied_len(src.len(), dst.len()) as int;
    src.take(n) + seq![0u8] + dst.skip(n + 1)
}

/// Copies `src` into `dst` as a zero-terminated string and returns the number
/// of bytes copied, the terminator not counted. A text that does not fit is
/// cut to `dst.len() - 1` bytes.
pub fn cstr_copy(src: &str, dst: &mut [u8]) -> (written: usize)
    requires
        old(dst)@.len() >= 1,
    ensures
        written == copied_len(src.spec_bytes().len(), old(dst)@.len()),
        final(dst)@ == copied_buffer(src.spec_bytes(), old(dst)@),
{
    let bytes = src.as_bytes();
    let capacity: usize = dst.len();
    let max_copy: usize = if bytes.len() <= capacity - 1 {
        bytes.len()
    } else {
        capacity - 1
    };
    let mut i: usize = 0;
    while i < max_copy
        invariant
            i <= max_copy < capacity,
            max_copy <= bytes@.len(),
            dst@.len() == capacity,
            dst@.len() == old(dst)@.len(),
            forall|j: int| 0 <= j < i ==> dst@[j] == bytes@[j],
            forall|j: int| i <= j < capacity ==> dst@[j] == old(dst)@[j],
        decreases max_copy - i,
    {
        dst[i] = bytes[i];
        i = i + 1;
    }
    dst[max_copy] = 0;
    max_copy
}

/// Whether two texts are the same, character by character.
pub fn str_eq(a: &str, b: &str) -> (same: bool)
    ensures
        same == (a@ == b@),
{
    let x = a.as_bytes();
    let y = b.as_bytes();
    proof {
        encode_utf8_decode_utf8(a@);
        encode_utf8_decode_utf8(b@);
    }
    if x.len() != y.len() {
        return false;
    }
    let mut i: usize = 0;
    while i < x.len()
        invariant
            i <= x@.len(),
            x@.len() == y@.len(),
            x@ == a.spec_bytes(),
            y@ == b.spec_bytes(),
            forall|j: int| 0 <= j < i ==> x@[j] == y@[j],
        decreases x@.len() - i,
    {
        if x[i] != y[i] {
            return false;
        }
        i = i + 1;
    }
    assert(x@ =~= y@);
    true
}

} // verus!
