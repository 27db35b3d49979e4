//! Random record and queue identifiers (version 4 UUIDs) and their text forms.

use crate::text::push_char;
use vstd::prelude::*;

verus! {

/// The lowercase hexadecimal digit for `n` (below 16).
pub open spec fn hex_digit(n: int) -> char {
    if n < 10 {
        (48 + n) as char
    } else {
        (87 + n) as char
    }
}

/// The two lowercase hexadecimal digits of a byte, high nibble first.
pub open spec fn byte_hex(b: u8) -> Seq<char> {
    seq![hex_digit((b / 16) as int), hex_digit((b % 16) as int)]
}

/// Bytes written as lowercase hexadecimal, two digits each, no separators.
pub open spec fn simple_hex(b: Seq<u8>) -> Seq<char>
    decreases b.len(),
{
    if b.len() == 0 {
        Seq::empty()
    } else {
        simple_hex(b.drop_last()) + byte_hex(b.last())
    }
}

/// Bytes written as lowercase hexadecimal with a dash before the bytes at
/// positions 4, 6, 8 and 10: for 16 bytes, the 8-4-4-4-12 UUID form.
pub open spec fn hyphenated_hex(b: Seq<u8>) -> Seq<char>
    decreases b.len(),
{
    if b.len() == 0 {
        Seq::empty()
    } else {
        let k = b.len() - 1;
        let dash = if k == 4 || k == 6 || k == 8 || k == 10 {
            seq!['-']
        } else {
            Seq::<char>::empty()
        };
        hyphenated_hex(b.drop_last()) + dash + byte_hex(b.last())
    }
}

/// Whether 16 bytes carry the marks of a random (version 4, RFC 4122) UUID.
pub open spec fn is_v4_uuid(b: Seq<u8>) -> bool {
    &&& b.len() == 16
    &&& b[6] / 16 == 4
    &&& b[8] / 64 == 2
}

/// A fresh random UUID (`uuid::Uuid::new_v4`), as its 16 bytes. The bytes
/// are random except for the version nibble (4) and the variant bits (`10`).
#[verifier::external_body]
pub(crate) fn random_uuid_bytes() -> (r: [u8; 16])
    ensures
        is_v4_uuid(r@),
{
    uuid::Uuid::new_v4().into_bytes()
}

fn hex_char(n: u8) -> (c: char)
    requires
        n < 16,
    ensures
        c == hex_digit(n as int),
{
    if n < 10 {
        (n + 48) as char
    } else {
        (n + 87) as char
    }
}

/// The 32-digit lowercase hexadecimal form of a UUID.
pub fn uuid_simple(b: &[u8; 16]) -> (r: String)
    ensures
        r@ == simple_hex(b@),
{
    let mut r = String::new();
    let mut i: usize = 0;
    while i < 16
        invariant
            i <= 16,
            b@.len() == 16,
            r@ == simple_hex(b@.subrange(0, i as int)),
        decreases 16 - i,
    {
        let x = b[i];
        proof {
            let p = b@.subrange(0, i + 1);
            assert(p.drop_last() =~= b@.subrange(0, i as int));
            assert(p.last() == x);
        }
        push_char(&mut r, hex_char(x / 16));
        push_char(&mut r, hex_char(x % 16));
        i = i + 1;
    }
    assert(b@.subrange(0, 16) =~= b@);
    r
}

/// The 36-character dashed lowercase form of a UUID.
pub fn uuid_hyphenated(b: &[u8; 16]) -> (r: String)
    ensures
        r@ == hyphenated_hex(b@),
{
    let mut r = String::new();
    let mut i: usize = 0;
    while i < 16
        invariant
            i <= 16,
            b@.len() == 16,
            r@ == hyphenated_hex(b@.subrange(0, i as int)),
        decreases 16 - i,
    {
        let x = b[i];
        proof {
            let p = b@.subrange(0, i + 1);
            assert(p.drop_last() =~= b@.subrange(0, i as int));
            assert(p.last() == x);
        }
        if i == 4 || i == 6 || i == 8 || i == 10 {
            push_char(&mut r, '-');
        } else {
            assert(r@ + Seq::<char>::empty() =~= r@);
        }
        push_char(&mut r, hex_char(x / 16));
        push_char(&mut r, hex_char(x % 16));
        i = i + 1;
    }
    assert(b@.subrange(0, 16) =~= b@);
    r
}

/// A fresh random UUID in its dashed form.
pub fn new_uuid() -> (r: String)
    ensures
        exists|b: Seq<u8>| is_v4_uuid(b) && r@ == hyphenated_hex(b),
{
    let b = random_uuid_bytes();
    uuid_hyphenated(&b)
}

/// A fresh random UUID in its 32-digit form.
pub fn new_uuid_simple() -> (r: String)
    ensures
        exists|b: Seq<u8>| is_v4_uuid(b) && r@ == simple_hex(b),
{
    let b = random_uuid_bytes();
    uuid_simple(&b)
}

} // verus!
