//! The URL-safe base64 encoding without padding, in which a query parameter
//! carries a DNS message.

use vstd::prelude::*;

verus! {

/// Appending one character to a `String` appends it to the view.
pub assume_specification[ String::push ](text: &mut String, c: char)
    ensures
        final(text)@ == old(text)@.push(c),
;

/// The symbol of the URL-safe alphabet that stands for the base-64 digit
/// `digit`: `A`-`Z`, `a`-`z`, `0`-`9`, `-`, `_`.
pub open spec fn symbol(digit: int) -> char {
    if digit < 26 {
        ('A' as u8 + digit) as u8 as char
    } else if digit < 52 {
        ('a' as u8 + digit - 26) as u8 as char
    } else if digit < 62 {
        ('0' as u8 + digit - 52) as u8 as char
    } else if digit == 62 {
        '-'
    } else {
        '_'
    }
}

/// The byte of `bytes` at `i`, or zero past the end: the bits that fill up
/// the last digit are zero.
pub open spec fn byte_or_zero(bytes: Seq<u8>, i: int) -> int {
    if 0 <= i < bytes.len() {
        bytes[i] as int
    } else {
        0
    }
}

/// The number that the three bytes from `3 * g` on form, most significant
/// byte first.
pub open spec fn group(bytes: Seq<u8>, g: int) -> int {
    byte_or_zero(bytes, 3 * g) * 65536 + byte_or_zero(bytes, 3 * g + 1) * 256 + byte_or_zero(
        bytes,
        3 * g + 2,
    )
}

/// The `j`-th of the four base-64 digits of `number`, most significant
/// digit first.
pub open spec fn digit_of(number: int, j: int) -> int {
    if j == 0 {
        number / 262144
    } else if j == 1 {
        number / 4096 % 64
    } else if j == 2 {
        number / 64 % 64
    } else {
        number % 64
    }
}

/// The `k`-th base-64 digit of `bytes`: every group of three bytes has
/// four.
pub open spec fn digit(bytes: Seq<u8>, k: int) -> int {
    digit_of(group(bytes, k / 4), k % 4)
}

/// The number of symbols that encode `n` bytes: one for every six bits
/// begun.
pub open spec fn encoded_len(n: nat) -> nat {
    ((4 * n + 2) / 3) as nat
}

/// The encoding of `bytes`.
pub open spec fn encoding(bytes: Seq<u8>) -> Seq<char> {
    Seq::new(encoded_len(bytes.len()), |k: int| symbol(digit(bytes, k)))
}

/// The bytes that `text` encodes, if it is the encoding of any.
pub open spec fn decoding(text: Seq<char>) -> Option<Seq<u8>> {
    if exists|bytes: Seq<u8>| encoding(bytes) == text {
        Some(choose|bytes: Seq<u8>| encoding(bytes) == text)
    } else {
        None
    }
}

fn symbol_of(digit: u8) -> (c: char)
    requires
        digit < 64,
    ensures
        c == symbol(digit as int),
{
    if digit < 26 {
        ('A' as u8 + digit) as char
    } else if digit < 52 {
        ('a' as u8 + (digit - 26)) as char
    } else if digit < 62 {
        ('0' as u8 + (digit - 52)) as char
    } else if digit == 62 {
        '-'
    } else {
        '_'
    }
}

/// The four digits of three bytes, computed by shifting and masking, are
/// the base-64 digits of the number that the three bytes form.
proof fn lemma_group_digits(b0: u8, b1: u8, b2: u8)
    by (bit_vector)
    ensures
        (b0 >> 2) < 64,
        (((b0 & 0x03) << 4) | (b1 >> 4)) < 64,
        (((b1 & 0x0f) << 2) | (b2 >> 6)) < 64,
        (b2 & 0x3f) < 64,
        (b0 >> 2) as u32 == (b0 as u32 * 65536 + b1 as u32 * 256 + b2 as u32) / 262144,
        (((b0 & 0x03) << 4) | (b1 >> 4)) as u32 == (b0 as u32 * 65536 + b1 as u32 * 256
            + b2 as u32) / 4096 % 64,
        (((b1 & 0x0f) << 2) | (b2 >> 6)) as u32 == (b0 as u32 * 65536 + b1 as u32 * 256
            + b2 as u32) / 64 % 64,
        (b2 & 0x3f) as u32 == (b0 as u32 * 65536 + b1 as u32 * 256 + b2 as u32) % 64,
{
}

/// Appends to `text` the first `count` symbols of the group `b0 b1 b2`.
fn push_group(text: &mut String, b0: u8, b1: u8, b2: u8, count: usize)
    requires
        2 <= count <= 4,
    ensures
        final(text)@.len() == old(text)@.len() + count,
        final(text)@.take(old(text)@.len() as int) == old(text)@,
        forall|j: int|
            0 <= j < count ==> #[trigger] final(text)@[old(text)@.len() + j] == symbol(
                digit_of(b0 * 65536 + b1 * 256 + b2, j),
            ),
{
    proof {
        lemma_group_digits(b0, b1, b2);
    }
    text.push(symbol_of(b0 >> 2));
    text.push(symbol_of(((b0 & 0x03) << 4) | (b1 >> 4)));
    if count >= 3 {
        text.push(symbol_of(((b1 & 0x0f) << 2) | (b2 >> 6)));
    }
    if count == 4 {
        text.push(symbol_of(b2 & 0x3f));
    }
}

/// Encodes `bytes` in the URL-safe alphabet, without padding.
pub fn encode(bytes: &[u8]) -> (text: String)
    ensures
        text@ == encoding(bytes@),
{
    let n = bytes.len();
    let mut text = String::new();
    let mut i: usize = 0;
    while n - i >= 3
        invariant
            n == bytes.len(),
            i <= n,
            i % 3 == 0,
            text@.len() == (i / 3) * 4,
            forall|k: int| 0 <= k < text@.len() ==> text@[k] == symbol(digit(bytes@, k)),
        decreases n - i,
    {
        let ghost done = text@;
        push_group(&mut text, bytes[i], bytes[i + 1], bytes[i + 2], 4);
        assert forall|k: int| 0 <= k < text@.len() implies text@[k] == symbol(
            digit(bytes@, k),
        ) by {
            if k < done.len() {
                assert(text@[k] == text@.take(done.len() as int)[k]);
            } else {
                assert(text@[k] == text@[done.len() + (k - done.len())]);
            }
        }
        i += 3;
    }
    if n - i >= 1 {
        // The last one or two bytes: the bytes that are missing count as zero.
        let ghost done = text@;
        let b1 = if n - i == 2 { bytes[i + 1] } else { 0 };
        push_group(&mut text, bytes[i], b1, 0, n - i + 1);
        assert forall|k: int| 0 <= k < text@.len() implies text@[k] == symbol(
            digit(bytes@, k),
        ) by {
            if k < done.len() {
                assert(text@[k] == text@.take(done.len() as int)[k]);
            } else {
                assert(text@[k] == text@[done.len() + (k - done.len())]);
            }
        }
    }
    assert(text@ =~= encoding(bytes@));
    text
}

/// No two base-64 digits share a symbol.
proof fn lemma_symbol_is_injective(x: int, y: int)
    requires
        0 <= x < 64,
        0 <= y < 64,
        symbol(x) == symbol(y),
    ensures
        x == y,
{
}

/// Every digit of the encoding is a base-64 digit.
proof fn lemma_digit_in_range(bytes: Seq<u8>, k: int)
    requires
        0 <= k,
    ensures
        0 <= digit(bytes, k) < 64,
{
}

/// Three bytes are made of the bits of their four digits.
proof fn lemma_group_bytes(b0: u8, b1: u8, b2: u8)
    by (bit_vector)
    ensures
        b0 as u32 == (b0 as u32 * 65536 + b1 as u32 * 256 + b2 as u32) / 262144 * 4 + (b0 as u32
            * 65536 + b1 as u32 * 256 + b2 as u32) / 4096 % 64 / 16,
        b1 as u32 == (b0 as u32 * 65536 + b1 as u32 * 256 + b2 as u32) / 4096 % 64 % 16 * 16 + (
        b0 as u32 * 65536 + b1 as u32 * 256 + b2 as u32) / 64 % 64 / 4,
        b2 as u32 == (b0 as u32 * 65536 + b1 as u32 * 256 + b2 as u32) / 64 % 64 % 4 * 64 + (
        b0 as u32 * 65536 + b1 as u32 * 256 + b2 as u32) % 64,
{
}

/// Each byte of `bytes` is made of the bits of two neighbouring digits,
/// both of them within the encoding.
proof fn lemma_byte_from_digits(bytes: Seq<u8>, i: int)
    requires
        0 <= i < bytes.len(),
    ensures
        4 * (i / 3) + i % 3 + 1 < encoded_len(bytes.len()),
        bytes[i] == if i % 3 == 0 {
            digit(bytes, 4 * (i / 3)) * 4 + digit(bytes, 4 * (i / 3) + 1) / 16
        } else if i % 3 == 1 {
            digit(bytes, 4 * (i / 3) + 1) % 16 * 16 + digit(bytes, 4 * (i / 3) + 2) / 4
        } else {
            digit(bytes, 4 * (i / 3) + 2) % 4 * 64 + digit(bytes, 4 * (i / 3) + 3)
        },
{
    let g = i / 3;
    lemma_group_bytes(
        byte_or_zero(bytes, 3 * g) as u8,
        byte_or_zero(bytes, 3 * g + 1) as u8,
        byte_or_zero(bytes, 3 * g + 2) as u8,
    );
}

/// Different byte sequences have different encodings.
pub proof fn lemma_encoding_is_injective(a: Seq<u8>, b: Seq<u8>)
    requires
        encoding(a) == encoding(b),
    ensures
        a == b,
{
    assert(encoded_len(a.len()) == encoding(a).len() == encoding(b).len() == encoded_len(b.len()));
    assert(a.len() == b.len());
    assert forall|k: int| 0 <= k < encoded_len(a.len()) implies digit(a, k) == digit(b, k) by {
        assert(encoding(a)[k] == symbol(digit(a, k)));
        assert(encoding(b)[k] == symbol(digit(b, k)));
        lemma_digit_in_range(a, k);
        lemma_digit_in_range(b, k);
        lemma_symbol_is_injective(digit(a, k), digit(b, k));
    }
    assert forall|i: int| 0 <= i < a.len() implies a[i] == b[i] by {
        lemma_byte_from_digits(a, i);
        lemma_byte_from_digits(b, i);
    }
    assert(a =~= b);
}

/// Decoding inverts encoding: the encoding of `bytes` decodes to `bytes`
/// and to nothing else.
pub proof fn lemma_decoding_inverts_encoding(bytes: Seq<u8>)
    ensures
        decoding(encoding(bytes)) == Some(bytes),
{
    let found = choose|other: Seq<u8>| encoding(other) == encoding(bytes);
    lemma_encoding_is_injective(found, bytes);
}

} // verus!
