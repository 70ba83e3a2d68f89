//! Byte-order helpers for wire formats.
//!
//! Hyper-V messages are little-endian and almost always a row of 32-bit
//! words, so the formats in this crate are stated as rows of words.

use vstd::prelude::*;

verus! {

/// The four bytes of `x`, least significant first.
pub open spec fn le32(x: u32) -> Seq<u8> {
    seq![
        (x % 256) as u8,
        (x / 256 % 256) as u8,
        (x / 65536 % 256) as u8,
        (x / 16777216) as u8,
    ]
}

/// The value whose bytes, least significant first, stand at `at..at + 4`.
pub open spec fn le32_at(s: Seq<u8>, at: int) -> u32 {
    (s[at] + 256 * s[at + 1] + 65536 * s[at + 2] + 16777216 * s[at + 3]) as u32
}

/// The two bytes of `x`, least significant first.
pub open spec fn le16(x: u16) -> Seq<u8> {
    seq![(x % 256) as u8, (x / 256) as u8]
}

/// A row of words as it lies in memory.
pub open spec fn words(ws: Seq<u32>) -> Seq<u8> {
    Seq::new(4 * ws.len(), |i: int| le32(ws[i / 4])[i % 4])
}

/// `n` zero words.
pub open spec fn zero_words(n: nat) -> Seq<u32> {
    Seq::new(n, |i: int| 0u32)
}

/// `s` with `part` written over the bytes from `at` on.
pub open spec fn overwrite(s: Seq<u8>, at: int, part: Seq<u8>) -> Seq<u8> {
    Seq::new(
        s.len(),
        |i: int|
            if at <= i < at + part.len() {
                part[i - at]
            } else {
                s[i]
            },
    )
}

/// Reading back the bytes of a word gives the word.
pub proof fn le32_round_trip(x: u32)
    ensures
        le32(x).len() == 4,
        le32_at(le32(x), 0) == x,
{
}

/// Four bytes are the bytes of the word that is read from them.
pub proof fn le32_at_round_trip(s: Seq<u8>, at: int)
    requires
        0 <= at,
        at + 4 <= s.len(),
    ensures
        le32(le32_at(s, at)) == s.subrange(at, at + 4),
{
    let a = s[at] as int;
    let b = s[at + 1] as int;
    let c = s[at + 2] as int;
    let d = s[at + 3] as int;
    let x = a + 256 * b + 65536 * c + 16777216 * d;
    assert(x == le32_at(s, at));
    assert(x % 256 == a);
    assert(x / 256 == b + 256 * c + 65536 * d);
    assert(x / 256 % 256 == b);
    assert(x / 65536 == c + 256 * d);
    assert(x / 65536 % 256 == c);
    assert(x / 16777216 == d);
    assert(le32(le32_at(s, at)) =~= s.subrange(at, at + 4));
}

/// Word `i` of a row of words is read back as it was written, whatever
/// follows the row.
pub proof fn words_round_trip(ws: Seq<u32>, rest: Seq<u8>, i: int)
    requires
        0 <= i < ws.len(),
    ensures
        words(ws).len() == 4 * ws.len(),
        le32_at(words(ws) + rest, 4 * i) == ws[i],
{
    let s = words(ws) + rest;
    assert(s[4 * i] == le32(ws[i])[0]);
    assert(s[4 * i + 1] == le32(ws[i])[1]) by {
        assert((4 * i + 1) / 4 == i && (4 * i + 1) % 4 == 1);
    }
    assert(s[4 * i + 2] == le32(ws[i])[2]) by {
        assert((4 * i + 2) / 4 == i && (4 * i + 2) % 4 == 2);
    }
    assert(s[4 * i + 3] == le32(ws[i])[3]) by {
        assert((4 * i + 3) / 4 == i && (4 * i + 3) % 4 == 3);
    }
    le32_round_trip(ws[i]);
}

/// The bytes of `x`, least significant first.
pub fn le32_bytes(x: u32) -> (b: [u8; 4])
    ensures
        b@ == le32(x),
{
    let b: [u8; 4] = [
        (x % 256) as u8,
        (x / 256 % 256) as u8,
        (x / 65536 % 256) as u8,
        (x / 16777216) as u8,
    ];
    assert(b@ =~= le32(x));
    b
}

/// The bytes of `x`, least significant first.
pub fn le16_bytes(x: u16) -> (b: [u8; 2])
    ensures
        b@ == le16(x),
{
    let b: [u8; 2] = [(x % 256) as u8, (x / 256) as u8];
    assert(b@ =~= le16(x));
    b
}

/// Read the little-endian word at `at`.
pub fn read_le32(buf: &[u8], at: usize) -> (x: u32)
    requires
        at + 4 <= buf@.len(),
    ensures
        x == le32_at(buf@, at as int),
{
    buf[at] as u32 + 256 * (buf[at + 1] as u32) + 65536 * (buf[at + 2] as u32) + 16777216 * (buf[at
        + 3] as u32)
}

/// Write `part` over the bytes of `buf` from `at` on.
pub fn write_bytes(buf: &mut [u8], at: usize, part: &[u8])
    requires
        at + part@.len() <= old(buf)@.len(),
    ensures
        final(buf)@ == overwrite(old(buf)@, at as int, part@),
{
    let ghost before = buf@;
    let total: usize = buf.len();
    let n: usize = part.len();
    let mut i: usize = 0;
    while i < n
        invariant
            i <= n,
            n == part@.len(),
            at + n <= total,
            total == before.len(),
            buf@ == overwrite(before, at as int, part@.take(i as int)),
        decreases n - i,
    {
        buf[at + i] = part[i];
        i += 1;
        assert(buf@ =~= overwrite(before, at as int, part@.take(i as int)));
    }
    assert(part@.take(n as int) =~= part@);
}

/// Write a row of words over the start of `buf`.
pub fn write_words(buf: &mut [u8], ws: &[u32])
    requires
        4 * ws@.len() <= old(buf)@.len(),
    ensures
        final(buf)@ == words(ws@) + old(buf)@.skip(4 * ws@.len() as int),
{
    let ghost before = buf@;
    let total: usize = buf.len();
    let n: usize = ws.len();
    let mut i: usize = 0;
    while i < n
        invariant
            i <= n,
            n == ws@.len(),
            4 * n <= total,
            total == before.len(),
            buf@ == words(ws@.take(i as int)) + before.skip(4 * i as int),
        decreases n - i,
    {
        let b = le32_bytes(ws[i]);
        assert(buf@.len() == before.len());
        write_bytes(buf, 4 * i, &b);
        i += 1;
        assert(buf@ =~= words(ws@.take(i as int)) + before.skip(4 * i as int));
    }
    assert(ws@.take(n as int) =~= ws@);
}

// ── What the helpers come to ────────────────────────────────────────────

/// The bytes of a word are its digits to base 256, least significant first.
pub proof fn le32_has_the_value(x: u32, b: [u8; 4])
    ensures
        le32(x).len() == 4,
        le32(x)[0] + 0x100 * le32(x)[1] + 0x1_0000 * le32(x)[2] + 0x100_0000 * le32(x)[3] == x,
        call_ensures(le32_bytes, (x,), b) ==> b[0] + 0x100 * b[1] + 0x1_0000 * b[2] + 0x100_0000
            * b[3] == x,
{
    assert(x / 65536 == x / 256 / 256);
    assert(x / 16777216 == x / 65536 / 256);
    if call_ensures(le32_bytes, (x,), b) {
        assert(b[0] == b@[0] && b[1] == b@[1] && b[2] == b@[2] && b[3] == b@[3]);
    }
}

/// The same for two bytes.
pub proof fn le16_has_the_value(x: u16, b: [u8; 2])
    ensures
        le16(x).len() == 2,
        le16(x)[0] + 0x100 * le16(x)[1] == x,
        call_ensures(le16_bytes, (x,), b) ==> b[0] + 0x100 * b[1] == x,
{
    if call_ensures(le16_bytes, (x,), b) {
        assert(b[0] == b@[0] && b[1] == b@[1]);
    }
}

/// A word that is read has the value of its four bytes, each counting 256 times
/// the one before.
pub proof fn read_word_has_the_value(buf: &[u8], at: usize, x: u32)
    requires
        at + 4 <= buf@.len(),
    ensures
        le32_at(buf@, at as int) == buf@[at as int] + 0x100 * buf@[at + 1] + 0x1_0000 * buf@[at + 2]
            + 0x100_0000 * buf@[at + 3],
        call_ensures(read_le32, (buf, at), x) ==> x == buf@[at as int] + 0x100 * buf@[at + 1]
            + 0x1_0000 * buf@[at + 2] + 0x100_0000 * buf@[at + 3],
{
}

/// Bytes that are written are there afterwards, and no others are touched.
pub proof fn written_bytes_are_there(at: usize, part: &[u8])
    ensures
        forall|buf: &mut [u8]| #[trigger]
            call_ensures(write_bytes, (buf, at, part), ()) && at + part@.len() <= (*buf)@.len()
                ==> {
                &&& (*final(buf))@.len() == (*buf)@.len()
                &&& (*final(buf))@.subrange(at as int, at + part@.len()) == part@
                &&& (*final(buf))@.take(at as int) == (*buf)@.take(at as int)
                &&& (*final(buf))@.skip(at + part@.len()) == (*buf)@.skip(at + part@.len())
            },
{
}

/// Words that are written are read back, each at four times its index, and
/// nothing behind them is touched.
pub proof fn written_words_are_there(ws: &[u32])
    ensures
        forall|buf: &mut [u8]| #[trigger]
            call_ensures(write_words, (buf, ws), ()) && 4 * ws@.len() <= (*buf)@.len() ==> {
                &&& (*final(buf))@.len() == (*buf)@.len()
                &&& forall|i: int|
                    0 <= i < ws@.len() ==> #[trigger] le32_at((*final(buf))@, 4 * i) == ws@[i]
                &&& (*final(buf))@.skip(4 * ws@.len() as int) == (*buf)@.skip(4 * ws@.len() as int)
            },
{
    assert forall|buf: &mut [u8]| #[trigger]
        call_ensures(write_words, (buf, ws), ()) && 4 * ws@.len() <= (*buf)@.len() implies {
        &&& (*final(buf))@.len() == (*buf)@.len()
        &&& forall|i: int|
            0 <= i < ws@.len() ==> #[trigger] le32_at((*final(buf))@, 4 * i) == ws@[i]
        &&& (*final(buf))@.skip(4 * ws@.len() as int) == (*buf)@.skip(4 * ws@.len() as int)
    } by {
        assert forall|i: int| 0 <= i < ws@.len() implies #[trigger] le32_at(
            (*final(buf))@,
            4 * i,
        ) == ws@[i] by {
            words_round_trip(ws@, (*buf)@.skip(4 * ws@.len() as int), i);
        }
    }
}

} // verus!
