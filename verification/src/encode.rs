use crate::rctrle::{as_signed, rle_decode};
use vstd::prelude::*;

verus! {

/// The longest run that one control byte can repeat.
pub const MAX_REPEAT: usize = 129;

/// The longest stretch that one control byte can copy.
pub const MAX_COPY: usize = 128;

/// The number of bytes equal to `c` at the front of `s`, counted up to `cap`.
pub open spec fn leading(s: Seq<u8>, c: u8, cap: nat) -> nat
    decreases cap,
{
    if cap == 0 || s.len() == 0 || s[0] != c {
        0
    } else {
        1 + leading(s.skip(1), c, (cap - 1) as nat)
    }
}

/// The number of bytes at the front of `s` that come before two equal bytes
/// in a row, counted up to `cap`.
pub open spec fn loose(s: Seq<u8>, cap: nat) -> nat
    decreases cap,
{
    if cap == 0 || s.len() == 0 || (s.len() >= 2 && s[0] == s[1]) {
        0
    } else {
        1 + loose(s.skip(1), (cap - 1) as nat)
    }
}

/// The canonical run-length encoding of `s`. Two or more equal bytes in a
/// row become a repeat of up to 129 bytes; the bytes before the next such
/// pair become a copy of up to 128 bytes.
pub open spec fn rle_encoded(s: Seq<u8>) -> Seq<u8>
    decreases s.len(),
    via rle_encoded_terminates
{
    if s.len() == 0 {
        Seq::empty()
    } else {
        let run = leading(s, s[0], MAX_REPEAT as nat);
        if run >= 2 {
            seq![(257 - run) as u8, s[0]] + rle_encoded(s.skip(run as int))
        } else {
            let n = loose(s, MAX_COPY as nat);
            seq![(n - 1) as u8] + s.take(n as int) + rle_encoded(s.skip(n as int))
        }
    }
}

/// Each run of the encoding takes at least one byte of what is left.
#[via_fn]
proof fn rle_encoded_terminates(s: Seq<u8>) {
    if s.len() > 0 {
        lemma_leading(s, s[0], MAX_REPEAT as nat);
        lemma_loose(s, MAX_COPY as nat);
    }
}

/// A leading run fits in its cap and in the buffer, and each of its bytes is `c`.
proof fn lemma_leading(s: Seq<u8>, c: u8, cap: nat)
    ensures
        leading(s, c, cap) <= cap,
        leading(s, c, cap) <= s.len(),
        s.take(leading(s, c, cap) as int) == Seq::new(leading(s, c, cap), |i: int| c),
    decreases cap,
{
    let n = leading(s, c, cap);
    if n > 0 {
        lemma_leading(s.skip(1), c, (cap - 1) as nat);
        let m = leading(s.skip(1), c, (cap - 1) as nat);
        assert(s.take(n as int) == seq![c] + s.skip(1).take(m as int));
    }
}

/// A loose stretch fits in its cap and in the buffer, and is not empty
/// where the buffer does not start with two equal bytes.
proof fn lemma_loose(s: Seq<u8>, cap: nat)
    ensures
        loose(s, cap) <= cap,
        loose(s, cap) <= s.len(),
        cap >= 1 && s.len() >= 1 && leading(s, s[0], MAX_REPEAT as nat) < 2 ==> loose(s, cap) >= 1,
    decreases cap,
{
    if loose(s, cap) > 0 {
        lemma_loose(s.skip(1), (cap - 1) as nat);
    }
    if cap >= 1 && s.len() >= 2 && s[0] == s[1] {
        assert(leading(s.skip(1), s[0], 128) >= 1);
    }
}

/// Only the empty buffer has an empty encoding.
proof fn lemma_encoded_is_empty(s: Seq<u8>)
    ensures
        rle_encoded(s).len() == 0 <==> s.len() == 0,
{
}

/// Decoding the canonical encoding of a buffer gives the buffer back.
pub proof fn lemma_decode_encoded(s: Seq<u8>)
    ensures
        rle_decode(rle_encoded(s)) == s,
    decreases s.len(),
{
    if s.len() > 0 {
        let run = leading(s, s[0], MAX_REPEAT as nat);
        lemma_leading(s, s[0], MAX_REPEAT as nat);
        if run >= 2 {
            let tail = rle_encoded(s.skip(run as int));
            let e = seq![(257 - run) as u8, s[0]] + tail;
            lemma_decode_encoded(s.skip(run as int));
            assert(e.skip(1).skip(1) == tail);
        } else {
            let n = loose(s, MAX_COPY as nat);
            lemma_loose(s, MAX_COPY as nat);
            let tail = rle_encoded(s.skip(n as int));
            let e = seq![(n - 1) as u8] + s.take(n as int) + tail;
            lemma_decode_encoded(s.skip(n as int));
            lemma_encoded_is_empty(s.skip(n as int));
            if tail.len() > 0 {
                assert(e.skip(1).skip(n as int) == tail);
            }
        }
    }
}

/// Counts the bytes equal to `data[at]` from `at` on, up to `MAX_REPEAT`.
fn run_at(data: &[u8], at: usize) -> (run: usize)
    requires
        at < data@.len(),
    ensures
        run == leading(data@.skip(at as int), data@[at as int], MAX_REPEAT as nat),
        1 <= run <= MAX_REPEAT,
        at + run <= data@.len(),
{
    let c = data[at];
    let ghost s = data@.skip(at as int);
    let mut k: usize = 0;
    assert(s.skip(0) == s);
    while k < MAX_REPEAT && k < data.len() - at && data[at + k] == c
        invariant
            at < data@.len(),
            c == data@[at as int],
            s == data@.skip(at as int),
            k <= MAX_REPEAT,
            at + k <= data@.len(),
            leading(s, c, MAX_REPEAT as nat) == k + leading(
                s.skip(k as int),
                c,
                (MAX_REPEAT - k) as nat,
            ),
        decreases MAX_REPEAT - k,
    {
        assert(s.skip(k as int).skip(1) == s.skip(k + 1));
        k = k + 1;
    }
    k
}

/// Counts the bytes from `at` on that come before two equal bytes in a row,
/// up to `MAX_COPY`.
fn loose_at(data: &[u8], at: usize) -> (n: usize)
    requires
        at <= data@.len(),
    ensures
        n == loose(data@.skip(at as int), MAX_COPY as nat),
        n <= MAX_COPY,
        at + n <= data@.len(),
{
    let ghost s = data@.skip(at as int);
    let mut k: usize = 0;
    assert(s.skip(0) == s);
    while k < MAX_COPY && k < data.len() - at && !(k + 1 < data.len() - at && data[at + k]
        == data[at + k + 1])
        invariant
            at <= data@.len(),
            s == data@.skip(at as int),
            k <= MAX_COPY,
            at + k <= data@.len(),
            loose(s, MAX_COPY as nat) == k + loose(s.skip(k as int), (MAX_COPY - k) as nat),
        decreases MAX_COPY - k,
    {
        assert(s.skip(k as int).skip(1) == s.skip(k + 1));
        k = k + 1;
    }
    k
}

/// Encodes a buffer in the canonical run-length encoding.
pub fn rle_encode(data: &[u8]) -> (out: Vec<u8>)
    ensures
        out@ == rle_encoded(data@),
{
    let mut out: Vec<u8> = Vec::new();
    let mut at: usize = 0;
    assert(data@.skip(0) == data@);
    while at < data.len()
        invariant
            at <= data@.len(),
            rle_encoded(data@) == out@ + rle_encoded(data@.skip(at as int)),
        decreases data@.len() - at,
    {
        let ghost s = data@.skip(at as int);
        let run = run_at(data, at);
        if run >= 2 {
            out.push((257 - run) as u8);
            out.push(data[at]);
            assert(s.skip(run as int) == data@.skip(at + run));
            at = at + run;
        } else {
            let n = loose_at(data, at);
            proof {
                lemma_loose(s, MAX_COPY as nat);
            }
            out.push((n - 1) as u8);
            out.extend_from_slice(&data[at..at + n]);
            assert(s.skip(n as int) == data@.skip(at + n));
            at = at + n;
        }
    }
    out
}

} // verus!
