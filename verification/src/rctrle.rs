use crate::error::ReadError;
use crate::util::DSer;
use vstd::prelude::*;

verus! {

/// A control byte read as a signed 8-bit number.
pub open spec fn as_signed(b: u8) -> int {
    if b < 128 {
        b as int
    } else {
        b - 256
    }
}

/// The bytes that a run-length encoded stream decodes to.
///
/// A control byte `z >= 0` is followed by `z + 1` bytes that are copied; a
/// control byte `z < 0` is followed by one byte that is repeated `1 - z`
/// times. A stream that ends inside a copy yields the bytes that are there, and
/// one that ends after the control byte of a repeat yields nothing more.
pub open spec fn rle_decode(s: Seq<u8>) -> Seq<u8>
    decreases s.len(),
{
    if s.len() == 0 {
        Seq::empty()
    } else {
        let z = as_signed(s[0]);
        let rest = s.skip(1);
        if z >= 0 {
            if rest.len() <= z + 1 {
                rest
            } else {
                rest.take(z + 1) + rle_decode(rest.skip(z + 1))
            }
        } else {
            if rest.len() == 0 {
                Seq::empty()
            } else {
                Seq::new((1 - z) as nat, |i: int| rest[0]) + rle_decode(rest.skip(1))
            }
        }
    }
}

/// Where the decoder stands between two output bytes.
pub enum RunState {
    /// Between runs: the next input byte is a control byte.
    Idle,
    /// Inside a copy with this many bytes to go.
    Copy(usize),
    /// Inside a repeat of a byte with this many to go.
    Repeat(usize, u8),
}

/// The state after one byte of a run has gone out: the run with one byte
/// less to go, or idle after its last byte.
pub open spec fn after_one(state: RunState) -> RunState {
    match state {
        RunState::Idle => RunState::Idle,
        RunState::Copy(n) => if n == 1 {
            RunState::Idle
        } else {
            RunState::Copy((n - 1) as usize)
        },
        RunState::Repeat(n, c) => if n == 1 {
            RunState::Idle
        } else {
            RunState::Repeat((n - 1) as usize, c)
        },
    }
}

/// A decoder as a mathematical value: the state it is in and the input that
/// it has not consumed.
#[verifier::ext_equal]
pub ghost struct ReaderView {
    pub state: RunState,
    pub input: Seq<u8>,
}

impl ReaderView {
    /// A run that the decoder is inside of has at least one byte to go, and
    /// no more than one control byte can announce.
    pub open spec fn wf(self) -> bool {
        match self.state {
            RunState::Idle => true,
            RunState::Copy(n) => 1 <= n <= 128,
            RunState::Repeat(n, _) => 1 <= n <= 129,
        }
    }

    /// The output still to come.
    pub open spec fn pending(self) -> Seq<u8> {
        match self.state {
            RunState::Idle => rle_decode(self.input),
            RunState::Copy(n) => if self.input.len() <= n {
                self.input
            } else {
                self.input.take(n as int) + rle_decode(self.input.skip(n as int))
            },
            RunState::Repeat(n, c) => Seq::new(n as nat, |i: int| c) + rle_decode(self.input),
        }
    }

    /// The decoder after it has looked for a run to be in. Inside a run
    /// nothing changes. Between runs it consumes the control byte of the
    /// next run, and the byte to repeat where the run is a repeat; it stays
    /// idle where the input is at its end or ends behind the control byte
    /// of a repeat.
    pub open spec fn entered(self) -> ReaderView {
        if !(self.state is Idle) || self.input.len() == 0 {
            self
        } else if self.input[0] < 128 {
            ReaderView {
                state: RunState::Copy((self.input[0] + 1) as usize),
                input: self.input.skip(1),
            }
        } else if self.input.len() >= 2 {
            ReaderView {
                state: RunState::Repeat((257 - self.input[0]) as usize, self.input[1]),
                input: self.input.skip(2),
            }
        } else {
            ReaderView { state: RunState::Idle, input: self.input.skip(1) }
        }
    }

    /// The byte that the decoder hands out next, if there is one, and the
    /// decoder after that. A copy takes its byte from the input and stays
    /// as it is where the input has ended; a repeat takes none.
    pub open spec fn stepped(self) -> (Option<u8>, ReaderView) {
        let e = self.entered();
        match e.state {
            RunState::Idle => (None, e),
            RunState::Copy(_) => if e.input.len() > 0 {
                (
                    Some(e.input[0]),
                    ReaderView { state: after_one(e.state), input: e.input.skip(1) },
                )
            } else {
                (None, e)
            },
            RunState::Repeat(_, c) => (
                Some(c),
                ReaderView { state: after_one(e.state), input: e.input },
            ),
        }
    }

    /// The decoder after a read into `slots` bytes: it steps once for each
    /// byte and stops at the first step that hands out nothing.
    pub open spec fn after_slots(self, slots: nat) -> ReaderView
        decreases slots,
    {
        if slots == 0 {
            self
        } else if self.stepped().0 is None {
            self.stepped().1
        } else {
            self.stepped().1.after_slots((slots - 1) as nat)
        }
    }
}

/// Looking for a run keeps the decoder well-formed and its output, and
/// leaves it idle only where no output is left.
pub proof fn lemma_entered(v: ReaderView)
    requires
        v.wf(),
    ensures
        v.entered().wf(),
        v.entered().pending() == v.pending(),
        v.entered().state is Idle ==> v.pending().len() == 0,
{
    if v.state is Idle && v.input.len() >= 2 && v.input[0] >= 128 {
        assert(v.input.skip(1).skip(1) == v.input.skip(2));
    }
}

/// A step hands out the first byte of the pending output and leaves the
/// rest of it, or hands out nothing where nothing is pending.
pub proof fn lemma_stepped(v: ReaderView)
    requires
        v.wf(),
    ensures
        v.stepped().1.wf(),
        match v.stepped().0 {
            Some(b) => v.pending().len() > 0 && b == v.pending()[0] && v.stepped().1.pending()
                == v.pending().skip(1),
            None => v.pending().len() == 0 && v.stepped().1.pending().len() == 0,
        },
{
    lemma_entered(v);
    let e = v.entered();
    match e.state {
        RunState::Idle => {},
        RunState::Copy(n) => {
            if e.input.len() > n {
                assert(e.input.skip(n as int) == e.input.skip(1).skip(n - 1));
            }
        },
        RunState::Repeat(n, c) => {
            assert(e.pending().skip(1) == v.stepped().1.pending());
        },
    }
}

/// Inside a repeat, a read of no more bytes than the run has to go leaves
/// the same repeat with that many fewer to go, or the decoder idle after
/// the last one. No input is consumed.
pub proof fn lemma_read_within_repeat(n: usize, c: u8, input: Seq<u8>, j: nat)
    requires
        1 <= n,
        j <= n,
    ensures
        (ReaderView { state: RunState::Repeat(n, c), input }).after_slots(j) == (ReaderView {
            state: if j == n {
                RunState::Idle
            } else {
                RunState::Repeat((n - j) as usize, c)
            },
            input,
        }),
    decreases j,
{
    if j > 0 {
        let next = (ReaderView { state: RunState::Repeat(n, c), input }).stepped().1;
        if n > 1 {
            lemma_read_within_repeat((n - 1) as usize, c, input, (j - 1) as nat);
        } else {
            assert(next.after_slots(0) == next);
        }
    }
}

/// Inside a copy, a read of no more bytes than the run has to go and the
/// input holds leaves the same copy with that many fewer to go, or the
/// decoder idle after the last one. The input has lost the bytes read.
pub proof fn lemma_read_within_copy(n: usize, input: Seq<u8>, j: nat)
    requires
        1 <= n,
        j <= n,
        j <= input.len(),
    ensures
        (ReaderView { state: RunState::Copy(n), input }).after_slots(j) == (ReaderView {
            state: if j == n {
                RunState::Idle
            } else {
                RunState::Copy((n - j) as usize)
            },
            input: input.skip(j as int),
        }),
    decreases j,
{
    if j > 0 {
        let next = (ReaderView { state: RunState::Copy(n), input }).stepped().1;
        assert(input.skip(1).skip(j - 1) == input.skip(j as int));
        if n > 1 {
            lemma_read_within_copy((n - 1) as usize, input.skip(1), (j - 1) as nat);
        } else {
            assert(next.after_slots(0) == next);
        }
    } else {
        assert(input.skip(0) == input);
    }
}

/// The bytes that one read into `space` bytes takes from a pending stream:
/// as many as there is space for, or all that are left.
pub open spec fn handed_out(pending: Seq<u8>, space: nat) -> Seq<u8> {
    if space <= pending.len() {
        pending.take(space as int)
    } else {
        pending
    }
}

/// What one read into `space` bytes leaves of a pending stream.
pub open spec fn left_over(pending: Seq<u8>, space: nat) -> Seq<u8> {
    if space <= pending.len() {
        pending.skip(space as int)
    } else {
        Seq::empty()
    }
}

/// What `count` reads of one byte each take from a pending stream.
pub open spec fn handed_out_bytewise(pending: Seq<u8>, count: nat) -> Seq<u8>
    decreases count,
{
    if count == 0 {
        Seq::empty()
    } else {
        handed_out(pending, 1) + handed_out_bytewise(left_over(pending, 1), (count - 1) as nat)
    }
}

/// What `count` reads of one byte each leave of a pending stream.
pub open spec fn left_over_bytewise(pending: Seq<u8>, count: nat) -> Seq<u8>
    decreases count,
{
    if count == 0 {
        pending
    } else {
        left_over_bytewise(left_over(pending, 1), (count - 1) as nat)
    }
}

/// A read into `a` bytes followed by a read into `b` bytes takes and
/// leaves what one read into `a + b` bytes does.
pub proof fn lemma_reads_join(pending: Seq<u8>, a: nat, b: nat)
    ensures
        handed_out(pending, a) + handed_out(left_over(pending, a), b) == handed_out(
            pending,
            a + b,
        ),
        left_over(left_over(pending, a), b) == left_over(pending, a + b),
{
}

/// Reading a stream one byte at a time takes and leaves what one large read
/// does.
pub proof fn lemma_bytewise_reads(pending: Seq<u8>, count: nat)
    ensures
        handed_out_bytewise(pending, count) == handed_out(pending, count),
        left_over_bytewise(pending, count) == left_over(pending, count),
    decreases count,
{
    if count > 0 {
        lemma_bytewise_reads(left_over(pending, 1), (count - 1) as nat);
        lemma_reads_join(pending, 1, (count - 1) as nat);
    }
}

/// A streaming run-length decoder over a byte source.
pub struct Reader<R: DSer> {
    buf: R,
    state: RunState,
}

impl<R: DSer> View for Reader<R> {
    type V = ReaderView;

    closed spec fn view(&self) -> ReaderView {
        ReaderView { state: self.state, input: self.buf.remaining() }
    }
}

impl<R: DSer> Reader<R> {
    /// A run that the reader is inside of has at least one byte to go.
    pub open spec fn wf(&self) -> bool {
        self@.wf()
    }

    /// The decoded bytes that the reader has not handed out yet.
    pub open spec fn pending(&self) -> Seq<u8> {
        self@.pending()
    }

    /// A decoder at the start of the encoded stream `r`, between runs.
    pub fn new(r: R) -> (rd: Reader<R>)
        ensures
            rd@ == (ReaderView { state: RunState::Idle, input: r.remaining() }),
            rd.wf(),
            rd.pending() == rle_decode(r.remaining()),
    {
        Reader { buf: r, state: RunState::Idle }
    }

    /// Between runs, reads the control byte of the next run and enters it.
    /// Inside a run it changes nothing. The reader stays idle only where no
    /// further output can come.
    fn read_run(&mut self)
        requires
            old(self).wf(),
        ensures
            final(self)@ == old(self)@.entered(),
            final(self).wf(),
            final(self).pending() == old(self).pending(),
            final(self)@.state is Idle ==> final(self).pending().len() == 0,
    {
        proof {
            lemma_entered(self@);
        }
        let ghost input = self.buf.remaining();
        if let RunState::Idle = self.state {
            if let Ok(b) = self.buf.read_u8() {
                if b < 128 {
                    self.state = RunState::Copy(b as usize + 1);
                } else if let Ok(c) = self.buf.read_u8() {
                    assert(input.skip(1).skip(1) == input.skip(2));
                    self.state = RunState::Repeat(257 - b as usize, c);
                }
            }
        }
    }

    /// Hands out the next decoded byte, or nothing at the end of the stream,
    /// and moves on in the run: to one byte less to go, or to idle after
    /// the last byte.
    fn next_byte(&mut self) -> (r: Option<u8>)
        requires
            old(self).wf(),
        ensures
            r == old(self)@.stepped().0,
            final(self)@ == old(self)@.stepped().1,
            final(self).wf(),
            match r {
                Some(b) => old(self).pending().len() > 0 && b == old(self).pending()[0]
                    && final(self).pending() == old(self).pending().skip(1),
                None => old(self).pending().len() == 0 && final(self).pending().len() == 0,
            },
    {
        proof {
            lemma_stepped(self@);
        }
        self.read_run();
        match self.state {
            RunState::Copy(n) => {
                match self.buf.read_u8() {
                    Ok(b) => {
                        self.state = if n == 1 {
                            RunState::Idle
                        } else {
                            RunState::Copy(n - 1)
                        };
                        Some(b)
                    },
                    Err(_) => None,
                }
            },
            RunState::Repeat(n, c) => {
                self.state = if n == 1 {
                    RunState::Idle
                } else {
                    RunState::Repeat(n - 1, c)
                };
                Some(c)
            },
            RunState::Idle => None,
        }
    }

    /// Decodes into `buf` until it is full or the stream ends, and returns
    /// the number of bytes written. The rest of `buf` keeps its contents.
    /// The reader is left where the last step has brought it.
    pub fn read(&mut self, buf: &mut [u8]) -> (n: usize)
        requires
            old(self).wf(),
        ensures
            final(self)@ == old(self)@.after_slots(old(buf)@.len()),
            final(self).wf(),
            n == handed_out(old(self).pending(), old(buf)@.len()).len(),
            final(buf)@ == handed_out(old(self).pending(), old(buf)@.len()) + old(buf)@.skip(
                n as int,
            ),
            final(self).pending() == left_over(old(self).pending(), old(buf)@.len()),
    {
        let ghost start = self@;
        let ghost stream = self.pending();
        let ghost space = buf@;
        let mut br: usize = 0;
        let mut open = true;
        while open && br < buf.len()
            invariant
                self.wf(),
                br <= space.len(),
                br <= stream.len(),
                buf@ == stream.take(br as int) + space.skip(br as int),
                self.pending() == stream.skip(br as int),
                !open ==> br == stream.len(),
                start.after_slots(space.len()) == if open {
                    self@.after_slots((space.len() - br) as nat)
                } else {
                    self@
                },
            decreases (if open { 1int } else { 0int }) + space.len() - br,
        {
            match self.next_byte() {
                Some(b) => {
                    buf[br] = b;
                    br = br + 1;
                },
                None => {
                    open = false;
                },
            }
        }
        br
    }

    /// Decodes the rest of the stream, appends it to `out` and returns the
    /// number of bytes appended. The reader is left where the step that
    /// found the end has brought it.
    pub fn read_to_end(&mut self, out: &mut Vec<u8>) -> (n: usize)
        requires
            old(self).wf(),
        ensures
            final(self)@ == old(self)@.after_slots(old(self).pending().len() + 1),
            final(self).wf(),
            final(out)@ == old(out)@ + old(self).pending(),
            n == old(self).pending().len(),
            final(self).pending().len() == 0,
    {
        let ghost first_view = self@;
        let ghost stream = self.pending();
        let ghost start = out@;
        let first: usize = out.len();
        let mut open = true;
        while open
            invariant
                self.wf(),
                out@.len() >= start.len(),
                out@.len() - start.len() <= stream.len(),
                out@ == start + stream.take(out@.len() - start.len()),
                self.pending() == stream.skip(out@.len() - start.len()),
                !open ==> self.pending().len() == 0,
                first_view.after_slots(stream.len() + 1) == if open {
                    self@.after_slots(self.pending().len() + 1)
                } else {
                    self@
                },
            decreases (if open { 1int } else { 0int }) + self.pending().len(),
        {
            match self.next_byte() {
                Some(b) => {
                    out.push(b);
                },
                None => {
                    open = false;
                },
            }
        }
        out.len() - first
    }
}

/// A byte rotated right by `k` bits, for `k` from 1 to 7.
pub open spec fn rotr8(x: u8, k: u8) -> u8 {
    (x >> k) | (x << ((8 - k) as u8))
}

/// A byte rotated left by `k` bits, for `k` from 1 to 7.
pub open spec fn rotl8(x: u8, k: u8) -> u8 {
    (x << k) | (x >> ((8 - k) as u8))
}

/// The rotation of the byte at index `i`: 1, 3, 5, 7, and then again from 1.
pub open spec fn rotation_at(i: int) -> u8 {
    (1 + 2 * (i % 4)) as u8
}

/// A buffer with each byte rotated right by the rotation of its index.
pub open spec fn rotated(s: Seq<u8>) -> Seq<u8> {
    Seq::new(s.len(), |i: int| rotr8(s[i], rotation_at(i)))
}

/// A buffer with each byte rotated left by the rotation of its index.
pub open spec fn unrotated(s: Seq<u8>) -> Seq<u8> {
    Seq::new(s.len(), |i: int| rotl8(s[i], rotation_at(i)))
}

/// Rotates one byte right by `k` bits.
fn rotate_right8(x: u8, k: u8) -> (r: u8)
    requires
        1 <= k <= 7,
    ensures
        r == rotr8(x, k),
{
    (x >> k) | (x << (8 - k))
}

/// Rotates one byte left by `k` bits.
fn rotate_left8(x: u8, k: u8) -> (r: u8)
    requires
        1 <= k <= 7,
    ensures
        r == rotl8(x, k),
{
    (x << k) | (x >> (8 - k))
}

/// A buffer with each byte rotated by the rotation of its index, to the
/// left or to the right.
spec fn turned(s: Seq<u8>, left: bool) -> Seq<u8> {
    if left {
        unrotated(s)
    } else {
        rotated(s)
    }
}

/// Rotates each byte of a buffer in place by the rotation of its index.
fn turn_bytes(b: &mut [u8], left: bool)
    ensures
        final(b)@ == turned(old(b)@, left),
{
    let ghost input = b@;
    let mut i: u8 = 1;
    let mut at: usize = 0;
    while at < b.len()
        invariant
            at <= b@.len() == input.len(),
            i == rotation_at(at as int),
            b@.take(at as int) == turned(input, left).take(at as int),
            b@.skip(at as int) == input.skip(at as int),
        decreases b@.len() - at,
    {
        let ghost before = b@;
        assert(before[at as int] == before.skip(at as int)[0]);
        let x = if left {
            rotate_left8(b[at], i)
        } else {
            rotate_right8(b[at], i)
        };
        b[at] = x;
        assert(b@.skip(at + 1) == input.skip(at + 1)) by {
            assert(b@.skip(at + 1) == before.skip(at as int).skip(1));
        }
        at = at + 1;
        i = i + 2;
        if i > 7 {
            i = 1;
        }
    }
    assert(b@ == b@.take(at as int));
}

/// Unmasks a buffer in place: each byte is rotated right, the first by 1 bit
/// and each further one by 2 bits more, starting again at 1 after 7.
pub fn rotate_bytes(b: &mut [u8])
    ensures
        final(b)@ == rotated(old(b)@),
{
    turn_bytes(b, false);
}

/// Masks a buffer in place, undoing `rotate_bytes`: each byte is rotated
/// left by the rotation of its index.
pub fn unrotate_bytes(b: &mut [u8])
    ensures
        final(b)@ == unrotated(old(b)@),
{
    turn_bytes(b, true);
}

/// Rotating a byte left undoes rotating it right by as many bits.
proof fn lemma_rotl_undoes_rotr(x: u8, k: u8)
    requires
        1 <= k <= 7,
    ensures
        rotl8(rotr8(x, k), k) == x,
{
    assert(rotl8(rotr8(x, k), k) == x) by (bit_vector)
        requires
            1 <= k <= 7,
    ;
}

/// Rotating left by the same schedule restores what `rotate_bytes` changed.
pub proof fn lemma_unrotate_restores(s: Seq<u8>)
    ensures
        unrotated(rotated(s)) == s,
{
    assert forall|i: int| 0 <= i < s.len() implies unrotated(rotated(s))[i] == s[i] by {
        lemma_rotl_undoes_rotr(s[i], rotation_at(i));
    }
}

/// The number of bytes that a back-reference control byte copies: 1 to 8.
pub open spec fn reference_length(x: u8) -> int {
    x % 8 + 1
}

/// How far back from the end of the output a back-reference control byte
/// starts to copy: 1 to 32 bytes for every control byte but `0xFF`.
pub open spec fn reference_distance(x: u8) -> int {
    32 - x / 8
}

/// The output after `len` bytes were copied to its end one at a time, each
/// from `dist` bytes before the end as it then stands, so that a copy longer
/// than `dist` reads bytes that it has written itself.
pub open spec fn copy_back(out: Seq<u8>, dist: int, len: nat) -> Seq<u8>
    decreases len,
{
    if len == 0 {
        out
    } else {
        copy_back(out.push(out[out.len() - dist]), dist, (len - 1) as nat)
    }
}

/// What a back-reference appends: the output so far stays in front, and
/// each byte behind it equals the byte `dist` places before it, be that a
/// byte of the old output or one that the same copy wrote.
pub proof fn lemma_copy_back(out: Seq<u8>, dist: int, len: nat)
    requires
        1 <= dist <= out.len(),
    ensures
        copy_back(out, dist, len).len() == out.len() + len,
        copy_back(out, dist, len).take(out.len() as int) == out,
        forall|k: int|
            out.len() <= k < out.len() + len ==> #[trigger] copy_back(out, dist, len)[k]
                == copy_back(out, dist, len)[k - dist],
    decreases len,
{
    if len > 0 {
        let next = out.push(out[out.len() - dist]);
        let all = copy_back(out, dist, len);
        lemma_copy_back(next, dist, (len - 1) as nat);
        assert(next.take(out.len() as int) == out);
        assert forall|k: int| out.len() <= k < out.len() + len implies #[trigger] all[k] == all[k
            - dist] by {
            if k == out.len() {
                assert(all[k] == all.take(next.len() as int)[k]);
            }
        }
    }
}

/// The expansion of the input from index `i` on, continuing the output `out`.
/// `0xFF` is followed by one byte that is emitted; any other byte is a
/// back-reference into the output so far.
pub open spec fn decompress_from(input: Seq<u8>, i: int, out: Seq<u8>) -> Result<
    Seq<u8>,
    ReadError,
>
    decreases input.len() - i,
{
    if i < 0 || i >= input.len() {
        Ok(out)
    } else if input[i] == 0xFF {
        if i + 1 >= input.len() {
            Err(ReadError::Truncated)
        } else {
            decompress_from(input, i + 2, out.push(input[i + 1]))
        }
    } else if reference_distance(input[i]) > out.len() {
        Err(ReadError::BadReference)
    } else {
        decompress_from(
            input,
            i + 1,
            copy_back(out, reference_distance(input[i]), reference_length(input[i]) as nat),
        )
    }
}

/// The expansion of a whole buffer of escaped literals and back-references.
pub open spec fn decompressed(input: Seq<u8>) -> Result<Seq<u8>, ReadError> {
    decompress_from(input, 0, Seq::empty())
}

/// Expands escaped literals and back-references. Fails with `Truncated`
/// where `0xFF` is the last byte, and with `BadReference` where a
/// back-reference starts before the first byte of the output.
pub fn decompress(b: &[u8]) -> (r: Result<Vec<u8>, ReadError>)
    ensures
        match decompressed(b@) {
            Ok(s) => r matches Ok(v) && v@ == s,
            Err(e) => r == Err::<Vec<u8>, ReadError>(e),
        },
{
    let mut i: usize = 0;
    let mut v: Vec<u8> = Vec::new();
    while i < b.len()
        invariant
            i <= b@.len(),
            decompressed(b@) == decompress_from(b@, i as int, v@),
        decreases b@.len() - i,
    {
        let x = b[i];
        if x == 0xFF {
            if i + 1 >= b.len() {
                return Err(ReadError::Truncated);
            }
            v.push(b[i + 1]);
            i = i + 2;
        } else {
            assert(x & 7 == x % 8 && x >> 3 == x / 8) by (bit_vector);
            let ln: usize = (x & 7) as usize + 1;
            let dist: usize = 32 - (x >> 3) as usize;
            if dist > v.len() {
                return Err(ReadError::BadReference);
            }
            let ghost start = v@;
            let mut k: usize = 0;
            while k < ln
                invariant
                    k <= ln <= 8,
                    1 <= dist <= v@.len(),
                    copy_back(start, dist as int, ln as nat) == copy_back(
                        v@,
                        dist as int,
                        (ln - k) as nat,
                    ),
                decreases ln - k,
            {
                let c = v[v.len() - dist];
                v.push(c);
                k = k + 1;
            }
            i = i + 1;
        }
    }
    Ok(v)
}

} // verus!
