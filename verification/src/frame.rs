use vstd::prelude::*;

verus! {

/// The base-128 digits of `n`, least significant first; every byte but the
/// last has its high bit set (unsigned LEB128).
pub open spec fn varint(n: nat) -> Seq<u8>
    decreases n,
{
    if n < 128 {
        seq![n as u8]
    } else {
        seq![(n % 128 + 128) as u8] + varint(n / 128)
    }
}

/// The number that base-128 digits stand for, least significant first;
/// the high bit of each byte is not part of its digit.
pub open spec fn varint_value(digits: Seq<u8>) -> nat
    decreases digits.len(),
{
    if digits.len() == 0 {
        0
    } else {
        (digits[0] % 128) as nat + 128 * varint_value(digits.drop_first())
    }
}

/// `128` to the power `k`.
pub open spec fn cap(k: nat) -> nat
    decreases k,
{
    if k == 0 {
        1
    } else {
        128 * cap((k - 1) as nat)
    }
}

/// A frame: the length of the payload as a varint, then the payload.
pub open spec fn spec_frame(data: Seq<u8>) -> Seq<u8> {
    varint(data.len()) + data
}

/// The most bytes a length prefix may take.
pub const MAX_PREFIX_LEN: usize = 10;

/// Where a reader of a frame stands.
pub enum ReadState {
    /// Reading the length prefix; these are its bytes so far.
    Length(Seq<u8>),
    /// Reading a payload of `len` bytes; these are its bytes so far.
    Body(nat, Seq<u8>),
    /// The frame is read; this is its payload.
    Complete(Seq<u8>),
    /// The frame is malformed or longer than allowed.
    Invalid,
}

/// Where a reader stands after one more byte. A length prefix ends at its
/// first byte without the high bit; it is refused when it does not end
/// within ten bytes, when its last byte is a zero after other bytes, or
/// when it announces more than `max` bytes.
pub open spec fn read_step(s: ReadState, byte: u8, max: nat) -> ReadState {
    match s {
        ReadState::Length(digits) => {
            let d = digits.push(byte);
            if byte < 128 {
                if byte == 0 && digits.len() > 0 {
                    ReadState::Invalid
                } else if varint_value(d) > max {
                    ReadState::Invalid
                } else if varint_value(d) == 0 {
                    ReadState::Complete(Seq::empty())
                } else {
                    ReadState::Body(varint_value(d), Seq::empty())
                }
            } else if d.len() >= MAX_PREFIX_LEN {
                ReadState::Invalid
            } else {
                ReadState::Length(d)
            }
        },
        ReadState::Body(len, data) => {
            let d = data.push(byte);
            if d.len() >= len {
                ReadState::Complete(d)
            } else {
                ReadState::Body(len, d)
            }
        },
        other => other,
    }
}

/// Where a reader that stood at `start` stands after the bytes `s`.
pub open spec fn read_from(start: ReadState, s: Seq<u8>, max: nat) -> ReadState
    decreases s.len(),
{
    if s.len() == 0 {
        start
    } else {
        read_step(read_from(start, s.drop_last(), max), s.last(), max)
    }
}

/// Where a fresh reader stands after the bytes `s`.
pub open spec fn read_state(s: Seq<u8>, max: nat) -> ReadState {
    read_from(ReadState::Length(Seq::empty()), s, max)
}

/// Whether a reader in this state takes no more bytes.
pub open spec fn is_finished(s: ReadState) -> bool {
    s is Complete || s is Invalid
}

/// How reading a frame fails.
#[derive(Clone, Copy, Debug, PartialEq, Eq, Structural)]
pub enum FrameError {
    /// The stream ended inside the frame.
    UnexpectedEof,
    /// The frame is malformed or too long.
    InvalidData,
}

/// What a reader gives when the stream ends or the frame is finished: the
/// payload of a complete frame; an empty payload when the stream ended
/// before any byte; an error otherwise.
pub open spec fn spec_finish(s: ReadState) -> Result<Seq<u8>, FrameError> {
    match s {
        ReadState::Complete(d) => Ok(d),
        ReadState::Invalid => Err(FrameError::InvalidData),
        ReadState::Length(digits) => if digits.len() == 0 {
            Ok(Seq::empty())
        } else {
            Err(FrameError::UnexpectedEof)
        },
        ReadState::Body(_, _) => Err(FrameError::UnexpectedEof),
    }
}

/// Encodes `n` as a varint.
pub fn encode_varint(n: u64) -> (r: Vec<u8>)
    ensures
        r@ == varint(n as nat),
{
    let mut out: Vec<u8> = Vec::new();
    let mut m: u64 = n;
    while m >= 128
        invariant
            out@ + varint(m as nat) == varint(n as nat),
        decreases m,
    {
        let ghost before = out@;
        out.push((m % 128 + 128) as u8);
        assert(varint(m as nat) == seq![(m % 128 + 128) as u8] + varint((m / 128) as nat));
        assert(out@ + varint((m / 128) as nat) =~= before + varint(m as nat));
        m = m / 128;
    }
    let ghost before = out@;
    out.push(m as u8);
    assert(out@ =~= before + varint(m as nat));
    out
}

/// The frame that carries `data`: its length as a varint, then the data.
pub fn frame(data: &[u8]) -> (r: Vec<u8>)
    ensures
        r@ == spec_frame(data@),
{
    let mut out = encode_varint(data.len() as u64);
    crate::bytes::append_bytes(&mut out, data);
    out
}

proof fn lemma_read_from_concat(start: ReadState, a: Seq<u8>, b: Seq<u8>, max: nat)
    ensures
        read_from(start, a + b, max) == read_from(read_from(start, a, max), b, max),
    decreases b.len(),
{
    if b.len() == 0 {
        assert(a + b =~= a);
    } else {
        assert((a + b).drop_last() =~= a + b.drop_last());
        lemma_read_from_concat(start, a, b.drop_last(), max);
    }
}

proof fn lemma_cap_ten()
    ensures
        cap(10) == 0x40_0000_0000_0000_0000u128,
{
    reveal_with_fuel(cap, 11);
}

proof fn lemma_cap_monotonic(j: nat, k: nat)
    requires
        j <= k,
    ensures
        cap(j) <= cap(k),
    decreases k,
{
    if j < k {
        lemma_cap_monotonic(j, (k - 1) as nat);
    }
}

/// The shape of a varint: it ends at its only byte without the high bit,
/// that byte is zero only for the number zero, it stands for the number it
/// encodes, and a number below `cap(k)` takes at most `k` bytes.
proof fn lemma_varint_shape(n: nat, k: nat)
    requires
        n < cap(k),
        k >= 1,
    ensures
        varint(n).len() >= 1,
        varint(n).len() <= k,
        forall|i: int| 0 <= i < varint(n).len() - 1 ==> varint(n)[i] >= 128,
        varint(n).last() < 128,
        varint(n).last() == 0 ==> n == 0 && varint(n).len() == 1,
        varint_value(varint(n)) == n,
    decreases n,
{
    if k == 0 {
        assert(cap(0) == 1);
    }
    if n < 128 {
        let v = varint(n);
        assert(v.drop_first() =~= Seq::<u8>::empty());
        assert(varint_value(v.drop_first()) == 0);
        assert((n as u8) % 128 == n);
    } else {
        assert(k > 0);
        assert(cap(k) == 128 * cap((k - 1) as nat));
        assert(n / 128 < cap((k - 1) as nat));
        if k == 1 {
            assert(cap(0) == 1);
        }
        lemma_varint_shape(n / 128, (k - 1) as nat);
        let rest = varint(n / 128);
        let v = varint(n);
        assert(v == seq![(n % 128 + 128) as u8] + rest);
        assert(v.drop_first() =~= rest);
        assert(((n % 128 + 128) as u8) % 128 == n % 128);
        assert(varint_value(v) == n % 128 + 128 * (n / 128));
        assert forall|i: int| 0 <= i < v.len() - 1 implies v[i] >= 128 by {
            if i > 0 {
                assert(v[i] == rest[i - 1]);
            }
        }
    }
}

proof fn lemma_varint_prefixes(v: Seq<u8>, j: nat, max: nat)
    requires
        v.len() <= MAX_PREFIX_LEN,
        j < v.len(),
        forall|i: int| 0 <= i < v.len() - 1 ==> v[i] >= 128,
    ensures
        read_state(v.subrange(0, j as int), max) == ReadState::Length(v.subrange(0, j as int)),
    decreases j,
{
    if j == 0 {
        assert(v.subrange(0, 0) =~= Seq::<u8>::empty());
    } else {
        lemma_varint_prefixes(v, (j - 1) as nat, max);
        assert(v.subrange(0, j as int).drop_last() =~= v.subrange(0, j - 1));
        assert(v.subrange(0, j - 1).push(v[j - 1]) =~= v.subrange(0, j as int));
    }
}

proof fn lemma_body_prefixes(n: nat, data: Seq<u8>, k: nat, max: nat)
    requires
        n == data.len(),
        k <= n,
        n > 0,
    ensures
        k < n ==> read_from(ReadState::Body(n, Seq::empty()), data.subrange(0, k as int), max)
            == ReadState::Body(n, data.subrange(0, k as int)),
        k == n ==> read_from(ReadState::Body(n, Seq::empty()), data.subrange(0, k as int), max)
            == ReadState::Complete(data),
    decreases k,
{
    if k > 0 {
        lemma_body_prefixes(n, data, (k - 1) as nat, max);
        assert(data.subrange(0, k as int).drop_last() =~= data.subrange(0, k - 1));
        assert(data.subrange(0, k - 1).push(data[k - 1]) =~= data.subrange(0, k as int));
        assert(data.subrange(0, n as int) =~= data);
    } else {
        assert(data.subrange(0, 0) =~= Seq::<u8>::empty());
    }
}

/// What a reader makes of the whole length prefix of a payload of `n` bytes
/// with at most `max` allowed.
proof fn lemma_prefix_read(n: nat, max: nat)
    requires
        n <= u64::MAX,
    ensures
        n > max ==> read_state(varint(n), max) == ReadState::Invalid,
        n <= max && n == 0 ==> read_state(varint(n), max) == ReadState::Complete(Seq::empty()),
        n <= max && n > 0 ==> read_state(varint(n), max) == ReadState::Body(n, Seq::empty()),
        forall|j: int|
            0 <= j < varint(n).len() ==> !is_finished(
                #[trigger] read_state(varint(n).subrange(0, j), max),
            ),
{
    lemma_cap_ten();
    lemma_varint_shape(n, 10);
    let v = varint(n);
    assert forall|j: int| 0 <= j < v.len() implies !is_finished(
        #[trigger] read_state(v.subrange(0, j), max),
    ) by {
        lemma_varint_prefixes(v, j as nat, max);
    }
    lemma_varint_prefixes(v, (v.len() - 1) as nat, max);
    assert(v.drop_last() =~= v.subrange(0, v.len() - 1));
    assert(v.subrange(0, v.len() - 1).push(v.last()) =~= v);
}

/// A reader fed a frame whose payload is within the limit stops at the
/// frame's last byte, and not before, and gives back the payload.
pub proof fn lemma_frame_read_back(data: Seq<u8>, max: nat)
    requires
        data.len() <= max,
        data.len() <= u64::MAX,
    ensures
        read_state(spec_frame(data), max) == ReadState::Complete(data),
        spec_finish(read_state(spec_frame(data), max)) == Ok::<Seq<u8>, FrameError>(data),
        forall|j: int|
            0 <= j < spec_frame(data).len() ==> !is_finished(
                #[trigger] read_state(spec_frame(data).subrange(0, j), max),
            ),
{
    let n = data.len();
    let v = varint(n);
    let f = spec_frame(data);
    lemma_prefix_read(n, max);
    if n == 0 {
        assert(data =~= Seq::<u8>::empty());
        assert(f =~= v);
    } else {
        lemma_body_prefixes(n, data, n, max);
        assert(data.subrange(0, n as int) =~= data);
        lemma_read_from_concat(ReadState::Length(Seq::empty()), v, data, max);
        assert forall|j: int| 0 <= j < f.len() implies !is_finished(
            #[trigger] read_state(f.subrange(0, j), max),
        ) by {
            if j < v.len() {
                assert(f.subrange(0, j) =~= v.subrange(0, j));
            } else {
                let k = j - v.len();
                assert(f.subrange(0, j) =~= v + data.subrange(0, k));
                lemma_read_from_concat(
                    ReadState::Length(Seq::empty()),
                    v,
                    data.subrange(0, k),
                    max,
                );
                lemma_body_prefixes(n, data, k as nat, max);
            }
        }
    }
}

/// A reader handed a frame, and possibly more, takes the frame exactly:
/// wherever it stops taking bytes (at the end of what it was handed, or once
/// finished) within the frame, that is the frame's end, and it holds the
/// payload.
pub proof fn lemma_frame_taken_whole(data: Seq<u8>, max: nat, used: nat)
    requires
        data.len() <= max,
        data.len() <= u64::MAX,
        used <= spec_frame(data).len(),
        used == spec_frame(data).len() || is_finished(
            read_state(spec_frame(data).subrange(0, used as int), max),
        ),
    ensures
        used == spec_frame(data).len(),
        read_state(spec_frame(data).subrange(0, used as int), max) == ReadState::Complete(data),
{
    lemma_frame_read_back(data, max);
    assert(spec_frame(data).subrange(0, spec_frame(data).len() as int) =~= spec_frame(data));
}

/// A frame that announces more than `max` bytes is refused as soon as its
/// length prefix is read.
pub proof fn lemma_oversized_frame_refused(n: nat, max: nat)
    requires
        max < n <= u64::MAX,
    ensures
        read_state(varint(n), max) == ReadState::Invalid,
{
    lemma_prefix_read(n, max);
}

/// How many more bytes a reader in this state can take at once without
/// reading past its frame.
pub open spec fn spec_wanted(s: ReadState) -> nat {
    match s {
        ReadState::Length(_) => 1,
        ReadState::Body(len, data) => (len - data.len()) as nat,
        _ => 0,
    }
}

#[derive(Clone, Copy, PartialEq, Eq, Structural)]
enum Phase {
    Length,
    Body,
    Complete,
    Invalid,
}

/// Reads one frame from a stream of bytes handed to it piece by piece.
pub struct FrameReader {
    max: usize,
    phase: Phase,
    digits: Vec<u8>,
    len: usize,
    data: Vec<u8>,
}

fn digits_value(d: &Vec<u8>) -> (v: u128)
    requires
        d@.len() <= MAX_PREFIX_LEN,
    ensures
        v == varint_value(d@),
{
    let n = d.len();
    let mut v: u128 = 0;
    let mut i: usize = n;
    proof {
        lemma_cap_ten();
        assert(d@.subrange(n as int, n as int) =~= Seq::<u8>::empty());
    }
    while i > 0
        invariant
            n == d@.len(),
            n <= MAX_PREFIX_LEN,
            i <= n,
            v == varint_value(d@.subrange(i as int, n as int)),
            v < cap((n - i) as nat),
            cap(10) == 0x40_0000_0000_0000_0000u128,
        decreases i,
    {
        proof {
            lemma_cap_monotonic((n - i + 1) as nat, 10);
            assert(cap((n - i + 1) as nat) == 128 * cap((n - i) as nat));
            assert(d@.subrange(i - 1, n as int).drop_first() =~= d@.subrange(i as int, n as int));
        }
        i = i - 1;
        v = v * 128 + (d[i] % 128) as u128;
    }
    assert(d@.subrange(0, n as int) =~= d@);
    v
}

impl FrameReader {
    /// Where this reader stands.
    pub closed spec fn state(&self) -> ReadState {
        match self.phase {
            Phase::Length => ReadState::Length(self.digits@),
            Phase::Body => ReadState::Body(self.len as nat, self.data@),
            Phase::Complete => ReadState::Complete(self.data@),
            Phase::Invalid => ReadState::Invalid,
        }
    }

    /// The largest payload this reader accepts.
    pub closed spec fn max_size(&self) -> nat {
        self.max as nat
    }

    /// The reader's fields agree with each other.
    pub closed spec fn wf(&self) -> bool {
        &&& self.phase == Phase::Length ==> self.digits@.len() < MAX_PREFIX_LEN
        &&& self.phase == Phase::Body ==> self.data@.len() < self.len
    }

    /// A reader of a frame whose payload may hold up to `max_size` bytes.
    pub fn new(max_size: usize) -> (r: FrameReader)
        ensures
            r.wf(),
            r.state() == ReadState::Length(Seq::empty()),
            r.max_size() == max_size,
    {
        let r = FrameReader {
            max: max_size,
            phase: Phase::Length,
            digits: Vec::new(),
            len: 0,
            data: Vec::new(),
        };
        assert(r.digits@ =~= Seq::<u8>::empty());
        r
    }

    /// Whether the frame is read or refused, so that no byte more is taken.
    pub fn is_finished(&self) -> (r: bool)
        ensures
            r == is_finished(self.state()),
    {
        self.phase == Phase::Complete || self.phase == Phase::Invalid
    }

    /// How many bytes the reader can take at once without reading past its
    /// frame.
    pub fn wanted(&self) -> (r: usize)
        requires
            self.wf(),
        ensures
            r == spec_wanted(self.state()),
    {
        match self.phase {
            Phase::Length => 1,
            Phase::Body => self.len - self.data.len(),
            _ => 0,
        }
    }

    /// Takes the next byte of the stream.
    pub fn push(&mut self, byte: u8)
        requires
            old(self).wf(),
            !is_finished(old(self).state()),
        ensures
            final(self).wf(),
            final(self).max_size() == old(self).max_size(),
            final(self).state() == read_step(old(self).state(), byte, old(self).max_size()),
    {
        match self.phase {
            Phase::Length => {
                let had_digits = self.digits.len() > 0;
                self.digits.push(byte);
                if byte < 128 {
                    if byte == 0 && had_digits {
                        self.phase = Phase::Invalid;
                    } else {
                        let v = digits_value(&self.digits);
                        if v > self.max as u128 {
                            self.phase = Phase::Invalid;
                        } else if v == 0 {
                            self.data = Vec::new();
                            self.phase = Phase::Complete;
                            assert(self.data@ =~= Seq::<u8>::empty());
                        } else {
                            self.len = v as usize;
                            self.data = Vec::new();
                            self.phase = Phase::Body;
                            assert(self.data@ =~= Seq::<u8>::empty());
                        }
                    }
                } else if self.digits.len() >= MAX_PREFIX_LEN {
                    self.phase = Phase::Invalid;
                }
            },
            Phase::Body => {
                self.data.push(byte);
                if self.data.len() >= self.len {
                    self.phase = Phase::Complete;
                }
            },
            _ => {},
        }
    }

    /// Takes bytes of the stream in order, up to the end of the frame:
    /// gives how many it took, all of them unless the frame finished
    /// first.
    pub fn push_bytes(&mut self, bytes: &[u8]) -> (used: usize)
        requires
            old(self).wf(),
        ensures
            final(self).wf(),
            final(self).max_size() == old(self).max_size(),
            used <= bytes@.len(),
            final(self).state() == read_from(
                old(self).state(),
                bytes@.subrange(0, used as int),
                old(self).max_size(),
            ),
            used == bytes@.len() || is_finished(final(self).state()),
            used > 0 ==> !is_finished(
                read_from(
                    old(self).state(),
                    bytes@.subrange(0, used - 1),
                    old(self).max_size(),
                ),
            ),
    {
        let mut i: usize = 0;
        assert(bytes@.subrange(0, 0) =~= Seq::<u8>::empty());
        while i < bytes.len() && !self.is_finished()
            invariant
                self.wf(),
                self.max_size() == old(self).max_size(),
                i <= bytes@.len(),
                self.state() == read_from(
                    old(self).state(),
                    bytes@.subrange(0, i as int),
                    old(self).max_size(),
                ),
                i > 0 ==> !is_finished(
                    read_from(
                        old(self).state(),
                        bytes@.subrange(0, i - 1),
                        old(self).max_size(),
                    ),
                ),
            decreases bytes@.len() - i,
        {
            self.push(bytes[i]);
            assert(bytes@.subrange(0, i + 1).drop_last() =~= bytes@.subrange(0, i as int));
            i = i + 1;
        }
        i
    }

    /// What the reader gives at the end: the payload of a complete frame,
    /// an empty payload when no byte came at all, an error otherwise.
    pub fn finish(self) -> (r: Result<Vec<u8>, FrameError>)
        ensures
            match r {
                Ok(d) => spec_finish(self.state()) == Ok::<Seq<u8>, FrameError>(d@),
                Err(e) => spec_finish(self.state()) == Err::<Seq<u8>, FrameError>(e),
            },
    {
        match self.phase {
            Phase::Complete => Ok(self.data),
            Phase::Invalid => Err(FrameError::InvalidData),
            Phase::Length => if self.digits.len() == 0 {
                let empty: Vec<u8> = Vec::new();
                assert(empty@ =~= Seq::<u8>::empty());
                Ok(empty)
            } else {
                Err(FrameError::UnexpectedEof)
            },
            Phase::Body => Err(FrameError::UnexpectedEof),
        }
    }
}

} // verus!
