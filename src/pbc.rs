//! The reader of the PBC binary chart format: little-endian integers,
//! unsigned LEB128 varints, length-prefixed strings and arrays, and times
//! stored as varint deltas in milliseconds.

use vstd::prelude::*;

verus! {

/// Why a read failed.
#[derive(Debug, Clone, Copy, PartialEq, Eq, Structural)]
pub enum PbcError {
    /// The data ended inside a value.
    UnexpectedEof,
    /// A varint runs past ten bytes.
    Overflow,
    /// A string is not UTF-8.
    InvalidUtf8,
}

/// Most bytes a 64-bit varint takes.
pub const MAX_ULEB_BYTES: usize = 10;

pub open spec fn pow128(n: nat) -> nat
    decreases n,
{
    if n == 0 {
        1
    } else {
        128 * pow128((n - 1) as nat)
    }
}

/// The value of the first `n` groups of a varint: seven bits per byte, low
/// groups first.
pub open spec fn uleb_prefix(s: Seq<u8>, n: nat) -> nat
    decreases n,
{
    if n == 0 {
        0
    } else {
        uleb_prefix(s, (n - 1) as nat) + (s[n - 1] % 128) as nat * pow128((n - 1) as nat)
    }
}

/// Index of the first byte at or after `p` without the continuation bit,
/// or -1 if there is none.
pub open spec fn uleb_end(d: Seq<u8>, p: int) -> int
    decreases d.len() - p,
{
    if p < 0 || p >= d.len() {
        -1
    } else if d[p] < 128 {
        p
    } else {
        uleb_end(d, p + 1)
    }
}

/// The outcome of reading a varint at `p`: the value and the position
/// after it. A varint of ten bytes keeps the low 64 bits of its value, as
/// the format's writer wraps; one that runs past ten bytes is an overflow.
pub open spec fn uleb_at(d: Seq<u8>, p: int) -> Result<(u64, int), PbcError> {
    let e = uleb_end(d, p);
    if e == -1 && d.len() - p < MAX_ULEB_BYTES {
        Err(PbcError::UnexpectedEof)
    } else if e == -1 || e - p >= MAX_ULEB_BYTES {
        Err(PbcError::Overflow)
    } else {
        let v = uleb_prefix(d.subrange(p, e + 1), (e + 1 - p) as nat);
        Ok(((v % 0x1_0000_0000_0000_0000) as u64, e + 1))
    }
}

/// The little-endian value of four bytes, as a signed integer.
pub open spec fn i32_le(b0: u8, b1: u8, b2: u8, b3: u8) -> i32 {
    let u: int = b0 as int + 256 * b1 as int + 65536 * b2 as int + 16777216 * b3 as int;
    if u >= 0x8000_0000 {
        (u - 0x1_0000_0000) as i32
    } else {
        u as i32
    }
}

/// What a byte sequence holds as UTF-8 text, if it is UTF-8.
pub uninterp spec fn utf8_decode(b: Seq<u8>) -> Option<Seq<char>>;

/// Relies on `String::from_utf8`: it succeeds exactly on valid UTF-8 and
/// then holds the decoded text; ASCII bytes are one character each.
#[verifier::external_body]
fn string_from_utf8(b: Vec<u8>) -> (r: Option<String>)
    ensures
        match r {
            Some(s) => utf8_decode(b@) == Some(s@),
            None => utf8_decode(b@) is None,
        },
        (forall|i: int| 0 <= i < b@.len() ==> b@[i] < 128) ==> r is Some && r.unwrap()@ == b@.map_values(
            |c: u8| c as char,
        ),
{
    String::from_utf8(b).ok()
}

proof fn lemma_pow128_bound(n: nat)
    requires
        n <= 9,
    ensures
        pow128(n) <= pow128(9),
        pow128(9) == 0x8000_0000_0000_0000,
    decreases 9 - n,
{
    reveal_with_fuel(pow128, 10);
    if n < 9 {
        lemma_pow128_bound(n + 1);
    }
}

proof fn lemma_uleb_prefix_bound(s: Seq<u8>, n: nat)
    requires
        n <= s.len(),
    ensures
        uleb_prefix(s, n) < pow128(n),
    decreases n,
{
    if n > 0 {
        lemma_uleb_prefix_bound(s, (n - 1) as nat);
        let k = (n - 1) as nat;
        assert((s[k as int] % 128) as nat * pow128(k) <= 127 * pow128(k)) by (nonlinear_arith)
            requires
                (s[k as int] % 128) as nat <= 127,
        ;
    }
}

proof fn lemma_uleb_prefix_sub(d: Seq<u8>, p: int, q: int, n: nat)
    requires
        0 <= p <= q <= d.len(),
        n <= q - p,
    ensures
        uleb_prefix(d.subrange(p, q), n) == uleb_prefix(d.subrange(p, p + n), n),
    decreases n,
{
    if n > 0 {
        lemma_uleb_prefix_sub(d, p, q, (n - 1) as nat);
        lemma_uleb_prefix_sub(d, p, p + n, (n - 1) as nat);
        assert(d.subrange(p, p + n).subrange(0, n - 1) =~= d.subrange(p, p + n - 1));
        lemma_uleb_prefix_sub(d, p, p + n - 1 + 1, (n - 1) as nat);
    }
}

proof fn lemma_uleb_end_skip(d: Seq<u8>, p: int, j: int)
    requires
        0 <= p <= j <= d.len(),
        forall|i: int| p <= i < j ==> (#[trigger] d[i]) >= 128u8,
    ensures
        uleb_end(d, p) == uleb_end(d, j),
    decreases j - p,
{
    if p < j {
        assert(d[p] >= 128u8);
        lemma_uleb_end_skip(d, p + 1, j);
    }
}

proof fn lemma_uleb_end_range(d: Seq<u8>, p: int)
    ensures
        uleb_end(d, p) == -1 || (p <= uleb_end(d, p) < d.len()),
    decreases d.len() - p,
{
    if 0 <= p < d.len() && d[p] >= 128 {
        lemma_uleb_end_range(d, p + 1);
    }
}

/// A value that has a binary form in the format.
pub trait BinaryRead: Sized {
    /// The value at `p` and the position after it.
    spec fn decode(d: Seq<u8>, p: int) -> Result<(Self, int), PbcError>;

    fn read_binary(r: &mut BinaryReader) -> (res: Result<Self, PbcError>)
        requires
            old(r).wf(),
        ensures
            final(r).wf(),
            final(r).data == old(r).data,
            final(r).time_cursor == old(r).time_cursor,
            match Self::decode(old(r).data@, old(r).pos as int) {
                Ok((v, q)) => res is Ok && res.unwrap() == v && final(r).pos == q,
                Err(e) => res == Err::<Self, PbcError>(e),
            };
}

/// `n` values of `T` in a row from `p`, and the position after them.
pub open spec fn decode_array<T: BinaryRead>(d: Seq<u8>, p: int, n: nat) -> Result<(Seq<T>, int), PbcError>
    decreases n,
{
    if n == 0 {
        Ok((Seq::empty(), p))
    } else {
        match decode_array::<T>(d, p, (n - 1) as nat) {
            Ok((vs, q)) => match T::decode(d, q) {
                Ok((v, e)) => Ok((vs.push(v), e)),
                Err(err) => Err(err),
            },
            Err(err) => Err(err),
        }
    }
}

proof fn lemma_decode_array_err<T: BinaryRead>(d: Seq<u8>, p: int, i: nat, n: nat)
    requires
        i <= n,
        decode_array::<T>(d, p, i) is Err,
    ensures
        decode_array::<T>(d, p, n) == decode_array::<T>(d, p, i),
    decreases n - i,
{
    if i < n {
        lemma_decode_array_err::<T>(d, p, i, (n - 1) as nat);
    }
}

impl BinaryRead for u8 {
    open spec fn decode(d: Seq<u8>, p: int) -> Result<(u8, int), PbcError> {
        if 0 <= p < d.len() {
            Ok((d[p], p + 1))
        } else {
            Err(PbcError::UnexpectedEof)
        }
    }

    fn read_binary(r: &mut BinaryReader) -> (res: Result<u8, PbcError>) {
        r.read_u8()
    }
}

impl BinaryRead for bool {
    open spec fn decode(d: Seq<u8>, p: int) -> Result<(bool, int), PbcError> {
        if 0 <= p < d.len() {
            Ok((d[p] == 1, p + 1))
        } else {
            Err(PbcError::UnexpectedEof)
        }
    }

    fn read_binary(r: &mut BinaryReader) -> (res: Result<bool, PbcError>) {
        r.read_bool()
    }
}

impl BinaryRead for i32 {
    open spec fn decode(d: Seq<u8>, p: int) -> Result<(i32, int), PbcError> {
        if 0 <= p && p + 4 <= d.len() {
            Ok((i32_le(d[p], d[p + 1], d[p + 2], d[p + 3]), p + 4))
        } else {
            Err(PbcError::UnexpectedEof)
        }
    }

    fn read_binary(r: &mut BinaryReader) -> (res: Result<i32, PbcError>) {
        r.read_i32()
    }
}

impl BinaryRead for u64 {
    open spec fn decode(d: Seq<u8>, p: int) -> Result<(u64, int), PbcError> {
        uleb_at(d, p)
    }

    fn read_binary(r: &mut BinaryReader) -> (res: Result<u64, PbcError>) {
        r.uleb()
    }
}

/// A reader over the bytes of a PBC chart.
pub struct BinaryReader {
    pub data: Vec<u8>,
    pub pos: usize,
    /// Running time of the keyframes being read, in milliseconds.
    pub time_cursor: u32,
}

impl BinaryReader {
    pub open spec fn wf(&self) -> bool {
        self.pos <= self.data@.len()
    }

    pub fn new(data: Vec<u8>) -> (r: BinaryReader)
        ensures
            r.wf(),
            r.data@ == data@,
            r.pos == 0,
            r.time_cursor == 0,
    {
        BinaryReader { data, pos: 0, time_cursor: 0 }
    }

    /// Restarts the running keyframe time at 0.
    pub fn reset_time(&mut self)
        ensures
            final(self).time_cursor == 0,
            final(self).data == old(self).data,
            final(self).pos == old(self).pos,
    {
        self.time_cursor = 0;
    }

    /// Reads one byte.
    pub fn read_u8(&mut self) -> (r: Result<u8, PbcError>)
        requires
            old(self).wf(),
        ensures
            final(self).wf(),
            final(self).data == old(self).data,
            final(self).time_cursor == old(self).time_cursor,
            old(self).pos < old(self).data@.len() ==> r == Ok::<u8, PbcError>(
                old(self).data@[old(self).pos as int],
            ) && final(self).pos == old(self).pos + 1,
            old(self).pos >= old(self).data@.len() ==> r == Err::<u8, PbcError>(
                PbcError::UnexpectedEof,
            ) && final(self).pos == old(self).pos,
    {
        if self.pos < self.data.len() {
            let b = self.data[self.pos];
            self.pos = self.pos + 1;
            Ok(b)
        } else {
            Err(PbcError::UnexpectedEof)
        }
    }

    /// Reads a byte as a flag: true exactly when it is 1.
    pub fn read_bool(&mut self) -> (r: Result<bool, PbcError>)
        requires
            old(self).wf(),
        ensures
            final(self).wf(),
            final(self).data == old(self).data,
            final(self).time_cursor == old(self).time_cursor,
            old(self).pos < old(self).data@.len() ==> r == Ok::<bool, PbcError>(
                old(self).data@[old(self).pos as int] == 1,
            ) && final(self).pos == old(self).pos + 1,
            old(self).pos >= old(self).data@.len() ==> r == Err::<bool, PbcError>(
                PbcError::UnexpectedEof,
            ) && final(self).pos == old(self).pos,
    {
        let b = self.read_u8()?;
        Ok(b == 1)
    }

    /// Reads a little-endian 32-bit signed integer.
    pub fn read_i32(&mut self) -> (r: Result<i32, PbcError>)
        requires
            old(self).wf(),
        ensures
            final(self).wf(),
            final(self).data == old(self).data,
            final(self).time_cursor == old(self).time_cursor,
            old(self).pos + 4 <= old(self).data@.len() ==> {
                let d = old(self).data@;
                let p = old(self).pos as int;
                &&& r == Ok::<i32, PbcError>(i32_le(d[p], d[p + 1], d[p + 2], d[p + 3]))
                &&& final(self).pos == p + 4
            },
            old(self).pos + 4 > old(self).data@.len() ==> r == Err::<i32, PbcError>(
                PbcError::UnexpectedEof,
            ) && final(self).pos == old(self).pos,
    {
        if self.data.len() - self.pos < 4 {
            return Err(PbcError::UnexpectedEof);
        }
        let p = self.pos;
        let u: u32 = self.data[p] as u32 + 256 * (self.data[p + 1] as u32) + 65536 * (
        self.data[p + 2] as u32) + 16777216 * (self.data[p + 3] as u32);
        self.pos = p + 4;
        let v: i32 = if u >= 0x8000_0000 {
            (u - 0x8000_0000) as i32 - 0x4000_0000 - 0x4000_0000
        } else {
            u as i32
        };
        Ok(v)
    }

    /// Reads an unsigned LEB128 varint of at most ten bytes, keeping the low
    /// 64 bits of its value. On failure the reader does not move.
    pub fn uleb(&mut self) -> (r: Result<u64, PbcError>)
        requires
            old(self).wf(),
        ensures
            final(self).wf(),
            final(self).data == old(self).data,
            final(self).time_cursor == old(self).time_cursor,
            match uleb_at(old(self).data@, old(self).pos as int) {
                Ok((v, q)) => r == Ok::<u64, PbcError>(v) && final(self).pos == q,
                Err(e) => r == Err::<u64, PbcError>(e) && final(self).pos == old(self).pos,
            },
    {
        let ghost d = self.data@;
        let p = self.pos;
        let mut i: usize = p;
        let mut result: u128 = 0;
        let mut mult: u128 = 1;
        let mut n: usize = 0;
        loop
            invariant
                d == self.data@,
                d == old(self).data@,
                p == old(self).pos,
                self.wf(),
                self.pos == p,
                i == p + n,
                n < MAX_ULEB_BYTES,
                mult == pow128(n as nat),
                result == uleb_prefix(d.subrange(p as int, i as int), n as nat),
                i <= d.len(),
                forall|j: int| p <= j < i ==> (#[trigger] d[j]) >= 128u8,
                self.time_cursor == old(self).time_cursor,
                self.data == old(self).data,
            decreases MAX_ULEB_BYTES - n,
        {
            proof {
                lemma_uleb_end_skip(d, p as int, i as int);
                lemma_pow128_bound(n as nat);
                lemma_uleb_prefix_bound(d.subrange(p as int, i as int), n as nat);
            }
            if i >= self.data.len() {
                proof {
                    assert(uleb_end(d, i as int) == -1);
                    assert(uleb_at(d, p as int) == Err::<(u64, int), PbcError>(PbcError::UnexpectedEof));
                }
                return Err(PbcError::UnexpectedEof);
            }
            let byte = self.data[i];
            proof {
                lemma_uleb_prefix_sub(d, p as int, i + 1, n as nat);
                assert(d.subrange(p as int, i + 1).subrange(0, n as int) =~= d.subrange(p as int, i as int));
                assert(d.subrange(p as int, i + 1)[n as int] == byte);
                assert((byte % 128) as nat * pow128(n as nat) <= 127 * 0x8000_0000_0000_0000) by (nonlinear_arith)
                    requires
                        (byte % 128) as nat <= 127,
                        pow128(n as nat) <= 0x8000_0000_0000_0000,
                ;
            }
            result = result + (byte % 128) as u128 * mult;
            proof {
                assert(result == uleb_prefix(d.subrange(p as int, i + 1), (n + 1) as nat));
            }
            if byte < 128 {
                proof {
                    assert(uleb_end(d, i as int) == i);
                    assert(uleb_end(d, p as int) == i);
                }
                let v = (result % 0x1_0000_0000_0000_0000) as u64;
                proof {
                    assert(uleb_at(d, p as int) == Ok::<(u64, int), PbcError>((v, i + 1)));
                }
                self.pos = i + 1;
                return Ok(v);
            }
            if n + 1 >= MAX_ULEB_BYTES {
                proof {
                    lemma_uleb_end_skip(d, p as int, i + 1);
                    let e = uleb_end(d, p as int);
                    assert(e == -1 || e >= i + 1) by {
                        lemma_uleb_end_range(d, i + 1);
                    }
                    assert(uleb_at(d, p as int) == Err::<(u64, int), PbcError>(PbcError::Overflow));
                }
                return Err(PbcError::Overflow);
            }
            mult = mult * 128;
            i = i + 1;
            n = n + 1;
        }
    }

    /// Reads a time delta and returns the running keyframe time, in
    /// milliseconds (wrapping at 2^32, as the format's counter does).
    pub fn time(&mut self) -> (r: Result<u32, PbcError>)
        requires
            old(self).wf(),
        ensures
            final(self).wf(),
            final(self).data == old(self).data,
            match uleb_at(old(self).data@, old(self).pos as int) {
                Ok((v, q)) => {
                    let t = ((old(self).time_cursor as int + v as int) % 0x1_0000_0000) as u32;
                    &&& r == Ok::<u32, PbcError>(t)
                    &&& final(self).pos == q
                    &&& final(self).time_cursor == t
                },
                Err(e) => r == Err::<u32, PbcError>(e) && final(self).pos == old(self).pos
                    && final(self).time_cursor == old(self).time_cursor,
            },
    {
        let d = self.uleb()?;
        let t: u32 = ((self.time_cursor as u64 % 0x1_0000_0000 + d % 0x1_0000_0000) % 0x1_0000_0000) as u32;
        proof {
            assert(((self.time_cursor as int % 0x1_0000_0000 + d as int % 0x1_0000_0000) % 0x1_0000_0000)
                == (self.time_cursor as int + d as int) % 0x1_0000_0000) by (nonlinear_arith);
        }
        self.time_cursor = t;
        Ok(t)
    }

    /// Reads a varint length, then that many bytes of UTF-8 text. On
    /// failure the reader does not move.
    pub fn read_string(&mut self) -> (r: Result<String, PbcError>)
        requires
            old(self).wf(),
        ensures
            final(self).wf(),
            final(self).data == old(self).data,
            final(self).time_cursor == old(self).time_cursor,
            match uleb_at(old(self).data@, old(self).pos as int) {
                Ok((len, q)) => if q + len > old(self).data@.len() {
                    r == Err::<String, PbcError>(PbcError::UnexpectedEof) && final(self).pos == old(self).pos
                } else {
                    match utf8_decode(old(self).data@.subrange(q, q + len)) {
                        Some(text) => r is Ok && r.unwrap()@ == text && final(self).pos == q + len,
                        None => r == Err::<String, PbcError>(PbcError::InvalidUtf8) && final(self).pos
                            == old(self).pos,
                    }
                },
                Err(e) => r == Err::<String, PbcError>(e) && final(self).pos == old(self).pos,
            },
    {
        let start = self.pos;
        let len = self.uleb()?;
        let q = self.pos;
        if len > (self.data.len() - q) as u64 {
            self.pos = start;
            return Err(PbcError::UnexpectedEof);
        }
        let len = len as usize;
        let mut buf: Vec<u8> = Vec::new();
        let mut i: usize = 0;
        let dl = self.data.len();
        while i < len
            invariant
                self.wf(),
                dl == self.data@.len(),
                q == self.pos,
                q + len <= self.data@.len(),
                0 <= i <= len,
                buf@ == self.data@.subrange(q as int, q + i),
            decreases len - i,
        {
            assert(q + i < dl);
            buf.push(self.data[q + i]);
            proof {
                assert(buf@ =~= self.data@.subrange(q as int, q + i + 1));
            }
            i = i + 1;
        }
        match string_from_utf8(buf) {
            Some(s) => {
                self.pos = q + len;
                Ok(s)
            },
            None => {
                self.pos = start;
                Err(PbcError::InvalidUtf8)
            },
        }
    }

    /// Reads a varint count, then that many values of `T` in order.
    pub fn read_array<T: BinaryRead>(&mut self) -> (r: Result<Vec<T>, PbcError>)
        requires
            old(self).wf(),
        ensures
            final(self).wf(),
            final(self).data == old(self).data,
            final(self).time_cursor == old(self).time_cursor,
            match uleb_at(old(self).data@, old(self).pos as int) {
                Ok((n, q)) => match decode_array::<T>(old(self).data@, q, n as nat) {
                    Ok((vs, e)) => r is Ok && r.unwrap()@ == vs && final(self).pos == e,
                    Err(err) => r == Err::<Vec<T>, PbcError>(err),
                },
                Err(err) => r == Err::<Vec<T>, PbcError>(err),
            },
    {
        let n = self.uleb()?;
        let ghost d = self.data@;
        let ghost q = self.pos as int;
        let mut out: Vec<T> = Vec::new();
        let mut i: u64 = 0;
        while i < n
            invariant
                self.wf(),
                d == self.data@,
                d == old(self).data@,
                uleb_at(d, old(self).pos as int) == Ok::<(u64, int), PbcError>((n, q)),
                self.data == old(self).data,
                self.time_cursor == old(self).time_cursor,
                0 <= i <= n,
                decode_array::<T>(d, q, i as nat) == Ok::<(Seq<T>, int), PbcError>((out@, self.pos as int)),
            decreases n - i,
        {
            let v = T::read_binary(self);
            match v {
                Ok(v) => {
                    out.push(v);
                },
                Err(e) => {
                    proof {
                        assert(decode_array::<T>(d, q, (i + 1) as nat) == Err::<(Seq<T>, int), PbcError>(e));
                        lemma_decode_array_err::<T>(d, q, (i + 1) as nat, n as nat);
                    }
                    return Err(e);
                },
            }
            i = i + 1;
        }
        Ok(out)
    }
}

} // verus!
