use vstd::bytes::*;
use vstd::array::{array_view, spec_array_fill_for_copy_type, spec_array_update};
use vstd::prelude::*;
use vstd::string::StringSliceAdditionalSpecFns;
use vstd::utf8::valid_utf8;

use crate::account::{AccountInfo, Pubkey};
use crate::error::ProgramError;

verus! {

/// The accounts and data an instruction is handed.
pub struct Context<'a, 'info> {
    pub accounts: &'a [AccountInfo],
    pub data: &'info [u8],
}

/// `s` with the bytes starting at `off` replaced by `b`.
pub open spec fn splice(s: Seq<u8>, off: int, b: Seq<u8>) -> Seq<u8> {
    s.subrange(0, off) + b + s.subrange(off + b.len(), s.len() as int)
}

/// Two writes side by side are one write of both.
pub proof fn lemma_splice_concat(s: Seq<u8>, a: int, x: Seq<u8>, y: Seq<u8>)
    requires
        0 <= a,
        a + x.len() + y.len() <= s.len(),
    ensures
        splice(splice(s, a, x), a + x.len(), y) == splice(s, a, x + y),
        splice(s, a, x).len() == s.len(),
{
    assert(splice(splice(s, a, x), a + x.len(), y) =~= splice(s, a, x + y));
}

/// Copies `src` into `dst` at `offset`.
pub fn copy_bytes(dst: &mut [u8], offset: usize, src: &[u8])
    requires
        offset + src@.len() <= old(dst)@.len(),
    ensures
        final(dst)@ == splice(old(dst)@, offset as int, src@),
{
    let ghost d0 = dst@;
    let dl = dst.len();
    let n = src.len();
    let mut i: usize = 0;
    while i < n
        invariant
            n == src@.len(),
            offset + n <= d0.len(),
            dst@.len() == d0.len(),
            dl == d0.len(),
            i <= n,
            forall|j: int| 0 <= j < offset ==> dst@[j] == d0[j],
            forall|j: int| offset <= j < offset + i ==> dst@[j] == src@[j - offset],
            forall|j: int| offset + i <= j < d0.len() ==> dst@[j] == d0[j],
        decreases n - i,
    {
        dst[offset + i] = src[i];
        i += 1;
    }
    assert(dst@ =~= splice(d0, offset as int, src@));
}

/// Appends `bytes` to `v`.
pub fn push_bytes(v: &mut Vec<u8>, bytes: &[u8])
    ensures
        final(v)@ == old(v)@ + bytes@,
{
    let ghost v0 = v@;
    let n = bytes.len();
    let mut i: usize = 0;
    while i < n
        invariant
            n == bytes@.len(),
            i <= n,
            v@ == v0 + bytes@.subrange(0, i as int),
        decreases n - i,
    {
        v.push(bytes[i]);
        i += 1;
        assert(v@ =~= v0 + bytes@.subrange(0, i as int));
    }
    assert(bytes@.subrange(0, n as int) =~= bytes@);
}

/// `n` zero bytes.
pub open spec fn zeros(n: nat) -> Seq<u8> {
    Seq::new(n, |i: int| 0u8)
}

/// Appends `n` zero bytes to `v`.
pub fn push_zeros(v: &mut Vec<u8>, n: usize)
    ensures
        final(v)@ == old(v)@ + zeros(n as nat),
{
    let ghost v0 = v@;
    let mut i: usize = 0;
    while i < n
        invariant
            i <= n,
            v@ == v0 + zeros(i as nat),
        decreases n - i,
    {
        v.push(0u8);
        i += 1;
        assert(v@ =~= v0 + zeros(i as nat));
    }
}

/// A value with a fixed-size byte encoding, as it is laid out in account and
/// instruction data.
pub trait Pod: Sized + Copy {
    spec fn spec_size() -> nat;

    /// The value the bytes encode, or `None` when they encode none.
    spec fn spec_decode(bytes: Seq<u8>) -> Option<Self>;

    spec fn spec_encode(v: Self) -> Seq<u8>;

    proof fn lemma_encode_decode(v: Self)
        ensures
            Self::spec_encode(v).len() == Self::spec_size(),
            Self::spec_decode(Self::spec_encode(v)) == Some(v),
    ;

    proof fn lemma_decode_encode(bytes: Seq<u8>)
        requires
            bytes.len() == Self::spec_size(),
            Self::spec_decode(bytes) is Some,
        ensures
            Self::spec_encode(Self::spec_decode(bytes)->0) == bytes,
    ;

    fn size() -> (n: usize)
        ensures
            n == Self::spec_size(),
    ;

    fn decode(bytes: &[u8]) -> (r: Option<Self>)
        requires
            bytes@.len() == Self::spec_size(),
        ensures
            r == Self::spec_decode(bytes@),
    ;

    fn encode(&self) -> (b: Vec<u8>)
        ensures
            b@ == Self::spec_encode(*self),
            b@.len() == Self::spec_size(),
    ;
}

impl Pod for u8 {
    open spec fn spec_size() -> nat {
        1
    }

    open spec fn spec_decode(bytes: Seq<u8>) -> Option<u8> {
        Some(bytes[0])
    }

    open spec fn spec_encode(v: u8) -> Seq<u8> {
        seq![v]
    }

    proof fn lemma_encode_decode(v: u8) {
    }

    proof fn lemma_decode_encode(bytes: Seq<u8>) {
        assert(seq![bytes[0]] =~= bytes);
    }

    fn size() -> (n: usize) {
        1
    }

    fn decode(bytes: &[u8]) -> (r: Option<u8>) {
        Some(bytes[0])
    }

    fn encode(&self) -> (b: Vec<u8>) {
        let mut b = Vec::new();
        b.push(*self);
        assert(b@ =~= seq![*self]);
        b
    }
}

impl Pod for bool {
    open spec fn spec_size() -> nat {
        1
    }

    open spec fn spec_decode(bytes: Seq<u8>) -> Option<bool> {
        if bytes[0] == 0 {
            Some(false)
        } else if bytes[0] == 1 {
            Some(true)
        } else {
            None
        }
    }

    open spec fn spec_encode(v: bool) -> Seq<u8> {
        seq![if v { 1u8 } else { 0u8 }]
    }

    proof fn lemma_encode_decode(v: bool) {
    }

    proof fn lemma_decode_encode(bytes: Seq<u8>) {
        assert(Self::spec_encode(Self::spec_decode(bytes)->0) =~= bytes);
    }

    fn size() -> (n: usize) {
        1
    }

    fn decode(bytes: &[u8]) -> (r: Option<bool>) {
        if bytes[0] == 0 {
            Some(false)
        } else if bytes[0] == 1 {
            Some(true)
        } else {
            None
        }
    }

    fn encode(&self) -> (b: Vec<u8>) {
        let mut b = Vec::new();
        b.push(if *self { 1u8 } else { 0u8 });
        assert(b@ =~= Self::spec_encode(*self));
        b
    }
}

impl Pod for u32 {
    open spec fn spec_size() -> nat {
        4
    }

    open spec fn spec_decode(bytes: Seq<u8>) -> Option<u32> {
        Some(spec_u32_from_le_bytes(bytes))
    }

    open spec fn spec_encode(v: u32) -> Seq<u8> {
        spec_u32_to_le_bytes(v)
    }

    proof fn lemma_encode_decode(v: u32) {
        lemma_auto_spec_u32_to_from_le_bytes();
        assert(spec_u32_to_le_bytes(v).len() == 4);
    }

    proof fn lemma_decode_encode(bytes: Seq<u8>) {
        lemma_auto_spec_u32_to_from_le_bytes();
    }

    fn size() -> (n: usize) {
        4
    }

    fn decode(bytes: &[u8]) -> (r: Option<u32>) {
        Some(u32_from_le_bytes(bytes))
    }

    fn encode(&self) -> (b: Vec<u8>) {
        proof {
            lemma_auto_spec_u32_to_from_le_bytes();
        }
        u32_to_le_bytes(*self)
    }
}

impl Pod for u64 {
    open spec fn spec_size() -> nat {
        8
    }

    open spec fn spec_decode(bytes: Seq<u8>) -> Option<u64> {
        Some(spec_u64_from_le_bytes(bytes))
    }

    open spec fn spec_encode(v: u64) -> Seq<u8> {
        spec_u64_to_le_bytes(v)
    }

    proof fn lemma_encode_decode(v: u64) {
        lemma_auto_spec_u64_to_from_le_bytes();
    }

    proof fn lemma_decode_encode(bytes: Seq<u8>) {
        lemma_auto_spec_u64_to_from_le_bytes();
    }

    fn size() -> (n: usize) {
        8
    }

    fn decode(bytes: &[u8]) -> (r: Option<u64>) {
        Some(u64_from_le_bytes(bytes))
    }

    fn encode(&self) -> (b: Vec<u8>) {
        proof {
            lemma_auto_spec_u64_to_from_le_bytes();
        }
        u64_to_le_bytes(*self)
    }
}

/// The two's complement reading of a `u64`.
pub open spec fn u64_as_i64(u: u64) -> i64 {
    u as i64
}

impl Pod for i64 {
    open spec fn spec_size() -> nat {
        8
    }

    open spec fn spec_decode(bytes: Seq<u8>) -> Option<i64> {
        Some(u64_as_i64(spec_u64_from_le_bytes(bytes)))
    }

    open spec fn spec_encode(v: i64) -> Seq<u8> {
        spec_u64_to_le_bytes(v as u64)
    }

    proof fn lemma_encode_decode(v: i64) {
        lemma_auto_spec_u64_to_from_le_bytes();
        assert(((v as u64) as i64) == v) by (bit_vector);
    }

    proof fn lemma_decode_encode(bytes: Seq<u8>) {
        lemma_auto_spec_u64_to_from_le_bytes();
        let u = spec_u64_from_le_bytes(bytes);
        assert(((u as i64) as u64) == u) by (bit_vector);
    }

    fn size() -> (n: usize) {
        8
    }

    fn decode(bytes: &[u8]) -> (r: Option<i64>) {
        let u = u64_from_le_bytes(bytes);
        Some(u as i64)
    }

    fn encode(&self) -> (b: Vec<u8>) {
        proof {
            lemma_auto_spec_u64_to_from_le_bytes();
        }
        u64_to_le_bytes(*self as u64)
    }
}

impl Pod for Pubkey {
    open spec fn spec_size() -> nat {
        32
    }

    open spec fn spec_decode(bytes: Seq<u8>) -> Option<Pubkey> {
        Some(choose|k: Pubkey| k@ == bytes)
    }

    open spec fn spec_encode(v: Pubkey) -> Seq<u8> {
        v@
    }

    proof fn lemma_encode_decode(v: Pubkey) {
        assert(exists|k: Pubkey| #[trigger] array_view(k) == v@) by {
            assert(array_view(v) == v@);
        }
        let k = choose|k: Pubkey| k@ == v@;
        assert(k =~= v);
    }

    proof fn lemma_decode_encode(bytes: Seq<u8>) {
        lemma_key_exists(bytes);
    }

    fn size() -> (n: usize) {
        32
    }

    fn decode(bytes: &[u8]) -> (r: Option<Pubkey>) {
        let k = read_key(bytes);
        proof {
            assert(exists|c: Pubkey| #[trigger] array_view(c) == bytes@) by {
                assert(array_view(k) == bytes@);
            }
            let c = choose|c: Pubkey| c@ == bytes@;
            assert(c =~= k);
        }
        Some(k)
    }

    fn encode(&self) -> (b: Vec<u8>) {
        let mut b: Vec<u8> = Vec::new();
        let mut i: usize = 0;
        while i < 32
            invariant
                i <= 32,
                b@ =~= self@.subrange(0, i as int),
            decreases 32 - i,
        {
            b.push(self[i]);
            i += 1;
        }
        b
    }
}

/// An address whose first `n` bytes are those of `bytes`.
proof fn key_with_prefix(bytes: Seq<u8>, n: int) -> (k: Pubkey)
    requires
        bytes.len() == 32,
        0 <= n <= 32,
    ensures
        k@.len() == 32,
        forall|j: int| 0 <= j < n ==> k@[j] == bytes[j],
    decreases n,
{
    if n == 0 {
        spec_array_fill_for_copy_type::<u8, 32>(0u8)
    } else {
        let k0 = key_with_prefix(bytes, n - 1);
        spec_array_update(k0, n - 1, bytes[n - 1])
    }
}

/// Every 32 bytes are the bytes of some address.
pub proof fn lemma_key_exists(bytes: Seq<u8>)
    requires
        bytes.len() == 32,
    ensures
        exists|k: Pubkey| #[trigger] array_view(k) == bytes,
{
    let k = key_with_prefix(bytes, 32);
    assert(array_view(k) =~= bytes);
}

/// Copies 32 bytes into an address.
pub fn read_key(bytes: &[u8]) -> (k: Pubkey)
    requires
        bytes@.len() == 32,
    ensures
        k@ == bytes@,
{
    let mut k: Pubkey = [0u8; 32];
    let mut i: usize = 0;
    while i < 32
        invariant
            i <= 32,
            bytes@.len() == 32,
            forall|j: int| 0 <= j < i ==> k@[j] == bytes@[j],
        decreases 32 - i,
    {
        k[i] = bytes[i];
        i += 1;
    }
    assert(k@ =~= bytes@);
    k
}

/// The value of type `T` stored at `offset` in `data`, if it fits there and
/// its bytes encode one.
pub open spec fn spec_read<T: Pod>(data: Seq<u8>, offset: int) -> Option<T> {
    if 0 <= offset && offset + T::spec_size() <= data.len() {
        T::spec_decode(data.subrange(offset, offset + T::spec_size()))
    } else {
        None
    }
}

/// `core::str::from_utf8`; std documents that it succeeds exactly when the
/// bytes are valid UTF-8, and that the string it returns holds those bytes.
#[verifier::external_body]
fn str_from_utf8<'a>(bytes: &'a [u8]) -> (r: Option<&'a str>)
    ensures
        r is Some <==> valid_utf8(bytes@),
        r matches Some(s) ==> s.spec_bytes() == bytes@,
{
    core::str::from_utf8(bytes).ok()
}

/// What reading `len` bytes at `pos` gives, and where reading stops.
pub open spec fn spec_read_bytes(data: Seq<u8>, pos: int, len: int) -> (Result<Seq<u8>, ProgramError>, int) {
    if 0 <= pos && pos + len <= data.len() {
        (Ok(data.subrange(pos, pos + len)), pos + len)
    } else {
        (Err(ProgramError::InvalidInstructionData), pos)
    }
}

/// What reading a string of `len` bytes at `pos` gives (its bytes), and where
/// reading stops; bytes that are not UTF-8 are refused after being consumed.
pub open spec fn spec_read_str(data: Seq<u8>, pos: int, len: int) -> (Result<Seq<u8>, ProgramError>, int) {
    let (res, p) = spec_read_bytes(data, pos, len);
    match res {
        Ok(b) => if valid_utf8(b) {
            (Ok(b), p)
        } else {
            (Err(ProgramError::InvalidInstructionData), p)
        },
        Err(e) => (Err(e), p),
    }
}

/// A string preceded by its length in one byte.
pub open spec fn spec_read_str_with_length(data: Seq<u8>, pos: int) -> (Result<Seq<u8>, ProgramError>, int) {
    match spec_read::<u8>(data, pos) {
        Some(n) => spec_read_str(data, pos + 1, n as int),
        None => (Err(ProgramError::InvalidInstructionData), pos),
    }
}

/// Bytes preceded by their length in one byte.
pub open spec fn spec_read_bytes_with_length(data: Seq<u8>, pos: int) -> (Result<Seq<u8>, ProgramError>, int) {
    match spec_read::<u8>(data, pos) {
        Some(n) => spec_read_bytes(data, pos + 1, n as int),
        None => (Err(ProgramError::InvalidInstructionData), pos),
    }
}

/// Whether a byte string result matches the expected result on its bytes.
pub open spec fn bytes_result_matches(r: Result<&[u8], ProgramError>, e: Result<Seq<u8>, ProgramError>) -> bool {
    match r {
        Ok(b) => e == Ok::<Seq<u8>, ProgramError>(b@),
        Err(x) => e == Err::<Seq<u8>, ProgramError>(x),
    }
}

/// Whether a string result matches the expected result on its bytes.
pub open spec fn str_result_matches(r: Result<&str, ProgramError>, e: Result<Seq<u8>, ProgramError>) -> bool {
    match r {
        Ok(s) => e == Ok::<Seq<u8>, ProgramError>(s.spec_bytes()),
        Err(x) => e == Err::<Seq<u8>, ProgramError>(x),
    }
}

/// Reads values one after another from a byte string.
pub struct ByteReader<'info> {
    data: &'info [u8],
    offset: usize,
}

impl<'info> ByteReader<'info> {
    pub closed spec fn bytes(&self) -> Seq<u8> {
        self.data@
    }

    pub closed spec fn pos(&self) -> int {
        self.offset as int
    }

    pub fn new(data: &'info [u8]) -> (r: Self)
        ensures
            r.bytes() == data@,
            r.pos() == 0,
    {
        Self { data, offset: 0 }
    }

    pub fn new_with_offset(data: &'info [u8], offset: usize) -> (r: Self)
        ensures
            r.bytes() == data@,
            r.pos() == offset,
    {
        Self { data, offset }
    }

    pub fn read<T: Pod>(&mut self) -> (r: Result<T, ProgramError>)
        ensures
            final(self).bytes() == old(self).bytes(),
            r == spec_read::<T>(old(self).bytes(), old(self).pos()).ok_or(
                ProgramError::InvalidInstructionData,
            ),
            r is Ok ==> final(self).pos() == old(self).pos() + T::spec_size(),
            r is Err ==> final(self).pos() == old(self).pos(),
    {
        let size = T::size();
        let len = self.data.len();
        if size > len || self.offset > len - size {
            return Err(ProgramError::InvalidInstructionData);
        }
        let d: &'info [u8] = self.data;
        match T::decode(&d[self.offset..self.offset + size]) {
            Some(v) => {
                self.offset = self.offset + size;
                Ok(v)
            },
            None => Err(ProgramError::InvalidInstructionData),
        }
    }

    pub fn read_str(&mut self, len: usize) -> (r: Result<&'info str, ProgramError>)
        ensures
            final(self).bytes() == old(self).bytes(),
            str_result_matches(r, spec_read_str(old(self).bytes(), old(self).pos(), len as int).0),
            final(self).pos() == spec_read_str(old(self).bytes(), old(self).pos(), len as int).1,
    {
        let str_bytes = self.read_bytes(len)?;
        match str_from_utf8(str_bytes) {
            Some(s) => Ok(s),
            None => Err(ProgramError::InvalidInstructionData),
        }
    }

    pub fn read_bytes(&mut self, len: usize) -> (r: Result<&'info [u8], ProgramError>)
        ensures
            final(self).bytes() == old(self).bytes(),
            bytes_result_matches(r, spec_read_bytes(old(self).bytes(), old(self).pos(), len as int).0),
            final(self).pos() == spec_read_bytes(old(self).bytes(), old(self).pos(), len as int).1,
    {
        let data_len = self.data.len();
        if len > data_len || self.offset > data_len - len {
            return Err(ProgramError::InvalidInstructionData);
        }
        let d: &'info [u8] = self.data;
        let bytes = &d[self.offset..self.offset + len];
        self.offset = self.offset + len;
        Ok(bytes)
    }

    pub fn read_str_with_length(&mut self) -> (r: Result<&'info str, ProgramError>)
        ensures
            final(self).bytes() == old(self).bytes(),
            str_result_matches(r, spec_read_str_with_length(old(self).bytes(), old(self).pos()).0),
            final(self).pos() == spec_read_str_with_length(old(self).bytes(), old(self).pos()).1,
    {
        let len: u8 = self.read()?;
        self.read_str(len as usize)
    }

    pub fn read_bytes_with_length(&mut self) -> (r: Result<&'info [u8], ProgramError>)
        ensures
            final(self).bytes() == old(self).bytes(),
            bytes_result_matches(r, spec_read_bytes_with_length(old(self).bytes(), old(self).pos()).0),
            final(self).pos() == spec_read_bytes_with_length(old(self).bytes(), old(self).pos()).1,
    {
        let len: u8 = self.read()?;
        self.read_bytes(len as usize)
    }

    pub fn read_with_offset<T: Pod>(data: &'info [u8], offset: usize) -> (r: Result<T, ProgramError>)
        ensures
            r == spec_read::<T>(data@, offset as int).ok_or(ProgramError::InvalidInstructionData),
    {
        let size = T::size();
        let len = data.len();
        if size > len || offset > len - size {
            return Err(ProgramError::InvalidInstructionData);
        }
        match T::decode(&data[offset..offset + size]) {
            Some(v) => Ok(v),
            None => Err(ProgramError::InvalidInstructionData),
        }
    }

    pub fn read_optional_with_offset<T: Pod>(data: &'info [u8], offset: usize) -> (r: Result<
        Option<T>,
        ProgramError,
    >)
        ensures
            r == match spec_read::<u8>(data@, offset as int) {
                Some(0u8) => Ok(None),
                Some(1u8) => match spec_read::<T>(data@, offset + 1) {
                    Some(v) => Ok(Some(v)),
                    None => Err(ProgramError::InvalidInstructionData),
                },
                _ => Err(ProgramError::InvalidInstructionData),
            },
    {
        let len = data.len();
        let is_some: u8 = Self::read_with_offset(data, offset)?;
        assert(offset + 1 <= len);
        if is_some == 0 {
            Ok(None)
        } else if is_some == 1 {
            Ok(Some(Self::read_with_offset(data, offset + 1)?))
        } else {
            Err(ProgramError::InvalidInstructionData)
        }
    }

    pub fn remaining_bytes(&self) -> (n: usize)
        requires
            self.pos() <= self.bytes().len(),
        ensures
            n == self.bytes().len() - self.pos(),
    {
        self.data.len() - self.offset
    }
}

/// What writing `b` at `pos` leaves in `data`, and where writing stops;
/// nothing is written when `b` does not fit.
pub open spec fn spec_write_bytes(data: Seq<u8>, pos: int, b: Seq<u8>) -> (Result<(), ProgramError>, Seq<u8>, int) {
    if 0 <= pos && pos + b.len() <= data.len() {
        (Ok(()), splice(data, pos, b), pos + b.len())
    } else {
        (Err(ProgramError::InvalidInstructionData), data, pos)
    }
}

/// Writing `b` preceded by its length in one byte.
pub open spec fn spec_write_bytes_with_length(data: Seq<u8>, pos: int, b: Seq<u8>) -> (Result<(), ProgramError>, Seq<u8>, int) {
    if b.len() > 255 {
        (Err(ProgramError::ArithmeticOverflow), data, pos)
    } else {
        let (r1, d1, p1) = spec_write_bytes(data, pos, seq![b.len() as u8]);
        match r1 {
            Ok(_) => spec_write_bytes(d1, p1, b),
            Err(e) => (Err(e), d1, p1),
        }
    }
}

/// Writes values one after another into a byte string.
pub struct ByteWriter<'info> {
    pub data: &'info mut [u8],
    pub offset: usize,
}

impl<'info> ByteWriter<'info> {
    pub open spec fn bytes(&self) -> Seq<u8> {
        self.data@
    }

    pub open spec fn pos(&self) -> int {
        self.offset as int
    }

    pub fn new(data: &'info mut [u8]) -> (w: Self)
        ensures
            w.bytes() == old(data)@,
            w.pos() == 0,
            final(w.data)@ == final(data)@,
    {
        Self { data, offset: 0 }
    }

    pub fn new_with_offset(data: &'info mut [u8], offset: usize) -> (w: Self)
        ensures
            w.bytes() == old(data)@,
            w.pos() == offset,
            final(w.data)@ == final(data)@,
    {
        Self { data, offset }
    }

    pub fn write<T: Pod>(&mut self, value: T) -> (r: Result<(), ProgramError>)
        ensures
            final(final(self).data)@ == final(old(self).data)@,
            (r, final(self).bytes(), final(self).pos()) == spec_write_bytes(
                old(self).bytes(),
                old(self).pos(),
                T::spec_encode(value),
            ),
    {
        proof {
            T::lemma_encode_decode(value);
        }
        let size = T::size();
        let len = self.data.len();
        if size > len || self.offset > len - size {
            return Err(ProgramError::InvalidInstructionData);
        }
        let bytes = value.encode();
        copy_bytes(self.data, self.offset, bytes.as_slice());
        self.offset = self.offset + size;
        Ok(())
    }

    pub fn write_str(&mut self, str: &str) -> (r: Result<(), ProgramError>)
        ensures
            final(final(self).data)@ == final(old(self).data)@,
            (r, final(self).bytes(), final(self).pos()) == spec_write_bytes(
                old(self).bytes(),
                old(self).pos(),
                str.spec_bytes(),
            ),
    {
        self.write_bytes(str.as_bytes())
    }

    pub fn write_bytes(&mut self, bytes: &[u8]) -> (r: Result<(), ProgramError>)
        ensures
            final(final(self).data)@ == final(old(self).data)@,
            (r, final(self).bytes(), final(self).pos()) == spec_write_bytes(
                old(self).bytes(),
                old(self).pos(),
                bytes@,
            ),
    {
        let len = self.data.len();
        if bytes.len() > len || self.offset > len - bytes.len() {
            return Err(ProgramError::InvalidInstructionData);
        }
        copy_bytes(self.data, self.offset, bytes);
        self.offset = self.offset + bytes.len();
        Ok(())
    }

    pub fn write_str_with_length(&mut self, str: &str) -> (r: Result<(), ProgramError>)
        ensures
            final(final(self).data)@ == final(old(self).data)@,
            (r, final(self).bytes(), final(self).pos()) == spec_write_bytes_with_length(
                old(self).bytes(),
                old(self).pos(),
                str.spec_bytes(),
            ),
    {
        self.write_bytes_with_length(str.as_bytes())
    }

    pub fn write_bytes_with_length(&mut self, bytes: &[u8]) -> (r: Result<(), ProgramError>)
        ensures
            final(final(self).data)@ == final(old(self).data)@,
            (r, final(self).bytes(), final(self).pos()) == spec_write_bytes_with_length(
                old(self).bytes(),
                old(self).pos(),
                bytes@,
            ),
    {
        if bytes.len() > 255 {
            return Err(ProgramError::ArithmeticOverflow);
        }
        let len: u8 = bytes.len() as u8;
        assert(<u8 as Pod>::spec_encode(len) == seq![bytes@.len() as u8]);
        self.write(len)?;
        self.write_bytes(bytes)
    }

    pub fn write_with_offset<T: Pod>(data: &mut [u8], offset: usize, value: T) -> (r: Result<
        (),
        ProgramError,
    >)
        ensures
            (r, final(data)@) == ({
                let (res, d, p) = spec_write_bytes(old(data)@, offset as int, T::spec_encode(value));
                (res, d)
            }),
    {
        proof {
            T::lemma_encode_decode(value);
        }
        let size = T::size();
        let len = data.len();
        if size > len || offset > len - size {
            return Err(ProgramError::InvalidInstructionData);
        }
        let bytes = value.encode();
        copy_bytes(data, offset, bytes.as_slice());
        Ok(())
    }

    pub fn remaining_bytes(&self) -> (n: usize)
        requires
            self.pos() <= self.bytes().len(),
        ensures
            n == self.bytes().len() - self.pos(),
    {
        self.data.len() - self.offset
    }
}

/// Copies into `destination` as many bytes of `source` as fit, from the start.
pub fn write_bytes(destination: &mut [u8], source: &[u8])
    ensures
        final(destination)@.len() == old(destination)@.len(),
        forall|i: int|
            0 <= i < old(destination)@.len() ==> #[trigger] final(destination)@[i] == if i
                < source@.len() {
                source@[i]
            } else {
                old(destination)@[i]
            },
{
    let ghost d0 = destination@;
    let n = destination.len();
    let m = source.len();
    let mut i: usize = 0;
    while i < n && i < m
        invariant
            n == d0.len(),
            m == source@.len(),
            destination@.len() == n,
            i <= n,
            i <= m,
            forall|j: int| 0 <= j < i ==> destination@[j] == source@[j],
            forall|j: int| i <= j < n ==> destination@[j] == d0[j],
        decreases n - i,
    {
        destination[i] = source[i];
        i += 1;
    }
    assert(forall|j: int|
        0 <= j < n ==> destination@[j] == if j < m {
            source@[j]
        } else {
            d0[j]
        });
}

/// `data` grown with zero bytes or cut to `new_size` bytes.
pub open spec fn resized(data: Seq<u8>, new_size: int) -> Seq<u8> {
    if new_size <= data.len() {
        data.subrange(0, new_size)
    } else {
        data + Seq::new((new_size - data.len()) as nat, |i: int| 0u8)
    }
}

/// The top-up `payer` owes, and the balances of the target and of `payer`
/// afterwards, when an account holding `target` lamports is resized from
/// `old_len` to `new_size` bytes whose rent-exempt minimum is
/// `new_minimum_balance`: a top-up when the balance falls short, the excess
/// back to `payer` (saturating) when it is over.
pub open spec fn resize_balances(
    target: u64,
    payer: u64,
    old_len: int,
    new_size: int,
    new_minimum_balance: u64,
) -> (Option<u64>, u64, u64) {
    if new_size == old_len {
        (None, target, payer)
    } else if new_minimum_balance > target {
        (Some((new_minimum_balance - target) as u64), target, payer)
    } else {
        let excess = target - new_minimum_balance;
        (
            None,
            new_minimum_balance,
            if payer + excess > u64::MAX {
                u64::MAX
            } else {
                (payer + excess) as u64
            },
        )
    }
}

/// Resizes `target_account` to `new_size` bytes and settles its balance
/// against `new_minimum_balance`, the rent-exempt minimum of the new size.
///
/// When the account holds more than that minimum, the excess goes back to
/// `payer` at once. When it holds less, the result is the number of lamports
/// that `payer` has to send to it through the system program, a transfer that
/// the caller performs. Bytes added at the end read as zero here; the caller
/// overwrites them.
pub fn resize_account(
    target_account: &mut AccountInfo,
    payer: &mut AccountInfo,
    new_size: usize,
    zero_out: bool,
    new_minimum_balance: u64,
) -> (top_up: Option<u64>)
    ensures
        final(target_account).key == old(target_account).key,
        final(target_account).owner == old(target_account).owner,
        final(target_account).is_signer == old(target_account).is_signer,
        final(payer).key == old(payer).key,
        final(payer).owner == old(payer).owner,
        final(payer).is_signer == old(payer).is_signer,
        final(payer).data@ == old(payer).data@,
        final(target_account).data@ == if new_size == old(target_account).data@.len() {
            old(target_account).data@
        } else {
            resized(old(target_account).data@, new_size as int)
        },
        (top_up, final(target_account).lamports, final(payer).lamports) == resize_balances(
            old(target_account).lamports,
            old(payer).lamports,
            old(target_account).data@.len() as int,
            new_size as int,
            new_minimum_balance,
        ),
{
    if new_size == target_account.data.len() {
        return None;
    }
    let mut top_up = None;
    if new_minimum_balance > target_account.lamports {
        top_up = Some(new_minimum_balance - target_account.lamports);
    } else if new_minimum_balance < target_account.lamports {
        let lamports_diff = target_account.lamports - new_minimum_balance;
        payer.lamports = payer.lamports.saturating_add(lamports_diff);
        target_account.lamports = target_account.lamports - lamports_diff;
    }
    let ghost d0 = target_account.data@;
    if new_size <= target_account.data.len() {
        target_account.data.truncate(new_size);
    } else {
        target_account.data.resize(new_size, 0u8);
    }
    assert(target_account.data@ =~= resized(d0, new_size as int));
    top_up
}

} // verus!
