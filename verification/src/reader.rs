//! A bounds-checked cursor over a byte slice.
//!
//! Every read either succeeds and advances the cursor past what it read, or
//! fails and leaves the cursor where it was. Integers are little-endian,
//! strings carry a four-byte little-endian length in front of their UTF-8
//! bytes, and keys are thirty-two raw bytes.

use vstd::arithmetic::div_mod::lemma_div_denominator;
use vstd::prelude::*;
use vstd::slice::*;
use vstd::utf8::*;

verus! {

/// Number of bytes in a public key.
pub const KEY_LEN: usize = 32;

/// The value of the four bytes of `bytes` that start at `at`, least
/// significant byte first.
pub open spec fn spec_u32_le(bytes: Seq<u8>, at: int) -> int {
    bytes[at] + bytes[at + 1] * 0x100 + bytes[at + 2] * 0x1_0000 + bytes[at + 3] * 0x100_0000
}

/// The value of the eight bytes of `bytes` that start at `at`, least
/// significant byte first.
pub open spec fn spec_u64_le(bytes: Seq<u8>, at: int) -> int {
    spec_u32_le(bytes, at) + spec_u32_le(bytes, at + 4) * 0x1_0000_0000
}

/// The four little-endian bytes of `n`.
pub open spec fn u32_le_bytes(n: int) -> Seq<u8> {
    seq![
        (n % 0x100) as u8,
        ((n / 0x100) % 0x100) as u8,
        ((n / 0x1_0000) % 0x100) as u8,
        ((n / 0x100_0000) % 0x100) as u8,
    ]
}

/// The eight little-endian bytes of `n`.
pub open spec fn u64_le_bytes(n: int) -> Seq<u8> {
    seq![
        (n % 0x100) as u8,
        ((n / 0x100) % 0x100) as u8,
        ((n / 0x1_0000) % 0x100) as u8,
        ((n / 0x100_0000) % 0x100) as u8,
        ((n / 0x1_0000_0000) % 0x100) as u8,
        ((n / 0x100_0000_0000) % 0x100) as u8,
        ((n / 0x1_0000_0000_0000) % 0x100) as u8,
        ((n / 0x100_0000_0000_0000) % 0x100) as u8,
    ]
}

/// The four little-endian bytes of a number below 2^32 give the number back.
pub proof fn lemma_u32_le_bytes_give_back(n: int)
    requires
        0 <= n <= u32::MAX,
    ensures
        u32_le_bytes(n).len() == 4,
        spec_u32_le(u32_le_bytes(n), 0) == n,
{
    let q1 = n / 0x100;
    let q2 = n / 0x1_0000;
    let q3 = n / 0x100_0000;
    assert(q2 == q1 / 0x100) by {
        lemma_div_denominator(n, 0x100, 0x100);
    }
    assert(q3 == q2 / 0x100) by {
        lemma_div_denominator(n, 0x1_0000, 0x100);
    }
    assert(q3 < 0x100);
    let bytes = u32_le_bytes(n);
    assert(bytes[0] == n % 0x100 && bytes[1] == q1 % 0x100 && bytes[2] == q2 % 0x100 && bytes[3]
        == q3 % 0x100);
}

/// The eight little-endian bytes of a number below 2^64 give the number
/// back.
#[verifier::rlimit(40)]
pub proof fn lemma_u64_le_bytes_give_back(n: int)
    requires
        0 <= n <= u64::MAX,
    ensures
        u64_le_bytes(n).len() == 8,
        spec_u64_le(u64_le_bytes(n), 0) == n,
{
    let q1 = n / 0x100;
    let q2 = n / 0x1_0000;
    let q3 = n / 0x100_0000;
    let q4 = n / 0x1_0000_0000;
    let q5 = n / 0x100_0000_0000;
    let q6 = n / 0x1_0000_0000_0000;
    let q7 = n / 0x100_0000_0000_0000;
    assert(q2 == q1 / 0x100) by {
        lemma_div_denominator(n, 0x100, 0x100);
    }
    assert(q3 == q2 / 0x100) by {
        lemma_div_denominator(n, 0x1_0000, 0x100);
    }
    assert(q4 == q3 / 0x100) by {
        lemma_div_denominator(n, 0x100_0000, 0x100);
    }
    assert(q5 == q4 / 0x100) by {
        lemma_div_denominator(n, 0x1_0000_0000, 0x100);
    }
    assert(q6 == q5 / 0x100) by {
        lemma_div_denominator(n, 0x100_0000_0000, 0x100);
    }
    assert(q7 == q6 / 0x100) by {
        lemma_div_denominator(n, 0x1_0000_0000_0000, 0x100);
    }
    assert(q7 < 0x100);
    let bytes = u64_le_bytes(n);
    assert(bytes[0] == n % 0x100 && bytes[1] == q1 % 0x100 && bytes[2] == q2 % 0x100 && bytes[3]
        == q3 % 0x100);
    assert(bytes[4] == q4 % 0x100 && bytes[5] == q5 % 0x100 && bytes[6] == q6 % 0x100 && bytes[7]
        == q7 % 0x100);
    assert(spec_u32_le(bytes, 0) == n - q4 * 0x1_0000_0000);
    assert(spec_u32_le(bytes, 4) == q4);
}

/// Why a length-prefixed string could not be read.
#[derive(Clone, Copy, Debug, PartialEq, Eq, Structural)]
pub enum StringFault {
    /// Fewer than four bytes were left for the length.
    LengthTruncated,
    /// The length was read, but fewer bytes than it announces were left.
    BodyTruncated,
    /// The announced bytes are not UTF-8.
    InvalidUtf8,
}

/// What reading a length-prefixed string at `at` yields: the text and the
/// position after it, or the reason for the failure.
pub open spec fn spec_string_at(bytes: Seq<u8>, at: int) -> Result<(Seq<char>, int), StringFault> {
    if at + 4 > bytes.len() {
        Err(StringFault::LengthTruncated)
    } else {
        let end = at + 4 + spec_u32_le(bytes, at);
        if end > bytes.len() {
            Err(StringFault::BodyTruncated)
        } else if !valid_utf8(bytes.subrange(at + 4, end)) {
            Err(StringFault::InvalidUtf8)
        } else {
            Ok((decode_utf8(bytes.subrange(at + 4, end)), end))
        }
    }
}

/// The error of `String::from_utf8`, of which nothing is read.
#[verifier::external_type_specification]
#[verifier::external_body]
pub struct ExFromUtf8Error(std::string::FromUtf8Error);

/// `String::from_utf8` succeeds exactly on well-formed UTF-8, and the string
/// it returns then holds the characters that the bytes encode.
pub assume_specification[ String::from_utf8 ](vec: Vec<u8>) -> (r: Result<
    String,
    std::string::FromUtf8Error,
>)
    ensures
        r is Ok <==> valid_utf8(vec@),
        r is Ok ==> r->Ok_0@ == decode_utf8(vec@),
;

/// A read position inside a borrowed byte slice.
pub struct BinaryReader<'a> {
    data: &'a [u8],
    offset: usize,
}

impl<'a> BinaryReader<'a> {
    #[verifier::type_invariant]
    spec fn in_bounds(self) -> bool {
        self.offset <= self.data@.len()
    }

    /// The bytes the reader was made over.
    pub closed spec fn bytes(&self) -> Seq<u8> {
        self.data@
    }

    /// How many bytes have been read so far.
    pub closed spec fn cursor(&self) -> int {
        self.offset as int
    }

    /// A reader at the start of `data`.
    pub fn new(data: &'a [u8]) -> (r: Self)
        ensures
            r.bytes() == data@,
            r.cursor() == 0,
    {
        BinaryReader { data, offset: 0 }
    }

    /// A reader over `data` that starts at `offset`, if `offset` lies inside
    /// the slice or at its end.
    pub fn starting_at(data: &'a [u8], offset: usize) -> (r: Option<Self>)
        ensures
            r is Some <==> offset <= data@.len(),
            r is Some ==> r->Some_0.bytes() == data@ && r->Some_0.cursor() == offset,
    {
        if offset <= data.len() {
            Some(BinaryReader { data, offset })
        } else {
            None
        }
    }

    /// The current position.
    pub fn position(&self) -> (r: usize)
        ensures
            r == self.cursor(),
            r <= self.bytes().len(),
    {
        proof {
            use_type_invariant(self);
        }
        self.offset
    }

    /// The number of bytes that have not been read yet.
    pub fn remaining(&self) -> (r: usize)
        ensures
            r == self.bytes().len() - self.cursor(),
    {
        proof {
            use_type_invariant(self);
        }
        self.data.len() - self.offset
    }

    /// Reads a little-endian `u32`.
    pub fn read_u32(&mut self) -> (r: Option<u32>)
        ensures
            final(self).bytes() == old(self).bytes(),
            r is Some <==> old(self).cursor() + 4 <= old(self).bytes().len(),
            r is Some ==> r->Some_0 == spec_u32_le(old(self).bytes(), old(self).cursor())
                && final(self).cursor() == old(self).cursor() + 4,
            r is None ==> final(self).cursor() == old(self).cursor(),
    {
        proof {
            use_type_invariant(&*self);
        }
        if self.data.len() - self.offset < 4 {
            return None;
        }
        let at: usize = self.offset;
        let b0: u32 = self.data[at] as u32;
        let b1: u32 = self.data[at + 1] as u32;
        let b2: u32 = self.data[at + 2] as u32;
        let b3: u32 = self.data[at + 3] as u32;
        self.offset = at + 4;
        Some(b0 + b1 * 0x100 + b2 * 0x1_0000 + b3 * 0x100_0000)
    }

    /// Reads a little-endian `u64`.
    pub fn read_u64(&mut self) -> (r: Option<u64>)
        ensures
            final(self).bytes() == old(self).bytes(),
            r is Some <==> old(self).cursor() + 8 <= old(self).bytes().len(),
            r is Some ==> r->Some_0 == spec_u64_le(old(self).bytes(), old(self).cursor())
                && final(self).cursor() == old(self).cursor() + 8,
            r is None ==> final(self).cursor() == old(self).cursor(),
    {
        proof {
            use_type_invariant(&*self);
        }
        if self.data.len() - self.offset < 8 {
            return None;
        }
        let low: Option<u32> = self.read_u32();
        let high: Option<u32> = self.read_u32();
        match (low, high) {
            (Some(l), Some(h)) => Some(l as u64 + (h as u64) * 0x1_0000_0000),
            _ => None,
        }
    }

    /// Reads a thirty-two byte key.
    pub fn read_key(&mut self) -> (r: Option<[u8; 32]>)
        ensures
            final(self).bytes() == old(self).bytes(),
            r is Some <==> old(self).cursor() + 32 <= old(self).bytes().len(),
            r is Some ==> r->Some_0@ == old(self).bytes().subrange(
                old(self).cursor(),
                old(self).cursor() + 32,
            ) && final(self).cursor() == old(self).cursor() + 32,
            r is None ==> final(self).cursor() == old(self).cursor(),
    {
        proof {
            use_type_invariant(&*self);
        }
        if self.data.len() - self.offset < KEY_LEN {
            return None;
        }
        let key = key_at(self.data, self.offset);
        self.offset = self.offset + KEY_LEN;
        Some(key)
    }

    /// Reads a string: a little-endian `u32` length, then that many bytes of
    /// UTF-8.
    pub fn read_string(&mut self) -> (r: Result<String, StringFault>)
        ensures
            final(self).bytes() == old(self).bytes(),
            match r {
                Ok(text) => spec_string_at(old(self).bytes(), old(self).cursor()) == Ok::<
                    (Seq<char>, int),
                    StringFault,
                >((text@, final(self).cursor())),
                Err(fault) => spec_string_at(old(self).bytes(), old(self).cursor()) == Err::<
                    (Seq<char>, int),
                    StringFault,
                >(fault) && final(self).cursor() == old(self).cursor(),
            },
    {
        proof {
            use_type_invariant(&*self);
        }
        let start: usize = self.offset;
        let announced: u32 = match self.read_u32() {
            Some(n) => n,
            None => {
                return Err(StringFault::LengthTruncated);
            },
        };
        let body_start: usize = self.offset;
        let left: usize = self.data.len() - body_start;
        if (left as u64) < announced as u64 {
            self.offset = start;
            return Err(StringFault::BodyTruncated);
        }
        let body_end: usize = body_start + announced as usize;
        let body = slice_to_vec(slice_subrange(self.data, body_start, body_end));
        match String::from_utf8(body) {
            Ok(text) => {
                self.offset = body_end;
                Ok(text)
            },
            Err(_) => {
                self.offset = start;
                Err(StringFault::InvalidUtf8)
            },
        }
    }
}

/// Copies the thirty-two bytes of `data` that start at `at`.
pub(crate) fn key_at(data: &[u8], at: usize) -> (key: [u8; 32])
    requires
        at + 32 <= data@.len(),
    ensures
        key@ == data@.subrange(at as int, at + 32),
{
    let mut key: [u8; 32] = [0u8; 32];
    let mut i: usize = 0;
    while i < KEY_LEN
        invariant
            i <= 32,
            at + 32 <= data.len(),
            forall|j: int| 0 <= j < i ==> key@[j] == data@[at + j],
        decreases 32 - i,
    {
        key[i] = data[at + i];
        i = i + 1;
    }
    assert(key@ =~= data@.subrange(at as int, at + 32));
    key
}

} // verus!
