//! Decoding of instruction payloads into typed events.
//!
//! A payload starts with an eight-byte discriminator. Two discriminators are
//! matched on all eight bytes; two older layouts are recognised by their first
//! byte alone and are tried only after the exact matches.

use crate::reader::{
    key_at, lemma_u32_le_bytes_give_back, lemma_u64_le_bytes_give_back, spec_string_at,
    spec_u32_le, spec_u64_le, u32_le_bytes, u64_le_bytes, BinaryReader, StringFault, KEY_LEN,
};
use borsh::BorshDeserialize;
use vstd::prelude::*;
use vstd::slice::*;
use vstd::utf8::*;

verus! {

/// Discriminator of the instruction that creates an asset.
pub const CREATE_EVENT_DISCRIMINATOR: [u8; 8] = [0x18, 0x1e, 0xc8, 0x28, 0x05, 0x1c, 0x07, 0x77];

/// Discriminator of the instruction that buys an asset.
pub const BUY_EVENT_DISCRIMINATOR: [u8; 8] = [0x66, 0x06, 0x3d, 0x12, 0x01, 0xda, 0xeb, 0xea];

/// First byte of the older layout of an asset creation.
pub const LEGACY_CREATE_MARKER: u8 = 24;

/// First byte of the older layout of a purchase.
pub const LEGACY_BUY_MARKER: u8 = 102;

/// Length of the discriminator in front of every payload.
pub const DISCRIMINATOR_LEN: usize = 8;

/// The metadata of a newly created asset and the key of its creator.
#[derive(Clone, Debug, PartialEq, Eq)]
pub struct CreateEventInstruction {
    pub name: String,
    pub symbol: String,
    pub uri: String,
    pub user: [u8; 32],
}

/// A purchase: the amount of the asset bought and the most the buyer pays.
#[derive(Clone, Copy, Debug, PartialEq, Eq, Structural)]
pub struct BuyInstruction {
    pub amount: u64,
    pub max_sol_cost: u64,
}

/// A decoded instruction.
#[derive(Clone, Debug, PartialEq, Eq)]
pub enum DecodedInstruction {
    Created(CreateEventInstruction),
    Traded(BuyInstruction),
}

/// The part of a payload that ran out of data.
#[derive(Clone, Copy, Debug, PartialEq, Eq, Structural)]
pub enum Field {
    NameLength,
    Name,
    SymbolLength,
    Symbol,
    UriLength,
    Uri,
    User,
    BuyArguments,
}

/// Why a payload could not be decoded.
#[derive(Clone, Copy, Debug, PartialEq, Eq, Structural)]
pub enum DecodeError {
    /// The payload is shorter than a discriminator.
    TooShort,
    /// The payload ended inside the named field.
    InsufficientData(Field),
    /// A string field does not hold UTF-8.
    InvalidUtf8,
    /// The discriminator belongs to no known instruction.
    UnknownInstruction,
}

/// The mathematical content of a `CreateEventInstruction`.
pub struct CreateEventView {
    pub name: Seq<char>,
    pub symbol: Seq<char>,
    pub uri: Seq<char>,
    pub user: Seq<u8>,
}

/// The mathematical content of a `DecodedInstruction`.
pub enum InstructionView {
    Created(CreateEventView),
    Traded(BuyInstruction),
}

impl View for CreateEventInstruction {
    type V = CreateEventView;

    open spec fn view(&self) -> CreateEventView {
        CreateEventView {
            name: self.name@,
            symbol: self.symbol@,
            uri: self.uri@,
            user: self.user@,
        }
    }
}

impl View for DecodedInstruction {
    type V = InstructionView;

    open spec fn view(&self) -> InstructionView {
        match self {
            DecodedInstruction::Created(event) => InstructionView::Created(event@),
            DecodedInstruction::Traded(trade) => InstructionView::Traded(*trade),
        }
    }
}

/// The three strings of a creation payload.
pub struct CreateText {
    pub name: Seq<char>,
    pub symbol: Seq<char>,
    pub uri: Seq<char>,
}

/// The decoding error that a string fault stands for, given the names of the
/// string's length and of its body.
pub open spec fn fault_error(fault: StringFault, length: Field, body: Field) -> DecodeError {
    match fault {
        StringFault::LengthTruncated => DecodeError::InsufficientData(length),
        StringFault::BodyTruncated => DecodeError::InsufficientData(body),
        StringFault::InvalidUtf8 => DecodeError::InvalidUtf8,
    }
}

/// Name, symbol and uri read one after the other from the start of `rest`,
/// with the position after the uri; or the error of the first field that
/// cannot be read.
pub open spec fn spec_three_strings(rest: Seq<u8>) -> Result<(CreateText, int), DecodeError> {
    match spec_string_at(rest, 0) {
        Err(fault) => Err(fault_error(fault, Field::NameLength, Field::Name)),
        Ok((name, after_name)) => match spec_string_at(rest, after_name) {
            Err(fault) => Err(fault_error(fault, Field::SymbolLength, Field::Symbol)),
            Ok((symbol, after_symbol)) => match spec_string_at(rest, after_symbol) {
                Err(fault) => Err(fault_error(fault, Field::UriLength, Field::Uri)),
                Ok((uri, after_uri)) => Ok((CreateText { name, symbol, uri }, after_uri)),
            },
        },
    }
}

/// Thirty-two zero bytes: the key that stands for "no creator given".
pub open spec fn zero_key() -> Seq<u8> {
    Seq::new(32, |i: int| 0u8)
}

/// The key in the last thirty-two bytes of `rest`, or the zero key where
/// `rest` is shorter than that.
pub open spec fn trailing_key(rest: Seq<u8>) -> Seq<u8> {
    if rest.len() >= 32 {
        rest.subrange(rest.len() - 32, rest.len() as int)
    } else {
        zero_key()
    }
}

/// Decoding of what follows the exact creation discriminator.
///
/// Where the three strings fill `rest` to its end, the creator is the key in
/// the last thirty-two bytes of `rest`. Otherwise the creator's key has to
/// follow the uri.
pub open spec fn spec_decode_create(rest: Seq<u8>) -> Result<InstructionView, DecodeError> {
    match spec_three_strings(rest) {
        Err(e) => Err(e),
        Ok((text, end)) => if end == rest.len() {
            Ok(
                InstructionView::Created(
                    CreateEventView {
                        name: text.name,
                        symbol: text.symbol,
                        uri: text.uri,
                        user: trailing_key(rest),
                    },
                ),
            )
        } else if end + 32 <= rest.len() {
            Ok(
                InstructionView::Created(
                    CreateEventView {
                        name: text.name,
                        symbol: text.symbol,
                        uri: text.uri,
                        user: rest.subrange(end, end + 32),
                    },
                ),
            )
        } else {
            Err(DecodeError::InsufficientData(Field::User))
        },
    }
}

/// Decoding of what follows the first byte of the older creation layout: the
/// three strings, and the zero key in the creator's place.
pub open spec fn spec_decode_legacy_create(rest: Seq<u8>) -> Result<InstructionView, DecodeError> {
    match spec_three_strings(rest) {
        Err(e) => Err(e),
        Ok((text, end)) => Ok(
            InstructionView::Created(
                CreateEventView {
                    name: text.name,
                    symbol: text.symbol,
                    uri: text.uri,
                    user: zero_key(),
                },
            ),
        ),
    }
}

/// Decoding of what follows a purchase discriminator: two little-endian
/// `u64` at fixed places.
pub open spec fn spec_decode_buy(rest: Seq<u8>) -> Result<InstructionView, DecodeError> {
    if rest.len() < 16 {
        Err(DecodeError::InsufficientData(Field::BuyArguments))
    } else {
        Ok(
            InstructionView::Traded(
                BuyInstruction {
                    amount: spec_u64_le(rest, 0) as u64,
                    max_sol_cost: spec_u64_le(rest, 8) as u64,
                },
            ),
        )
    }
}

/// What a payload decodes to, given its first eight bytes and the rest: the
/// exact discriminators are matched first, the first bytes of the older
/// layouts after them.
pub open spec fn spec_dispatch(head: Seq<u8>, rest: Seq<u8>) -> Result<InstructionView, DecodeError> {
    if head == CREATE_EVENT_DISCRIMINATOR@ {
        spec_decode_create(rest)
    } else if head == BUY_EVENT_DISCRIMINATOR@ {
        spec_decode_buy(rest)
    } else if head[0] == LEGACY_CREATE_MARKER {
        spec_decode_legacy_create(rest)
    } else if head[0] == LEGACY_BUY_MARKER {
        spec_decode_buy(rest)
    } else {
        Err(DecodeError::UnknownInstruction)
    }
}

/// What a payload decodes to.
pub open spec fn spec_decode(data: Seq<u8>) -> Result<InstructionView, DecodeError> {
    if data.len() < 8 {
        Err(DecodeError::TooShort)
    } else {
        spec_dispatch(data.subrange(0, 8), data.subrange(8, data.len() as int))
    }
}

/// Calls borsh's `try_from_slice` for a tuple of three strings.
///
/// borsh reads each string as a little-endian `u32` length followed by that
/// many bytes of UTF-8, one string after the other, and refuses input that
/// ends early, that is not UTF-8, or that has bytes left after the third
/// string. The contract says exactly that, in the terms of
/// `spec_three_strings`.
#[verifier::external_body]
fn structured_create_arguments(rest: &[u8]) -> (r: Option<(String, String, String)>)
    ensures
        match r {
            Some(args) => spec_three_strings(rest@) == Ok::<(CreateText, int), DecodeError>(
                (CreateText { name: args.0@, symbol: args.1@, uri: args.2@ }, rest@.len() as int),
            ),
            None => match spec_three_strings(rest@) {
                Ok((text, end)) => end != rest@.len(),
                Err(e) => true,
            },
        },
{
    <(String, String, String)>::try_from_slice(rest).ok()
}

/// Calls borsh's `try_from_slice` for a pair of `u64`.
///
/// borsh reads each number from eight little-endian bytes and refuses input
/// of any length but sixteen.
#[verifier::external_body]
fn structured_buy_arguments(rest: &[u8]) -> (r: Option<(u64, u64)>)
    ensures
        r is Some <==> rest@.len() == 16,
        r is Some ==> r->Some_0.0 == spec_u64_le(rest@, 0) && r->Some_0.1 == spec_u64_le(rest@, 8),
{
    <(u64, u64)>::try_from_slice(rest).ok()
}

/// Maps a string fault to the decoding error of the field it occurred in.
fn fault_to_error(fault: StringFault, length: Field, body: Field) -> (e: DecodeError)
    ensures
        e == fault_error(fault, length, body),
{
    match fault {
        StringFault::LengthTruncated => DecodeError::InsufficientData(length),
        StringFault::BodyTruncated => DecodeError::InsufficientData(body),
        StringFault::InvalidUtf8 => DecodeError::InvalidUtf8,
    }
}

/// Reads name, symbol and uri one after the other from the start of `rest`
/// and reports where the uri ends.
pub fn read_three_strings(rest: &[u8]) -> (r: Result<(String, String, String, usize), DecodeError>)
    ensures
        match r {
            Ok(found) => spec_three_strings(rest@) == Ok::<(CreateText, int), DecodeError>(
                (
                    CreateText { name: found.0@, symbol: found.1@, uri: found.2@ },
                    found.3 as int,
                ),
            ) && found.3 <= rest@.len(),
            Err(e) => spec_three_strings(rest@) == Err::<(CreateText, int), DecodeError>(e),
        },
{
    let mut reader = BinaryReader::new(rest);
    let name = match reader.read_string() {
        Ok(text) => text,
        Err(fault) => {
            return Err(fault_to_error(fault, Field::NameLength, Field::Name));
        },
    };
    let symbol = match reader.read_string() {
        Ok(text) => text,
        Err(fault) => {
            return Err(fault_to_error(fault, Field::SymbolLength, Field::Symbol));
        },
    };
    let uri = match reader.read_string() {
        Ok(text) => text,
        Err(fault) => {
            return Err(fault_to_error(fault, Field::UriLength, Field::Uri));
        },
    };
    let end: usize = reader.position();
    Ok((name, symbol, uri, end))
}

/// Decodes what follows the exact creation discriminator.
pub fn decode_create(rest: &[u8]) -> (r: Result<DecodedInstruction, DecodeError>)
    ensures
        match r {
            Ok(decoded) => spec_decode_create(rest@) == Ok::<InstructionView, DecodeError>(
                decoded@,
            ),
            Err(e) => spec_decode_create(rest@) == Err::<InstructionView, DecodeError>(e),
        },
{
    match structured_create_arguments(rest) {
        Some(args) => {
            let user: [u8; 32] = if rest.len() >= KEY_LEN {
                key_at(rest, rest.len() - KEY_LEN)
            } else {
                let zeros: [u8; 32] = [0u8; 32];
                assert(zeros@ =~= zero_key());
                zeros
            };
            Ok(
                DecodedInstruction::Created(
                    CreateEventInstruction { name: args.0, symbol: args.1, uri: args.2, user },
                ),
            )
        },
        None => {
            let (name, symbol, uri, end) = read_three_strings(rest)?;
            if rest.len() - end < KEY_LEN {
                return Err(DecodeError::InsufficientData(Field::User));
            }
            let user: [u8; 32] = key_at(rest, end);
            Ok(DecodedInstruction::Created(CreateEventInstruction { name, symbol, uri, user }))
        },
    }
}

/// Decodes what follows the first byte of the older creation layout.
pub fn decode_legacy_create(rest: &[u8]) -> (r: Result<DecodedInstruction, DecodeError>)
    ensures
        match r {
            Ok(decoded) => spec_decode_legacy_create(rest@) == Ok::<InstructionView, DecodeError>(
                decoded@,
            ),
            Err(e) => spec_decode_legacy_create(rest@) == Err::<InstructionView, DecodeError>(e),
        },
{
    let (name, symbol, uri, end) = read_three_strings(rest)?;
    let user: [u8; 32] = [0u8; 32];
    assert(user@ =~= zero_key());
    Ok(DecodedInstruction::Created(CreateEventInstruction { name, symbol, uri, user }))
}

/// Reads the two numbers of a purchase at their fixed places.
pub fn read_buy_arguments(rest: &[u8]) -> (r: Result<DecodedInstruction, DecodeError>)
    ensures
        match r {
            Ok(decoded) => spec_decode_buy(rest@) == Ok::<InstructionView, DecodeError>(decoded@),
            Err(e) => spec_decode_buy(rest@) == Err::<InstructionView, DecodeError>(e),
        },
{
    let mut reader = BinaryReader::new(rest);
    if reader.remaining() < 16 {
        return Err(DecodeError::InsufficientData(Field::BuyArguments));
    }
    let amount = reader.read_u64();
    let max_sol_cost = reader.read_u64();
    match (amount, max_sol_cost) {
        (Some(amount), Some(max_sol_cost)) => Ok(
            DecodedInstruction::Traded(BuyInstruction { amount, max_sol_cost }),
        ),
        _ => Err(DecodeError::InsufficientData(Field::BuyArguments)),
    }
}

/// Decodes what follows the exact purchase discriminator.
pub fn decode_buy(rest: &[u8]) -> (r: Result<DecodedInstruction, DecodeError>)
    ensures
        match r {
            Ok(decoded) => spec_decode_buy(rest@) == Ok::<InstructionView, DecodeError>(decoded@),
            Err(e) => spec_decode_buy(rest@) == Err::<InstructionView, DecodeError>(e),
        },
{
    match structured_buy_arguments(rest) {
        Some(args) => Ok(
            DecodedInstruction::Traded(BuyInstruction { amount: args.0, max_sol_cost: args.1 }),
        ),
        None => read_buy_arguments(rest),
    }
}

/// Whether the first eight bytes of `data` are `discriminator`.
fn has_discriminator(data: &[u8], discriminator: &[u8; 8]) -> (r: bool)
    requires
        data@.len() >= 8,
    ensures
        r == (data@.subrange(0, 8) == discriminator@),
{
    let mut i: usize = 0;
    while i < DISCRIMINATOR_LEN
        invariant
            i <= 8,
            data@.len() >= 8,
            forall|j: int| 0 <= j < i ==> data@[j] == discriminator@[j],
        decreases 8 - i,
    {
        if data[i] != discriminator[i] {
            assert(data@.subrange(0, 8)[i as int] != discriminator@[i as int]);
            return false;
        }
        i = i + 1;
    }
    assert(data@.subrange(0, 8) =~= discriminator@);
    true
}

/// Decodes an instruction payload.
pub fn parse_instruction_data(data: &[u8]) -> (r: Result<DecodedInstruction, DecodeError>)
    ensures
        match r {
            Ok(decoded) => spec_decode(data@) == Ok::<InstructionView, DecodeError>(decoded@),
            Err(e) => spec_decode(data@) == Err::<InstructionView, DecodeError>(e),
        },
        data@.len() < 8 ==> r == Err::<DecodedInstruction, DecodeError>(DecodeError::TooShort),
{
    if data.len() < DISCRIMINATOR_LEN {
        return Err(DecodeError::TooShort);
    }
    let rest = slice_subrange(data, DISCRIMINATOR_LEN, data.len());
    if has_discriminator(data, &CREATE_EVENT_DISCRIMINATOR) {
        decode_create(rest)
    } else if has_discriminator(data, &BUY_EVENT_DISCRIMINATOR) {
        decode_buy(rest)
    } else if data[0] == LEGACY_CREATE_MARKER {
        decode_legacy_create(rest)
    } else if data[0] == LEGACY_BUY_MARKER {
        read_buy_arguments(rest)
    } else {
        Err(DecodeError::UnknownInstruction)
    }
}

/// How a string is laid out in a payload: the length of its UTF-8 encoding in
/// four little-endian bytes, then the encoding.
pub open spec fn string_layout(text: Seq<char>) -> Seq<u8> {
    u32_le_bytes(encode_utf8(text).len() as int) + encode_utf8(text)
}

/// How the three strings of a creation are laid out, one after the other.
pub open spec fn create_layout(name: Seq<char>, symbol: Seq<char>, uri: Seq<char>) -> Seq<u8> {
    string_layout(name) + string_layout(symbol) + string_layout(uri)
}

/// A string that is laid out between any two runs of bytes is read back as
/// it was, and the read ends where the layout ends.
#[verifier::rlimit(40)]
pub proof fn lemma_string_layout_reads_back(before: Seq<u8>, text: Seq<char>, after: Seq<u8>)
    requires
        encode_utf8(text).len() <= u32::MAX,
    ensures
        spec_string_at(before + string_layout(text) + after, before.len() as int) == Ok::<
            (Seq<char>, int),
            StringFault,
        >((text, (before.len() + string_layout(text).len()) as int)),
        string_layout(text).len() == 4 + encode_utf8(text).len(),
{
    let body = encode_utf8(text);
    let n = body.len() as int;
    let prefix = u32_le_bytes(n);
    let all = before + string_layout(text) + after;
    let at = before.len() as int;
    lemma_u32_le_bytes_give_back(n);
    assert(string_layout(text).len() == 4 + n);
    assert(all.len() == at + 4 + n + after.len());
    assert(spec_u32_le(all, at) == n) by {
        assert(all[at] == prefix[0]);
        assert(all[at + 1] == prefix[1]);
        assert(all[at + 2] == prefix[2]);
        assert(all[at + 3] == prefix[3]);
    }
    assert(all.subrange(at + 4, at + 4 + n) == body) by {
        assert(all.subrange(at + 4, at + 4 + n) =~= body);
    }
    assert(valid_utf8(body)) by {
        encode_utf8_valid_utf8(text);
    }
    assert(decode_utf8(body) == text) by {
        encode_utf8_decode_utf8(text);
    }
}

/// The three strings of a creation, laid out one after the other and
/// followed by anything, are read back as they were.
#[verifier::rlimit(40)]
pub proof fn lemma_create_layout_reads_back(
    name: Seq<char>,
    symbol: Seq<char>,
    uri: Seq<char>,
    after: Seq<u8>,
)
    requires
        encode_utf8(name).len() <= u32::MAX,
        encode_utf8(symbol).len() <= u32::MAX,
        encode_utf8(uri).len() <= u32::MAX,
    ensures
        spec_three_strings(create_layout(name, symbol, uri) + after) == Ok::<
            (CreateText, int),
            DecodeError,
        >((CreateText { name, symbol, uri }, create_layout(name, symbol, uri).len() as int)),
        create_layout(name, symbol, uri).len() == 12 + encode_utf8(name).len() + encode_utf8(
            symbol,
        ).len() + encode_utf8(uri).len(),
{
    let a = string_layout(name);
    let b = string_layout(symbol);
    let c = string_layout(uri);
    let all = create_layout(name, symbol, uri) + after;
    lemma_string_layout_reads_back(Seq::<u8>::empty(), name, b + c + after);
    assert(all =~= Seq::<u8>::empty() + a + (b + c + after));
    lemma_string_layout_reads_back(a, symbol, c + after);
    assert(all =~= a + b + (c + after));
    lemma_string_layout_reads_back(a + b, uri, after);
    assert(all =~= (a + b) + c + after);
}

/// What follows the exact creation discriminator, when it is the three
/// strings and then either nothing or at least a creator's key, decodes to a
/// creation with exactly those strings.
#[verifier::rlimit(40)]
pub proof fn lemma_create_arguments_decode(
    name: Seq<char>,
    symbol: Seq<char>,
    uri: Seq<char>,
    after: Seq<u8>,
)
    requires
        encode_utf8(name).len() <= u32::MAX,
        encode_utf8(symbol).len() <= u32::MAX,
        encode_utf8(uri).len() <= u32::MAX,
        after.len() == 0 || after.len() >= 32,
    ensures
        spec_decode_create(create_layout(name, symbol, uri) + after) == Ok::<
            InstructionView,
            DecodeError,
        >(
            InstructionView::Created(
                CreateEventView {
                    name,
                    symbol,
                    uri,
                    user: if after.len() == 0 {
                        trailing_key(create_layout(name, symbol, uri))
                    } else {
                        after.subrange(0, 32)
                    },
                },
            ),
        ),
{
    let layout = create_layout(name, symbol, uri);
    let rest = layout + after;
    lemma_create_layout_reads_back(name, symbol, uri, after);
    if after.len() == 0 {
        assert(rest =~= layout);
    } else {
        assert(rest.subrange(layout.len() as int, (layout.len() + 32) as int) =~= after.subrange(
            0,
            32,
        ));
    }
}

/// A payload of eight bytes and more splits into its first eight bytes and
/// the rest.
pub proof fn lemma_decode_splits(head: Seq<u8>, rest: Seq<u8>)
    requires
        head.len() == 8,
    ensures
        spec_decode(head + rest) == spec_dispatch(head, rest),
{
    let data = head + rest;
    assert(data.subrange(0, 8) =~= head);
    assert(data.subrange(8, data.len() as int) =~= rest);
}

/// What follows the first byte of the older creation layout, when it is the
/// three strings and then anything, decodes to a creation with exactly those
/// strings and the zero key.
pub proof fn lemma_legacy_create_arguments_decode(
    name: Seq<char>,
    symbol: Seq<char>,
    uri: Seq<char>,
    after: Seq<u8>,
)
    requires
        encode_utf8(name).len() <= u32::MAX,
        encode_utf8(symbol).len() <= u32::MAX,
        encode_utf8(uri).len() <= u32::MAX,
    ensures
        spec_decode_legacy_create(create_layout(name, symbol, uri) + after) == Ok::<
            InstructionView,
            DecodeError,
        >(InstructionView::Created(CreateEventView { name, symbol, uri, user: zero_key() })),
{
    lemma_create_layout_reads_back(name, symbol, uri, after);
}

/// What follows a purchase discriminator, when it is two amounts in
/// little-endian bytes and then anything, decodes to a purchase of exactly
/// those amounts.
pub proof fn lemma_buy_arguments_decode(amount: u64, max_sol_cost: u64, after: Seq<u8>)
    ensures
        spec_decode_buy(u64_le_bytes(amount as int) + u64_le_bytes(max_sol_cost as int) + after)
            == Ok::<InstructionView, DecodeError>(
            InstructionView::Traded(BuyInstruction { amount, max_sol_cost }),
        ),
{
    let first = u64_le_bytes(amount as int);
    let second = u64_le_bytes(max_sol_cost as int);
    let rest = first + second + after;
    lemma_u64_le_bytes_give_back(amount as int);
    lemma_u64_le_bytes_give_back(max_sol_cost as int);
    assert(spec_u64_le(rest, 0) == spec_u64_le(first, 0)) by {
        assert(rest[0] == first[0] && rest[1] == first[1] && rest[2] == first[2] && rest[3]
            == first[3]);
        assert(rest[4] == first[4] && rest[5] == first[5] && rest[6] == first[6] && rest[7]
            == first[7]);
    }
    assert(spec_u64_le(rest, 8) == spec_u64_le(second, 0)) by {
        assert(rest[8] == second[0] && rest[9] == second[1] && rest[10] == second[2] && rest[11]
            == second[3]);
        assert(rest[12] == second[4] && rest[13] == second[5] && rest[14] == second[6]
            && rest[15] == second[7]);
    }
}

/// For every name, symbol and uri whose encodings fit a `u32` length: a
/// payload made of the exact creation discriminator, the three strings and
/// then either nothing or at least a creator's key decodes to a creation
/// with exactly those strings. With nothing after the strings the creator is
/// the key in the last thirty-two bytes of what follows the discriminator;
/// otherwise it is the key right after the uri.
pub proof fn lemma_create_payload_decodes(
    name: Seq<char>,
    symbol: Seq<char>,
    uri: Seq<char>,
    after: Seq<u8>,
)
    requires
        encode_utf8(name).len() <= u32::MAX,
        encode_utf8(symbol).len() <= u32::MAX,
        encode_utf8(uri).len() <= u32::MAX,
        after.len() == 0 || after.len() >= 32,
    ensures
        spec_decode(CREATE_EVENT_DISCRIMINATOR@ + (create_layout(name, symbol, uri) + after))
            == Ok::<InstructionView, DecodeError>(
            InstructionView::Created(
                CreateEventView {
                    name,
                    symbol,
                    uri,
                    user: if after.len() == 0 {
                        trailing_key(create_layout(name, symbol, uri))
                    } else {
                        after.subrange(0, 32)
                    },
                },
            ),
        ),
{
    lemma_decode_splits(CREATE_EVENT_DISCRIMINATOR@, create_layout(name, symbol, uri) + after);
    lemma_create_arguments_decode(name, symbol, uri, after);
}

/// For every name, symbol and uri whose encodings fit a `u32` length: a
/// payload whose first byte marks the older creation layout, and whose first
/// eight bytes are not the exact creation discriminator, decodes to a
/// creation with exactly those strings and the zero key, whatever follows
/// the strings.
pub proof fn lemma_legacy_create_payload_decodes(
    head: Seq<u8>,
    name: Seq<char>,
    symbol: Seq<char>,
    uri: Seq<char>,
    after: Seq<u8>,
)
    requires
        head.len() == 8,
        head[0] == LEGACY_CREATE_MARKER,
        head != CREATE_EVENT_DISCRIMINATOR@,
        encode_utf8(name).len() <= u32::MAX,
        encode_utf8(symbol).len() <= u32::MAX,
        encode_utf8(uri).len() <= u32::MAX,
    ensures
        spec_decode(head + (create_layout(name, symbol, uri) + after)) == Ok::<
            InstructionView,
            DecodeError,
        >(InstructionView::Created(CreateEventView { name, symbol, uri, user: zero_key() })),
{
    lemma_decode_splits(head, create_layout(name, symbol, uri) + after);
    lemma_legacy_create_arguments_decode(name, symbol, uri, after);
    assert(head != BUY_EVENT_DISCRIMINATOR@) by {
        assert(BUY_EVENT_DISCRIMINATOR@[0] == 0x66);
    }
}

/// For every two amounts: a payload made of a purchase discriminator, exact
/// or older, the two amounts in little-endian bytes and then anything
/// decodes to a purchase of exactly those amounts.
pub proof fn lemma_buy_payload_decodes(head: Seq<u8>, amount: u64, max_sol_cost: u64, after: Seq<u8>)
    requires
        head.len() == 8,
        head == BUY_EVENT_DISCRIMINATOR@ || (head[0] == LEGACY_BUY_MARKER && head
            != CREATE_EVENT_DISCRIMINATOR@),
    ensures
        spec_decode(
            head + (u64_le_bytes(amount as int) + u64_le_bytes(max_sol_cost as int) + after),
        ) == Ok::<InstructionView, DecodeError>(
            InstructionView::Traded(BuyInstruction { amount, max_sol_cost }),
        ),
{
    lemma_decode_splits(
        head,
        u64_le_bytes(amount as int) + u64_le_bytes(max_sol_cost as int) + after,
    );
    lemma_buy_arguments_decode(amount, max_sol_cost, after);
    assert(BUY_EVENT_DISCRIMINATOR@ != CREATE_EVENT_DISCRIMINATOR@) by {
        assert(BUY_EVENT_DISCRIMINATOR@[0] == 0x66);
        assert(CREATE_EVENT_DISCRIMINATOR@[0] == 0x18);
    }
}

/// A payload of fewer than eight bytes is refused as too short.
pub proof fn lemma_short_payload_is_refused(data: Seq<u8>)
    requires
        data.len() < 8,
    ensures
        spec_decode(data) == Err::<InstructionView, DecodeError>(DecodeError::TooShort),
{
}

} // verus!
