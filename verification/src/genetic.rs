use vstd::prelude::*;

use crate::codec::{
    bytes_of_symbols, bytes_to_dna, dna_to_bytes, lemma_bytes_of_symbols_len,
    lemma_bytes_symbols_roundtrip, lemma_symbols_of_bytes_len, symbols_of_bytes,
};
use crate::error::GeneticError;
use crate::nucleotide::{byte_of_nucs, lemma_pack_unpack, nucs_of_byte, Nucleotide};

verus! {

/// A type whose values encode to a symbol sequence and decode back.
///
/// The contract is stated over the type's view: `dna_of` is the encoding of a
/// value's model and `decode_of` says, for every symbol sequence, either the
/// model of the value it decodes to or the error it is rejected with. Every
/// implementation proves the round-trip law `lemma_round_trip`: decoding an
/// encoded value always succeeds and gives the value back.
pub trait Genetic: View + Sized {
    /// The symbol sequence that encodes a value with this model.
    spec fn dna_of(v: Self::V) -> Seq<Nucleotide>;

    /// What decoding a symbol sequence yields: the model of the decoded
    /// value, or the error the sequence is rejected with.
    spec fn decode_of(s: Seq<Nucleotide>) -> Result<Self::V, GeneticError>;

    /// Round-trip identity: for every value `v`, decoding `dna_of(v)` gives
    /// `v` back.
    proof fn lemma_round_trip(v: Self::V)
        ensures
            Self::decode_of(Self::dna_of(v)) == Ok::<Self::V, GeneticError>(v),
    ;

    /// Encodes this value into its symbol sequence.
    fn get_dna(&self) -> (r: Vec<Nucleotide>)
        ensures
            r@ == Self::dna_of(self@),
    ;

    /// Decodes a symbol sequence back into a value, or reports why the
    /// sequence is rejected.
    fn from_dna(input: &[Nucleotide]) -> (r: Result<Self, GeneticError>)
        ensures
            match r {
                Ok(v) => Self::decode_of(input@) == Ok::<Self::V, GeneticError>(v@),
                Err(e) => Self::decode_of(input@) == Err::<Self::V, GeneticError>(e),
            },
    ;

    /// The length of this value's encoding, in symbols.
    fn size(&self) -> (r: usize)
        ensures
            r == Self::dna_of(self@).len(),
    ;
}

/// The two's-complement bit pattern of a signed byte, as an unsigned byte.
pub open spec fn u8_of_i8(v: i8) -> u8 {
    if v >= 0 {
        v as u8
    } else {
        (v + 0x100) as u8
    }
}

/// The signed byte whose two's-complement bit pattern is `u`.
pub open spec fn i8_of_u8(u: u8) -> i8 {
    if u < 0x80 {
        u as i8
    } else {
        (u - 0x100) as i8
    }
}

/// The two's-complement bit pattern of a signed 16-bit value.
pub open spec fn u16_of_i16(v: i16) -> u16 {
    if v >= 0 {
        v as u16
    } else {
        (v + 0x10000) as u16
    }
}

/// The signed 16-bit value whose two's-complement bit pattern is `u`.
pub open spec fn i16_of_u16(u: u16) -> i16 {
    if u < 0x8000 {
        u as i16
    } else {
        (u - 0x10000) as i16
    }
}

/// The two's-complement bit pattern of a signed 32-bit value.
pub open spec fn u32_of_i32(v: i32) -> u32 {
    if v >= 0 {
        v as u32
    } else {
        (v + 0x100000000) as u32
    }
}

/// The signed 32-bit value whose two's-complement bit pattern is `u`.
pub open spec fn i32_of_u32(u: u32) -> i32 {
    if u < 0x80000000 {
        u as i32
    } else {
        (u - 0x100000000) as i32
    }
}

/// The two's-complement bit pattern of a signed 64-bit value.
pub open spec fn u64_of_i64(v: i64) -> u64 {
    if v >= 0 {
        v as u64
    } else {
        (v + 0x10000000000000000) as u64
    }
}

/// The signed 64-bit value whose two's-complement bit pattern is `u`.
pub open spec fn i64_of_u64(u: u64) -> i64 {
    if u < 0x8000000000000000 {
        u as i64
    } else {
        (u - 0x10000000000000000) as i64
    }
}

fn i8_bits(v: i8) -> (r: u8)
    ensures
        r == u8_of_i8(v),
{
    if v >= 0 {
        v as u8
    } else {
        ((v as i16) + 0x100) as u8
    }
}

fn i8_from_bits(u: u8) -> (r: i8)
    ensures
        r == i8_of_u8(u),
{
    if u < 0x80 {
        u as i8
    } else {
        ((u as i16) - 0x100) as i8
    }
}

fn i16_bits(v: i16) -> (r: u16)
    ensures
        r == u16_of_i16(v),
{
    if v >= 0 {
        v as u16
    } else {
        ((v as i32) + 0x10000) as u16
    }
}

fn i16_from_bits(u: u16) -> (r: i16)
    ensures
        r == i16_of_u16(u),
{
    if u < 0x8000 {
        u as i16
    } else {
        ((u as i32) - 0x10000) as i16
    }
}

fn i32_bits(v: i32) -> (r: u32)
    ensures
        r == u32_of_i32(v),
{
    if v >= 0 {
        v as u32
    } else {
        ((v as i64) + 0x100000000) as u32
    }
}

fn i32_from_bits(u: u32) -> (r: i32)
    ensures
        r == i32_of_u32(u),
{
    if u < 0x80000000 {
        u as i32
    } else {
        ((u as i64) - 0x100000000) as i32
    }
}

fn i64_bits(v: i64) -> (r: u64)
    ensures
        r == u64_of_i64(v),
{
    if v >= 0 {
        v as u64
    } else {
        ((v as i128) + 0x10000000000000000) as u64
    }
}

fn i64_from_bits(u: u64) -> (r: i64)
    ensures
        r == i64_of_u64(u),
{
    if u < 0x8000000000000000 {
        u as i64
    } else {
        ((u as i128) - 0x10000000000000000) as i64
    }
}

impl Genetic for u8 {
    open spec fn dna_of(v: u8) -> Seq<Nucleotide> {
        nucs_of_byte(v)
    }

    open spec fn decode_of(s: Seq<Nucleotide>) -> Result<u8, GeneticError> {
        if s.len() == 4 {
            Ok(byte_of_nucs(s))
        } else {
            Err(GeneticError::LengthMismatch)
        }
    }

    proof fn lemma_round_trip(v: u8) {
        lemma_pack_unpack(v);
    }

    fn get_dna(&self) -> (r: Vec<Nucleotide>) {
        let group = Nucleotide::to_nucleotides(*self);
        let mut output: Vec<Nucleotide> = Vec::new();
        output.push(group[0]);
        output.push(group[1]);
        output.push(group[2]);
        output.push(group[3]);
        proof {
            assert(output@ =~= nucs_of_byte(*self));
        }
        output
    }

    fn from_dna(input: &[Nucleotide]) -> (r: Result<Self, GeneticError>) {
        if input.len() != 4 {
            Err(GeneticError::LengthMismatch)
        } else {
            Ok(Nucleotide::to_u8(input))
        }
    }

    fn size(&self) -> (r: usize) {
        4
    }
}

impl Genetic for u16 {
    open spec fn dna_of(v: u16) -> Seq<Nucleotide> {
        symbols_of_bytes(vstd::bytes::spec_u16_to_le_bytes(v))
    }

    open spec fn decode_of(s: Seq<Nucleotide>) -> Result<u16, GeneticError> {
        if s.len() == 8 {
            Ok(vstd::bytes::spec_u16_from_le_bytes(bytes_of_symbols(s)))
        } else {
            Err(GeneticError::LengthMismatch)
        }
    }

    proof fn lemma_round_trip(v: u16) {
        vstd::bytes::lemma_auto_spec_u16_to_from_le_bytes();
        lemma_bytes_symbols_roundtrip(vstd::bytes::spec_u16_to_le_bytes(v));
        lemma_symbols_of_bytes_len(vstd::bytes::spec_u16_to_le_bytes(v));
    }

    fn get_dna(&self) -> (r: Vec<Nucleotide>) {
        proof {
            vstd::bytes::lemma_auto_spec_u16_to_from_le_bytes();
        }
        let bytes = vstd::bytes::u16_to_le_bytes(*self);
        bytes_to_dna(bytes.as_slice())
    }

    fn from_dna(input: &[Nucleotide]) -> (r: Result<Self, GeneticError>) {
        if input.len() != 8 {
            return Err(GeneticError::LengthMismatch);
        }
        let bytes = match dna_to_bytes(input) {
            Ok(v) => v,
            Err(e) => {
                return Err(e);
            },
        };
        proof {
            lemma_bytes_of_symbols_len(input@);
        }
        Ok(vstd::bytes::u16_from_le_bytes(bytes.as_slice()))
    }

    fn size(&self) -> (r: usize) {
        proof {
            vstd::bytes::lemma_auto_spec_u16_to_from_le_bytes();
            lemma_symbols_of_bytes_len(vstd::bytes::spec_u16_to_le_bytes(*self));
        }
        8
    }
}

impl Genetic for u32 {
    open spec fn dna_of(v: u32) -> Seq<Nucleotide> {
        symbols_of_bytes(vstd::bytes::spec_u32_to_le_bytes(v))
    }

    open spec fn decode_of(s: Seq<Nucleotide>) -> Result<u32, GeneticError> {
        if s.len() == 16 {
            Ok(vstd::bytes::spec_u32_from_le_bytes(bytes_of_symbols(s)))
        } else {
            Err(GeneticError::LengthMismatch)
        }
    }

    proof fn lemma_round_trip(v: u32) {
        vstd::bytes::lemma_auto_spec_u32_to_from_le_bytes();
        lemma_bytes_symbols_roundtrip(vstd::bytes::spec_u32_to_le_bytes(v));
        lemma_symbols_of_bytes_len(vstd::bytes::spec_u32_to_le_bytes(v));
    }

    fn get_dna(&self) -> (r: Vec<Nucleotide>) {
        proof {
            vstd::bytes::lemma_auto_spec_u32_to_from_le_bytes();
        }
        let bytes = vstd::bytes::u32_to_le_bytes(*self);
        bytes_to_dna(bytes.as_slice())
    }

    fn from_dna(input: &[Nucleotide]) -> (r: Result<Self, GeneticError>) {
        if input.len() != 16 {
            return Err(GeneticError::LengthMismatch);
        }
        let bytes = match dna_to_bytes(input) {
            Ok(v) => v,
            Err(e) => {
                return Err(e);
            },
        };
        proof {
            lemma_bytes_of_symbols_len(input@);
        }
        Ok(vstd::bytes::u32_from_le_bytes(bytes.as_slice()))
    }

    fn size(&self) -> (r: usize) {
        proof {
            vstd::bytes::lemma_auto_spec_u32_to_from_le_bytes();
            lemma_symbols_of_bytes_len(vstd::bytes::spec_u32_to_le_bytes(*self));
        }
        16
    }
}

impl Genetic for u64 {
    open spec fn dna_of(v: u64) -> Seq<Nucleotide> {
        symbols_of_bytes(vstd::bytes::spec_u64_to_le_bytes(v))
    }

    open spec fn decode_of(s: Seq<Nucleotide>) -> Result<u64, GeneticError> {
        if s.len() == 32 {
            Ok(vstd::bytes::spec_u64_from_le_bytes(bytes_of_symbols(s)))
        } else {
            Err(GeneticError::LengthMismatch)
        }
    }

    proof fn lemma_round_trip(v: u64) {
        vstd::bytes::lemma_auto_spec_u64_to_from_le_bytes();
        lemma_bytes_symbols_roundtrip(vstd::bytes::spec_u64_to_le_bytes(v));
        lemma_symbols_of_bytes_len(vstd::bytes::spec_u64_to_le_bytes(v));
    }

    fn get_dna(&self) -> (r: Vec<Nucleotide>) {
        proof {
            vstd::bytes::lemma_auto_spec_u64_to_from_le_bytes();
        }
        let bytes = vstd::bytes::u64_to_le_bytes(*self);
        bytes_to_dna(bytes.as_slice())
    }

    fn from_dna(input: &[Nucleotide]) -> (r: Result<Self, GeneticError>) {
        if input.len() != 32 {
            return Err(GeneticError::LengthMismatch);
        }
        let bytes = match dna_to_bytes(input) {
            Ok(v) => v,
            Err(e) => {
                return Err(e);
            },
        };
        proof {
            lemma_bytes_of_symbols_len(input@);
        }
        Ok(vstd::bytes::u64_from_le_bytes(bytes.as_slice()))
    }

    fn size(&self) -> (r: usize) {
        proof {
            vstd::bytes::lemma_auto_spec_u64_to_from_le_bytes();
            lemma_symbols_of_bytes_len(vstd::bytes::spec_u64_to_le_bytes(*self));
        }
        32
    }
}

impl Genetic for i8 {
    open spec fn dna_of(v: i8) -> Seq<Nucleotide> {
        nucs_of_byte(u8_of_i8(v))
    }

    open spec fn decode_of(s: Seq<Nucleotide>) -> Result<i8, GeneticError> {
        if s.len() == 4 {
            Ok(i8_of_u8(byte_of_nucs(s)))
        } else {
            Err(GeneticError::LengthMismatch)
        }
    }

    proof fn lemma_round_trip(v: i8) {
        lemma_pack_unpack(u8_of_i8(v));
    }

    fn get_dna(&self) -> (r: Vec<Nucleotide>) {
        let group = Nucleotide::to_nucleotides(i8_bits(*self));
        let mut output: Vec<Nucleotide> = Vec::new();
        output.push(group[0]);
        output.push(group[1]);
        output.push(group[2]);
        output.push(group[3]);
        proof {
            assert(output@ =~= nucs_of_byte(u8_of_i8(*self)));
        }
        output
    }

    fn from_dna(input: &[Nucleotide]) -> (r: Result<Self, GeneticError>) {
        if input.len() != 4 {
            Err(GeneticError::LengthMismatch)
        } else {
            Ok(i8_from_bits(Nucleotide::to_u8(input)))
        }
    }

    fn size(&self) -> (r: usize) {
        4
    }
}

impl Genetic for i16 {
    open spec fn dna_of(v: i16) -> Seq<Nucleotide> {
        symbols_of_bytes(vstd::bytes::spec_u16_to_le_bytes(u16_of_i16(v)))
    }

    open spec fn decode_of(s: Seq<Nucleotide>) -> Result<i16, GeneticError> {
        if s.len() == 8 {
            Ok(i16_of_u16(vstd::bytes::spec_u16_from_le_bytes(bytes_of_symbols(s))))
        } else {
            Err(GeneticError::LengthMismatch)
        }
    }

    proof fn lemma_round_trip(v: i16) {
        vstd::bytes::lemma_auto_spec_u16_to_from_le_bytes();
        lemma_bytes_symbols_roundtrip(vstd::bytes::spec_u16_to_le_bytes(u16_of_i16(v)));
        lemma_symbols_of_bytes_len(vstd::bytes::spec_u16_to_le_bytes(u16_of_i16(v)));
    }

    fn get_dna(&self) -> (r: Vec<Nucleotide>) {
        proof {
            vstd::bytes::lemma_auto_spec_u16_to_from_le_bytes();
        }
        let bytes = vstd::bytes::u16_to_le_bytes(i16_bits(*self));
        bytes_to_dna(bytes.as_slice())
    }

    fn from_dna(input: &[Nucleotide]) -> (r: Result<Self, GeneticError>) {
        if input.len() != 8 {
            return Err(GeneticError::LengthMismatch);
        }
        let bytes = match dna_to_bytes(input) {
            Ok(v) => v,
            Err(e) => {
                return Err(e);
            },
        };
        proof {
            lemma_bytes_of_symbols_len(input@);
        }
        Ok(i16_from_bits(vstd::bytes::u16_from_le_bytes(bytes.as_slice())))
    }

    fn size(&self) -> (r: usize) {
        proof {
            vstd::bytes::lemma_auto_spec_u16_to_from_le_bytes();
            lemma_symbols_of_bytes_len(vstd::bytes::spec_u16_to_le_bytes(u16_of_i16(*self)));
        }
        8
    }
}

impl Genetic for i32 {
    open spec fn dna_of(v: i32) -> Seq<Nucleotide> {
        symbols_of_bytes(vstd::bytes::spec_u32_to_le_bytes(u32_of_i32(v)))
    }

    open spec fn decode_of(s: Seq<Nucleotide>) -> Result<i32, GeneticError> {
        if s.len() == 16 {
            Ok(i32_of_u32(vstd::bytes::spec_u32_from_le_bytes(bytes_of_symbols(s))))
        } else {
            Err(GeneticError::LengthMismatch)
        }
    }

    proof fn lemma_round_trip(v: i32) {
        vstd::bytes::lemma_auto_spec_u32_to_from_le_bytes();
        lemma_bytes_symbols_roundtrip(vstd::bytes::spec_u32_to_le_bytes(u32_of_i32(v)));
        lemma_symbols_of_bytes_len(vstd::bytes::spec_u32_to_le_bytes(u32_of_i32(v)));
    }

    fn get_dna(&self) -> (r: Vec<Nucleotide>) {
        proof {
            vstd::bytes::lemma_auto_spec_u32_to_from_le_bytes();
        }
        let bytes = vstd::bytes::u32_to_le_bytes(i32_bits(*self));
        bytes_to_dna(bytes.as_slice())
    }

    fn from_dna(input: &[Nucleotide]) -> (r: Result<Self, GeneticError>) {
        if input.len() != 16 {
            return Err(GeneticError::LengthMismatch);
        }
        let bytes = match dna_to_bytes(input) {
            Ok(v) => v,
            Err(e) => {
                return Err(e);
            },
        };
        proof {
            lemma_bytes_of_symbols_len(input@);
        }
        Ok(i32_from_bits(vstd::bytes::u32_from_le_bytes(bytes.as_slice())))
    }

    fn size(&self) -> (r: usize) {
        proof {
            vstd::bytes::lemma_auto_spec_u32_to_from_le_bytes();
            lemma_symbols_of_bytes_len(vstd::bytes::spec_u32_to_le_bytes(u32_of_i32(*self)));
        }
        16
    }
}

impl Genetic for i64 {
    open spec fn dna_of(v: i64) -> Seq<Nucleotide> {
        symbols_of_bytes(vstd::bytes::spec_u64_to_le_bytes(u64_of_i64(v)))
    }

    open spec fn decode_of(s: Seq<Nucleotide>) -> Result<i64, GeneticError> {
        if s.len() == 32 {
            Ok(i64_of_u64(vstd::bytes::spec_u64_from_le_bytes(bytes_of_symbols(s))))
        } else {
            Err(GeneticError::LengthMismatch)
        }
    }

    proof fn lemma_round_trip(v: i64) {
        vstd::bytes::lemma_auto_spec_u64_to_from_le_bytes();
        lemma_bytes_symbols_roundtrip(vstd::bytes::spec_u64_to_le_bytes(u64_of_i64(v)));
        lemma_symbols_of_bytes_len(vstd::bytes::spec_u64_to_le_bytes(u64_of_i64(v)));
    }

    fn get_dna(&self) -> (r: Vec<Nucleotide>) {
        proof {
            vstd::bytes::lemma_auto_spec_u64_to_from_le_bytes();
        }
        let bytes = vstd::bytes::u64_to_le_bytes(i64_bits(*self));
        bytes_to_dna(bytes.as_slice())
    }

    fn from_dna(input: &[Nucleotide]) -> (r: Result<Self, GeneticError>) {
        if input.len() != 32 {
            return Err(GeneticError::LengthMismatch);
        }
        let bytes = match dna_to_bytes(input) {
            Ok(v) => v,
            Err(e) => {
                return Err(e);
            },
        };
        proof {
            lemma_bytes_of_symbols_len(input@);
        }
        Ok(i64_from_bits(vstd::bytes::u64_from_le_bytes(bytes.as_slice())))
    }

    fn size(&self) -> (r: usize) {
        proof {
            vstd::bytes::lemma_auto_spec_u64_to_from_le_bytes();
            lemma_symbols_of_bytes_len(vstd::bytes::spec_u64_to_le_bytes(u64_of_i64(*self)));
        }
        32
    }
}

impl Genetic for Vec<u8> {
    open spec fn dna_of(v: Seq<u8>) -> Seq<Nucleotide> {
        symbols_of_bytes(v)
    }

    open spec fn decode_of(s: Seq<Nucleotide>) -> Result<Seq<u8>, GeneticError> {
        if s.len() % 4 == 0 {
            Ok(bytes_of_symbols(s))
        } else {
            Err(GeneticError::MalformedLength)
        }
    }

    proof fn lemma_round_trip(v: Seq<u8>) {
        lemma_bytes_symbols_roundtrip(v);
    }

    fn get_dna(&self) -> (r: Vec<Nucleotide>) {
        bytes_to_dna(self.as_slice())
    }

    fn from_dna(input: &[Nucleotide]) -> (r: Result<Self, GeneticError>) {
        dna_to_bytes(input)
    }

    // Measuring the encoding itself keeps this total: the encoded vector's
    // length is a usize, so no multiplication can overflow.
    fn size(&self) -> (r: usize) {
        let d = self.get_dna();
        d.len()
    }
}

/// Relies on String::from_utf8: it returns `Ok` exactly when the bytes are
/// valid UTF-8, and the returned string is then the decoding of those bytes.
#[verifier::external_body]
fn bytes_to_string(bytes: Vec<u8>) -> (r: Option<String>)
    ensures
        r is Some <==> vstd::utf8::valid_utf8(bytes@),
        r matches Some(s) ==> s@ == vstd::utf8::decode_utf8(bytes@),
{
    String::from_utf8(bytes).ok()
}

impl Genetic for String {
    open spec fn dna_of(v: Seq<char>) -> Seq<Nucleotide> {
        symbols_of_bytes(vstd::utf8::encode_utf8(v))
    }

    open spec fn decode_of(s: Seq<Nucleotide>) -> Result<Seq<char>, GeneticError> {
        if s.len() % 4 != 0 {
            Err(GeneticError::MalformedLength)
        } else if vstd::utf8::valid_utf8(bytes_of_symbols(s)) {
            Ok(vstd::utf8::decode_utf8(bytes_of_symbols(s)))
        } else {
            Err(GeneticError::InvalidEncoding)
        }
    }

    proof fn lemma_round_trip(v: Seq<char>) {
        let bytes = vstd::utf8::encode_utf8(v);
        lemma_bytes_symbols_roundtrip(bytes);
        vstd::utf8::encode_utf8_valid_utf8(v);
        vstd::utf8::encode_utf8_decode_utf8(v);
    }

    fn get_dna(&self) -> (r: Vec<Nucleotide>) {
        bytes_to_dna(self.as_str().as_bytes())
    }

    fn from_dna(input: &[Nucleotide]) -> (r: Result<Self, GeneticError>) {
        let bytes = match dna_to_bytes(input) {
            Ok(v) => v,
            Err(e) => {
                return Err(e);
            },
        };
        match bytes_to_string(bytes) {
            Some(s) => Ok(s),
            None => Err(GeneticError::InvalidEncoding),
        }
    }

    // Measuring the encoding itself keeps this total: the encoded vector's
    // length is a usize, so no multiplication can overflow.
    fn size(&self) -> (r: usize) {
        let d = self.get_dna();
        d.len()
    }
}

} // verus!
