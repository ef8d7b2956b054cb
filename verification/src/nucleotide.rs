use vstd::prelude::*;

verus! {

/// One of the four two-bit alphabet symbols from which every encoded value is
/// built. The ordinals, which also order the symbols, are Adenine = 0,
/// Guanine = 1, Cytosine = 2, Thymine = 3.
#[derive(Clone, Copy, Debug, PartialEq, Eq, PartialOrd, Ord, Structural)]
pub enum Nucleotide {
    Adenine,
    Guanine,
    Cytosine,
    Thymine,
}

/// The ordinal of a symbol: the two bits it contributes to a packed byte.
pub open spec fn nuc_value(n: Nucleotide) -> u8 {
    match n {
        Nucleotide::Adenine => 0,
        Nucleotide::Guanine => 1,
        Nucleotide::Cytosine => 2,
        Nucleotide::Thymine => 3,
    }
}

/// The symbol whose ordinal is the low two bits of `v`.
pub open spec fn nuc_of_value(v: u8) -> Nucleotide {
    if v == 0 {
        Nucleotide::Adenine
    } else if v == 1 {
        Nucleotide::Guanine
    } else if v == 2 {
        Nucleotide::Cytosine
    } else {
        Nucleotide::Thymine
    }
}

/// The byte that packs the first four symbols of `s`: the first symbol
/// occupies bits 7-6, the second bits 5-4, the third bits 3-2 and the fourth
/// bits 1-0.
pub open spec fn byte_of_nucs(s: Seq<Nucleotide>) -> u8
    recommends
        s.len() >= 4,
{
    ((((((nuc_value(s[0]) << 2u8) | nuc_value(s[1])) << 2u8) | nuc_value(s[2])) << 2u8) | nuc_value(
        s[3],
    ))
}

/// The four symbols packed in byte `b`, the one in the two most-significant
/// bits first.
pub open spec fn nucs_of_byte(b: u8) -> Seq<Nucleotide> {
    seq![
        nuc_of_value((b >> 6u8) & 3u8),
        nuc_of_value((b >> 4u8) & 3u8),
        nuc_of_value((b >> 2u8) & 3u8),
        nuc_of_value(b & 3u8),
    ]
}

/// Packing the four symbols unpacked from a byte gives the byte back.
pub proof fn lemma_pack_unpack(b: u8)
    ensures
        byte_of_nucs(nucs_of_byte(b)) == b,
{
    assert(((b >> 6u8) & 3u8) < 4 && ((b >> 4u8) & 3u8) < 4 && ((b >> 2u8) & 3u8) < 4 && (b & 3u8)
        < 4) by (bit_vector);
    assert(((((((((b >> 6u8) & 3u8) << 2u8) | ((b >> 4u8) & 3u8)) << 2u8) | ((b >> 2u8) & 3u8))
        << 2u8) | (b & 3u8)) == b) by (bit_vector);
}

/// Unpacking the byte packed from four symbols gives the symbols back.
pub proof fn lemma_unpack_pack(s: Seq<Nucleotide>)
    requires
        s.len() == 4,
    ensures
        nucs_of_byte(byte_of_nucs(s)) == s,
{
    let v0 = nuc_value(s[0]);
    let v1 = nuc_value(s[1]);
    let v2 = nuc_value(s[2]);
    let v3 = nuc_value(s[3]);
    let b = byte_of_nucs(s);
    assert(v0 < 4 && v1 < 4 && v2 < 4 && v3 < 4);
    assert((((((((v0 << 2u8) | v1) << 2u8) | v2) << 2u8) | v3) >> 6u8) & 3u8 == v0
        && (((((((v0 << 2u8) | v1) << 2u8) | v2) << 2u8) | v3) >> 4u8) & 3u8 == v1
        && (((((((v0 << 2u8) | v1) << 2u8) | v2) << 2u8) | v3) >> 2u8) & 3u8 == v2 && ((((((v0
        << 2u8) | v1) << 2u8) | v2) << 2u8) | v3) & 3u8 == v3) by (bit_vector)
        requires
            v0 < 4 && v1 < 4 && v2 < 4 && v3 < 4,
    ;
    assert(nucs_of_byte(b) =~= s);
}

impl Nucleotide {
    /// The ordinal of this symbol as a byte.
    pub fn value(&self) -> (r: u8)
        ensures
            r == nuc_value(*self),
    {
        match self {
            Nucleotide::Adenine => 0,
            Nucleotide::Guanine => 1,
            Nucleotide::Cytosine => 2,
            Nucleotide::Thymine => 3,
        }
    }

    /// The symbol whose ordinal is `v`.
    pub fn from_value(v: u8) -> (r: Nucleotide)
        requires
            v < 4,
        ensures
            r == nuc_of_value(v),
    {
        if v == 0 {
            Nucleotide::Adenine
        } else if v == 1 {
            Nucleotide::Guanine
        } else if v == 2 {
            Nucleotide::Cytosine
        } else {
            Nucleotide::Thymine
        }
    }

    /// Packs four symbols into one byte, the first symbol in the two
    /// most-significant bits.
    pub fn to_u8(item: &[Nucleotide]) -> (r: u8)
        requires
            item@.len() == 4,
        ensures
            r == byte_of_nucs(item@),
    {
        let n0 = item[0].value();
        let n1 = item[1].value();
        let n2 = item[2].value();
        let n3 = item[3].value();
        let mut output: u8 = 0;
        output = output | n0;
        output = output << 2u8;
        output = output | n1;
        output = output << 2u8;
        output = output | n2;
        output = output << 2u8;
        output = output | n3;
        assert(output == ((((((n0 << 2u8) | n1) << 2u8) | n2) << 2u8) | n3)) by (bit_vector)
            requires
                output == ((((((0u8 | n0) << 2u8) | n1) << 2u8) | n2) << 2u8) | n3,
        ;
        output
    }

    /// Unpacks one byte into the four symbols it holds, recovering the order
    /// that `to_u8` packed them in.
    pub fn to_nucleotides(item: u8) -> (r: [Nucleotide; 4])
        ensures
            r@ == nucs_of_byte(item),
    {
        assert(((item >> 6u8) & 3u8) < 4 && ((item >> 4u8) & 3u8) < 4 && ((item >> 2u8) & 3u8) < 4
            && (item & 3u8) < 4) by (bit_vector);
        let output: [Nucleotide; 4] = [
            Nucleotide::from_value((item >> 6u8) & 3u8),
            Nucleotide::from_value((item >> 4u8) & 3u8),
            Nucleotide::from_value((item >> 2u8) & 3u8),
            Nucleotide::from_value(item & 3u8),
        ];
        assert(output@ =~= nucs_of_byte(item));
        output
    }
}

} // verus!
