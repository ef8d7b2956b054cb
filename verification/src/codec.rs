use vstd::prelude::*;

use crate::error::GeneticError;
use crate::nucleotide::{
    byte_of_nucs, lemma_pack_unpack, lemma_unpack_pack, nucs_of_byte, Nucleotide,
};

verus! {

/// The symbol sequence that a byte sequence unpacks to: four symbols per
/// byte, in byte order.
pub open spec fn symbols_of_bytes(b: Seq<u8>) -> Seq<Nucleotide>
    decreases b.len(),
{
    if b.len() == 0 {
        Seq::empty()
    } else {
        nucs_of_byte(b.first()) + symbols_of_bytes(b.drop_first())
    }
}

/// The byte sequence that a symbol sequence packs to: one byte per four
/// symbols. Meaningful when the length is a multiple of four.
pub open spec fn bytes_of_symbols(s: Seq<Nucleotide>) -> Seq<u8>
    recommends
        s.len() % 4 == 0,
    decreases s.len(),
{
    if s.len() < 4 {
        Seq::empty()
    } else {
        seq![byte_of_nucs(s)] + bytes_of_symbols(s.skip(4))
    }
}

/// Unpacking `n` bytes always yields exactly `4 * n` symbols.
pub proof fn lemma_symbols_of_bytes_len(b: Seq<u8>)
    ensures
        symbols_of_bytes(b).len() == 4 * b.len(),
    decreases b.len(),
{
    if b.len() > 0 {
        lemma_symbols_of_bytes_len(b.drop_first());
    }
}

/// Packing a well-formed symbol sequence yields one byte per four symbols.
pub proof fn lemma_bytes_of_symbols_len(s: Seq<Nucleotide>)
    requires
        s.len() % 4 == 0,
    ensures
        4 * bytes_of_symbols(s).len() == s.len(),
    decreases s.len(),
{
    if s.len() >= 4 {
        lemma_bytes_of_symbols_len(s.skip(4));
    }
}

/// Unpacking distributes over appending one byte at the end.
pub proof fn lemma_symbols_of_bytes_push(b: Seq<u8>, x: u8)
    ensures
        symbols_of_bytes(b.push(x)) == symbols_of_bytes(b) + nucs_of_byte(x),
    decreases b.len(),
{
    if b.len() == 0 {
        assert(b.push(x).drop_first() =~= b);
        assert(symbols_of_bytes(b.push(x)) =~= symbols_of_bytes(b) + nucs_of_byte(x));
    } else {
        assert(b.push(x).drop_first() =~= b.drop_first().push(x));
        lemma_symbols_of_bytes_push(b.drop_first(), x);
        assert(symbols_of_bytes(b.push(x)) =~= symbols_of_bytes(b) + nucs_of_byte(x));
    }
}

/// Packing distributes over appending one whole symbol group at the end.
pub proof fn lemma_bytes_of_symbols_append4(s: Seq<Nucleotide>, t: Seq<Nucleotide>)
    requires
        s.len() % 4 == 0,
        t.len() == 4,
    ensures
        bytes_of_symbols(s + t) == bytes_of_symbols(s).push(byte_of_nucs(t)),
    decreases s.len(),
{
    if s.len() == 0 {
        assert(s + t =~= t);
        assert(t.skip(4) =~= Seq::<Nucleotide>::empty());
        assert(bytes_of_symbols(Seq::<Nucleotide>::empty()) =~= Seq::<u8>::empty());
        assert(bytes_of_symbols(t) =~= seq![byte_of_nucs(t)]);
        assert(bytes_of_symbols(s) =~= Seq::<u8>::empty());
        assert(bytes_of_symbols(s + t) =~= bytes_of_symbols(s).push(byte_of_nucs(t)));
    } else {
        assert((s + t).skip(4) =~= s.skip(4) + t);
        lemma_bytes_of_symbols_append4(s.skip(4), t);
        assert(byte_of_nucs(s + t) == byte_of_nucs(s)) by {
            assert((s + t)[0] == s[0] && (s + t)[1] == s[1] && (s + t)[2] == s[2] && (s + t)[3]
                == s[3]);
        }
        assert(bytes_of_symbols(s + t) =~= bytes_of_symbols(s).push(byte_of_nucs(t)));
    }
}

/// Packing the symbols unpacked from a byte sequence gives the bytes back:
/// for every byte sequence `b`, `bytes_of_symbols(symbols_of_bytes(b)) == b`.
pub proof fn lemma_bytes_symbols_roundtrip(b: Seq<u8>)
    ensures
        symbols_of_bytes(b).len() % 4 == 0,
        bytes_of_symbols(symbols_of_bytes(b)) == b,
    decreases b.len(),
{
    lemma_symbols_of_bytes_len(b);
    if b.len() == 0 {
        assert(bytes_of_symbols(symbols_of_bytes(b)) =~= b);
    } else {
        let s = symbols_of_bytes(b);
        let rest = symbols_of_bytes(b.drop_first());
        lemma_symbols_of_bytes_len(b.drop_first());
        lemma_bytes_symbols_roundtrip(b.drop_first());
        assert(s.skip(4) =~= rest);
        assert(s.take(4) =~= nucs_of_byte(b.first()));
        lemma_pack_unpack(b.first());
        assert(byte_of_nucs(s) == byte_of_nucs(s.take(4))) by {
            assert(s[0] == s.take(4)[0] && s[1] == s.take(4)[1] && s[2] == s.take(4)[2] && s[3]
                == s.take(4)[3]);
        }
        assert(bytes_of_symbols(s) =~= b);
    }
}

/// Unpacking the bytes packed from a well-formed symbol sequence gives the
/// symbols back: for every `s` with `s.len() % 4 == 0`,
/// `symbols_of_bytes(bytes_of_symbols(s)) == s`.
pub proof fn lemma_symbols_bytes_roundtrip(s: Seq<Nucleotide>)
    requires
        s.len() % 4 == 0,
    ensures
        symbols_of_bytes(bytes_of_symbols(s)) == s,
    decreases s.len(),
{
    if s.len() == 0 {
        assert(symbols_of_bytes(bytes_of_symbols(s)) =~= s);
    } else {
        let bs = bytes_of_symbols(s);
        assert(bs == seq![byte_of_nucs(s)] + bytes_of_symbols(s.skip(4)));
        lemma_symbols_bytes_roundtrip(s.skip(4));
        assert(bs.first() == byte_of_nucs(s));
        assert(bs.drop_first() =~= bytes_of_symbols(s.skip(4)));
        assert(byte_of_nucs(s) == byte_of_nucs(s.take(4))) by {
            assert(s[0] == s.take(4)[0] && s[1] == s.take(4)[1] && s[2] == s.take(4)[2] && s[3]
                == s.take(4)[3]);
        }
        lemma_unpack_pack(s.take(4));
        assert(symbols_of_bytes(bs) == nucs_of_byte(bs.first()) + symbols_of_bytes(
            bs.drop_first(),
        ));
        assert(symbols_of_bytes(bs) =~= s.take(4) + s.skip(4));
        assert(s.take(4) + s.skip(4) =~= s);
    }
}

/// Unpacks a byte slice into its symbol sequence, four symbols per byte.
pub fn bytes_to_dna(bytes: &[u8]) -> (r: Vec<Nucleotide>)
    ensures
        r@ == symbols_of_bytes(bytes@),
        r@.len() == 4 * bytes@.len(),
{
    let mut output: Vec<Nucleotide> = Vec::new();
    let mut i: usize = 0;
    proof {
        assert(bytes@.take(0) =~= Seq::<u8>::empty());
    }
    while i < bytes.len()
        invariant
            i <= bytes@.len(),
            output@ == symbols_of_bytes(bytes@.take(i as int)),
            output@.len() == 4 * i,
        decreases bytes@.len() - i,
    {
        let group = Nucleotide::to_nucleotides(bytes[i]);
        output.push(group[0]);
        output.push(group[1]);
        output.push(group[2]);
        output.push(group[3]);
        proof {
            lemma_symbols_of_bytes_push(bytes@.take(i as int), bytes@[i as int]);
            assert(bytes@.take(i + 1) =~= bytes@.take(i as int).push(bytes@[i as int]));
            assert(output@ =~= symbols_of_bytes(bytes@.take(i as int)) + nucs_of_byte(
                bytes@[i as int],
            ));
        }
        i = i + 1;
    }
    proof {
        assert(bytes@.take(bytes@.len() as int) =~= bytes@);
    }
    output
}

/// The packed byte form of a symbol sequence: each byte holds exactly four
/// symbols, the first of the four in the two most-significant bits.
#[derive(Clone, Debug, PartialEq, Eq)]
pub struct Chromosome(pub Vec<u8>);

impl View for Chromosome {
    type V = Seq<u8>;

    open spec fn view(&self) -> Seq<u8> {
        self.0@
    }
}

impl Chromosome {
    /// Packs a symbol sequence into a chromosome. The sequence's length must
    /// be a multiple of four; otherwise it is malformed and rejected.
    pub fn new(input: Vec<Nucleotide>) -> (r: Result<Chromosome, GeneticError>)
        ensures
            input@.len() % 4 == 0 ==> (r matches Ok(c) && c@ == bytes_of_symbols(input@)),
            input@.len() % 4 != 0 ==> (r matches Err(e) && e == GeneticError::MalformedLength),
    {
        match dna_to_bytes(input.as_slice()) {
            Ok(v) => Ok(Chromosome(v)),
            Err(e) => Err(e),
        }
    }

    /// Unpacks this chromosome back into the symbol sequence it packs.
    pub fn get_dna(&self) -> (r: Vec<Nucleotide>)
        ensures
            r@ == symbols_of_bytes(self@),
            r@.len() == 4 * self@.len(),
    {
        bytes_to_dna(self.0.as_slice())
    }
}

/// Packs a symbol slice into its byte sequence, one byte per four symbols.
/// The length must be a multiple of four; otherwise the sequence is malformed
/// and nothing is packed.
pub fn dna_to_bytes(dna: &[Nucleotide]) -> (r: Result<Vec<u8>, GeneticError>)
    ensures
        dna@.len() % 4 == 0 ==> (r matches Ok(v) && v@ == bytes_of_symbols(dna@)),
        dna@.len() % 4 != 0 ==> (r matches Err(e) && e == GeneticError::MalformedLength),
{
    if dna.len() % 4 != 0 {
        return Err(GeneticError::MalformedLength);
    }
    let mut output: Vec<u8> = Vec::new();
    let mut i: usize = 0;
    proof {
        assert(dna@.take(0) =~= Seq::<Nucleotide>::empty());
    }
    while i < dna.len()
        invariant
            i <= dna@.len(),
            i % 4 == 0,
            dna@.len() % 4 == 0,
            output@ == bytes_of_symbols(dna@.take(i as int)),
        decreases dna@.len() - i,
    {
        assert(dna@.len() - i >= 4) by {
            assert(i < dna@.len());
        }
        let group: [Nucleotide; 4] = [dna[i], dna[i + 1], dna[i + 2], dna[i + 3]];
        let byte = Nucleotide::to_u8(group.as_slice());
        output.push(byte);
        proof {
            let prev = dna@.take(i as int);
            let grp = dna@.subrange(i as int, i + 4);
            assert(group@ =~= grp);
            lemma_bytes_of_symbols_append4(prev, grp);
            assert(dna@.take(i + 4) =~= prev + grp);
            assert(byte_of_nucs(grp) == byte_of_nucs(group@));
        }
        i = i + 4;
    }
    proof {
        assert(dna@.take(dna@.len() as int) =~= dna@);
    }
    Ok(output)
}

} // verus!
