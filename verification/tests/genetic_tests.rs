use dnacode::error::GeneticError;
use dnacode::genetic::Genetic;
use dnacode::nucleotide::Nucleotide;
use dnacode::nucleotide::Nucleotide::{
    Adenine as A, Cytosine as C, Guanine as G, Thymine as T,
};

const D4_0: [Nucleotide; 4] = [A, A, A, A];
const D8_0: [Nucleotide; 8] = [A, A, A, A, A, A, A, A];
const D16_0: [Nucleotide; 16] = [
    A, A, A, A, A, A, A, A, A, A, A, A, A, A, A, A,
];
const D32_0: [Nucleotide; 32] = [
    A, A, A, A, A, A, A, A, A, A, A, A, A, A, A, A, A, A, A, A, A, A, A, A, A, A, A, A, A, A, A, A,
];

const D12_0_85_27: [Nucleotide; 12] = [A, A, A, A, G, G, G, G, A, G, C, T];

const C1_0: [u8; 1] = [0];
const C2_0: [u8; 2] = [0, 0];
const C4_0: [u8; 4] = [0, 0, 0, 0];
const C8_0: [u8; 8] = [0, 0, 0, 0, 0, 0, 0, 0];

const C3_0_85_27: [u8; 3] = [0, 85, 27];

#[test]
fn nucleotides_to_u8() {
    assert_eq!(0, Nucleotide::to_u8(&D4_0));
    assert_ne!(u8::MAX, Nucleotide::to_u8(&D4_0));

    assert_eq!(D4_0.to_vec(), 0u8.get_dna());
    assert_ne!(D4_0.to_vec(), 1u8.get_dna());
}

#[test]
fn chromosome_compretion_0() {
    assert_eq!(0, Vec::<u8>::from_dna(&D4_0).unwrap()[0]);
    assert_eq!(vec![0, 0], Vec::<u8>::from_dna(&D8_0).unwrap());
    assert_eq!(vec![0, 0, 0, 0], Vec::<u8>::from_dna(&D16_0).unwrap());
    assert_eq!(
        vec![0, 0, 0, 0, 0, 0, 0, 0],
        Vec::<u8>::from_dna(&D32_0).unwrap()
    );
}

#[test]
fn chromosome_decompretion_0() {
    assert_eq!(D4_0.to_vec(), C1_0.to_vec().get_dna());
    assert_eq!(D8_0.to_vec(), C2_0.to_vec().get_dna());
    assert_eq!(D16_0.to_vec(), C4_0.to_vec().get_dna());
    assert_eq!(D32_0.to_vec(), C8_0.to_vec().get_dna());
}

#[test]
fn chromosome_decompretion() {
    assert_eq!(D12_0_85_27.to_vec(), C3_0_85_27.to_vec().get_dna());
}

#[test]
fn u8_roundtrip() {
    assert_eq!(vec![A, G, C, T], 27u8.get_dna());
    assert_eq!(4, 27u8.size());
    for v in [0u8, 1, 27, 85, 128, 255] {
        assert_eq!(v, u8::from_dna(&v.get_dna()).unwrap());
    }
}

#[test]
fn u16_roundtrip() {
    // 0x551B little-endian: byte 0x1B then byte 0x55
    assert_eq!(vec![A, G, C, T, G, G, G, G], 0x551Bu16.get_dna());
    assert_eq!(8, 0x551Bu16.size());
    for v in [0u16, 1, 0x551B, 0x8000, u16::MAX] {
        assert_eq!(v, u16::from_dna(&v.get_dna()).unwrap());
    }
}

#[test]
fn u32_roundtrip() {
    assert_eq!(16, 7u32.size());
    for v in [0u32, 1, 0xDEAD_BEEF, u32::MAX] {
        assert_eq!(v, u32::from_dna(&v.get_dna()).unwrap());
    }
}

#[test]
fn u64_roundtrip() {
    assert_eq!(32, 7u64.size());
    for v in [0u64, 1, 0xDEAD_BEEF_0BAD_CAFE, u64::MAX] {
        assert_eq!(v, u64::from_dna(&v.get_dna()).unwrap());
    }
}

#[test]
fn signed_roundtrips() {
    assert_eq!(4, (-1i8).size());
    assert_eq!(vec![T, T, T, T], (-1i8).get_dna());
    for v in [i8::MIN, -1, 0, 1, i8::MAX] {
        assert_eq!(v, i8::from_dna(&v.get_dna()).unwrap());
    }
    assert_eq!(8, (-2i16).size());
    for v in [i16::MIN, -1, 0, 1, i16::MAX] {
        assert_eq!(v, i16::from_dna(&v.get_dna()).unwrap());
    }
    assert_eq!(16, (-3i32).size());
    for v in [i32::MIN, -1, 0, 1, i32::MAX] {
        assert_eq!(v, i32::from_dna(&v.get_dna()).unwrap());
    }
    assert_eq!(32, (-4i64).size());
    for v in [i64::MIN, -1, 0, 1, i64::MAX] {
        assert_eq!(v, i64::from_dna(&v.get_dna()).unwrap());
    }
}

#[test]
fn byte_buffer_roundtrip() {
    let buf: Vec<u8> = vec![0, 85, 27, 255];
    assert_eq!(16, buf.size());
    assert_eq!(buf, Vec::<u8>::from_dna(&buf.get_dna()).unwrap());
    let empty: Vec<u8> = vec![];
    assert_eq!(0, empty.size());
    assert_eq!(empty, Vec::<u8>::from_dna(&empty.get_dna()).unwrap());
}

#[test]
fn string_roundtrip() {
    let s = String::from("hello");
    assert_eq!(20, s.size());
    assert_eq!(s, String::from_dna(&s.get_dna()).unwrap());
    let unicode = String::from("géné✓");
    assert_eq!(unicode, String::from_dna(&unicode.get_dna()).unwrap());
    let empty = String::new();
    assert_eq!(0, empty.size());
    assert_eq!(empty, String::from_dna(&empty.get_dna()).unwrap());
}

#[test]
fn string_expected_symbols() {
    // "h" is byte 0x68: 01 10 10 00 -> Guanine, Cytosine, Cytosine, Adenine
    assert_eq!(vec![G, C, C, A], String::from("h").get_dna());
}

#[test]
fn length_mismatch_rejected() {
    assert_eq!(Err(GeneticError::LengthMismatch), u8::from_dna(&D8_0));
    assert_eq!(Err(GeneticError::LengthMismatch), u16::from_dna(&D4_0));
    assert_eq!(Err(GeneticError::LengthMismatch), u32::from_dna(&D8_0));
    assert_eq!(Err(GeneticError::LengthMismatch), u64::from_dna(&D16_0));
    assert_eq!(Err(GeneticError::LengthMismatch), i8::from_dna(&D8_0));
    assert_eq!(Err(GeneticError::LengthMismatch), i16::from_dna(&D4_0));
    assert_eq!(Err(GeneticError::LengthMismatch), i32::from_dna(&D8_0));
    assert_eq!(Err(GeneticError::LengthMismatch), i64::from_dna(&D16_0));
}

#[test]
fn malformed_length_rejected_on_decode() {
    let three: [Nucleotide; 3] = [A, G, C];
    assert_eq!(
        Err(GeneticError::MalformedLength),
        Vec::<u8>::from_dna(&three)
    );
    assert_eq!(Err(GeneticError::MalformedLength), String::from_dna(&three));
}

#[test]
fn invalid_encoding_rejected() {
    // 0xFF is never valid UTF-8
    let bad = vec![0xFFu8].get_dna();
    assert_eq!(Err(GeneticError::InvalidEncoding), String::from_dna(&bad));
    // a lone continuation byte 0x80 is invalid as well
    let cont = vec![0x80u8].get_dna();
    assert_eq!(Err(GeneticError::InvalidEncoding), String::from_dna(&cont));
}
