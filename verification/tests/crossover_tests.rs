use dnacode::crossover::{crossover, prim_crossover};
use dnacode::error::GeneticError;
use dnacode::genetic::Genetic;
use dnacode::nucleotide::Nucleotide;
use dnacode::nucleotide::Nucleotide::{
    Adenine as A, Cytosine as C, Guanine as G, Thymine as T,
};
use rand::rngs::StdRng;
use rand::SeedableRng;

#[test]
fn crossover_base() {
    let dog0: f32 = 10.0;
    let dog1: f32 = 10.0;

    let v0: Vec<u8> = dog0.to_le_bytes().to_vec();
    let v1: Vec<u8> = dog1.to_le_bytes().to_vec();

    let mut rng = StdRng::seed_from_u64(7);
    let v2 = crossover(&v0, &v1, None, None, &mut rng).unwrap();
    let dog2 = f32::from_le_bytes([v2[0], v2[1], v2[2], v2[3]]);

    assert_eq!(dog0, dog2);
}

#[test]
fn crossover_length_is_kept() {
    let one: Vec<Nucleotide> = vec![A, A, A, A, A, A, A, A, A, A];
    let two: Vec<Nucleotide> = vec![T, T, T, T, T, T, T, T, T, T];
    for seed in 0..20u64 {
        let mut rng = StdRng::seed_from_u64(seed);
        let child = prim_crossover(&one, &two, 2, 5, &mut rng).unwrap();
        assert_eq!(one.len(), child.len());
        for (i, n) in child.iter().enumerate() {
            assert!(*n == one[i] || *n == two[i]);
        }
    }
}

#[test]
fn crossover_degenerate() {
    let v: Vec<Nucleotide> = vec![A, G, C, T, T, C, G, A];
    let mut rng = StdRng::seed_from_u64(1);
    let child = prim_crossover(&v, &v, 1, 3, &mut rng).unwrap();
    assert_eq!(v, child);
}

#[test]
fn crossover_typed_degenerate_every_type() {
    let mut rng = StdRng::seed_from_u64(42);
    assert_eq!(27u8, crossover(&27u8, &27u8, None, None, &mut rng).unwrap());
    assert_eq!(
        0x551Bu16,
        crossover(&0x551Bu16, &0x551Bu16, None, None, &mut rng).unwrap()
    );
    assert_eq!(
        0xDEAD_BEEFu32,
        crossover(&0xDEAD_BEEFu32, &0xDEAD_BEEFu32, None, None, &mut rng).unwrap()
    );
    assert_eq!(
        u64::MAX - 1,
        crossover(&(u64::MAX - 1), &(u64::MAX - 1), None, None, &mut rng).unwrap()
    );
    assert_eq!(-7i8, crossover(&-7i8, &-7i8, None, None, &mut rng).unwrap());
    assert_eq!(
        -700i16,
        crossover(&-700i16, &-700i16, None, None, &mut rng).unwrap()
    );
    assert_eq!(
        -70000i32,
        crossover(&-70000i32, &-70000i32, None, None, &mut rng).unwrap()
    );
    assert_eq!(
        i64::MIN,
        crossover(&i64::MIN, &i64::MIN, None, None, &mut rng).unwrap()
    );
    let buf: Vec<u8> = vec![1, 2, 3, 4];
    assert_eq!(
        buf,
        crossover(&buf, &buf, None, None, &mut rng).unwrap()
    );
    let text = String::from("gene");
    assert_eq!(
        text,
        crossover(&text, &text, None, None, &mut rng).unwrap()
    );
}

#[test]
fn crossover_mixes_parents() {
    let one: u64 = 0;
    let two: u64 = u64::MAX;
    let mut rng = StdRng::seed_from_u64(3);
    let child = crossover(&one, &two, Some(2), Some(6), &mut rng).unwrap();
    let dna = child.get_dna();
    // every symbol comes from one of the parents
    for n in dna.iter() {
        assert!(*n == A || *n == T);
    }
}

#[test]
fn crossover_bounds_rejected() {
    let one: Vec<Nucleotide> = vec![A, A, A, A, A, A, A, A];
    let two: Vec<Nucleotide> = vec![T, T, T, T, T, T, T, T];
    let short: Vec<Nucleotide> = vec![T, T, T, T];
    let mut rng = StdRng::seed_from_u64(5);
    assert_eq!(
        Err(GeneticError::LengthMismatch),
        prim_crossover(&one, &short, 1, 3, &mut rng)
    );
    assert_eq!(
        Err(GeneticError::InvalidSegmentBounds),
        prim_crossover(&one, &two, 0, 3, &mut rng)
    );
    assert_eq!(
        Err(GeneticError::InvalidSegmentBounds),
        prim_crossover(&one, &two, 1, 9, &mut rng)
    );
    assert_eq!(
        Err(GeneticError::InvalidSegmentBounds),
        prim_crossover(&one, &two, 3, 3, &mut rng)
    );
}

#[test]
fn crossover_typed_bounds_rejected() {
    let mut rng = StdRng::seed_from_u64(6);
    // a u8 encodes to four symbols, so a maximum fragment of five is too long
    assert_eq!(
        Err(GeneticError::InvalidSegmentBounds),
        crossover(&1u8, &2u8, Some(1), Some(5), &mut rng)
    );
    // encodings of different lengths cannot be crossed
    let small: Vec<u8> = vec![1];
    let large: Vec<u8> = vec![1, 2];
    assert_eq!(
        Err(GeneticError::LengthMismatch),
        crossover(&small, &large, None, None, &mut rng)
    );
}

#[test]
fn crossover_segments_run_lengths() {
    // with wholly distinct parents the copied runs are visible in the child:
    // every run but the last must be at least the minimum length, and every
    // run must be shorter than the maximum
    let one: Vec<Nucleotide> = vec![A; 40];
    let two: Vec<Nucleotide> = vec![T; 40];
    let min_segment: usize = 3;
    let max_segment: usize = 8;
    for seed in 0..20u64 {
        let mut rng = StdRng::seed_from_u64(seed);
        let child = prim_crossover(&one, &two, min_segment, max_segment, &mut rng).unwrap();
        let mut runs: Vec<usize> = Vec::new();
        let mut current: usize = 1;
        for i in 1..child.len() {
            if child[i] == child[i - 1] {
                current += 1;
            } else {
                runs.push(current);
                current = 1;
            }
        }
        runs.push(current);
        for (i, run) in runs.iter().enumerate() {
            // adjacent segments drawn from the same parent merge into one
            // visible run, so a run may span several segments; it still can
            // never be shorter than one segment is allowed to be
            assert!(*run >= 1);
            if i + 1 < runs.len() {
                assert!(*run >= min_segment);
            }
        }
    }
}
