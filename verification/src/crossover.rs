use vstd::prelude::*;

use crate::error::GeneticError;
use crate::genetic::Genetic;
use crate::nucleotide::Nucleotide;
use crate::rng::{coin, rand_range};

verus! {

/// Segment bounds are usable for sequences of length `len` when the minimum
/// segment length is at least one and below the maximum, and the maximum does
/// not exceed the length.
pub open spec fn segment_bounds_ok(min_segment: int, max_segment: int, len: int) -> bool {
    1 <= min_segment && min_segment < max_segment && max_segment <= len
}

/// The offsets at which one crossover splits a sequence of length `len` into
/// contiguous segments: they start at zero, end at `len`, strictly increase,
/// every segment is shorter than `max_segment`, and every segment but the
/// last is at least `min_segment` long (the last may be shorter, to fit the
/// remaining length exactly).
pub open spec fn valid_segmentation(
    cuts: Seq<int>,
    len: int,
    min_segment: int,
    max_segment: int,
) -> bool {
    &&& cuts.len() >= 2
    &&& cuts[0] == 0
    &&& cuts[cuts.len() - 1] == len
    &&& forall|k: int| 0 <= k < cuts.len() ==> 0 <= #[trigger] cuts[k] <= len
    &&& forall|k: int| 0 <= k < cuts.len() - 1 ==> #[trigger] cuts[k] < cuts[k + 1]
    &&& forall|k: int| 0 <= k < cuts.len() - 1 ==> #[trigger] cuts[k + 1] - cuts[k] < max_segment
    &&& forall|k: int|
        0 <= k < cuts.len() - 1 ==> (min_segment <= #[trigger] cuts[k + 1] - cuts[k] || k
            == cuts.len() - 2)
}

/// Every segment of `d` delimited by `cuts` is copied whole from `a` or
/// whole from `b`.
pub open spec fn segments_from_parents(
    d: Seq<Nucleotide>,
    a: Seq<Nucleotide>,
    b: Seq<Nucleotide>,
    cuts: Seq<int>,
) -> bool {
    forall|k: int|
        0 <= k < cuts.len() - 1 ==> (#[trigger] d.subrange(cuts[k], cuts[k + 1]) == a.subrange(
            cuts[k],
            cuts[k + 1],
        ) || d.subrange(cuts[k], cuts[k + 1]) == b.subrange(cuts[k], cuts[k + 1]))
}

/// `d` is a possible crossover of the equal-length parents `a` and `b` under
/// the given segment bounds: it has the parents' length, every symbol comes
/// from one parent at the same position, and some segmentation obeying the
/// bounds copies each segment whole from one parent.
pub open spec fn is_crossover(
    d: Seq<Nucleotide>,
    a: Seq<Nucleotide>,
    b: Seq<Nucleotide>,
    min_segment: int,
    max_segment: int,
) -> bool {
    &&& d.len() == a.len()
    &&& forall|j: int| 0 <= j < d.len() ==> #[trigger] d[j] == a[j] || d[j] == b[j]
    &&& exists|cuts: Seq<int>|
        valid_segmentation(cuts, a.len() as int, min_segment, max_segment)
            && segments_from_parents(d, a, b, cuts)
}

/// Recombines two equal-length symbol sequences into one: starting at offset
/// zero it repeatedly draws a segment length from
/// `[min_segment, max_segment)`, clamps it to the remaining length, copies
/// that segment from the first parent with probability
/// `pick_num / pick_den` (and otherwise from the second), and advances until
/// the end.
///
/// The parents must have equal length, and the bounds must satisfy
/// `1 <= min_segment < max_segment <= len`; otherwise the corresponding
/// error is reported and nothing is produced. The probability must lie
/// between zero and one inclusive, so the numerator may not exceed the
/// denominator, which may not be zero.
pub fn prim_crossover_with_ratio(
    one: &Vec<Nucleotide>,
    two: &Vec<Nucleotide>,
    min_segment: usize,
    max_segment: usize,
    pick_num: u32,
    pick_den: u32,
    rng: &mut rand::rngs::StdRng,
) -> (r: Result<Vec<Nucleotide>, GeneticError>)
    requires
        0 < pick_den,
        pick_num <= pick_den,
    ensures
        one@.len() != two@.len() ==> (r matches Err(e) && e == GeneticError::LengthMismatch),
        one@.len() == two@.len() && !segment_bounds_ok(
            min_segment as int,
            max_segment as int,
            one@.len() as int,
        ) ==> (r matches Err(e) && e == GeneticError::InvalidSegmentBounds),
        one@.len() == two@.len() && segment_bounds_ok(
            min_segment as int,
            max_segment as int,
            one@.len() as int,
        ) ==> (r matches Ok(d) && is_crossover(
            d@,
            one@,
            two@,
            min_segment as int,
            max_segment as int,
        )),
        one@.len() == two@.len() && segment_bounds_ok(
            min_segment as int,
            max_segment as int,
            one@.len() as int,
        ) && one@ == two@ ==> (r matches Ok(d) && d@ == one@),
{
    if one.len() != two.len() {
        return Err(GeneticError::LengthMismatch);
    }
    if min_segment == 0 || max_segment > one.len() || min_segment >= max_segment {
        return Err(GeneticError::InvalidSegmentBounds);
    }
    let len = one.len();
    let mut output: Vec<Nucleotide> = Vec::new();
    let mut i: usize = 0;
    let ghost mut cuts: Seq<int> = seq![0int];
    while i < len
        invariant
            len == one@.len(),
            len == two@.len(),
            1 <= min_segment < max_segment <= len,
            0 < pick_den,
            pick_num <= pick_den,
            i <= len,
            output@.len() == i,
            forall|j: int|
                0 <= j < i ==> #[trigger] output@[j] == one@[j] || output@[j] == two@[j],
            cuts.len() >= 1,
            cuts[0] == 0,
            cuts[cuts.len() - 1] == i as int,
            forall|k: int| 0 <= k < cuts.len() ==> 0 <= #[trigger] cuts[k] <= i,
            forall|k: int| 0 <= k < cuts.len() - 1 ==> #[trigger] cuts[k] < cuts[k + 1],
            forall|k: int|
                0 <= k < cuts.len() - 1 ==> #[trigger] cuts[k + 1] - cuts[k] < max_segment,
            forall|k: int|
                0 <= k < cuts.len() - 1 ==> (min_segment <= #[trigger] cuts[k + 1] - cuts[k]
                    || cuts[k + 1] == len),
            segments_from_parents(output@, one@, two@, cuts),
        decreases len - i,
    {
        let seg = rand_range(rng, min_segment, max_segment);
        let remaining = len - i;
        let take_len = if seg >= remaining {
            remaining
        } else {
            seg
        };
        let from_one = coin(rng, pick_num, pick_den);
        let ghost prev = output@;
        let ghost src = if from_one {
            one@
        } else {
            two@
        };
        let mut j: usize = 0;
        while j < take_len
            invariant
                len == one@.len(),
                len == two@.len(),
                i + take_len <= len,
                j <= take_len,
                output@.len() == i + j,
                prev.len() == i,
                src == if from_one {
                    one@
                } else {
                    two@
                },
                output@ == prev + src.subrange(i as int, i + j),
            decreases take_len - j,
        {
            if from_one {
                output.push(one[i + j]);
            } else {
                output.push(two[i + j]);
            }
            proof {
                assert(output@ =~= prev + src.subrange(i as int, i + j + 1));
            }
            j = j + 1;
        }
        proof {
            let c = i + take_len;
            let prev_cuts = cuts;
            cuts = cuts.push(c as int);
            assert(cuts[cuts.len() - 1] == c as int);
            assert(forall|k: int| 0 <= k < prev_cuts.len() ==> cuts[k] == prev_cuts[k]);
            // the symbols just appended come from a parent at their own positions
            assert forall|j2: int| 0 <= j2 < c implies #[trigger] output@[j2] == one@[j2]
                || output@[j2] == two@[j2] by {
                if j2 >= i {
                    assert(output@[j2] == src.subrange(i as int, c as int)[j2 - i]);
                    assert(output@[j2] == src[j2]);
                }
            }
            // earlier segments are untouched by the append, the new one is a
            // whole slice of the chosen parent
            assert forall|k: int|
                0 <= k < cuts.len() - 1 implies (#[trigger] output@.subrange(cuts[k], cuts[k + 1])
                == one@.subrange(cuts[k], cuts[k + 1]) || output@.subrange(cuts[k], cuts[k + 1])
                == two@.subrange(cuts[k], cuts[k + 1])) by {
                if k < prev_cuts.len() - 1 {
                    assert(0 <= cuts[k] && cuts[k] < cuts[k + 1] && cuts[k + 1] <= i);
                    assert(output@.subrange(cuts[k], cuts[k + 1]) =~= prev.subrange(
                        cuts[k],
                        cuts[k + 1],
                    ));
                } else {
                    assert(cuts[k] == i as int && cuts[k + 1] == c as int);
                    assert(output@.subrange(i as int, c as int) =~= src.subrange(
                        i as int,
                        c as int,
                    ));
                }
            }
        }
        i = i + take_len;
    }
    proof {
        // with the offset at the full length, the recorded cut offsets form a
        // valid segmentation: a short segment can only stand at the very end
        assert forall|k: int|
            0 <= k < cuts.len() - 1 implies (min_segment <= #[trigger] cuts[k + 1] - cuts[k] || k
            == cuts.len() - 2) by {
            if cuts[k + 1] == len && k < cuts.len() - 2 {
                assert(cuts[k + 1] < cuts[k + 2]);
                assert(cuts[k + 2] <= len);
            }
        }
        assert(valid_segmentation(cuts, len as int, min_segment as int, max_segment as int));
        assert(is_crossover(output@, one@, two@, min_segment as int, max_segment as int));
        if one@ == two@ {
            assert(output@ =~= one@);
        }
    }
    Ok(output)
}

/// Recombines two equal-length symbol sequences into one with a fair coin
/// deciding which parent contributes each segment. The parents must have
/// equal length, and the bounds must satisfy
/// `1 <= min_segment < max_segment <= len`; otherwise the corresponding
/// error is reported and nothing is produced.
pub fn prim_crossover(
    one: &Vec<Nucleotide>,
    two: &Vec<Nucleotide>,
    min_segment: usize,
    max_segment: usize,
    rng: &mut rand::rngs::StdRng,
) -> (r: Result<Vec<Nucleotide>, GeneticError>)
    ensures
        one@.len() != two@.len() ==> (r matches Err(e) && e == GeneticError::LengthMismatch),
        one@.len() == two@.len() && !segment_bounds_ok(
            min_segment as int,
            max_segment as int,
            one@.len() as int,
        ) ==> (r matches Err(e) && e == GeneticError::InvalidSegmentBounds),
        one@.len() == two@.len() && segment_bounds_ok(
            min_segment as int,
            max_segment as int,
            one@.len() as int,
        ) ==> (r matches Ok(d) && is_crossover(
            d@,
            one@,
            two@,
            min_segment as int,
            max_segment as int,
        )),
        one@.len() == two@.len() && segment_bounds_ok(
            min_segment as int,
            max_segment as int,
            one@.len() as int,
        ) && one@ == two@ ==> (r matches Ok(d) && d@ == one@),
{
    prim_crossover_with_ratio(one, two, min_segment, max_segment, 1, 2, rng)
}

/// The fragment bound actually used: the caller's, or the default where none
/// is given.
pub open spec fn fragment_or(bound: Option<usize>, default_bound: usize) -> usize {
    match bound {
        Option::Some(x) => x,
        Option::None => default_bound,
    }
}

/// Recombines two values of an encodable type: encodes both, runs the
/// sequence-level crossover on the two encodings, and decodes the result.
/// The fragment bounds default to one and four.
///
/// Crossing a value with itself always succeeds and gives a value equal to
/// it. Crossing two values whose encodings differ in length, or with
/// unusable bounds, reports the corresponding error.
pub fn crossover<T: Genetic>(
    one: &T,
    two: &T,
    min_fragment: Option<usize>,
    max_fragment: Option<usize>,
    rng: &mut rand::rngs::StdRng,
) -> (r: Result<T, GeneticError>)
    ensures
        ({
            let a = T::dna_of(one@);
            let b = T::dna_of(two@);
            let mn = fragment_or(min_fragment, 1) as int;
            let mx = fragment_or(max_fragment, 4) as int;
            &&& a.len() != b.len() ==> (r matches Err(e) && e == GeneticError::LengthMismatch)
            &&& a.len() == b.len() && !segment_bounds_ok(mn, mx, a.len() as int) ==> (r matches Err(
                e,
            ) && e == GeneticError::InvalidSegmentBounds)
            &&& a.len() == b.len() && segment_bounds_ok(mn, mx, a.len() as int) ==> match r {
                Ok(v) => exists|d: Seq<Nucleotide>|
                    #[trigger] is_crossover(d, a, b, mn, mx) && T::decode_of(d) == Ok::<
                        T::V,
                        GeneticError,
                    >(v@),
                Err(e) => exists|d: Seq<Nucleotide>|
                    #[trigger] is_crossover(d, a, b, mn, mx) && T::decode_of(d) == Err::<
                        T::V,
                        GeneticError,
                    >(e),
            }
            &&& a.len() == b.len() && segment_bounds_ok(mn, mx, a.len() as int) && a == b ==> (
            r matches Ok(v) && v@ == one@)
        }),
{
    let one_dna = one.get_dna();
    let two_dna = two.get_dna();
    let mn = match min_fragment {
        Some(x) => x,
        None => 1,
    };
    let mx = match max_fragment {
        Some(x) => x,
        None => 4,
    };
    let d = match prim_crossover(&one_dna, &two_dna, mn, mx, rng) {
        Ok(d) => d,
        Err(e) => {
            return Err(e);
        },
    };
    proof {
        if T::dna_of(one@) == T::dna_of(two@) {
            T::lemma_round_trip(one@);
        }
    }
    match T::from_dna(d.as_slice()) {
        Ok(v) => Ok(v),
        Err(e) => Err(e),
    }
}

} // verus!
