//! The spectral remap: each analysed bin `k` lands on the bin `dest[k]`
//! that the pitch ratio moves it to. Magnitudes landing on one bin add up;
//! of the frequencies landing on one bin the last one stays; bins that land
//! at or above the half spectrum are dropped. The arithmetic on magnitudes
//! is the caller's `mix`.

use vstd::prelude::*;

verus! {

/// The values of the source bins among the first `n` that land on bin `d`,
/// in ascending source order.
pub open spec fn landing<M>(dest: Seq<usize>, values: Seq<M>, d: int, n: int) -> Seq<M>
    decreases n,
{
    if n <= 0 {
        Seq::empty()
    } else if dest[n - 1] == d {
        landing(dest, values, d, n - 1).push(values[n - 1])
    } else {
        landing(dest, values, d, n - 1)
    }
}

/// The last source bin among the first `n` that lands on bin `d`.
pub open spec fn last_landing(dest: Seq<usize>, d: int, n: int) -> Option<int>
    decreases n,
{
    if n <= 0 {
        None
    } else if dest[n - 1] == d {
        Some(n - 1)
    } else {
        last_landing(dest, d, n - 1)
    }
}

/// Whether `r` is a result of folding `mix` over `xs` from `start`, left to right.
pub open spec fn folds_to<M, A: Fn(M, M) -> M>(mix: A, start: M, xs: Seq<M>, r: M) -> bool
    decreases xs.len(),
{
    if xs.len() == 0 {
        r == start
    } else {
        exists|m: M| folds_to(mix, start, xs.drop_last(), m) && #[trigger] mix.ensures((m, xs.last()), r)
    }
}

/// The frequency that bin `d` holds once the first `n` source bins are
/// remapped: that of the last source bin landing on it, or `silence` when
/// none does or `d` lies at or above `half_frame_size`.
pub open spec fn remapped_frequency<F>(
    dest: Seq<usize>,
    frequencies: Seq<F>,
    half_frame_size: int,
    silence: F,
    d: int,
    n: int,
) -> F {
    if d < half_frame_size {
        match last_landing(dest, d, n) {
            Some(k) => frequencies[k],
            None => silence,
        }
    } else {
        silence
    }
}

/// Remaps one analysed spectrum. Every bin of both outputs starts at its
/// silence value; then, for each source bin `k` in ascending order whose
/// destination `dest[k]` lies below `half_frame_size`, `mix` brings its
/// magnitude into the destination and its frequency replaces the
/// destination's.
pub fn remap_bins<M: Copy, F: Copy, A: Fn(M, M) -> M>(
    dest: &Vec<usize>,
    magnitudes: &Vec<M>,
    frequencies: &Vec<F>,
    half_frame_size: usize,
    mix: A,
    silent_magnitude: M,
    silent_frequency: F,
    synthesized_magnitude: &mut Vec<M>,
    synthesized_frequency: &mut Vec<F>,
)
    requires
        magnitudes.len() == dest.len(),
        frequencies.len() == dest.len(),
        half_frame_size <= old(synthesized_magnitude).len(),
        half_frame_size <= old(synthesized_frequency).len(),
        forall|a: M, b: M| mix.requires((a, b)),
    ensures
        final(synthesized_magnitude).len() == old(synthesized_magnitude).len(),
        final(synthesized_frequency).len() == old(synthesized_frequency).len(),
        forall|d: int|
            0 <= d < final(synthesized_magnitude).len() ==> if d < half_frame_size {
                folds_to(
                    mix,
                    silent_magnitude,
                    landing(dest@, magnitudes@, d, dest.len() as int),
                    #[trigger] final(synthesized_magnitude)@[d],
                )
            } else {
                final(synthesized_magnitude)@[d] == silent_magnitude
            },
        forall|d: int|
            0 <= d < final(synthesized_frequency).len() ==> #[trigger] final(synthesized_frequency)@[d]
                == remapped_frequency(
                dest@,
                frequencies@,
                half_frame_size as int,
                silent_frequency,
                d,
                dest.len() as int,
            ),
{
    let mut i: usize = 0;
    while i < synthesized_magnitude.len()
        invariant
            synthesized_magnitude.len() == old(synthesized_magnitude).len(),
            i <= synthesized_magnitude.len(),
            forall|d: int| 0 <= d < i ==> synthesized_magnitude@[d] == silent_magnitude,
        decreases synthesized_magnitude.len() - i,
    {
        synthesized_magnitude.set(i, silent_magnitude);
        i = i + 1;
    }
    i = 0;
    while i < synthesized_frequency.len()
        invariant
            synthesized_frequency.len() == old(synthesized_frequency).len(),
            i <= synthesized_frequency.len(),
            forall|d: int| 0 <= d < i ==> synthesized_frequency@[d] == silent_frequency,
        decreases synthesized_frequency.len() - i,
    {
        synthesized_frequency.set(i, silent_frequency);
        i = i + 1;
    }
    let mut k: usize = 0;
    while k < dest.len()
        invariant
            magnitudes.len() == dest.len(),
            frequencies.len() == dest.len(),
            forall|a: M, b: M| mix.requires((a, b)),
            k <= dest.len(),
            half_frame_size <= synthesized_magnitude.len(),
            half_frame_size <= synthesized_frequency.len(),
            synthesized_magnitude.len() == old(synthesized_magnitude).len(),
            synthesized_frequency.len() == old(synthesized_frequency).len(),
            forall|d: int|
                0 <= d < synthesized_magnitude.len() ==> if d < half_frame_size {
                    folds_to(
                        mix,
                        silent_magnitude,
                        landing(dest@, magnitudes@, d, k as int),
                        #[trigger] synthesized_magnitude@[d],
                    )
                } else {
                    synthesized_magnitude@[d] == silent_magnitude
                },
            forall|d: int|
                0 <= d < synthesized_frequency.len() ==> #[trigger] synthesized_frequency@[d]
                    == remapped_frequency(
                    dest@,
                    frequencies@,
                    half_frame_size as int,
                    silent_frequency,
                    d,
                    k as int,
                ),
        decreases dest.len() - k,
    {
        let ghost old_magnitude = synthesized_magnitude@;
        let index = dest[k];
        if index < half_frame_size {
            let before = synthesized_magnitude[index];
            let value = magnitudes[k];
            let sum = mix(before, value);
            synthesized_magnitude.set(index, sum);
            synthesized_frequency.set(index, frequencies[k]);
            proof {
                let xs = landing(dest@, magnitudes@, index as int, k + 1);
                assert(xs.drop_last() =~= landing(dest@, magnitudes@, index as int, k as int));
                assert(folds_to(mix, silent_magnitude, xs.drop_last(), before));
                assert(xs.last() == value);
                assert(folds_to(mix, silent_magnitude, xs, sum));
            }
        }
        proof {
            assert forall|d: int|
                0 <= d < synthesized_magnitude.len() && d < half_frame_size && d != dest@[k as int] implies
                    folds_to(
                    mix,
                    silent_magnitude,
                    landing(dest@, magnitudes@, d, k + 1),
                    #[trigger] synthesized_magnitude@[d],
                ) by {
                assert(synthesized_magnitude@[d] == old_magnitude[d]);
                assert(landing(dest@, magnitudes@, d, k + 1) == landing(dest@, magnitudes@, d, k as int));
            }
        }
        k = k + 1;
    }
}

/// Two adjacent source bins that alone land on bin `d`: the bin's magnitude
/// is the sum of their two magnitudes (the silence value, plus the lower,
/// plus the upper), and its frequency is the upper bin's.
pub proof fn collapsed_bins_add_up<M>(dest: Seq<usize>, values: Seq<M>, k: int, d: int)
    requires
        0 <= k,
        k + 1 < dest.len(),
        values.len() == dest.len(),
        dest[k] == d,
        dest[k + 1] == d,
        forall|j: int| 0 <= j < dest.len() && j != k && j != k + 1 ==> dest[j] != d,
    ensures
        landing(dest, values, d, dest.len() as int) == seq![values[k], values[k + 1]],
        last_landing(dest, d, dest.len() as int) == Some(k + 1),
{
    lemma_landing_range(dest, values, d, k, dest.len() as int);
}

/// Landing on `d` over the first `n` sources when only `k` and `k + 1` land there.
proof fn lemma_landing_range<M>(dest: Seq<usize>, values: Seq<M>, d: int, k: int, n: int)
    requires
        0 <= k,
        k + 1 < dest.len(),
        0 <= n <= dest.len(),
        values.len() == dest.len(),
        dest[k] == d,
        dest[k + 1] == d,
        forall|j: int| 0 <= j < dest.len() && j != k && j != k + 1 ==> dest[j] != d,
    ensures
        landing(dest, values, d, n) == if n <= k {
            Seq::empty()
        } else if n == k + 1 {
            seq![values[k]]
        } else {
            seq![values[k], values[k + 1]]
        },
        last_landing(dest, d, n) == if n <= k {
            None
        } else if n == k + 1 {
            Some(k)
        } else {
            Some(k + 1)
        },
    decreases n,
{
    if n > 0 {
        lemma_landing_range(dest, values, d, k, n - 1);
        if n == k + 1 {
            assert(landing(dest, values, d, n) =~= seq![values[k]]);
        } else if n == k + 2 {
            assert(landing(dest, values, d, n) =~= seq![values[k], values[k + 1]]);
        }
    }
}

} // verus!
