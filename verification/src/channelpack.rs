//! The wire layout of pixel data: interleaving a family of equally long
//! channel sequences into one packed sequence, and slicing a packed
//! sequence back into channels. The two directions are proved inverse to
//! each other, which is the heart of the planar/packed round-trip
//! guarantees.

use vstd::arithmetic::div_mod::{lemma_div_pos_is_pos, lemma_fundamental_div_mod,
    lemma_fundamental_div_mod_converse_div, lemma_fundamental_div_mod_converse_mod,
    lemma_mod_bound, lemma_multiply_divide_lt};
use vstd::prelude::*;

verus! {

/// The packed (channel-interleaved) form of the channel family `chans`,
/// each channel read up to `n` elements: element `i * k + j` of the result
/// is element `i` of channel `j`, where `k` is the number of channels.
pub open spec fn interleaved<T>(chans: Seq<Seq<T>>, n: int) -> Seq<T>
    recommends
        chans.len() >= 1,
        n >= 0,
{
    Seq::new((chans.len() * n) as nat, |i: int| chans[i % (chans.len() as int)][i / (chans.len() as int)])
}

/// Channel `j` of a packed sequence with `k` elements per pixel and `n`
/// pixels: the elements at indices `j, k + j, 2k + j, ...`.
pub open spec fn channel_slice<T>(data: Seq<T>, k: int, j: int, n: int) -> Seq<T>
    recommends
        k >= 1,
        0 <= j < k,
        n >= 0,
{
    Seq::new(n as nat, |i: int| data[i * k + j])
}

/// Re-interleaving the channel slices of a packed sequence reproduces the
/// sequence: for every packed `data` holding `n` pixels of `k` elements,
/// the interleaving of `channel_slice(data, k, 0, n)` through
/// `channel_slice(data, k, k - 1, n)` is `data` itself.
pub proof fn lemma_interleaved_of_channels<T>(data: Seq<T>, k: int, n: int)
    requires
        k >= 1,
        n >= 0,
        data.len() == k * n,
    ensures
        interleaved(Seq::new(k as nat, |j: int| channel_slice(data, k, j, n)), n) == data,
{
    let chans = Seq::new(k as nat, |j: int| channel_slice(data, k, j, n));
    let packed = interleaved(chans, n);
    assert forall|i: int| 0 <= i < k * n implies packed[i] == data[i] by {
        lemma_mod_bound(i, k);
        lemma_div_pos_is_pos(i, k);
        lemma_multiply_divide_lt(i, k, n);
        lemma_fundamental_div_mod(i, k);
        assert((i / k) * k + (i % k) == i) by (nonlinear_arith)
            requires
                i == k * (i / k) + (i % k),
        ;
        assert(packed[i] == chans[i % k][i / k]);
        assert(chans[i % k][i / k] == data[(i / k) * k + (i % k)]);
    }
    assert(packed =~= data);
}

/// Interleaving one more pixel appends one sample of each channel, in
/// channel order, to the packed sequence.
pub(crate) proof fn lemma_interleaved_step<T>(chans: Seq<Seq<T>>, m: int)
    requires
        chans.len() >= 1,
        m >= 0,
    ensures
        interleaved(chans, m + 1) == interleaved(chans, m) + Seq::new(
            chans.len(),
            |j: int| chans[j][m],
        ),
{
    let k = chans.len() as int;
    let longer = interleaved(chans, m + 1);
    let step = interleaved(chans, m) + Seq::new(chans.len(), |j: int| chans[j][m]);
    assert(longer.len() == step.len()) by (nonlinear_arith)
        requires
            longer.len() == k * (m + 1),
            step.len() == k * m + k,
            k >= 1,
            m >= 0,
    ;
    assert forall|idx: int| 0 <= idx < k * (m + 1) implies longer[idx] == step[idx] by {
        if idx < k * m {
            assert(step[idx] == chans[idx % k][idx / k]);
        } else {
            let j = idx - k * m;
            assert(0 <= j < k);
            assert(idx == m * k + j) by (nonlinear_arith)
                requires
                    j == idx - k * m,
            ;
            lemma_fundamental_div_mod_converse_mod(idx, k, m, j);
            lemma_fundamental_div_mod_converse_div(idx, k, m, j);
            assert(longer[idx] == chans[j][m]);
            assert(step[idx] == chans[j][m]);
        }
    }
    assert(longer =~= step);
}

/// Slicing an interleaved sequence back into channels reproduces every
/// channel: for a family `chans` of `k` channels each holding at least `n`
/// elements, channel `j` of `interleaved(chans, n)` is the first `n`
/// elements of `chans[j]`.
pub proof fn lemma_channels_of_interleaved<T>(chans: Seq<Seq<T>>, n: int, j: int)
    requires
        chans.len() >= 1,
        n >= 0,
        0 <= j < chans.len(),
        chans[j].len() >= n,
    ensures
        channel_slice(interleaved(chans, n), chans.len() as int, j, n) == chans[j].subrange(0, n),
{
    let k = chans.len() as int;
    let packed = interleaved(chans, n);
    let back = channel_slice(packed, k, j, n);
    assert forall|i: int| 0 <= i < n implies back[i] == chans[j][i] by {
        assert(0 <= i * k + j < k * n) by (nonlinear_arith)
            requires
                0 <= i < n,
                0 <= j < k,
        ;
        lemma_fundamental_div_mod_converse_mod(i * k + j, k, i, j);
        lemma_fundamental_div_mod_converse_div(i * k + j, k, i, j);
        assert(back[i] == packed[i * k + j]);
        assert(packed[i * k + j] == chans[j][i]);
    }
    assert(back =~= chans[j].subrange(0, n));
}

} // verus!
