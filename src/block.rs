//! The working block of one analysis cycle: the first `n` samples of the
//! input, right-padded with zeros when the input is shorter.
use vstd::prelude::*;

verus! {

/// The block of length `n` made from `data`: sample `i` of the input where
/// there is one, `zero` after its end. Samples beyond `n` are dropped.
pub open spec fn padded_block<T>(data: Seq<T>, n: nat, zero: T) -> Seq<T> {
    Seq::new(n, |i: int| if i < data.len() { data[i] } else { zero })
}

/// `len` copies of `zero`.
pub open spec fn zeros<T>(len: nat, zero: T) -> Seq<T> {
    Seq::new(len, |i: int| zero)
}

/// Copies up to `n` samples of `data` into a fresh block of exactly `n`
/// samples, filling the rest with `zero`.
pub fn prepare_block<T: Copy>(data: &[T], n: usize, zero: T) -> (block: Vec<T>)
    ensures
        block@ == padded_block(data@, n as nat, zero),
        block@.len() == n,
{
    let mut block: Vec<T> = Vec::new();
    let mut i: usize = 0;
    while i < n
        invariant
            i <= n,
            block@ == padded_block(data@, i as nat, zero),
        decreases n - i,
    {
        if i < data.len() {
            block.push(data[i]);
        } else {
            block.push(zero);
        }
        i = i + 1;
        assert(block@ =~= padded_block(data@, i as nat, zero));
    }
    block
}

/// Padding by hand changes nothing: a block of at most `n` samples gives the
/// same working block as that block followed by zeros up to length `n`.
pub proof fn explicit_zeros_give_same_block<T>(prefix: Seq<T>, n: nat, zero: T)
    requires
        prefix.len() <= n,
    ensures
        padded_block(prefix, n, zero) == padded_block(
            prefix + zeros((n - prefix.len()) as nat, zero),
            n,
            zero,
        ),
{
    assert(padded_block(prefix, n, zero) =~= padded_block(
        prefix + zeros((n - prefix.len()) as nat, zero),
        n,
        zero,
    ));
}

/// Silence stays silence: an all-zero input of at most `n` samples gives
/// an all-zero working block.
pub proof fn silence_gives_silent_block<T>(len: nat, n: nat, zero: T)
    requires
        len <= n,
    ensures
        padded_block(zeros(len, zero), n, zero) == zeros(n, zero),
{
    assert(padded_block(zeros(len, zero), n, zero) =~= zeros(n, zero));
}

/// Only the first `n` samples count: inputs that agree on them give the
/// same working block, whatever follows.
pub proof fn excess_samples_are_dropped<T>(data: Seq<T>, n: nat, zero: T)
    requires
        data.len() >= n,
    ensures
        padded_block(data, n, zero) == data.take(n as int),
{
    assert(padded_block(data, n, zero) =~= data.take(n as int));
}

} // verus!
