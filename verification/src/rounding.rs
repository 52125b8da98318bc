//! Rounding buffer sizes up to what a device works with.

use vstd::arithmetic::div_mod::{
    lemma_fundamental_div_mod, lemma_hoist_over_denominator, lemma_mod_bound,
    lemma_mod_decreases, lemma_mod_multiples_basic,
};
use vstd::prelude::*;

verus! {

/// Multiple of the device's `round` parameter to use for the buffer size where
/// the user leaves the choice open.
pub const DEFAULT_ROUND_MULTIPLE: usize = 2;

/// The frame count used for `requested` frames: the next multiple of `round`,
/// and `round` itself where no frame is requested.
pub open spec fn rounded_frame_count(requested: nat, round: nat) -> nat {
    if requested == 0 {
        round
    } else {
        ((requested + round - 1) as nat / round) * round
    }
}

/// There is a frame count for `requested` frames, and it can be represented.
pub open spec fn can_round(requested: nat, round: nat) -> bool {
    requested > 0 ==> round > 0 && rounded_frame_count(requested, round) <= usize::MAX
}

proof fn lemma_round_up(requested: nat, round: nat)
    requires
        requested > 0,
        round > 0,
    ensures
        rounded_frame_count(requested, round) == requested - 1 - (requested - 1) % round as int + round,
{
    let q = (requested - 1) / round as int;
    lemma_fundamental_div_mod(requested - 1, round as int);
    lemma_hoist_over_denominator(requested - 1, 1, round);
    assert((q + 1) * round == round * q + round) by (nonlinear_arith);
}

/// Rounds `requested` frames up to the next multiple of `round`.
pub fn round_frame_count(requested: u32, round: usize) -> (count: usize)
    requires
        can_round(requested as nat, round as nat),
    ensures
        count == rounded_frame_count(requested as nat, round as nat),
{
    if requested > 0 {
        proof {
            lemma_round_up(requested as nat, round as nat);
        }
        let last: usize = (requested - 1) as usize;
        proof {
            lemma_mod_decreases(last as nat, round as nat);
        }
        last - last % round + round
    } else {
        round
    }
}

/// Whether there is a frame count for `requested` frames that can be represented.
pub fn can_round_frame_count(requested: u32, round: u32) -> (res: bool)
    ensures
        res == can_round(requested as nat, round as nat),
{
    if requested == 0 {
        return true;
    }
    if round == 0 {
        return false;
    }
    proof {
        lemma_round_up(requested as nat, round as nat);
        lemma_mod_decreases((requested - 1) as nat, round as nat);
    }
    let last: u32 = requested - 1;
    (last - last % round) as u64 + round as u64 <= usize::MAX as u64
}

/// `count` is a multiple of `round`; the only multiple of 0 is 0.
pub open spec fn is_multiple(count: int, round: int) -> bool {
    if round == 0 {
        count == 0
    } else {
        count % round == 0
    }
}

/// The rounded frame count is a multiple of `round`, is no less than what was
/// requested, and is the least such multiple that is not 0.
pub proof fn law_rounding_is_the_next_multiple(requested: nat, round: nat, other: nat)
    requires
        round > 0,
    ensures
        is_multiple(rounded_frame_count(requested, round) as int, round as int),
        rounded_frame_count(requested, round) >= requested,
        rounded_frame_count(requested, round) >= round,
        is_multiple(other as int, round as int) && other >= requested && other > 0
            ==> other >= rounded_frame_count(requested, round),
{
    let m = round as int;
    let count = rounded_frame_count(requested, round) as int;
    let k = if requested == 0 {
        1
    } else {
        (requested + round - 1) as nat / round
    };
    assert(count == k * m);
    lemma_mod_multiples_basic(k as int, m);
    if requested > 0 {
        lemma_round_up(requested, round);
        lemma_mod_bound(requested - 1, m);
        lemma_mod_decreases((requested - 1) as nat, round);
    }
    if is_multiple(other as int, m) && other >= requested && other > 0 {
        let j = other as int / m;
        lemma_fundamental_div_mod(other as int, m);
        assert(j >= k) by (nonlinear_arith)
            requires
                m > 0,
                other == m * j,
                other > k * m - m,
        ;
        assert(other >= k * m) by (nonlinear_arith)
            requires
                m > 0,
                other == m * j,
                j >= k,
        ;
    }
}

/// Rounding a rounded frame count changes nothing.
pub proof fn law_rounding_is_idempotent(requested: nat, round: nat)
    requires
        round > 0,
    ensures
        rounded_frame_count(rounded_frame_count(requested, round), round) == rounded_frame_count(
            requested,
            round,
        ),
{
    let count = rounded_frame_count(requested, round);
    law_rounding_is_the_next_multiple(requested, round, count);
    law_rounding_is_the_next_multiple(count, round, count);
}

/// The rounded frame count in numbers: a whole number of rounds that reaches
/// what was requested by less than a round, and one round where nothing was requested.
pub proof fn law_rounded_count_in_numbers(requested: nat, round: nat)
    requires
        round > 0 || requested == 0,
    ensures
        ({
            let count = rounded_frame_count(requested, round);
            &&& requested == 0 ==> count == round
            &&& requested > 0 ==> count % round == 0 && requested <= count < requested + round
        }),
{
    if requested > 0 {
        law_rounding_is_the_next_multiple(requested, round, 0);
        lemma_round_up(requested, round);
        lemma_mod_bound(requested - 1, round as int);
        assert(rounded_frame_count(requested, round) % round == 0);
    }
}

/// A frame count that reaches the request by less than a round is the rounded one.
pub proof fn law_rounded_count_is_the_only_one(requested: nat, round: nat, count: nat)
    requires
        round > 0,
        requested > 0,
        count % round == 0,
        requested <= count < requested + round,
    ensures
        count == rounded_frame_count(requested, round),
{
    let rounded = rounded_frame_count(requested, round);
    law_rounding_is_the_next_multiple(requested, round, count);
    law_rounded_count_in_numbers(requested, round);
    let a = count as int / round as int;
    let b = rounded as int / round as int;
    let m = round as int;
    lemma_fundamental_div_mod(count as int, m);
    lemma_fundamental_div_mod(rounded as int, m);
    assert(a < b + 1) by (nonlinear_arith)
        requires
            count == m * a,
            rounded == m * b,
            count < rounded + m,
            m > 0,
    ;
    assert(a >= b) by (nonlinear_arith)
        requires
            count == m * a,
            rounded == m * b,
            count >= rounded,
            m > 0,
    ;
}

/// A request can be rounded unless it is for some frames in rounds of none, or
/// comes to more than the machine can count.
pub proof fn law_when_a_request_can_be_rounded(requested: nat, round: nat)
    ensures
        requested == 0 ==> can_round(requested, round),
        requested > 0 && round == 0 ==> !can_round(requested, round),
        requested > 0 && round > 0 ==> (can_round(requested, round) <==> requested - 1 - (requested
            - 1) % round as int + round <= usize::MAX),
{
    if requested > 0 && round > 0 {
        lemma_round_up(requested, round);
    }
}

/// A number of rounds is a multiple of the round, and a multiple is as many
/// rounds as it has room for; there is one multiple of 0 only.
pub proof fn law_multiples_are_whole_rounds(count: nat, round: nat, k: nat)
    ensures
        is_multiple((k * round) as int, round as int),
        is_multiple(count as int, round as int) && round > 0 ==> count == (count / round) * round,
        is_multiple(count as int, 0) ==> count == 0,
{
    if round > 0 {
        lemma_mod_multiples_basic(k as int, round as int);
        if is_multiple(count as int, round as int) {
            lemma_fundamental_div_mod(count as int, round as int);
            assert(round * (count / round) == (count / round) * round) by (nonlinear_arith);
        }
    } else {
        assert(k * round == 0) by (nonlinear_arith)
            requires
                round == 0,
        ;
    }
}

} // verus!
