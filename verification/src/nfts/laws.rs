//! What staking promises across instructions: the time between a stake and
//! the following unstake is added to the accumulated staking time, and a
//! staked asset is marked so that it cannot be staked again.
use super::attributes::{
    already_staked, fresh_staking_attributes, has_key, restamp, stake_list, staked_key,
    staked_time_key, unstake_fold, unstake_list, zero_text, Attribute,
};
use super::errors::NftError;
use super::secure::staked_attrs;
use crate::decimal::{decimal, law_parse_format_roundtrip};
use crate::num::fits_i64;
use vstd::prelude::*;

verus! {

/// The `staked` and `staked_time` keys differ.
proof fn lemma_keys_differ()
    ensures
        staked_key() != staked_time_key(),
{
    assert(staked_key().len() != staked_time_key().len());
}

/// The text of a nonzero time is not `0`.
proof fn lemma_stamp_not_zero(t: i64)
    requires
        t != 0,
    ensures
        decimal(t as int) != zero_text(),
{
    law_parse_format_roundtrip(t as int);
    law_parse_format_roundtrip(0);
    assert(decimal(0) =~= zero_text());
}

/// Staking an asset that has no attributes at time `t0` and unstaking it at
/// `t1` leaves it marked not staked, with `t1 - t0` seconds of staking time.
/// (A stake at time `0` writes the text `0`, which reads as not staked.)
pub proof fn law_fresh_stake_then_unstake(t0: i64, t1: i64)
    requires
        t0 != 0,
        fits_i64(t1 - t0),
    ensures
        unstake_list(staked_attrs(None, t0), t1) == Ok::<Seq<(Seq<char>, Seq<char>)>, NftError>(
            seq![(staked_key(), zero_text()), (staked_time_key(), decimal(t1 - t0))],
        ),
{
    let a = fresh_staking_attributes(decimal(t0 as int));
    lemma_keys_differ();
    lemma_stamp_not_zero(t0);
    law_parse_format_roundtrip(t0 as int);
    law_parse_format_roundtrip(0);
    assert(decimal(0) =~= zero_text());
    assert(a.drop_last().drop_last() =~= Seq::<(Seq<char>, Seq<char>)>::empty());
    assert(a.drop_last().last() == a[0]);
    assert(unstake_fold(a.drop_last().drop_last(), t1) == Ok::<
        (int, Seq<(Seq<char>, Seq<char>)>, bool),
        NftError,
    >((0, Seq::empty(), false)));
    let s1 = unstake_fold(a.drop_last(), t1);
    assert(s1 == Ok::<(int, Seq<(Seq<char>, Seq<char>)>, bool), NftError>(
        (t1 - t0, seq![(staked_key(), zero_text())], true),
    )) by {
        assert(Seq::<(Seq<char>, Seq<char>)>::empty().push((staked_key(), zero_text())) =~= seq![
            (staked_key(), zero_text()),
        ]);
    }
    assert(seq![(staked_key(), zero_text())].push((staked_time_key(), decimal(t1 - t0))) =~= seq![
        (staked_key(), zero_text()),
        (staked_time_key(), decimal(t1 - t0)),
    ]);
}

/// One staking cycle on an asset that is not staked and has accumulated
/// `total` seconds: staking it at `t0` records `t0`, and unstaking it at `t1`
/// marks it not staked again with `total + (t1 - t0)` seconds accumulated.
pub proof fn law_stake_cycle_accumulates(total: int, t0: i64, t1: i64)
    requires
        fits_i64(total),
        t0 != 0,
        fits_i64(t1 - t0),
        fits_i64(total + (t1 - t0)),
    ensures
        ({
            let before = seq![(staked_key(), zero_text()), (staked_time_key(), decimal(total))];
            let staked = seq![(staked_key(), decimal(t0 as int)), (staked_time_key(), decimal(total))];
            &&& stake_list(before, decimal(t0 as int)) == staked
            &&& unstake_list(staked, t1) == Ok::<Seq<(Seq<char>, Seq<char>)>, NftError>(
                seq![(staked_key(), zero_text()), (staked_time_key(), decimal(total + (t1 - t0)))],
            )
        }),
{
    let before = seq![(staked_key(), zero_text()), (staked_time_key(), decimal(total))];
    let staked = seq![(staked_key(), decimal(t0 as int)), (staked_time_key(), decimal(total))];
    lemma_keys_differ();
    lemma_stamp_not_zero(t0);
    law_parse_format_roundtrip(t0 as int);
    law_parse_format_roundtrip(total);
    assert(before[0].0 == staked_key());
    assert(has_key(before, staked_key()));
    assert(restamp(before, decimal(t0 as int)) =~= staked);
    assert(staked.drop_last().drop_last() =~= Seq::<(Seq<char>, Seq<char>)>::empty());
    assert(staked.drop_last().last() == staked[0]);
    assert(Seq::<(Seq<char>, Seq<char>)>::empty().push((staked_key(), zero_text())) =~= seq![
        (staked_key(), zero_text()),
    ]);
    assert(unstake_fold(staked.drop_last().drop_last(), t1) == Ok::<
        (int, Seq<(Seq<char>, Seq<char>)>, bool),
        NftError,
    >((0, Seq::empty(), false)));
    let s1 = unstake_fold(staked.drop_last(), t1);
    assert(s1 == Ok::<(int, Seq<(Seq<char>, Seq<char>)>, bool), NftError>(
        (t1 - t0, seq![(staked_key(), zero_text())], true),
    ));
    assert(unstake_fold(staked, t1) == Ok::<(int, Seq<(Seq<char>, Seq<char>)>, bool), NftError>(
        (total + (t1 - t0), seq![(staked_key(), zero_text())], true),
    ));
    assert(seq![(staked_key(), zero_text())].push((staked_time_key(), decimal(total + (t1 - t0))))
        =~= seq![(staked_key(), zero_text()), (staked_time_key(), decimal(total + (t1 - t0)))]);
}

/// After a stake at a nonzero time, the asset holds a `staked` entry other
/// than `0`, so that a second stake is refused with `AlreadyStaked`.
pub proof fn law_staked_asset_is_marked(before: Option<Vec<Attribute>>, t0: i64)
    requires
        t0 != 0,
    ensures
        already_staked(staked_attrs(before, t0)),
{
    lemma_stamp_not_zero(t0);
    let stamp = decimal(t0 as int);
    match before {
        None => {
            let r = fresh_staking_attributes(stamp);
            assert(r[0].0 == staked_key() && r[0].1 != zero_text());
        },
        Some(l) => {
            let a = super::attributes::attrs_view(l@);
            if has_key(a, staked_key()) {
                let w = choose|j: int| 0 <= j < a.len() && #[trigger] a[j].0 == staked_key();
                let r = restamp(a, stamp);
                assert(r[w].0 == staked_key() && r[w].1 != zero_text());
            } else {
                let r = a + fresh_staking_attributes(stamp);
                assert(r[a.len() as int].0 == staked_key() && r[a.len() as int].1 != zero_text());
            }
        },
    }
}

} // verus!
