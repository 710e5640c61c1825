//! What staking and unstaking do to the attributes they do not manage: they
//! keep every attribute whose key is neither `staked` nor `staked_time`, in
//! order; and what an unstake leaves of the two staking entries.
use super::attributes::{
    loose_unstake_fold, restamp, stake_list, staked_key, staked_time_key, unstake_fold,
    unstake_list, zero_text,
};
use super::secure::{staked_attrs, Stake, Unstake};
use super::state::{spec_mpl_core_id, UpdateAuthority};
use super::errors::NftError;
use crate::decimal::parse_int;
use super::vulnerable::loose_unstaked_attrs;
use super::attributes::Attribute;
use vstd::prelude::*;

verus! {

/// Whether `k` is one of the two keys that staking manages.
pub open spec fn is_staking_key(k: Seq<char>) -> bool {
    k == staked_key() || k == staked_time_key()
}

/// The entries of `a` whose key staking does not manage, in order.
pub open spec fn other_entries(a: Seq<(Seq<char>, Seq<char>)>) -> Seq<(Seq<char>, Seq<char>)>
    decreases a.len(),
{
    if a.len() == 0 {
        Seq::empty()
    } else if is_staking_key(a.last().0) {
        other_entries(a.drop_last())
    } else {
        other_entries(a.drop_last()).push(a.last())
    }
}

/// Appending an entry appends it to the other entries, unless staking
/// manages its key.
pub proof fn lemma_other_entries_push(a: Seq<(Seq<char>, Seq<char>)>, x: (Seq<char>, Seq<char>))
    ensures
        other_entries(a.push(x)) == if is_staking_key(x.0) {
            other_entries(a)
        } else {
            other_entries(a).push(x)
        },
{
    assert(a.push(x).drop_last() =~= a);
}

proof fn lemma_keys_differ()
    ensures
        staked_key() != staked_time_key(),
        zero_text() != staked_key(),
{
    assert(staked_key().len() != staked_time_key().len());
    assert(staked_key().len() != zero_text().len());
}

/// Whether `out` holds no `staked_time` entry and every `staked` entry of it
/// holds `0`.
pub open spec fn staking_entries_reset(out: Seq<(Seq<char>, Seq<char>)>) -> bool {
    forall|i: int|
        0 <= i < out.len() ==> (#[trigger] out[i]).0 != staked_time_key() && (out[i].0
            == staked_key() ==> out[i].1 == zero_text())
}

proof fn lemma_unstake_fold_keeps_others(a: Seq<(Seq<char>, Seq<char>)>, now: i64)
    ensures
        unstake_fold(a, now) matches Ok(st) ==> other_entries(st.1) == other_entries(a)
            && staking_entries_reset(st.1),
    decreases a.len(),
{
    if a.len() > 0 {
        lemma_unstake_fold_keeps_others(a.drop_last(), now);
        lemma_keys_differ();
        match unstake_fold(a.drop_last(), now) {
            Ok(st) => {
                let x = a.last();
                lemma_other_entries_push(st.1, (staked_key(), zero_text()));
                lemma_other_entries_push(st.1, x);
                if unstake_fold(a, now) is Ok {
                    let st2 = unstake_fold(a, now)->Ok_0;
                    assert forall|i: int| 0 <= i < st2.1.len() implies (#[trigger] st2.1[i]).0
                        != staked_time_key() && (st2.1[i].0 == staked_key() ==> st2.1[i].1
                        == zero_text()) by {
                        if i < st.1.len() {
                            assert(st2.1[i] == st.1[i]);
                        }
                    }
                }
            },
            Err(_) => {},
        }
    }
}

/// Unstaking keeps every attribute whose key is neither `staked` nor
/// `staked_time`, in the same order; in the list it gives, every `staked`
/// entry holds `0` and the only `staked_time` entry is the last one.
pub proof fn law_unstake_keeps_other_attributes(a: Seq<(Seq<char>, Seq<char>)>, now: i64)
    ensures
        unstake_list(a, now) matches Ok(out) ==> {
            &&& other_entries(out) == other_entries(a)
            &&& out.len() >= 1
            &&& out.last().0 == staked_time_key()
            &&& staking_entries_reset(out.drop_last())
        },
{
    lemma_unstake_fold_keeps_others(a, now);
    lemma_keys_differ();
    if unstake_list(a, now) is Ok {
        let st = unstake_fold(a, now)->Ok_0;
        let x = (staked_time_key(), crate::decimal::decimal(st.0));
        lemma_other_entries_push(st.1, x);
        assert(st.1.push(x).drop_last() =~= st.1);
    }
}

proof fn lemma_loose_fold_keeps_others(a: Seq<(Seq<char>, Seq<char>)>, now: i64)
    ensures
        loose_unstake_fold(a, now) matches Some(st) ==> other_entries(st.1) == other_entries(a)
            && staking_entries_reset(st.1),
    decreases a.len(),
{
    if a.len() > 0 {
        lemma_loose_fold_keeps_others(a.drop_last(), now);
        lemma_keys_differ();
        match loose_unstake_fold(a.drop_last(), now) {
            Some(st) => {
                let x = a.last();
                lemma_other_entries_push(st.1, (staked_key(), zero_text()));
                lemma_other_entries_push(st.1, x);
                if loose_unstake_fold(a, now) is Some {
                    let st2 = loose_unstake_fold(a, now)->0;
                    assert forall|i: int| 0 <= i < st2.1.len() implies (#[trigger] st2.1[i]).0
                        != staked_time_key() && (st2.1[i].0 == staked_key() ==> st2.1[i].1
                        == zero_text()) by {
                        if i < st.1.len() {
                            assert(st2.1[i] == st.1[i]);
                        }
                    }
                }
            },
            None => {},
        }
    }
}

/// The weakened unstake keeps the other attributes too, in order, and also
/// resets every `staked` entry and ends with the only `staked_time` entry.
pub proof fn law_loose_unstake_keeps_other_attributes(a: Seq<(Seq<char>, Seq<char>)>, now: i64)
    requires
        loose_unstake_fold(a, now) is Some,
    ensures
        other_entries(loose_unstaked_attrs(a, now)) == other_entries(a),
        loose_unstaked_attrs(a, now).last().0 == staked_time_key(),
        staking_entries_reset(loose_unstaked_attrs(a, now).drop_last()),
{
    lemma_loose_fold_keeps_others(a, now);
    lemma_keys_differ();
    let st = loose_unstake_fold(a, now)->0;
    let x = (staked_time_key(), crate::decimal::decimal(st.0));
    lemma_other_entries_push(st.1, x);
    assert(st.1.push(x).drop_last() =~= st.1);
}

proof fn lemma_restamp_keeps_others(a: Seq<(Seq<char>, Seq<char>)>, stamp: Seq<char>)
    ensures
        other_entries(restamp(a, stamp)) == other_entries(a),
    decreases a.len(),
{
    if a.len() > 0 {
        lemma_restamp_keeps_others(a.drop_last(), stamp);
        assert(restamp(a, stamp).drop_last() =~= restamp(a.drop_last(), stamp));
    }
}

/// Staking keeps every attribute whose key is neither `staked` nor
/// `staked_time`, in the same order.
pub proof fn law_stake_keeps_other_attributes(before: Option<Vec<Attribute>>, now: i64)
    ensures
        other_entries(staked_attrs(before, now)) == match before {
            None => Seq::<(Seq<char>, Seq<char>)>::empty(),
            Some(l) => other_entries(super::attributes::attrs_view(l@)),
        },
{
    lemma_keys_differ();
    let stamp = crate::decimal::decimal(now as int);
    let fresh = super::attributes::fresh_staking_attributes(stamp);
    match before {
        None => {
            assert(fresh =~= Seq::<(Seq<char>, Seq<char>)>::empty().push(fresh[0]).push(fresh[1]));
            lemma_other_entries_push(Seq::empty(), fresh[0]);
            lemma_other_entries_push(Seq::empty().push(fresh[0]), fresh[1]);
            assert(other_entries(Seq::<(Seq<char>, Seq<char>)>::empty()) =~= Seq::empty());
        },
        Some(l) => {
            let a = super::attributes::attrs_view(l@);
            if super::attributes::has_key(a, staked_key()) {
                lemma_restamp_keeps_others(a, stamp);
            } else {
                assert(a + fresh =~= a.push(fresh[0]).push(fresh[1]));
                lemma_other_entries_push(a, fresh[0]);
                lemma_other_entries_push(a.push(fresh[0]), fresh[1]);
            }
            assert(stake_list(a, stamp) == staked_attrs(before, now));
        },
    }
}

/// A stake succeeds exactly when the signer owns the asset, the other
/// signer is the update authority of the collection and of its tracking
/// state, the asset belongs to the collection, the program is Metaplex Core,
/// no `staked` attribute of the asset holds a time other than `0`, and the
/// staked counter has room.
pub proof fn law_stake_succeeds_exactly(ctx: Stake)
    ensures
        ctx.error() is None <==> {
            &&& ctx.asset.owner == ctx.owner
            &&& ctx.collection.update_authority == ctx.update_authority
            &&& ctx.collection_state.authority == ctx.update_authority
            &&& ctx.asset.update_authority == UpdateAuthority::Collection(ctx.collection.key)
            &&& ctx.mpl_core_program == spec_mpl_core_id()
            &&& match ctx.asset.attributes {
                None => true,
                Some(l) => forall|i: int|
                    0 <= i < l@.len() ==> !(#[trigger] l@[i]@.0 == staked_key() && l@[i]@.1
                        != zero_text()),
            }
            &&& ctx.collection_state.total_staked < u64::MAX
        },
{
    match ctx.asset.attributes {
        None => {},
        Some(l) => {
            let a = super::attributes::attrs_view(l@);
            if super::attributes::already_staked(a) {
                let w = choose|j: int|
                    0 <= j < a.len() && #[trigger] a[j].0 == staked_key() && a[j].1 != zero_text();
                assert(a[w] == l@[w]@);
            } else {
                assert forall|i: int| 0 <= i < l@.len() implies !(#[trigger] l@[i]@.0
                    == staked_key() && l@[i]@.1 != zero_text()) by {
                    assert(a[i] == l@[i]@);
                    assert(a[i].0 == staked_key() ==> a[i].1 == zero_text());
                }
            }
        },
    }
}

/// Whether every `staked` entry of `a` holds a readable time other than `0`
/// and every `staked_time` entry a readable number.
pub open spec fn staking_entries_readable(a: Seq<(Seq<char>, Seq<char>)>) -> bool {
    forall|i: int|
        0 <= i < a.len() ==> (#[trigger] a[i].0 == staked_key() ==> a[i].1 != zero_text()
            && parse_int(a[i].1) is Some) && (a[i].0 == staked_time_key() ==> parse_int(a[i].1) is Some)
}

proof fn lemma_unstake_fold_needs_stake(a: Seq<(Seq<char>, Seq<char>)>, now: i64)
    ensures
        unstake_fold(a, now) matches Ok(st) ==> (st.2 <==> super::attributes::has_key(
            a,
            staked_key(),
        )) && staking_entries_readable(a),
    decreases a.len(),
{
    if a.len() > 0 {
        lemma_unstake_fold_needs_stake(a.drop_last(), now);
        lemma_keys_differ();
        let p = a.drop_last();
        if unstake_fold(a, now) is Ok {
            assert forall|i: int| 0 <= i < p.len() implies p[i] == a[i] by {}
            if super::attributes::has_key(a, staked_key()) && a.last().0 != staked_key() {
                let w = choose|j: int| 0 <= j < a.len() && #[trigger] a[j].0 == staked_key();
                assert(w < p.len());
                assert(p[w].0 == staked_key());
            }
            if super::attributes::has_key(p, staked_key()) {
                let w = choose|j: int| 0 <= j < p.len() && #[trigger] p[j].0 == staked_key();
                assert(a[w].0 == staked_key());
            }
            if a.last().0 == staked_key() {
                assert(a[a.len() - 1].0 == staked_key());
            }
            assert forall|i: int| 0 <= i < a.len() implies (#[trigger] a[i].0 == staked_key()
                ==> a[i].1 != zero_text() && parse_int(a[i].1) is Some) && (a[i].0
                == staked_time_key() ==> parse_int(a[i].1) is Some) by {
                if i < p.len() {
                    assert(p[i] == a[i]);
                }
            }
        }
    }
}

/// An unstake needs an active stake: it succeeds only on a list that holds
/// a `staked` entry, where every `staked` entry holds a readable time other
/// than `0` and every `staked_time` entry a readable number. A list without
/// any `staked` entry is refused with `StakingNotInitialized` unless an
/// entry is unreadable first.
pub proof fn law_unstake_needs_active_stake(a: Seq<(Seq<char>, Seq<char>)>, now: i64)
    ensures
        unstake_list(a, now) is Ok ==> super::attributes::has_key(a, staked_key())
            && staking_entries_readable(a),
        !super::attributes::has_key(a, staked_key()) && unstake_fold(a, now) is Ok ==> unstake_list(
            a,
            now,
        ) == Err::<Seq<(Seq<char>, Seq<char>)>, NftError>(NftError::StakingNotInitialized),
{
    lemma_unstake_fold_needs_stake(a, now);
}

/// An unstake succeeds exactly when the accounts are those of a stake (as
/// for `stake`), the asset has an attribute list that unstaking accepts, and
/// the staked counter is not zero.
pub proof fn law_unstake_succeeds_exactly(ctx: Unstake, now: i64)
    ensures
        ctx.error(now) is None <==> {
            &&& ctx.asset.owner == ctx.owner
            &&& ctx.collection.update_authority == ctx.update_authority
            &&& ctx.collection_state.authority == ctx.update_authority
            &&& ctx.asset.update_authority == UpdateAuthority::Collection(ctx.collection.key)
            &&& ctx.mpl_core_program == spec_mpl_core_id()
            &&& ctx.asset.attributes matches Some(l) && unstake_list(
                super::attributes::attrs_view(l@),
                now,
            ) is Ok
            &&& ctx.collection_state.total_staked > 0
        },
{
}

} // verus!
