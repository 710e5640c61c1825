//! The attribute list that staking keeps on an asset: a `staked` entry that
//! holds the time of the current stake (`0` when not staked) and a
//! `staked_time` entry that holds the seconds staked so far, both as base-10
//! text.
use super::errors::NftError;
use crate::decimal::{decimal, format_i64, parse_i64, parse_int};
use crate::num::fits_i64;
use vstd::prelude::*;
use vstd::string::{StrSliceExecFns, StringExecFns};

verus! {

/// Attribute key under which the time of the current stake is kept.
pub const STAKED_KEY: &'static str = "staked";

/// Attribute key under which the accumulated staking time is kept.
pub const STAKED_TIME_KEY: &'static str = "staked_time";

/// The text of `STAKED_KEY`.
pub open spec fn staked_key() -> Seq<char> {
    seq!['s', 't', 'a', 'k', 'e', 'd']
}

/// The text of `STAKED_TIME_KEY`.
pub open spec fn staked_time_key() -> Seq<char> {
    seq!['s', 't', 'a', 'k', 'e', 'd', '_', 't', 'i', 'm', 'e']
}

/// The text `0`, which marks an asset as not staked.
pub open spec fn zero_text() -> Seq<char> {
    seq!['0']
}

/// A key/value pair of an asset's Attributes plugin.
#[derive(Debug)]
pub struct Attribute {
    pub key: String,
    pub value: String,
}

impl View for Attribute {
    type V = (Seq<char>, Seq<char>);

    open spec fn view(&self) -> (Seq<char>, Seq<char>) {
        (self.key@, self.value@)
    }
}

/// The texts of a list of attributes.
pub open spec fn attrs_view(v: Seq<Attribute>) -> Seq<(Seq<char>, Seq<char>)> {
    v.map_values(|a: Attribute| a@)
}

/// Whether some attribute has key `k`.
pub open spec fn has_key(a: Seq<(Seq<char>, Seq<char>)>, k: Seq<char>) -> bool {
    exists|i: int| 0 <= i < a.len() && #[trigger] a[i].0 == k
}

/// Whether some `staked` attribute holds anything but `0`.
pub open spec fn already_staked(a: Seq<(Seq<char>, Seq<char>)>) -> bool {
    exists|i: int| 0 <= i < a.len() && #[trigger] a[i].0 == staked_key() && a[i].1 != zero_text()
}

/// Every `staked` attribute set to `stamp`, the others unchanged.
pub open spec fn restamp(a: Seq<(Seq<char>, Seq<char>)>, stamp: Seq<char>) -> Seq<
    (Seq<char>, Seq<char>),
> {
    a.map_values(
        |x: (Seq<char>, Seq<char>)|
            if x.0 == staked_key() {
                (staked_key(), stamp)
            } else {
                x
            },
    )
}

/// The two attributes that a first stake at `stamp` adds.
pub open spec fn fresh_staking_attributes(stamp: Seq<char>) -> Seq<(Seq<char>, Seq<char>)> {
    seq![(staked_key(), stamp), (staked_time_key(), zero_text())]
}

/// The attribute list after a stake at time `stamp`: the `staked` entries
/// restamped where there are any, else the two staking entries appended.
pub open spec fn stake_list(a: Seq<(Seq<char>, Seq<char>)>, stamp: Seq<char>) -> Seq<
    (Seq<char>, Seq<char>),
> {
    if has_key(a, staked_key()) {
        restamp(a, stamp)
    } else {
        a + fresh_staking_attributes(stamp)
    }
}

/// Whether two texts are equal, character by character.
pub fn text_eq(a: &str, b: &str) -> (r: bool)
    ensures
        r == (a@ == b@),
{
    let n = a.unicode_len();
    if n != b.unicode_len() {
        return false;
    }
    let mut i: usize = 0;
    while i < n
        invariant
            n == a@.len(),
            n == b@.len(),
            i <= n,
            forall|j: int| 0 <= j < i ==> a@[j] == b@[j],
        decreases n - i,
    {
        if a.get_char(i) != b.get_char(i) {
            return false;
        }
        i = i + 1;
    }
    assert(a@ =~= b@);
    true
}

/// Whether `s` is the `staked` key.
pub fn is_staked_key(s: &String) -> (r: bool)
    ensures
        r == (s@ == staked_key()),
{
    proof {
        reveal_strlit("staked");
        assert("staked"@ =~= staked_key());
    }
    text_eq(s.as_str(), "staked")
}

/// Whether `s` is the `staked_time` key.
pub fn is_staked_time_key(s: &String) -> (r: bool)
    ensures
        r == (s@ == staked_time_key()),
{
    proof {
        reveal_strlit("staked_time");
        assert("staked_time"@ =~= staked_time_key());
    }
    text_eq(s.as_str(), "staked_time")
}

/// Whether `s` is the text `0`.
pub fn is_zero_text(s: &String) -> (r: bool)
    ensures
        r == (s@ == zero_text()),
{
    proof {
        reveal_strlit("0");
        assert("0"@ =~= zero_text());
    }
    text_eq(s.as_str(), "0")
}

/// A `staked` attribute holding `value`.
fn staked_attribute(value: String) -> (a: Attribute)
    ensures
        a@ == (staked_key(), value@),
{
    proof {
        reveal_strlit("staked");
        assert("staked"@ =~= staked_key());
    }
    Attribute { key: String::from_str("staked"), value }
}

/// A `staked_time` attribute holding `value`.
fn staked_time_attribute(value: String) -> (a: Attribute)
    ensures
        a@ == (staked_time_key(), value@),
{
    proof {
        reveal_strlit("staked_time");
        assert("staked_time"@ =~= staked_time_key());
    }
    Attribute { key: String::from_str("staked_time"), value }
}

/// The text `0`.
fn zero_string() -> (s: String)
    ensures
        s@ == zero_text(),
{
    proof {
        reveal_strlit("0");
        assert("0"@ =~= zero_text());
    }
    String::from_str("0")
}

/// A copy of an attribute.
fn copy_attribute(a: &Attribute) -> (r: Attribute)
    ensures
        r@ == a@,
{
    Attribute { key: a.key.clone(), value: a.value.clone() }
}

/// The attribute list after a stake at time `now`, whatever the `staked`
/// entries held before.
pub fn stake_attributes(list: &Vec<Attribute>, now: i64) -> (r: Vec<Attribute>)
    ensures
        attrs_view(r@) == stake_list(attrs_view(list@), decimal(now as int)),
{
    let stamp = format_i64(now);
    let ghost v = attrs_view(list@);
    let mut out: Vec<Attribute> = Vec::new();
    let mut found = false;
    let mut i: usize = 0;
    while i < list.len()
        invariant
            i <= list.len(),
            v == attrs_view(list@),
            stamp@ == decimal(now as int),
            attrs_view(out@) == restamp(v.take(i as int), stamp@),
            found == has_key(v.take(i as int), staked_key()),
        decreases list.len() - i,
    {
        let a = &list[i];
        assert(v[i as int] == a@);
        if is_staked_key(&a.key) {
            out.push(staked_attribute(stamp.clone()));
            found = true;
        } else {
            out.push(copy_attribute(a));
        }
        proof {
            let t = v.take(i as int);
            let t1 = v.take(i as int + 1);
            assert(t1 =~= t.push(v[i as int]));
            assert(restamp(t1, stamp@) =~= restamp(t, stamp@).push(
                if v[i as int].0 == staked_key() {
                    (staked_key(), stamp@)
                } else {
                    v[i as int]
                },
            ));
            assert(attrs_view(out@) =~= restamp(t1, stamp@));
            if v[i as int].0 == staked_key() {
                assert(t1[i as int].0 == staked_key());
            }
            if has_key(t, staked_key()) {
                let w = choose|j: int| 0 <= j < t.len() && #[trigger] t[j].0 == staked_key();
                assert(t1[w].0 == staked_key());
            }
            if has_key(t1, staked_key()) {
                let w = choose|j: int| 0 <= j < t1.len() && #[trigger] t1[j].0 == staked_key();
                if w < i {
                    assert(t[w].0 == staked_key());
                }
            }
        }
        i = i + 1;
    }
    assert(v.take(list.len() as int) =~= v);
    if !found {
        assert forall|j: int| 0 <= j < v.len() implies restamp(v, stamp@)[j] == v[j] by {
            if v[j].0 == staked_key() {
                assert(has_key(v, staked_key()));
            }
        }
        assert(attrs_view(out@) =~= v);
        out.push(staked_attribute(stamp));
        out.push(staked_time_attribute(zero_string()));
        assert(attrs_view(out@) =~= v + fresh_staking_attributes(decimal(now as int)));
    } else {
        assert(attrs_view(out@) =~= restamp(v, decimal(now as int)));
    }
    out
}

/// Whether some `staked` attribute of the list holds anything but `0`.
pub fn find_active_stake(list: &Vec<Attribute>) -> (r: bool)
    ensures
        r == already_staked(attrs_view(list@)),
{
    let ghost v = attrs_view(list@);
    let mut i: usize = 0;
    while i < list.len()
        invariant
            i <= list.len(),
            v == attrs_view(list@),
            forall|j: int| 0 <= j < i ==> !(#[trigger] v[j].0 == staked_key() && v[j].1 != zero_text()),
        decreases list.len() - i,
    {
        let a = &list[i];
        assert(v[i as int] == a@);
        if is_staked_key(&a.key) && !is_zero_text(&a.value) {
            assert(v[i as int].0 == staked_key());
            return true;
        }
        i = i + 1;
    }
    false
}

/// One step of reading the attributes during an unstake, from the seconds
/// counted so far, the attributes kept so far and whether a `staked` entry
/// was met: a `staked` entry must hold a time other than `0`, whose distance
/// to `now` is counted and which is reset to `0`; a `staked_time` entry is
/// counted and dropped; any other entry is kept. Every sum must fit in an
/// `i64`.
pub open spec fn unstake_step(
    st: (int, Seq<(Seq<char>, Seq<char>)>, bool),
    x: (Seq<char>, Seq<char>),
    now: i64,
) -> Result<(int, Seq<(Seq<char>, Seq<char>)>, bool), NftError> {
    let (acc, out, init) = st;
    if x.0 == staked_key() {
        if x.1 == zero_text() {
            Err(NftError::NotStaked)
        } else {
            match parse_int(x.1) {
                None => Err(NftError::InvalidTimestamp),
                Some(ts) => if !fits_i64(now - ts) {
                    Err(NftError::Underflow)
                } else if !fits_i64(acc + (now - ts)) {
                    Err(NftError::Overflow)
                } else {
                    Ok((acc + (now - ts), out.push((staked_key(), zero_text())), true))
                },
            }
        }
    } else if x.0 == staked_time_key() {
        match parse_int(x.1) {
            None => Err(NftError::InvalidTimestamp),
            Some(t) => if !fits_i64(acc + t) {
                Err(NftError::Overflow)
            } else {
                Ok((acc + t, out, init))
            },
        }
    } else {
        Ok((acc, out.push(x), init))
    }
}

/// Reading a whole attribute list during an unstake, in order, stopping at
/// the first error.
pub open spec fn unstake_fold(a: Seq<(Seq<char>, Seq<char>)>, now: i64) -> Result<
    (int, Seq<(Seq<char>, Seq<char>)>, bool),
    NftError,
>
    decreases a.len(),
{
    if a.len() == 0 {
        Ok((0, Seq::empty(), false))
    } else {
        match unstake_fold(a.drop_last(), now) {
            Err(e) => Err(e),
            Ok(st) => unstake_step(st, a.last(), now),
        }
    }
}

/// The attribute list after an unstake at `now`, or why it is refused: the
/// entries kept, then a `staked_time` entry with the seconds counted; a list
/// without a `staked` entry is refused with `StakingNotInitialized`.
pub open spec fn unstake_list(a: Seq<(Seq<char>, Seq<char>)>, now: i64) -> Result<
    Seq<(Seq<char>, Seq<char>)>,
    NftError,
> {
    match unstake_fold(a, now) {
        Err(e) => Err(e),
        Ok(st) => if !st.2 {
            Err(NftError::StakingNotInitialized)
        } else {
            Ok(st.1.push((staked_time_key(), decimal(st.0))))
        },
    }
}

/// Once reading a prefix fails, reading the whole list fails the same way.
pub proof fn lemma_unstake_fold_err(a: Seq<(Seq<char>, Seq<char>)>, k: int, now: i64)
    requires
        0 <= k <= a.len(),
        unstake_fold(a.take(k), now) is Err,
    ensures
        unstake_fold(a, now) == unstake_fold(a.take(k), now),
    decreases a.len(),
{
    if k == a.len() {
        assert(a.take(k) =~= a);
    } else {
        assert(a.drop_last().take(k) =~= a.take(k));
        lemma_unstake_fold_err(a.drop_last(), k, now);
    }
}

/// The text of an attribute value read as an `i64`, `0` when it is not one.
pub open spec fn parse_or_zero(s: Seq<char>) -> int {
    match parse_int(s) {
        Some(v) => v,
        None => 0,
    }
}

/// One step of reading the attributes during an unstake that trusts the
/// values: unreadable times count as `0`, nothing is refused, and `None`
/// marks a sum that leaves the `i64` range.
pub open spec fn loose_unstake_step(
    st: (int, Seq<(Seq<char>, Seq<char>)>),
    x: (Seq<char>, Seq<char>),
    now: i64,
) -> Option<(int, Seq<(Seq<char>, Seq<char>)>)> {
    let (acc, out) = st;
    if x.0 == staked_key() {
        let d = now - parse_or_zero(x.1);
        if !fits_i64(d) || !fits_i64(acc + d) {
            None
        } else {
            Some((acc + d, out.push((staked_key(), zero_text()))))
        }
    } else if x.0 == staked_time_key() {
        if !fits_i64(acc + parse_or_zero(x.1)) {
            None
        } else {
            Some((acc + parse_or_zero(x.1), out))
        }
    } else {
        Some((acc, out.push(x)))
    }
}

/// Reading a whole attribute list with `loose_unstake_step`, in order.
pub open spec fn loose_unstake_fold(a: Seq<(Seq<char>, Seq<char>)>, now: i64) -> Option<
    (int, Seq<(Seq<char>, Seq<char>)>),
>
    decreases a.len(),
{
    if a.len() == 0 {
        Some((0, Seq::empty()))
    } else {
        match loose_unstake_fold(a.drop_last(), now) {
            None => None,
            Some(st) => loose_unstake_step(st, a.last(), now),
        }
    }
}

/// The attribute list after an unstake at `now` with `unstake_attributes`.
pub fn unstake_attributes(list: &Vec<Attribute>, now: i64) -> (r: Result<Vec<Attribute>, NftError>)
    ensures
        match r {
            Ok(out) => unstake_list(attrs_view(list@), now) == Ok::<
                Seq<(Seq<char>, Seq<char>)>,
                NftError,
            >(attrs_view(out@)),
            Err(e) => unstake_list(attrs_view(list@), now) == Err::<
                Seq<(Seq<char>, Seq<char>)>,
                NftError,
            >(e),
        },
{
    let ghost v = attrs_view(list@);
    let mut out: Vec<Attribute> = Vec::new();
    let mut initialized = false;
    let mut staked_time: i64 = 0;
    let mut i: usize = 0;
    assert(v.take(0) =~= Seq::<(Seq<char>, Seq<char>)>::empty());
    assert(attrs_view(out@) =~= Seq::<(Seq<char>, Seq<char>)>::empty());
    while i < list.len()
        invariant
            i <= list.len(),
            v == attrs_view(list@),
            unstake_fold(v.take(i as int), now) == Ok::<
                (int, Seq<(Seq<char>, Seq<char>)>, bool),
                NftError,
            >((staked_time as int, attrs_view(out@), initialized)),
        decreases list.len() - i,
    {
        let a = &list[i];
        let ghost t1 = v.take(i as int + 1);
        proof {
            assert(v[i as int] == a@);
            assert(t1.drop_last() =~= v.take(i as int));
            assert(t1.last() == a@);
        }
        let ghost prev_out = out@;
        if is_staked_key(&a.key) {
            if is_zero_text(&a.value) {
                proof {
                    lemma_unstake_fold_err(v, i as int + 1, now);
                }
                return Err(NftError::NotStaked);
            }
            let ts = match parse_i64(a.value.as_str()) {
                Some(t) => t,
                None => {
                    proof {
                        lemma_unstake_fold_err(v, i as int + 1, now);
                    }
                    return Err(NftError::InvalidTimestamp);
                },
            };
            let d = match now.checked_sub(ts) {
                Some(d) => d,
                None => {
                    proof {
                        lemma_unstake_fold_err(v, i as int + 1, now);
                    }
                    return Err(NftError::Underflow);
                },
            };
            staked_time = match staked_time.checked_add(d) {
                Some(s) => s,
                None => {
                    proof {
                        lemma_unstake_fold_err(v, i as int + 1, now);
                    }
                    return Err(NftError::Overflow);
                },
            };
            out.push(staked_attribute(zero_string()));
            initialized = true;
        } else if is_staked_time_key(&a.key) {
            let t = match parse_i64(a.value.as_str()) {
                Some(t) => t,
                None => {
                    proof {
                        lemma_unstake_fold_err(v, i as int + 1, now);
                    }
                    return Err(NftError::InvalidTimestamp);
                },
            };
            staked_time = match staked_time.checked_add(t) {
                Some(s) => s,
                None => {
                    proof {
                        lemma_unstake_fold_err(v, i as int + 1, now);
                    }
                    return Err(NftError::Overflow);
                },
            };
        } else {
            out.push(copy_attribute(a));
        }
        proof {
            assert(attrs_view(out@) =~= if a@.0 == staked_key() {
                attrs_view(prev_out).push((staked_key(), zero_text()))
            } else if a@.0 == staked_time_key() {
                attrs_view(prev_out)
            } else {
                attrs_view(prev_out).push(a@)
            });
        }
        i = i + 1;
    }
    assert(v.take(list.len() as int) =~= v);
    if !initialized {
        return Err(NftError::StakingNotInitialized);
    }
    let ghost before = out@;
    out.push(staked_time_attribute(format_i64(staked_time)));
    assert(attrs_view(out@) =~= attrs_view(before).push((staked_time_key(), decimal(staked_time as int))));
    Ok(out)
}

/// The attribute list after an unstake at `now` that trusts the values:
/// unreadable times count as `0` and nothing is refused.
pub fn unstake_attributes_unchecked(list: &Vec<Attribute>, now: i64) -> (r: Vec<Attribute>)
    requires
        loose_unstake_fold(attrs_view(list@), now) is Some,
    ensures
        ({
            let st = loose_unstake_fold(attrs_view(list@), now)->0;
            attrs_view(r@) == st.1.push((staked_time_key(), decimal(st.0)))
        }),
{
    let ghost v = attrs_view(list@);
    let mut out: Vec<Attribute> = Vec::new();
    let mut staked_time: i64 = 0;
    let mut i: usize = 0;
    assert(v.take(0) =~= Seq::<(Seq<char>, Seq<char>)>::empty());
    assert(attrs_view(out@) =~= Seq::<(Seq<char>, Seq<char>)>::empty());
    while i < list.len()
        invariant
            i <= list.len(),
            v == attrs_view(list@),
            loose_unstake_fold(v, now) is Some,
            loose_unstake_fold(v.take(i as int), now) == Some::<(int, Seq<(Seq<char>, Seq<char>)>)>(
                (staked_time as int, attrs_view(out@)),
            ),
        decreases list.len() - i,
    {
        let a = &list[i];
        let ghost t1 = v.take(i as int + 1);
        proof {
            assert(v[i as int] == a@);
            assert(t1.drop_last() =~= v.take(i as int));
            assert(t1.last() == a@);
            if loose_unstake_fold(v.take(i as int + 1), now) is None {
                lemma_loose_unstake_fold_none(v, i as int + 1, now);
            }
        }
        let ghost prev_out = out@;
        if is_staked_key(&a.key) {
            let ts: i64 = match parse_i64(a.value.as_str()) {
                Some(t) => t,
                None => 0,
            };
            let d = now - ts;
            staked_time = staked_time + d;
            out.push(staked_attribute(zero_string()));
        } else if is_staked_time_key(&a.key) {
            let t: i64 = match parse_i64(a.value.as_str()) {
                Some(t) => t,
                None => 0,
            };
            staked_time = staked_time + t;
        } else {
            out.push(copy_attribute(a));
        }
        proof {
            assert(attrs_view(out@) =~= if a@.0 == staked_key() {
                attrs_view(prev_out).push((staked_key(), zero_text()))
            } else if a@.0 == staked_time_key() {
                attrs_view(prev_out)
            } else {
                attrs_view(prev_out).push(a@)
            });
        }
        i = i + 1;
    }
    assert(v.take(list.len() as int) =~= v);
    let ghost before = out@;
    out.push(staked_time_attribute(format_i64(staked_time)));
    assert(attrs_view(out@) =~= attrs_view(before).push((staked_time_key(), decimal(staked_time as int))));
    out
}

/// Whether an unstake at `now` that trusts the values keeps every sum of
/// times within the `i64` range.
pub fn loose_unstake_fits(list: &Vec<Attribute>, now: i64) -> (r: bool)
    ensures
        r == loose_unstake_fold(attrs_view(list@), now) is Some,
{
    let ghost v = attrs_view(list@);
    let mut staked_time: i64 = 0;
    let ghost mut out: Seq<(Seq<char>, Seq<char>)> = Seq::empty();
    let mut i: usize = 0;
    assert(v.take(0) =~= Seq::<(Seq<char>, Seq<char>)>::empty());
    while i < list.len()
        invariant
            i <= list.len(),
            v == attrs_view(list@),
            loose_unstake_fold(v.take(i as int), now) == Some::<(int, Seq<(Seq<char>, Seq<char>)>)>(
                (staked_time as int, out),
            ),
        decreases list.len() - i,
    {
        let a = &list[i];
        let ghost t1 = v.take(i as int + 1);
        proof {
            assert(v[i as int] == a@);
            assert(t1.drop_last() =~= v.take(i as int));
            assert(t1.last() == a@);
        }
        if is_staked_key(&a.key) {
            let ts: i64 = match parse_i64(a.value.as_str()) {
                Some(t) => t,
                None => 0,
            };
            let d = match now.checked_sub(ts) {
                Some(d) => d,
                None => {
                    proof {
                        lemma_loose_unstake_fold_none(v, i as int + 1, now);
                    }
                    return false;
                },
            };
            staked_time = match staked_time.checked_add(d) {
                Some(s) => s,
                None => {
                    proof {
                        lemma_loose_unstake_fold_none(v, i as int + 1, now);
                    }
                    return false;
                },
            };
            proof {
                out = out.push((staked_key(), zero_text()));
            }
        } else if is_staked_time_key(&a.key) {
            let t: i64 = match parse_i64(a.value.as_str()) {
                Some(t) => t,
                None => 0,
            };
            staked_time = match staked_time.checked_add(t) {
                Some(s) => s,
                None => {
                    proof {
                        lemma_loose_unstake_fold_none(v, i as int + 1, now);
                    }
                    return false;
                },
            };
        } else {
            proof {
                out = out.push(a@);
            }
        }
        i = i + 1;
    }
    assert(v.take(list.len() as int) =~= v);
    true
}

/// Once reading a prefix leaves the `i64` range, so does reading the whole
/// list.
pub proof fn lemma_loose_unstake_fold_none(a: Seq<(Seq<char>, Seq<char>)>, k: int, now: i64)
    requires
        0 <= k <= a.len(),
        loose_unstake_fold(a.take(k), now) is None,
    ensures
        loose_unstake_fold(a, now) is None,
    decreases a.len(),
{
    if k == a.len() {
        assert(a.take(k) =~= a);
    } else {
        assert(a.drop_last().take(k) =~= a.take(k));
        lemma_loose_unstake_fold_none(a.drop_last(), k, now);
    }
}

} // verus!
