//! The buff store: time-limited modifiers, their expiry, and the
//! overlays they contribute to stats and rewards.
//!
//! A buff is active exactly while `expires_at > now`; expiry is a
//! derived predicate evaluated lazily.  Every aggregate defined here
//! counts a contribution only from active buffs, so an expired buff
//! never influences a stat overlay or a reward multiplier.  Values are
//! kept in hundredths: a multiplier of 1.5x is stored as 150, a stat
//! boost of 10 points as 1000.

use vstd::prelude::*;

verus! {

use crate::{MAX_ACTIVE_BUFFS, MAX_ADJUSTED_REWARD, MAX_BUFF_VALUE, MAX_OVERLAID_STAT,
    MAX_REWARD_GRANT};
use crate::user::User;

/// The stat a stat-type buff boosts.
#[derive(Clone, Copy, Debug, PartialEq, Eq, Structural)]
pub enum StatKind {
    Strength,
    Intelligence,
    Endurance,
    Charisma,
    Luck,
}

/// The kind of a buff.  Health-regeneration buffs are represented but
/// never ticked by the engine itself; they take effect only through an
/// explicit caller-side trigger (a known limitation, not a defect).
#[derive(Clone, Copy, Debug, PartialEq, Eq, Structural)]
pub enum BuffKind {
    Stat,
    XpMultiplier,
    GoldMultiplier,
    HealthRegen,
}

/// A time-limited modifier.  Timestamps are milliseconds since the
/// epoch; `value_hundredths` holds the multiplier or the stat amount
/// in hundredths.
#[derive(Debug, PartialEq)]
pub struct Buff {
    pub id: i64,
    pub name: String,
    pub buff_type: BuffKind,
    pub value_hundredths: i64,
    pub stat_type: Option<StatKind>,
    pub duration_minutes: i64,
    pub applied_at: i64,
    pub expires_at: i64,
}

impl Clone for Buff {
    fn clone(&self) -> (res: Self)
        ensures
            res == *self,
    {
        Buff {
            id: self.id,
            name: self.name.clone(),
            buff_type: self.buff_type,
            value_hundredths: self.value_hundredths,
            stat_type: self.stat_type,
            duration_minutes: self.duration_minutes,
            applied_at: self.applied_at,
            expires_at: self.expires_at,
        }
    }
}

impl Buff {
    /// A single well-formed buff: value in range, timestamps
    /// consistent, and a stat target exactly when the kind is `Stat`.
    pub open spec fn wf(self) -> bool {
        &&& 0 <= self.value_hundredths <= MAX_BUFF_VALUE
        &&& 0 <= self.duration_minutes
        &&& 0 <= self.applied_at
        &&& self.expires_at == self.applied_at + self.duration_minutes * 60_000
        &&& (self.stat_type is Some <==> self.buff_type == BuffKind::Stat)
    }

    /// A buff is active exactly while its expiry lies in the future.
    pub open spec fn is_active(self, now: int) -> bool {
        self.expires_at > now
    }
}

/// Every buff in the store is well-formed and the store is small
/// enough for the reward arithmetic to stay inside `i64`.
pub open spec fn buffs_wf(s: Seq<Buff>) -> bool {
    &&& s.len() <= MAX_ACTIVE_BUFFS
    &&& forall|i: int| 0 <= i < s.len() ==> (#[trigger] s[i]).wf()
}

/// The active buffs, in store order.
pub open spec fn active_buffs(s: Seq<Buff>, now: int) -> Seq<Buff>
    decreases s.len(),
{
    if s.len() == 0 {
        Seq::empty()
    } else if s.last().is_active(now) {
        active_buffs(s.drop_last(), now).push(s.last())
    } else {
        active_buffs(s.drop_last(), now)
    }
}

/// What one buff adds, beyond the neutral 1.00x, to the aggregate
/// multiplier of the given kind: its excess over 100 hundredths when
/// it is an active buff of that kind, otherwise nothing.
pub open spec fn mult_excess(b: Buff, kind: BuffKind, now: int) -> int {
    if b.buff_type == kind && b.is_active(now) {
        b.value_hundredths - 100
    } else {
        0
    }
}

/// The summed multiplier excess of all active buffs of a kind:
/// additive stacking of each buff's excess over 1.00x.
pub open spec fn mult_excess_sum(s: Seq<Buff>, kind: BuffKind, now: int) -> int
    decreases s.len(),
{
    if s.len() == 0 {
        0
    } else {
        mult_excess_sum(s.drop_last(), kind, now) + mult_excess(s.last(), kind, now)
    }
}

/// The aggregate multiplier of a kind, in hundredths: 1.00x plus the
/// stacked excess of every active buff, floored at zero so that a
/// reward can be annulled but never negated.
pub open spec fn combined_multiplier(s: Seq<Buff>, kind: BuffKind, now: int) -> int {
    if 100 + mult_excess_sum(s, kind, now) < 0 {
        0
    } else {
        100 + mult_excess_sum(s, kind, now)
    }
}

/// What one buff adds to the overlay of a stat: its whole-point value
/// when it is an active stat buff targeting that stat, otherwise
/// nothing.
pub open spec fn stat_contrib(b: Buff, stat: StatKind, now: int) -> int {
    if b.buff_type == BuffKind::Stat && b.stat_type == Some(stat) && b.is_active(now) {
        b.value_hundredths / 100
    } else {
        0
    }
}

/// The additive overlay a stat receives from all active stat buffs.
pub open spec fn stat_overlay(s: Seq<Buff>, stat: StatKind, now: int) -> int
    decreases s.len(),
{
    if s.len() == 0 {
        0
    } else {
        stat_overlay(s.drop_last(), stat, now) + stat_contrib(s.last(), stat, now)
    }
}

/// Dropping the expired buffs does not change the multiplier excess of
/// any kind.
pub proof fn lemma_active_buffs_preserve_sum(s: Seq<Buff>, kind: BuffKind, now: int)
    ensures
        mult_excess_sum(active_buffs(s, now), kind, now) == mult_excess_sum(s, kind, now),
    decreases s.len(),
{
    if s.len() > 0 {
        lemma_active_buffs_preserve_sum(s.drop_last(), kind, now);
        let pruned = active_buffs(s.drop_last(), now);
        if s.last().is_active(now) {
            assert(pruned.push(s.last()).drop_last() =~= pruned);
        }
    }
}

/// Dropping the expired buffs does not change the overlay of any stat.
pub proof fn lemma_active_buffs_preserve_overlay(s: Seq<Buff>, stat: StatKind, now: int)
    ensures
        stat_overlay(active_buffs(s, now), stat, now) == stat_overlay(s, stat, now),
    decreases s.len(),
{
    if s.len() > 0 {
        lemma_active_buffs_preserve_overlay(s.drop_last(), stat, now);
        let pruned = active_buffs(s.drop_last(), now);
        if s.last().is_active(now) {
            assert(pruned.push(s.last()).drop_last() =~= pruned);
        }
    }
}

/// The active buffs of a store: no more of them than the store holds,
/// each of them still unexpired, and each well-formed when the store
/// is.
pub proof fn lemma_active_buffs_wf(s: Seq<Buff>, now: int)
    ensures
        active_buffs(s, now).len() <= s.len(),
        forall|i: int|
            0 <= i < active_buffs(s, now).len() ==> (#[trigger] active_buffs(s, now)[i]).is_active(
                now,
            ),
        (forall|i: int| 0 <= i < s.len() ==> (#[trigger] s[i]).wf()) ==> forall|i: int|
            0 <= i < active_buffs(s, now).len() ==> (#[trigger] active_buffs(s, now)[i]).wf(),
    decreases s.len(),
{
    if s.len() > 0 {
        lemma_active_buffs_wf(s.drop_last(), now);
        assert(forall|i: int|
            0 <= i < s.drop_last().len() ==> #[trigger] s.drop_last()[i] == s[i]);
    }
}

/// Sums the multiplier excess of the active buffs of one kind.
fn mult_excess_total(buffs: &Vec<Buff>, kind: BuffKind, now_ms: i64) -> (r: i64)
    requires
        buffs_wf(buffs@),
        0 <= now_ms,
    ensures
        r == mult_excess_sum(buffs@, kind, now_ms as int),
        -100_000 <= r <= 99_900_000,
{
    let mut total: i64 = 0;
    let mut i: usize = 0;
    proof {
        assert(buffs@.subrange(0, 0) =~= Seq::<Buff>::empty());
    }
    while i < buffs.len()
        invariant
            buffs_wf(buffs@),
            0 <= now_ms,
            i <= buffs.len(),
            total == mult_excess_sum(buffs@.subrange(0, i as int), kind, now_ms as int),
            -100 * (i as int) <= total <= 99_900 * (i as int),
        decreases buffs.len() - i,
    {
        let b = &buffs[i];
        let excess = if b.buff_type == kind && b.expires_at > now_ms {
            b.value_hundredths - 100
        } else {
            0
        };
        proof {
            assert(buffs@.subrange(0, i + 1).drop_last() =~= buffs@.subrange(0, i as int));
            assert(buffs@.subrange(0, i + 1).last() == buffs@[i as int]);
            assert(buffs@[i as int].wf());
        }
        total = total + excess;
        i = i + 1;
    }
    proof {
        assert(buffs@.subrange(0, buffs@.len() as int) =~= buffs@);
    }
    total
}

/// Sums the overlay the active stat buffs give one stat.
fn stat_overlay_total(buffs: &Vec<Buff>, stat: StatKind, now_ms: i64) -> (r: i64)
    requires
        buffs_wf(buffs@),
        0 <= now_ms,
    ensures
        r == stat_overlay(buffs@, stat, now_ms as int),
        0 <= r <= 1_000_000,
{
    let mut total: i64 = 0;
    let mut i: usize = 0;
    proof {
        assert(buffs@.subrange(0, 0) =~= Seq::<Buff>::empty());
    }
    while i < buffs.len()
        invariant
            buffs_wf(buffs@),
            0 <= now_ms,
            i <= buffs.len(),
            total == stat_overlay(buffs@.subrange(0, i as int), stat, now_ms as int),
            0 <= total <= 1_000 * (i as int),
        decreases buffs.len() - i,
    {
        let b = &buffs[i];
        let points = if b.expires_at > now_ms && b.buff_type == BuffKind::Stat {
            match &b.stat_type {
                Some(target) => {
                    if *target == stat {
                        proof {
                            vstd::arithmetic::div_mod::lemma_div_is_ordered(
                                b.value_hundredths as int,
                                MAX_BUFF_VALUE as int,
                                100,
                            );
                            vstd::arithmetic::div_mod::lemma_div_pos_is_pos(
                                b.value_hundredths as int,
                                100,
                            );
                        }
                        b.value_hundredths / 100
                    } else {
                        0
                    }
                },
                None => 0,
            }
        } else {
            0
        };
        proof {
            assert(buffs@.subrange(0, i + 1).drop_last() =~= buffs@.subrange(0, i as int));
            assert(buffs@.subrange(0, i + 1).last() == buffs@[i as int]);
        }
        total = total + points;
        i = i + 1;
    }
    proof {
        assert(buffs@.subrange(0, buffs@.len() as int) =~= buffs@);
    }
    total
}

/// Applies the aggregate multiplier overlay of the active buffs to a
/// pair of stat-adjusted rewards: each reward is scaled by the stacked
/// multiplier of its kind and truncated toward zero.
pub fn apply_buff_effects_to_rewards(
    base_xp: i64,
    base_gold: i64,
    buffs: &Vec<Buff>,
    now_ms: i64,
) -> (r: (i64, i64))
    requires
        buffs_wf(buffs@),
        0 <= now_ms,
        0 <= base_xp <= MAX_ADJUSTED_REWARD,
        0 <= base_gold <= MAX_ADJUSTED_REWARD,
    ensures
        r.0 == base_xp * combined_multiplier(buffs@, BuffKind::XpMultiplier, now_ms as int) / 100,
        r.1 == base_gold * combined_multiplier(buffs@, BuffKind::GoldMultiplier, now_ms as int)
            / 100,
        0 <= r.0 <= MAX_REWARD_GRANT,
        0 <= r.1 <= MAX_REWARD_GRANT,
{
    let xp_excess = mult_excess_total(buffs, BuffKind::XpMultiplier, now_ms);
    let gold_excess = mult_excess_total(buffs, BuffKind::GoldMultiplier, now_ms);
    let xp_mult = if 100 + xp_excess < 0 {
        0
    } else {
        100 + xp_excess
    };
    let gold_mult = if 100 + gold_excess < 0 {
        0
    } else {
        100 + gold_excess
    };
    proof {
        lemma_reward_scale_bounds(base_xp as int, xp_mult as int);
        lemma_reward_scale_bounds(base_gold as int, gold_mult as int);
    }
    let final_xp = base_xp * xp_mult / 100;
    let final_gold = base_gold * gold_mult / 100;
    (final_xp, final_gold)
}

/// Scaling a bounded reward by a bounded multiplier stays inside the
/// grant ceiling.
proof fn lemma_reward_scale_bounds(base: int, mult: int)
    requires
        0 <= base <= MAX_ADJUSTED_REWARD,
        0 <= mult <= 99_900_100,
    ensures
        0 <= base * mult <= 4_995_005_000_000_000_000,
        0 <= base * mult / 100 <= MAX_REWARD_GRANT,
{
    vstd::arithmetic::mul::lemma_mul_nonnegative(base, mult);
    vstd::arithmetic::mul::lemma_mul_upper_bound(base, 50_000_000_000, mult, 99_900_100);
    vstd::arithmetic::div_mod::lemma_div_is_ordered(base * mult, 4_995_005_000_000_000_000, 100);
    vstd::arithmetic::div_mod::lemma_div_pos_is_pos(base * mult, 100);
}

/// The raw user stats with the overlay of the active stat buffs added,
/// in the order strength, intelligence, endurance, charisma, luck.
/// The overlay is recomputed on demand and never written back into the
/// user record.
pub fn apply_stat_buffs_to_user_stats(user: &User, buffs: &Vec<Buff>, now_ms: i64) -> (r: (
    i64,
    i64,
    i64,
    i64,
    i64,
))
    requires
        user.wf(),
        buffs_wf(buffs@),
        0 <= now_ms,
    ensures
        r.0 == user.strength + stat_overlay(buffs@, StatKind::Strength, now_ms as int),
        r.1 == user.intelligence + stat_overlay(buffs@, StatKind::Intelligence, now_ms as int),
        r.2 == user.endurance + stat_overlay(buffs@, StatKind::Endurance, now_ms as int),
        r.3 == user.charisma + stat_overlay(buffs@, StatKind::Charisma, now_ms as int),
        r.4 == user.luck + stat_overlay(buffs@, StatKind::Luck, now_ms as int),
        0 <= r.0 <= MAX_OVERLAID_STAT,
        0 <= r.1 <= MAX_OVERLAID_STAT,
        0 <= r.2 <= MAX_OVERLAID_STAT,
        0 <= r.3 <= MAX_OVERLAID_STAT,
        0 <= r.4 <= MAX_OVERLAID_STAT,
{
    let strength = user.strength + stat_overlay_total(buffs, StatKind::Strength, now_ms);
    let intelligence = user.intelligence + stat_overlay_total(buffs, StatKind::Intelligence, now_ms);
    let endurance = user.endurance + stat_overlay_total(buffs, StatKind::Endurance, now_ms);
    let charisma = user.charisma + stat_overlay_total(buffs, StatKind::Charisma, now_ms);
    let luck = user.luck + stat_overlay_total(buffs, StatKind::Luck, now_ms);
    (strength, intelligence, endurance, charisma, luck)
}

/// Removes every buff whose expiry has passed, keeping the active
/// buffs in store order.
pub fn retain_active(buffs: &mut Vec<Buff>, now_ms: i64) -> (removed: usize)
    requires
        buffs_wf(old(buffs)@),
        0 <= now_ms,
    ensures
        final(buffs)@ == active_buffs(old(buffs)@, now_ms as int),
        buffs_wf(final(buffs)@),
        forall|i: int|
            0 <= i < final(buffs)@.len() ==> (#[trigger] final(buffs)@[i]).is_active(now_ms as int),
{
    let ghost orig = buffs@;
    let mut kept: Vec<Buff> = Vec::new();
    let mut i: usize = 0;
    proof {
        assert(orig.subrange(0, 0) =~= Seq::<Buff>::empty());
    }
    while i < buffs.len()
        invariant
            buffs@ == orig,
            buffs_wf(orig),
            0 <= now_ms,
            i <= buffs.len(),
            kept@ == active_buffs(orig.subrange(0, i as int), now_ms as int),
        decreases buffs.len() - i,
    {
        proof {
            assert(orig.subrange(0, i + 1).drop_last() =~= orig.subrange(0, i as int));
            assert(orig.subrange(0, i + 1).last() == orig[i as int]);
            lemma_active_buffs_wf(orig.subrange(0, i + 1), now_ms as int);
        }
        if buffs[i].expires_at > now_ms {
            let b = buffs[i].clone();
            kept.push(b);
        }
        i = i + 1;
    }
    proof {
        assert(orig.subrange(0, orig.len() as int) =~= orig);
        lemma_active_buffs_wf(orig, now_ms as int);
    }
    let removed = buffs.len() - kept.len();
    *buffs = kept;
    removed
}

/// A buff already expired at `now` influences nothing: appending it to
/// a store changes no stat overlay, no multiplier, and not the list of
/// active buffs.
pub proof fn lemma_expired_buff_contributes_nothing(
    s: Seq<Buff>,
    b: Buff,
    kind: BuffKind,
    stat: StatKind,
    now: int,
)
    requires
        b.expires_at <= now,
    ensures
        mult_excess_sum(s.push(b), kind, now) == mult_excess_sum(s, kind, now),
        combined_multiplier(s.push(b), kind, now) == combined_multiplier(s, kind, now),
        stat_overlay(s.push(b), stat, now) == stat_overlay(s, stat, now),
        active_buffs(s.push(b), now) == active_buffs(s, now),
{
    assert(s.push(b).drop_last() =~= s);
    assert(s.push(b).last() == b);
}

} // verus!
