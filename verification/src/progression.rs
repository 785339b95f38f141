//! The progression calculator: the experience-to-level function and
//! the lemmas callers rely on.

use vstd::prelude::*;

verus! {

use vstd::string::StringExecFns;

use crate::{MAX_ADJUSTED_REWARD, MAX_BASE_REWARD, MAX_DIFFICULTY, MAX_OVERLAID_STAT, MAX_TOTAL};
use crate::user::User;

/// The level derived from an experience total: one level per full
/// hundred experience points, starting at level 1.
pub open spec fn level_for(xp: int) -> int {
    1 + xp / 100
}

/// Experience still missing to reach the next level.
pub open spec fn xp_to_next(xp: int) -> int {
    (level_for(xp) + 1) * 100 - xp
}

/// Derives `(level, experience_to_next_level)` from an experience total.
pub fn calculate_level_and_progress(xp: i64) -> (r: (i64, i64))
    requires
        0 <= xp <= MAX_TOTAL,
    ensures
        r.0 == level_for(xp as int),
        r.1 == xp_to_next(xp as int),
{
    let level: i64 = 1 + xp / 100;
    let xp_for_next_level: i64 = (level + 1) * 100;
    (level, xp_for_next_level - xp)
}

/// A base experience reward scaled by the intelligence bonus: two
/// percent per point, truncated toward zero.
pub open spec fn stat_adjusted_xp(base: int, intelligence: int) -> int {
    base * (100 + 2 * intelligence) / 100
}

/// A base gold reward scaled by the luck bonus: one and a half percent
/// per point, truncated toward zero.
pub open spec fn stat_adjusted_gold(base: int, luck: int) -> int {
    base * (1000 + 15 * luck) / 1000
}

/// Applies the stat bonuses to a task's base rewards: experience
/// scaled by the (buff-augmented) intelligence, gold by the
/// (buff-augmented) luck.
pub fn compute_stat_adjusted_rewards(
    base_xp: i64,
    base_gold: i64,
    intelligence: i64,
    luck: i64,
) -> (r: (i64, i64))
    requires
        0 <= base_xp <= MAX_BASE_REWARD,
        0 <= base_gold <= MAX_BASE_REWARD,
        0 <= intelligence <= MAX_OVERLAID_STAT,
        0 <= luck <= MAX_OVERLAID_STAT,
    ensures
        r.0 == stat_adjusted_xp(base_xp as int, intelligence as int),
        r.1 == stat_adjusted_gold(base_gold as int, luck as int),
        0 <= r.0 <= MAX_ADJUSTED_REWARD,
        0 <= r.1 <= MAX_ADJUSTED_REWARD,
{
    let xp_factor = 100 + 2 * intelligence;
    let gold_factor = 1000 + 15 * luck;
    proof {
        vstd::arithmetic::mul::lemma_mul_nonnegative(base_xp as int, xp_factor as int);
        vstd::arithmetic::mul::lemma_mul_upper_bound(
            base_xp as int,
            1_000_000,
            xp_factor as int,
            4_000_100,
        );
        vstd::arithmetic::div_mod::lemma_div_pos_is_pos(base_xp * xp_factor, 100);
        vstd::arithmetic::div_mod::lemma_div_is_ordered(
            base_xp * xp_factor,
            4_000_100_000_000,
            100,
        );
        vstd::arithmetic::mul::lemma_mul_nonnegative(base_gold as int, gold_factor as int);
        vstd::arithmetic::mul::lemma_mul_upper_bound(
            base_gold as int,
            1_000_000,
            gold_factor as int,
            30_001_000,
        );
        vstd::arithmetic::div_mod::lemma_div_pos_is_pos(base_gold * gold_factor, 1000);
        vstd::arithmetic::div_mod::lemma_div_is_ordered(
            base_gold * gold_factor,
            30_001_000_000_000,
            1000,
        );
    }
    (base_xp * xp_factor / 100, base_gold * gold_factor / 1000)
}

/// The stat modifier a category grants, in thousandths: three percent
/// per point of the category's stat, or two percent per averaged
/// strength-and-endurance point for an unlisted category.
pub open spec fn category_stat_modifier_mils(user: User, category: Seq<char>) -> int {
    if category == "Exercise"@ || category == "Health"@ {
        30 * user.endurance
    } else if category == "Study"@ || category == "Work"@ {
        30 * user.intelligence
    } else if category == "Social"@ {
        30 * user.charisma
    } else {
        (user.strength + user.endurance) * 10
    }
}

/// The effective difficulty of a task for a user, in thousandths: the
/// base difficulty reduced by the category's stat modifier, the
/// reduction capped at half, and the whole floored at one.  Used only
/// to recommend a difficulty, never to alter issued rewards.
pub open spec fn effective_difficulty_mils(base: int, user: User, category: Seq<char>) -> int {
    let modifier = category_stat_modifier_mils(user, category);
    let capped = if modifier > 500 {
        500int
    } else {
        modifier
    };
    let eff = base * (1000 - capped);
    if eff < 1000 {
        1000int
    } else {
        eff
    }
}

/// Computes the effective difficulty, in thousandths of a difficulty
/// point.
pub fn calculate_effective_difficulty(
    base_difficulty: i64,
    user: &User,
    task_category: &String,
) -> (r: i64)
    requires
        1 <= base_difficulty <= MAX_DIFFICULTY,
        user.wf(),
    ensures
        r == effective_difficulty_mils(base_difficulty as int, *user, task_category@),
        1000 <= r <= 100_000_000,
{
    let modifier = if task_category.eq(&String::from_str("Exercise")) || task_category.eq(
        &String::from_str("Health"),
    ) {
        30 * user.endurance
    } else if task_category.eq(&String::from_str("Study")) || task_category.eq(
        &String::from_str("Work"),
    ) {
        30 * user.intelligence
    } else if task_category.eq(&String::from_str("Social")) {
        30 * user.charisma
    } else {
        (user.strength + user.endurance) * 10
    };
    let capped = if modifier > 500 {
        500
    } else {
        modifier
    };
    proof {
        vstd::arithmetic::mul::lemma_mul_nonnegative(base_difficulty as int, 1000 - capped);
        vstd::arithmetic::mul::lemma_mul_upper_bound(
            base_difficulty as int,
            100_000,
            1000 - capped,
            1000,
        );
    }
    let eff = base_difficulty * (1000 - capped);
    if eff < 1000 {
        1000
    } else {
        eff
    }
}

/// The level is at least 1 and grows with experience, and the distance
/// to the next level is always positive: for every `0 <= a <= b`,
/// `level_for(a) >= 1`, `level_for(a) <= level_for(b)`, and
/// `xp_to_next(a) > 0`.
pub proof fn lemma_level_for_monotonic(a: int, b: int)
    requires
        0 <= a <= b,
    ensures
        1 <= level_for(a) <= level_for(b),
        0 < xp_to_next(a) <= 200,
{
    vstd::arithmetic::div_mod::lemma_div_is_ordered(a, b, 100);
    vstd::arithmetic::div_mod::lemma_fundamental_div_mod(a, 100);
    vstd::arithmetic::div_mod::lemma_mod_bound(a, 100);
}

} // verus!
