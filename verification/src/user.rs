//! The user progression aggregate: the mutable record every operation
//! reads and rewards are applied to.

use vstd::prelude::*;

verus! {

use crate::{MAX_REWARD_GRANT, MAX_STAT, MAX_TOTAL};
use crate::progression::{calculate_level_and_progress, level_for, xp_to_next};

/// The user record.  `level` and `experience_to_next_level` are always
/// derived from `experience_points`; they are never set independently.
#[derive(Debug, PartialEq)]
pub struct User {
    pub id: i64,
    pub username: String,
    pub level: i64,
    pub experience_points: i64,
    pub experience_to_next_level: i64,
    pub strength: i64,
    pub intelligence: i64,
    pub endurance: i64,
    pub charisma: i64,
    pub luck: i64,
    pub current_health: i64,
    pub max_health: i64,
    pub gold: i64,
    pub theme_preference: String,
    pub active_title: Option<String>,
}

impl Clone for User {
    fn clone(&self) -> (res: Self)
        ensures
            res == *self,
    {
        User {
            id: self.id,
            username: self.username.clone(),
            level: self.level,
            experience_points: self.experience_points,
            experience_to_next_level: self.experience_to_next_level,
            strength: self.strength,
            intelligence: self.intelligence,
            endurance: self.endurance,
            charisma: self.charisma,
            luck: self.luck,
            current_health: self.current_health,
            max_health: self.max_health,
            gold: self.gold,
            theme_preference: self.theme_preference.clone(),
            active_title: match &self.active_title {
                Some(t) => Some(t.clone()),
                None => None,
            },
        }
    }
}

impl User {
    /// A well-formed user: totals in range, stats in range, health
    /// within its maximum, and the level fields consistent with the
    /// experience total.
    pub open spec fn wf(self) -> bool {
        &&& 0 <= self.experience_points <= MAX_TOTAL
        &&& self.level == level_for(self.experience_points as int)
        &&& self.experience_to_next_level == xp_to_next(self.experience_points as int)
        &&& 0 <= self.strength <= MAX_STAT
        &&& 0 <= self.intelligence <= MAX_STAT
        &&& 0 <= self.endurance <= MAX_STAT
        &&& 0 <= self.charisma <= MAX_STAT
        &&& 0 <= self.luck <= MAX_STAT
        &&& 0 <= self.current_health <= self.max_health <= MAX_TOTAL
        &&& 0 <= self.gold <= MAX_TOTAL
    }
}

/// The user after a reward grant: experience and gold grow by the given
/// amounts, saturating at `MAX_TOTAL`; the level fields are re-derived;
/// and, when asked and the level rose, health is restored to full.
pub open spec fn user_with_rewards(
    u: User,
    xp_gain: int,
    gold_gain: int,
    restore_on_level_up: bool,
) -> User {
    let xp2 = if u.experience_points + xp_gain > MAX_TOTAL {
        MAX_TOTAL as int
    } else {
        u.experience_points + xp_gain
    };
    let gold2 = if u.gold + gold_gain > MAX_TOTAL {
        MAX_TOTAL as int
    } else {
        u.gold + gold_gain
    };
    User {
        experience_points: xp2 as i64,
        level: level_for(xp2) as i64,
        experience_to_next_level: xp_to_next(xp2) as i64,
        gold: gold2 as i64,
        current_health: if restore_on_level_up && level_for(xp2) > u.level {
            u.max_health
        } else {
            u.current_health
        },
        ..u
    }
}

/// Applies a reward grant to the user: the single atomic
/// "add experience and gold, re-derive the level, restore health on a
/// level-up" step shared by task completion and achievement unlocks.
pub fn grant_rewards(user: &mut User, xp_gain: i64, gold_gain: i64, restore_on_level_up: bool)
    requires
        old(user).wf(),
        0 <= xp_gain <= MAX_REWARD_GRANT,
        0 <= gold_gain <= MAX_REWARD_GRANT,
    ensures
        *final(user) == user_with_rewards(*old(user), xp_gain as int, gold_gain as int, restore_on_level_up),
        final(user).wf(),
{
    let total_xp = user.experience_points + xp_gain;
    let new_xp = if total_xp > MAX_TOTAL {
        MAX_TOTAL
    } else {
        total_xp
    };
    let total_gold = user.gold + gold_gain;
    let new_gold = if total_gold > MAX_TOTAL {
        MAX_TOTAL
    } else {
        total_gold
    };
    let (new_level, to_next) = calculate_level_and_progress(new_xp);
    let leveled_up = new_level > user.level;
    user.experience_points = new_xp;
    user.level = new_level;
    user.experience_to_next_level = to_next;
    user.gold = new_gold;
    if restore_on_level_up && leveled_up {
        user.current_health = user.max_health;
    }
}

} // verus!
