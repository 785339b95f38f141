//! The achievement catalog and the unlock records.

use vstd::prelude::*;

verus! {

use crate::{MAX_BASE_REWARD, MAX_TOTAL};
use crate::tasks::{Task, TaskStatus};
use crate::user::User;

/// The aggregate an achievement's unlock predicate compares against
/// its threshold.
#[derive(Clone, Copy, Debug, PartialEq, Eq, Structural)]
pub enum RequirementKind {
    TasksCompleted,
    Level,
    Gold,
}

/// A static catalog entry: an unlock predicate and a fixed reward.
#[derive(Debug, PartialEq)]
pub struct Achievement {
    pub id: i64,
    pub name: String,
    pub description: String,
    pub icon: String,
    pub requirements_type: RequirementKind,
    pub requirements_value: i64,
    pub experience_reward: i64,
    pub gold_reward: i64,
    pub rarity: String,
}

impl Clone for Achievement {
    fn clone(&self) -> (res: Self)
        ensures
            res == *self,
    {
        Achievement {
            id: self.id,
            name: self.name.clone(),
            description: self.description.clone(),
            icon: self.icon.clone(),
            requirements_type: self.requirements_type,
            requirements_value: self.requirements_value,
            experience_reward: self.experience_reward,
            gold_reward: self.gold_reward,
            rarity: self.rarity.clone(),
        }
    }
}

impl Achievement {
    /// A well-formed catalog entry: threshold and rewards in range.
    pub open spec fn wf(self) -> bool {
        &&& 0 <= self.requirements_value <= MAX_TOTAL
        &&& 0 <= self.experience_reward <= MAX_BASE_REWARD
        &&& 0 <= self.gold_reward <= MAX_BASE_REWARD
    }
}

/// One unlock of one achievement by one user, stamped with the unlock
/// time in milliseconds since the epoch.  At most one such record ever
/// exists per achievement id.
#[derive(Debug, PartialEq)]
pub struct UserAchievement {
    pub id: i64,
    pub user_id: i64,
    pub achievement_id: i64,
    pub achievement: Achievement,
    pub unlocked_at: i64,
}

impl Clone for UserAchievement {
    fn clone(&self) -> (res: Self)
        ensures
            res == *self,
    {
        UserAchievement {
            id: self.id,
            user_id: self.user_id,
            achievement_id: self.achievement_id,
            achievement: self.achievement.clone(),
            unlocked_at: self.unlocked_at,
        }
    }
}

/// How many of the tasks are completed.
pub open spec fn completed_count(tasks: Seq<Task>) -> int
    decreases tasks.len(),
{
    if tasks.len() == 0 {
        0
    } else {
        completed_count(tasks.drop_last()) + if tasks.last().status == TaskStatus::Completed {
            1int
        } else {
            0int
        }
    }
}

/// Whether an achievement's unlock predicate holds of the current
/// aggregates, always compared with `>=`.
pub open spec fn requirement_met(a: Achievement, user: User, completed: int) -> bool {
    match a.requirements_type {
        RequirementKind::TasksCompleted => completed >= a.requirements_value,
        RequirementKind::Level => user.level >= a.requirements_value,
        RequirementKind::Gold => user.gold >= a.requirements_value,
    }
}

/// Whether an achievement id already has an unlock record.
pub open spec fn already_unlocked(unlocked: Seq<UserAchievement>, id: int) -> bool {
    exists|i: int| 0 <= i < unlocked.len() && (#[trigger] unlocked[i]).achievement_id == id
}

/// No achievement id appears in two unlock records.
pub open spec fn unlock_ids_distinct(unlocked: Seq<UserAchievement>) -> bool {
    forall|i: int, j: int|
        0 <= i < j < unlocked.len() ==> (#[trigger] unlocked[i]).achievement_id != (
        #[trigger] unlocked[j]).achievement_id
}

/// The catalog entries, in catalog order, that are not yet unlocked
/// but whose predicate holds of the given snapshot.
pub open spec fn newly_qualified(
    catalog: Seq<Achievement>,
    user: User,
    completed: int,
    unlocked: Seq<UserAchievement>,
) -> Seq<Achievement>
    decreases catalog.len(),
{
    if catalog.len() == 0 {
        Seq::empty()
    } else {
        let rest = newly_qualified(catalog.drop_last(), user, completed, unlocked);
        if !already_unlocked(unlocked, catalog.last().id as int) && requirement_met(
            catalog.last(),
            user,
            completed,
        ) {
            rest.push(catalog.last())
        } else {
            rest
        }
    }
}

} // verus!
