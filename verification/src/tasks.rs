//! The task ledger's records: tasks, their terminal completion status,
//! and goal progress.

use vstd::prelude::*;

verus! {

use crate::{MAX_BASE_REWARD, MAX_DIFFICULTY, MAX_TOTAL};

/// A task's status.  Completion is terminal: no operation returns a
/// completed task to the active state.
#[derive(Clone, Copy, Debug, PartialEq, Eq, Structural)]
pub enum TaskStatus {
    Active,
    Completed,
}

/// Whether a task completes by a single act or by accumulating
/// progress toward a goal.
#[derive(Clone, Copy, Debug, PartialEq, Eq, Structural)]
pub enum TaskKind {
    Standard,
    Goal,
}

/// A task record.  The base rewards are derived once from the
/// difficulty at creation and never change afterward.  Timestamps are
/// milliseconds since the epoch.
#[derive(Debug, PartialEq)]
pub struct Task {
    pub id: i64,
    pub user_id: i64,
    pub title: String,
    pub description: Option<String>,
    pub category: String,
    pub difficulty: i64,
    pub base_experience_reward: i64,
    pub gold_reward: i64,
    pub due_date: Option<String>,
    pub status: TaskStatus,
    pub priority: i64,
    pub created_at: i64,
    pub completed_at: Option<i64>,
    pub task_type: TaskKind,
    pub goal_target: Option<i64>,
    pub goal_current: Option<i64>,
    pub goal_unit: Option<String>,
}

impl Clone for Task {
    fn clone(&self) -> (res: Self)
        ensures
            res == *self,
    {
        Task {
            id: self.id,
            user_id: self.user_id,
            title: self.title.clone(),
            description: match &self.description {
                Some(d) => Some(d.clone()),
                None => None,
            },
            category: self.category.clone(),
            difficulty: self.difficulty,
            base_experience_reward: self.base_experience_reward,
            gold_reward: self.gold_reward,
            due_date: match &self.due_date {
                Some(d) => Some(d.clone()),
                None => None,
            },
            status: self.status,
            priority: self.priority,
            created_at: self.created_at,
            completed_at: self.completed_at,
            task_type: self.task_type,
            goal_target: self.goal_target,
            goal_current: self.goal_current,
            goal_unit: match &self.goal_unit {
                Some(u) => Some(u.clone()),
                None => None,
            },
        }
    }
}

impl Task {
    /// A well-formed task: difficulty and rewards in range, the goal
    /// fields present exactly on goal tasks, and the completion stamp
    /// present exactly on completed tasks.
    pub open spec fn wf(self) -> bool {
        &&& 1 <= self.difficulty <= MAX_DIFFICULTY
        &&& 0 <= self.base_experience_reward <= MAX_BASE_REWARD
        &&& 0 <= self.gold_reward <= MAX_BASE_REWARD
        &&& 0 <= self.created_at
        &&& (self.status == TaskStatus::Completed <==> self.completed_at is Some)
        &&& (self.task_type == TaskKind::Goal ==> {
            &&& self.goal_target is Some
            &&& 1 <= self.goal_target.unwrap() <= MAX_TOTAL
            &&& self.goal_current is Some
            &&& 0 <= self.goal_current.unwrap() <= MAX_TOTAL
        })
        &&& (self.task_type == TaskKind::Standard ==> {
            &&& self.goal_target is None
            &&& self.goal_current is None
        })
    }
}

/// The request from which a task is created.  Unset fields take the
/// documented defaults: difficulty 5, category "general", priority 3,
/// standard kind.
#[derive(Debug, PartialEq)]
pub struct CreateTaskRequest {
    pub title: String,
    pub description: Option<String>,
    pub category: Option<String>,
    pub difficulty: Option<i64>,
    pub due_date: Option<String>,
    pub priority: Option<i64>,
    pub task_type: Option<String>,
    pub goal_target: Option<i64>,
    pub goal_unit: Option<String>,
}

/// The base experience reward a freshly created task of a difficulty
/// carries: ten, plus five per difficulty step above one.
pub open spec fn base_xp_for(difficulty: int) -> int {
    10 + (difficulty - 1) * 5
}

/// The base gold reward a freshly created task of a difficulty
/// carries: one, plus one per difficulty step above one.
pub open spec fn base_gold_for(difficulty: int) -> int {
    1 + (difficulty - 1)
}

} // verus!
