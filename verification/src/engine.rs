//! The engine: the single owner of the user aggregate, the task
//! ledger, the buff store, the achievement state and the inventory,
//! with one method per exposed operation.
//!
//! Every operation takes the current time as an argument, so callers
//! (and tests) inject the clock; the one method that reads the real
//! clock does so through a single trusted wrapper.

use vstd::prelude::*;

verus! {

use vstd::pervasive::VecAdditionalExecFns;
use vstd::string::StringExecFns;

use crate::{EngineError, MAX_ACTIVE_BUFFS, MAX_BASE_REWARD, MAX_BUFF_VALUE, MAX_DIFFICULTY,
    MAX_DURATION, MAX_STACK_LIMIT, MAX_STAT, MAX_TIMESTAMP, MAX_TOTAL};
use crate::achievements::{Achievement, RequirementKind, UserAchievement};
use crate::buffs::{Buff, BuffKind, StatKind, active_buffs, buffs_wf};
use crate::inventory::{InventoryItem, inventory_wf};
use crate::progression::{level_for, xp_to_next};
use crate::tasks::{CreateTaskRequest, Task, TaskKind, TaskStatus};
use crate::user::User;

/// The abstract state of the engine: what every operation's contract
/// speaks about.
pub ghost struct EngineView {
    pub user: User,
    pub tasks: Seq<Task>,
    pub task_counter: int,
    pub inventory: Seq<InventoryItem>,
    pub achievements: Seq<Achievement>,
    pub user_achievements: Seq<UserAchievement>,
    pub buffs: Seq<Buff>,
    pub buff_counter: int,
}

/// The engine state: one instance per process, handed by reference to
/// every operation.
pub struct Engine {
    pub user: User,
    pub tasks: Vec<Task>,
    pub task_counter: i64,
    pub inventory: Vec<InventoryItem>,
    pub achievements: Vec<Achievement>,
    pub user_achievements: Vec<UserAchievement>,
    pub buffs: Vec<Buff>,
    pub buff_counter: i64,
}

impl View for Engine {
    type V = EngineView;

    open spec fn view(&self) -> EngineView {
        EngineView {
            user: self.user,
            tasks: self.tasks@,
            task_counter: self.task_counter as int,
            inventory: self.inventory@,
            achievements: self.achievements@,
            user_achievements: self.user_achievements@,
            buffs: self.buffs@,
            buff_counter: self.buff_counter as int,
        }
    }
}

/// The index of the first task with the given id, or the ledger's
/// length when no task has it.
pub open spec fn task_index_of(tasks: Seq<Task>, id: int) -> int
    decreases tasks.len(),
{
    if tasks.len() == 0 {
        0
    } else if tasks[0].id == id {
        0
    } else {
        1 + task_index_of(tasks.subrange(1, tasks.len() as int), id)
    }
}

/// `task_index_of` returns exactly the first task with the id.
pub proof fn lemma_task_index_is_first(tasks: Seq<Task>, id: int, i: int)
    requires
        0 <= i <= tasks.len(),
        forall|k: int| 0 <= k < i ==> (#[trigger] tasks[k]).id != id,
        i < tasks.len() ==> tasks[i].id == id,
    ensures
        task_index_of(tasks, id) == i,
    decreases tasks.len(),
{
    if tasks.len() > 0 && tasks[0].id != id {
        let tail = tasks.subrange(1, tasks.len() as int);
        assert(forall|k: int| 0 <= k < i - 1 ==> (#[trigger] tail[k]).id != id);
        lemma_task_index_is_first(tail, id, i - 1);
    }
}

impl EngineView {
    /// The engine's well-formedness: every aggregate is well-formed,
    /// task ids are unique and below the counter, catalog ids are
    /// distinct, and no achievement is recorded as unlocked twice.
    pub open spec fn wf(self) -> bool {
        &&& self.user.wf()
        &&& forall|i: int| 0 <= i < self.tasks.len() ==> (#[trigger] self.tasks[i]).wf()
        &&& forall|i: int|
            0 <= i < self.tasks.len() ==> (#[trigger] self.tasks[i]).id < self.task_counter
        &&& forall|i: int, j: int|
            0 <= i < j < self.tasks.len() ==> (#[trigger] self.tasks[i]).id != (
            #[trigger] self.tasks[j]).id
        &&& 0 <= self.task_counter <= MAX_TOTAL
        &&& self.tasks.len() <= self.task_counter
        &&& inventory_wf(self.inventory)
        &&& forall|i: int|
            0 <= i < self.achievements.len() ==> (#[trigger] self.achievements[i]).wf()
        &&& forall|i: int, j: int|
            0 <= i < j < self.achievements.len() ==> (#[trigger] self.achievements[i]).id != (
            #[trigger] self.achievements[j]).id
        &&& crate::achievements::unlock_ids_distinct(self.user_achievements)
        &&& buffs_wf(self.buffs)
        &&& 0 <= self.buff_counter
    }
}

/// The tasks that pass a status filter, in ledger order; no filter
/// passes them all.
pub open spec fn tasks_with_status(tasks: Seq<Task>, filter: Option<TaskStatus>) -> Seq<Task>
    decreases tasks.len(),
{
    if tasks.len() == 0 {
        Seq::empty()
    } else {
        let rest = tasks_with_status(tasks.drop_last(), filter);
        match filter {
            None => rest.push(tasks.last()),
            Some(st) => if tasks.last().status == st {
                rest.push(tasks.last())
            } else {
                rest
            },
        }
    }
}

impl Engine {
    /// The engine's well-formedness, stated of its abstract state.
    pub open spec fn wf(&self) -> bool {
        self@.wf()
    }

    /// The current user record.
    pub fn get_user(&self) -> (r: User)
        ensures
            r == self@.user,
    {
        self.user.clone()
    }

    /// The task ledger, optionally narrowed to one status.
    pub fn get_tasks(&self, status: Option<TaskStatus>) -> (r: Vec<Task>)
        ensures
            r@ == tasks_with_status(self@.tasks, status),
    {
        let mut out: Vec<Task> = Vec::new();
        let mut i: usize = 0;
        proof {
            assert(self.tasks@.subrange(0, 0) =~= Seq::<Task>::empty());
        }
        while i < self.tasks.len()
            invariant
                i <= self.tasks@.len(),
                out@ == tasks_with_status(self.tasks@.subrange(0, i as int), status),
            decreases self.tasks@.len() - i,
        {
            proof {
                assert(self.tasks@.subrange(0, i + 1).drop_last() =~= self.tasks@.subrange(
                    0,
                    i as int,
                ));
                assert(self.tasks@.subrange(0, i + 1).last() == self.tasks@[i as int]);
            }
            let keep = match status {
                None => true,
                Some(st) => {
                    let task_status = self.tasks[i].status;
                    task_status == st
                },
            };
            if keep {
                let t = self.tasks[i].clone();
                out.push(t);
            }
            i = i + 1;
        }
        proof {
            assert(self.tasks@.subrange(0, self.tasks@.len() as int) =~= self.tasks@);
        }
        out
    }

    /// The unlock records, in unlock order.
    pub fn get_user_achievements(&self) -> (r: Vec<UserAchievement>)
        ensures
            r@ == self@.user_achievements,
    {
        let mut out: Vec<UserAchievement> = Vec::new();
        let mut i: usize = 0;
        while i < self.user_achievements.len()
            invariant
                i <= self.user_achievements@.len(),
                out@ == self.user_achievements@.subrange(0, i as int),
            decreases self.user_achievements@.len() - i,
        {
            let ua = self.user_achievements[i].clone();
            out.push(ua);
            proof {
                assert(self.user_achievements@.subrange(0, i + 1) =~= self.user_achievements@
                    .subrange(0, i as int).push(self.user_achievements@[i as int]));
            }
            i = i + 1;
        }
        proof {
            assert(self.user_achievements@.subrange(0, self.user_achievements@.len() as int)
                =~= self.user_achievements@);
        }
        out
    }

    /// The inventory, in acquisition order.
    pub fn get_user_inventory(&self) -> (r: Vec<InventoryItem>)
        ensures
            r@ == self@.inventory,
    {
        let mut out: Vec<InventoryItem> = Vec::new();
        let mut i: usize = 0;
        while i < self.inventory.len()
            invariant
                i <= self.inventory@.len(),
                out@ == self.inventory@.subrange(0, i as int),
            decreases self.inventory@.len() - i,
        {
            let item = self.inventory[i].clone();
            out.push(item);
            proof {
                assert(self.inventory@.subrange(0, i + 1) =~= self.inventory@.subrange(
                    0,
                    i as int,
                ).push(self.inventory@[i as int]));
            }
            i = i + 1;
        }
        proof {
            assert(self.inventory@.subrange(0, self.inventory@.len() as int) =~= self.inventory@);
        }
        out
    }
}

/// The kind a creation request asks for: standard when unstated, and
/// nothing when the stated kind is unknown.
pub open spec fn requested_kind(req: CreateTaskRequest) -> Option<TaskKind> {
    match req.task_type {
        None => Some(TaskKind::Standard),
        Some(s) => if s@ == "standard"@ {
            Some(TaskKind::Standard)
        } else if s@ == "goal"@ {
            Some(TaskKind::Goal)
        } else {
            None
        },
    }
}

/// The difficulty a creation request asks for, defaulting to 5.
pub open spec fn requested_difficulty(req: CreateTaskRequest) -> int {
    match req.difficulty {
        None => 5,
        Some(d) => d as int,
    }
}

/// The priority a creation request asks for, defaulting to 3.
pub open spec fn requested_priority(req: CreateTaskRequest) -> int {
    match req.priority {
        None => 3,
        Some(p) => p as int,
    }
}

/// Whether a creation request is accepted: a known kind, a difficulty
/// in range, a positive goal target on a goal task, and room left in
/// the id counter.
pub open spec fn create_request_ok(req: CreateTaskRequest, task_counter: int) -> bool {
    &&& requested_kind(req) is Some
    &&& 1 <= requested_difficulty(req) <= MAX_DIFFICULTY
    &&& (requested_kind(req) == Some(TaskKind::Goal) ==> (req.goal_target matches Some(t) && 1 <= t
        <= MAX_TOTAL))
    &&& task_counter < MAX_TOTAL
}

/// The engine after completing a task: nothing changes when the id is
/// unknown or the task is already completed; otherwise the task turns
/// completed, the expired buffs are dropped, and the user receives the
/// task's base rewards scaled by the buff-augmented stat bonuses and
/// the stacked reward multipliers, with health restored on a level-up.
pub open spec fn complete_task_spec(v: EngineView, task_id: int, now: int) -> EngineView {
    let i = task_index_of(v.tasks, task_id);
    if i >= v.tasks.len() {
        v
    } else if v.tasks[i].status == TaskStatus::Completed {
        v
    } else {
        let t = v.tasks[i];
        let completed = Task { status: TaskStatus::Completed, completed_at: Some(now as i64), ..t };
        let int_overlay = v.user.intelligence + crate::buffs::stat_overlay(
            v.buffs,
            StatKind::Intelligence,
            now,
        );
        let luck_overlay = v.user.luck + crate::buffs::stat_overlay(v.buffs, StatKind::Luck, now);
        let sxp = crate::progression::stat_adjusted_xp(
            t.base_experience_reward as int,
            int_overlay,
        );
        let sgold = crate::progression::stat_adjusted_gold(t.gold_reward as int, luck_overlay);
        let fxp = sxp * crate::buffs::combined_multiplier(v.buffs, BuffKind::XpMultiplier, now)
            / 100;
        let fgold = sgold * crate::buffs::combined_multiplier(
            v.buffs,
            BuffKind::GoldMultiplier,
            now,
        ) / 100;
        EngineView {
            tasks: v.tasks.update(i, completed),
            user: crate::user::user_with_rewards(v.user, fxp, fgold, true),
            buffs: active_buffs(v.buffs, now),
            ..v
        }
    }
}

/// The index of the first task with the given id, or the ledger's
/// length when no task has it.
fn find_task(tasks: &Vec<Task>, id: i64) -> (r: usize)
    ensures
        r == task_index_of(tasks@, id as int),
        r <= tasks@.len(),
        r < tasks@.len() ==> tasks@[r as int].id == id,
{
    let n = tasks.len();
    let mut i: usize = 0;
    while i < n
        invariant
            n == tasks@.len(),
            i <= n,
            forall|k: int| 0 <= k < i ==> (#[trigger] tasks@[k]).id != id,
        decreases n - i,
    {
        if tasks[i].id == id {
            proof {
                lemma_task_index_is_first(tasks@, id as int, i as int);
            }
            return i;
        }
        i = i + 1;
    }
    proof {
        lemma_task_index_is_first(tasks@, id as int, n as int);
    }
    n
}

impl Engine {
    /// Creates a task from a request: unset fields take the documented
    /// defaults, the base rewards are derived once from the
    /// difficulty, and the task gets the next id from the strictly
    /// increasing counter.  A malformed request (unknown kind, a
    /// difficulty or goal target out of range) is refused whole.
    pub fn create_task(&mut self, task_data: CreateTaskRequest, now_ms: i64) -> (r: Result<
        Task,
        EngineError,
    >)
        requires
            old(self).wf(),
            0 <= now_ms <= MAX_TIMESTAMP,
        ensures
            final(self).wf(),
            !create_request_ok(task_data, old(self)@.task_counter) ==> r == Err::<
                Task,
                EngineError,
            >(EngineError::ValidationError) && final(self)@ == old(self)@,
            create_request_ok(task_data, old(self)@.task_counter) ==> ({
                &&& r matches Ok(t)
                &&& t.id == old(self)@.task_counter
                &&& t.user_id == old(self)@.user.id
                &&& t.title == task_data.title
                &&& t.description == task_data.description
                &&& (match task_data.category {
                    Some(c) => t.category == c,
                    None => t.category@ == "general"@,
                })
                &&& t.difficulty == requested_difficulty(task_data)
                &&& t.base_experience_reward == crate::tasks::base_xp_for(
                    requested_difficulty(task_data),
                )
                &&& t.gold_reward == crate::tasks::base_gold_for(requested_difficulty(task_data))
                &&& t.due_date == task_data.due_date
                &&& t.status == TaskStatus::Active
                &&& t.priority == requested_priority(task_data)
                &&& t.created_at == now_ms
                &&& t.completed_at is None
                &&& Some(t.task_type) == requested_kind(task_data)
                &&& (t.task_type == TaskKind::Goal ==> t.goal_target == task_data.goal_target
                    && t.goal_current == Some(0i64))
                &&& (t.task_type == TaskKind::Standard ==> t.goal_target is None
                    && t.goal_current is None)
                &&& t.goal_unit == task_data.goal_unit
                &&& final(self)@ == EngineView {
                    tasks: old(self)@.tasks.push(t),
                    task_counter: old(self)@.task_counter + 1,
                    ..old(self)@
                }
            }),
    {
        let kind = match &task_data.task_type {
            None => TaskKind::Standard,
            Some(s) => {
                if s.eq(&String::from_str("standard")) {
                    TaskKind::Standard
                } else if s.eq(&String::from_str("goal")) {
                    TaskKind::Goal
                } else {
                    return Err(EngineError::ValidationError);
                }
            },
        };
        let difficulty = match task_data.difficulty {
            Some(d) => d,
            None => 5,
        };
        if difficulty < 1 || difficulty > MAX_DIFFICULTY {
            return Err(EngineError::ValidationError);
        }
        let (goal_target, goal_current) = match kind {
            TaskKind::Goal => {
                match task_data.goal_target {
                    Some(t) => {
                        if t < 1 || t > MAX_TOTAL {
                            return Err(EngineError::ValidationError);
                        }
                        (Some(t), Some(0i64))
                    },
                    None => {
                        return Err(EngineError::ValidationError);
                    },
                }
            },
            TaskKind::Standard => (None, None),
        };
        if self.task_counter >= MAX_TOTAL {
            return Err(EngineError::ValidationError);
        }
        let category = match task_data.category {
            Some(c) => c,
            None => String::from_str("general"),
        };
        let priority = match task_data.priority {
            Some(p) => p,
            None => 3,
        };
        let base_xp = 10 + (difficulty - 1) * 5;
        let gold_reward = 1 + (difficulty - 1);
        let task_id = self.task_counter;
        self.task_counter = self.task_counter + 1;
        let new_task = Task {
            id: task_id,
            user_id: self.user.id,
            title: task_data.title,
            description: task_data.description,
            category,
            difficulty,
            base_experience_reward: base_xp,
            gold_reward,
            due_date: task_data.due_date,
            status: TaskStatus::Active,
            priority,
            created_at: now_ms,
            completed_at: None,
            task_type: kind,
            goal_target,
            goal_current,
            goal_unit: task_data.goal_unit,
        };
        let returned = new_task.clone();
        self.tasks.push(new_task);
        Ok(returned)
    }

    /// Completes a task: unknown ids are refused, a completed task is
    /// returned unchanged (repeated completion never rewards twice),
    /// and an active task turns completed while the user is granted
    /// its rewards under the stat and buff overlays.
    pub fn complete_task(&mut self, task_id: i64, now_ms: i64) -> (r: Result<Task, EngineError>)
        requires
            old(self).wf(),
            0 <= now_ms <= MAX_TIMESTAMP,
        ensures
            final(self).wf(),
            final(self)@ == complete_task_spec(old(self)@, task_id as int, now_ms as int),
            ({
                let i = task_index_of(old(self)@.tasks, task_id as int);
                if i >= old(self)@.tasks.len() {
                    r == Err::<Task, EngineError>(EngineError::NotFound)
                } else if old(self)@.tasks[i].status == TaskStatus::Completed {
                    r == Ok::<Task, EngineError>(old(self)@.tasks[i])
                } else {
                    r == Ok::<Task, EngineError>(
                        Task {
                            status: TaskStatus::Completed,
                            completed_at: Some(now_ms),
                            ..old(self)@.tasks[i]
                        },
                    )
                }
            }),
    {
        let i = find_task(&self.tasks, task_id);
        if i >= self.tasks.len() {
            return Err(EngineError::NotFound);
        }
        let already_completed = match self.tasks[i].status {
            TaskStatus::Completed => true,
            TaskStatus::Active => false,
        };
        if already_completed {
            return Ok(self.tasks[i].clone());
        }
        let mut completed = self.tasks[i].clone();
        completed.status = TaskStatus::Completed;
        completed.completed_at = Some(now_ms);
        let stored = completed.clone();
        self.tasks.set(i, stored);
        crate::buffs::retain_active(&mut self.buffs, now_ms);
        proof {
            crate::buffs::lemma_active_buffs_preserve_overlay(
                old(self)@.buffs,
                StatKind::Intelligence,
                now_ms as int,
            );
            crate::buffs::lemma_active_buffs_preserve_overlay(
                old(self)@.buffs,
                StatKind::Luck,
                now_ms as int,
            );
            crate::buffs::lemma_active_buffs_preserve_sum(
                old(self)@.buffs,
                BuffKind::XpMultiplier,
                now_ms as int,
            );
            crate::buffs::lemma_active_buffs_preserve_sum(
                old(self)@.buffs,
                BuffKind::GoldMultiplier,
                now_ms as int,
            );
        }
        let overlaid = crate::buffs::apply_stat_buffs_to_user_stats(
            &self.user,
            &self.buffs,
            now_ms,
        );
        let adjusted = crate::progression::compute_stat_adjusted_rewards(
            completed.base_experience_reward,
            completed.gold_reward,
            overlaid.1,
            overlaid.4,
        );
        let final_rewards = crate::buffs::apply_buff_effects_to_rewards(
            adjusted.0,
            adjusted.1,
            &self.buffs,
            now_ms,
        );
        crate::user::grant_rewards(&mut self.user, final_rewards.0, final_rewards.1, true);
        Ok(completed)
    }
}

/// `task_index_of` finds no earlier match, and a match when in range.
pub proof fn lemma_task_index_properties(tasks: Seq<Task>, id: int)
    ensures
        0 <= task_index_of(tasks, id) <= tasks.len(),
        forall|k: int| 0 <= k < task_index_of(tasks, id) ==> (#[trigger] tasks[k]).id != id,
        task_index_of(tasks, id) < tasks.len() ==> tasks[task_index_of(tasks, id)].id == id,
    decreases tasks.len(),
{
    if tasks.len() > 0 && tasks[0].id != id {
        let tail = tasks.subrange(1, tasks.len() as int);
        lemma_task_index_properties(tail, id);
        assert forall|k: int| 0 <= k < task_index_of(tasks, id) implies (#[trigger] tasks[k]).id
            != id by {
            if k >= 1 {
                assert(tasks[k] == tail[k - 1]);
            }
        }
    }
}

/// The engine after a goal-progress update with a non-negative delta:
/// nothing changes when the id is unknown, the task is no goal task,
/// or it is already completed; otherwise the progress counter grows by
/// the delta (saturating at the total ceiling, never clamped to the
/// target), and reaching the target completes the task with its
/// unmodified base rewards — the stat and buff overlays deliberately
/// do not apply on this path.
pub open spec fn update_task_progress_spec(v: EngineView, task_id: int, delta: int, now: int) -> EngineView {
    let i = task_index_of(v.tasks, task_id);
    if i >= v.tasks.len() {
        v
    } else if v.tasks[i].task_type != TaskKind::Goal {
        v
    } else if v.tasks[i].status == TaskStatus::Completed {
        v
    } else {
        let t = v.tasks[i];
        let cur = t.goal_current.unwrap() as int;
        let target = t.goal_target.unwrap() as int;
        let new_cur = if cur + delta > MAX_TOTAL {
            MAX_TOTAL as int
        } else {
            cur + delta
        };
        if new_cur >= target {
            EngineView {
                tasks: v.tasks.update(
                    i,
                    Task {
                        status: TaskStatus::Completed,
                        completed_at: Some(now as i64),
                        goal_current: Some(new_cur as i64),
                        ..t
                    },
                ),
                user: crate::user::user_with_rewards(
                    v.user,
                    t.base_experience_reward as int,
                    t.gold_reward as int,
                    true,
                ),
                ..v
            }
        } else {
            EngineView { tasks: v.tasks.update(i, Task { goal_current: Some(new_cur as i64), ..t }), ..v }
        }
    }
}

/// The progress counter of a task, zero when the id is unknown or the
/// task carries none.
pub open spec fn goal_current_of(tasks: Seq<Task>, task_id: int) -> int {
    let i = task_index_of(tasks, task_id);
    if i < tasks.len() {
        match tasks[i].goal_current {
            Some(c) => c as int,
            None => 0,
        }
    } else {
        0
    }
}

impl Engine {
    /// Adds progress toward a goal task's target.  A negative delta is
    /// refused, so progress never decreases; reaching the target
    /// completes the task exactly once, with its unmodified base
    /// rewards.
    pub fn update_task_progress(&mut self, task_id: i64, progress_amount: i64, now_ms: i64) -> (r:
        Result<Task, EngineError>)
        requires
            old(self).wf(),
            0 <= now_ms <= MAX_TIMESTAMP,
        ensures
            final(self).wf(),
            progress_amount < 0 ==> r == Err::<Task, EngineError>(EngineError::ValidationError)
                && final(self)@ == old(self)@,
            progress_amount >= 0 ==> final(self)@ == update_task_progress_spec(
                old(self)@,
                task_id as int,
                progress_amount as int,
                now_ms as int,
            ),
            progress_amount >= 0 ==> ({
                let i = task_index_of(old(self)@.tasks, task_id as int);
                if i >= old(self)@.tasks.len() {
                    r == Err::<Task, EngineError>(EngineError::NotFound)
                } else if old(self)@.tasks[i].task_type != TaskKind::Goal {
                    r == Err::<Task, EngineError>(EngineError::WrongTaskType)
                } else if old(self)@.tasks[i].status == TaskStatus::Completed {
                    r == Ok::<Task, EngineError>(old(self)@.tasks[i])
                } else {
                    r == Ok::<Task, EngineError>(
                        update_task_progress_spec(
                            old(self)@,
                            task_id as int,
                            progress_amount as int,
                            now_ms as int,
                        ).tasks[i],
                    )
                }
            }),
    {
        if progress_amount < 0 {
            return Err(EngineError::ValidationError);
        }
        let i = find_task(&self.tasks, task_id);
        if i >= self.tasks.len() {
            return Err(EngineError::NotFound);
        }
        let is_goal = match self.tasks[i].task_type {
            TaskKind::Goal => true,
            TaskKind::Standard => false,
        };
        if !is_goal {
            return Err(EngineError::WrongTaskType);
        }
        let already_completed = match self.tasks[i].status {
            TaskStatus::Completed => true,
            TaskStatus::Active => false,
        };
        if already_completed {
            return Ok(self.tasks[i].clone());
        }
        let cur = match self.tasks[i].goal_current {
            Some(c) => c,
            None => 0,  // unreachable under well-formedness
        };
        let target = match self.tasks[i].goal_target {
            Some(t) => t,
            None => 0,  // unreachable under well-formedness
        };
        let new_cur = if progress_amount >= MAX_TOTAL || cur + progress_amount > MAX_TOTAL {
            MAX_TOTAL
        } else {
            cur + progress_amount
        };
        let mut updated = self.tasks[i].clone();
        updated.goal_current = Some(new_cur);
        if new_cur >= target {
            updated.status = TaskStatus::Completed;
            updated.completed_at = Some(now_ms);
            let base_xp = updated.base_experience_reward;
            let base_gold = updated.gold_reward;
            let stored = updated.clone();
            self.tasks.set(i, stored);
            crate::user::grant_rewards(&mut self.user, base_xp, base_gold, true);
        } else {
            let stored = updated.clone();
            self.tasks.set(i, stored);
        }
        Ok(updated)
    }
}

/// Completing a task twice changes nothing the second time: whatever
/// the first completion did, the second call on the same id leaves the
/// whole engine state — the user's experience, gold and level
/// included — exactly as the first left it.
pub proof fn lemma_complete_task_idempotent(v: EngineView, task_id: int, now1: int, now2: int)
    requires
        v.wf(),
    ensures
        complete_task_spec(complete_task_spec(v, task_id, now1), task_id, now2)
            == complete_task_spec(v, task_id, now1),
{
    lemma_task_index_properties(v.tasks, task_id);
    let i = task_index_of(v.tasks, task_id);
    let v1 = complete_task_spec(v, task_id, now1);
    if i < v.tasks.len() && v.tasks[i].status != TaskStatus::Completed {
        assert(v1.tasks[i].status == TaskStatus::Completed);
        lemma_task_index_is_first(v1.tasks, task_id, i);
    }
}

/// Goal progress never decreases: one update with a non-negative
/// delta, on any task id, leaves the progress counter at least where
/// it was, and every accepted update has a non-negative delta.
pub proof fn lemma_update_progress_monotonic(v: EngineView, task_id: int, delta: int, now: int)
    requires
        v.wf(),
        delta >= 0,
    ensures
        goal_current_of(update_task_progress_spec(v, task_id, delta, now).tasks, task_id)
            >= goal_current_of(v.tasks, task_id),
{
    lemma_task_index_properties(v.tasks, task_id);
    let i = task_index_of(v.tasks, task_id);
    let v2 = update_task_progress_spec(v, task_id, delta, now);
    if i < v.tasks.len() && v.tasks[i].task_type == TaskKind::Goal && v.tasks[i].status
        != TaskStatus::Completed {
        assert(v.tasks[i].wf());
        lemma_task_index_is_first(v2.tasks, task_id, i);
    } else {
        assert(v2 == v);
    }
}

/// The user after receiving the fixed rewards of a run of unlocked
/// achievements, in order.  Health is not restored on this path: a
/// level gained from achievement rewards keeps the current health.
pub open spec fn apply_unlock_rewards(u: User, list: Seq<Achievement>) -> User
    decreases list.len(),
{
    if list.len() == 0 {
        u
    } else {
        crate::user::user_with_rewards(
            apply_unlock_rewards(u, list.drop_last()),
            list.last().experience_reward as int,
            list.last().gold_reward as int,
            false,
        )
    }
}

/// The id a fresh unlock record receives: one past the number of
/// records so far, held at the integer ceiling.
pub open spec fn ua_id_for(len: int) -> int {
    if len + 1 > i64::MAX {
        i64::MAX as int
    } else {
        len + 1
    }
}

/// The unlock records extended by one fresh record per newly unlocked
/// achievement, in unlock order, stamped with the unlock time.
pub open spec fn append_unlocks(
    uas: Seq<UserAchievement>,
    newly: Seq<Achievement>,
    user_id: i64,
    now: int,
) -> Seq<UserAchievement>
    decreases newly.len(),
{
    if newly.len() == 0 {
        uas
    } else {
        let prev = append_unlocks(uas, newly.drop_last(), user_id, now);
        prev.push(
            UserAchievement {
                id: ua_id_for(prev.len() as int) as i64,
                user_id,
                achievement_id: newly.last().id,
                achievement: newly.last(),
                unlocked_at: now as i64,
            },
        )
    }
}

/// The engine after one achievement evaluation pass: every catalog
/// entry not yet unlocked whose predicate holds of the current
/// snapshot is unlocked at once, in catalog order, each granting its
/// fixed rewards; the snapshot the predicates see is the state before
/// any of the pass's rewards.
pub open spec fn check_achievements_spec(v: EngineView, now: int) -> EngineView {
    let completed = crate::achievements::completed_count(v.tasks);
    let newly = crate::achievements::newly_qualified(
        v.achievements,
        v.user,
        completed,
        v.user_achievements,
    );
    EngineView {
        user: apply_unlock_rewards(v.user, newly),
        user_achievements: append_unlocks(v.user_achievements, newly, v.user.id, now),
        ..v
    }
}

/// The shape of the extended unlock records: the old records stand
/// unchanged in front, and one fresh record per newly unlocked
/// achievement follows, in order.
pub proof fn lemma_append_unlocks_shape(
    uas: Seq<UserAchievement>,
    newly: Seq<Achievement>,
    user_id: i64,
    now: int,
)
    ensures
        append_unlocks(uas, newly, user_id, now).len() == uas.len() + newly.len(),
        forall|j: int|
            0 <= j < uas.len() ==> append_unlocks(uas, newly, user_id, now)[j] == #[trigger] uas[j],
        forall|k: int|
            0 <= k < newly.len() ==> (#[trigger] append_unlocks(uas, newly, user_id, now)[uas.len()
                + k]).achievement_id == newly[k].id && append_unlocks(uas, newly, user_id, now)[uas.len()
                + k].achievement == newly[k] && append_unlocks(uas, newly, user_id, now)[uas.len()
                + k].unlocked_at == now as i64 && append_unlocks(uas, newly, user_id, now)[uas.len()
                + k].user_id == user_id,
    decreases newly.len(),
{
    if newly.len() > 0 {
        lemma_append_unlocks_shape(uas, newly.drop_last(), user_id, now);
        let prev = append_unlocks(uas, newly.drop_last(), user_id, now);
        let whole = append_unlocks(uas, newly, user_id, now);
        assert(whole.len() == uas.len() + newly.len());
        assert forall|k: int|
            0 <= k < newly.len() implies (#[trigger] whole[uas.len() + k]).achievement_id
            == newly[k].id && whole[uas.len() + k].achievement == newly[k] && whole[uas.len()
            + k].unlocked_at == now as i64 && whole[uas.len() + k].user_id == user_id by {
            if k < newly.len() - 1 {
                assert(newly.drop_last()[k] == newly[k]);
                assert((prev[uas.len() + k]).achievement_id == newly.drop_last()[k].id);
                assert(whole[uas.len() + k] == prev[uas.len() + k]);
            } else {
                assert(whole[uas.len() + k] == whole.last());
            }
        }
    }
}

/// The newly qualifying achievements are catalog entries, none of them
/// already unlocked; and with distinct catalog ids their ids are
/// pairwise distinct.
pub proof fn lemma_newly_qualified_props(
    catalog: Seq<Achievement>,
    user: User,
    completed: int,
    uas: Seq<UserAchievement>,
)
    ensures
        ({
            let newly = crate::achievements::newly_qualified(catalog, user, completed, uas);
            &&& newly.len() <= catalog.len()
            &&& forall|k: int|
                0 <= k < newly.len() ==> catalog.contains(#[trigger] newly[k])
                    && !crate::achievements::already_unlocked(uas, newly[k].id as int)
            &&& (forall|i: int, j: int|
                0 <= i < j < catalog.len() ==> (#[trigger] catalog[i]).id != (
                #[trigger] catalog[j]).id) ==> (forall|k1: int, k2: int|
                0 <= k1 < k2 < newly.len() ==> (#[trigger] newly[k1]).id != (
                #[trigger] newly[k2]).id)
        }),
    decreases catalog.len(),
{
    let newly = crate::achievements::newly_qualified(catalog, user, completed, uas);
    if catalog.len() > 0 {
        let head = catalog.drop_last();
        lemma_newly_qualified_props(head, user, completed, uas);
        let prev = crate::achievements::newly_qualified(head, user, completed, uas);
        assert(forall|k: int| 0 <= k < prev.len() ==> head.contains(#[trigger] prev[k]) ==> catalog.contains(prev[k])) by {
            assert(forall|j: int| 0 <= j < head.len() ==> #[trigger] head[j] == catalog[j]);
        }
        assert(forall|k: int|
            0 <= k < prev.len() && head.contains(#[trigger] prev[k]) ==> catalog.contains(
                prev[k],
            )) by {
            assert(forall|j: int| 0 <= j < head.len() ==> #[trigger] head[j] == catalog[j]);
        }
        assert(catalog.contains(catalog.last()));
        if (forall|i: int, j: int|
            0 <= i < j < catalog.len() ==> (#[trigger] catalog[i]).id != (
            #[trigger] catalog[j]).id) && newly.len() > prev.len() {
            assert forall|k: int| 0 <= k < prev.len() implies (#[trigger] prev[k]).id
                != catalog.last().id by {
                let j = choose|j: int| 0 <= j < head.len() && head[j] == prev[k];
                assert(catalog[j] == prev[k]);
                assert(catalog[j].id != catalog[catalog.len() - 1].id);
            }
        }
    }
}

/// No achievement is ever unlocked twice: one evaluation pass on a
/// well-formed engine leaves every achievement id with at most one
/// unlock record, whatever was unlocked before.
pub proof fn lemma_achievement_unlock_unique(v: EngineView, now: int)
    requires
        v.wf(),
    ensures
        crate::achievements::unlock_ids_distinct(
            check_achievements_spec(v, now).user_achievements,
        ),
{
    let completed = crate::achievements::completed_count(v.tasks);
    let newly = crate::achievements::newly_qualified(
        v.achievements,
        v.user,
        completed,
        v.user_achievements,
    );
    let uas = v.user_achievements;
    let result = append_unlocks(uas, newly, v.user.id, now);
    lemma_newly_qualified_props(v.achievements, v.user, completed, uas);
    lemma_append_unlocks_shape(uas, newly, v.user.id, now);
    assert forall|i: int, j: int| 0 <= i < j < result.len() implies (
    #[trigger] result[i]).achievement_id != (#[trigger] result[j]).achievement_id by {
        if i < uas.len() && j < uas.len() {
            assert(result[i] == uas[i]);
            assert(result[j] == uas[j]);
            assert(uas[i].achievement_id != uas[j].achievement_id);
        } else if i < uas.len() {
            let k = j - uas.len();
            assert(result[uas.len() + k].achievement_id == newly[k].id);
            assert(!crate::achievements::already_unlocked(uas, newly[k].id as int));
            assert(result[i] == uas[i]);
            assert(uas[i].achievement_id != newly[k].id);
        } else {
            let k1 = i - uas.len();
            let k2 = j - uas.len();
            assert(result[uas.len() + k1].achievement_id == newly[k1].id);
            assert(result[uas.len() + k2].achievement_id == newly[k2].id);
        }
    }
}

/// Whether an achievement id already has an unlock record.
fn is_unlocked(uas: &Vec<UserAchievement>, id: i64) -> (b: bool)
    ensures
        b == crate::achievements::already_unlocked(uas@, id as int),
{
    let n = uas.len();
    let mut i: usize = 0;
    while i < n
        invariant
            n == uas@.len(),
            i <= n,
            forall|k: int| 0 <= k < i ==> (#[trigger] uas@[k]).achievement_id != id,
        decreases n - i,
    {
        if uas[i].achievement_id == id {
            return true;
        }
        i = i + 1;
    }
    false
}

impl Engine {
    /// Evaluates every achievement against the current snapshot and
    /// unlocks the qualifying ones together, each exactly once, each
    /// granting its fixed rewards; returns the newly unlocked
    /// achievements, in catalog order — an empty list when none
    /// qualify.
    pub fn check_achievements(&mut self, now_ms: i64) -> (r: Vec<Achievement>)
        requires
            old(self).wf(),
            0 <= now_ms <= MAX_TIMESTAMP,
        ensures
            final(self).wf(),
            final(self)@ == check_achievements_spec(old(self)@, now_ms as int),
            r@ == crate::achievements::newly_qualified(
                old(self)@.achievements,
                old(self)@.user,
                crate::achievements::completed_count(old(self)@.tasks),
                old(self)@.user_achievements,
            ),
    {
        let ghost orig = self@;
        // Snapshot aggregates: every predicate in this pass sees the
        // state before any of the pass's rewards.
        let mut completed: usize = 0;
        let mut i: usize = 0;
        proof {
            assert(self.tasks@.subrange(0, 0) =~= Seq::<Task>::empty());
        }
        while i < self.tasks.len()
            invariant
                i <= self.tasks@.len(),
                completed <= i,
                completed == crate::achievements::completed_count(
                    self.tasks@.subrange(0, i as int),
                ),
            decreases self.tasks@.len() - i,
        {
            proof {
                assert(self.tasks@.subrange(0, i + 1).drop_last() =~= self.tasks@.subrange(
                    0,
                    i as int,
                ));
                assert(self.tasks@.subrange(0, i + 1).last() == self.tasks@[i as int]);
            }
            let is_completed = match self.tasks[i].status {
                TaskStatus::Completed => true,
                TaskStatus::Active => false,
            };
            if is_completed {
                completed = completed + 1;
            }
            i = i + 1;
        }
        proof {
            assert(self.tasks@.subrange(0, self.tasks@.len() as int) =~= self.tasks@);
        }
        let completed_count_i64: i64 = completed as i64;
        let user_id = self.user.id;

        let mut newly: Vec<Achievement> = Vec::new();
        let mut i: usize = 0;
        proof {
            assert(self.achievements@.subrange(0, 0) =~= Seq::<Achievement>::empty());
        }
        while i < self.achievements.len()
            invariant
                self.wf(),
                self@ == orig,
                i <= self.achievements@.len(),
                completed_count_i64 == crate::achievements::completed_count(self.tasks@),
                newly@ == crate::achievements::newly_qualified(
                    self.achievements@.subrange(0, i as int),
                    self.user,
                    completed_count_i64 as int,
                    self.user_achievements@,
                ),
                forall|k: int| 0 <= k < newly@.len() ==> (#[trigger] newly@[k]).wf(),
            decreases self.achievements@.len() - i,
        {
            proof {
                assert(self.achievements@.subrange(0, i + 1).drop_last() =~= self.achievements@
                    .subrange(0, i as int));
                assert(self.achievements@.subrange(0, i + 1).last() == self.achievements@[i as int]);
            }
            let a_id = self.achievements[i].id;
            if !is_unlocked(&self.user_achievements, a_id) {
                let threshold = self.achievements[i].requirements_value;
                let meets = match self.achievements[i].requirements_type {
                    RequirementKind::TasksCompleted => completed_count_i64 >= threshold,
                    RequirementKind::Level => self.user.level >= threshold,
                    RequirementKind::Gold => self.user.gold >= threshold,
                };
                if meets {
                    let a = self.achievements[i].clone();
                    newly.push(a);
                }
            }
            i = i + 1;
        }
        proof {
            assert(self.achievements@.subrange(0, self.achievements@.len() as int)
                =~= self.achievements@);
        }

        // Grant the fixed rewards, in unlock order.
        let ghost user_before = self.user;
        let mut k: usize = 0;
        proof {
            assert(newly@.subrange(0, 0) =~= Seq::<Achievement>::empty());
        }
        while k < newly.len()
            invariant
                k <= newly@.len(),
                forall|k2: int| 0 <= k2 < newly@.len() ==> (#[trigger] newly@[k2]).wf(),
                self.user == apply_unlock_rewards(user_before, newly@.subrange(0, k as int)),
                user_before.wf(),
                self.user.wf(),
                self.tasks@ == orig.tasks,
                self.task_counter as int == orig.task_counter,
                self.inventory@ == orig.inventory,
                self.achievements@ == orig.achievements,
                self.user_achievements@ == orig.user_achievements,
                self.buffs@ == orig.buffs,
                self.buff_counter as int == orig.buff_counter,
            decreases newly@.len() - k,
        {
            proof {
                assert(newly@.subrange(0, k + 1).drop_last() =~= newly@.subrange(0, k as int));
                assert(newly@.subrange(0, k + 1).last() == newly@[k as int]);
                assert(newly@[k as int].wf());
            }
            let xp_reward = newly[k].experience_reward;
            let gold_reward = newly[k].gold_reward;
            crate::user::grant_rewards(&mut self.user, xp_reward, gold_reward, false);
            k = k + 1;
        }
        proof {
            assert(newly@.subrange(0, newly@.len() as int) =~= newly@);
        }

        // Record the unlocks, stamped with the unlock time.
        let mut k: usize = 0;
        proof {
            assert(newly@.subrange(0, 0) =~= Seq::<Achievement>::empty());
        }
        while k < newly.len()
            invariant
                k <= newly@.len(),
                self.user_achievements@ == append_unlocks(
                    orig.user_achievements,
                    newly@.subrange(0, k as int),
                    user_id,
                    now_ms as int,
                ),
                self.user == apply_unlock_rewards(user_before, newly@),
                self.user.wf(),
                self.tasks@ == orig.tasks,
                self.task_counter as int == orig.task_counter,
                self.inventory@ == orig.inventory,
                self.achievements@ == orig.achievements,
                self.buffs@ == orig.buffs,
                self.buff_counter as int == orig.buff_counter,
            decreases newly@.len() - k,
        {
            proof {
                assert(newly@.subrange(0, k + 1).drop_last() =~= newly@.subrange(0, k as int));
                assert(newly@.subrange(0, k + 1).last() == newly@[k as int]);
            }
            let len_u64 = self.user_achievements.len() as u64;
            let record_id: i64 = if len_u64 >= 9_223_372_036_854_775_807u64 {
                i64::MAX
            } else {
                (len_u64 + 1) as i64
            };
            let achievement = newly[k].clone();
            let achievement_id = achievement.id;
            self.user_achievements.push(
                UserAchievement {
                    id: record_id,
                    user_id,
                    achievement_id,
                    achievement,
                    unlocked_at: now_ms,
                },
            );
            k = k + 1;
        }
        proof {
            assert(newly@.subrange(0, newly@.len() as int) =~= newly@);
            lemma_achievement_unlock_unique(orig, now_ms as int);
        }
        newly
    }
}

/// Whether the inputs to a buff creation are accepted: value and
/// duration in range, and a stat target exactly on a stat buff.
pub open spec fn create_buff_ok(
    buff_type: BuffKind,
    value_hundredths: int,
    stat_type: Option<StatKind>,
    duration_minutes: int,
) -> bool {
    &&& 0 <= value_hundredths <= MAX_BUFF_VALUE
    &&& 0 <= duration_minutes <= MAX_DURATION
    &&& (stat_type is Some <==> buff_type == BuffKind::Stat)
}

/// The buff counter after issuing one id, held at the integer
/// ceiling.
pub open spec fn next_buff_counter(c: int) -> int {
    if c + 1 > i64::MAX {
        i64::MAX as int
    } else {
        c + 1
    }
}

/// How one buff creation relates the states before and after, the
/// result, and the creation time: refused inputs change nothing; a
/// full store (after dropping expired buffs) refuses and keeps the
/// pruned store; otherwise the pruned store gains exactly the new
/// buff, stamped and given the next id.
pub open spec fn buff_created(
    pre: EngineView,
    post: EngineView,
    r: Result<Buff, EngineError>,
    buff_type: BuffKind,
    value_hundredths: int,
    stat_type: Option<StatKind>,
    duration_minutes: int,
    now: int,
) -> bool {
    if !create_buff_ok(buff_type, value_hundredths, stat_type, duration_minutes) {
        r == Err::<Buff, EngineError>(EngineError::ValidationError) && post == pre
    } else if active_buffs(pre.buffs, now).len() >= MAX_ACTIVE_BUFFS {
        r == Err::<Buff, EngineError>(EngineError::ValidationError) && post == EngineView {
            buffs: active_buffs(pre.buffs, now),
            ..pre
        }
    } else {
        &&& r matches Ok(b)
        &&& b.id == pre.buff_counter
        &&& b.buff_type == buff_type
        &&& b.value_hundredths == value_hundredths
        &&& b.stat_type == stat_type
        &&& b.duration_minutes == duration_minutes
        &&& b.applied_at == now
        &&& b.expires_at == now + duration_minutes * 60_000
        &&& (match buff_type {
            BuffKind::Stat => b.name@ == "stat Boost"@,
            BuffKind::XpMultiplier => b.name@ == "xp_multiplier Boost"@,
            BuffKind::GoldMultiplier => b.name@ == "gold_multiplier Boost"@,
            BuffKind::HealthRegen => b.name@ == "health_regen Boost"@,
        })
        &&& post == EngineView {
            buffs: active_buffs(pre.buffs, now).push(r.unwrap()),
            buff_counter: next_buff_counter(pre.buff_counter),
            ..pre
        }
    }
}

/// Reads the wall clock.  Relies on chrono's `Utc::now` composed with
/// `DateTime::timestamp_millis`: the current time as milliseconds
/// since the Unix epoch.  Nothing is promised of the value: the system
/// clock can be set to anything, so callers clamp it into range.
#[verifier::external_body]
fn now_millis() -> i64 {
    chrono::Utc::now().timestamp_millis()
}

impl Engine {
    /// Drops every buff whose expiry has passed.
    pub fn clean_expired_buffs(&mut self, now_ms: i64)
        requires
            old(self).wf(),
            0 <= now_ms,
        ensures
            final(self).wf(),
            final(self)@ == (EngineView {
                buffs: active_buffs(old(self)@.buffs, now_ms as int),
                ..old(self)@
            }),
    {
        crate::buffs::retain_active(&mut self.buffs, now_ms);
    }

    /// The active buffs at the given time; expired ones are removed
    /// from the store and never appear in the result.
    pub fn get_active_buffs(&mut self, now_ms: i64) -> (r: Vec<Buff>)
        requires
            old(self).wf(),
            0 <= now_ms,
        ensures
            final(self).wf(),
            final(self)@ == (EngineView {
                buffs: active_buffs(old(self)@.buffs, now_ms as int),
                ..old(self)@
            }),
            r@ == active_buffs(old(self)@.buffs, now_ms as int),
            forall|i: int| 0 <= i < r@.len() ==> (#[trigger] r@[i]).is_active(now_ms as int),
    {
        crate::buffs::retain_active(&mut self.buffs, now_ms);
        let mut out: Vec<Buff> = Vec::new();
        let mut i: usize = 0;
        while i < self.buffs.len()
            invariant
                i <= self.buffs@.len(),
                out@ == self.buffs@.subrange(0, i as int),
            decreases self.buffs@.len() - i,
        {
            let b = self.buffs[i].clone();
            out.push(b);
            proof {
                assert(self.buffs@.subrange(0, i + 1) =~= self.buffs@.subrange(0, i as int).push(
                    self.buffs@[i as int],
                ));
            }
            i = i + 1;
        }
        proof {
            assert(self.buffs@.subrange(0, self.buffs@.len() as int) =~= self.buffs@);
        }
        out
    }

    /// Creates a buff and inserts it into the store: no merging, so
    /// stacking the same kind twice yields two entries whose effects
    /// both apply.  Expired buffs are dropped first; a store still at
    /// capacity, or an out-of-range input, is refused.
    pub fn create_buff(
        &mut self,
        buff_type: BuffKind,
        value_hundredths: i64,
        stat_type: Option<StatKind>,
        duration_minutes: i64,
        now_ms: i64,
    ) -> (r: Result<Buff, EngineError>)
        requires
            old(self).wf(),
            0 <= now_ms <= MAX_TIMESTAMP,
        ensures
            final(self).wf(),
            buff_created(
                old(self)@,
                final(self)@,
                r,
                buff_type,
                value_hundredths as int,
                stat_type,
                duration_minutes as int,
                now_ms as int,
            ),
    {
        if value_hundredths < 0 || value_hundredths > MAX_BUFF_VALUE {
            return Err(EngineError::ValidationError);
        }
        if duration_minutes < 0 || duration_minutes > MAX_DURATION {
            return Err(EngineError::ValidationError);
        }
        let stat_matches = match (&stat_type, &buff_type) {
            (Some(_), BuffKind::Stat) => true,
            (None, BuffKind::Stat) => false,
            (Some(_), _) => false,
            (None, _) => true,
        };
        if !stat_matches {
            return Err(EngineError::ValidationError);
        }
        crate::buffs::retain_active(&mut self.buffs, now_ms);
        if self.buffs.len() >= MAX_ACTIVE_BUFFS {
            return Err(EngineError::ValidationError);
        }
        let name = match buff_type {
            BuffKind::Stat => String::from_str("stat Boost"),
            BuffKind::XpMultiplier => String::from_str("xp_multiplier Boost"),
            BuffKind::GoldMultiplier => String::from_str("gold_multiplier Boost"),
            BuffKind::HealthRegen => String::from_str("health_regen Boost"),
        };
        let buff = Buff {
            id: self.buff_counter,
            name,
            buff_type,
            value_hundredths,
            stat_type,
            duration_minutes,
            applied_at: now_ms,
            expires_at: now_ms + duration_minutes * 60_000,
        };
        let returned = buff.clone();
        self.buffs.push(buff);
        self.buff_counter = if self.buff_counter == i64::MAX {
            i64::MAX
        } else {
            self.buff_counter + 1
        };
        Ok(returned)
    }

    /// Applies a buff at the current wall-clock time, read through the
    /// trusted clock wrapper and clamped into the representable range.
    pub fn apply_buff(
        &mut self,
        buff_type: BuffKind,
        value_hundredths: i64,
        stat_type: Option<StatKind>,
        duration_minutes: i64,
    ) -> (r: Result<Buff, EngineError>)
        requires
            old(self).wf(),
        ensures
            final(self).wf(),
            exists|t: int|
                0 <= t <= MAX_TIMESTAMP && #[trigger] buff_created(
                    old(self)@,
                    final(self)@,
                    r,
                    buff_type,
                    value_hundredths as int,
                    stat_type,
                    duration_minutes as int,
                    t,
                ),
    {
        let raw = now_millis();
        let now_ms = if raw < 0 {
            0
        } else if raw > MAX_TIMESTAMP {
            MAX_TIMESTAMP
        } else {
            raw
        };
        let r = self.create_buff(buff_type, value_hundredths, stat_type, duration_minutes, now_ms);
        proof {
            assert(buff_created(
                old(self)@,
                self@,
                r,
                buff_type,
                value_hundredths as int,
                stat_type,
                duration_minutes as int,
                now_ms as int,
            ));
        }
        r
    }
}

/// How one buff-granting item use relates the states before and
/// after, the result, and the time: out-of-range parameters are
/// refused without consuming the item; a full store (after dropping
/// expired buffs) likewise refuses, keeping the pruned store;
/// otherwise the pruned store gains exactly the described buff and one
/// unit of the item is consumed.
pub open spec fn item_buff_case(
    pre: EngineView,
    post: EngineView,
    r: Result<User, EngineError>,
    kind: BuffKind,
    stat: Option<StatKind>,
    value_hundredths: int,
    duration_minutes: int,
    item_index: int,
    now: int,
) -> bool {
    if !create_buff_ok(kind, value_hundredths, stat, duration_minutes) {
        r == Err::<User, EngineError>(EngineError::ValidationError) && post == pre
    } else if active_buffs(pre.buffs, now).len() >= MAX_ACTIVE_BUFFS {
        r == Err::<User, EngineError>(EngineError::ValidationError) && post == EngineView {
            buffs: active_buffs(pre.buffs, now),
            ..pre
        }
    } else {
        &&& r == Ok::<User, EngineError>(pre.user)
        &&& post.buffs.len() == active_buffs(pre.buffs, now).len() + 1
        &&& post.buffs == active_buffs(pre.buffs, now).push(post.buffs.last())
        &&& post.buffs.last().buff_type == kind
        &&& post.buffs.last().value_hundredths == value_hundredths
        &&& post.buffs.last().stat_type == stat
        &&& post.buffs.last().duration_minutes == duration_minutes
        &&& post.buffs.last().applied_at == now
        &&& post.buffs.last().expires_at == now + duration_minutes * 60_000
        &&& post == EngineView {
            buffs: post.buffs,
            inventory: crate::inventory::consume_at(pre.inventory, item_index),
            buff_counter: next_buff_counter(pre.buff_counter),
            ..pre
        }
    }
}

impl Engine {
    /// Uses one unit of an inventory item: the item's effect
    /// descriptor is parsed and dispatched first, and the unit is
    /// consumed only after the effect succeeded — a refused effect
    /// never costs the item.  Healing clamps to full health;
    /// multiplier and stat effects become buffs.
    pub fn use_inventory_item(&mut self, item_id: &String, now_ms: i64) -> (r: Result<
        User,
        EngineError,
    >)
        requires
            old(self).wf(),
            0 <= now_ms <= MAX_TIMESTAMP,
        ensures
            final(self).wf(),
            ({
                let inv = old(self)@.inventory;
                let i = crate::inventory::find_item_index(inv, item_id@);
                if i >= inv.len() || inv[i].quantity <= 0 {
                    r == Err::<User, EngineError>(EngineError::NotFound) && final(self)@ == old(self)@
                } else {
                    match inv[i].effect {
                        None => r == Ok::<User, EngineError>(old(self)@.user) && final(self)@
                            == EngineView { inventory: crate::inventory::consume_at(inv, i), ..old(self)@ },
                        Some(e) => match crate::inventory::parse_effect_spec(e@) {
                            Err(err) => r == Err::<User, EngineError>(err) && final(self)@ == old(self)@,
                            Ok(eff) => match eff {
                                crate::inventory::ItemEffect::RestoreHealth { amount } => ({
                                    let healed = if old(self)@.user.current_health + amount > old(self)@.user.max_health {
                                        old(self)@.user.max_health as int
                                    } else {
                                        old(self)@.user.current_health + amount
                                    };
                                    let u2 = User {
                                        current_health: healed as i64,
                                        ..old(self)@.user
                                    };
                                    r == Ok::<User, EngineError>(u2) && final(self)@ == EngineView {
                                        user: u2,
                                        inventory: crate::inventory::consume_at(inv, i),
                                        ..old(self)@
                                    }
                                }),
                                crate::inventory::ItemEffect::XpMultiplier {
                                    value_hundredths,
                                    duration_minutes,
                                } => item_buff_case(
                                    old(self)@,
                                    final(self)@,
                                    r,
                                    BuffKind::XpMultiplier,
                                    None,
                                    value_hundredths as int,
                                    duration_minutes as int,
                                    i,
                                    now_ms as int,
                                ),
                                crate::inventory::ItemEffect::GoldMultiplier {
                                    value_hundredths,
                                    duration_minutes,
                                } => item_buff_case(
                                    old(self)@,
                                    final(self)@,
                                    r,
                                    BuffKind::GoldMultiplier,
                                    None,
                                    value_hundredths as int,
                                    duration_minutes as int,
                                    i,
                                    now_ms as int,
                                ),
                                crate::inventory::ItemEffect::StatBoost {
                                    stat,
                                    value_hundredths,
                                    duration_minutes,
                                } => item_buff_case(
                                    old(self)@,
                                    final(self)@,
                                    r,
                                    BuffKind::Stat,
                                    Some(stat),
                                    value_hundredths as int,
                                    duration_minutes as int,
                                    i,
                                    now_ms as int,
                                ),
                            },
                        },
                    }
                }
            }),
    {
        let i = crate::inventory::find_item(&self.inventory, item_id);
        if i >= self.inventory.len() {
            return Err(EngineError::NotFound);
        }
        if self.inventory[i].quantity <= 0 {
            return Err(EngineError::NotFound);
        }
        let parsed: Option<crate::inventory::ItemEffect> = match &self.inventory[i].effect {
            None => None,
            Some(e) => {
                match crate::inventory::parse_effect(e.as_str()) {
                    Ok(eff) => Some(eff),
                    Err(err) => {
                        return Err(err);
                    },
                }
            },
        };
        match parsed {
            None => {
                crate::inventory::consume_item(&mut self.inventory, i);
                Ok(self.user.clone())
            },
            Some(crate::inventory::ItemEffect::RestoreHealth { amount }) => {
                let healed = self.user.current_health + amount;
                self.user.current_health = if healed > self.user.max_health {
                    self.user.max_health
                } else {
                    healed
                };
                crate::inventory::consume_item(&mut self.inventory, i);
                Ok(self.user.clone())
            },
            Some(crate::inventory::ItemEffect::XpMultiplier { value_hundredths, duration_minutes }) => {
                match self.create_buff(
                    BuffKind::XpMultiplier,
                    value_hundredths,
                    None,
                    duration_minutes,
                    now_ms,
                ) {
                    Ok(_) => {
                        crate::inventory::consume_item(&mut self.inventory, i);
                        Ok(self.user.clone())
                    },
                    Err(err) => Err(err),
                }
            },
            Some(crate::inventory::ItemEffect::GoldMultiplier {
                value_hundredths,
                duration_minutes,
            }) => {
                match self.create_buff(
                    BuffKind::GoldMultiplier,
                    value_hundredths,
                    None,
                    duration_minutes,
                    now_ms,
                ) {
                    Ok(_) => {
                        crate::inventory::consume_item(&mut self.inventory, i);
                        Ok(self.user.clone())
                    },
                    Err(err) => Err(err),
                }
            },
            Some(crate::inventory::ItemEffect::StatBoost {
                stat,
                value_hundredths,
                duration_minutes,
            }) => {
                match self.create_buff(
                    BuffKind::Stat,
                    value_hundredths,
                    Some(stat),
                    duration_minutes,
                    now_ms,
                ) {
                    Ok(_) => {
                        crate::inventory::consume_item(&mut self.inventory, i);
                        Ok(self.user.clone())
                    },
                    Err(err) => Err(err),
                }
            },
        }
    }

    /// Purchases one unit of a catalog item: the price is deducted
    /// from the user's gold — a negative price or too little gold is
    /// refused with gold and inventory untouched — and the unit is
    /// stacked into the inventory under the usual stacking rule.
    pub fn purchase_item(&mut self, item_id: &String, price: i64, now_ms: i64) -> (r: Result<
        User,
        EngineError,
    >)
        requires
            old(self).wf(),
            0 <= now_ms <= MAX_TIMESTAMP,
        ensures
            final(self).wf(),
            price < 0 ==> r == Err::<User, EngineError>(EngineError::ValidationError) && final(self)@ == old(self)@,
            price >= 0 && old(self)@.user.gold < price ==> r == Err::<User, EngineError>(
                EngineError::InsufficientGold,
            ) && final(self)@ == old(self)@,
            price >= 0 && old(self)@.user.gold >= price ==> ({
                let u2 = User { gold: (old(self)@.user.gold - price) as i64, ..old(self)@.user };
                let inv = old(self)@.inventory;
                let idx = crate::inventory::find_item_index(inv, item_id@);
                &&& r == Ok::<User, EngineError>(u2)
                &&& final(self)@.user == u2
                &&& (if idx < inv.len() && inv[idx].quantity + 1 <= inv[idx].max_stack {
                    final(self)@.inventory == inv.update(
                        idx,
                        InventoryItem { quantity: (inv[idx].quantity + 1) as i64, ..inv[idx] },
                    )
                } else {
                    &&& final(self)@.inventory.len() == inv.len() + 1
                    &&& final(self)@.inventory == inv.push(final(self)@.inventory.last())
                    &&& crate::inventory::catalog_item_spec(
                        item_id@,
                        final(self)@.inventory.last(),
                        now_ms as int,
                    )
                })
                &&& final(self)@ == EngineView {
                    user: final(self)@.user,
                    inventory: final(self)@.inventory,
                    ..old(self)@
                }
            }),
    {
        if price < 0 {
            return Err(EngineError::ValidationError);
        }
        if self.user.gold < price {
            return Err(EngineError::InsufficientGold);
        }
        self.user.gold = self.user.gold - price;
        let item = crate::inventory::get_item_data(item_id, now_ms);
        crate::inventory::add_item_to_inventory(&mut self.inventory, item);
        Ok(self.user.clone())
    }
}

/// The titles the inventory holds, in acquisition order.
pub open spec fn titles_of(inv: Seq<InventoryItem>) -> Seq<String>
    decreases inv.len(),
{
    if inv.len() == 0 {
        Seq::empty()
    } else {
        let rest = titles_of(inv.drop_last());
        if inv.last().item_type@ == "title"@ {
            rest.push(inv.last().name)
        } else {
            rest
        }
    }
}

/// Whether the inventory holds a title item with the given name.
pub open spec fn owns_title(inv: Seq<InventoryItem>, title: Seq<char>) -> bool {
    exists|i: int|
        0 <= i < inv.len() && (#[trigger] inv[i]).item_type@ == "title"@ && inv[i].name@ == title
}

impl Engine {
    /// The names of the title items the inventory holds.
    pub fn get_user_titles(&self) -> (r: Vec<String>)
        ensures
            r@ == titles_of(self@.inventory),
    {
        let mut out: Vec<String> = Vec::new();
        let mut i: usize = 0;
        proof {
            assert(self.inventory@.subrange(0, 0) =~= Seq::<InventoryItem>::empty());
        }
        while i < self.inventory.len()
            invariant
                i <= self.inventory@.len(),
                out@ == titles_of(self.inventory@.subrange(0, i as int)),
            decreases self.inventory@.len() - i,
        {
            proof {
                assert(self.inventory@.subrange(0, i + 1).drop_last() =~= self.inventory@.subrange(
                    0,
                    i as int,
                ));
                assert(self.inventory@.subrange(0, i + 1).last() == self.inventory@[i as int]);
            }
            if self.inventory[i].item_type.eq(&String::from_str("title")) {
                let name = self.inventory[i].name.clone();
                out.push(name);
            }
            i = i + 1;
        }
        proof {
            assert(self.inventory@.subrange(0, self.inventory@.len() as int) =~= self.inventory@);
        }
        out
    }

    /// Equips a title the user owns as a title item; an unowned title
    /// is refused.
    pub fn equip_title(&mut self, title: String) -> (r: Result<User, EngineError>)
        requires
            old(self).wf(),
        ensures
            final(self).wf(),
            !owns_title(old(self)@.inventory, title@) ==> r == Err::<User, EngineError>(
                EngineError::NotFound,
            ) && final(self)@ == old(self)@,
            owns_title(old(self)@.inventory, title@) ==> ({
                let u2 = User { active_title: Some(title), ..old(self)@.user };
                r == Ok::<User, EngineError>(u2) && final(self)@ == EngineView {
                    user: u2,
                    ..old(self)@
                }
            }),
    {
        let mut owned = false;
        let mut i: usize = 0;
        let title_tag = String::from_str("title");
        while i < self.inventory.len()
            invariant
                i <= self.inventory@.len(),
                title_tag@ == "title"@,
                owned == exists|k: int|
                    0 <= k < i && (#[trigger] self.inventory@[k]).item_type@ == "title"@
                        && self.inventory@[k].name@ == title@,
            decreases self.inventory@.len() - i,
        {
            if self.inventory[i].item_type.eq(&title_tag) && self.inventory[i].name.eq(&title) {
                owned = true;
            }
            i = i + 1;
        }
        if !owned {
            return Err(EngineError::NotFound);
        }
        self.user.active_title = Some(title);
        Ok(self.user.clone())
    }

    /// Removes the active title, if any.
    pub fn unequip_title(&mut self) -> (r: User)
        requires
            old(self).wf(),
        ensures
            final(self).wf(),
            final(self)@ == (EngineView {
                user: User { active_title: None, ..old(self)@.user },
                ..old(self)@
            }),
            r == final(self)@.user,
    {
        self.user.active_title = None;
        self.user.clone()
    }

    /// The difficulty to recommend for a category: the user's level,
    /// capped to the one-to-ten scale, eased by the category's stat
    /// modifier and rounded to the nearest step.
    pub fn get_recommended_difficulty(&self, task_category: &String) -> (r: i64)
        requires
            self.wf(),
        ensures
            r == (crate::progression::effective_difficulty_mils(
                if self@.user.level > 10 {
                    10int
                } else {
                    self@.user.level as int
                },
                self@.user,
                task_category@,
            ) + 500) / 1000,
            1 <= r <= 10,
    {
        proof {
            crate::progression::lemma_level_for_monotonic(
                self.user.experience_points as int,
                self.user.experience_points as int,
            );
        }
        let base = if self.user.level > 10 {
            10
        } else {
            self.user.level
        };
        let eff = crate::progression::calculate_effective_difficulty(
            base,
            &self.user,
            task_category,
        );
        proof {
            let m = crate::progression::category_stat_modifier_mils(self.user, task_category@);
            let capped: int = if m > 500 {
                500int
            } else {
                m
            };
            vstd::arithmetic::mul::lemma_mul_nonnegative(base as int, 1000 - capped);
            vstd::arithmetic::mul::lemma_mul_upper_bound(base as int, 10, 1000 - capped, 1000);
            vstd::arithmetic::div_mod::lemma_div_is_ordered(1500, eff as int + 500, 1000);
            vstd::arithmetic::div_mod::lemma_div_is_ordered(eff as int + 500, 10_500, 1000);
        }
        (eff + 500) / 1000
    }
}

/// The built-in achievement catalog: five entries with distinct ids,
/// fixed predicates and fixed rewards.
pub fn default_achievements() -> (r: Vec<Achievement>)
    ensures
        r@.len() == 5,
        forall|i: int| 0 <= i < 5 ==> (#[trigger] r@[i]).wf(),
        forall|i: int| 0 <= i < 5 ==> (#[trigger] r@[i]).id == i + 1,
        r@[0].requirements_type == RequirementKind::TasksCompleted && r@[0].requirements_value == 1
            && r@[0].experience_reward == 50 && r@[0].gold_reward == 25,
        r@[1].requirements_type == RequirementKind::TasksCompleted && r@[1].requirements_value == 10
            && r@[1].experience_reward == 200 && r@[1].gold_reward == 100,
        r@[2].requirements_type == RequirementKind::Level && r@[2].requirements_value == 5 && r@[2].experience_reward
            == 150 && r@[2].gold_reward == 75,
        r@[3].requirements_type == RequirementKind::Gold && r@[3].requirements_value == 500 && r@[3].experience_reward
            == 100 && r@[3].gold_reward == 50,
        r@[4].requirements_type == RequirementKind::TasksCompleted && r@[4].requirements_value == 50
            && r@[4].experience_reward == 500 && r@[4].gold_reward == 250,
{
    let mut out: Vec<Achievement> = Vec::new();
    out.push(
        Achievement {
            id: 1,
            name: String::from_str("First Quest"),
            description: String::from_str("Complete your first task"),
            icon: String::from_str("trophy"),
            requirements_type: RequirementKind::TasksCompleted,
            requirements_value: 1,
            experience_reward: 50,
            gold_reward: 25,
            rarity: String::from_str("common"),
        },
    );
    out.push(
        Achievement {
            id: 2,
            name: String::from_str("Quest Master"),
            description: String::from_str("Complete 10 tasks"),
            icon: String::from_str("crown"),
            requirements_type: RequirementKind::TasksCompleted,
            requirements_value: 10,
            experience_reward: 200,
            gold_reward: 100,
            rarity: String::from_str("rare"),
        },
    );
    out.push(
        Achievement {
            id: 3,
            name: String::from_str("Level Up!"),
            description: String::from_str("Reach level 5"),
            icon: String::from_str("star"),
            requirements_type: RequirementKind::Level,
            requirements_value: 5,
            experience_reward: 150,
            gold_reward: 75,
            rarity: String::from_str("uncommon"),
        },
    );
    out.push(
        Achievement {
            id: 4,
            name: String::from_str("Gold Hoarder"),
            description: String::from_str("Accumulate 500 gold"),
            icon: String::from_str("coins"),
            requirements_type: RequirementKind::Gold,
            requirements_value: 500,
            experience_reward: 100,
            gold_reward: 50,
            rarity: String::from_str("uncommon"),
        },
    );
    out.push(
        Achievement {
            id: 5,
            name: String::from_str("Legendary Hero"),
            description: String::from_str("Complete 50 tasks"),
            icon: String::from_str("award"),
            requirements_type: RequirementKind::TasksCompleted,
            requirements_value: 50,
            experience_reward: 500,
            gold_reward: 250,
            rarity: String::from_str("legendary"),
        },
    );
    out
}

/// Whether a user record is accepted as the starting state of an
/// engine: every total, stat and health value in range.  The level
/// fields are not consulted: they are re-derived from the experience
/// total.
pub open spec fn user_inputs_ok(u: User) -> bool {
    &&& 0 <= u.experience_points <= MAX_TOTAL
    &&& 0 <= u.strength <= MAX_STAT
    &&& 0 <= u.intelligence <= MAX_STAT
    &&& 0 <= u.endurance <= MAX_STAT
    &&& 0 <= u.charisma <= MAX_STAT
    &&& 0 <= u.luck <= MAX_STAT
    &&& 0 <= u.current_health <= u.max_health <= MAX_TOTAL
    &&& 0 <= u.gold <= MAX_TOTAL
}

impl Engine {
    /// A fresh engine around a given user record, with the built-in
    /// achievement catalog and nothing else: the level fields are
    /// derived from the experience total, never taken from the input.
    /// An out-of-range record is refused.
    pub fn with_user(user: User) -> (r: Result<Engine, EngineError>)
        ensures
            !user_inputs_ok(user) ==> r == Err::<Engine, EngineError>(EngineError::ValidationError),
            user_inputs_ok(user) ==> ({
                &&& r matches Ok(e)
                &&& e.wf()
                &&& e@.user == User {
                    level: level_for(user.experience_points as int) as i64,
                    experience_to_next_level: xp_to_next(user.experience_points as int) as i64,
                    ..user
                }
                &&& e@.tasks.len() == 0
                &&& e@.task_counter == 1
                &&& e@.inventory.len() == 0
                &&& e@.achievements.len() == 5
                &&& e@.user_achievements.len() == 0
                &&& e@.buffs.len() == 0
            }),
    {
        if user.experience_points < 0 || user.experience_points > MAX_TOTAL {
            return Err(EngineError::ValidationError);
        }
        if user.strength < 0 || user.strength > MAX_STAT || user.intelligence < 0
            || user.intelligence > MAX_STAT || user.endurance < 0 || user.endurance > MAX_STAT
            || user.charisma < 0 || user.charisma > MAX_STAT || user.luck < 0 || user.luck
            > MAX_STAT {
            return Err(EngineError::ValidationError);
        }
        if user.current_health < 0 || user.current_health > user.max_health || user.max_health
            > MAX_TOTAL {
            return Err(EngineError::ValidationError);
        }
        if user.gold < 0 || user.gold > MAX_TOTAL {
            return Err(EngineError::ValidationError);
        }
        let (level, to_next) = crate::progression::calculate_level_and_progress(
            user.experience_points,
        );
        let normalized = User { level, experience_to_next_level: to_next, ..user };
        Ok(
            Engine {
                user: normalized,
                tasks: Vec::new(),
                task_counter: 1,
                inventory: Vec::new(),
                achievements: default_achievements(),
                user_achievements: Vec::new(),
                buffs: Vec::new(),
                buff_counter: 1,
            },
        )
    }
}

/// The default engine state: the built-in achievement catalog, the
/// demo user with 450 experience points, and three preloaded tasks.
pub fn initialize_default_data() -> (r: Engine)
    ensures
        r.wf(),
        r@.user.experience_points == 450,
        r@.user.level == 5,
        r@.user.experience_to_next_level == 150,
        r@.user.strength == 15,
        r@.user.intelligence == 12,
        r@.user.endurance == 18,
        r@.user.charisma == 10,
        r@.user.luck == 8,
        r@.user.current_health == 85,
        r@.user.max_health == 100,
        r@.user.gold == 250,
        r@.tasks.len() == 3,
        r@.tasks[0].id == 1 && r@.tasks[0].difficulty == 3 && r@.tasks[0].base_experience_reward
            == 20 && r@.tasks[0].gold_reward == 5 && r@.tasks[0].status == TaskStatus::Active
            && r@.tasks[0].task_type == TaskKind::Standard,
        r@.tasks[1].id == 2 && r@.tasks[1].difficulty == 2 && r@.tasks[1].base_experience_reward
            == 15 && r@.tasks[1].gold_reward == 3 && r@.tasks[1].status == TaskStatus::Active
            && r@.tasks[1].task_type == TaskKind::Standard,
        r@.tasks[2].id == 3 && r@.tasks[2].difficulty == 4 && r@.tasks[2].base_experience_reward
            == 30 && r@.tasks[2].gold_reward == 8 && r@.tasks[2].status == TaskStatus::Active
            && r@.tasks[2].task_type == TaskKind::Goal && r@.tasks[2].goal_target == Some(
            10000i64,
        ) && r@.tasks[2].goal_current == Some(2500i64),
        r@.task_counter == 4,
        r@.achievements.len() == 5,
        r@.inventory.len() == 0,
        r@.user_achievements.len() == 0,
        r@.buffs.len() == 0,
{
    let user = User {
        id: 1,
        username: String::from_str("Test Player"),
        level: 5,
        experience_points: 450,
        experience_to_next_level: 150,
        strength: 15,
        intelligence: 12,
        endurance: 18,
        charisma: 10,
        luck: 8,
        current_health: 85,
        max_health: 100,
        gold: 250,
        theme_preference: String::from_str("solo_leveling"),
        active_title: Some(String::from_str("Dragon Slayer")),
    };
    let mut tasks: Vec<Task> = Vec::new();
    tasks.push(
        Task {
            id: 1,
            user_id: 1,
            title: String::from_str("Complete morning routine"),
            description: Some(String::from_str("Brush teeth, shower, eat breakfast")),
            category: String::from_str("health"),
            difficulty: 3,
            base_experience_reward: 20,
            gold_reward: 5,
            due_date: None,
            status: TaskStatus::Active,
            priority: 2,
            created_at: 1_756_368_000_000,
            completed_at: None,
            task_type: TaskKind::Standard,
            goal_target: None,
            goal_current: None,
            goal_unit: None,
        },
    );
    tasks.push(
        Task {
            id: 2,
            user_id: 1,
            title: String::from_str("Read for 30 minutes"),
            description: Some(String::from_str("Continue reading current book")),
            category: String::from_str("learning"),
            difficulty: 2,
            base_experience_reward: 15,
            gold_reward: 3,
            due_date: None,
            status: TaskStatus::Active,
            priority: 1,
            created_at: 1_756_371_600_000,
            completed_at: None,
            task_type: TaskKind::Standard,
            goal_target: None,
            goal_current: None,
            goal_unit: None,
        },
    );
    tasks.push(
        Task {
            id: 3,
            user_id: 1,
            title: String::from_str("Daily Steps Goal"),
            description: Some(String::from_str("Walk 10,000 steps today")),
            category: String::from_str("fitness"),
            difficulty: 4,
            base_experience_reward: 30,
            gold_reward: 8,
            due_date: None,
            status: TaskStatus::Active,
            priority: 2,
            created_at: 1_756_375_200_000,
            completed_at: None,
            task_type: TaskKind::Goal,
            goal_target: Some(10000),
            goal_current: Some(2500),
            goal_unit: Some(String::from_str("steps")),
        },
    );
    let achievements = default_achievements();
    Engine {
        user,
        tasks,
        task_counter: 4,
        inventory: Vec::new(),
        achievements,
        user_achievements: Vec::new(),
        buffs: Vec::new(),
        buff_counter: 1,
    }
}

} // verus!
