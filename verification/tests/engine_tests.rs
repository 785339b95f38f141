use life_gamification::EngineError;
use life_gamification::buffs::{Buff, BuffKind, StatKind, apply_buff_effects_to_rewards};
use life_gamification::engine::{Engine, initialize_default_data};
use life_gamification::inventory::{InventoryItem, add_item_to_inventory};
use life_gamification::tasks::{CreateTaskRequest, TaskKind, TaskStatus};
use life_gamification::user::User;

const T0: i64 = 1_700_000_000_000;
const MINUTE_MS: i64 = 60_000;

fn request(title: &str, difficulty: Option<i64>) -> CreateTaskRequest {
    CreateTaskRequest {
        title: title.to_string(),
        description: None,
        category: None,
        difficulty,
        due_date: None,
        priority: None,
        task_type: None,
        goal_target: None,
        goal_unit: None,
    }
}

fn goal_request(title: &str, target: i64) -> CreateTaskRequest {
    CreateTaskRequest {
        title: title.to_string(),
        description: None,
        category: None,
        difficulty: Some(3),
        due_date: None,
        priority: None,
        task_type: Some("goal".to_string()),
        goal_target: Some(target),
        goal_unit: Some("units".to_string()),
    }
}

fn neutral_user() -> User {
    User {
        id: 7,
        username: "neutral".to_string(),
        level: 0,
        experience_points: 0,
        experience_to_next_level: 0,
        strength: 0,
        intelligence: 0,
        endurance: 0,
        charisma: 0,
        luck: 0,
        current_health: 50,
        max_health: 100,
        gold: 0,
        theme_preference: "default".to_string(),
        active_title: None,
    }
}

#[test]
fn task_rewards_derive_from_difficulty() {
    let mut engine = initialize_default_data();
    let task = engine.create_task(request("chore", Some(3)), T0).unwrap();
    assert_eq!(task.base_experience_reward, 20);
    assert_eq!(task.gold_reward, 3);
}

#[test]
fn task_creation_defaults() {
    let mut engine = initialize_default_data();
    let task = engine.create_task(request("chore", None), T0).unwrap();
    assert_eq!(task.difficulty, 5);
    assert_eq!(task.base_experience_reward, 30);
    assert_eq!(task.gold_reward, 5);
    assert_eq!(task.category, "general");
    assert_eq!(task.priority, 3);
    assert_eq!(task.task_type, TaskKind::Standard);
    assert_eq!(task.status, TaskStatus::Active);
    assert_eq!(task.id, 4);
}

#[test]
fn completion_applies_stat_bonuses() {
    // Default user: intelligence 12, luck 8, xp 450, gold 250.
    let mut engine = initialize_default_data();
    let task = engine.create_task(request("chore", Some(3)), T0).unwrap();
    engine.complete_task(task.id, T0).unwrap();
    let user = engine.get_user();
    // xp: floor(20 * 1.24) = 24; gold: floor(3 * 1.12) = 3.
    assert_eq!(user.experience_points, 474);
    assert_eq!(user.gold, 253);
    assert_eq!(user.level, 5);
}

#[test]
fn completing_twice_never_rewards_twice() {
    let mut engine = initialize_default_data();
    let task = engine.create_task(request("chore", Some(3)), T0).unwrap();
    let completed = engine.complete_task(task.id, T0).unwrap();
    assert_eq!(completed.status, TaskStatus::Completed);
    let xp_after_first = engine.get_user().experience_points;
    let gold_after_first = engine.get_user().gold;
    let level_after_first = engine.get_user().level;

    let again = engine.complete_task(task.id, T0 + MINUTE_MS).unwrap();
    assert_eq!(again.status, TaskStatus::Completed);
    assert_eq!(engine.get_user().experience_points, xp_after_first);
    assert_eq!(engine.get_user().gold, gold_after_first);
    assert_eq!(engine.get_user().level, level_after_first);
}

#[test]
fn completing_unknown_task_is_not_found() {
    let mut engine = initialize_default_data();
    assert_eq!(engine.complete_task(999, T0), Err(EngineError::NotFound));
}

#[test]
fn level_up_restores_health() {
    let mut user = neutral_user();
    user.experience_points = 90;
    user.current_health = 10;
    let mut engine = Engine::with_user(user).unwrap();
    assert_eq!(engine.get_user().level, 1);
    let task = engine.create_task(request("chore", Some(3)), T0).unwrap();
    engine.complete_task(task.id, T0).unwrap();
    let after = engine.get_user();
    assert_eq!(after.experience_points, 110);
    assert_eq!(after.level, 2);
    assert_eq!(after.current_health, 100);
}

#[test]
fn goal_progress_accumulates_and_completes_once() {
    let mut engine = initialize_default_data();
    // Preloaded goal task: id 3, target 10000, current 2500, rewards 30 xp / 8 gold.
    let mid = engine.update_task_progress(3, 2500, T0).unwrap();
    assert_eq!(mid.goal_current, Some(5000));
    assert_eq!(mid.status, TaskStatus::Active);
    assert_eq!(engine.get_user().experience_points, 450);

    let done = engine.update_task_progress(3, 5000, T0).unwrap();
    assert_eq!(done.goal_current, Some(10000));
    assert_eq!(done.status, TaskStatus::Completed);
    // Goal completion grants the unmodified base rewards.
    assert_eq!(engine.get_user().experience_points, 480);
    assert_eq!(engine.get_user().gold, 258);

    // Another update is a no-op on a completed task.
    let after = engine.update_task_progress(3, 100, T0).unwrap();
    assert_eq!(after.goal_current, Some(10000));
    assert_eq!(engine.get_user().experience_points, 480);
}

#[test]
fn goal_progress_rejects_negative_delta() {
    let mut engine = initialize_default_data();
    assert_eq!(
        engine.update_task_progress(3, -1, T0),
        Err(EngineError::ValidationError)
    );
    let tasks = engine.get_tasks(None);
    assert_eq!(tasks[2].goal_current, Some(2500));
}

#[test]
fn goal_progress_on_standard_task_is_wrong_type() {
    let mut engine = initialize_default_data();
    assert_eq!(
        engine.update_task_progress(1, 10, T0),
        Err(EngineError::WrongTaskType)
    );
}

#[test]
fn goal_progress_never_clamps_before_target_check() {
    let mut engine = Engine::with_user(neutral_user()).unwrap();
    let task = engine.create_task(goal_request("steps", 100), T0).unwrap();
    let done = engine.update_task_progress(task.id, 250, T0).unwrap();
    assert_eq!(done.goal_current, Some(250));
    assert_eq!(done.status, TaskStatus::Completed);
}

#[test]
fn stacked_multipliers_combine_additively() {
    // 1.5x and 2.0x stack to 1.0 + 0.5 + 1.0 = 2.5x.
    let mut engine = Engine::with_user(neutral_user()).unwrap();
    engine
        .create_buff(BuffKind::XpMultiplier, 150, None, 30, T0)
        .unwrap();
    engine
        .create_buff(BuffKind::XpMultiplier, 200, None, 30, T0)
        .unwrap();
    let task = engine.create_task(request("chore", Some(3)), T0).unwrap();
    engine.complete_task(task.id, T0).unwrap();
    // Neutral stats: 20 base xp * 2.5 = 50; gold untouched by xp buffs.
    assert_eq!(engine.get_user().experience_points, 50);
    assert_eq!(engine.get_user().gold, 3);
}

#[test]
fn multiplier_overlay_on_plain_rewards() {
    let buffs = vec![
        Buff {
            id: 1,
            name: "xp_multiplier Boost".to_string(),
            buff_type: BuffKind::XpMultiplier,
            value_hundredths: 150,
            stat_type: None,
            duration_minutes: 30,
            applied_at: T0,
            expires_at: T0 + 30 * MINUTE_MS,
        },
        Buff {
            id: 2,
            name: "xp_multiplier Boost".to_string(),
            buff_type: BuffKind::XpMultiplier,
            value_hundredths: 200,
            stat_type: None,
            duration_minutes: 30,
            applied_at: T0,
            expires_at: T0 + 30 * MINUTE_MS,
        },
    ];
    let (xp, gold) = apply_buff_effects_to_rewards(100, 100, &buffs, T0);
    assert_eq!(xp, 250);
    assert_eq!(gold, 100);
}

#[test]
fn expired_buffs_contribute_nothing() {
    let mut engine = Engine::with_user(neutral_user()).unwrap();
    engine
        .create_buff(BuffKind::XpMultiplier, 200, None, 30, T0)
        .unwrap();
    let task = engine.create_task(request("chore", Some(3)), T0).unwrap();
    // Complete after the buff expired: base rewards only.
    let after_expiry = T0 + 31 * MINUTE_MS;
    engine.complete_task(task.id, after_expiry).unwrap();
    assert_eq!(engine.get_user().experience_points, 20);
}

#[test]
fn active_buffs_view_is_pruned() {
    let mut engine = Engine::with_user(neutral_user()).unwrap();
    engine
        .create_buff(BuffKind::XpMultiplier, 200, None, 10, T0)
        .unwrap();
    engine
        .create_buff(BuffKind::GoldMultiplier, 150, None, 60, T0)
        .unwrap();
    let active = engine.get_active_buffs(T0 + 20 * MINUTE_MS);
    assert_eq!(active.len(), 1);
    assert_eq!(active[0].buff_type, BuffKind::GoldMultiplier);
    assert!(active[0].expires_at > T0 + 20 * MINUTE_MS);
}

#[test]
fn stat_buffs_overlay_without_persisting() {
    let mut engine = Engine::with_user(neutral_user()).unwrap();
    engine
        .create_buff(BuffKind::Stat, 1000, Some(StatKind::Intelligence), 45, T0)
        .unwrap();
    let task = engine.create_task(request("chore", Some(3)), T0).unwrap();
    engine.complete_task(task.id, T0).unwrap();
    // Overlaid intelligence 10: floor(20 * 1.20) = 24.
    assert_eq!(engine.get_user().experience_points, 24);
    // The overlay never lands in the stored user record.
    assert_eq!(engine.get_user().intelligence, 0);
}

#[test]
fn buff_creation_rejects_bad_inputs() {
    let mut engine = Engine::with_user(neutral_user()).unwrap();
    assert_eq!(
        engine.create_buff(BuffKind::XpMultiplier, -1, None, 30, T0),
        Err(EngineError::ValidationError)
    );
    assert_eq!(
        engine.create_buff(BuffKind::XpMultiplier, 150, None, -5, T0),
        Err(EngineError::ValidationError)
    );
    assert_eq!(
        engine.create_buff(BuffKind::Stat, 100, None, 30, T0),
        Err(EngineError::ValidationError)
    );
    assert_eq!(
        engine.create_buff(BuffKind::XpMultiplier, 150, Some(StatKind::Luck), 30, T0),
        Err(EngineError::ValidationError)
    );
}

#[test]
fn purchase_with_too_little_gold_changes_nothing() {
    let mut engine = initialize_default_data();
    // Default gold is 250; price 100 succeeds, so start from a poor user.
    let mut user = neutral_user();
    user.gold = 50;
    let mut engine2 = Engine::with_user(user).unwrap();
    assert_eq!(
        engine2.purchase_item(&"health_potion_small".to_string(), 100, T0),
        Err(EngineError::InsufficientGold)
    );
    assert_eq!(engine2.get_user().gold, 50);
    assert_eq!(engine2.get_user_inventory().len(), 0);

    // And a negative price is refused outright.
    assert_eq!(
        engine.purchase_item(&"health_potion_small".to_string(), -1, T0),
        Err(EngineError::ValidationError)
    );
}

#[test]
fn purchase_deducts_gold_and_stacks() {
    let mut engine = initialize_default_data();
    let user = engine
        .purchase_item(&"health_potion_small".to_string(), 30, T0)
        .unwrap();
    assert_eq!(user.gold, 220);
    engine
        .purchase_item(&"health_potion_small".to_string(), 30, T0)
        .unwrap();
    let inventory = engine.get_user_inventory();
    assert_eq!(inventory.len(), 1);
    assert_eq!(inventory[0].quantity, 2);
    assert_eq!(engine.get_user().gold, 190);
}

#[test]
fn stacking_beyond_max_stack_opens_a_second_entry() {
    let mut inventory: Vec<InventoryItem> = Vec::new();
    let mut item = life_gamification::inventory::get_item_data(&"xp_boost".to_string(), T0);
    item.quantity = 9;
    add_item_to_inventory(&mut inventory, item);
    assert_eq!(inventory.len(), 1);

    let one = life_gamification::inventory::get_item_data(&"xp_boost".to_string(), T0);
    add_item_to_inventory(&mut inventory, one);
    assert_eq!(inventory.len(), 1);
    assert_eq!(inventory[0].quantity, 10);

    // max_stack is 10: the next unit cannot merge and must not be dropped.
    let overflow = life_gamification::inventory::get_item_data(&"xp_boost".to_string(), T0);
    add_item_to_inventory(&mut inventory, overflow);
    assert_eq!(inventory.len(), 2);
    assert_eq!(inventory[1].quantity, 1);
}

#[test]
fn using_a_health_potion_heals_and_consumes() {
    let mut engine = initialize_default_data();
    engine
        .purchase_item(&"health_potion_small".to_string(), 10, T0)
        .unwrap();
    let user = engine
        .use_inventory_item(&"health_potion_small".to_string(), T0)
        .unwrap();
    // 85 + 25 clamps to max health 100.
    assert_eq!(user.current_health, 100);
    assert_eq!(engine.get_user_inventory().len(), 0);
    // The stack is gone: a second use reports the item missing.
    assert_eq!(
        engine.use_inventory_item(&"health_potion_small".to_string(), T0),
        Err(EngineError::NotFound)
    );
}

#[test]
fn using_an_xp_boost_creates_a_buff_that_doubles_xp() {
    let mut user = neutral_user();
    user.gold = 100;
    let mut engine = Engine::with_user(user).unwrap();
    engine.purchase_item(&"xp_boost".to_string(), 10, T0).unwrap();
    engine.use_inventory_item(&"xp_boost".to_string(), T0).unwrap();
    let active = engine.get_active_buffs(T0);
    assert_eq!(active.len(), 1);
    assert_eq!(active[0].buff_type, BuffKind::XpMultiplier);
    assert_eq!(active[0].value_hundredths, 200);
    assert_eq!(active[0].expires_at, T0 + 30 * MINUTE_MS);

    let task = engine.create_task(request("chore", Some(3)), T0).unwrap();
    engine.complete_task(task.id, T0).unwrap();
    assert_eq!(engine.get_user().experience_points, 40);
}

#[test]
fn unknown_effect_does_not_consume_the_item() {
    let mut engine = Engine::with_user(neutral_user()).unwrap();
    let mut oddity = life_gamification::inventory::get_item_data(&"no_such_item".to_string(), T0);
    oddity.effect = Some("mystery:1".to_string());
    engine.inventory.push(oddity);
    assert_eq!(
        engine.use_inventory_item(&"no_such_item".to_string(), T0),
        Err(EngineError::UnknownEffect)
    );
    assert_eq!(engine.get_user_inventory().len(), 1);
    assert_eq!(engine.get_user_inventory()[0].quantity, 1);
}

#[test]
fn achievements_unlock_exactly_once() {
    let mut engine = initialize_default_data();
    // Default user is level 5 with 250 gold and no completed tasks:
    // only "Level Up!" (reach level 5) qualifies.
    let newly = engine.check_achievements(T0);
    assert_eq!(newly.len(), 1);
    assert_eq!(newly[0].id, 3);
    // Its rewards: 150 xp -> 600 xp (level 7), 75 gold -> 325 gold.
    assert_eq!(engine.get_user().experience_points, 600);
    assert_eq!(engine.get_user().gold, 325);
    assert_eq!(engine.get_user().level, 7);

    // A second pass unlocks nothing new.
    let again = engine.check_achievements(T0 + MINUTE_MS);
    assert_eq!(again.len(), 0);
    assert_eq!(engine.get_user_achievements().len(), 1);

    // Completing a task qualifies "First Quest" on the next pass.
    engine.complete_task(1, T0).unwrap();
    let third = engine.check_achievements(T0 + 2 * MINUTE_MS);
    assert_eq!(third.len(), 1);
    assert_eq!(third[0].id, 1);

    let records = engine.get_user_achievements();
    assert_eq!(records.len(), 2);
    assert_ne!(records[0].achievement_id, records[1].achievement_id);
}

#[test]
fn achievement_pass_evaluates_against_a_single_snapshot() {
    // Gold crossing 500 by the pass's own rewards must not unlock
    // "Gold Hoarder" within the same pass.
    let mut user = neutral_user();
    user.experience_points = 400;
    user.gold = 450;
    let mut engine = Engine::with_user(user).unwrap();
    let newly = engine.check_achievements(T0);
    assert_eq!(newly.len(), 1);
    assert_eq!(newly[0].id, 3);
    assert_eq!(engine.get_user().gold, 525);

    let second = engine.check_achievements(T0 + MINUTE_MS);
    assert_eq!(second.len(), 1);
    assert_eq!(second[0].id, 4);
}

#[test]
fn titles_equip_only_when_owned() {
    let mut engine = initialize_default_data();
    assert_eq!(
        engine.equip_title("Title: Quest Novice".to_string()),
        Err(EngineError::NotFound)
    );
    engine.purchase_item(&"title_novice".to_string(), 5, T0).unwrap();
    assert_eq!(engine.get_user_titles(), vec!["Title: Quest Novice".to_string()]);
    let user = engine.equip_title("Title: Quest Novice".to_string()).unwrap();
    assert_eq!(user.active_title, Some("Title: Quest Novice".to_string()));
    let user = engine.unequip_title();
    assert_eq!(user.active_title, None);
}

#[test]
fn recommended_difficulty_follows_stats() {
    let engine = initialize_default_data();
    // Level 5, endurance 18 (capped at 50%): 5 * 0.5 = 2.5 -> 3.
    assert_eq!(engine.get_recommended_difficulty(&"Exercise".to_string()), 3);
    // Social: charisma 10 -> 5 * 0.7 = 3.5 -> 4.
    assert_eq!(engine.get_recommended_difficulty(&"Social".to_string()), 4);
}

#[test]
fn get_tasks_filters_by_status() {
    let mut engine = initialize_default_data();
    engine.complete_task(1, T0).unwrap();
    let all = engine.get_tasks(None);
    assert_eq!(all.len(), 3);
    let completed = engine.get_tasks(Some(TaskStatus::Completed));
    assert_eq!(completed.len(), 1);
    assert_eq!(completed[0].id, 1);
    let active = engine.get_tasks(Some(TaskStatus::Active));
    assert_eq!(active.len(), 2);
}

#[test]
fn wall_clock_buff_application() {
    let mut engine = Engine::with_user(neutral_user()).unwrap();
    let buff = engine
        .apply_buff(BuffKind::GoldMultiplier, 150, None, 60)
        .unwrap();
    assert_eq!(buff.buff_type, BuffKind::GoldMultiplier);
    assert_eq!(buff.value_hundredths, 150);
    assert_eq!(buff.expires_at, buff.applied_at + 60 * MINUTE_MS);
}

#[test]
fn with_user_rejects_out_of_range_records() {
    let mut user = neutral_user();
    user.gold = -1;
    assert!(Engine::with_user(user).is_err());
    let mut user = neutral_user();
    user.current_health = 200;
    assert!(Engine::with_user(user).is_err());
}

#[test]
fn with_user_derives_the_level_fields() {
    let mut user = neutral_user();
    user.experience_points = 450;
    user.level = 99;
    user.experience_to_next_level = 1;
    let engine = Engine::with_user(user).unwrap();
    assert_eq!(engine.get_user().level, 5);
    assert_eq!(engine.get_user().experience_to_next_level, 150);
}

#[test]
fn goal_progress_saturates_at_the_total_ceiling() {
    let mut engine = Engine::with_user(neutral_user()).unwrap();
    let target = 1_000_000_000_000_000_000;
    let task = engine.create_task(goal_request("marathon", target), T0).unwrap();
    let done = engine.update_task_progress(task.id, i64::MAX, T0).unwrap();
    assert_eq!(done.goal_current, Some(target));
    assert_eq!(done.status, TaskStatus::Completed);
}

#[test]
fn experience_saturates_at_the_total_ceiling() {
    let cap = 1_000_000_000_000_000_000;
    let mut user = neutral_user();
    user.experience_points = cap;
    let mut engine = Engine::with_user(user).unwrap();
    let task = engine.create_task(request("chore", Some(3)), T0).unwrap();
    engine.complete_task(task.id, T0).unwrap();
    assert_eq!(engine.get_user().experience_points, cap);
    assert_eq!(engine.get_user().gold, 3);
}

#[test]
fn buff_store_capacity_is_bounded() {
    let mut engine = Engine::with_user(neutral_user()).unwrap();
    for _ in 0..1000 {
        engine
            .create_buff(BuffKind::XpMultiplier, 110, None, 60, T0)
            .unwrap();
    }
    assert_eq!(
        engine.create_buff(BuffKind::XpMultiplier, 110, None, 60, T0),
        Err(EngineError::ValidationError)
    );
    // Once the stored buffs expire, there is room again.
    let later = T0 + 61 * MINUTE_MS;
    assert!(engine.create_buff(BuffKind::XpMultiplier, 110, None, 60, later).is_ok());
    assert_eq!(engine.get_active_buffs(later).len(), 1);
}
