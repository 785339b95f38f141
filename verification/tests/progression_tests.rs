use life_gamification::progression::{
    calculate_effective_difficulty, calculate_level_and_progress, compute_stat_adjusted_rewards,
};
use life_gamification::user::User;

fn plain_user() -> User {
    User {
        id: 1,
        username: "tester".to_string(),
        level: 1,
        experience_points: 0,
        experience_to_next_level: 200,
        strength: 15,
        intelligence: 12,
        endurance: 18,
        charisma: 10,
        luck: 8,
        current_health: 85,
        max_health: 100,
        gold: 250,
        theme_preference: "default".to_string(),
        active_title: None,
    }
}

#[test]
fn level_for_450_xp_is_5_with_150_to_next() {
    let (level, to_next) = calculate_level_and_progress(450);
    assert_eq!(level, 5);
    assert_eq!(to_next, 150);
}

#[test]
fn level_for_zero_xp_is_1() {
    let (level, to_next) = calculate_level_and_progress(0);
    assert_eq!(level, 1);
    assert_eq!(to_next, 200);
}

#[test]
fn level_boundaries() {
    assert_eq!(calculate_level_and_progress(99), (1, 101));
    assert_eq!(calculate_level_and_progress(100), (2, 200));
    assert_eq!(calculate_level_and_progress(199), (2, 101));
}

#[test]
fn level_is_monotone_in_experience() {
    let mut prev = 0;
    for xp in 0..1000 {
        let (level, to_next) = calculate_level_and_progress(xp);
        assert!(level >= 1);
        assert!(level >= prev);
        assert!(to_next > 0);
        prev = level;
    }
}

#[test]
fn stat_adjusted_rewards_truncate_toward_zero() {
    // intelligence 12: 20 * 1.24 = 24.8 -> 24; luck 8: 3 * 1.12 = 3.36 -> 3
    let (xp, gold) = compute_stat_adjusted_rewards(20, 3, 12, 8);
    assert_eq!(xp, 24);
    assert_eq!(gold, 3);
}

#[test]
fn stat_adjusted_rewards_neutral_without_stats() {
    let (xp, gold) = compute_stat_adjusted_rewards(20, 3, 0, 0);
    assert_eq!(xp, 20);
    assert_eq!(gold, 3);
}

#[test]
fn effective_difficulty_caps_reduction_at_half() {
    let user = plain_user();
    // endurance 18 gives 54% for Exercise; capped at 50%.
    let eff = calculate_effective_difficulty(10, &user, &"Exercise".to_string());
    assert_eq!(eff, 5000);
}

#[test]
fn effective_difficulty_uses_category_stat() {
    let user = plain_user();
    // Study/Work: intelligence 12 -> 36% easier.
    let eff = calculate_effective_difficulty(10, &user, &"Study".to_string());
    assert_eq!(eff, 6400);
    // Social: charisma 10 -> 30% easier.
    let eff = calculate_effective_difficulty(10, &user, &"Social".to_string());
    assert_eq!(eff, 7000);
    // Anything else: avg(strength, endurance) * 2% = 33% easier.
    let eff = calculate_effective_difficulty(10, &user, &"chores".to_string());
    assert_eq!(eff, 6700);
}

#[test]
fn effective_difficulty_floors_at_one() {
    let user = plain_user();
    let eff = calculate_effective_difficulty(1, &user, &"Exercise".to_string());
    assert_eq!(eff, 1000);
}
