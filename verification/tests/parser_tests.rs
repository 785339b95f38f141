use life_gamification::EngineError;
use life_gamification::buffs::StatKind;
use life_gamification::inventory::{ItemEffect, get_item_data, parse_effect};

#[test]
fn parses_restore_health() {
    assert_eq!(
        parse_effect("restore_health:25"),
        Ok(ItemEffect::RestoreHealth { amount: 25 })
    );
    assert_eq!(
        parse_effect("restore_health:100"),
        Ok(ItemEffect::RestoreHealth { amount: 100 })
    );
}

#[test]
fn parses_xp_multiplier_with_decimal_value() {
    assert_eq!(
        parse_effect("xp_multiplier:2.0:30"),
        Ok(ItemEffect::XpMultiplier { value_hundredths: 200, duration_minutes: 30 })
    );
    assert_eq!(
        parse_effect("xp_multiplier:2:30"),
        Ok(ItemEffect::XpMultiplier { value_hundredths: 200, duration_minutes: 30 })
    );
}

#[test]
fn parses_gold_multiplier() {
    assert_eq!(
        parse_effect("gold_multiplier:1.5:60"),
        Ok(ItemEffect::GoldMultiplier { value_hundredths: 150, duration_minutes: 60 })
    );
    assert_eq!(
        parse_effect("gold_multiplier:0.25:5"),
        Ok(ItemEffect::GoldMultiplier { value_hundredths: 25, duration_minutes: 5 })
    );
}

#[test]
fn parses_stat_boost() {
    assert_eq!(
        parse_effect("stat_boost:strength:10:45"),
        Ok(ItemEffect::StatBoost {
            stat: StatKind::Strength,
            value_hundredths: 1000,
            duration_minutes: 45
        })
    );
    assert_eq!(
        parse_effect("stat_boost:luck:3.5:10"),
        Ok(ItemEffect::StatBoost {
            stat: StatKind::Luck,
            value_hundredths: 350,
            duration_minutes: 10
        })
    );
}

#[test]
fn unknown_effect_kind_is_refused_as_unknown() {
    assert_eq!(parse_effect("mystery:1"), Err(EngineError::UnknownEffect));
    assert_eq!(parse_effect(""), Err(EngineError::UnknownEffect));
    assert_eq!(parse_effect("restorehealth:25"), Err(EngineError::UnknownEffect));
}

#[test]
fn malformed_parameters_are_refused_as_validation_errors() {
    assert_eq!(parse_effect("restore_health"), Err(EngineError::ValidationError));
    assert_eq!(parse_effect("restore_health:"), Err(EngineError::ValidationError));
    assert_eq!(parse_effect("restore_health:abc"), Err(EngineError::ValidationError));
    assert_eq!(parse_effect("restore_health:-5"), Err(EngineError::ValidationError));
    assert_eq!(parse_effect("xp_multiplier:2.0"), Err(EngineError::ValidationError));
    assert_eq!(parse_effect("xp_multiplier:1.555:30"), Err(EngineError::ValidationError));
    assert_eq!(parse_effect("stat_boost:agility:10:45"), Err(EngineError::ValidationError));
    assert_eq!(parse_effect("stat_boost:strength:10"), Err(EngineError::ValidationError));
}

#[test]
fn catalog_items_carry_their_effects() {
    let small = get_item_data(&"health_potion_small".to_string(), 1_000);
    assert_eq!(small.id, "health_potion_small");
    assert_eq!(small.name, "Minor Health Potion");
    assert_eq!(small.effect, Some("restore_health:25".to_string()));
    assert_eq!(small.quantity, 1);
    assert_eq!(small.max_stack, 99);
    assert_eq!(small.obtained_at, 1_000);

    let boost = get_item_data(&"xp_boost".to_string(), 2_000);
    assert_eq!(boost.effect, Some("xp_multiplier:2.0:30".to_string()));
    assert_eq!(boost.max_stack, 10);

    let title = get_item_data(&"title_novice".to_string(), 3_000);
    assert_eq!(title.item_type, "title");
    assert_eq!(title.effect, None);
    assert_eq!(title.max_stack, 1);

    let unknown = get_item_data(&"no_such_item".to_string(), 4_000);
    assert_eq!(unknown.name, "Unknown Item");
    assert_eq!(unknown.effect, None);
}
