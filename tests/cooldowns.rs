use rose_offline_client::cooldowns::{Cooldowns, GLOBAL_COOLDOWN_MS};
use rose_offline_client::data::{ConsumableCooldownGroup, SkillCooldown, SkillData, SkillTargetFilter, SkillType};

#[test]
fn global_cooldown_holds_until_deadline_then_clears() {
    let mut cooldowns = Cooldowns::new();
    assert!(!cooldowns.has_global_cooldown(1000));
    cooldowns.set_global_cooldown(GLOBAL_COOLDOWN_MS, 1000);
    let mut seen_off = false;
    for now in 1000..1400u64 {
        let on = cooldowns.has_global_cooldown(now);
        assert_eq!(on, now < 1250);
        if seen_off {
            assert!(!on);
        }
        seen_off |= !on;
    }
}

#[test]
fn skill_and_group_cooldowns_are_separate() {
    let mut cooldowns = Cooldowns::new();
    cooldowns.set_skill_cooldown(12, 1000, 0);
    cooldowns.set_skill_group_cooldown(4, 2000, 0);
    assert!(cooldowns.has_skill_cooldown(12, 999));
    assert!(!cooldowns.has_skill_cooldown(12, 1000));
    assert!(!cooldowns.has_skill_cooldown(13, 0));
    assert!(cooldowns.has_skill_group_cooldown(4, 1999));
    assert!(!cooldowns.has_skill_group_cooldown(5, 0));
    assert!(!cooldowns.has_global_cooldown(0));
}

#[test]
fn consumable_cooldown_percent_counts_down() {
    let mut cooldowns = Cooldowns::new();
    assert_eq!(cooldowns.get_consumable_cooldown_percent(ConsumableCooldownGroup::MagicItem, 0), None);
    cooldowns.set_consumable_cooldown(ConsumableCooldownGroup::MagicItem, 3000, 1000);
    assert_eq!(cooldowns.get_consumable_cooldown_percent(ConsumableCooldownGroup::MagicItem, 1000), Some(100));
    assert_eq!(cooldowns.get_consumable_cooldown_percent(ConsumableCooldownGroup::MagicItem, 2500), Some(50));
    assert_eq!(cooldowns.get_consumable_cooldown_percent(ConsumableCooldownGroup::MagicItem, 3999), Some(0));
    assert_eq!(cooldowns.get_consumable_cooldown_percent(ConsumableCooldownGroup::MagicItem, 4000), None);
    assert_eq!(cooldowns.get_consumable_cooldown_percent(ConsumableCooldownGroup::Others, 1500), None);
    assert!(cooldowns.has_consumable_cooldown(ConsumableCooldownGroup::MagicItem, 3000));
    assert!(!cooldowns.has_consumable_cooldown(ConsumableCooldownGroup::HealthRecovery, 3000));
}

#[test]
fn zero_length_cooldown_is_never_active() {
    let mut cooldowns = Cooldowns::new();
    cooldowns.set_global_cooldown(0, 500);
    assert!(!cooldowns.has_global_cooldown(500));
    assert!(!cooldowns.has_global_cooldown(u64::MAX));
}

#[test]
fn skill_cooldown_follows_declared_kind() {
    let own = SkillData {
        id: 21,
        skill_type: SkillType::Immediate,
        basic_command: None,
        action_motion_id: None,
        target_filter: SkillTargetFilter::Enemy,
        cooldown: SkillCooldown::Skill { duration: 800 },
    };
    let grouped = SkillData { id: 22, cooldown: SkillCooldown::Group { group: 6, duration: 1200 }, ..own };
    let mut cooldowns = Cooldowns::new();
    cooldowns.set_cooldown_of_skill(&own, 100);
    cooldowns.set_cooldown_of_skill(&grouped, 100);
    assert!(cooldowns.has_skill_cooldown(21, 899));
    assert!(!cooldowns.has_skill_cooldown(21, 900));
    assert!(!cooldowns.has_skill_cooldown(22, 100));
    assert!(cooldowns.has_skill_group_cooldown(6, 1299));
    assert!(!cooldowns.has_skill_group_cooldown(6, 1300));
    assert!(!cooldowns.has_global_cooldown(100));
}
