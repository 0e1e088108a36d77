use wizard_battle::common::{Animation, Stats};
use wizard_battle::skill::{
    hit_by_circle, process_damage, Skill, SkillAction, SkillEvent, SkillEventDef, SkillManager,
};
use wizard_battle::unit::default_unit_stats;

fn stats_with(hp: u32, mp: u32, max_hp: u32, max_mp: u32, attack: u32, defense: u32) -> Vec<u32> {
    let mut s = vec![0u32; Stats::Count];
    s[Stats::Hp] = hp;
    s[Stats::Mp] = mp;
    s[Stats::MaxHp] = max_hp;
    s[Stats::MaxMp] = max_mp;
    s[Stats::Attack] = attack;
    s[Stats::Defense] = defense;
    s
}

#[test]
fn damage_is_attack_over_defense() {
    let a = default_unit_stats();
    let mut d = default_unit_stats();
    assert_eq!(process_damage(&a, &mut d), 30);
    assert_eq!(d[Stats::Hp], 170);
    let mut expected = default_unit_stats();
    expected[Stats::Hp] = 170;
    assert_eq!(d, expected);
}

#[test]
fn damage_is_at_least_one() {
    let a = stats_with(10, 0, 10, 0, 5, 0);
    let mut d = stats_with(10, 0, 10, 0, 0, 50);
    assert_eq!(process_damage(&a, &mut d), 1);
    assert_eq!(d[Stats::Hp], 9);
    let a2 = stats_with(10, 0, 10, 0, 50, 0);
    let mut d2 = stats_with(10, 0, 10, 0, 0, 50);
    assert_eq!(process_damage(&a2, &mut d2), 1);
}

#[test]
fn damage_floors_hp_at_zero() {
    let a = stats_with(10, 0, 10, 0, 100, 0);
    let mut d = stats_with(100, 0, 200, 0, 0, 0);
    assert_eq!(process_damage(&a, &mut d), 100);
    assert_eq!(d[Stats::Hp], 0);
    let mut d2 = stats_with(0, 0, 200, 0, 0, 0);
    assert_eq!(process_damage(&a, &mut d2), 100);
    assert_eq!(d2[Stats::Hp], 0);
}

#[test]
fn circle_hits() {
    let alive = default_unit_stats();
    let dead = stats_with(0, 0, 200, 0, 0, 0);
    assert!(hit_by_circle(false, &alive, true));
    assert!(!hit_by_circle(true, &alive, true));
    assert!(!hit_by_circle(false, &dead, true));
    assert!(!hit_by_circle(false, &alive, false));
}

#[test]
fn skill_table() {
    let m = SkillManager::new();
    let s1 = m.get(1).unwrap();
    assert_eq!(s1.time_ms, 1000);
    assert_eq!(s1.cost_mp, 10);
    assert_eq!(s1.cost_hp, 0);
    assert_eq!(s1.anim, Animation::Attack01);
    assert_eq!(
        s1.events,
        vec![SkillEvent { time_ms: 300, def: SkillEventDef::AttackCircle { radius_mm: 2000 } }]
    );
    let s2 = m.get(2).unwrap();
    assert_eq!(s2.time_ms, 500);
    assert_eq!(s2.anim, Animation::DefendStart);
    assert_eq!(s2.events, vec![SkillEvent { time_ms: 0, def: SkillEventDef::HealHp { value: 100 } }]);
    assert_eq!(m.get(3).unwrap().anim, Animation::Attack02Start);
    assert_eq!(m.get(4).unwrap().anim, Animation::Attack04);
    assert!(m.get(0).is_none());
    assert!(m.get(5).is_none());
}

#[test]
fn attack_fires_inside_window_only() {
    let m = SkillManager::new();
    let s = m.get(1).unwrap();
    let st = default_unit_stats();
    assert_eq!(s.execute(&st, 316, 300), vec![SkillAction::AttackCircle { radius_mm: 2000 }]);
    assert_eq!(s.execute(&st, 300, 284), vec![]);
    assert_eq!(s.execute(&st, 301, 300), vec![SkillAction::AttackCircle { radius_mm: 2000 }]);
    assert_eq!(s.execute(&st, 400, 301), vec![]);
}

#[test]
fn heal_restores_to_max() {
    let m = SkillManager::new();
    let s = m.get(2).unwrap();
    let hurt = stats_with(50, 100, 200, 100, 50, 20);
    assert_eq!(s.execute(&hurt, 16, 0), vec![SkillAction::SetHp { value: 200 }]);
    let full = default_unit_stats();
    assert_eq!(s.execute(&full, 16, 0), vec![]);
}

#[test]
fn heal_of_zero_does_nothing_and_mana_heal() {
    let s = Skill {
        time_ms: 100,
        cost_hp: 0,
        cost_mp: 0,
        anim: Animation::Idle01,
        events: vec![
            SkillEvent { time_ms: 0, def: SkillEventDef::HealHp { value: 0 } },
            SkillEvent { time_ms: 10, def: SkillEventDef::HealMp { value: 5 } },
            SkillEvent { time_ms: 20, def: SkillEventDef::AttackCircle { radius_mm: 500 } },
        ],
    };
    let st = stats_with(10, 3, 200, 90, 0, 0);
    assert_eq!(
        s.execute(&st, 100, 0),
        vec![SkillAction::SetMp { value: 90 }, SkillAction::AttackCircle { radius_mm: 500 }]
    );
    assert!(s.fits(&st, 100, 0));
}

#[test]
fn fits_detects_heal_overflow() {
    let m = SkillManager::new();
    let s = m.get(2).unwrap();
    let huge = stats_with(u32::MAX - 50, 0, u32::MAX, 0, 0, 0);
    assert!(!s.fits(&huge, 16, 0));
    assert!(s.fits(&huge, 16, 1));
    assert!(s.fits(&default_unit_stats(), 16, 0));
    assert!(!s.fits(&vec![], 16, 0));
}
