use wizard_battle::common::{Animation, CharacterState, Stats};

const ALL_ANIMATIONS: [Animation; 19] = [
    Animation::Idle01,
    Animation::Idle02,
    Animation::Idle03,
    Animation::BattleRunForward,
    Animation::BattleWalkForward,
    Animation::BattleWalkBack,
    Animation::BattleWalkLeft,
    Animation::BattleWalkRight,
    Animation::Attack01,
    Animation::Attack02Start,
    Animation::Attack02Maintain,
    Animation::Attack03Start,
    Animation::Attack03Maintain,
    Animation::Attack04,
    Animation::GetHit,
    Animation::Die,
    Animation::DieRecovery,
    Animation::Count,
    Animation::DefendStart,
];

#[test]
fn animation_path_of_idle() {
    assert_eq!(
        Animation::Idle02.path(),
        "assets/WizardPolyArt/Animations/Idle02.fbx/animations/Take 001.anim"
    );
}

#[test]
fn animation_path_of_walk() {
    assert_eq!(
        Animation::BattleWalkForward.path(),
        "assets/WizardPolyArt/Animations/BattleWalkForward.fbx/animations/Take 001.anim"
    );
}

#[test]
fn animation_names_are_variant_names() {
    assert_eq!(Animation::Idle01.name(), "Idle01");
    assert_eq!(Animation::Attack02Maintain.name(), "Attack02Maintain");
    assert_eq!(Animation::DieRecovery.name(), "DieRecovery");
    assert_eq!(Animation::Count.name(), "Count");
}

#[test]
fn animation_numbers_round_trip() {
    for (i, a) in ALL_ANIMATIONS.iter().enumerate() {
        assert_eq!(a.value() as usize, i);
        if *a != Animation::DefendStart {
            assert_eq!(Animation::from(a.value()), *a);
        }
    }
}

#[test]
fn defend_start_has_no_number_of_its_own() {
    assert_eq!(Animation::Count.value(), 17);
    assert_eq!(Animation::DefendStart.value(), 18);
    assert_eq!(Animation::from(17), Animation::Count);
    assert_eq!(Animation::from(18), Animation::Count);
    assert_eq!(Animation::DefendStart.name(), "DefendStart");
}

#[test]
fn animation_from_out_of_range_is_count() {
    assert_eq!(Animation::from(17), Animation::Count);
    assert_eq!(Animation::from(18), Animation::Count);
    assert_eq!(Animation::from(19), Animation::Count);
    assert_eq!(Animation::from(255), Animation::Count);
}

#[test]
fn animation_cycle_wraps_to_first() {
    let next = Animation::from((Animation::DieRecovery.value() + 1) % Animation::Count.value());
    assert_eq!(next, Animation::Idle01);
    let mut a = Animation::Idle01;
    for _ in 0..100 {
        a = Animation::from((a.value() + 1) % Animation::Count.value());
        assert_ne!(a, Animation::DefendStart);
        assert_ne!(a, Animation::Count);
    }
}

#[test]
fn movable_states() {
    assert!(CharacterState::Idle.movable());
    assert!(CharacterState::Moving.movable());
    assert!(!CharacterState::Attacking.movable());
    assert!(!CharacterState::GetHit.movable());
    assert!(!CharacterState::Dying.movable());
    assert!(!CharacterState::Count.movable());
}

#[test]
fn state_numbers_round_trip() {
    let all = [
        CharacterState::Idle,
        CharacterState::Moving,
        CharacterState::Attacking,
        CharacterState::GetHit,
        CharacterState::Dying,
        CharacterState::Count,
    ];
    for (i, s) in all.iter().enumerate() {
        assert_eq!(s.value() as usize, i);
        assert_eq!(CharacterState::from(s.value()), *s);
    }
    assert_eq!(CharacterState::from(6), CharacterState::Count);
    assert_eq!(CharacterState::from(200), CharacterState::Count);
}

#[test]
fn state_names() {
    assert_eq!(CharacterState::Idle.name(), "Idle");
    assert_eq!(CharacterState::GetHit.name(), "GetHit");
    assert_eq!(CharacterState::Dying.name(), "Dying");
}

#[test]
fn stats_indices() {
    assert_eq!(Stats::Hp, 0);
    assert_eq!(Stats::Mp, 1);
    assert_eq!(Stats::MaxHp, 2);
    assert_eq!(Stats::MaxMp, 3);
    assert_eq!(Stats::Attack, 4);
    assert_eq!(Stats::Defense, 5);
    assert_eq!(Stats::Speed, 6);
    assert_eq!(Stats::Count, 16);
}
