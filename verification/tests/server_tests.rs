use wizard_battle::common::{Animation, CharacterState, Stats};
use wizard_battle::server::{process_state, AnimationCue, Context, MoveInput, StateStep};
use wizard_battle::skill::SkillAction;
use wizard_battle::unit::default_unit_stats;

const STILL: MoveInput = MoveInput { moving: false, forward: false, left: false };
const FORWARD_LEFT: MoveInput = MoveInput { moving: true, forward: true, left: true };
const BACK_RIGHT: MoveInput = MoveInput { moving: true, forward: false, left: false };

fn dead_stats() -> Vec<u32> {
    let mut s = default_unit_stats();
    s[Stats::Hp] = 0;
    s
}

#[test]
fn idle_stays_idle() {
    let st = default_unit_stats();
    let step = process_state(&st, CharacterState::Count, CharacterState::Idle, 500, None, STILL);
    assert_eq!(
        step,
        StateStep { next: CharacterState::Idle, clear_request: false, clear_skill: false, changed: false, cue: None }
    );
}

#[test]
fn idle_starts_moving_with_walk_clips() {
    let st = default_unit_stats();
    let step = process_state(&st, CharacterState::Count, CharacterState::Idle, 0, None, FORWARD_LEFT);
    assert_eq!(step.next, CharacterState::Moving);
    assert!(step.changed);
    assert_eq!(
        step.cue,
        Some(AnimationCue::Walk {
            forward_back: Animation::BattleWalkForward,
            left_right: Animation::BattleWalkLeft
        })
    );
    let step2 = process_state(&st, CharacterState::Count, CharacterState::Idle, 0, Some(0), BACK_RIGHT);
    assert_eq!(
        step2.cue,
        Some(AnimationCue::Walk {
            forward_back: Animation::BattleWalkBack,
            left_right: Animation::BattleWalkRight
        })
    );
}

#[test]
fn moving_stops_to_idle() {
    let st = default_unit_stats();
    let step = process_state(&st, CharacterState::Count, CharacterState::Moving, 10, None, STILL);
    assert_eq!(step.next, CharacterState::Idle);
    assert_eq!(step.cue, Some(AnimationCue::Play { anim: Animation::Idle02, looping: true }));
}

#[test]
fn pending_skill_starts_attack() {
    let st = default_unit_stats();
    let step = process_state(&st, CharacterState::Count, CharacterState::Moving, 10, Some(3), FORWARD_LEFT);
    assert_eq!(step.next, CharacterState::Attacking);
    assert!(!step.clear_skill);
    assert_eq!(step.cue, Some(AnimationCue::Play { anim: Animation::Attack01, looping: false }));
}

#[test]
fn attack_lasts_its_time_then_clears_skill() {
    let st = default_unit_stats();
    let during = process_state(&st, CharacterState::Count, CharacterState::Attacking, 1000, Some(1), STILL);
    assert_eq!(during.next, CharacterState::Attacking);
    assert!(!during.changed);
    assert!(!during.clear_skill);
    let after = process_state(&st, CharacterState::Count, CharacterState::Attacking, 1001, Some(1), FORWARD_LEFT);
    assert_eq!(after.next, CharacterState::Moving);
    assert!(after.clear_skill);
    assert!(after.changed);
}

#[test]
fn hit_lasts_its_time() {
    let st = default_unit_stats();
    let during = process_state(&st, CharacterState::Count, CharacterState::GetHit, 1000, None, STILL);
    assert_eq!(during.next, CharacterState::GetHit);
    assert!(!during.changed);
    let after = process_state(&st, CharacterState::Count, CharacterState::GetHit, 1001, None, STILL);
    assert_eq!(after.next, CharacterState::Idle);
    assert!(after.changed);
}

#[test]
fn request_restarts_time_and_is_consumed() {
    let st = default_unit_stats();
    let step = process_state(&st, CharacterState::GetHit, CharacterState::Idle, 5000, None, STILL);
    assert_eq!(step.next, CharacterState::GetHit);
    assert!(step.clear_request);
    assert!(step.changed);
    assert_eq!(step.cue, Some(AnimationCue::Play { anim: Animation::GetHit, looping: false }));
}

#[test]
fn request_for_dying_keeps_state() {
    let st = default_unit_stats();
    let step = process_state(&st, CharacterState::Dying, CharacterState::Moving, 0, None, STILL);
    assert_eq!(
        step,
        StateStep { next: CharacterState::Moving, clear_request: true, clear_skill: false, changed: false, cue: None }
    );
}

#[test]
fn no_hp_means_dying() {
    let st = dead_stats();
    let step = process_state(&st, CharacterState::Count, CharacterState::Idle, 0, None, FORWARD_LEFT);
    assert_eq!(step.next, CharacterState::Dying);
    assert_eq!(step.cue, Some(AnimationCue::Play { anim: Animation::Die, looping: false }));
    let again = process_state(&st, CharacterState::Count, CharacterState::Dying, 0, None, FORWARD_LEFT);
    assert_eq!(again.next, CharacterState::Dying);
    assert!(!again.changed);
}

#[test]
fn dying_stays_dying_even_with_hp() {
    let st = default_unit_stats();
    let step = process_state(&st, CharacterState::Count, CharacterState::Dying, 0, Some(1), FORWARD_LEFT);
    assert_eq!(
        step,
        StateStep { next: CharacterState::Dying, clear_request: false, clear_skill: false, changed: false, cue: None }
    );
}

#[test]
fn unknown_state_is_left_alone() {
    let st = default_unit_stats();
    let step = process_state(&st, CharacterState::Count, CharacterState::Count, 0, None, FORWARD_LEFT);
    assert_eq!(step.next, CharacterState::Count);
    assert!(!step.changed);
}

#[test]
fn context_runs_requested_skill() {
    let c = Context::new();
    let st = default_unit_stats();
    assert_eq!(c.process_skill(Some(1), &st, 306, 290), vec![SkillAction::AttackCircle { radius_mm: 2000 }]);
    assert_eq!(c.process_skill(Some(1), &st, 116, 100), vec![]);
    assert_eq!(c.process_skill(Some(0), &st, 306, 290), vec![]);
    assert_eq!(c.process_skill(None, &st, 306, 290), vec![]);
    assert_eq!(c.process_skill(Some(7), &st, 306, 290), vec![]);
    let mut hurt = default_unit_stats();
    hurt[Stats::Hp] = 20;
    assert!(c.can_process_skill(Some(2), &hurt, 16, 0));
    assert_eq!(c.process_skill(Some(2), &hurt, 16, 0), vec![SkillAction::SetHp { value: 200 }]);
}

#[test]
fn consecutive_frames_fire_each_event_once() {
    let c = Context::new();
    let st = default_unit_stats();
    let mut fired = Vec::new();
    let mut t = 0u64;
    while t < 1000 {
        fired.extend(c.process_skill(Some(4), &st, t + 17, t));
        t += 17;
    }
    assert_eq!(fired, vec![SkillAction::AttackCircle { radius_mm: 2000 }]);
}

#[test]
fn can_process_skill_detects_overflow() {
    let c = Context::new();
    let mut st = default_unit_stats();
    st[Stats::Hp] = u32::MAX;
    assert!(!c.can_process_skill(Some(2), &st, 16, 0));
    assert!(c.can_process_skill(Some(2), &st, 32, 16));
    assert!(c.can_process_skill(Some(1), &st, 16, 0));
    assert!(c.can_process_skill(None, &st, 16, 0));
}
