use vstd::prelude::*;

use crate::common::{Animation, CharacterState, Stats};
use crate::skill::{events_fit, fired_actions, is_skill_table, Skill, SkillAction, SkillManager};
use crate::unit::UnitStats;

verus! {

/// How long a character stays hit, in milliseconds of state time.
pub const HIT_TIME_MS: u64 = 1000;

/// How long a skill keeps a character attacking, in milliseconds of state time.
pub const SKILL_TIME_MS: u64 = 1000;

/// The signs of a frame's movement direction: whether it is non-zero, whether
/// it points forward (positive y) and whether it points left (positive x).
#[derive(Clone, Copy, Debug, PartialEq, Eq, Structural)]
pub struct MoveInput {
    pub moving: bool,
    pub forward: bool,
    pub left: bool,
}

/// The clips to play on entering a state: one clip, or two walking clips blended
/// by the direction (the forward/back one weighted by |y|, the left/right one by |x|).
#[derive(Clone, Copy, Debug, PartialEq, Eq, Structural)]
pub enum AnimationCue {
    Play { anim: Animation, looping: bool },
    Walk { forward_back: Animation, left_right: Animation },
}

/// The outcome of one frame of a character's state machine.
/// `clear_request`: the requested state is to be reset to `Count`;
/// `clear_skill`: the requested skill is to be reset to 0;
/// `changed`: the state is to be stored, its time reset to 0 and `cue` played.
#[derive(Clone, Copy, Debug, PartialEq, Eq, Structural)]
pub struct StateStep {
    pub next: CharacterState,
    pub clear_request: bool,
    pub clear_skill: bool,
    pub changed: bool,
    pub cue: Option<AnimationCue>,
}

/// The clips played on entering `s` with movement `input`.
pub open spec fn cue_for(s: CharacterState, input: MoveInput) -> Option<AnimationCue> {
    match s {
        CharacterState::Idle => Some(AnimationCue::Play { anim: Animation::Idle02, looping: true }),
        CharacterState::Moving => Some(
            AnimationCue::Walk {
                forward_back: if input.forward {
                    Animation::BattleWalkForward
                } else {
                    Animation::BattleWalkBack
                },
                left_right: if input.left {
                    Animation::BattleWalkLeft
                } else {
                    Animation::BattleWalkRight
                },
            },
        ),
        CharacterState::Attacking => Some(AnimationCue::Play { anim: Animation::Attack01, looping: false }),
        CharacterState::GetHit => Some(AnimationCue::Play { anim: Animation::GetHit, looping: false }),
        CharacterState::Dying => Some(AnimationCue::Play { anim: Animation::Die, looping: false }),
        CharacterState::Count => None,
    }
}

/// The state a frame starts from: the requested one, if any, else the current one.
pub open spec fn entered_state(req_state: CharacterState, state: CharacterState) -> CharacterState {
    if req_state != CharacterState::Count {
        req_state
    } else {
        state
    }
}

/// The state time a frame works with: 0 after a request, else the current one.
pub open spec fn entered_time(req_state: CharacterState, state_time_ms: u64) -> u64 {
    if req_state != CharacterState::Count {
        0
    } else {
        state_time_ms
    }
}

/// Whether a skill id asks for a skill (0 asks for none).
pub open spec fn skill_pending(requested_skill: Option<u32>) -> bool {
    requested_skill matches Some(k) && k != 0
}

/// One frame of the state machine, step by step:
/// a request replaces the state and restarts its time; entering `Dying` this way
/// keeps the current state; no hit points left means `Dying`; a hit ends after
/// `HIT_TIME_MS`; an attack ends (and its skill is cleared) after `SKILL_TIME_MS`;
/// otherwise a pending skill starts an attack; an idle or moving character
/// moves exactly when its direction is non-zero.
pub open spec fn state_step(
    stats: Seq<u32>,
    req_state: CharacterState,
    state: CharacterState,
    state_time_ms: u64,
    requested_skill: Option<u32>,
    input: MoveInput,
) -> StateStep {
    let s1 = entered_state(req_state, state);
    let t1 = entered_time(req_state, state_time_ms);
    let clear_request = req_state != CharacterState::Count;
    if s1 == CharacterState::Dying {
        StateStep { next: state, clear_request, clear_skill: false, changed: false, cue: None }
    } else {
        let s2 = if stats[Stats::Hp as int] == 0 {
            CharacterState::Dying
        } else {
            s1
        };
        let s3 = if s2 == CharacterState::GetHit && t1 > HIT_TIME_MS {
            CharacterState::Idle
        } else {
            s2
        };
        let attack_over = s3 == CharacterState::Attacking && t1 > SKILL_TIME_MS;
        let s4 = if s3 == CharacterState::Attacking {
            if attack_over {
                CharacterState::Idle
            } else {
                s3
            }
        } else if skill_pending(requested_skill) {
            CharacterState::Attacking
        } else {
            s3
        };
        let s5 = if s4.spec_movable() {
            if input.moving {
                CharacterState::Moving
            } else {
                CharacterState::Idle
            }
        } else {
            s4
        };
        StateStep {
            next: s5,
            clear_request,
            clear_skill: attack_over,
            changed: s5 != state,
            cue: if s5 != state {
                cue_for(s5, input)
            } else {
                None
            },
        }
    }
}

/// Whether a frame of the state machine reads the hit points.
pub open spec fn reads_hp(req_state: CharacterState, state: CharacterState) -> bool {
    entered_state(req_state, state) != CharacterState::Dying
}

/// Decides one frame of a character's state machine, from its stats, the
/// requested and the current state, the time spent in the current state (ms),
/// the requested skill and the movement input.
pub fn process_state(
    stats: &UnitStats,
    req_state: CharacterState,
    state: CharacterState,
    state_time_ms: u64,
    requested_skill: Option<u32>,
    input: MoveInput,
) -> (step: StateStep)
    requires
        reads_hp(req_state, state) ==> stats@.len() > Stats::Hp,
    ensures
        step == state_step(stats@, req_state, state, state_time_ms, requested_skill, input),
{
    let mut next_state = state;
    let mut state_time = state_time_ms;
    let mut clear_request = false;
    let mut clear_skill = false;

    if req_state != CharacterState::Count {
        next_state = req_state;
        state_time = 0;
        clear_request = true;
    }
    if next_state == CharacterState::Dying {
        return StateStep { next: state, clear_request, clear_skill: false, changed: false, cue: None };
    }
    if stats[Stats::Hp] == 0 {
        next_state = CharacterState::Dying;
    }
    if next_state == CharacterState::GetHit {
        if state_time > HIT_TIME_MS {
            next_state = CharacterState::Idle;
        }
    }
    if next_state == CharacterState::Attacking {
        if state_time > SKILL_TIME_MS {
            clear_skill = true;
            next_state = CharacterState::Idle;
        }
    } else if let Some(req_skill) = requested_skill {
        if req_skill != 0 {
            next_state = CharacterState::Attacking;
        }
    }
    if next_state.movable() {
        if input.moving {
            next_state = CharacterState::Moving;
        } else {
            next_state = CharacterState::Idle;
        }
    }
    if next_state != state {
        let cue = match next_state {
            CharacterState::Idle => Some(AnimationCue::Play { anim: Animation::Idle02, looping: true }),
            CharacterState::Moving => {
                let anim1 = if input.forward {
                    Animation::BattleWalkForward
                } else {
                    Animation::BattleWalkBack
                };
                let anim2 = if input.left {
                    Animation::BattleWalkLeft
                } else {
                    Animation::BattleWalkRight
                };
                Some(AnimationCue::Walk { forward_back: anim1, left_right: anim2 })
            },
            CharacterState::Attacking => Some(AnimationCue::Play { anim: Animation::Attack01, looping: false }),
            CharacterState::GetHit => Some(AnimationCue::Play { anim: Animation::GetHit, looping: false }),
            CharacterState::Dying => Some(AnimationCue::Play { anim: Animation::Die, looping: false }),
            CharacterState::Count => None,
        };
        StateStep { next: next_state, clear_request, clear_skill, changed: true, cue }
    } else {
        StateStep { next: next_state, clear_request, clear_skill, changed: false, cue: None }
    }
}

/// The skill that a requested skill id runs: none for no id, for 0 and for an
/// unknown id.
pub open spec fn skill_to_run(skills: Map<u32, Skill>, requested_skill: Option<u32>) -> Option<Skill> {
    match requested_skill {
        Some(id) => if id != 0 && skills.contains_key(id) {
            Some(skills[id])
        } else {
            None
        },
        None => None,
    }
}

/// Whether the skill that runs can run its events of the window on the caster.
pub open spec fn skill_fits(
    skills: Map<u32, Skill>,
    requested_skill: Option<u32>,
    stats: Seq<u32>,
    time_ms: u64,
    last_time_ms: u64,
) -> bool {
    skill_to_run(skills, requested_skill) matches Some(s) ==> events_fit(s.events@, stats, time_ms, last_time_ms)
}

/// What the skill that runs asks of the world in a frame: the actions of its
/// events that fire in the window; nothing where no skill runs.
pub open spec fn skill_actions(
    skills: Map<u32, Skill>,
    requested_skill: Option<u32>,
    stats: Seq<u32>,
    time_ms: u64,
    last_time_ms: u64,
) -> Seq<SkillAction> {
    match skill_to_run(skills, requested_skill) {
        Some(s) => fired_actions(s.events@, stats, time_ms, last_time_ms),
        None => Seq::empty(),
    }
}

/// What the server keeps between frames.
pub struct Context {
    pub skill_manager: SkillManager,
}

impl Context {
    pub fn new() -> (c: Context)
        ensures
            is_skill_table(c.skill_manager@),
    {
        Context { skill_manager: SkillManager::new() }
    }

    /// Runs the requested skill of a caster with stats `stats` for the frame that
    /// takes the attack from `last_time_ms` (included) to `time_ms` (excluded).
    pub fn process_skill(
        &self,
        requested_skill: Option<u32>,
        stats: &UnitStats,
        time_ms: u64,
        last_time_ms: u64,
    ) -> (actions: Vec<SkillAction>)
        requires
            skill_fits(self.skill_manager@, requested_skill, stats@, time_ms, last_time_ms),
        ensures
            actions@ == skill_actions(self.skill_manager@, requested_skill, stats@, time_ms, last_time_ms),
    {
        if let Some(skill_id) = requested_skill {
            if skill_id != 0 {
                if let Some(skill) = self.skill_manager.get(skill_id) {
                    return skill.execute(stats, time_ms, last_time_ms);
                }
            }
        }
        Vec::new()
    }

    /// Whether `process_skill` can run with these arguments: the heals of the
    /// skill that runs read existing stats and add without overflow.
    pub fn can_process_skill(
        &self,
        requested_skill: Option<u32>,
        stats: &UnitStats,
        time_ms: u64,
        last_time_ms: u64,
    ) -> (r: bool)
        ensures
            r == skill_fits(self.skill_manager@, requested_skill, stats@, time_ms, last_time_ms),
    {
        if let Some(skill_id) = requested_skill {
            if skill_id != 0 {
                if let Some(skill) = self.skill_manager.get(skill_id) {
                    return skill.fits(stats, time_ms, last_time_ms);
                }
            }
        }
        true
    }
}

/// A frame never moves a character into `Count`: a step whose state is `Count`
/// keeps the state it started from and changes nothing.
pub proof fn lemma_step_never_enters_count(
    stats: Seq<u32>,
    req_state: CharacterState,
    state: CharacterState,
    state_time_ms: u64,
    requested_skill: Option<u32>,
    input: MoveInput,
)
    ensures
        ({
            let step = state_step(stats, req_state, state, state_time_ms, requested_skill, input);
            step.next == CharacterState::Count ==> step.next == state && !step.changed
        }),
{
}

/// A step changes the state exactly when its state differs from the one it
/// started from, and then it plays the clips of the new state.
pub proof fn lemma_step_change_plays_cue(
    stats: Seq<u32>,
    req_state: CharacterState,
    state: CharacterState,
    state_time_ms: u64,
    requested_skill: Option<u32>,
    input: MoveInput,
)
    ensures
        ({
            let step = state_step(stats, req_state, state, state_time_ms, requested_skill, input);
            &&& step.changed <==> step.next != state
            &&& step.changed ==> step.cue == cue_for(step.next, input) && step.cue is Some
            &&& !step.changed ==> step.cue is None
        }),
{
}

/// Every requested state is consumed by the frame that sees it.
pub proof fn lemma_request_consumed(
    stats: Seq<u32>,
    req_state: CharacterState,
    state: CharacterState,
    state_time_ms: u64,
    requested_skill: Option<u32>,
    input: MoveInput,
)
    ensures
        state_step(stats, req_state, state, state_time_ms, requested_skill, input).clear_request
            <==> req_state != CharacterState::Count,
{
}

/// A dying character with no request stays dying, and nothing else happens.
pub proof fn lemma_dying_stays(
    stats: Seq<u32>,
    state_time_ms: u64,
    requested_skill: Option<u32>,
    input: MoveInput,
)
    ensures
        state_step(stats, CharacterState::Count, CharacterState::Dying, state_time_ms, requested_skill, input)
            == (StateStep {
            next: CharacterState::Dying,
            clear_request: false,
            clear_skill: false,
            changed: false,
            cue: None,
        }),
{
}

/// A character without hit points and without a pending skill ends the frame
/// dying, unless the frame's request is `Dying` itself (which keeps the state).
pub proof fn lemma_no_hp_dies(
    stats: Seq<u32>,
    req_state: CharacterState,
    state: CharacterState,
    state_time_ms: u64,
    requested_skill: Option<u32>,
    input: MoveInput,
)
    requires
        stats.len() > Stats::Hp,
        stats[Stats::Hp as int] == 0,
        req_state != CharacterState::Dying,
        !skill_pending(requested_skill),
    ensures
        state_step(stats, req_state, state, state_time_ms, requested_skill, input).next
            == CharacterState::Dying,
{
}

/// A character that ends the frame idle or moving moves exactly when its
/// direction is non-zero (a request for `Dying` keeps the state as it was).
pub proof fn lemma_movement_follows_input(
    stats: Seq<u32>,
    req_state: CharacterState,
    state: CharacterState,
    state_time_ms: u64,
    requested_skill: Option<u32>,
    input: MoveInput,
)
    requires
        req_state != CharacterState::Dying,
    ensures
        ({
            let step = state_step(stats, req_state, state, state_time_ms, requested_skill, input);
            step.next.spec_movable() ==> (step.next == CharacterState::Moving <==> input.moving)
        }),
{
}

/// A skill is cleared only when an attack ends, and the character is then
/// free to move.
pub proof fn lemma_attack_end_frees(
    stats: Seq<u32>,
    req_state: CharacterState,
    state: CharacterState,
    state_time_ms: u64,
    requested_skill: Option<u32>,
    input: MoveInput,
)
    ensures
        ({
            let step = state_step(stats, req_state, state, state_time_ms, requested_skill, input);
            step.clear_skill ==> step.next.spec_movable() && entered_state(req_state, state)
                == CharacterState::Attacking && entered_time(req_state, state_time_ms) > SKILL_TIME_MS
        }),
{
}

/// A requested skill starts an attack: when the state a frame starts from (the
/// requested one, or else the current one) is neither `Dying` nor `Attacking`,
/// the character has hit points left and a non-zero skill is requested, the
/// frame ends attacking, whatever the movement input, and plays the attack clip
/// unless the character was attacking already.
pub proof fn lemma_pending_skill_attacks(
    stats: Seq<u32>,
    req_state: CharacterState,
    state: CharacterState,
    state_time_ms: u64,
    k: u32,
    input: MoveInput,
)
    requires
        stats.len() > Stats::Hp,
        stats[Stats::Hp as int] > 0,
        k != 0,
        (if req_state != CharacterState::Count {
            req_state
        } else {
            state
        }) != CharacterState::Dying,
        (if req_state != CharacterState::Count {
            req_state
        } else {
            state
        }) != CharacterState::Attacking,
    ensures
        ({
            let step = state_step(stats, req_state, state, state_time_ms, Some(k), input);
            &&& step.next == CharacterState::Attacking
            &&& !step.clear_skill
            &&& step.clear_request == (req_state != CharacterState::Count)
            &&& step.changed == (state != CharacterState::Attacking)
            &&& state != CharacterState::Attacking ==> step.cue == Some(
                AnimationCue::Play { anim: Animation::Attack01, looping: false },
            )
        }),
{
}

/// With no request, no pending skill and hit points left, an idle or moving
/// character ends the frame moving exactly when its direction is non-zero,
/// walking with the clips that the direction's signs pick.
pub proof fn lemma_free_character_walks(
    stats: Seq<u32>,
    state: CharacterState,
    state_time_ms: u64,
    input: MoveInput,
)
    requires
        stats.len() > Stats::Hp,
        stats[Stats::Hp as int] > 0,
        state == CharacterState::Idle || state == CharacterState::Moving,
    ensures
        ({
            let step = state_step(stats, CharacterState::Count, state, state_time_ms, None, input);
            &&& step.next == (if input.moving {
                CharacterState::Moving
            } else {
                CharacterState::Idle
            })
            &&& !step.clear_request && !step.clear_skill
            &&& (step.next == CharacterState::Moving && state == CharacterState::Idle) ==> step.cue == Some(
                AnimationCue::Walk {
                    forward_back: if input.forward {
                        Animation::BattleWalkForward
                    } else {
                        Animation::BattleWalkBack
                    },
                    left_right: if input.left {
                        Animation::BattleWalkLeft
                    } else {
                        Animation::BattleWalkRight
                    },
                },
            )
            &&& (step.next == CharacterState::Idle && state == CharacterState::Moving) ==> step.cue == Some(
                AnimationCue::Play { anim: Animation::Idle02, looping: true },
            )
        }),
{
}

/// A hit lasts one second of state time: with no request, no pending skill and
/// hit points left, a hit character stays hit (with no change) up to 1000 ms,
/// and after that ends the frame idle or moving as its input says.
pub proof fn lemma_hit_lasts_one_second(stats: Seq<u32>, state_time_ms: u64, requested_skill: Option<u32>, input: MoveInput)
    requires
        stats.len() > Stats::Hp,
        stats[Stats::Hp as int] > 0,
        !(requested_skill matches Some(k) && k != 0),
    ensures
        ({
            let step = state_step(stats, CharacterState::Count, CharacterState::GetHit, state_time_ms, requested_skill, input);
            &&& state_time_ms <= 1000 ==> step.next == CharacterState::GetHit && !step.changed
            &&& state_time_ms > 1000 ==> step.next == (if input.moving {
                CharacterState::Moving
            } else {
                CharacterState::Idle
            }) && step.changed
            &&& !step.clear_skill && !step.clear_request
        }),
{
}

/// An attack lasts one second of state time: with no request and hit points
/// left, an attacking character keeps attacking (with no change, the skill kept)
/// up to 1000 ms, and after that clears its skill and ends the frame idle or
/// moving as its input says.
pub proof fn lemma_attack_lasts_one_second(stats: Seq<u32>, state_time_ms: u64, requested_skill: Option<u32>, input: MoveInput)
    requires
        stats.len() > Stats::Hp,
        stats[Stats::Hp as int] > 0,
    ensures
        ({
            let step = state_step(stats, CharacterState::Count, CharacterState::Attacking, state_time_ms, requested_skill, input);
            &&& state_time_ms <= 1000 ==> step.next == CharacterState::Attacking && !step.changed && !step.clear_skill
            &&& state_time_ms > 1000 ==> step.next == (if input.moving {
                CharacterState::Moving
            } else {
                CharacterState::Idle
            }) && step.changed && step.clear_skill
        }),
{
}

/// A requested state other than `Dying` (and `Count`, which requests nothing) is
/// entered at once with its time restarted: for a character with hit points
/// left and no pending skill, a request for `GetHit` or `Attacking` is the next
/// state, and a request for `Idle` or `Moving` gives the state its input says.
/// Entering a hit plays the hit clip, entering an attack the attack clip.
pub proof fn lemma_request_is_entered(
    stats: Seq<u32>,
    req_state: CharacterState,
    state: CharacterState,
    state_time_ms: u64,
    requested_skill: Option<u32>,
    input: MoveInput,
)
    requires
        stats.len() > Stats::Hp,
        stats[Stats::Hp as int] > 0,
        !(requested_skill matches Some(k) && k != 0),
        req_state != CharacterState::Count,
        req_state != CharacterState::Dying,
    ensures
        ({
            let step = state_step(stats, req_state, state, state_time_ms, requested_skill, input);
            &&& (req_state == CharacterState::GetHit || req_state == CharacterState::Attacking) ==> step.next == req_state
            &&& (req_state == CharacterState::Idle || req_state == CharacterState::Moving) ==> step.next == (if input.moving {
                CharacterState::Moving
            } else {
                CharacterState::Idle
            })
            &&& step.clear_request && !step.clear_skill
            &&& (state != CharacterState::GetHit && req_state == CharacterState::GetHit) ==> step.cue == Some(
                AnimationCue::Play { anim: Animation::GetHit, looping: false },
            )
            &&& (state != CharacterState::Attacking && req_state == CharacterState::Attacking) ==> step.cue == Some(
                AnimationCue::Play { anim: Animation::Attack01, looping: false },
            )
        }),
{
}

/// A character that runs out of hit points while not dying, with no request and
/// no pending skill, starts dying and plays the death clip once.
pub proof fn lemma_death_plays_die(stats: Seq<u32>, state: CharacterState, state_time_ms: u64, input: MoveInput)
    requires
        stats.len() > Stats::Hp,
        stats[Stats::Hp as int] == 0,
        state != CharacterState::Dying,
    ensures
        state_step(stats, CharacterState::Count, state, state_time_ms, None, input) == (StateStep {
            next: CharacterState::Dying,
            clear_request: false,
            clear_skill: false,
            changed: true,
            cue: Some(AnimationCue::Play { anim: Animation::Die, looping: false }),
        }),
{
}

} // verus!
