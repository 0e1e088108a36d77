use vstd::prelude::*;
use vstd::string::StringExecFns;

verus! {

/// The animation clips of the wizard model, in the order of their numbers.
/// `Count` is the number of the numbered clips and also stands for "no clip";
/// `DefendStart`, the clip of the heal skill, comes after it and is never
/// given by a number.
#[derive(Clone, Copy, Debug, PartialEq, Eq, Structural)]
pub enum Animation {
    Idle01,
    Idle02,
    Idle03,
    BattleRunForward,
    BattleWalkForward,
    BattleWalkBack,
    BattleWalkLeft,
    BattleWalkRight,
    Attack01,
    Attack02Start,
    Attack02Maintain,
    Attack03Start,
    Attack03Maintain,
    Attack04,
    GetHit,
    Die,
    DieRecovery,
    Count,
    DefendStart,
}

/// The number of each animation clip.
pub open spec fn animation_number(a: Animation) -> u8 {
    match a {
        Animation::Idle01 => 0,
        Animation::Idle02 => 1,
        Animation::Idle03 => 2,
        Animation::BattleRunForward => 3,
        Animation::BattleWalkForward => 4,
        Animation::BattleWalkBack => 5,
        Animation::BattleWalkLeft => 6,
        Animation::BattleWalkRight => 7,
        Animation::Attack01 => 8,
        Animation::Attack02Start => 9,
        Animation::Attack02Maintain => 10,
        Animation::Attack03Start => 11,
        Animation::Attack03Maintain => 12,
        Animation::Attack04 => 13,
        Animation::GetHit => 14,
        Animation::Die => 15,
        Animation::DieRecovery => 16,
        Animation::Count => 17,
        Animation::DefendStart => 18,
    }
}

/// The clip that carries a number; every number past the last clip gives `Count`.
pub open spec fn animation_from_number(v: u8) -> Animation {
    if v == 0 {
        Animation::Idle01
    } else if v == 1 {
        Animation::Idle02
    } else if v == 2 {
        Animation::Idle03
    } else if v == 3 {
        Animation::BattleRunForward
    } else if v == 4 {
        Animation::BattleWalkForward
    } else if v == 5 {
        Animation::BattleWalkBack
    } else if v == 6 {
        Animation::BattleWalkLeft
    } else if v == 7 {
        Animation::BattleWalkRight
    } else if v == 8 {
        Animation::Attack01
    } else if v == 9 {
        Animation::Attack02Start
    } else if v == 10 {
        Animation::Attack02Maintain
    } else if v == 11 {
        Animation::Attack03Start
    } else if v == 12 {
        Animation::Attack03Maintain
    } else if v == 13 {
        Animation::Attack04
    } else if v == 14 {
        Animation::GetHit
    } else if v == 15 {
        Animation::Die
    } else if v == 16 {
        Animation::DieRecovery
    } else {
        Animation::Count
    }
}

/// The name of each clip: the variant's own name.
pub open spec fn animation_name(a: Animation) -> Seq<char> {
    match a {
        Animation::Idle01 => "Idle01"@,
        Animation::Idle02 => "Idle02"@,
        Animation::Idle03 => "Idle03"@,
        Animation::BattleRunForward => "BattleRunForward"@,
        Animation::BattleWalkForward => "BattleWalkForward"@,
        Animation::BattleWalkBack => "BattleWalkBack"@,
        Animation::BattleWalkLeft => "BattleWalkLeft"@,
        Animation::BattleWalkRight => "BattleWalkRight"@,
        Animation::Attack01 => "Attack01"@,
        Animation::Attack02Start => "Attack02Start"@,
        Animation::Attack02Maintain => "Attack02Maintain"@,
        Animation::Attack03Start => "Attack03Start"@,
        Animation::Attack03Maintain => "Attack03Maintain"@,
        Animation::Attack04 => "Attack04"@,
        Animation::GetHit => "GetHit"@,
        Animation::Die => "Die"@,
        Animation::DieRecovery => "DieRecovery"@,
        Animation::DefendStart => "DefendStart"@,
        Animation::Count => "Count"@,
    }
}

/// The asset path of a clip: its name set between the clip directory and the clip file.
pub open spec fn animation_path(a: Animation) -> Seq<char> {
    "assets/WizardPolyArt/Animations/"@ + animation_name(a) + ".fbx/animations/Take 001.anim"@
}

impl Animation {
    pub fn name(&self) -> (r: &'static str)
        ensures
            r@ == animation_name(*self),
    {
        match self {
            Animation::Idle01 => "Idle01",
            Animation::Idle02 => "Idle02",
            Animation::Idle03 => "Idle03",
            Animation::BattleRunForward => "BattleRunForward",
            Animation::BattleWalkForward => "BattleWalkForward",
            Animation::BattleWalkBack => "BattleWalkBack",
            Animation::BattleWalkLeft => "BattleWalkLeft",
            Animation::BattleWalkRight => "BattleWalkRight",
            Animation::Attack01 => "Attack01",
            Animation::Attack02Start => "Attack02Start",
            Animation::Attack02Maintain => "Attack02Maintain",
            Animation::Attack03Start => "Attack03Start",
            Animation::Attack03Maintain => "Attack03Maintain",
            Animation::Attack04 => "Attack04",
            Animation::GetHit => "GetHit",
            Animation::Die => "Die",
            Animation::DieRecovery => "DieRecovery",
            Animation::DefendStart => "DefendStart",
            Animation::Count => "Count",
        }
    }

    /// The number of this clip.
    pub fn value(self) -> (r: u8)
        ensures
            r == animation_number(self),
    {
        match self {
            Animation::Idle01 => 0,
            Animation::Idle02 => 1,
            Animation::Idle03 => 2,
            Animation::BattleRunForward => 3,
            Animation::BattleWalkForward => 4,
            Animation::BattleWalkBack => 5,
            Animation::BattleWalkLeft => 6,
            Animation::BattleWalkRight => 7,
            Animation::Attack01 => 8,
            Animation::Attack02Start => 9,
            Animation::Attack02Maintain => 10,
            Animation::Attack03Start => 11,
            Animation::Attack03Maintain => 12,
            Animation::Attack04 => 13,
            Animation::GetHit => 14,
            Animation::Die => 15,
            Animation::DieRecovery => 16,
            Animation::Count => 17,
            Animation::DefendStart => 18,
        }
    }

    pub fn from(val: u8) -> (r: Animation)
        ensures
            r == animation_from_number(val),
    {
        match val {
            0 => Animation::Idle01,
            1 => Animation::Idle02,
            2 => Animation::Idle03,
            3 => Animation::BattleRunForward,
            4 => Animation::BattleWalkForward,
            5 => Animation::BattleWalkBack,
            6 => Animation::BattleWalkLeft,
            7 => Animation::BattleWalkRight,
            8 => Animation::Attack01,
            9 => Animation::Attack02Start,
            10 => Animation::Attack02Maintain,
            11 => Animation::Attack03Start,
            12 => Animation::Attack03Maintain,
            13 => Animation::Attack04,
            14 => Animation::GetHit,
            15 => Animation::Die,
            16 => Animation::DieRecovery,
            _ => Animation::Count,
        }
    }

    pub fn path(self) -> (r: String)
        ensures
            r@ == animation_path(self),
    {
        let mut p = String::from_str("assets/WizardPolyArt/Animations/");
        p.append(self.name());
        p.append(".fbx/animations/Take 001.anim");
        p
    }
}

/// Converting a clip to its number and back gives the same clip, for every clip
/// but `DefendStart`, which no number gives.
pub proof fn lemma_animation_number_round_trip(a: Animation)
    ensures
        a != Animation::DefendStart ==> animation_from_number(animation_number(a)) == a
            && animation_number(a) <= animation_number(Animation::Count),
        animation_from_number(animation_number(Animation::DefendStart)) == Animation::Count,
{
}

/// Every number up to `Count`'s is the number of the clip it converts to;
/// every larger number converts to `Count`.
pub proof fn lemma_animation_number_onto(v: u8)
    ensures
        v <= animation_number(Animation::Count) ==> animation_number(animation_from_number(v)) == v,
        v > animation_number(Animation::Count) ==> animation_from_number(v) == Animation::Count,
{
}

/// The gameplay state of a character. `Count` is the number of states and
/// also stands for "no state".
#[derive(Clone, Copy, Debug, PartialEq, Eq, Structural)]
pub enum CharacterState {
    Idle,
    Moving,
    Attacking,
    GetHit,
    Dying,
    Count,
}

/// The number of each state.
pub open spec fn state_number(s: CharacterState) -> u8 {
    match s {
        CharacterState::Idle => 0,
        CharacterState::Moving => 1,
        CharacterState::Attacking => 2,
        CharacterState::GetHit => 3,
        CharacterState::Dying => 4,
        CharacterState::Count => 5,
    }
}

/// The state that carries a number; every number past the last state gives `Count`.
pub open spec fn state_from_number(v: u8) -> CharacterState {
    if v == 0 {
        CharacterState::Idle
    } else if v == 1 {
        CharacterState::Moving
    } else if v == 2 {
        CharacterState::Attacking
    } else if v == 3 {
        CharacterState::GetHit
    } else if v == 4 {
        CharacterState::Dying
    } else {
        CharacterState::Count
    }
}

/// The name of each state: the variant's own name.
pub open spec fn state_name(s: CharacterState) -> Seq<char> {
    match s {
        CharacterState::Idle => "Idle"@,
        CharacterState::Moving => "Moving"@,
        CharacterState::Attacking => "Attacking"@,
        CharacterState::GetHit => "GetHit"@,
        CharacterState::Dying => "Dying"@,
        CharacterState::Count => "Count"@,
    }
}

impl CharacterState {
    /// Whether a character in this state may be steered by its movement input.
    pub open spec fn spec_movable(self) -> bool {
        self == CharacterState::Idle || self == CharacterState::Moving
    }

    pub fn movable(self) -> (r: bool)
        ensures
            r == self.spec_movable(),
    {
        return self == CharacterState::Idle || self == CharacterState::Moving;
    }

    pub fn name(&self) -> (r: &'static str)
        ensures
            r@ == state_name(*self),
    {
        match self {
            CharacterState::Idle => "Idle",
            CharacterState::Moving => "Moving",
            CharacterState::Attacking => "Attacking",
            CharacterState::GetHit => "GetHit",
            CharacterState::Dying => "Dying",
            CharacterState::Count => "Count",
        }
    }

    /// The number of this state.
    pub fn value(self) -> (r: u8)
        ensures
            r == state_number(self),
    {
        match self {
            CharacterState::Idle => 0,
            CharacterState::Moving => 1,
            CharacterState::Attacking => 2,
            CharacterState::GetHit => 3,
            CharacterState::Dying => 4,
            CharacterState::Count => 5,
        }
    }

    pub fn from(val: u8) -> (r: CharacterState)
        ensures
            r == state_from_number(val),
    {
        match val {
            0 => CharacterState::Idle,
            1 => CharacterState::Moving,
            2 => CharacterState::Attacking,
            3 => CharacterState::GetHit,
            4 => CharacterState::Dying,
            _ => CharacterState::Count,
        }
    }
}

/// Converting a state to its number and back gives the same state.
pub proof fn lemma_state_number_round_trip(s: CharacterState)
    ensures
        state_from_number(state_number(s)) == s,
        state_number(s) <= state_number(CharacterState::Count),
{
}

/// Every number up to `Count`'s is the number of the state it converts to;
/// every larger number converts to `Count`.
pub proof fn lemma_state_number_onto(v: u8)
    ensures
        v <= state_number(CharacterState::Count) ==> state_number(state_from_number(v)) == v,
        v > state_number(CharacterState::Count) ==> state_from_number(v) == CharacterState::Count,
{
}

/// Every clip is named by the text of its variant, so distinct clips have
/// distinct names (and so distinct paths).
pub proof fn lemma_animation_names()
    ensures
        animation_name(Animation::Idle01) == "Idle01"@,
        animation_name(Animation::Idle02) == "Idle02"@,
        animation_name(Animation::Idle03) == "Idle03"@,
        animation_name(Animation::BattleRunForward) == "BattleRunForward"@,
        animation_name(Animation::BattleWalkForward) == "BattleWalkForward"@,
        animation_name(Animation::BattleWalkBack) == "BattleWalkBack"@,
        animation_name(Animation::BattleWalkLeft) == "BattleWalkLeft"@,
        animation_name(Animation::BattleWalkRight) == "BattleWalkRight"@,
        animation_name(Animation::Attack01) == "Attack01"@,
        animation_name(Animation::Attack02Start) == "Attack02Start"@,
        animation_name(Animation::Attack02Maintain) == "Attack02Maintain"@,
        animation_name(Animation::Attack03Start) == "Attack03Start"@,
        animation_name(Animation::Attack03Maintain) == "Attack03Maintain"@,
        animation_name(Animation::Attack04) == "Attack04"@,
        animation_name(Animation::GetHit) == "GetHit"@,
        animation_name(Animation::Die) == "Die"@,
        animation_name(Animation::DieRecovery) == "DieRecovery"@,
        animation_name(Animation::Count) == "Count"@,
        animation_name(Animation::DefendStart) == "DefendStart"@,
        forall|a: Animation, b: Animation| #[trigger] animation_name(a) == #[trigger] animation_name(b) ==> a == b,
{
    reveal_strlit("Idle01");
    reveal_strlit("Idle02");
    reveal_strlit("Idle03");
    reveal_strlit("BattleRunForward");
    reveal_strlit("BattleWalkForward");
    reveal_strlit("BattleWalkBack");
    reveal_strlit("BattleWalkLeft");
    reveal_strlit("BattleWalkRight");
    reveal_strlit("Attack01");
    reveal_strlit("Attack02Start");
    reveal_strlit("Attack02Maintain");
    reveal_strlit("Attack03Start");
    reveal_strlit("Attack03Maintain");
    reveal_strlit("Attack04");
    reveal_strlit("GetHit");
    reveal_strlit("Die");
    reveal_strlit("DieRecovery");
    reveal_strlit("Count");
    reveal_strlit("DefendStart");
    assert forall|a: Animation, b: Animation| #[trigger] animation_name(a) == #[trigger] animation_name(b) implies a == b by {
        if a != b {
            let x = animation_name(a);
            let y = animation_name(b);
            assert(x.len() != y.len() || x[0] != y[0] || x[5] != y[5] || x[7] != y[7] || x[10] != y[10]);
        }
    }
}

/// Every state is named by the text of its variant, so distinct states have
/// distinct names.
pub proof fn lemma_state_names()
    ensures
        state_name(CharacterState::Idle) == "Idle"@,
        state_name(CharacterState::Moving) == "Moving"@,
        state_name(CharacterState::Attacking) == "Attacking"@,
        state_name(CharacterState::GetHit) == "GetHit"@,
        state_name(CharacterState::Dying) == "Dying"@,
        state_name(CharacterState::Count) == "Count"@,
        forall|a: CharacterState, b: CharacterState| #[trigger] state_name(a) == #[trigger] state_name(b) ==> a == b,
{
    reveal_strlit("Idle");
    reveal_strlit("Moving");
    reveal_strlit("Attacking");
    reveal_strlit("GetHit");
    reveal_strlit("Dying");
    reveal_strlit("Count");
    assert forall|a: CharacterState, b: CharacterState| #[trigger] state_name(a) == #[trigger] state_name(b) implies a == b by {
        if a != b {
            let x = state_name(a);
            let y = state_name(b);
            assert(x.len() != y.len() || x[0] != y[0]);
        }
    }
}

/// The clips are numbered in the order they are listed, from 0 for `Idle01`
/// to 17 for `Count`; `DefendStart` carries 18 and no number gives it back.
pub proof fn lemma_animation_numbering()
    ensures
        animation_number(Animation::Idle01) == 0 && animation_from_number(0) == Animation::Idle01,
        animation_number(Animation::Idle02) == 1 && animation_from_number(1) == Animation::Idle02,
        animation_number(Animation::Idle03) == 2 && animation_from_number(2) == Animation::Idle03,
        animation_number(Animation::BattleRunForward) == 3 && animation_from_number(3) == Animation::BattleRunForward,
        animation_number(Animation::BattleWalkForward) == 4 && animation_from_number(4) == Animation::BattleWalkForward,
        animation_number(Animation::BattleWalkBack) == 5 && animation_from_number(5) == Animation::BattleWalkBack,
        animation_number(Animation::BattleWalkLeft) == 6 && animation_from_number(6) == Animation::BattleWalkLeft,
        animation_number(Animation::BattleWalkRight) == 7 && animation_from_number(7) == Animation::BattleWalkRight,
        animation_number(Animation::Attack01) == 8 && animation_from_number(8) == Animation::Attack01,
        animation_number(Animation::Attack02Start) == 9 && animation_from_number(9) == Animation::Attack02Start,
        animation_number(Animation::Attack02Maintain) == 10 && animation_from_number(10) == Animation::Attack02Maintain,
        animation_number(Animation::Attack03Start) == 11 && animation_from_number(11) == Animation::Attack03Start,
        animation_number(Animation::Attack03Maintain) == 12 && animation_from_number(12) == Animation::Attack03Maintain,
        animation_number(Animation::Attack04) == 13 && animation_from_number(13) == Animation::Attack04,
        animation_number(Animation::GetHit) == 14 && animation_from_number(14) == Animation::GetHit,
        animation_number(Animation::Die) == 15 && animation_from_number(15) == Animation::Die,
        animation_number(Animation::DieRecovery) == 16 && animation_from_number(16) == Animation::DieRecovery,
        animation_number(Animation::Count) == 17 && animation_from_number(17) == Animation::Count,
        animation_number(Animation::DefendStart) == 18,
        forall|v: u8| #[trigger] animation_from_number(v) != Animation::DefendStart,
{
}

/// The states are numbered in the order they are listed, from 0 for `Idle`
/// to 5 for `Count`; only `Idle` and `Moving` follow the movement input.
pub proof fn lemma_state_numbering()
    ensures
        state_number(CharacterState::Idle) == 0 && state_from_number(0) == CharacterState::Idle,
        state_number(CharacterState::Moving) == 1 && state_from_number(1) == CharacterState::Moving,
        state_number(CharacterState::Attacking) == 2 && state_from_number(2) == CharacterState::Attacking,
        state_number(CharacterState::GetHit) == 3 && state_from_number(3) == CharacterState::GetHit,
        state_number(CharacterState::Dying) == 4 && state_from_number(4) == CharacterState::Dying,
        state_number(CharacterState::Count) == 5 && state_from_number(5) == CharacterState::Count,
        forall|s: CharacterState| #[trigger] s.spec_movable() <==> (s == CharacterState::Idle || s == CharacterState::Moving),
{
}

/// The indices of the entries of a unit's stats vector, and its length.
#[derive(Clone, Copy, Debug, PartialEq, Eq, Structural)]
pub struct Stats;

#[allow(non_upper_case_globals)]
impl Stats {
    pub const Hp: usize = 0;
    pub const Mp: usize = 1;
    pub const MaxHp: usize = 2;
    pub const MaxMp: usize = 3;
    pub const Attack: usize = 4;
    pub const Defense: usize = 5;
    pub const Speed: usize = 6;
    pub const Count: usize = 16;
}

} // verus!
