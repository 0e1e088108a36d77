use vstd::prelude::*;
use std::collections::HashMap;

use crate::common::{Animation, Stats};
use crate::unit::UnitStats;

verus! {

/// What happens when a skill event fires. Lengths are in millimetres.
#[derive(Clone, Copy, Debug, PartialEq, Eq, Structural)]
pub enum SkillEventDef {
    AttackCircle { radius_mm: u32 },
    HealMp { value: u32 },
    HealHp { value: u32 },
}

/// An event of a skill, fired `time_ms` milliseconds after the skill started.
#[derive(Clone, Copy, Debug, PartialEq, Eq, Structural)]
pub struct SkillEvent {
    pub time_ms: u64,
    pub def: SkillEventDef,
}

/// A skill: how long it lasts, what it costs, the clip it plays and its timed events.
pub struct Skill {
    pub time_ms: u64,
    pub cost_hp: u32,
    pub cost_mp: u32,
    pub anim: Animation,
    pub events: Vec<SkillEvent>,
}

/// What a fired event asks of the world: hit every unit within a circle
/// around the caster, or set the caster's hit points or mana.
#[derive(Clone, Copy, Debug, PartialEq, Eq, Structural)]
pub enum SkillAction {
    AttackCircle { radius_mm: u32 },
    SetHp { value: u32 },
    SetMp { value: u32 },
}

/// The damage an attack does: the attack's excess over the defense, and at least 1.
pub open spec fn damage_of(attack: u32, defense: u32) -> u32 {
    if attack > defense {
        (attack - defense) as u32
    } else {
        1
    }
}

/// Hit points left after taking `damage`; they do not go below 0.
pub open spec fn hp_after(hp: u32, damage: u32) -> u32 {
    if hp > damage {
        (hp - damage) as u32
    } else {
        0
    }
}

/// The defender's stats after an attack: only the hit points change.
pub open spec fn damaged_stats(attack: Seq<u32>, defense: Seq<u32>) -> Seq<u32> {
    defense.update(
        Stats::Hp as int,
        hp_after(defense[Stats::Hp as int], damage_of(attack[Stats::Attack as int], defense[Stats::Defense as int])),
    )
}

/// Applies one hit of a unit with stats `attack_stats` to a unit with stats
/// `defense_stats`, and returns the damage done.
pub fn process_damage(attack_stats: &UnitStats, defense_stats: &mut UnitStats) -> (damage: u32)
    requires
        attack_stats@.len() > Stats::Attack,
        old(defense_stats)@.len() > Stats::Defense,
    ensures
        damage == damage_of(attack_stats@[Stats::Attack as int], old(defense_stats)@[Stats::Defense as int]),
        final(defense_stats)@ == damaged_stats(attack_stats@, old(defense_stats)@),
{
    let damage = if attack_stats[Stats::Attack] > defense_stats[Stats::Defense] {
        attack_stats[Stats::Attack] - defense_stats[Stats::Defense]
    } else {
        1
    };
    if defense_stats[Stats::Hp] > damage {
        defense_stats[Stats::Hp] = defense_stats[Stats::Hp] - damage;
    } else {
        defense_stats[Stats::Hp] = 0;
    }
    damage
}

/// Whether a circle attack hits a unit: every unit but the caster that still
/// has hit points and stands strictly within the circle.
pub fn hit_by_circle(is_caster: bool, target_stats: &UnitStats, within_radius: bool) -> (r: bool)
    requires
        !is_caster ==> target_stats@.len() > Stats::Hp,
    ensures
        r == (!is_caster && target_stats@[Stats::Hp as int] > 0 && within_radius),
{
    !is_caster && target_stats[Stats::Hp] > 0 && within_radius
}

/// The value a heal leaves: the sum of the current value and the heal, or,
/// where that sum is above the current value, the maximum.
pub open spec fn healed(current: u32, max: u32, value: u32) -> u32 {
    if current + value > current {
        max
    } else {
        (current + value) as u32
    }
}

/// Whether a heal by `value` of entry `cur` (with maximum at entry `max`) of `stats`
/// reads only entries that exist and adds without overflow.
pub open spec fn heal_fits(stats: Seq<u32>, cur: int, max: int, value: u32) -> bool {
    &&& cur < stats.len()
    &&& stats[cur] + value <= u32::MAX
    &&& value > 0 ==> max < stats.len()
}

/// Whether an event fires in the window that starts at `last_time_ms` (included)
/// and ends at `time_ms` (excluded).
pub open spec fn in_window(e: SkillEvent, time_ms: u64, last_time_ms: u64) -> bool {
    last_time_ms <= e.time_ms && e.time_ms < time_ms
}

/// Whether the event can be run on a caster with stats `stats`.
pub open spec fn event_fits(e: SkillEvent, stats: Seq<u32>) -> bool {
    match e.def {
        SkillEventDef::AttackCircle { .. } => true,
        SkillEventDef::HealHp { value } => heal_fits(stats, Stats::Hp as int, Stats::MaxHp as int, value),
        SkillEventDef::HealMp { value } => heal_fits(stats, Stats::Mp as int, Stats::MaxMp as int, value),
    }
}

/// The action a fired event gives for a caster with stats `stats`, if any:
/// a heal that leaves the value as it was gives none.
pub open spec fn event_action(e: SkillEvent, stats: Seq<u32>) -> Option<SkillAction> {
    match e.def {
        SkillEventDef::AttackCircle { radius_mm } => Some(SkillAction::AttackCircle { radius_mm }),
        SkillEventDef::HealHp { value } => {
            let hp = healed(stats[Stats::Hp as int], stats[Stats::MaxHp as int], value);
            if hp != stats[Stats::Hp as int] {
                Some(SkillAction::SetHp { value: hp })
            } else {
                None
            }
        },
        SkillEventDef::HealMp { value } => {
            let mp = healed(stats[Stats::Mp as int], stats[Stats::MaxMp as int], value);
            if mp != stats[Stats::Mp as int] {
                Some(SkillAction::SetMp { value: mp })
            } else {
                None
            }
        },
    }
}

/// Whether every event that fires in the window can be run on the caster.
pub open spec fn events_fit(events: Seq<SkillEvent>, stats: Seq<u32>, time_ms: u64, last_time_ms: u64) -> bool {
    forall|i: int|
        0 <= i < events.len() && in_window(#[trigger] events[i], time_ms, last_time_ms) ==> event_fits(
            events[i],
            stats,
        )
}

/// The actions of the events that fire in the window, in the order of the events.
pub open spec fn fired_actions(events: Seq<SkillEvent>, stats: Seq<u32>, time_ms: u64, last_time_ms: u64) -> Seq<SkillAction>
    decreases events.len(),
{
    if events.len() == 0 {
        Seq::empty()
    } else {
        let rest = fired_actions(events.drop_last(), stats, time_ms, last_time_ms);
        let e = events.last();
        if in_window(e, time_ms, last_time_ms) && event_action(e, stats) is Some {
            rest.push(event_action(e, stats).unwrap())
        } else {
            rest
        }
    }
}

impl Skill {
    /// Runs the events that fire between `last_time_ms` (included) and `time_ms`
    /// (excluded) of the skill's time, for a caster with stats `stats`, and
    /// returns what they ask of the world.
    pub fn execute(&self, stats: &UnitStats, time_ms: u64, last_time_ms: u64) -> (actions: Vec<SkillAction>)
        requires
            events_fit(self.events@, stats@, time_ms, last_time_ms),
        ensures
            actions@ == fired_actions(self.events@, stats@, time_ms, last_time_ms),
    {
        let mut actions: Vec<SkillAction> = Vec::new();
        let n = self.events.len();
        for i in 0..n
            invariant
                n == self.events@.len(),
                events_fit(self.events@, stats@, time_ms, last_time_ms),
                actions@ == fired_actions(self.events@.take(i as int), stats@, time_ms, last_time_ms),
        {
            let event = self.events[i];
            assert(self.events@.take(i + 1).drop_last() =~= self.events@.take(i as int));
            assert(self.events@.take(i + 1).last() == event);
            if event.time_ms >= last_time_ms && event.time_ms < time_ms {
                assert(event_fits(self.events@[i as int], stats@));
                match event.def {
                    SkillEventDef::AttackCircle { radius_mm } => {
                        actions.push(SkillAction::AttackCircle { radius_mm });
                    },
                    SkillEventDef::HealHp { value } => {
                        let mut hp = stats[Stats::Hp] + value;
                        if hp > stats[Stats::Hp] {
                            hp = stats[Stats::MaxHp];
                        }
                        if hp != stats[Stats::Hp] {
                            actions.push(SkillAction::SetHp { value: hp });
                        }
                    },
                    SkillEventDef::HealMp { value } => {
                        let mut mp = stats[Stats::Mp] + value;
                        if mp > stats[Stats::Mp] {
                            mp = stats[Stats::MaxMp];
                        }
                        if mp != stats[Stats::Mp] {
                            actions.push(SkillAction::SetMp { value: mp });
                        }
                    },
                }
            }
        }
        assert(self.events@.take(n as int) =~= self.events@);
        actions
    }

    /// Whether `execute` can run this skill's events of the window on a caster
    /// with stats `stats`: every heal that fires reads existing entries and
    /// adds without overflow.
    pub fn fits(&self, stats: &UnitStats, time_ms: u64, last_time_ms: u64) -> (r: bool)
        ensures
            r == events_fit(self.events@, stats@, time_ms, last_time_ms),
    {
        let n = self.events.len();
        for i in 0..n
            invariant
                n == self.events@.len(),
                forall|j: int|
                    0 <= j < i && in_window(#[trigger] self.events@[j], time_ms, last_time_ms) ==> event_fits(
                        self.events@[j],
                        stats@,
                    ),
        {
            let event = self.events[i];
            if event.time_ms >= last_time_ms && event.time_ms < time_ms {
                let ok = match event.def {
                    SkillEventDef::AttackCircle { .. } => true,
                    SkillEventDef::HealHp { value } => {
                        Stats::Hp < stats.len() && stats[Stats::Hp] <= u32::MAX - value && (value == 0
                            || Stats::MaxHp < stats.len())
                    },
                    SkillEventDef::HealMp { value } => {
                        Stats::Mp < stats.len() && stats[Stats::Mp] <= u32::MAX - value && (value == 0
                            || Stats::MaxMp < stats.len())
                    },
                };
                if !ok {
                    return false;
                }
            }
        }
        true
    }
}

/// Whether `s` lasts `time_ms`, costs `cost_hp` and `cost_mp`, plays `anim` and has the events `events`.
pub open spec fn is_skill(s: Skill, time_ms: u64, cost_hp: u32, cost_mp: u32, anim: Animation, events: Seq<SkillEvent>) -> bool {
    &&& s.time_ms == time_ms
    &&& s.cost_hp == cost_hp
    &&& s.cost_mp == cost_mp
    &&& s.anim == anim
    &&& s.events@ == events
}

/// A single circle attack of radius 2 m, 300 ms into the skill.
pub open spec fn circle_attack_events() -> Seq<SkillEvent> {
    seq![SkillEvent { time_ms: 300, def: SkillEventDef::AttackCircle { radius_mm: 2000 } }]
}

/// The skills of the game: three circle attacks (ids 1, 3 and 4) and a heal of
/// 100 hit points (id 2).
pub open spec fn is_skill_table(m: Map<u32, Skill>) -> bool {
    &&& m.dom() == set![1u32, 2u32, 3u32, 4u32]
    &&& is_skill(m[1], 1000, 0, 10, Animation::Attack01, circle_attack_events())
    &&& is_skill(
        m[2],
        500,
        0,
        10,
        Animation::DefendStart,
        seq![SkillEvent { time_ms: 0, def: SkillEventDef::HealHp { value: 100 } }],
    )
    &&& is_skill(m[3], 1000, 0, 10, Animation::Attack02Start, circle_attack_events())
    &&& is_skill(m[4], 1000, 0, 10, Animation::Attack04, circle_attack_events())
}

/// The table of skills, by id.
pub struct SkillManager {
    skills: HashMap<u32, Skill>,
}

impl View for SkillManager {
    type V = Map<u32, Skill>;

    closed spec fn view(&self) -> Map<u32, Skill> {
        self.skills@
    }
}

impl SkillManager {
    pub fn new() -> (r: SkillManager)
        ensures
            is_skill_table(r@),
    {
        broadcast use vstd::std_specs::hash::group_hash_axioms;

        let s1 = Skill {
            time_ms: 1000,
            cost_mp: 10,
            cost_hp: 0,
            anim: Animation::Attack01,
            events: vec![SkillEvent { time_ms: 300, def: SkillEventDef::AttackCircle { radius_mm: 2000 } }],
        };
        assert(s1.events@ =~= circle_attack_events());
        assert(is_skill(s1, 1000, 0, 10, Animation::Attack01, circle_attack_events()));
        let s2 = Skill {
            time_ms: 500,
            cost_mp: 10,
            cost_hp: 0,
            anim: Animation::DefendStart,
            events: vec![SkillEvent { time_ms: 0, def: SkillEventDef::HealHp { value: 100 } }],
        };
        assert(s2.events@ =~= seq![SkillEvent { time_ms: 0, def: SkillEventDef::HealHp { value: 100 } }]);
        let s3 = Skill {
            time_ms: 1000,
            cost_mp: 10,
            cost_hp: 0,
            anim: Animation::Attack02Start,
            events: vec![SkillEvent { time_ms: 300, def: SkillEventDef::AttackCircle { radius_mm: 2000 } }],
        };
        assert(s3.events@ =~= circle_attack_events());
        assert(is_skill(s3, 1000, 0, 10, Animation::Attack02Start, circle_attack_events()));
        let s4 = Skill {
            time_ms: 1000,
            cost_mp: 10,
            cost_hp: 0,
            anim: Animation::Attack04,
            events: vec![SkillEvent { time_ms: 300, def: SkillEventDef::AttackCircle { radius_mm: 2000 } }],
        };
        assert(s4.events@ =~= circle_attack_events());
        assert(is_skill(s4, 1000, 0, 10, Animation::Attack04, circle_attack_events()));
        let mut skills: HashMap<u32, Skill> = HashMap::new();
        skills.insert(1, s1);
        skills.insert(2, s2);
        skills.insert(3, s3);
        skills.insert(4, s4);
        let r = SkillManager { skills };
        assert(r@.dom() =~= set![1u32, 2u32, 3u32, 4u32]);
        r
    }

    /// The skill with id `id`, if there is one.
    pub fn get(&self, id: u32) -> (r: Option<&Skill>)
        ensures
            match r {
                Some(s) => self@.contains_key(id) && *s == self@[id],
                None => !self@.contains_key(id),
            },
    {
        broadcast use vstd::std_specs::hash::group_hash_axioms;

        self.skills.get(&id)
    }
}

/// A hit always does at least 1 damage, and it takes exactly that many hit
/// points from a unit that has more, and all of them from any other.
pub proof fn lemma_hit_costs_hp(attack: u32, defense: u32, hp: u32)
    ensures
        damage_of(attack, defense) >= 1,
        hp > damage_of(attack, defense) ==> hp_after(hp, damage_of(attack, defense)) == hp - damage_of(
            attack,
            defense,
        ),
        hp <= damage_of(attack, defense) ==> hp_after(hp, damage_of(attack, defense)) == 0,
        hp > 0 ==> hp_after(hp, damage_of(attack, defense)) < hp,
{
}

/// A heal always restores to the maximum: every hit point or mana value that a
/// skill sets is the caster's maximum, and differs from the current value.
pub proof fn lemma_heals_restore_max(events: Seq<SkillEvent>, stats: Seq<u32>, time_ms: u64, last_time_ms: u64)
    requires
        events_fit(events, stats, time_ms, last_time_ms),
    ensures
        forall|i: int|
            0 <= i < fired_actions(events, stats, time_ms, last_time_ms).len() ==> match #[trigger] fired_actions(
                events,
                stats,
                time_ms,
                last_time_ms,
            )[i] {
                SkillAction::SetHp { value } => value == stats[Stats::MaxHp as int] && value
                    != stats[Stats::Hp as int],
                SkillAction::SetMp { value } => value == stats[Stats::MaxMp as int] && value
                    != stats[Stats::Mp as int],
                SkillAction::AttackCircle { .. } => true,
            },
    decreases events.len(),
{
    if events.len() > 0 {
        let init = events.drop_last();
        assert forall|i: int| 0 <= i < init.len() && in_window(#[trigger] init[i], time_ms, last_time_ms) implies event_fits(
            init[i],
            stats,
        ) by {
            assert(init[i] == events[i]);
        }
        lemma_heals_restore_max(init, stats, time_ms, last_time_ms);
        let e = events.last();
        assert(e == events[events.len() - 1]);
    }
}

/// Splitting a window in two neither loses nor repeats an event: an event fires
/// in the whole window exactly when it fires in one of the two parts, and never
/// in both; so consecutive frames of a skill run each of its events once.
pub proof fn lemma_window_split(events: Seq<SkillEvent>, stats: Seq<u32>, a: u64, b: u64, c: u64)
    requires
        a <= b <= c,
    ensures
        forall|i: int|
            0 <= i < events.len() ==> (in_window(#[trigger] events[i], c, a) <==> (in_window(events[i], b, a)
                || in_window(events[i], c, b))) && !(in_window(events[i], b, a) && in_window(
                events[i],
                c,
                b,
            )),
        fired_actions(events, stats, c, a).len() == fired_actions(events, stats, b, a).len()
            + fired_actions(events, stats, c, b).len(),
    decreases events.len(),
{
    if events.len() > 0 {
        lemma_window_split(events.drop_last(), stats, a, b, c);
    }
}

/// Splitting a window in two gives the same actions: those of the whole window
/// are, as a multiset, those of the first part together with those of the second.
pub proof fn lemma_window_split_actions(events: Seq<SkillEvent>, stats: Seq<u32>, a: u64, b: u64, c: u64)
    requires
        a <= b <= c,
    ensures
        fired_actions(events, stats, c, a).to_multiset() == fired_actions(events, stats, b, a).to_multiset().add(
            fired_actions(events, stats, c, b).to_multiset(),
        ),
    decreases events.len(),
{
    broadcast use vstd::seq_lib::group_to_multiset_ensures;

    if events.len() > 0 {
        lemma_window_split_actions(events.drop_last(), stats, a, b, c);
        let whole = fired_actions(events, stats, c, a).to_multiset();
        let first = fired_actions(events, stats, b, a).to_multiset();
        let second = fired_actions(events, stats, c, b).to_multiset();
        assert(whole =~= first.add(second));
    } else {
        assert(fired_actions(events, stats, c, a).to_multiset() =~= fired_actions(events, stats, b, a).to_multiset().add(
            fired_actions(events, stats, c, b).to_multiset(),
        ));
    }
}

/// The damage rule: an attack above the defense does the difference, any other
/// attack does 1; the defender loses that many hit points, down to 0, and
/// nothing else of its stats changes.
pub proof fn lemma_damage_rule(attack: Seq<u32>, defense: Seq<u32>)
    requires
        attack.len() > Stats::Attack,
        defense.len() > Stats::Defense,
    ensures
        ({
            let a = attack[Stats::Attack as int];
            let d = defense[Stats::Defense as int];
            let hp = defense[Stats::Hp as int];
            let dmg: int = if a > d {
                a - d
            } else {
                1
            };
            let after = damaged_stats(attack, defense);
            &&& damage_of(a, d) == dmg
            &&& after.len() == defense.len()
            &&& after[Stats::Hp as int] == (if hp > dmg {
                hp - dmg
            } else {
                0
            })
            &&& forall|i: int| 0 <= i < defense.len() && i != Stats::Hp ==> after[i] == defense[i]
        }),
{
}

/// Actions of a list of events: those of all but the last, then those of the last.
pub proof fn lemma_fired_actions_push(events: Seq<SkillEvent>, e: SkillEvent, stats: Seq<u32>, time_ms: u64, last_time_ms: u64)
    ensures
        fired_actions(events.push(e), stats, time_ms, last_time_ms) == fired_actions(events, stats, time_ms, last_time_ms)
            + fired_actions(seq![e], stats, time_ms, last_time_ms),
{
    assert(events.push(e).drop_last() =~= events);
    assert(seq![e].drop_last() =~= Seq::<SkillEvent>::empty());
    assert(fired_actions(Seq::<SkillEvent>::empty(), stats, time_ms, last_time_ms) =~= Seq::empty());
    let rest = fired_actions(events, stats, time_ms, last_time_ms);
    assert(rest + Seq::<SkillAction>::empty() =~= rest);
    assert(rest.push(event_action(e, stats).unwrap()) =~= rest + seq![event_action(e, stats).unwrap()]);
}

/// What a single event does in a window. Outside the window: nothing. A circle
/// attack: a circle of its radius. A heal by a positive value of a caster whose
/// value differs from its maximum: the value is set to the maximum, however far
/// the sum would go past it; a heal by 0, or of a caster at its maximum: nothing.
pub proof fn lemma_single_event(e: SkillEvent, stats: Seq<u32>, time_ms: u64, last_time_ms: u64)
    requires
        event_fits(e, stats),
    ensures
        fired_actions(seq![e], stats, time_ms, last_time_ms) == (if !(last_time_ms <= e.time_ms && e.time_ms
            < time_ms) {
            Seq::<SkillAction>::empty()
        } else {
            match e.def {
                SkillEventDef::AttackCircle { radius_mm } => seq![SkillAction::AttackCircle { radius_mm }],
                SkillEventDef::HealHp { value } => if value > 0 && stats[Stats::Hp as int] != stats[Stats::MaxHp as int] {
                    seq![SkillAction::SetHp { value: stats[Stats::MaxHp as int] }]
                } else {
                    Seq::<SkillAction>::empty()
                },
                SkillEventDef::HealMp { value } => if value > 0 && stats[Stats::Mp as int] != stats[Stats::MaxMp as int] {
                    seq![SkillAction::SetMp { value: stats[Stats::MaxMp as int] }]
                } else {
                    Seq::<SkillAction>::empty()
                },
            }
        }),
{
    assert(seq![e].drop_last() =~= Seq::<SkillEvent>::empty());
    assert(seq![e].last() == e);
    assert(fired_actions(Seq::<SkillEvent>::empty(), stats, time_ms, last_time_ms) =~= Seq::empty());
    let r = fired_actions(seq![e], stats, time_ms, last_time_ms);
    if last_time_ms <= e.time_ms && e.time_ms < time_ms && event_action(e, stats) is Some {
        assert(r =~= seq![event_action(e, stats).unwrap()]);
    }
}

/// What the game's skills do in a window that starts at `l` and ends at `t`:
/// skills 1, 3 and 4 hit a circle of radius 2 m exactly when the window holds
/// 300 ms; skill 2 sets the caster's hit points to its maximum exactly when the
/// window holds 0 ms and the caster is not at its maximum.
pub proof fn lemma_skill_table_actions(m: Map<u32, Skill>, stats: Seq<u32>, t: u64, l: u64)
    requires
        is_skill_table(m),
        stats.len() > Stats::MaxHp,
        stats[Stats::Hp as int] + 100 <= u32::MAX,
    ensures
        m.dom() == set![1u32, 2u32, 3u32, 4u32],
        forall|id: u32|
            (id == 1 || id == 3 || id == 4) ==> #[trigger] fired_actions(m[id].events@, stats, t, l) == (if l <= 300
                < t {
                seq![SkillAction::AttackCircle { radius_mm: 2000 }]
            } else {
                Seq::<SkillAction>::empty()
            }),
        fired_actions(m[2].events@, stats, t, l) == (if l == 0 && 0 < t && stats[Stats::Hp as int]
            != stats[Stats::MaxHp as int] {
            seq![SkillAction::SetHp { value: stats[Stats::MaxHp as int] }]
        } else {
            Seq::<SkillAction>::empty()
        }),
        m[1].anim == Animation::Attack01 && m[2].anim == Animation::DefendStart && m[3].anim
            == Animation::Attack02Start && m[4].anim == Animation::Attack04,
        m[1].time_ms == 1000 && m[2].time_ms == 500 && m[3].time_ms == 1000 && m[4].time_ms == 1000,
        forall|id: u32| #[trigger] m.contains_key(id) ==> m[id].cost_mp == 10 && m[id].cost_hp == 0,
{
    let attack = SkillEvent { time_ms: 300, def: SkillEventDef::AttackCircle { radius_mm: 2000 } };
    let heal = SkillEvent { time_ms: 0, def: SkillEventDef::HealHp { value: 100 } };
    lemma_single_event(attack, stats, t, l);
    lemma_single_event(heal, stats, t, l);
    assert(m[1].events@ == seq![attack]);
    assert(m[3].events@ == seq![attack]);
    assert(m[4].events@ == seq![attack]);
    assert(m[2].events@ == seq![heal]);
}

} // verus!
