use vstd::prelude::*;
use vstd::string::StringExecFns;
use std::collections::HashMap;

use crate::common::{animation_name, animation_path, Animation, Stats};

verus! {

/// A unit's stats, indexed by the constants of `Stats`.
pub type UnitStats = Vec<u32>;

/// The ids of the skills that a unit can use.
pub type UnitSkills = Vec<u32>;

/// `s` with every match of `from` replaced by `to`, the matches taken from the
/// left and not overlapping.
pub open spec fn replace_all(s: Seq<char>, from: Seq<char>, to: Seq<char>) -> Seq<char>
    decreases s.len(),
{
    if s.len() == 0 || from.len() == 0 {
        s
    } else if from.len() <= s.len() && s.take(from.len() as int) == from {
        to + replace_all(s.skip(from.len() as int), from, to)
    } else {
        seq![s[0]] + replace_all(s.drop_first(), from, to)
    }
}

/// `str::replace` on a non-empty pattern. Claims that the result is the string with
/// every match of `from`, taken from the left and not overlapping, replaced by `to`,
/// as its documentation states.
#[verifier::external_body]
fn str_replace(s: &str, from: &str, to: &str) -> (r: String)
    requires
        from@.len() > 0,
    ensures
        r@ == replace_all(s@, from@, to@),
{
    s.replace(from, to)
}

/// The stats every unit starts with: 200 hit points, 100 mana, attack 50 and
/// defense 20, and 0 in every other entry.
pub open spec fn default_stats() -> Seq<u32> {
    Seq::new(
        Stats::Count as nat,
        |i: int|
            if i == Stats::Hp || i == Stats::MaxHp {
                200u32
            } else if i == Stats::Mp || i == Stats::MaxMp {
                100u32
            } else if i == Stats::Attack {
                50u32
            } else if i == Stats::Defense {
                20u32
            } else {
                0u32
            },
    )
}

/// Builds the stats every unit starts with.
pub fn default_unit_stats() -> (stats: UnitStats)
    ensures
        stats@ == default_stats(),
{
    let mut stats: UnitStats = Vec::new();
    stats.resize(Stats::Count, 0);
    stats[Stats::MaxHp] = 200;
    stats[Stats::MaxMp] = 100;
    stats[Stats::Attack] = 50;
    stats[Stats::Defense] = 20;
    stats[Stats::Hp] = stats[Stats::MaxHp];
    stats[Stats::Mp] = stats[Stats::MaxMp];
    assert(stats@ =~= default_stats());
    stats
}

/// The skills of a player's wizard.
pub fn player_skills() -> (skills: UnitSkills)
    ensures
        skills@ == seq![1u32, 2u32, 3u32, 4u32],
{
    let mut skills: UnitSkills = Vec::new();
    skills.push(1);
    skills.push(2);
    skills.push(3);
    skills.push(4);
    assert(skills@ =~= seq![1u32, 2u32, 3u32, 4u32]);
    skills
}

/// The skills of a computer-controlled wizard.
pub fn npc_skills() -> (skills: UnitSkills)
    ensures
        skills@ == seq![1u32],
{
    let mut skills: UnitSkills = Vec::new();
    skills.push(1);
    assert(skills@ =~= seq![1u32]);
    skills
}

/// A kind of unit: its id, the time it takes to come back (ms), its model,
/// the template of its clip paths (with `{}` standing for the clip's name),
/// its starting stats and its skills.
pub struct Unit {
    pub id: u32,
    pub reborn_time_ms: u64,
    pub model: String,
    pub anim_path: String,
    pub stats: UnitStats,
    pub skills: UnitSkills,
}

impl Unit {
    /// The path of a clip of this unit: its template with `{}` replaced by the clip's name.
    pub fn get_anim_path(&self, anim: Animation) -> (r: String)
        ensures
            r@ == replace_all(self.anim_path@, "{}"@, animation_name(anim)),
    {
        proof {
            reveal_strlit("{}");
        }
        str_replace(self.anim_path.as_str(), "{}", anim.name())
    }
}

/// The model of the wizard.
pub open spec fn wizard_model() -> Seq<char> {
    "assets/WizardPolyArt/Mesh/PolyArtWizardMesh.fbx"@
}

/// The template of the wizard's clip paths.
pub open spec fn wizard_anim_template() -> Seq<char> {
    "assets/WizardPolyArt/Animations/{}.fbx/animations/Take 001.anim"@
}

/// Whether `u` is a wizard with id `id` and skills `skills`.
pub open spec fn is_wizard(u: Unit, id: u32, skills: Seq<u32>) -> bool {
    &&& u.id == id
    &&& u.reborn_time_ms == 5000
    &&& u.model@ == wizard_model()
    &&& u.anim_path@ == wizard_anim_template()
    &&& u.stats@ == default_stats()
    &&& u.skills@ == skills
}

/// The units of the game: wizard 1 with skills 1 to 4 and wizard 2 with skill 1.
pub open spec fn is_unit_table(m: Map<u32, Unit>) -> bool {
    &&& m.dom() == set![1u32, 2u32]
    &&& is_wizard(m[1], 1, seq![1u32, 2u32, 3u32, 4u32])
    &&& is_wizard(m[2], 2, seq![1u32])
}

/// The table of units, by id.
pub struct UnitManager {
    units: HashMap<u32, Unit>,
}

impl View for UnitManager {
    type V = Map<u32, Unit>;

    closed spec fn view(&self) -> Map<u32, Unit> {
        self.units@
    }
}

impl UnitManager {
    pub fn new() -> (r: UnitManager)
        ensures
            is_unit_table(r@),
    {
        broadcast use vstd::std_specs::hash::group_hash_axioms;

        let mut units: HashMap<u32, Unit> = HashMap::new();
        let id: u32 = 1;
        units.insert(
            id,
            Unit {
                id: id,
                reborn_time_ms: 5000,
                model: String::from_str("assets/WizardPolyArt/Mesh/PolyArtWizardMesh.fbx"),
                anim_path: String::from_str(
                    "assets/WizardPolyArt/Animations/{}.fbx/animations/Take 001.anim",
                ),
                stats: default_unit_stats(),
                skills: player_skills(),
            },
        );
        let id: u32 = 2;
        units.insert(
            id,
            Unit {
                id: id,
                reborn_time_ms: 5000,
                model: String::from_str("assets/WizardPolyArt/Mesh/PolyArtWizardMesh.fbx"),
                anim_path: String::from_str(
                    "assets/WizardPolyArt/Animations/{}.fbx/animations/Take 001.anim",
                ),
                stats: default_unit_stats(),
                skills: npc_skills(),
            },
        );
        let r = UnitManager { units };
        assert(r@.dom() =~= set![1u32, 2u32]);
        r
    }

    /// The unit with id `id`, if there is one.
    pub fn get(&self, id: u32) -> (r: Option<&Unit>)
        ensures
            match r {
                Some(u) => self@.contains_key(id) && *u == self@[id],
                None => !self@.contains_key(id),
            },
    {
        broadcast use vstd::std_specs::hash::group_hash_axioms;

        self.units.get(&id)
    }
}

/// Replacing in `p + rest`, where no character of `p` starts the pattern, keeps `p`
/// and replaces in `rest`.
proof fn lemma_replace_skips_prefix(p: Seq<char>, rest: Seq<char>, from: Seq<char>, to: Seq<char>)
    requires
        from.len() > 0,
        forall|i: int| 0 <= i < p.len() ==> p[i] != from[0],
    ensures
        replace_all(p + rest, from, to) == p + replace_all(rest, from, to),
    decreases p.len(),
{
    if p.len() > 0 {
        let s = p + rest;
        assert(s[0] == p[0]);
        if from.len() <= s.len() {
            assert(s.take(from.len() as int)[0] == p[0]);
        }
        assert(s.drop_first() =~= p.drop_first() + rest);
        lemma_replace_skips_prefix(p.drop_first(), rest, from, to);
        assert(p =~= seq![p[0]] + p.drop_first());
    } else {
        assert(p + rest =~= rest);
    }
}

/// Replacing in a string that starts with the pattern gives the replacement
/// followed by the replaced rest.
proof fn lemma_replace_at_match(rest: Seq<char>, from: Seq<char>, to: Seq<char>)
    requires
        from.len() > 0,
    ensures
        replace_all(from + rest, from, to) == to + replace_all(rest, from, to),
{
    let s = from + rest;
    assert(s.take(from.len() as int) =~= from);
    assert(s.skip(from.len() as int) =~= rest);
}

/// The clip path that a wizard's template gives for a clip is the clip's path.
pub proof fn lemma_wizard_anim_path(a: Animation)
    ensures
        replace_all(wizard_anim_template(), "{}"@, animation_name(a)) == animation_path(a),
{
    reveal_strlit("assets/WizardPolyArt/Animations/{}.fbx/animations/Take 001.anim");
    reveal_strlit("assets/WizardPolyArt/Animations/");
    reveal_strlit(".fbx/animations/Take 001.anim");
    reveal_strlit("{}");
    let p = "assets/WizardPolyArt/Animations/"@;
    let q = ".fbx/animations/Take 001.anim"@;
    let from = "{}"@;
    let name = animation_name(a);
    assert(wizard_anim_template() =~= p + (from + q));
    assert(from[0] == '{');
    lemma_replace_skips_prefix(p, from + q, from, name);
    lemma_replace_at_match(q, from, name);
    lemma_replace_skips_prefix(q, Seq::empty(), from, name);
    assert(q + Seq::<char>::empty() =~= q);
    assert(p + (name + q) =~= p + name + q);
}

/// For every unit of the game, the path of a clip is the clip's own path.
pub proof fn lemma_unit_anim_paths(m: Map<u32, Unit>, id: u32, a: Animation)
    requires
        is_unit_table(m),
        m.contains_key(id),
    ensures
        replace_all(m[id].anim_path@, "{}"@, animation_name(a)) == animation_path(a),
{
    lemma_wizard_anim_path(a);
}

/// Every unit of the game starts with full hit points and mana (200 and 100),
/// attack 50 and defense 20, in a stats vector with an entry for every index of
/// `Stats`, and every skill a unit has is in the skill table.
pub proof fn lemma_units_start_ready(units: Map<u32, Unit>, skills: Map<u32, crate::skill::Skill>, id: u32)
    requires
        is_unit_table(units),
        crate::skill::is_skill_table(skills),
        units.contains_key(id),
    ensures
        units[id].id == id,
        units[id].stats@.len() == Stats::Count,
        units[id].stats@[Stats::Hp as int] == units[id].stats@[Stats::MaxHp as int],
        units[id].stats@[Stats::Mp as int] == units[id].stats@[Stats::MaxMp as int],
        units[id].stats@[Stats::MaxHp as int] == 200,
        units[id].stats@[Stats::MaxMp as int] == 100,
        units[id].stats@[Stats::Attack as int] == 50,
        units[id].stats@[Stats::Defense as int] == 20,
        forall|i: int| 0 <= i < units[id].skills@.len() ==> skills.contains_key(#[trigger] units[id].skills@[i]),
        units[id].skills@.len() > 0 && units[id].skills@[0] == 1,
        id == 1 ==> units[id].skills@.len() == 4,
        id == 2 ==> units[id].skills@.len() == 1,
{
    assert(skills.dom().contains(1u32) && skills.dom().contains(2u32) && skills.dom().contains(3u32) && skills.dom().contains(4u32));
}

} // verus!
