use wizard_battle::common::{Animation, Stats};
use wizard_battle::unit::{default_unit_stats, npc_skills, player_skills, UnitManager};

#[test]
fn default_stats_values() {
    let s = default_unit_stats();
    assert_eq!(s.len(), Stats::Count);
    assert_eq!(s[Stats::Hp], 200);
    assert_eq!(s[Stats::MaxHp], 200);
    assert_eq!(s[Stats::Mp], 100);
    assert_eq!(s[Stats::MaxMp], 100);
    assert_eq!(s[Stats::Attack], 50);
    assert_eq!(s[Stats::Defense], 20);
    assert_eq!(s[Stats::Speed], 0);
    assert_eq!(s[15], 0);
}

#[test]
fn skill_lists() {
    assert_eq!(player_skills(), vec![1, 2, 3, 4]);
    assert_eq!(npc_skills(), vec![1]);
}

#[test]
fn unit_table() {
    let m = UnitManager::new();
    let u1 = m.get(1).unwrap();
    assert_eq!(u1.id, 1);
    assert_eq!(u1.reborn_time_ms, 5000);
    assert_eq!(u1.model, "assets/WizardPolyArt/Mesh/PolyArtWizardMesh.fbx");
    assert_eq!(u1.skills, vec![1, 2, 3, 4]);
    assert_eq!(u1.stats, default_unit_stats());
    let u2 = m.get(2).unwrap();
    assert_eq!(u2.id, 2);
    assert_eq!(u2.skills, vec![1]);
    assert!(m.get(0).is_none());
    assert!(m.get(3).is_none());
}

#[test]
fn unit_anim_path_matches_clip_path() {
    let m = UnitManager::new();
    for id in [1u32, 2] {
        let u = m.get(id).unwrap();
        for v in 0..=18u8 {
            let a = Animation::from(v);
            assert_eq!(u.get_anim_path(a), a.path());
        }
        assert_eq!(u.get_anim_path(Animation::DefendStart), Animation::DefendStart.path());
    }
}

#[test]
fn anim_path_replaces_every_placeholder() {
    let custom = wizard_battle::unit::Unit {
        id: 9,
        reborn_time_ms: 0,
        model: String::new(),
        anim_path: "{}/{}-{x}".to_string(),
        stats: Vec::new(),
        skills: Vec::new(),
    };
    assert_eq!(custom.get_anim_path(Animation::Die), "Die/Die-{x}");
    assert_eq!(custom.get_anim_path(Animation::GetHit), "GetHit/GetHit-{x}");
}
