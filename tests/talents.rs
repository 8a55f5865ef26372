use hodlwarz_combat::{
    allocate_talent, max_rank_for_talent, register_player, reset_talents, talent_prerequisite,
    CombatError, PlayerState,
};

fn with_points(points_level_xp: u64) -> PlayerState {
    let mut p = register_player([1u8; 32]);
    p.xp = points_level_xp;
    p
}

#[test]
fn first_point_at_level_one() {
    let mut p = with_points(0);
    assert_eq!(allocate_talent(&mut p, 0), Ok(()));
    assert_eq!(p.talents[0], 1);
    assert!(p.manual_build);
    assert_eq!(p.total_talent_points_spent(), 1);
    let before = p;
    assert_eq!(allocate_talent(&mut p, 0), Err(CombatError::NoTalentPoints));
    assert_eq!(p, before);
}

#[test]
fn each_allocation_spends_one_point() {
    // level 100: 50 points
    let mut p = with_points(u64::MAX);
    let mut spent = 0u16;
    for slot in [0u8, 0, 1, 2, 3, 4, 5, 6] {
        assert_eq!(allocate_talent(&mut p, slot), Ok(()));
        spent += 1;
        assert_eq!(p.total_talent_points_spent(), spent);
    }
}

#[test]
fn prerequisite_chain() {
    let mut p = with_points(u64::MAX);
    assert_eq!(allocate_talent(&mut p, 1), Err(CombatError::PrerequisiteNotMet));
    assert_eq!(allocate_talent(&mut p, 0), Ok(()));
    assert_eq!(allocate_talent(&mut p, 1), Ok(()));
    // area-damage tree: 15 -> 16 -> 19 -> 18 -> 17
    assert_eq!(allocate_talent(&mut p, 15), Ok(()));
    assert_eq!(allocate_talent(&mut p, 19), Err(CombatError::PrerequisiteNotMet));
    assert_eq!(allocate_talent(&mut p, 16), Ok(()));
    assert_eq!(allocate_talent(&mut p, 17), Err(CombatError::PrerequisiteNotMet));
    assert_eq!(allocate_talent(&mut p, 19), Ok(()));
    assert_eq!(allocate_talent(&mut p, 18), Ok(()));
    assert_eq!(allocate_talent(&mut p, 17), Ok(()));
}

#[test]
fn rank_caps() {
    let mut p = with_points(u64::MAX);
    for _ in 0..5 {
        assert_eq!(allocate_talent(&mut p, 0), Ok(()));
    }
    assert_eq!(allocate_talent(&mut p, 0), Err(CombatError::TalentMaxed));
    p.talents = [1u8; 25];
    for _ in 0..2 {
        assert_eq!(allocate_talent(&mut p, 4), Ok(()));
    }
    assert_eq!(p.talents[4], 3);
    assert_eq!(allocate_talent(&mut p, 4), Err(CombatError::TalentMaxed));
}

#[test]
fn third_capstone_refused() {
    let mut p = with_points(u64::MAX);
    p.talents = [1u8; 25];
    for cap in [4usize, 9, 14, 17, 24] {
        p.talents[cap] = 0;
    }
    assert_eq!(allocate_talent(&mut p, 4), Ok(()));
    assert_eq!(allocate_talent(&mut p, 9), Ok(()));
    let before = p;
    assert_eq!(allocate_talent(&mut p, 14), Err(CombatError::MaxCapstones));
    assert_eq!(allocate_talent(&mut p, 24), Err(CombatError::MaxCapstones));
    assert_eq!(p, before);
    // an already held capstone can still grow
    assert_eq!(allocate_talent(&mut p, 9), Ok(()));
    assert_eq!(p.talents[9], 2);
}

#[test]
fn invalid_slot_and_unregistered() {
    let mut p = with_points(u64::MAX);
    assert_eq!(allocate_talent(&mut p, 25), Err(CombatError::InvalidTalentId));
    p.initialized = false;
    assert_eq!(allocate_talent(&mut p, 0), Err(CombatError::NotInitialized));
    assert_eq!(reset_talents(&mut p), Err(CombatError::NotInitialized));
}

#[test]
fn reset_clears_ranks() {
    let mut p = with_points(u64::MAX);
    allocate_talent(&mut p, 0).unwrap();
    allocate_talent(&mut p, 5).unwrap();
    let xp = p.xp;
    assert_eq!(reset_talents(&mut p), Ok(()));
    assert_eq!(p.talents, [0u8; 25]);
    assert!(p.manual_build);
    assert_eq!(p.xp, xp);
    assert_eq!(p.total_talent_points_spent(), 0);
}

#[test]
fn talent_accessors() {
    let mut p = register_player([2u8; 32]);
    p.set_talent(7, 4);
    assert_eq!(p.get_talent(7), 4);
    assert_eq!(p.talents[7], 4);
    p.set_talent(30, 4);
    assert_eq!(p.get_talent(30), 0);
    p.talents = [255u8; 25];
    assert_eq!(p.total_talent_points_spent(), 6375);
}

#[test]
fn slot_tables() {
    assert_eq!(max_rank_for_talent(0), 5);
    assert_eq!(max_rank_for_talent(17), 3);
    assert_eq!(max_rank_for_talent(24), 3);
    assert_eq!(max_rank_for_talent(25), 0);
    assert_eq!(talent_prerequisite(0), None);
    assert_eq!(talent_prerequisite(20), None);
    assert_eq!(talent_prerequisite(9), Some(8));
    assert_eq!(talent_prerequisite(19), Some(16));
    assert_eq!(talent_prerequisite(17), Some(18));
    assert_eq!(talent_prerequisite(200), None);
}
