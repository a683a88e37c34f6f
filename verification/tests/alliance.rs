use sc2_core::game_state::Alliance;

#[test]
fn alliance_checks_tell_the_variants_apart() {
    assert!(Alliance::Own.is_mine());
    assert!(!Alliance::Own.is_enemy());
    assert!(Alliance::Enemy.is_enemy());
    assert!(Alliance::Neutral.is_neutral());
    assert!(Alliance::Ally.is_ally());
    assert!(!Alliance::Ally.is_mine());
}
