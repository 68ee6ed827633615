use boxman::weapons::active_weapon_index;

#[test]
fn key_within_the_weapons_is_its_place() {
    assert_eq!(active_weapon_index(3, 0), Some(0));
    assert_eq!(active_weapon_index(3, 2), Some(2));
    assert_eq!(active_weapon_index(1, 0), Some(0));
}

#[test]
fn key_past_the_weapons_has_no_place() {
    assert_eq!(active_weapon_index(3, 3), None);
    assert_eq!(active_weapon_index(3, u32::MAX), None);
    assert_eq!(active_weapon_index(0, 0), None);
}
