//! Which of its weapons a character holds.
//!
//! A character carries a list of weapons and the key of the one in hand,
//! which is its place in that list. A key that points past the list is
//! never stored by correct spawning; whoever meets one must stop rather
//! than go on with a weapon that is not there.

use vstd::prelude::*;

verus! {

/// The key of a weapon: its place in the list of weapons.
pub type WeaponKey = u32;

/// The place of the active weapon among `weapon_count` weapons, or `None`
/// where the key points past the last of them.
pub fn active_weapon_index(weapon_count: usize, active_weapon: WeaponKey) -> (index: Option<usize>)
    ensures
        index == if (active_weapon as int) < (weapon_count as int) {
            Some(active_weapon as usize)
        } else {
            None::<usize>
        },
{
    let place = active_weapon as usize;
    if place < weapon_count {
        Some(place)
    } else {
        None
    }
}

} // verus!
