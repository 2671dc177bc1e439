//! Preferences of a creature: what it likes and hates.

use vstd::prelude::*;
use crate::items::{ItemType, MaterialState};
use crate::memory::ProcessMemory;

verus! {

#[derive(PartialEq, Eq, Structural, Clone, Copy, Debug)]
pub enum PreferenceType {
    LikesNone,
    LikeMaterial,
    LikeCreature,
    LikeFood,
    HateCreature,
    LikeItem,
    LikePlant,
    LikeTree,
    LikeColor,
    LikeShape,
    LikePoetry,
    LikeMusic,
    LikeDance,
    LikeOutdoors,
}

impl PreferenceType {
    pub open spec fn code(self) -> int {
        match self {
            PreferenceType::LikesNone => -1,
            PreferenceType::LikeMaterial => 0,
            PreferenceType::LikeCreature => 1,
            PreferenceType::LikeFood => 2,
            PreferenceType::HateCreature => 3,
            PreferenceType::LikeItem => 4,
            PreferenceType::LikePlant => 5,
            PreferenceType::LikeTree => 6,
            PreferenceType::LikeColor => 7,
            PreferenceType::LikeShape => 8,
            PreferenceType::LikePoetry => 9,
            PreferenceType::LikeMusic => 10,
            PreferenceType::LikeDance => 11,
            PreferenceType::LikeOutdoors => 99,
        }
    }

    pub fn from_i32(v: i32) -> (r: PreferenceType)
        ensures
            r == PreferenceType::LikesNone || r.code() == v,
            (0 <= v <= 11 || v == 99) ==> r.code() == v,
            !(0 <= v <= 11 || v == 99) ==> r == PreferenceType::LikesNone,
    {
        match v {
            0 => PreferenceType::LikeMaterial,
            1 => PreferenceType::LikeCreature,
            2 => PreferenceType::LikeFood,
            3 => PreferenceType::HateCreature,
            4 => PreferenceType::LikeItem,
            5 => PreferenceType::LikePlant,
            6 => PreferenceType::LikeTree,
            7 => PreferenceType::LikeColor,
            8 => PreferenceType::LikeShape,
            9 => PreferenceType::LikePoetry,
            10 => PreferenceType::LikeMusic,
            11 => PreferenceType::LikeDance,
            99 => PreferenceType::LikeOutdoors,
            _ => PreferenceType::LikesNone,
        }
    }
}

/// One preference record.
pub struct Preference {
    pub pref_type: PreferenceType,
    pub id: i32,
    pub item_subtype: i32,
    pub mat_type: i32,
    pub mat_index: i32,
    pub mat_state: MaterialState,
    pub item_type: ItemType,
}

impl Preference {
    /// Decodes the preference record at `addr`: kind, id, item subtype,
    /// material type, material index and material state, four bytes each.
    pub fn new(mem: &ProcessMemory, addr: u64) -> (r: Preference)
        ensures
            r.id as int == mem.i32_at(addr + 4),
            r.item_subtype as int == mem.i32_at(addr + 8),
            r.mat_type as int == mem.i32_at(addr + 12),
            r.mat_index as int == mem.i32_at(addr + 16),
            ({
                let v = mem.i32_at(addr as int);
                &&& (0 <= v <= 11 || v == 99) ==> r.pref_type.code() == v
                &&& !(0 <= v <= 11 || v == 99) ==> r.pref_type == PreferenceType::LikesNone
            }),
            r.item_type == ItemType::NoItem || r.item_type.code() == r.id,
            r.item_type == ItemType::NoItem ==> forall|t: ItemType| t.code() != r.id || t == ItemType::NoItem,
            r.mat_state == crate::items::material_state_of(mem.i32_at(addr + 20)),
    {
        let id = mem.read_i32(addr, 4);
        Preference {
            pref_type: PreferenceType::from_i32(mem.read_i32(addr, 0)),
            id,
            item_subtype: mem.read_i32(addr, 8),
            mat_type: mem.read_i32(addr, 12),
            mat_index: mem.read_i32(addr, 16),
            mat_state: MaterialState::from_i32(mem.read_i32(addr, 20)),
            item_type: ItemType::from_i32(id),
        }
    }
}

} // verus!
