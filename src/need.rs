//! Needs of a creature and how well each is met.

use vstd::prelude::*;
use crate::layout::{MemoryOffsets, OffsetSection};
use crate::memory::ProcessMemory;

verus! {

/// The seven ordered qualitative bands of a need's focus level.
#[derive(PartialEq, Eq, Structural, Clone, Copy, Debug)]
pub enum FocusDegree {
    BadlyDistracted,
    Distracted,
    Unfocused,
    NotDistracted,
    Untroubled,
    LevelHeaded,
    Unfettered,
}

pub open spec fn degree_of(level: int) -> FocusDegree {
    if level <= -100000 {
        FocusDegree::BadlyDistracted
    } else if level <= -10000 {
        FocusDegree::Distracted
    } else if level <= -1000 {
        FocusDegree::Unfocused
    } else if level <= 100 {
        FocusDegree::NotDistracted
    } else if level <= 200 {
        FocusDegree::Untroubled
    } else if level <= 300 {
        FocusDegree::LevelHeaded
    } else {
        FocusDegree::Unfettered
    }
}

pub struct FocusLevel {
    pub level: i32,
    pub degree: FocusDegree,
}

impl FocusLevel {
    pub fn from_level(level: i32) -> (r: FocusLevel)
        ensures
            r.level == level,
            r.degree == degree_of(level as int),
    {
        let degree = if level <= -100000 {
            FocusDegree::BadlyDistracted
        } else if level <= -10000 {
            FocusDegree::Distracted
        } else if level <= -1000 {
            FocusDegree::Unfocused
        } else if level <= 100 {
            FocusDegree::NotDistracted
        } else if level <= 200 {
            FocusDegree::Untroubled
        } else if level <= 300 {
            FocusDegree::LevelHeaded
        } else {
            FocusDegree::Unfettered
        };
        FocusLevel { level, degree }
    }

    /// The band's display text.
    pub fn label(&self) -> (r: &'static str)
        ensures
            self.degree == FocusDegree::BadlyDistracted ==> r@ == "Badly Distracted"@,
            self.degree == FocusDegree::Distracted ==> r@ == "Distracted"@,
            self.degree == FocusDegree::Unfocused ==> r@ == "Unfocused"@,
            self.degree == FocusDegree::NotDistracted ==> r@ == "Not Distracted"@,
            self.degree == FocusDegree::Untroubled ==> r@ == "Untroubled"@,
            self.degree == FocusDegree::LevelHeaded ==> r@ == "Level Headed"@,
            self.degree == FocusDegree::Unfettered ==> r@ == "Unfettered"@,
    {
        match self.degree {
            FocusDegree::BadlyDistracted => "Badly Distracted",
            FocusDegree::Distracted => "Distracted",
            FocusDegree::Unfocused => "Unfocused",
            FocusDegree::NotDistracted => "Not Distracted",
            FocusDegree::Untroubled => "Untroubled",
            FocusDegree::LevelHeaded => "Level Headed",
            FocusDegree::Unfettered => "Unfettered",
        }
    }
}

/// A need of a creature.
pub struct Need {
    pub id: i32,
    pub deity_id: i32,
    pub need_level: i32,
    pub focus_level: FocusLevel,
}

impl Need {
    /// Decodes the need record at `address`.
    pub fn new(mem: &ProcessMemory, layout: &MemoryOffsets, address: u64) -> (r: Need)
        ensures
            r.id as int == mem.i32_at(address + layout.off(OffsetSection::Need, "id"@)),
            r.deity_id as int == mem.i32_at(address + layout.off(OffsetSection::Need, "deity_id"@)),
            r.need_level as int == mem.i32_at(address + layout.off(OffsetSection::Need, "need_level"@)),
            r.focus_level.level as int == mem.i32_at(address + layout.off(OffsetSection::Need, "focus_level"@)),
            r.focus_level.degree == degree_of(r.focus_level.level as int),
    {
        let id = mem.read_i32(address, layout.field_offset(OffsetSection::Need, "id"));
        let deity_id = mem.read_i32(address, layout.field_offset(OffsetSection::Need, "deity_id"));
        let need_level = mem.read_i32(address, layout.field_offset(OffsetSection::Need, "need_level"));
        let level = mem.read_i32(address, layout.field_offset(OffsetSection::Need, "focus_level"));
        Need { id, deity_id, need_level, focus_level: FocusLevel::from_level(level) }
    }
}

} // verus!
