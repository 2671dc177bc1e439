//! Syndromes of a creature, and the curse that their names reveal.

use vstd::prelude::*;
use crate::layout::{MemoryOffsets, OffsetSection};
use crate::memory::{ProcessMemory, POINTER_SIZE};
use crate::text::{contains_str, has_run, lower_of, lowercase, read_string, string_at};

verus! {

#[derive(PartialEq, Eq, Structural, Clone, Copy, Debug)]
pub enum CurseType {
    Uncursed,
    Vampire,
    Werebeast,
    Other,
}

/// A curse, with its display name.
pub struct Curse {
    pub name: String,
    pub curse_type: CurseType,
}

/// The curse that a lower-cased syndrome name reveals.
pub open spec fn curse_of(lowered: Seq<char>) -> CurseType {
    if has_run(lowered, "vampcurse"@) {
        CurseType::Vampire
    } else if has_run(lowered, "werecurse"@) {
        CurseType::Werebeast
    } else if has_run(lowered, "curse"@) {
        CurseType::Other
    } else {
        CurseType::Uncursed
    }
}

pub open spec fn curse_name(t: CurseType) -> Seq<char> {
    match t {
        CurseType::Vampire => "Vampirism"@,
        CurseType::Werebeast => "Werebeast"@,
        CurseType::Other => "Curse"@,
        CurseType::Uncursed => ""@,
    }
}

impl Curse {
    pub fn none() -> (r: Curse)
        ensures
            r.curse_type == CurseType::Uncursed,
            r.name@ == curse_name(CurseType::Uncursed),
    {
        Curse { name: String::from_str(""), curse_type: CurseType::Uncursed }
    }

    /// The curse that an already lower-cased name reveals.
    pub fn from_lowered(lowered: &str) -> (r: Curse)
        ensures
            r.curse_type == curse_of(lowered@),
            r.name@ == curse_name(r.curse_type),
    {
        if contains_str(lowered, "vampcurse") {
            Curse { name: String::from_str("Vampirism"), curse_type: CurseType::Vampire }
        } else if contains_str(lowered, "werecurse") {
            Curse { name: String::from_str("Werebeast"), curse_type: CurseType::Werebeast }
        } else if contains_str(lowered, "curse") {
            Curse { name: String::from_str("Curse"), curse_type: CurseType::Other }
        } else {
            Curse::none()
        }
    }

    /// The curse that a syndrome's display name reveals, ignoring case.
    pub fn classify(display_name: &str) -> (r: Curse)
        ensures
            r.curse_type == curse_of(lower_of(display_name@)),
            r.name@ == curse_name(r.curse_type),
    {
        let l = lowercase(display_name);
        Curse::from_lowered(l.as_str())
    }
}

/// An active syndrome of a creature.
pub struct Syndrome {
    pub addr: u64,
    pub id: i32,
    pub name: String,
    pub is_sickness: u8,
    pub has_transform: bool,
    pub transform_race: i32,
    pub class_names: Vec<String>,
}

/// Strings joined with a comma and a space between each two.
pub open spec fn comma_joined(parts: Seq<Seq<char>>) -> Seq<char>
    decreases parts.len(),
{
    if parts.len() == 0 {
        Seq::empty()
    } else if parts.len() == 1 {
        parts[0]
    } else {
        comma_joined(parts.drop_last()) + ", "@ + parts.last()
    }
}

/// The kind of the syndrome effect at `e`, read through its vtable.
pub open spec fn effect_kind(mem: &ProcessMemory, e: int) -> int {
    mem.i32_at(mem.u64_at(mem.u64_at(e)) + 1)
}

/// Effect kinds the decoder knows: transformation and attribute changes.
pub open spec fn known_effect(k: int) -> bool {
    k == 24 || k == 25 || k == 26
}

/// The display name of a syndrome with this name and these class names.
pub open spec fn display_of(name: Seq<char>, classes: Seq<Seq<char>>) -> Seq<char> {
    if classes.len() == 0 {
        "???"@
    } else {
        name + ": "@ + comma_joined(classes)
    }
}

/// The curse of a creature: that of the last syndrome whose display name
/// reveals one.
pub open spec fn last_curse(displays: Seq<Seq<char>>) -> CurseType
    decreases displays.len(),
{
    if displays.len() == 0 {
        CurseType::Uncursed
    } else if curse_of(lower_of(displays.last())) != CurseType::Uncursed {
        curse_of(lower_of(displays.last()))
    } else {
        last_curse(displays.drop_last())
    }
}

/// Whether any effect of the array at `addr + off` transforms, and whether
/// every one of them is of a known kind.
fn scan_effects(mem: &ProcessMemory, addr: u64, off: u64) -> (r: (bool, bool))
    ensures
        ({
            let e = addr + off;
            let n = mem.vec_len(e, POINTER_SIZE as int);
            &&& r.0 == exists|k: int| 0 <= k < n && #[trigger] effect_kind(mem, mem.vec_ptr(e, k)) == 24
            &&& r.1 == forall|k: int| 0 <= k < n ==> known_effect(#[trigger] effect_kind(mem, mem.vec_ptr(e, k)))
        }),
{
    let effects = mem.read_pointer_vector(addr, off);
    let ghost e = addr + off;
    let mut has_transform = false;
    let mut all_known = true;
    let mut j: usize = 0;
    while j < effects.len()
        invariant
            j <= effects@.len(),
            e == addr + off,
            effects@.len() == mem.vec_len(e, POINTER_SIZE as int),
            forall|k: int| 0 <= k < effects@.len() ==> (#[trigger] effects@[k]) as int == mem.vec_ptr(e, k),
            has_transform == exists|k: int| 0 <= k < j && #[trigger] effect_kind(mem, mem.vec_ptr(e, k)) == 24,
            all_known == forall|k: int| 0 <= k < j ==> known_effect(#[trigger] effect_kind(mem, mem.vec_ptr(e, k))),
        decreases effects@.len() - j,
    {
        let vtable_addr = mem.read_u64(effects[j], 0);
        let vtable = mem.read_u64(vtable_addr, 0);
        let effect_type = mem.read_i32(vtable, 1);
        assert(effect_type as int == effect_kind(mem, mem.vec_ptr(e, j as int)));
        if effect_type == 24 {
            has_transform = true;
        } else if effect_type != 25 && effect_type != 26 {
            all_known = false;
        }
        j = j + 1;
    }
    (has_transform, all_known)
}

impl Syndrome {
    pub open spec fn class_views(&self) -> Seq<Seq<char>> {
        self.class_names@.map_values(|c: String| c@)
    }

    /// The display name: the name followed by the class names joined with
    /// commas, or `???` for a syndrome without classes.
    pub fn display_name(&self) -> (r: String)
        ensures
            r@ == display_of(self.name@, self.class_views()),
    {
        if self.class_names.len() == 0 {
            return String::from_str("???");
        }
        let mut joined = String::new();
        let mut i: usize = 0;
        while i < self.class_names.len()
            invariant
                i <= self.class_names@.len(),
                joined@ == comma_joined(self.class_views().subrange(0, i as int)),
            decreases self.class_names@.len() - i,
        {
            proof {
                let p = self.class_views().subrange(0, i as int + 1);
                assert(p.drop_last() =~= self.class_views().subrange(0, i as int));
                if i == 0 {
                    assert(p.len() == 1);
                }
            }
            if i > 0 {
                joined.append(", ");
            }
            joined.append(self.class_names[i].as_str());
            i = i + 1;
        }
        assert(self.class_views().subrange(0, i as int) =~= self.class_views());
        let mut out = self.name.clone();
        out.append(": ");
        out.append(joined.as_str());
        out
    }

    /// Decodes the syndrome whose id is at `id_addr`, resolving the id
    /// through the table of all syndromes. An id outside the table gives a
    /// syndrome with that id and nothing else.
    pub fn new(mem: &ProcessMemory, layout: &MemoryOffsets, syndromes: &Vec<u64>, id_addr: u64) -> (r: Syndrome)
        ensures
            r.id as int == mem.i32_at(id_addr as int),
            0 <= r.id < syndromes@.len() ==> r.addr == syndromes@[r.id as int]
                && r.is_sickness as int == mem.u8_at(r.addr + layout.off(OffsetSection::Dwarf, "syn_sick_flag"@))
                && r.class_names@.len() == mem.vec_len(r.addr + layout.off(OffsetSection::Syndrome, "syn_classes_vector"@), POINTER_SIZE as int)
                && (forall|k: int| 0 <= k < r.class_names@.len() ==> (#[trigger] r.class_names@[k])@ == string_at(mem, mem.vec_ptr(r.addr + layout.off(OffsetSection::Syndrome, "syn_classes_vector"@), k))),
            0 <= r.id < syndromes@.len() ==> ({
                let effects = r.addr + layout.off(OffsetSection::Syndrome, "cie_effects"@);
                let n = mem.vec_len(effects, POINTER_SIZE as int);
                &&& r.has_transform == exists|k: int| 0 <= k < n && #[trigger] effect_kind(mem, mem.vec_ptr(effects, k)) == 24
                &&& (exists|k: int| 0 <= k < n && !known_effect(#[trigger] effect_kind(mem, mem.vec_ptr(effects, k)))) ==> r.name@ == "???"@
                &&& (forall|k: int| 0 <= k < n ==> known_effect(#[trigger] effect_kind(mem, mem.vec_ptr(effects, k)))) ==> r.name@ == string_at(mem, r.addr as int)
            }),
            r.transform_race == -1,
            !(0 <= r.id < syndromes@.len()) ==> r.class_names@.len() == 0 && r.name@.len() == 0 && !r.has_transform,
    {
        let id = mem.read_i32(id_addr, 0);
        if id < 0 || id as usize >= syndromes.len() {
            return Syndrome {
                addr: 0,
                id,
                name: String::new(),
                is_sickness: 0,
                has_transform: false,
                transform_race: -1,
                class_names: Vec::new(),
            };
        }
        let addr = syndromes[id as usize];
        let mut name = read_string(mem, addr, 0);
        let is_sickness = mem.read_u8(addr, layout.field_offset(OffsetSection::Dwarf, "syn_sick_flag"));
        let classes_off = layout.field_offset(OffsetSection::Syndrome, "syn_classes_vector");
        let classes = mem.read_pointer_vector(addr, classes_off);
        let mut class_names: Vec<String> = Vec::new();
        let mut i: usize = 0;
        while i < classes.len()
            invariant
                i <= classes@.len(),
                class_names@.len() == i,
                classes@.len() == mem.vec_len(addr + classes_off, POINTER_SIZE as int),
                forall|k: int| 0 <= k < classes@.len() ==> (#[trigger] classes@[k]) as int == mem.vec_ptr(addr + classes_off, k),
                forall|k: int| 0 <= k < i ==> (#[trigger] class_names@[k])@ == string_at(mem, mem.vec_ptr(addr + classes_off, k)),
            decreases classes@.len() - i,
        {
            class_names.push(read_string(mem, classes[i], 0));
            i = i + 1;
        }
        let (has_transform, all_known) = scan_effects(mem, addr, layout.field_offset(OffsetSection::Syndrome, "cie_effects"));
        if !all_known {
            name = String::from_str("???");
        }
        Syndrome { addr, id, name, is_sickness, has_transform, transform_race: -1, class_names }
    }
}

} // verus!
