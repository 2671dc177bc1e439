//! Races and their castes.

use vstd::prelude::*;
use crate::flags::{FlagArray, flags_at};
use crate::items::Material;
use crate::layout::{MemoryOffsets, OffsetSection};
use crate::memory::{ProcessMemory, POINTER_SIZE};
use crate::text::{capitalize_each, capitalized, read_string, string_at};

verus! {

/// Raw caste flag: the creature can be butchered.
pub const FLAG_BUTCHERABLE_RAW: usize = 46;
/// Raw caste flags that make a creature trainable: hunting, war, pet, exotic pet.
pub const FLAG_TRAINABLE_HUNTING: usize = 53;
pub const FLAG_TRAINABLE_WAR: usize = 88;
pub const FLAG_PET: usize = 54;
pub const FLAG_PET_EXOTIC: usize = 55;
/// Raw caste flag that excludes fishing.
pub const FLAG_NOT_FISHABLE: usize = 37;
pub const FLAG_FISHABLE: usize = 26;
/// Raw caste flags that say a baby or child age is recorded.
pub const FLAG_HAS_BABY_AGE: usize = 97;
pub const FLAG_HAS_CHILD_AGE: usize = 98;
/// Derived caste flags, stored in unused high bits.
pub const FLAG_HAS_EXTRACTS: usize = 200;
pub const FLAG_HAS_SHEARABLE_TISSUE: usize = 201;
pub const FLAG_BUTCHERABLE: usize = 202;
pub const FLAG_TRAINABLE: usize = 203;

pub open spec fn bit(s: Seq<bool>, i: int) -> bool {
    0 <= i < s.len() && s[i]
}

/// `s` with bit `i` set to `v`, where the set has that bit.
pub open spec fn set_bit(s: Seq<bool>, i: int, v: bool) -> Seq<bool> {
    if 0 <= i < s.len() {
        s.update(i, v)
    } else {
        s
    }
}

/// The caste flags after the derived flags are written into them.
pub open spec fn derived_caste_flags(raw: Seq<bool>, extracts: bool, shearable: bool) -> Seq<bool> {
    let s1 = if bit(raw, 46) { set_bit(raw, 202, true) } else { raw };
    let s2 = if bit(s1, 53) || bit(s1, 88) || bit(s1, 54) || bit(s1, 55) {
        set_bit(s1, 203, true)
    } else {
        s1
    };
    let s3 = if bit(s2, 37) { set_bit(s2, 26, false) } else { s2 };
    let s4 = if extracts { set_bit(s3, 200, true) } else { s3 };
    if shearable { set_bit(s4, 201, true) } else { s4 }
}

/// An age field, with the sentinel -1 read as 0.
pub open spec fn age_value(v: int) -> int {
    if v == -1 { 0 } else { v }
}

/// What the caste record at `address` decodes to.
pub open spec fn caste_decoded(mem: &ProcessMemory, layout: &MemoryOffsets, address: u64, c: Caste) -> bool {
    &&& (c.address == address)
    &&& (c.tag@ == string_at(mem, address as int))
    &&& (c.name@ == string_at(mem, address + Caste::off(layout, "caste_name"@)))
    &&& (c.name_plural@ == string_at(mem, address + layout.off(OffsetSection::Word, "noun_plural"@)))
    &&& (c.adult_size as int == mem.i32_at(address + Caste::off(layout, "adult_size"@)))
    &&& (c.body_parts_addr@.len() == mem.vec_len(address + Caste::off(layout, "body_info"@), POINTER_SIZE as int))
    &&& (c.flags.wf())
    &&& (c.flags.flags.view() == derived_caste_flags(
        flags_at(mem, address + Caste::off(layout, "flags"@)),
        mem.vec_len(address + Caste::off(layout, "extracts"@), POINTER_SIZE as int) > 0,
        mem.vec_len(address + Caste::off(layout, "shearable_tissues_vector"@), POINTER_SIZE as int) > 0,
    ))
    &&& (c.baby_age as int == if bit(flags_at(mem, address + Caste::off(layout, "flags"@)), 97) {
            age_value(mem.i32_at(address + Caste::off(layout, "baby_age"@)))
        } else {
            0
        })
    &&& (c.child_age as int == if bit(flags_at(mem, address + Caste::off(layout, "flags"@)), 98) {
            age_value(mem.i32_at(address + Caste::off(layout, "child_age"@)))
        } else {
            0
        })
}

pub struct Caste {
    pub address: u64,
    pub tag: String,
    pub name: String,
    pub name_plural: String,
    pub description: String,
    pub baby_age: i32,
    pub child_age: i32,
    pub adult_size: i32,
    pub body_parts_addr: Vec<u64>,
    pub flags: FlagArray,
}

fn set_flag(flags: &mut FlagArray, i: usize, v: bool)
    requires
        old(flags).wf(),
    ensures
        final(flags).wf(),
        final(flags).address == old(flags).address,
        final(flags).flags.view() == set_bit(old(flags).flags.view(), i as int, v),
{
    let _ = flags.flags.set(i, v);
}

impl Caste {
    pub open spec fn off(layout: &MemoryOffsets, f: Seq<char>) -> int {
        layout.off(OffsetSection::Caste, f) as int
    }

    /// Decodes the caste at `address`, with its derived flags and ages.
    pub fn new(mem: &ProcessMemory, layout: &MemoryOffsets, address: u64) -> (r: Caste)
        ensures
            caste_decoded(mem, layout, address, r),
    {
        let tag = read_string(mem, address, 0);
        let name = read_string(mem, address, layout.field_offset(OffsetSection::Caste, "caste_name"));
        let name_plural = read_string(mem, address, layout.field_offset(OffsetSection::Word, "noun_plural"));
        let adult_size = mem.read_i32(address, layout.field_offset(OffsetSection::Caste, "adult_size"));
        let body_parts_addr = mem.read_pointer_vector(address, layout.field_offset(OffsetSection::Caste, "body_info"));
        let flags_off = layout.field_offset(OffsetSection::Caste, "flags");
        let mut flags = match address.checked_add(flags_off) {
            Some(a) => FlagArray::new(mem, a),
            None => {
                proof {
                    mem.lemma_high_zero(address + flags_off + POINTER_SIZE, 4);
                }
                let f = FlagArray::default();
                assert(f.flags.view() =~= flags_at(mem, address + flags_off));
                f
            },
        };
        let baby_age = if flags.flag(FLAG_HAS_BABY_AGE) {
            let v = mem.read_i32(address, layout.field_offset(OffsetSection::Caste, "baby_age"));
            if v == -1 { 0 } else { v }
        } else {
            0
        };
        let child_age = if flags.flag(FLAG_HAS_CHILD_AGE) {
            let v = mem.read_i32(address, layout.field_offset(OffsetSection::Caste, "child_age"));
            if v == -1 { 0 } else { v }
        } else {
            0
        };
        if flags.flag(FLAG_BUTCHERABLE_RAW) {
            set_flag(&mut flags, FLAG_BUTCHERABLE, true);
        }
        if flags.flag(FLAG_TRAINABLE_HUNTING) || flags.flag(FLAG_TRAINABLE_WAR) || flags.flag(FLAG_PET)
            || flags.flag(FLAG_PET_EXOTIC) {
            set_flag(&mut flags, FLAG_TRAINABLE, true);
        }
        if flags.flag(FLAG_NOT_FISHABLE) {
            set_flag(&mut flags, FLAG_FISHABLE, false);
        }
        let extracts = mem.read_pointer_vector(address, layout.field_offset(OffsetSection::Caste, "extracts"));
        if extracts.len() > 0 {
            set_flag(&mut flags, FLAG_HAS_EXTRACTS, true);
        }
        let shearable = mem.read_pointer_vector(address, layout.field_offset(OffsetSection::Caste, "shearable_tissues_vector"));
        if shearable.len() > 0 {
            set_flag(&mut flags, FLAG_HAS_SHEARABLE_TISSUE, true);
        }
        Caste {
            address,
            tag,
            name,
            name_plural,
            description: String::new(),
            baby_age,
            child_age,
            adult_size,
            body_parts_addr,
            flags,
        }
    }
}

/// Baby and child names after the fallback: each empty one is taken from
/// the other, and when both are empty they are made from the race's name.
pub open spec fn child_names(
    name: Seq<char>,
    plural: Seq<char>,
    baby: Seq<char>,
    baby_plural: Seq<char>,
    child: Seq<char>,
    child_plural: Seq<char>,
) -> (Seq<char>, Seq<char>, Seq<char>, Seq<char>) {
    if baby.len() == 0 && child.len() != 0 {
        (child, child_plural, child, child_plural)
    } else if child.len() == 0 && baby.len() != 0 {
        (baby, baby_plural, baby, baby_plural)
    } else if baby.len() == 0 && child.len() == 0 {
        (name + " Baby"@, plural + " Babies"@, name + " Offspring"@, plural + " Offspring"@)
    } else {
        (baby, baby_plural, child, child_plural)
    }
}

pub struct Race {
    pub id: i32,
    pub name: String,
    pub plural_name: String,
    pub adjective: String,
    pub baby_name: String,
    pub baby_name_plural: String,
    pub child_name: String,
    pub child_name_plural: String,
    pub castes: Vec<Caste>,
    pub pref_strings: Vec<String>,
    pub flags: FlagArray,
    pub materials_vector: Vec<u64>,
    pub creature_mats: Vec<Material>,
}

fn joined(a: &String, b: &str) -> (r: String)
    ensures
        r@ == a@ + b@,
{
    let mut s = a.clone();
    s.append(b);
    s
}

impl Race {
    pub open spec fn off(layout: &MemoryOffsets, f: Seq<char>) -> int {
        layout.off(OffsetSection::Race, f) as int
    }

    /// Fills the baby and child names by the fallback rule and capitalises
    /// every word of each.
    pub fn fix_child_names(&mut self)
        ensures
            final(self).id == old(self).id,
            final(self).name == old(self).name,
            final(self).plural_name == old(self).plural_name,
            final(self).adjective == old(self).adjective,
            final(self).materials_vector == old(self).materials_vector,
            final(self).creature_mats == old(self).creature_mats,
            final(self).castes == old(self).castes,
            final(self).pref_strings == old(self).pref_strings,
            final(self).flags == old(self).flags,
            ({
                let n = child_names(
                    old(self).name@,
                    old(self).plural_name@,
                    old(self).baby_name@,
                    old(self).baby_name_plural@,
                    old(self).child_name@,
                    old(self).child_name_plural@,
                );
                &&& final(self).baby_name@ == capitalized(n.0)
                &&& final(self).baby_name_plural@ == capitalized(n.1)
                &&& final(self).child_name@ == capitalized(n.2)
                &&& final(self).child_name_plural@ == capitalized(n.3)
            }),
    {
        let baby_empty = self.baby_name.as_str().unicode_len() == 0;
        let child_empty = self.child_name.as_str().unicode_len() == 0;
        let (b, bp, c, cp) = if baby_empty && !child_empty {
            (self.child_name.clone(), self.child_name_plural.clone(), self.child_name.clone(), self.child_name_plural.clone())
        } else if child_empty && !baby_empty {
            (self.baby_name.clone(), self.baby_name_plural.clone(), self.baby_name.clone(), self.baby_name_plural.clone())
        } else if baby_empty && child_empty {
            (
                joined(&self.name, " Baby"),
                joined(&self.plural_name, " Babies"),
                joined(&self.name, " Offspring"),
                joined(&self.plural_name, " Offspring"),
            )
        } else {
            (self.baby_name.clone(), self.baby_name_plural.clone(), self.child_name.clone(), self.child_name_plural.clone())
        };
        self.baby_name = capitalize_each(b.as_str());
        self.baby_name_plural = capitalize_each(bp.as_str());
        self.child_name = capitalize_each(c.as_str());
        self.child_name_plural = capitalize_each(cp.as_str());
    }

    /// Decodes race number `id` from `base_addr`, with its castes in order.
    pub fn new(mem: &ProcessMemory, layout: &MemoryOffsets, id: i32, base_addr: u64) -> (r: Race)
        ensures
            r.id == id,
            r.name@ == string_at(mem, base_addr + Self::off(layout, "name_singular"@)),
            r.plural_name@ == string_at(mem, base_addr + Self::off(layout, "name_plural"@)),
            r.adjective@ == string_at(mem, base_addr + Self::off(layout, "adjective"@)),
            ({
                let n = child_names(
                    string_at(mem, base_addr + Self::off(layout, "name_singular"@)),
                    string_at(mem, base_addr + Self::off(layout, "name_plural"@)),
                    string_at(mem, base_addr + Self::off(layout, "baby_name_singular"@)),
                    string_at(mem, base_addr + Self::off(layout, "baby_name_plural"@)),
                    string_at(mem, base_addr + Self::off(layout, "child_name_singular"@)),
                    string_at(mem, base_addr + Self::off(layout, "child_name_plural"@)),
                );
                &&& r.baby_name@ == capitalized(n.0)
                &&& r.baby_name_plural@ == capitalized(n.1)
                &&& r.child_name@ == capitalized(n.2)
                &&& r.child_name_plural@ == capitalized(n.3)
            }),
            r.castes@.len() == mem.vec_len(base_addr + Self::off(layout, "castes_vector"@), POINTER_SIZE as int),
            forall|k: int| 0 <= k < r.castes@.len() ==> (#[trigger] r.castes@[k]).address as int == mem.vec_ptr(base_addr + Self::off(layout, "castes_vector"@), k),
            forall|k: int| 0 <= k < r.castes@.len() ==> caste_decoded(mem, layout, mem.vec_ptr(base_addr + Self::off(layout, "castes_vector"@), k) as u64, #[trigger] r.castes@[k]),
            r.pref_strings@.len() == mem.vec_len(base_addr + Self::off(layout, "pref_string_vector"@), POINTER_SIZE as int),
            forall|k: int| 0 <= k < r.pref_strings@.len() ==> (#[trigger] r.pref_strings@[k])@ == string_at(mem, mem.vec_ptr(base_addr + Self::off(layout, "pref_string_vector"@), k)),
            r.flags.wf(),
    {
        let name = read_string(mem, base_addr, layout.field_offset(OffsetSection::Race, "name_singular"));
        let plural_name = read_string(mem, base_addr, layout.field_offset(OffsetSection::Race, "name_plural"));
        let adjective = read_string(mem, base_addr, layout.field_offset(OffsetSection::Race, "adjective"));
        let child_name = read_string(mem, base_addr, layout.field_offset(OffsetSection::Race, "child_name_singular"));
        let child_name_plural = read_string(mem, base_addr, layout.field_offset(OffsetSection::Race, "child_name_plural"));
        let baby_name = read_string(mem, base_addr, layout.field_offset(OffsetSection::Race, "baby_name_singular"));
        let baby_name_plural = read_string(mem, base_addr, layout.field_offset(OffsetSection::Race, "baby_name_plural"));
        let materials_vector = mem.read_pointer_vector(base_addr, layout.field_offset(OffsetSection::Race, "materials_vector"));
        let pref_off = layout.field_offset(OffsetSection::Race, "pref_string_vector");
        let prefs = mem.read_pointer_vector(base_addr, pref_off);
        let mut pref_strings: Vec<String> = Vec::new();
        let mut i: usize = 0;
        while i < prefs.len()
            invariant
                i <= prefs@.len(),
                pref_strings@.len() == i,
                prefs@.len() == mem.vec_len(base_addr + pref_off, POINTER_SIZE as int),
                forall|k: int| 0 <= k < prefs@.len() ==> (#[trigger] prefs@[k]) as int == mem.vec_ptr(base_addr + pref_off, k),
                forall|k: int| 0 <= k < i ==> (#[trigger] pref_strings@[k])@ == string_at(mem, mem.vec_ptr(base_addr + pref_off, k)),
            decreases prefs@.len() - i,
        {
            pref_strings.push(read_string(mem, prefs[i], 0));
            i = i + 1;
        }
        let caste_off = layout.field_offset(OffsetSection::Race, "castes_vector");
        let caste_ptrs = mem.read_pointer_vector(base_addr, caste_off);
        let mut castes: Vec<Caste> = Vec::new();
        let mut j: usize = 0;
        while j < caste_ptrs.len()
            invariant
                j <= caste_ptrs@.len(),
                castes@.len() == j,
                caste_ptrs@.len() == mem.vec_len(base_addr + caste_off, POINTER_SIZE as int),
                forall|k: int| 0 <= k < caste_ptrs@.len() ==> (#[trigger] caste_ptrs@[k]) as int == mem.vec_ptr(base_addr + caste_off, k),
                forall|k: int| 0 <= k < j ==> (#[trigger] castes@[k]).address as int == mem.vec_ptr(base_addr + caste_off, k),
                forall|k: int| 0 <= k < j ==> caste_decoded(mem, layout, mem.vec_ptr(base_addr + caste_off, k) as u64, #[trigger] castes@[k]),
            decreases caste_ptrs@.len() - j,
        {
            castes.push(Caste::new(mem, layout, caste_ptrs[j]));
            j = j + 1;
        }
        let flags_off = layout.field_offset(OffsetSection::Race, "flags");
        let flags = match base_addr.checked_add(flags_off) {
            Some(a) => FlagArray::new(mem, a),
            None => FlagArray::default(),
        };
        let mut r = Race {
            id,
            name,
            plural_name,
            adjective,
            baby_name,
            baby_name_plural,
            child_name,
            child_name_plural,
            castes,
            pref_strings,
            flags,
            materials_vector,
            creature_mats: Vec::new(),
        };
        r.fix_child_names();
        r
    }

    /// Decodes the race's own materials, numbered in order.
    pub fn load_materials(&mut self, mem: &ProcessMemory, layout: &MemoryOffsets)
        ensures
            final(self).id == old(self).id,
            final(self).name == old(self).name,
            final(self).castes == old(self).castes,
            final(self).materials_vector == old(self).materials_vector,
            old(self).materials_vector@.len() < 0x7fff_ffff ==> final(self).creature_mats@.len() == old(self).materials_vector@.len(),
            forall|k: int| 0 <= k < final(self).creature_mats@.len() ==> (#[trigger] final(self).creature_mats@[k]).index == k
                && final(self).creature_mats@[k].organic,
    {
        let mut mats: Vec<Material> = Vec::new();
        let mut i: usize = 0;
        while i < self.materials_vector.len() && i < 0x7fff_ffff
            invariant
                i <= self.materials_vector@.len(),
                mats@.len() == i,
                forall|k: int| 0 <= k < i ==> (#[trigger] mats@[k]).index == k && mats@[k].organic,
            decreases self.materials_vector@.len() - i,
        {
            mats.push(Material::new(mem, layout, i as i32, self.materials_vector[i], true));
            i = i + 1;
        }
        self.creature_mats = mats;
    }
}

} // verus!
