//! The snapshot of the simulation that one rebuild decodes, and the
//! instance that owns the schema, the catalog and the latest snapshot.

use vstd::prelude::*;
use crate::dwarf::{decoded_as, rejection, Dwarf};
use crate::gamedata::GameData;
use crate::histfig::FortressPosition;
use crate::items::ItemType;
use crate::language::Languages;
use crate::layout::{MemoryOffsets, OffsetSection};
use crate::memory::{add_addr, wrap_add, ProcessMemory, POINTER_SIZE};
use crate::race::Race;
use crate::squad::Squad;
use crate::text::{read_string, string_at};
use crate::time::DfTime;

verus! {

/// Address at which the simulation's executable prefers to be loaded;
/// global addresses in the schema are given relative to it.
pub const DEFAULT_BASE_ADDR: u64 = 0x1_4000_0000;

/// `0 - DEFAULT_BASE_ADDR` in the 64-bit address space.
pub const NEG_BASE_ADDR: u64 = 0xFFFF_FFFE_C000_0000;

/// The live address of the global whose schema address is `offset`.
pub open spec fn global_addr(mem: &ProcessMemory, offset: u64) -> u64 {
    wrap_add(wrap_add(offset, NEG_BASE_ADDR), mem.module_base)
}

/// The live address of the global whose schema address is `offset`: the
/// offset moved from the preferred base to the module's actual base.
pub fn global_address(mem: &ProcessMemory, offset: u64) -> (r: u64)
    ensures
        r == global_addr(mem, offset),
{
    add_addr(add_addr(offset, NEG_BASE_ADDR), mem.module_base)
}

/// Every field that the decoders look up; a schema that lacks one of them
/// is refused at load time.
pub fn required_fields() -> Vec<(OffsetSection, String)> {
    let mut r: Vec<(OffsetSection, String)> = Vec::new();
    r.push((OffsetSection::Addresses, String::from_str("active_creature_vector")));
    r.push((OffsetSection::Addresses, String::from_str("all_syndromes_vector")));
    r.push((OffsetSection::Addresses, String::from_str("colors_vector")));
    r.push((OffsetSection::Addresses, String::from_str("cur_year_tick")));
    r.push((OffsetSection::Addresses, String::from_str("current_year")));
    r.push((OffsetSection::Addresses, String::from_str("dance_forms_vector")));
    r.push((OffsetSection::Addresses, String::from_str("dwarf_civ_index")));
    r.push((OffsetSection::Addresses, String::from_str("dwarf_race_index")));
    r.push((OffsetSection::Addresses, String::from_str("fake_identities_vector")));
    r.push((OffsetSection::Addresses, String::from_str("fortress_entity")));
    r.push((OffsetSection::Addresses, String::from_str("historical_entities_vector")));
    r.push((OffsetSection::Addresses, String::from_str("historical_figures_vector")));
    r.push((OffsetSection::Addresses, String::from_str("itemdef_ammo_vector")));
    r.push((OffsetSection::Addresses, String::from_str("itemdef_armor_vector")));
    r.push((OffsetSection::Addresses, String::from_str("itemdef_food_vector")));
    r.push((OffsetSection::Addresses, String::from_str("itemdef_glove_vector")));
    r.push((OffsetSection::Addresses, String::from_str("itemdef_helm_vector")));
    r.push((OffsetSection::Addresses, String::from_str("itemdef_instrument_vector")));
    r.push((OffsetSection::Addresses, String::from_str("itemdef_pant_vector")));
    r.push((OffsetSection::Addresses, String::from_str("itemdef_shield_vector")));
    r.push((OffsetSection::Addresses, String::from_str("itemdef_shoe_vector")));
    r.push((OffsetSection::Addresses, String::from_str("itemdef_siegeammo_vector")));
    r.push((OffsetSection::Addresses, String::from_str("itemdef_tool_vector")));
    r.push((OffsetSection::Addresses, String::from_str("itemdef_toy_vector")));
    r.push((OffsetSection::Addresses, String::from_str("itemdef_trap_vector")));
    r.push((OffsetSection::Addresses, String::from_str("itemdef_weapons_vector")));
    r.push((OffsetSection::Addresses, String::from_str("language_vector")));
    r.push((OffsetSection::Addresses, String::from_str("musical_forms_vector")));
    r.push((OffsetSection::Addresses, String::from_str("poetic_forms_vector")));
    r.push((OffsetSection::Addresses, String::from_str("races_vector")));
    r.push((OffsetSection::Addresses, String::from_str("shapes_vector")));
    r.push((OffsetSection::Addresses, String::from_str("squad_vector")));
    r.push((OffsetSection::Addresses, String::from_str("translation_vector")));
    r.push((OffsetSection::Caste, String::from_str("adult_size")));
    r.push((OffsetSection::Caste, String::from_str("baby_age")));
    r.push((OffsetSection::Caste, String::from_str("body_info")));
    r.push((OffsetSection::Caste, String::from_str("caste_name")));
    r.push((OffsetSection::Caste, String::from_str("child_age")));
    r.push((OffsetSection::Caste, String::from_str("extracts")));
    r.push((OffsetSection::Caste, String::from_str("flags")));
    r.push((OffsetSection::Caste, String::from_str("shearable_tissues_vector")));
    r.push((OffsetSection::Dwarf, String::from_str("active_syndrome_vector")));
    r.push((OffsetSection::Dwarf, String::from_str("birth_time")));
    r.push((OffsetSection::Dwarf, String::from_str("birth_year")));
    r.push((OffsetSection::Dwarf, String::from_str("caste")));
    r.push((OffsetSection::Dwarf, String::from_str("civ")));
    r.push((OffsetSection::Dwarf, String::from_str("hist_id")));
    r.push((OffsetSection::Dwarf, String::from_str("id")));
    r.push((OffsetSection::Dwarf, String::from_str("labors")));
    r.push((OffsetSection::Dwarf, String::from_str("mood")));
    r.push((OffsetSection::Dwarf, String::from_str("name")));
    r.push((OffsetSection::Dwarf, String::from_str("physical_attrs")));
    r.push((OffsetSection::Dwarf, String::from_str("profession")));
    r.push((OffsetSection::Dwarf, String::from_str("race")));
    r.push((OffsetSection::Dwarf, String::from_str("sex")));
    r.push((OffsetSection::Dwarf, String::from_str("size_base")));
    r.push((OffsetSection::Dwarf, String::from_str("size_info")));
    r.push((OffsetSection::Dwarf, String::from_str("souls")));
    r.push((OffsetSection::Dwarf, String::from_str("squad_id")));
    r.push((OffsetSection::Dwarf, String::from_str("squad_position")));
    r.push((OffsetSection::Dwarf, String::from_str("states")));
    r.push((OffsetSection::Dwarf, String::from_str("syn_sick_flag")));
    r.push((OffsetSection::Dwarf, String::from_str("temp_mood")));
    r.push((OffsetSection::Dwarf, String::from_str("turn_count")));
    r.push((OffsetSection::Emotion, String::from_str("emotion_type")));
    r.push((OffsetSection::Emotion, String::from_str("level")));
    r.push((OffsetSection::Emotion, String::from_str("strength")));
    r.push((OffsetSection::Emotion, String::from_str("sub_id")));
    r.push((OffsetSection::Emotion, String::from_str("thought_id")));
    r.push((OffsetSection::Emotion, String::from_str("year")));
    r.push((OffsetSection::Emotion, String::from_str("year_tick")));
    r.push((OffsetSection::HistEntity, String::from_str("assign_hist_id")));
    r.push((OffsetSection::HistEntity, String::from_str("assign_position_id")));
    r.push((OffsetSection::HistEntity, String::from_str("assignments")));
    r.push((OffsetSection::HistEntity, String::from_str("beliefs")));
    r.push((OffsetSection::HistEntity, String::from_str("position_female_name")));
    r.push((OffsetSection::HistEntity, String::from_str("position_id")));
    r.push((OffsetSection::HistEntity, String::from_str("position_male_name")));
    r.push((OffsetSection::HistEntity, String::from_str("position_name")));
    r.push((OffsetSection::HistEntity, String::from_str("positions")));
    r.push((OffsetSection::HistFigure, String::from_str("current_ident")));
    r.push((OffsetSection::HistFigure, String::from_str("fake_name")));
    r.push((OffsetSection::HistFigure, String::from_str("hist_fig_info")));
    r.push((OffsetSection::HistFigure, String::from_str("id")));
    r.push((OffsetSection::HistFigure, String::from_str("reputation")));
    r.push((OffsetSection::Language, String::from_str("word_table")));
    r.push((OffsetSection::Material, String::from_str("flags")));
    r.push((OffsetSection::Material, String::from_str("gas_name")));
    r.push((OffsetSection::Material, String::from_str("inorganic_flags")));
    r.push((OffsetSection::Material, String::from_str("liquid_name")));
    r.push((OffsetSection::Material, String::from_str("paste_name")));
    r.push((OffsetSection::Material, String::from_str("powder_name")));
    r.push((OffsetSection::Material, String::from_str("prefix")));
    r.push((OffsetSection::Material, String::from_str("pressed_name")));
    r.push((OffsetSection::Material, String::from_str("solid_name")));
    r.push((OffsetSection::Need, String::from_str("deity_id")));
    r.push((OffsetSection::Need, String::from_str("focus_level")));
    r.push((OffsetSection::Need, String::from_str("id")));
    r.push((OffsetSection::Need, String::from_str("need_level")));
    r.push((OffsetSection::Plant, String::from_str("flags")));
    r.push((OffsetSection::Plant, String::from_str("name")));
    r.push((OffsetSection::Plant, String::from_str("name_leaf_plural")));
    r.push((OffsetSection::Plant, String::from_str("name_plural")));
    r.push((OffsetSection::Plant, String::from_str("name_seed_plural")));
    r.push((OffsetSection::Race, String::from_str("adjective")));
    r.push((OffsetSection::Race, String::from_str("baby_name_plural")));
    r.push((OffsetSection::Race, String::from_str("baby_name_singular")));
    r.push((OffsetSection::Race, String::from_str("castes_vector")));
    r.push((OffsetSection::Race, String::from_str("child_name_plural")));
    r.push((OffsetSection::Race, String::from_str("child_name_singular")));
    r.push((OffsetSection::Race, String::from_str("flags")));
    r.push((OffsetSection::Race, String::from_str("materials_vector")));
    r.push((OffsetSection::Race, String::from_str("name_plural")));
    r.push((OffsetSection::Race, String::from_str("name_singular")));
    r.push((OffsetSection::Race, String::from_str("pref_string_vector")));
    r.push((OffsetSection::Soul, String::from_str("beliefs")));
    r.push((OffsetSection::Soul, String::from_str("combat_hardened")));
    r.push((OffsetSection::Soul, String::from_str("emotions")));
    r.push((OffsetSection::Soul, String::from_str("goal_realized")));
    r.push((OffsetSection::Soul, String::from_str("goals")));
    r.push((OffsetSection::Soul, String::from_str("mental_attrs")));
    r.push((OffsetSection::Soul, String::from_str("needs")));
    r.push((OffsetSection::Soul, String::from_str("orientation")));
    r.push((OffsetSection::Soul, String::from_str("personality")));
    r.push((OffsetSection::Soul, String::from_str("preferences")));
    r.push((OffsetSection::Soul, String::from_str("skills")));
    r.push((OffsetSection::Soul, String::from_str("stress_level")));
    r.push((OffsetSection::Soul, String::from_str("traits")));
    r.push((OffsetSection::Squad, String::from_str("alert")));
    r.push((OffsetSection::Squad, String::from_str("alias")));
    r.push((OffsetSection::Squad, String::from_str("histfig_id")));
    r.push((OffsetSection::Squad, String::from_str("id")));
    r.push((OffsetSection::Squad, String::from_str("members")));
    r.push((OffsetSection::Squad, String::from_str("name")));
    r.push((OffsetSection::Squad, String::from_str("orders")));
    r.push((OffsetSection::Squad, String::from_str("sched_assigned")));
    r.push((OffsetSection::Squad, String::from_str("sched_orders")));
    r.push((OffsetSection::Squad, String::from_str("sched_size")));
    r.push((OffsetSection::Squad, String::from_str("schedule")));
    r.push((OffsetSection::Syndrome, String::from_str("cie_effects")));
    r.push((OffsetSection::Syndrome, String::from_str("syn_classes_vector")));
    r.push((OffsetSection::Word, String::from_str("adjective")));
    r.push((OffsetSection::Word, String::from_str("base")));
    r.push((OffsetSection::Word, String::from_str("birth_time")));
    r.push((OffsetSection::Word, String::from_str("birth_year")));
    r.push((OffsetSection::Word, String::from_str("first_name")));
    r.push((OffsetSection::Word, String::from_str("language_id")));
    r.push((OffsetSection::Word, String::from_str("nickname")));
    r.push((OffsetSection::Word, String::from_str("noun_plural")));
    r.push((OffsetSection::Word, String::from_str("noun_singular")));
    r.push((OffsetSection::Word, String::from_str("past_participle_verb")));
    r.push((OffsetSection::Word, String::from_str("past_simple_verb")));
    r.push((OffsetSection::Word, String::from_str("present_participle_verb")));
    r.push((OffsetSection::Word, String::from_str("present_simple_verb")));
    r.push((OffsetSection::Word, String::from_str("verb")));
    r.push((OffsetSection::Word, String::from_str("words")));
    r
}

/// Why a rebuild did not produce a snapshot.
#[derive(PartialEq, Eq, Structural, Clone, Copy, Debug)]
pub enum RebuildError {
    /// No fortress is loaded: the simulation shows a menu or an embark screen.
    NoFortress,
}

/// Everything one rebuild decodes.
pub struct Snapshot {
    pub fortress_addr: u64,
    pub fortress_id: i32,
    pub dwarf_race_id: i32,
    pub dwarf_civ_id: i32,
    pub current_time: DfTime,
    pub creature_vector: Vec<u64>,
    pub syndromes_vector: Vec<u64>,
    pub color_vector: Vec<u64>,
    pub shape_vector: Vec<u64>,
    pub poetry_vector: Vec<u64>,
    pub music_vector: Vec<u64>,
    pub dance_vector: Vec<u64>,
    /// Item definitions of each kind.
    pub item_defs: Vec<(ItemType, Vec<u64>)>,
    /// Historical figure id, and the address of its record.
    pub historical_figures: Vec<(i32, u64)>,
    pub fake_identities_vector: Vec<u64>,
    /// Position id, and the position.
    pub positions: Vec<(i32, FortressPosition)>,
    /// Historical figure id of a holder, and the position held.
    pub nobles: Vec<(i32, FortressPosition)>,
    /// The fortress's value for each belief of the catalog, capped at 100.
    pub beliefs: Vec<i32>,
    pub languages: Languages,
    pub races: Vec<Race>,
    pub squads: Vec<Squad>,
    pub dwarves: Vec<Dwarf>,
}


pub open spec fn aoff(layout: &MemoryOffsets, f: Seq<char>) -> u64 {
    layout.off(OffsetSection::Addresses, f)
}

/// The address of the global named `f`.
pub open spec fn global_of(mem: &ProcessMemory, layout: &MemoryOffsets, f: Seq<char>) -> u64 {
    global_addr(mem, aoff(layout, f))
}

/// The fortress's belief value, capped at 100.
pub open spec fn capped_belief(v: int) -> int {
    if v > 100 { 100 } else { v }
}

/// Where the position with id `id` stands among `own`.
fn position_index(own: &Vec<(i32, FortressPosition)>, id: i32) -> (r: Option<usize>)
    ensures
        r matches Some(q) ==> q < own@.len() && own@[q as int].0 == id,
{
    let mut q: usize = 0;
    while q < own.len()
        invariant
            q <= own@.len(),
        decreases own@.len() - q,
    {
        if own[q].0 == id {
            return Some(q);
        }
        q = q + 1;
    }
    None
}

pub open spec fn hoff(layout: &MemoryOffsets, f: Seq<char>) -> int {
    layout.off(OffsetSection::HistEntity, f) as int
}

/// The `p`-th position record of entity `ent`.
pub open spec fn position_rec(mem: &ProcessMemory, layout: &MemoryOffsets, ent: int, p: int) -> int {
    mem.vec_ptr(ent + hoff(layout, "positions"@), p)
}

/// The `a`-th assignment record of entity `ent`.
pub open spec fn assignment_rec(mem: &ProcessMemory, layout: &MemoryOffsets, ent: int, a: int) -> int {
    mem.vec_ptr(ent + hoff(layout, "assignments"@), a)
}

/// Figure `h` holds a position named `name` in a civilization entity of
/// `entities`: one of its assignments names `h` and the position's id.
pub open spec fn holds_position(mem: &ProcessMemory, layout: &MemoryOffsets, entities: Seq<u64>, h: i32, name: Seq<char>) -> bool {
    exists|e: int, a: int, p: int|
        0 <= e < entities.len() && mem.i16_at(entities[e] as int) == 0
        && 0 <= a < mem.vec_len(entities[e] + hoff(layout, "assignments"@), POINTER_SIZE as int)
        && 0 <= p < mem.vec_len(entities[e] + hoff(layout, "positions"@), POINTER_SIZE as int)
        && mem.i32_at(#[trigger] assignment_rec(mem, layout, entities[e] as int, a) + hoff(layout, "assign_hist_id"@)) == h
        && mem.i32_at(assignment_rec(mem, layout, entities[e] as int, a) + hoff(layout, "assign_position_id"@))
            == mem.i32_at(#[trigger] position_rec(mem, layout, entities[e] as int, p) + hoff(layout, "position_id"@))
        && name == string_at(mem, position_rec(mem, layout, entities[e] as int, p) + hoff(layout, "position_name"@))
}

/// The active creature list as the image holds it.
pub open spec fn creature_list(mem: &ProcessMemory, layout: &MemoryOffsets) -> Seq<u64> {
    let a = global_of(mem, layout, "active_creature_vector"@) as int;
    Seq::new(mem.vec_len(a, POINTER_SIZE as int) as nat, |k: int| mem.vec_ptr(a, k) as u64)
}

/// The snapshot's dwarves are exactly its accepted creatures, in order,
/// each as `Dwarf::new` decodes it.
pub open spec fn accepts_exactly(s: &Snapshot, layout: &MemoryOffsets, data: &GameData, mem: &ProcessMemory) -> bool {
    &&& s.dwarves@.map_values(|d: Dwarf| d.addr) == s.creature_vector@.filter(
        |c: u64| rejection(s, layout, data, mem, c as int) is None,
    )
    &&& forall|k: int| 0 <= k < s.dwarves@.len() ==> decoded_as(s, layout, data, mem, (#[trigger] s.dwarves@[k]).addr as int, s.dwarves@[k])
}

/// What a snapshot built from `mem` holds.
pub open spec fn built_from(s: &Snapshot, layout: &MemoryOffsets, data: &GameData, mem: &ProcessMemory) -> bool {
    &&& s.fortress_addr as int == mem.u64_at(global_of(mem, layout, "fortress_entity"@) as int)
    &&& s.fortress_addr != 0
    &&& s.dwarf_civ_id as int == mem.i32_at(global_of(mem, layout, "dwarf_civ_index"@) as int)
    &&& s.races@.len() == mem.vec_len(global_of(mem, layout, "races_vector"@) as int, POINTER_SIZE as int)
    &&& s.creature_vector@ == creature_list(mem, layout)
    &&& accepts_exactly(s, layout, data, mem)
}

/// Two snapshots that differ at most in their creature list and dwarves.
pub open spec fn same_world(a: &Snapshot, b: &Snapshot) -> bool {
    &&& a.fortress_addr == b.fortress_addr
    &&& a.fortress_id == b.fortress_id
    &&& a.dwarf_race_id == b.dwarf_race_id
    &&& a.dwarf_civ_id == b.dwarf_civ_id
    &&& a.current_time == b.current_time
    &&& a.syndromes_vector == b.syndromes_vector
    &&& a.color_vector == b.color_vector
    &&& a.shape_vector == b.shape_vector
    &&& a.poetry_vector == b.poetry_vector
    &&& a.music_vector == b.music_vector
    &&& a.dance_vector == b.dance_vector
    &&& a.item_defs == b.item_defs
    &&& a.historical_figures == b.historical_figures
    &&& a.fake_identities_vector == b.fake_identities_vector
    &&& a.positions == b.positions
    &&& a.nobles == b.nobles
    &&& a.beliefs == b.beliefs
    &&& a.languages == b.languages
    &&& a.races == b.races
    &&& a.squads == b.squads
}

/// Decoding a creature reads nothing of the creature list or the dwarves.
pub proof fn lemma_same_world_decodes(a: &Snapshot, b: &Snapshot, layout: &MemoryOffsets, data: &GameData, mem: &ProcessMemory)
    requires
        same_world(a, b),
    ensures
        (|c: u64| rejection(a, layout, data, mem, c as int) is None) == (|c: u64| rejection(b, layout, data, mem, c as int) is None),
        forall|x: int, d: Dwarf| decoded_as(a, layout, data, mem, x, d) == decoded_as(b, layout, data, mem, x, d),
{
    assert((|c: u64| rejection(a, layout, data, mem, c as int) is None) =~= (|c: u64| rejection(b, layout, data, mem, c as int) is None));
}

impl Snapshot {
    /// The current simulation time: the current year and the tick within it.
    pub fn current_time(layout: &MemoryOffsets, mem: &ProcessMemory) -> (r: DfTime)
        ensures
            ({
                let y = mem.i32_at(global_of(mem, layout, "current_year"@) as int);
                let t = mem.i32_at(global_of(mem, layout, "cur_year_tick"@) as int);
                r.ticks as int == crate::dwarf::birth_ticks(y, t)
            }),
    {
        let year = mem.read_i32(global_address(mem, layout.field_offset(OffsetSection::Addresses, "current_year")), 0);
        let tick = mem.read_i32(global_address(mem, layout.field_offset(OffsetSection::Addresses, "cur_year_tick")), 0);
        crate::dwarf::birth_date_of(year, tick)
    }

    /// The tables of colors, shapes, poetic, musical and dance forms.
    pub fn load_arts(layout: &MemoryOffsets, mem: &ProcessMemory) -> (r: (Vec<u64>, Vec<u64>, Vec<u64>, Vec<u64>, Vec<u64>))
        ensures
            r.0@.len() == mem.vec_len(global_of(mem, layout, "colors_vector"@) as int, POINTER_SIZE as int),
            r.1@.len() == mem.vec_len(global_of(mem, layout, "shapes_vector"@) as int, POINTER_SIZE as int),
            r.2@.len() == mem.vec_len(global_of(mem, layout, "poetic_forms_vector"@) as int, POINTER_SIZE as int),
            r.3@.len() == mem.vec_len(global_of(mem, layout, "musical_forms_vector"@) as int, POINTER_SIZE as int),
            r.4@.len() == mem.vec_len(global_of(mem, layout, "dance_forms_vector"@) as int, POINTER_SIZE as int),
    {
        (
            mem.read_pointer_vector(global_address(mem, layout.field_offset(OffsetSection::Addresses, "colors_vector")), 0),
            mem.read_pointer_vector(global_address(mem, layout.field_offset(OffsetSection::Addresses, "shapes_vector")), 0),
            mem.read_pointer_vector(global_address(mem, layout.field_offset(OffsetSection::Addresses, "poetic_forms_vector")), 0),
            mem.read_pointer_vector(global_address(mem, layout.field_offset(OffsetSection::Addresses, "musical_forms_vector")), 0),
            mem.read_pointer_vector(global_address(mem, layout.field_offset(OffsetSection::Addresses, "dance_forms_vector")), 0),
        )
    }

    fn item_table(layout: &MemoryOffsets, mem: &ProcessMemory, kind: ItemType, name: &str) -> (r: (ItemType, Vec<u64>))
        ensures
            r.0 == kind,
            r.1@.len() == mem.vec_len(global_of(mem, layout, name@) as int, POINTER_SIZE as int),
    {
        (kind, mem.read_pointer_vector(global_address(mem, layout.field_offset(OffsetSection::Addresses, name)), 0))
    }

    /// The item definition tables, one per kind of item that has them.
    pub fn load_item_definitions(layout: &MemoryOffsets, mem: &ProcessMemory) -> (r: Vec<(ItemType, Vec<u64>)>)
        ensures
            r@.len() == 14,
            r@[0].0 == ItemType::Weapon,
            r@[5].0 == ItemType::Armor,
            r@[13].0 == ItemType::Food,
    {
        let mut r: Vec<(ItemType, Vec<u64>)> = Vec::new();
        r.push(Self::item_table(layout, mem, ItemType::Weapon, "itemdef_weapons_vector"));
        r.push(Self::item_table(layout, mem, ItemType::TrapComp, "itemdef_trap_vector"));
        r.push(Self::item_table(layout, mem, ItemType::Toy, "itemdef_toy_vector"));
        r.push(Self::item_table(layout, mem, ItemType::Tool, "itemdef_tool_vector"));
        r.push(Self::item_table(layout, mem, ItemType::Instrument, "itemdef_instrument_vector"));
        r.push(Self::item_table(layout, mem, ItemType::Armor, "itemdef_armor_vector"));
        r.push(Self::item_table(layout, mem, ItemType::Ammo, "itemdef_ammo_vector"));
        r.push(Self::item_table(layout, mem, ItemType::SiegeAmmo, "itemdef_siegeammo_vector"));
        r.push(Self::item_table(layout, mem, ItemType::Gloves, "itemdef_glove_vector"));
        r.push(Self::item_table(layout, mem, ItemType::Shoes, "itemdef_shoe_vector"));
        r.push(Self::item_table(layout, mem, ItemType::Shield, "itemdef_shield_vector"));
        r.push(Self::item_table(layout, mem, ItemType::Helm, "itemdef_helm_vector"));
        r.push(Self::item_table(layout, mem, ItemType::Pants, "itemdef_pant_vector"));
        r.push(Self::item_table(layout, mem, ItemType::Food, "itemdef_food_vector"));
        r
    }

    /// The word table and the translations.
    pub fn load_languages(layout: &MemoryOffsets, mem: &ProcessMemory) -> (r: Languages)
        ensures
            r.translations@.len() == mem.vec_len(global_of(mem, layout, "translation_vector"@) as int, POINTER_SIZE as int),
    {
        let words = global_address(mem, layout.field_offset(OffsetSection::Addresses, "language_vector"));
        let translations = global_address(mem, layout.field_offset(OffsetSection::Addresses, "translation_vector"));
        Languages::load(mem, layout, words, translations)
    }

    /// All races, numbered in table order, each with its castes.
    pub fn load_races(layout: &MemoryOffsets, mem: &ProcessMemory) -> (r: Vec<Race>)
        ensures
            r@.len() == mem.vec_len(global_of(mem, layout, "races_vector"@) as int, POINTER_SIZE as int),
            forall|k: int| 0 <= k < r@.len() ==> (#[trigger] r@[k]).id == k,
            forall|k: int| 0 <= k < r@.len() ==> (#[trigger] r@[k]).name@ == string_at(
                mem,
                mem.vec_ptr(global_of(mem, layout, "races_vector"@) as int, k) + layout.off(OffsetSection::Race, "name_singular"@),
            ),
    {
        let table = global_address(mem, layout.field_offset(OffsetSection::Addresses, "races_vector"));
        let ptrs = mem.read_pointer_vector(table, 0);
        let mut races: Vec<Race> = Vec::new();
        let mut i: usize = 0;
        while i < ptrs.len()
            invariant
                i <= ptrs@.len(),
                ptrs@.len() == mem.vec_len(table as int, POINTER_SIZE as int),
                ptrs@.len() <= 0x200_0000,
                forall|k: int| 0 <= k < ptrs@.len() ==> (#[trigger] ptrs@[k]) as int == mem.vec_ptr(table as int, k),
                races@.len() == i,
                forall|k: int| 0 <= k < i ==> (#[trigger] races@[k]).id == k,
                forall|k: int| 0 <= k < i ==> (#[trigger] races@[k]).name@ == string_at(
                    mem,
                    mem.vec_ptr(table as int, k) + layout.off(OffsetSection::Race, "name_singular"@),
                ),
            decreases ptrs@.len() - i,
        {
            races.push(Race::new(mem, layout, i as i32, ptrs[i]));
            i = i + 1;
        }
        races
    }

    /// The index of historical figures by id, and the table of false
    /// identities.
    pub fn load_historical_figures(layout: &MemoryOffsets, mem: &ProcessMemory) -> (r: (Vec<(i32, u64)>, Vec<u64>))
        ensures
            r.0@.len() == mem.vec_len(global_of(mem, layout, "historical_figures_vector"@) as int, POINTER_SIZE as int),
            forall|k: int| 0 <= k < r.0@.len() ==> (#[trigger] r.0@[k]).1 as int == mem.vec_ptr(global_of(mem, layout, "historical_figures_vector"@) as int, k)
                && r.0@[k].0 as int == mem.i32_at(r.0@[k].1 + layout.off(OffsetSection::HistFigure, "id"@)),
            r.1@.len() == mem.vec_len(global_of(mem, layout, "fake_identities_vector"@) as int, POINTER_SIZE as int),
    {
        let table = global_address(mem, layout.field_offset(OffsetSection::Addresses, "historical_figures_vector"));
        let id_off = layout.field_offset(OffsetSection::HistFigure, "id");
        let ptrs = mem.read_pointer_vector(table, 0);
        let mut figs: Vec<(i32, u64)> = Vec::new();
        let mut i: usize = 0;
        while i < ptrs.len()
            invariant
                i <= ptrs@.len(),
                ptrs@.len() == mem.vec_len(table as int, POINTER_SIZE as int),
                forall|k: int| 0 <= k < ptrs@.len() ==> (#[trigger] ptrs@[k]) as int == mem.vec_ptr(table as int, k),
                figs@.len() == i,
                forall|k: int| 0 <= k < i ==> (#[trigger] figs@[k]).1 as int == mem.vec_ptr(table as int, k)
                    && figs@[k].0 as int == mem.i32_at(figs@[k].1 + id_off),
            decreases ptrs@.len() - i,
        {
            figs.push((mem.read_i32(ptrs[i], id_off), ptrs[i]));
            i = i + 1;
        }
        let fakes = mem.read_pointer_vector(global_address(mem, layout.field_offset(OffsetSection::Addresses, "fake_identities_vector")), 0);
        (figs, fakes)
    }

    /// The positions of the fortress's government and who holds them:
    /// for each civilization entity, its positions by id, and for each
    /// assignment held by a figure, that figure's id with the position.
    pub fn load_historical_entities(layout: &MemoryOffsets, mem: &ProcessMemory) -> (r: (Vec<(i32, FortressPosition)>, Vec<(i32, FortressPosition)>))
        ensures
            forall|k: int| 0 <= k < r.1@.len() ==> (#[trigger] r.1@[k]).0 > 0 && holds_position(
                mem,
                layout,
                Seq::new(
                    mem.vec_len(global_of(mem, layout, "historical_entities_vector"@) as int, POINTER_SIZE as int) as nat,
                    |i: int| mem.vec_ptr(global_of(mem, layout, "historical_entities_vector"@) as int, i) as u64,
                ),
                r.1@[k].0,
                r.1@[k].1.name@,
            ),
    {
        let table = global_address(mem, layout.field_offset(OffsetSection::Addresses, "historical_entities_vector"));
        let entities = mem.read_pointer_vector(table, 0);
        let positions_off = layout.field_offset(OffsetSection::HistEntity, "positions");
        let assignments_off = layout.field_offset(OffsetSection::HistEntity, "assignments");
        let pos_id_off = layout.field_offset(OffsetSection::HistEntity, "position_id");
        let name_off = layout.field_offset(OffsetSection::HistEntity, "position_name");
        let male_off = layout.field_offset(OffsetSection::HistEntity, "position_male_name");
        let female_off = layout.field_offset(OffsetSection::HistEntity, "position_female_name");
        let assign_pos_off = layout.field_offset(OffsetSection::HistEntity, "assign_position_id");
        let assign_hist_off = layout.field_offset(OffsetSection::HistEntity, "assign_hist_id");
        let ghost ents = Seq::new(
            mem.vec_len(table as int, POINTER_SIZE as int) as nat,
            |i: int| mem.vec_ptr(table as int, i) as u64,
        );
        assert(entities@ =~= ents);
        let mut positions: Vec<(i32, FortressPosition)> = Vec::new();
        let mut nobles: Vec<(i32, FortressPosition)> = Vec::new();
        let mut e: usize = 0;
        while e < entities.len()
            invariant
                e <= entities@.len(),
                entities@ == ents,
                positions_off == layout.off(OffsetSection::HistEntity, "positions"@),
                assignments_off == layout.off(OffsetSection::HistEntity, "assignments"@),
                pos_id_off == layout.off(OffsetSection::HistEntity, "position_id"@),
                name_off == layout.off(OffsetSection::HistEntity, "position_name"@),
                assign_pos_off == layout.off(OffsetSection::HistEntity, "assign_position_id"@),
                assign_hist_off == layout.off(OffsetSection::HistEntity, "assign_hist_id"@),
                forall|k: int| 0 <= k < nobles@.len() ==> (#[trigger] nobles@[k]).0 > 0
                    && holds_position(mem, layout, ents, nobles@[k].0, nobles@[k].1.name@),
            decreases entities@.len() - e,
        {
            let ent = entities[e];
            if mem.read_i16(ent, 0) == 0 {
                let pos_ptrs = mem.read_pointer_vector(ent, positions_off);
                let mut own: Vec<(i32, FortressPosition)> = Vec::new();
                let mut p: usize = 0;
                while p < pos_ptrs.len()
                    invariant
                        p <= pos_ptrs@.len(),
                        pos_ptrs@.len() == mem.vec_len(ent + positions_off, POINTER_SIZE as int),
                        forall|k: int| 0 <= k < pos_ptrs@.len() ==> (#[trigger] pos_ptrs@[k]) as int == position_rec(mem, layout, ent as int, k),
                        own@.len() == p,
                        forall|k: int| 0 <= k < p ==> (#[trigger] own@[k]).0 as int == mem.i32_at(position_rec(mem, layout, ent as int, k) + pos_id_off)
                            && own@[k].1.name@ == string_at(mem, position_rec(mem, layout, ent as int, k) + name_off),
                    decreases pos_ptrs@.len() - p,
                {
                    let pa = pos_ptrs[p];
                    let pos = FortressPosition {
                        name: read_string(mem, pa, name_off),
                        name_male: read_string(mem, pa, male_off),
                        name_female: read_string(mem, pa, female_off),
                    };
                    own.push((mem.read_i32(pa, pos_id_off), pos));
                    p = p + 1;
                }
                let assigns = mem.read_pointer_vector(ent, assignments_off);
                let mut a: usize = 0;
                while a < assigns.len()
                    invariant
                        a <= assigns@.len(),
                        pos_id_off == layout.off(OffsetSection::HistEntity, "position_id"@),
                        name_off == layout.off(OffsetSection::HistEntity, "position_name"@),
                        assign_pos_off == layout.off(OffsetSection::HistEntity, "assign_position_id"@),
                        assign_hist_off == layout.off(OffsetSection::HistEntity, "assign_hist_id"@),
                        assignments_off == layout.off(OffsetSection::HistEntity, "assignments"@),
                        positions_off == layout.off(OffsetSection::HistEntity, "positions"@),
                        0 <= e < ents.len(),
                        ent == ents[e as int],
                        mem.i16_at(ent as int) == 0,
                        assigns@.len() == mem.vec_len(ent + assignments_off, POINTER_SIZE as int),
                        forall|k: int| 0 <= k < assigns@.len() ==> (#[trigger] assigns@[k]) as int == assignment_rec(mem, layout, ent as int, k),
                        own@.len() == pos_ptrs@.len(),
                        pos_ptrs@.len() == mem.vec_len(ent + positions_off, POINTER_SIZE as int),
                        forall|k: int| 0 <= k < own@.len() ==> (#[trigger] own@[k]).0 as int == mem.i32_at(position_rec(mem, layout, ent as int, k) + pos_id_off)
                            && own@[k].1.name@ == string_at(mem, position_rec(mem, layout, ent as int, k) + name_off),
                        forall|k: int| 0 <= k < nobles@.len() ==> (#[trigger] nobles@[k]).0 > 0
                            && holds_position(mem, layout, ents, nobles@[k].0, nobles@[k].1.name@),
                    decreases assigns@.len() - a,
                {
                    let pos_id = mem.read_i32(assigns[a], assign_pos_off);
                    let hist_id = mem.read_i32(assigns[a], assign_hist_off);
                    if hist_id > 0 {
                        if let Some(q) = position_index(&own, pos_id) {
                            let pos = own[q].1.clone();
                            proof {
                                let ei = e as int;
                                let ai = a as int;
                                let pi = q as int;
                                assert(holds_position(mem, layout, ents, hist_id, pos.name@)) by {
                                    assert(0 <= ei < ents.len() && mem.i16_at(ents[ei] as int) == 0);
                                    assert(mem.i32_at(assignment_rec(mem, layout, ents[ei] as int, ai) + hoff(layout, "assign_hist_id"@)) == hist_id);
                                    assert(mem.i32_at(position_rec(mem, layout, ents[ei] as int, pi) + hoff(layout, "position_id"@)) == pos_id);
                                }
                            }
                            nobles.push((hist_id, pos));
                        }
                    }
                    a = a + 1;
                }
                let mut m: usize = 0;
                while m < own.len()
                    invariant
                        m <= own@.len(),
                    decreases own@.len() - m,
                {
                    positions.push((own[m].0, own[m].1.clone()));
                    m = m + 1;
                }
            }
            e = e + 1;
        }
        (positions, nobles)
    }

    /// The fortress's value for each belief of the catalog, capped at 100.
    pub fn load_beliefs(layout: &MemoryOffsets, data: &GameData, mem: &ProcessMemory, fortress_addr: u64) -> (r: Vec<i32>)
        ensures
            r@.len() == data.beliefs@.len(),
            forall|k: int| 0 <= k < r@.len() ==> (#[trigger] r@[k]) == capped_belief(
                mem.i32_at(wrap_add(fortress_addr, layout.off(OffsetSection::HistEntity, "beliefs"@)) + 4 * k),
            ),
    {
        let base = add_addr(fortress_addr, layout.field_offset(OffsetSection::HistEntity, "beliefs"));
        let mut out: Vec<i32> = Vec::new();
        let mut i: usize = 0;
        while i < data.beliefs.len()
            invariant
                i <= data.beliefs@.len(),
                out@.len() == i,
                base == wrap_add(fortress_addr, layout.off(OffsetSection::HistEntity, "beliefs"@)),
                forall|k: int| 0 <= k < i ==> (#[trigger] out@[k]) == capped_belief(mem.i32_at(base + 4 * k)),
            decreases data.beliefs@.len() - i,
        {
            let v = match (i as u64).checked_mul(4) {
                Some(o) => mem.read_i32(base, o),
                None => {
                    proof {
                        mem.lemma_high_zero(base + 4 * i, 4);
                    }
                    0
                },
            };
            out.push(if v > 100 { 100 } else { v });
            i = i + 1;
        }
        out
    }

    /// All squads; `month` is the current month of the year.
    pub fn load_squads(layout: &MemoryOffsets, mem: &ProcessMemory, month: u64) -> (r: (Vec<u64>, Vec<Squad>))
        ensures
            r.0@.len() == mem.vec_len(global_of(mem, layout, "squad_vector"@) as int, POINTER_SIZE as int),
            r.1@.len() == r.0@.len(),
            forall|k: int| 0 <= k < r.1@.len() ==> (#[trigger] r.1@[k]).addr == r.0@[k],
    {
        let ptrs = mem.read_pointer_vector(global_address(mem, layout.field_offset(OffsetSection::Addresses, "squad_vector")), 0);
        let mut squads: Vec<Squad> = Vec::new();
        let mut i: usize = 0;
        while i < ptrs.len()
            invariant
                i <= ptrs@.len(),
                squads@.len() == i,
                forall|k: int| 0 <= k < i ==> (#[trigger] squads@[k]).addr == ptrs@[k],
            decreases ptrs@.len() - i,
        {
            squads.push(Squad::new(mem, layout, ptrs[i], month));
            i = i + 1;
        }
        (ptrs, squads)
    }

    /// The race numbered `id`.
    pub fn get_race(&self, id: i32) -> (r: Option<&Race>)
        ensures
            0 <= id < self.races@.len() ==> r == Some(&self.races@[id as int]),
            !(0 <= id < self.races@.len()) ==> r is None,
    {
        if id < 0 || id as usize >= self.races.len() {
            None
        } else {
            Some(&self.races[id as usize])
        }
    }

    /// The record of the false identity numbered `id`.
    pub fn get_fake_identity(&self, mem: &ProcessMemory, id: i32) -> (r: Option<u64>)
        ensures
            r is None <==> crate::histfig::identity_from(mem, self.fake_identities_vector@, 0, id as int) is None,
    {
        crate::histfig::find_fake_identity(mem, &self.fake_identities_vector, id)
    }

    /// The dwarves decoded from `creatures`: for each accepted creature, in
    /// list order, what `Dwarf::new` makes of it; every other is left out.
    pub fn decode_creatures(&self, layout: &MemoryOffsets, data: &GameData, mem: &ProcessMemory, creatures: &Vec<u64>) -> (r: Vec<Dwarf>)
        ensures
            r@.map_values(|d: Dwarf| d.addr) == creatures@.filter(
                |c: u64| rejection(self, layout, data, mem, c as int) is None,
            ),
            forall|k: int| 0 <= k < r@.len() ==> decoded_as(self, layout, data, mem, (#[trigger] r@[k]).addr as int, r@[k]),
    {
        let mut out: Vec<Dwarf> = Vec::new();
        let mut i: usize = 0;
        while i < creatures.len()
            invariant
                i <= creatures@.len(),
                out@.map_values(|d: Dwarf| d.addr) == creatures@.subrange(0, i as int).filter(
                    |c: u64| rejection(self, layout, data, mem, c as int) is None,
                ),
                forall|k: int| 0 <= k < out@.len() ==> decoded_as(self, layout, data, mem, (#[trigger] out@[k]).addr as int, out@[k]),
            decreases creatures@.len() - i,
        {
            let c = creatures[i];
            proof {
                let s = creatures@.subrange(0, i as int + 1);
                assert(s.drop_last() =~= creatures@.subrange(0, i as int));
                reveal(Seq::filter);
            }
            match Dwarf::new(self, layout, data, mem, c) {
                Ok(d) => {
                    let ghost before = out@;
                    out.push(d);
                    assert(out@.map_values(|d: Dwarf| d.addr) =~= before.map_values(|d: Dwarf| d.addr).push(c));
                },
                Err(_) => {},
            }
            i = i + 1;
        }
        assert(creatures@.subrange(0, i as int) =~= creatures@);
        out
    }

    /// The dwarves among the snapshot's own creature list.
    pub fn load_dwarves(&self, layout: &MemoryOffsets, data: &GameData, mem: &ProcessMemory) -> (r: Vec<Dwarf>)
        ensures
            r@.map_values(|d: Dwarf| d.addr) == self.creature_vector@.filter(
                |c: u64| rejection(self, layout, data, mem, c as int) is None,
            ),
            forall|k: int| 0 <= k < r@.len() ==> decoded_as(self, layout, data, mem, (#[trigger] r@[k]).addr as int, r@[k]),
    {
        self.decode_creatures(layout, data, mem, &self.creature_vector)
    }

    /// The active creature list, read afresh.
    pub fn read_creature_vector(layout: &MemoryOffsets, mem: &ProcessMemory) -> (r: Vec<u64>)
        ensures
            r@ == creature_list(mem, layout),
    {
        let r = mem.read_pointer_vector(global_address(mem, layout.field_offset(OffsetSection::Addresses, "active_creature_vector")), 0);
        assert(r@ =~= creature_list(mem, layout));
        r
    }

    /// Puts a re-read creature list and its dwarves in place; nothing else
    /// changes.
    pub fn set_creatures(&mut self, creatures: Vec<u64>, dwarves: Vec<Dwarf>)
        ensures
            same_world(old(self), final(self)),
            final(self).creature_vector == creatures,
            final(self).dwarves == dwarves,
    {
        self.creature_vector = creatures;
        self.dwarves = dwarves;
    }

    /// Decodes a whole snapshot, in dependency order: languages, races,
    /// historical figures, entities, false identities, fortress beliefs,
    /// squads, and then the creatures. Fails when no fortress is loaded.
    #[verifier::rlimit(50)]
    pub fn build(layout: &MemoryOffsets, data: &GameData, mem: &ProcessMemory) -> (r: Result<Snapshot, RebuildError>)
        ensures
            mem.u64_at(global_of(mem, layout, "fortress_entity"@) as int) == 0 ==> r == Err::<Snapshot, RebuildError>(RebuildError::NoFortress),
            mem.u64_at(global_of(mem, layout, "fortress_entity"@) as int) != 0 ==> r is Ok,
            r matches Ok(s) ==> built_from(&s, layout, data, mem),
    {
        let fortress_addr = mem.read_u64(global_address(mem, layout.field_offset(OffsetSection::Addresses, "fortress_entity")), 0);
        if fortress_addr == 0 {
            return Err(RebuildError::NoFortress);
        }
        let fortress_id = mem.read_i32(fortress_addr, POINTER_SIZE);
        let dwarf_race_id = mem.read_i16(global_address(mem, layout.field_offset(OffsetSection::Addresses, "dwarf_race_index")), 0) as i32;
        let dwarf_civ_id = mem.read_i32(global_address(mem, layout.field_offset(OffsetSection::Addresses, "dwarf_civ_index")), 0);
        let creature_vector = Self::read_creature_vector(layout, mem);
        let syndromes_vector = mem.read_pointer_vector(global_address(mem, layout.field_offset(OffsetSection::Addresses, "all_syndromes_vector")), 0);
        let current_time = Self::current_time(layout, mem);
        let item_defs = Self::load_item_definitions(layout, mem);
        let (color_vector, shape_vector, poetry_vector, music_vector, dance_vector) = Self::load_arts(layout, mem);
        let languages = Self::load_languages(layout, mem);
        let races = Self::load_races(layout, mem);
        let (historical_figures, fake_identities_vector) = Self::load_historical_figures(layout, mem);
        let (positions, nobles) = Self::load_historical_entities(layout, mem);
        let beliefs = Self::load_beliefs(layout, data, mem, fortress_addr);
        let (_, squads) = Self::load_squads(layout, mem, current_time.month_of_year());
        let mut snap = Snapshot {
            fortress_addr,
            fortress_id,
            dwarf_race_id,
            dwarf_civ_id,
            current_time,
            creature_vector,
            syndromes_vector,
            color_vector,
            shape_vector,
            poetry_vector,
            music_vector,
            dance_vector,
            item_defs,
            historical_figures,
            fake_identities_vector,
            positions,
            nobles,
            beliefs,
            languages,
            races,
            squads,
            dwarves: Vec::new(),
        };
        let dwarves = snap.load_dwarves(layout, data, mem);
        let ghost before = snap;
        snap.dwarves = dwarves;
        proof {
            lemma_same_world_decodes(&before, &snap, layout, data, mem);
        }
        Ok(snap)
    }
}

/// The schema, the catalog, and the latest complete snapshot, if any.
pub struct DFInstance {
    pub memory_layout: MemoryOffsets,
    pub game_data: GameData,
    /// Process id of the attached process; 0 when none is attached.
    pub pid: u32,
    pub snapshot: Option<Snapshot>,
}

impl DFInstance {
    /// An instance with no snapshot yet. A schema that lacks a field the
    /// decoders look up is refused, with the first such field: a missing
    /// offset is a fault at load time, never a default.
    pub fn new(memory_layout: MemoryOffsets, game_data: GameData) -> (r: Result<DFInstance, (OffsetSection, String)>)
        ensures
            r matches Ok(i) ==> i.memory_layout == memory_layout && i.game_data == game_data && i.pid == 0
                && i.snapshot is None,
            r matches Err(e) ==> memory_layout.offset_of(e.0, e.1@) is None,
    {
        let required = required_fields();
        match memory_layout.missing_field(&required) {
            Some(k) => {
                let (section, field) = &required[k];
                Err((*section, field.clone()))
            },
            None => Ok(DFInstance { memory_layout, game_data, pid: 0, snapshot: None }),
        }
    }

    /// Whether the process shows no fortress, as on the embark screen.
    pub fn is_on_embark_screen(&self, mem: &ProcessMemory) -> (r: bool)
        ensures
            r == (mem.u64_at(global_of(mem, &self.memory_layout, "fortress_entity"@) as int) == 0),
    {
        let a = global_address(mem, self.memory_layout.field_offset(OffsetSection::Addresses, "fortress_entity"));
        mem.read_u64(a, 0) == 0
    }

    /// Rebuilds the whole snapshot from `mem`, then replaces the old one in
    /// one step; on failure the old snapshot stays as it was.
    pub fn rebuild(&mut self, mem: &ProcessMemory) -> (r: Result<(), RebuildError>)
        ensures
            final(self).memory_layout == old(self).memory_layout,
            final(self).game_data == old(self).game_data,
            final(self).pid == mem.pid,
            r is Err ==> final(self).snapshot == old(self).snapshot,
            r is Ok ==> (final(self).snapshot matches Some(s) && built_from(&s, &old(self).memory_layout, &old(self).game_data, mem)),
            r is Err <==> mem.u64_at(global_of(mem, &old(self).memory_layout, "fortress_entity"@) as int) == 0,
    {
        self.pid = mem.pid;
        match Snapshot::build(&self.memory_layout, &self.game_data, mem) {
            Ok(s) => {
                self.snapshot = Some(s);
                Ok(())
            },
            Err(e) => Err(e),
        }
    }

    /// Re-reads only the creature list and the dwarves, against the races,
    /// squads and figures of the current snapshot. Without a snapshot
    /// nothing is done and the answer is false.
    pub fn refresh_creatures(&mut self, mem: &ProcessMemory) -> (r: bool)
        ensures
            final(self).memory_layout == old(self).memory_layout,
            final(self).game_data == old(self).game_data,
            final(self).pid == old(self).pid,
            r == old(self).snapshot is Some,
            !r ==> final(self).snapshot == old(self).snapshot,
            r ==> (final(self).snapshot matches Some(s) && old(self).snapshot matches Some(o) && {
                &&& same_world(&o, &s)
                &&& s.creature_vector@ == creature_list(mem, &old(self).memory_layout)
                &&& accepts_exactly(&s, &old(self).memory_layout, &old(self).game_data, mem)
            }),
    {
        let snap = self.snapshot.take();
        match snap {
            Some(mut s) => {
                let creatures = Snapshot::read_creature_vector(&self.memory_layout, mem);
                let dwarves = s.decode_creatures(&self.memory_layout, &self.game_data, mem, &creatures);
                let ghost before = s;
                s.set_creatures(creatures, dwarves);
                proof {
                    lemma_same_world_decodes(&before, &s, &self.memory_layout, &self.game_data, mem);
                }
                self.snapshot = Some(s);
                true
            },
            None => {
                self.snapshot = None;
                false
            },
        }
    }

    /// Marks the process as gone; the last snapshot stays readable.
    pub fn detach(&mut self)
        ensures
            final(self).pid == 0,
            final(self).snapshot == old(self).snapshot,
            final(self).memory_layout == old(self).memory_layout,
            final(self).game_data == old(self).game_data,
    {
        self.pid = 0;
    }
}
} // verus!
