//! The creature decoder: turns one creature record into a hydrated dwarf,
//! or rejects it.

use vstd::prelude::*;
use crate::attribute::{mental_attributes, physical_attributes, Attribute, ATTRIBUTE_STRIDE};
use crate::gamedata::{profession_from, GameData};
use crate::histfig::{FortressPosition, HistoricalFigure};
use crate::instance::Snapshot;
use crate::language::Languages;
use crate::layout::{MemoryOffsets, OffsetSection};
use crate::memory::{add_addr, wrap_add, ProcessMemory, POINTER_SIZE};
use crate::need::Need;
use crate::personality::{
    combat_hardened, combat_hardened_spec, conflicts, is_conflict, mood_locked, nearest_band,
    is_nearest_band, resolved_mood, Commitment, Mood, Orientation, Sex,
};
use crate::preference::Preference;
use crate::skill::Skill;
use crate::syndromes::{display_of, last_curse, Curse, CurseType, Syndrome};
use crate::text::{read_string, string_at};
use crate::thought::Thought;
use crate::time::{DfTime, TICKS_PER_YEAR};

verus! {

/// Width of the labor bitmap: one byte per labor id.
pub const LABOR_BYTES: u64 = 94;

/// Why a creature is left out of the snapshot.
#[derive(PartialEq, Eq, Structural, Clone, Copy, Debug)]
pub enum Rejection {
    /// The creature belongs to another civilization.
    WrongCiv,
    /// The creature's race id names no decoded race.
    UnknownRace,
    /// The creature's race is not the dwarf race.
    NotDwarf,
    /// The race lacks the caste that the creature names.
    NoCaste,
    /// The catalog has no profession with the creature's profession id.
    UnknownProfession,
    /// The creature has no soul.
    NoSoul,
}

pub open spec fn doff(layout: &MemoryOffsets, f: Seq<char>) -> int {
    layout.off(OffsetSection::Dwarf, f) as int
}

pub open spec fn soff(layout: &MemoryOffsets, f: Seq<char>) -> int {
    layout.off(OffsetSection::Soul, f) as int
}

/// Which caste of its race a creature's caste id selects: the first for
/// id 0, the second otherwise.
pub open spec fn caste_slot(caste_id: int) -> int {
    if caste_id == 0 { 0 } else { 1 }
}

/// The rejection of the creature at `a`, checked in decoding order, or
/// `None` for a dwarf of the fortress.
pub open spec fn rejection(snap: &Snapshot, layout: &MemoryOffsets, data: &GameData, mem: &ProcessMemory, a: int) -> Option<Rejection> {
    let civ = mem.i32_at(a + doff(layout, "civ"@));
    let race_id = mem.i32_at(a + doff(layout, "race"@));
    let caste_id = mem.i32_at(a + doff(layout, "caste"@));
    if civ != snap.dwarf_civ_id {
        Some(Rejection::WrongCiv)
    } else if !(0 <= race_id < snap.races@.len()) {
        Some(Rejection::UnknownRace)
    } else if snap.races@[race_id].name@ != "dwarf"@ {
        Some(Rejection::NotDwarf)
    } else if snap.races@[race_id].castes@.len() <= caste_slot(caste_id) {
        Some(Rejection::NoCaste)
    } else if profession_from(data.professions@, 0, mem.u8_at(a + doff(layout, "profession"@)) as i32) is None {
        Some(Rejection::UnknownProfession)
    } else if mem.vec_len(a + doff(layout, "souls"@), POINTER_SIZE as int) == 0 {
        Some(Rejection::NoSoul)
    } else {
        None
    }
}

/// What a creature at `a` decodes to, when it is accepted.
pub open spec fn decoded_as(snap: &Snapshot, layout: &MemoryOffsets, data: &GameData, mem: &ProcessMemory, a: int, d: Dwarf) -> bool {
    let race_id = mem.i32_at(a + doff(layout, "race"@));
    &&& d.addr as int == a
    &&& d.id as int == mem.i32_at(a + doff(layout, "id"@))
    &&& d.civ_id == snap.dwarf_civ_id
    &&& d.race_id as int == race_id
    &&& 0 <= race_id < snap.races@.len()
    &&& snap.races@[race_id].name@ == "dwarf"@
    &&& d.caste_index as int == caste_slot(mem.i32_at(a + doff(layout, "caste"@)))
    &&& d.caste_index < snap.races@[race_id].castes@.len()
    &&& d.raw_prof_id as int == mem.u8_at(a + doff(layout, "profession"@))
    &&& profession_from(data.professions@, 0, d.raw_prof_id as i32) == Some(d.profession_index as int)
    &&& d.mood == resolved_mood(mem.i16_at(a + doff(layout, "mood"@)), mem.i16_at(a + doff(layout, "temp_mood"@)))
    &&& d.locked_mood == mood_locked(d.mood, mem.i16_at(a + doff(layout, "mood"@)))
    &&& d.body_size as int == mem.i32_at(a + doff(layout, "size_info"@))
    &&& d.body_size_base as int == mem.i32_at(a + doff(layout, "size_base"@))
    &&& d.souls@.len() > 0
    &&& d.curse.curse_type == last_curse(d.syndromes@.map_values(|s: Syndrome| display_of(s.name@, s.class_views())))
    &&& d.is_cursed == (d.curse.curse_type != CurseType::Uncursed)
    &&& d.orientation == crate::personality::orientation_of(d.sex, d.orient_vec@[0], d.orient_vec@[1])
    &&& d.traits@.len() == data.facets@.len() + 1
    &&& d.thought_ids@.len() == d.thoughts@.len()
    &&& (data.happiness_levels@.len() == 0 <==> d.happiness_index is None)
    &&& (d.happiness_index matches Some(k) ==> is_nearest_band(
        data.happiness_levels@.map_values(|h: crate::gamedata::HappinessLevel| h.threshold),
        d.stress_level as int,
        k as int,
    ))
    &&& d.histfig_id as int == mem.i32_at(a + doff(layout, "hist_id"@))
    &&& d.squad_id as int == mem.i32_at(a + doff(layout, "squad_id"@))
    &&& d.labors@.len() == data.labors@.len()
    &&& d.attributes@.len() == 19
    &&& d.orient_vec@.len() == 2
    &&& forall|k: int| 0 <= k < d.labors@.len() ==> (#[trigger] d.labors@[k]).id == data.labors@[k].id
        && d.labors@[k].name@ == data.labors@[k].name@
        && d.labors@[k].enabled == (0 <= d.labors@[k].id < LABOR_BYTES && mem.byte(a + doff(layout, "labors"@) + d.labors@[k].id) > 0)
    &&& ({
        let n = wrap_add(d.addr, layout.off(OffsetSection::Dwarf, "name"@));
        let lang = mem.i32_at(n + layout.off(OffsetSection::Word, "language_id"@));
        let first = string_at(mem, n + layout.off(OffsetSection::Word, "first_name"@));
        let nick = string_at(mem, n + layout.off(OffsetSection::Word, "nickname"@));
        &&& d.last_name@ == crate::text::capitalized(
            snap.languages.chunk(Languages::name_word_id(mem, layout, n as int, 0), lang)
            + snap.languages.chunk(Languages::name_word_id(mem, layout, n as int, 1), lang),
        )
        &&& if d.histfig is Some && d.histfig.unwrap().fake_identity is Some {
            let f = d.histfig.unwrap().fake_identity.unwrap();
            &&& d.first_name@ == f.fake_name@
            &&& d.nickname@ == f.fake_nickname@
            &&& d.real_name@ == first
            &&& d.birth_date.ticks as int == birth_ticks(f.fake_birth_year as int, f.fake_birth_time as int)
            &&& d.real_birth_date.ticks as int == birth_ticks(mem.i32_at(a + doff(layout, "birth_year"@)), mem.i32_at(a + doff(layout, "birth_time"@)))
        } else {
            &&& d.first_name@ == first
            &&& d.nickname@ == nick
            &&& d.real_name@.len() == 0
            &&& d.birth_date.ticks as int == birth_ticks(mem.i32_at(a + doff(layout, "birth_year"@)), mem.i32_at(a + doff(layout, "birth_time"@)))
        }
    })
}

/// The value of the first held belief named `name` among `beliefs[i..]`.
pub open spec fn held_value(beliefs: Seq<(i32, String, i16)>, name: Seq<char>, i: int) -> Option<i16>
    decreases beliefs.len() - i,
{
    if i < 0 || i >= beliefs.len() {
        None
    } else if beliefs[i].1@ == name {
        Some(beliefs[i].2)
    } else {
        held_value(beliefs, name, i + 1)
    }
}

/// The beliefs, among a facet's declared conflicts, that conflict with the
/// facet's value: a held belief of that name that is firmly held against a
/// low value, or firmly rejected against a high one.
pub open spec fn facet_conflicts(data: &GameData, beliefs: Seq<(i32, String, i16)>, pairs: Seq<(String, i32)>, val: int) -> Seq<i32>
    decreases pairs.len(),
{
    if pairs.len() == 0 {
        Seq::empty()
    } else {
        let prev = facet_conflicts(data, beliefs, pairs.drop_last(), val);
        let b = pairs.last().1;
        if 0 <= b < data.beliefs@.len() && held_value(beliefs, data.beliefs@[b as int].name@, 0) is Some
            && conflicts(held_value(beliefs, data.beliefs@[b as int].name@, 0).unwrap() as int, val) {
            prev.push(b)
        } else {
            prev
        }
    }
}

/// The conflicts of the first `n` facets, in catalog order, facet `k`
/// having value `vals(k)`.
pub open spec fn all_conflicts(data: &GameData, beliefs: Seq<(i32, String, i16)>, n: int, vals: spec_fn(int) -> int) -> Seq<i32>
    decreases n,
{
    if n <= 0 || n > data.facets@.len() {
        Seq::empty()
    } else {
        all_conflicts(data, beliefs, n - 1, vals) + facet_conflicts(data, beliefs, data.facets@[n - 1].belief_conflicts@, vals(n - 1))
    }
}

/// A labor and whether the creature may do it.
pub struct Labor {
    pub id: i32,
    pub name: String,
    pub enabled: bool,
}

/// A decoded dwarf.
pub struct Dwarf {
    pub addr: u64,
    pub id: i32,
    pub civ_id: i32,
    pub race_id: i32,
    pub caste_index: usize,
    pub histfig_id: i32,
    pub histfig: Option<HistoricalFigure>,
    pub first_name: String,
    pub nickname: String,
    pub last_name: String,
    pub real_name: String,
    pub states: Vec<(i16, i32)>,
    pub raw_prof_id: u8,
    pub profession_index: usize,
    pub age: u64,
    pub birth_date: DfTime,
    pub real_birth_date: DfTime,
    pub turn_count: i32,
    pub arrival_time: DfTime,
    pub squad_id: i32,
    pub squad_index: Option<usize>,
    pub squad_position: i32,
    pub labors: Vec<Labor>,
    pub body_size: i32,
    pub body_size_base: i32,
    pub syndromes: Vec<Syndrome>,
    pub is_cursed: bool,
    pub curse: Curse,
    pub souls: Vec<u64>,
    pub personality_addr: u64,
    /// Belief id, name and value.
    pub beliefs: Vec<(i32, String, i16)>,
    /// Facet id, name and value.
    pub traits: Vec<(i32, String, i16)>,
    pub trait_belief_conflicts: Vec<i32>,
    pub mood: Mood,
    pub locked_mood: bool,
    pub thoughts: Vec<Thought>,
    pub thought_ids: Vec<i32>,
    pub stress_level: i32,
    pub happiness_index: Option<usize>,
    /// Goal position in the catalog, and its realized value.
    pub goals: Vec<(usize, i16)>,
    pub goals_realized: i32,
    pub needs: Vec<Need>,
    pub preferences: Vec<Preference>,
    pub sex: Sex,
    pub orient_vec: Vec<Commitment>,
    pub orientation: Orientation,
    pub noble_position: FortressPosition,
    pub attributes: Vec<Attribute>,
    pub skills: Vec<Skill>,
}

/// Ticks of a birth date from its raw year and tick fields; a creature
/// born before the epoch counts from the epoch.
pub open spec fn birth_ticks(year: int, tick: int) -> int {
    if year < 0 || tick < 0 { 0 } else { year * TICKS_PER_YEAR + tick }
}

pub fn birth_date_of(year: i32, tick: i32) -> (r: DfTime)
    ensures
        r.ticks as int == birth_ticks(year as int, tick as int),
{
    if year < 0 || tick < 0 {
        return DfTime { ticks: 0 };
    }
    assert(year as u64 * TICKS_PER_YEAR + tick as u64 <= u64::MAX) by (nonlinear_arith)
        requires
            0 <= year < 0x8000_0000,
            0 <= tick < 0x8000_0000,
    ;
    DfTime { ticks: year as u64 * TICKS_PER_YEAR + tick as u64 }
}

/// Arrival time: now, less the ticks the creature has been present;
/// a negative count is none, and a count beyond now gives the epoch.
pub open spec fn arrival_ticks(now: int, turns: int) -> int {
    if turns < 0 { now } else if turns > now { 0 } else { now - turns }
}

impl Dwarf {
    /// Race id, caste slot, and the caste position within the race.
    fn read_race_and_caste(snap: &Snapshot, layout: &MemoryOffsets, mem: &ProcessMemory, addr: u64) -> (r: Result<(i32, usize), Rejection>)
        ensures
            ({
                let race_id = mem.i32_at(addr + doff(layout, "race"@));
                let caste_id = mem.i32_at(addr + doff(layout, "caste"@));
                if !(0 <= race_id < snap.races@.len()) {
                    r == Err::<(i32, usize), Rejection>(Rejection::UnknownRace)
                } else if snap.races@[race_id].name@ != "dwarf"@ {
                    r == Err::<(i32, usize), Rejection>(Rejection::NotDwarf)
                } else if snap.races@[race_id].castes@.len() <= caste_slot(caste_id) {
                    r == Err::<(i32, usize), Rejection>(Rejection::NoCaste)
                } else {
                    r == Ok::<(i32, usize), Rejection>((race_id as i32, caste_slot(caste_id) as usize))
                }
            }),
    {
        let race_id = mem.read_i32(addr, layout.field_offset(OffsetSection::Dwarf, "race"));
        if race_id < 0 || race_id as usize >= snap.races.len() {
            return Err(Rejection::UnknownRace);
        }
        let race = &snap.races[race_id as usize];
        let dwarf = String::from_str("dwarf");
        if race.name != dwarf {
            return Err(Rejection::NotDwarf);
        }
        let caste_id = mem.read_i32(addr, layout.field_offset(OffsetSection::Dwarf, "caste"));
        let slot: usize = if caste_id == 0 { 0 } else { 1 };
        if race.castes.len() <= slot {
            return Err(Rejection::NoCaste);
        }
        Ok((race_id, slot))
    }

    /// First name, nickname, and the last name generated from the name's words.
    pub fn read_names(snap: &Snapshot, layout: &MemoryOffsets, mem: &ProcessMemory, addr: u64) -> (r: (String, String, String))
        ensures
            ({
                let n = wrap_add(addr, layout.off(OffsetSection::Dwarf, "name"@));
                &&& r.0@ == string_at(mem, n + layout.off(OffsetSection::Word, "first_name"@))
                &&& r.1@ == string_at(mem, n + layout.off(OffsetSection::Word, "nickname"@))
                &&& r.2@ == crate::text::capitalized(
                    snap.languages.chunk(Languages::name_word_id(mem, layout, n as int, 0), mem.i32_at(n + layout.off(OffsetSection::Word, "language_id"@)))
                    + snap.languages.chunk(Languages::name_word_id(mem, layout, n as int, 1), mem.i32_at(n + layout.off(OffsetSection::Word, "language_id"@))),
                )
            }),
    {
        let name_addr = add_addr(addr, layout.field_offset(OffsetSection::Dwarf, "name"));
        let last = snap.languages.language_word(mem, layout, name_addr);
        let first = read_string(mem, name_addr, layout.field_offset(OffsetSection::Word, "first_name"));
        let nick = read_string(mem, name_addr, layout.field_offset(OffsetSection::Word, "nickname"));
        (first, nick, last)
    }

    /// The scheduled-state pairs: a 2-byte key, and a 4-byte value after it.
    pub fn read_states(layout: &MemoryOffsets, mem: &ProcessMemory, addr: u64) -> (r: Vec<(i16, i32)>)
        ensures
            r@.len() == mem.vec_len(addr + doff(layout, "states"@), POINTER_SIZE as int),
            forall|k: int| 0 <= k < r@.len() ==> (#[trigger] r@[k]).0 as int == mem.i16_at(mem.vec_ptr(addr + doff(layout, "states"@), k))
                && r@[k].1 as int == mem.i32_at(mem.vec_ptr(addr + doff(layout, "states"@), k) + 4),
    {
        let off = layout.field_offset(OffsetSection::Dwarf, "states");
        let ptrs = mem.read_pointer_vector(addr, off);
        let mut out: Vec<(i16, i32)> = Vec::new();
        let mut i: usize = 0;
        while i < ptrs.len()
            invariant
                i <= ptrs@.len(),
                ptrs@.len() == mem.vec_len(addr + off, POINTER_SIZE as int),
                forall|k: int| 0 <= k < ptrs@.len() ==> (#[trigger] ptrs@[k]) as int == mem.vec_ptr(addr + off, k),
                out@.len() == i,
                forall|k: int| 0 <= k < i ==> (#[trigger] out@[k]).0 as int == mem.i16_at(mem.vec_ptr(addr + off, k))
                    && out@[k].1 as int == mem.i32_at(mem.vec_ptr(addr + off, k) + 4),
            decreases ptrs@.len() - i,
        {
            out.push((mem.read_i16(ptrs[i], 0), mem.read_i32(ptrs[i], 4)));
            i = i + 1;
        }
        out
    }

    /// Age in years, birth date, turn count and arrival time.
    pub fn read_age(snap: &Snapshot, layout: &MemoryOffsets, mem: &ProcessMemory, addr: u64) -> (r: (u64, DfTime, i32, DfTime))
        ensures
            ({
                let by = mem.i32_at(addr + doff(layout, "birth_year"@));
                let bt = mem.i32_at(addr + doff(layout, "birth_time"@));
                let years = snap.current_time.ticks / TICKS_PER_YEAR;
                &&& r.0 as int == if years >= by { years - by } else { by - years }
                &&& r.1.ticks as int == birth_ticks(by, bt)
                &&& r.2 as int == mem.i32_at(addr + doff(layout, "turn_count"@))
                &&& r.3.ticks as int == arrival_ticks(snap.current_time.ticks as int, r.2 as int)
            }),
    {
        let by = mem.read_i32(addr, layout.field_offset(OffsetSection::Dwarf, "birth_year"));
        let bt = mem.read_i32(addr, layout.field_offset(OffsetSection::Dwarf, "birth_time"));
        let years = snap.current_time.to_years();
        let age: u64 = if by < 0 {
            years + (-(by as i64)) as u64
        } else if years >= by as u64 {
            years - by as u64
        } else {
            by as u64 - years
        };
        let birth = birth_date_of(by, bt);
        let turns = mem.read_i32(addr, layout.field_offset(OffsetSection::Dwarf, "turn_count"));
        let now = snap.current_time.ticks;
        let arrival = if turns < 0 {
            now
        } else if turns as u64 > now {
            0
        } else {
            now - turns as u64
        };
        (age, birth, turns, DfTime { ticks: arrival })
    }

    /// The creature's historical figure id, and the figure where the
    /// fortress's index has it.
    pub fn read_historical_figure(snap: &Snapshot, layout: &MemoryOffsets, mem: &ProcessMemory, addr: u64) -> (r: (i32, Option<HistoricalFigure>))
        ensures
            r.0 as int == mem.i32_at(addr + doff(layout, "hist_id"@)),
            r.1 matches Some(h) ==> h.id == r.0,
    {
        let hist_id = mem.read_i32(addr, layout.field_offset(OffsetSection::Dwarf, "hist_id"));
        let mut i: usize = 0;
        while i < snap.historical_figures.len()
            invariant
                i <= snap.historical_figures@.len(),
                hist_id as int == mem.i32_at(addr + doff(layout, "hist_id"@)),
            decreases snap.historical_figures@.len() - i,
        {
            if snap.historical_figures[i].0 == hist_id {
                let hf = HistoricalFigure::new(mem, layout, hist_id, snap.historical_figures[i].1, &snap.fake_identities_vector);
                return (hist_id, Some(hf));
            }
            i = i + 1;
        }
        (hist_id, None)
    }

    /// Squad id, position, and which of the fortress's squads it is.
    pub fn read_squad(snap: &Snapshot, layout: &MemoryOffsets, mem: &ProcessMemory, addr: u64) -> (r: (i32, i32, Option<usize>))
        ensures
            r.0 as int == mem.i32_at(addr + doff(layout, "squad_id"@)),
            r.1 as int == mem.i32_at(addr + doff(layout, "squad_position"@)),
            r.2 matches Some(k) ==> k < snap.squads@.len() && snap.squads@[k as int].id == r.0 && r.0 > 0,
            r.0 <= 0 ==> r.2 is None,
    {
        let squad_id = mem.read_i32(addr, layout.field_offset(OffsetSection::Dwarf, "squad_id"));
        let position = mem.read_i32(addr, layout.field_offset(OffsetSection::Dwarf, "squad_position"));
        if squad_id <= 0 {
            return (squad_id, position, None);
        }
        let mut i: usize = 0;
        while i < snap.squads.len()
            invariant
                i <= snap.squads@.len(),
                squad_id as int == mem.i32_at(addr + doff(layout, "squad_id"@)),
                position as int == mem.i32_at(addr + doff(layout, "squad_position"@)),
                squad_id > 0,
            decreases snap.squads@.len() - i,
        {
            if snap.squads[i].id == squad_id {
                return (squad_id, position, Some(i));
            }
            i = i + 1;
        }
        (squad_id, position, None)
    }

    /// One entry per catalog labor: enabled when its byte in the bitmap is
    /// set; an id outside the bitmap is disabled.
    pub fn read_labors(data: &GameData, layout: &MemoryOffsets, mem: &ProcessMemory, addr: u64) -> (r: Vec<Labor>)
        ensures
            r@.len() == data.labors@.len(),
            forall|k: int| 0 <= k < r@.len() ==> (#[trigger] r@[k]).id == data.labors@[k].id
                && r@[k].name@ == data.labors@[k].name@
                && r@[k].enabled == (0 <= r@[k].id < LABOR_BYTES && mem.byte(addr + doff(layout, "labors"@) + r@[k].id) > 0),
    {
        let off = layout.field_offset(OffsetSection::Dwarf, "labors");
        let buf = mem.read_bytes(addr, off, LABOR_BYTES);
        let mut out: Vec<Labor> = Vec::new();
        let mut i: usize = 0;
        while i < data.labors.len()
            invariant
                i <= data.labors@.len(),
                buf@ == mem.bytes(addr + off, LABOR_BYTES as int),
                out@.len() == i,
                forall|k: int| 0 <= k < i ==> (#[trigger] out@[k]).id == data.labors@[k].id
                    && out@[k].name@ == data.labors@[k].name@
                    && out@[k].enabled == (0 <= out@[k].id < LABOR_BYTES && mem.byte(addr + off + out@[k].id) > 0),
            decreases data.labors@.len() - i,
        {
            let id = data.labors[i].id;
            let enabled = id >= 0 && (id as u64) < LABOR_BYTES && buf[id as usize] > 0;
            out.push(Labor { id, name: data.labors[i].name.clone(), enabled });
            i = i + 1;
        }
        out
    }

    /// Active syndromes, and the curse that the last revealing one shows.
    pub fn read_syndromes(snap: &Snapshot, layout: &MemoryOffsets, mem: &ProcessMemory, addr: u64) -> (r: (Vec<Syndrome>, Curse))
        ensures
            r.0@.len() == mem.vec_len(addr + doff(layout, "active_syndrome_vector"@), POINTER_SIZE as int),
            r.1.curse_type == last_curse(r.0@.map_values(|s: Syndrome| display_of(s.name@, s.class_views()))),
            r.1.name@ == crate::syndromes::curse_name(r.1.curse_type),
            forall|k: int| 0 <= k < r.0@.len() ==> (#[trigger] r.0@[k]).id as int == mem.i32_at(
                mem.vec_ptr(addr + doff(layout, "active_syndrome_vector"@), k),
            ),
    {
        let off = layout.field_offset(OffsetSection::Dwarf, "active_syndrome_vector");
        let ptrs = mem.read_pointer_vector(addr, off);
        let mut out: Vec<Syndrome> = Vec::new();
        let mut curse = Curse::none();
        let mut i: usize = 0;
        while i < ptrs.len()
            invariant
                i <= ptrs@.len(),
                out@.len() == i,
                curse.curse_type == last_curse(out@.map_values(|s: Syndrome| display_of(s.name@, s.class_views()))),
                curse.name@ == crate::syndromes::curse_name(curse.curse_type),
                ptrs@.len() == mem.vec_len(addr + off, POINTER_SIZE as int),
                forall|k: int| 0 <= k < ptrs@.len() ==> (#[trigger] ptrs@[k]) as int == mem.vec_ptr(addr + off, k),
                forall|k: int| 0 <= k < i ==> (#[trigger] out@[k]).id as int == mem.i32_at(mem.vec_ptr(addr + off, k)),
            decreases ptrs@.len() - i,
        {
            let s = Syndrome::new(mem, layout, &snap.syndromes_vector, ptrs[i]);
            let c = Curse::classify(s.display_name().as_str());
            let ghost before = out@;
            if c.curse_type != CurseType::Uncursed {
                curse = c;
            }
            out.push(s);
            proof {
                let d = out@.map_values(|s: Syndrome| display_of(s.name@, s.class_views()));
                assert(d.drop_last() =~= before.map_values(|s: Syndrome| display_of(s.name@, s.class_views())));
            }
            i = i + 1;
        }
        (out, curse)
    }

    /// Beliefs held: id, catalog name and value; ids outside the catalog
    /// are skipped.
    pub fn read_beliefs(data: &GameData, layout: &MemoryOffsets, mem: &ProcessMemory, personality: u64) -> (r: Vec<(i32, String, i16)>)
        ensures
            forall|k: int| 0 <= k < r@.len() ==> 0 <= (#[trigger] r@[k]).0 < data.beliefs@.len()
                && r@[k].1@ == data.beliefs@[r@[k].0 as int].name@,
    {
        let ptrs = mem.read_pointer_vector(personality, layout.field_offset(OffsetSection::Soul, "beliefs"));
        let mut out: Vec<(i32, String, i16)> = Vec::new();
        let mut i: usize = 0;
        while i < ptrs.len()
            invariant
                i <= ptrs@.len(),
                forall|k: int| 0 <= k < out@.len() ==> 0 <= (#[trigger] out@[k]).0 < data.beliefs@.len()
                    && out@[k].1@ == data.beliefs@[out@[k].0 as int].name@,
            decreases ptrs@.len() - i,
        {
            let id = mem.read_i32(ptrs[i], 0);
            if id >= 0 && (id as usize) < data.beliefs.len() {
                let v = mem.read_i16(ptrs[i], 4);
                out.push((id, data.beliefs[id as usize].name.clone(), v));
            }
            i = i + 1;
        }
        out
    }

    /// The value of the first held belief named `name`.
    fn held_value_of(beliefs: &Vec<(i32, String, i16)>, name: &String) -> (r: Option<i16>)
        ensures
            r == held_value(beliefs@, name@, 0),
    {
        let mut b: usize = 0;
        while b < beliefs.len()
            invariant
                b <= beliefs@.len(),
                held_value(beliefs@, name@, 0) == held_value(beliefs@, name@, b as int),
            decreases beliefs@.len() - b,
        {
            if beliefs[b].1 == *name {
                return Some(beliefs[b].2);
            }
            b = b + 1;
        }
        None
    }

    /// Appends the beliefs that conflict with a facet of value `val`.
    fn facet_conflicts(data: &GameData, beliefs: &Vec<(i32, String, i16)>, pairs: &Vec<(String, i32)>, val: i16, out: &mut Vec<i32>)
        ensures
            final(out)@ == old(out)@ + facet_conflicts(data, beliefs@, pairs@, val as int),
    {
        let ghost start = out@;
        let mut c: usize = 0;
        while c < pairs.len()
            invariant
                c <= pairs@.len(),
                out@ == start + facet_conflicts(data, beliefs@, pairs@.subrange(0, c as int), val as int),
            decreases pairs@.len() - c,
        {
            proof {
                let p = pairs@.subrange(0, c as int + 1);
                assert(p.drop_last() =~= pairs@.subrange(0, c as int));
            }
            let belief_id = pairs[c].1;
            if belief_id >= 0 && (belief_id as usize) < data.beliefs.len() {
                if let Some(v) = Self::held_value_of(beliefs, &data.beliefs[belief_id as usize].name) {
                    if is_conflict(v, val) {
                        let ghost before = out@;
                        out.push(belief_id);
                        assert(out@ =~= before.push(belief_id));
                    }
                }
            }
            c = c + 1;
        }
        assert(pairs@.subrange(0, c as int) =~= pairs@);
    }

    /// Facets in catalog order, each with its 2-byte value, followed by the
    /// combat hardened pseudo-facet; and the beliefs that conflict with them.
    pub fn read_traits(data: &GameData, layout: &MemoryOffsets, mem: &ProcessMemory, personality: u64, beliefs: &Vec<(i32, String, i16)>) -> (r: (Vec<(i32, String, i16)>, Vec<i32>))
        ensures
            r.0@.len() == data.facets@.len() + 1,
            forall|k: int| 0 <= k < data.facets@.len() ==> (#[trigger] r.0@[k]).2 as int == mem.i16_at(personality + soff(layout, "traits"@) + 2 * k)
                && r.0@[k].0 == (if data.facets@[k].id == 0 { k as i32 } else { data.facets@[k].id }),
            r.0@[data.facets@.len() as int].2 as int == combat_hardened_spec(mem.i16_at(personality + soff(layout, "combat_hardened"@))),
            r.0@[data.facets@.len() as int].1@ == "Combat Hardened"@,
            r.0@[data.facets@.len() as int].0 == 0,
            r.1@ == all_conflicts(data, beliefs@, data.facets@.len() as int, |k: int| mem.i16_at(personality + soff(layout, "traits"@) + 2 * k)),
            forall|k: int| 0 <= k < data.facets@.len() ==> (#[trigger] r.0@[k]).1@ == data.facets@[k].name@,
    {
        let traits_off = layout.field_offset(OffsetSection::Soul, "traits");
        let base = personality.checked_add(traits_off);
        let ghost g = personality + soff(layout, "traits"@);
        let mut traits: Vec<(i32, String, i16)> = Vec::new();
        let mut conflicts: Vec<i32> = Vec::new();
        let mut i: usize = 0;
        while i < data.facets.len()
            invariant
                i <= data.facets@.len(),
                g == personality + traits_off,
                traits_off == layout.off(OffsetSection::Soul, "traits"@),
                base matches Some(b) ==> b == g,
                base is None ==> g > u64::MAX,
                traits@.len() == i,
                forall|k: int| 0 <= k < i ==> (#[trigger] traits@[k]).1@ == data.facets@[k].name@,
                conflicts@ == all_conflicts(data, beliefs@, i as int, |k: int| mem.i16_at(g + 2 * k)),
                forall|k: int| 0 <= k < i ==> (#[trigger] traits@[k]).2 as int == mem.i16_at(g + 2 * k)
                    && traits@[k].0 == (if data.facets@[k].id == 0 { k as i32 } else { data.facets@[k].id }),
            decreases data.facets@.len() - i,
        {
            let facet = &data.facets[i];
            let val: i16 = match (base, (i as u64).checked_mul(2)) {
                (Some(b), Some(o)) => mem.read_i16(b, o),
                _ => {
                    proof {
                        mem.lemma_high_zero(g + 2 * i, 2);
                    }
                    0
                },
            };
            let id: i32 = if facet.id == 0 { i as i32 } else { facet.id };
            Self::facet_conflicts(data, beliefs, &facet.belief_conflicts, val, &mut conflicts);
            traits.push((id, facet.name.clone(), val));
            proof {
                assert(all_conflicts(data, beliefs@, i + 1, |k: int| mem.i16_at(g + 2 * k))
                    == all_conflicts(data, beliefs@, i as int, |k: int| mem.i16_at(g + 2 * k))
                    + facet_conflicts(data, beliefs@, data.facets@[i as int].belief_conflicts@, val as int));
            }
            i = i + 1;
        }
        let raw = mem.read_i16(personality, layout.field_offset(OffsetSection::Soul, "combat_hardened"));
        traits.push((0, String::from_str("Combat Hardened"), combat_hardened(raw)));
        (traits, conflicts)
    }

    /// The thoughts, in the order the record lists them, with their ids.
    pub fn read_emotions(data: &GameData, layout: &MemoryOffsets, mem: &ProcessMemory, personality: u64, vuln: Option<i16>) -> (r: (Vec<Thought>, Vec<i32>))
        ensures
            r.0@.len() == mem.vec_len(personality + soff(layout, "emotions"@), POINTER_SIZE as int),
            r.1@.len() == r.0@.len(),
            forall|k: int| 0 <= k < r.1@.len() ==> (#[trigger] r.1@[k]) == r.0@[k].id,
    {
        let ptrs = mem.read_pointer_vector(personality, layout.field_offset(OffsetSection::Soul, "emotions"));
        let mut thoughts: Vec<Thought> = Vec::new();
        let mut ids: Vec<i32> = Vec::new();
        let mut i: usize = 0;
        while i < ptrs.len()
            invariant
                i <= ptrs@.len(),
                thoughts@.len() == i,
                ids@.len() == i,
                forall|k: int| 0 <= k < i ==> (#[trigger] ids@[k]) == thoughts@[k].id,
            decreases ptrs@.len() - i,
        {
            let t = Thought::new(mem, layout, data, vuln, ptrs[i]);
            ids.push(t.id);
            thoughts.push(t);
            i = i + 1;
        }
        (thoughts, ids)
    }

    /// The stress level, and the happiness band nearest to it.
    pub fn read_happiness_level(data: &GameData, layout: &MemoryOffsets, mem: &ProcessMemory, personality: u64) -> (r: (i32, Option<usize>))
        ensures
            r.0 as int == mem.i32_at(personality + soff(layout, "stress_level"@)),
            data.happiness_levels@.len() == 0 <==> r.1 is None,
            r.1 matches Some(k) ==> is_nearest_band(
                data.happiness_levels@.map_values(|h: crate::gamedata::HappinessLevel| h.threshold),
                r.0 as int,
                k as int,
            ),
    {
        let stress = mem.read_i32(personality, layout.field_offset(OffsetSection::Soul, "stress_level"));
        let thresholds = data.happiness_thresholds();
        assert(thresholds@ =~= data.happiness_levels@.map_values(|h: crate::gamedata::HappinessLevel| h.threshold));
        (stress, nearest_band(&thresholds, stress))
    }

    /// The goals whose kind the catalog knows, by catalog position, with
    /// their realized values, and how many are realized.
    pub fn read_goals(data: &GameData, layout: &MemoryOffsets, mem: &ProcessMemory, personality: u64) -> (r: (Vec<(usize, i16)>, i32))
        ensures
            forall|k: int| 0 <= k < r.0@.len() ==> (#[trigger] r.0@[k]).0 < data.goals@.len(),
            0 <= r.1 <= r.0@.len(),
    {
        let ptrs = mem.read_pointer_vector(personality, layout.field_offset(OffsetSection::Soul, "goals"));
        let realized_off = layout.field_offset(OffsetSection::Soul, "goal_realized");
        let mut goals: Vec<(usize, i16)> = Vec::new();
        let mut realized: i32 = 0;
        let mut i: usize = 0;
        while i < ptrs.len()
            invariant
                i <= ptrs@.len(),
                goals@.len() <= i,
                0 <= realized <= goals@.len(),
                ptrs@.len() <= 0x200_0000,
                forall|k: int| 0 <= k < goals@.len() ==> (#[trigger] goals@[k]).0 < data.goals@.len(),
            decreases ptrs@.len() - i,
        {
            let kind = mem.read_i32(ptrs[i], 4);
            if kind >= 0 {
                if let Some(g) = data.goal_index(kind) {
                    proof {
                        crate::gamedata::lemma_goal_from_bound(data.goals@, 0, kind);
                    }
                    let v = mem.read_i16(ptrs[i], realized_off);
                    if v > 0 {
                        realized = realized + 1;
                    }
                    goals.push((g, v));
                }
            }
            i = i + 1;
        }
        (goals, realized)
    }

    pub fn read_needs(layout: &MemoryOffsets, mem: &ProcessMemory, personality: u64) -> (r: Vec<Need>)
        ensures
            r@.len() == mem.vec_len(personality + soff(layout, "needs"@), POINTER_SIZE as int),
    {
        let ptrs = mem.read_pointer_vector(personality, layout.field_offset(OffsetSection::Soul, "needs"));
        let mut out: Vec<Need> = Vec::new();
        let mut i: usize = 0;
        while i < ptrs.len()
            invariant
                i <= ptrs@.len(),
                out@.len() == i,
            decreases ptrs@.len() - i,
        {
            out.push(Need::new(mem, layout, ptrs[i]));
            i = i + 1;
        }
        out
    }

    pub fn read_preferences(layout: &MemoryOffsets, mem: &ProcessMemory, soul: u64) -> (r: Vec<Preference>)
        ensures
            r@.len() == mem.vec_len(soul + soff(layout, "preferences"@), POINTER_SIZE as int),
    {
        let ptrs = mem.read_pointer_vector(soul, layout.field_offset(OffsetSection::Soul, "preferences"));
        let mut out: Vec<Preference> = Vec::new();
        let mut i: usize = 0;
        while i < ptrs.len()
            invariant
                i <= ptrs@.len(),
                out@.len() == i,
            decreases ptrs@.len() - i,
        {
            out.push(Preference::new(mem, ptrs[i]));
            i = i + 1;
        }
        out
    }

    /// Sex, the interest in each sex, and the orientation.
    pub fn read_gender_orientation(layout: &MemoryOffsets, mem: &ProcessMemory, addr: u64, soul: u64) -> (r: (Sex, Commitment, Commitment, Orientation))
        ensures
            ({
                let sex = mem.u8_at(addr + doff(layout, "sex"@));
                let packed = mem.byte(soul + soff(layout, "orientation"@));
                &&& (sex == 0 ==> r.0 == Sex::Female)
                &&& (sex == 1 ==> r.0 == Sex::Male)
                &&& (sex > 1 ==> r.0 == Sex::Unknown)
                &&& r.1 == Commitment::from_u8_spec(crate::personality::male_bits(packed))
                &&& r.2 == Commitment::from_u8_spec(crate::personality::female_bits(packed))
                &&& r.3 == crate::personality::orientation_of(r.0, r.1, r.2)
            }),
    {
        let packed = mem.read_u8(soul, layout.field_offset(OffsetSection::Soul, "orientation"));
        let sex = Sex::from_u8(mem.read_u8(addr, layout.field_offset(OffsetSection::Dwarf, "sex")));
        let (m, f, o) = Orientation::from_packed(sex, packed);
        (sex, m, f, o)
    }

    /// The position that figure `histfig_id` holds, or an empty one.
    pub fn read_noble_position(snap: &Snapshot, histfig_id: i32) -> (r: FortressPosition)
        ensures
            crate::squad::assoc(snap.nobles@, histfig_id) matches Some(p) ==> r.name@ == p.name@,
            crate::squad::assoc(snap.nobles@, histfig_id) is None ==> r.name@.len() == 0,
    {
        let mut i: usize = 0;
        while i < snap.nobles.len()
            invariant
                i <= snap.nobles@.len(),
                crate::squad::assoc(snap.nobles@, histfig_id) == crate::squad::assoc_from(snap.nobles@, i as int, histfig_id),
            decreases snap.nobles@.len() - i,
        {
            if snap.nobles[i].0 == histfig_id {
                return snap.nobles[i].1.clone();
            }
            i = i + 1;
        }
        FortressPosition::empty()
    }

    /// The six physical attributes from the creature's record and the
    /// thirteen mental ones from its soul, one record every 0x1c bytes.
    pub fn read_attributes(layout: &MemoryOffsets, mem: &ProcessMemory, addr: u64, soul: u64) -> (r: Vec<Attribute>)
        ensures
            r@.len() == 19,
            forall|k: int| 0 <= k < 19 ==> (#[trigger] r@[k]).id == k,
            forall|k: int| 0 <= k < 19 ==> (#[trigger] r@[k]).cti == crate::attribute::ATTRIBUTE_CTI
                && r@[k].display_value == r@[k].value,
            forall|k: int| 0 <= k < 6 ==> (#[trigger] r@[k]).max as int == mem.i32_at(
                (wrap_add(addr, layout.off(OffsetSection::Dwarf, "physical_attrs"@)) + ATTRIBUTE_STRIDE * k) % 0x1_0000_0000_0000_0000 + 4,
            ),
            forall|k: int| 0 <= k < 6 ==> (#[trigger] r@[k]).value as int == mem.i32_at(
                (wrap_add(addr, layout.off(OffsetSection::Dwarf, "physical_attrs"@)) + ATTRIBUTE_STRIDE * k) % 0x1_0000_0000_0000_0000,
            ),
            forall|k: int| 6 <= k < 19 ==> (#[trigger] r@[k]).value as int == mem.i32_at(
                (wrap_add(soul, layout.off(OffsetSection::Soul, "mental_attrs"@)) + ATTRIBUTE_STRIDE * (k - 6)) % 0x1_0000_0000_0000_0000,
            ),
    {
        let physical = physical_attributes();
        let mental = mental_attributes();
        let mut out: Vec<Attribute> = Vec::new();
        let mut a = add_addr(addr, layout.field_offset(OffsetSection::Dwarf, "physical_attrs"));
        let ghost a0 = a;
        let mut i: usize = 0;
        while i < 6
            invariant
                i <= 6,
                physical@.len() == 6,
                forall|k: int| 0 <= k < 6 ==> (#[trigger] physical@[k]).code() == k,
                out@.len() == i,
                a0 == wrap_add(addr, layout.off(OffsetSection::Dwarf, "physical_attrs"@)),
                a as int == (a0 + ATTRIBUTE_STRIDE * i) % 0x1_0000_0000_0000_0000,
                forall|k: int| 0 <= k < i ==> (#[trigger] out@[k]).id == k,
                forall|k: int| 0 <= k < i ==> (#[trigger] out@[k]).cti == crate::attribute::ATTRIBUTE_CTI
                    && out@[k].display_value == out@[k].value,
                forall|k: int| 0 <= k < i ==> (#[trigger] out@[k]).max as int == mem.i32_at(
                    (a0 + ATTRIBUTE_STRIDE * k) % 0x1_0000_0000_0000_0000 + 4,
                ),
                forall|k: int| 0 <= k < i ==> (#[trigger] out@[k]).value as int == mem.i32_at(
                    (a0 + ATTRIBUTE_STRIDE * k) % 0x1_0000_0000_0000_0000,
                ),
            decreases 6 - i,
        {
            out.push(Attribute::load(mem, a, physical[i]));
            a = add_addr(a, ATTRIBUTE_STRIDE);
            i = i + 1;
        }
        let mut m = add_addr(soul, layout.field_offset(OffsetSection::Soul, "mental_attrs"));
        let ghost m0 = m;
        let mut j: usize = 0;
        while j < 13
            invariant
                j <= 13,
                mental@.len() == 13,
                forall|k: int| 0 <= k < 13 ==> (#[trigger] mental@[k]).code() == k + 6,
                out@.len() == 6 + j,
                m0 == wrap_add(soul, layout.off(OffsetSection::Soul, "mental_attrs"@)),
                m as int == (m0 + ATTRIBUTE_STRIDE * j) % 0x1_0000_0000_0000_0000,
                forall|k: int| 0 <= k < 6 + j ==> (#[trigger] out@[k]).id == k,
                forall|k: int| 0 <= k < 6 + j ==> (#[trigger] out@[k]).cti == crate::attribute::ATTRIBUTE_CTI
                    && out@[k].display_value == out@[k].value,
                forall|k: int| 0 <= k < 6 ==> (#[trigger] out@[k]).max as int == mem.i32_at(
                    (a0 + ATTRIBUTE_STRIDE * k) % 0x1_0000_0000_0000_0000 + 4,
                ),
                forall|k: int| 0 <= k < 6 ==> (#[trigger] out@[k]).value as int == mem.i32_at(
                    (a0 + ATTRIBUTE_STRIDE * k) % 0x1_0000_0000_0000_0000,
                ),
                forall|k: int| 6 <= k < 6 + j ==> (#[trigger] out@[k]).value as int == mem.i32_at(
                    (m0 + ATTRIBUTE_STRIDE * (k - 6)) % 0x1_0000_0000_0000_0000,
                ),
            decreases 13 - j,
        {
            out.push(Attribute::load(mem, m, mental[j]));
            m = add_addr(m, ATTRIBUTE_STRIDE);
            j = j + 1;
        }
        out
    }

    /// The skills whose ids the catalog knows.
    pub fn read_skills(data: &GameData, layout: &MemoryOffsets, mem: &ProcessMemory, soul: u64) -> (r: Vec<Skill>)
        ensures
            r@.len() <= mem.vec_len(soul + soff(layout, "skills"@), POINTER_SIZE as int),
    {
        let ptrs = mem.read_pointer_vector(soul, layout.field_offset(OffsetSection::Soul, "skills"));
        let mut out: Vec<Skill> = Vec::new();
        let mut i: usize = 0;
        while i < ptrs.len()
            invariant
                i <= ptrs@.len(),
                out@.len() <= i,
            decreases ptrs@.len() - i,
        {
            if let Some(sk) = Skill::new(mem, data, ptrs[i]) {
                out.push(sk);
            }
            i = i + 1;
        }
        out
    }

    /// The mood and whether it is locked.
    pub fn read_mood(layout: &MemoryOffsets, mem: &ProcessMemory, addr: u64) -> (r: (Mood, bool))
        ensures
            ({
                let id = mem.i16_at(addr + doff(layout, "mood"@));
                let temp = mem.i16_at(addr + doff(layout, "temp_mood"@));
                &&& r.0 == resolved_mood(id, temp)
                &&& r.1 == mood_locked(r.0, id)
            }),
    {
        let id = mem.read_i16(addr, layout.field_offset(OffsetSection::Dwarf, "mood"));
        let temp = mem.read_i16(addr, layout.field_offset(OffsetSection::Dwarf, "temp_mood"));
        Mood::resolve(id, temp)
    }

    /// Decodes the creature at `addr`. It is rejected, with nothing else
    /// read, when it belongs to another civilization or is not a dwarf, and
    /// also when its caste, profession or soul cannot be resolved; optional
    /// data that is missing leaves its field empty.
    pub fn new(snap: &Snapshot, layout: &MemoryOffsets, data: &GameData, mem: &ProcessMemory, addr: u64) -> (r: Result<Dwarf, Rejection>)
        ensures
            rejection(snap, layout, data, mem, addr as int) matches Some(e) ==> r == Err::<Dwarf, Rejection>(e),
            rejection(snap, layout, data, mem, addr as int) is None ==> r is Ok,
            r matches Ok(d) ==> decoded_as(snap, layout, data, mem, addr as int, d),
    {
        let id = mem.read_i32(addr, layout.field_offset(OffsetSection::Dwarf, "id"));
        let civ_id = mem.read_i32(addr, layout.field_offset(OffsetSection::Dwarf, "civ"));
        if civ_id != snap.dwarf_civ_id {
            return Err(Rejection::WrongCiv);
        }
        let (race_id, caste_index) = match Self::read_race_and_caste(snap, layout, mem, addr) {
            Ok(p) => p,
            Err(e) => return Err(e),
        };
        let (first, nick, last) = Self::read_names(snap, layout, mem, addr);
        let states = Self::read_states(layout, mem, addr);
        let raw_prof_id = mem.read_u8(addr, layout.field_offset(OffsetSection::Dwarf, "profession"));
        let profession_index = match data.profession_index(raw_prof_id as i32) {
            Some(k) => k,
            None => return Err(Rejection::UnknownProfession),
        };
        let (age, birth, turn_count, arrival) = Self::read_age(snap, layout, mem, addr);
        let (histfig_id, histfig) = Self::read_historical_figure(snap, layout, mem, addr);
        let mut first_name = first;
        let mut nickname = nick;
        let mut birth_date = birth;
        let mut real_name = String::new();
        let mut real_birth_date = birth;
        if let Some(h) = &histfig {
            if let Some(f) = &h.fake_identity {
                real_name = first_name.clone();
                real_birth_date = birth_date;
                first_name = f.fake_name.clone();
                nickname = f.fake_nickname.clone();
                birth_date = birth_date_of(f.fake_birth_year, f.fake_birth_time);
            }
        }
        let (squad_id, squad_position, squad_index) = Self::read_squad(snap, layout, mem, addr);
        let labors = Self::read_labors(data, layout, mem, addr);
        let body_size = mem.read_i32(addr, layout.field_offset(OffsetSection::Dwarf, "size_info"));
        let body_size_base = mem.read_i32(addr, layout.field_offset(OffsetSection::Dwarf, "size_base"));
        let (syndromes, curse) = Self::read_syndromes(snap, layout, mem, addr);
        let is_cursed = curse.curse_type != CurseType::Uncursed;
        let souls = mem.read_pointer_vector(addr, layout.field_offset(OffsetSection::Dwarf, "souls"));
        if souls.len() == 0 {
            return Err(Rejection::NoSoul);
        }
        let soul = souls[0];
        let personality_addr = add_addr(soul, layout.field_offset(OffsetSection::Soul, "personality"));
        let beliefs = Self::read_beliefs(data, layout, mem, personality_addr);
        let (traits, trait_belief_conflicts) = Self::read_traits(data, layout, mem, personality_addr, &beliefs);
        let (mood, locked_mood) = Self::read_mood(layout, mem, addr);
        let vuln = if traits.len() > 8 && data.facets.len() > 8 { Some(traits[8].2) } else { None };
        let (thoughts, thought_ids) = Self::read_emotions(data, layout, mem, personality_addr, vuln);
        let (stress_level, happiness_index) = Self::read_happiness_level(data, layout, mem, personality_addr);
        let (goals, goals_realized) = Self::read_goals(data, layout, mem, personality_addr);
        let needs = Self::read_needs(layout, mem, personality_addr);
        let preferences = Self::read_preferences(layout, mem, soul);
        let (sex, male, female, orientation) = Self::read_gender_orientation(layout, mem, addr, soul);
        let noble_position = Self::read_noble_position(snap, histfig_id);
        let attributes = Self::read_attributes(layout, mem, addr, soul);
        let skills = Self::read_skills(data, layout, mem, soul);
        let orient_vec = vec![male, female];
        Ok(Dwarf {
            addr,
            id,
            civ_id,
            race_id,
            caste_index,
            histfig_id,
            histfig,
            first_name,
            nickname,
            last_name: last,
            real_name,
            states,
            raw_prof_id,
            profession_index,
            age,
            birth_date,
            real_birth_date,
            turn_count,
            arrival_time: arrival,
            squad_id,
            squad_index,
            squad_position,
            labors,
            body_size,
            body_size_base,
            syndromes,
            is_cursed,
            curse,
            souls,
            personality_addr,
            beliefs,
            traits,
            trait_belief_conflicts,
            mood,
            locked_mood,
            thoughts,
            thought_ids,
            stress_level,
            happiness_index,
            goals,
            goals_realized,
            needs,
            preferences,
            sex,
            orient_vec,
            orientation,
            noble_position,
            attributes,
            skills,
        })
    }
}

/// In a snapshot whose dwarves are the accepted creatures, a creature of
/// another civilization, or of a race other than the dwarves', is not among
/// them.
pub proof fn lemma_rejected_creature_excluded(snap: &Snapshot, layout: &MemoryOffsets, data: &GameData, mem: &ProcessMemory, c: u64)
    requires
        snap.dwarves@.map_values(|d: Dwarf| d.addr) == snap.creature_vector@.filter(
            |x: u64| rejection(snap, layout, data, mem, x as int) is None,
        ),
        mem.i32_at(c + doff(layout, "civ"@)) != snap.dwarf_civ_id || ({
            let race_id = mem.i32_at(c + doff(layout, "race"@));
            0 <= race_id < snap.races@.len() && snap.races@[race_id].name@ != "dwarf"@
        }),
    ensures
        forall|k: int| 0 <= k < snap.dwarves@.len() ==> (#[trigger] snap.dwarves@[k]).addr != c,
{
    let pred = |x: u64| rejection(snap, layout, data, mem, x as int) is None;
    assert(!pred(c));
    assert forall|k: int| 0 <= k < snap.dwarves@.len() implies (#[trigger] snap.dwarves@[k]).addr != c by {
        let f = snap.creature_vector@.filter(pred);
        assert(snap.dwarves@.map_values(|d: Dwarf| d.addr)[k] == snap.dwarves@[k].addr);
        assert(f[k] == snap.dwarves@[k].addr);
        broadcast use vstd::seq_lib::group_filter_ensures;
        assert(pred(f[k]));
    }
}

} // verus!
