//! Historical figures, their false identities, and fortress positions.

use vstd::prelude::*;
use crate::layout::{MemoryOffsets, OffsetSection};
use crate::memory::{add_addr, wrap_add, ProcessMemory};
use crate::text::{read_string, string_at};

verus! {

/// A false identity that a figure has assumed.
pub struct FakeIdentity {
    pub id: i32,
    pub addr: u64,
    pub fake_name_addr: u64,
    pub fake_name: String,
    pub fake_nickname: String,
    pub fake_birth_year: i32,
    pub fake_birth_time: i32,
}

pub struct HistoricalFigure {
    pub id: i32,
    pub fig_info_addr: u64,
    pub reputation: u64,
    pub fake_identity: Option<FakeIdentity>,
}

/// A position in the fortress's government, by its display names.
pub struct FortressPosition {
    pub name: String,
    pub name_male: String,
    pub name_female: String,
}

impl FortressPosition {
    pub fn empty() -> (r: FortressPosition)
        ensures
            r.name@.len() == 0,
            r.name_male@.len() == 0,
            r.name_female@.len() == 0,
    {
        FortressPosition { name: String::new(), name_male: String::new(), name_female: String::new() }
    }

    pub fn clone(&self) -> (r: FortressPosition)
        ensures
            r.name@ == self.name@,
            r.name_male@ == self.name_male@,
            r.name_female@ == self.name_female@,
    {
        FortressPosition {
            name: self.name.clone(),
            name_male: self.name_male.clone(),
            name_female: self.name_female.clone(),
        }
    }
}

/// Index of the first identity record among `table[i..]` whose id is `id`.
pub open spec fn identity_from(mem: &ProcessMemory, table: Seq<u64>, i: int, id: int) -> Option<int>
    decreases table.len() - i,
{
    if i < 0 || i >= table.len() {
        None
    } else if mem.i32_at(table[i] as int) == id {
        Some(i)
    } else {
        identity_from(mem, table, i + 1, id)
    }
}

impl FakeIdentity {
    /// Decodes the identity record at `addr`.
    pub fn new(mem: &ProcessMemory, layout: &MemoryOffsets, id: i32, addr: u64) -> (r: FakeIdentity)
        ensures
            r.id == id,
            r.addr == addr,
            r.fake_name_addr == wrap_add(addr, layout.off(OffsetSection::HistFigure, "fake_name"@)),
            r.fake_name@ == string_at(mem, r.fake_name_addr + layout.off(OffsetSection::Word, "first_name"@)),
            r.fake_nickname@ == string_at(mem, r.fake_name_addr + layout.off(OffsetSection::Word, "nickname"@)),
            r.fake_birth_year as int == mem.i32_at(r.fake_name_addr + layout.off(OffsetSection::Word, "birth_year"@)),
            r.fake_birth_time as int == mem.i32_at(r.fake_name_addr + layout.off(OffsetSection::Word, "birth_time"@)),
    {
        let fake_name_addr = add_addr(addr, layout.field_offset(OffsetSection::HistFigure, "fake_name"));
        FakeIdentity {
            id,
            addr,
            fake_name_addr,
            fake_name: read_string(mem, fake_name_addr, layout.field_offset(OffsetSection::Word, "first_name")),
            fake_nickname: read_string(mem, fake_name_addr, layout.field_offset(OffsetSection::Word, "nickname")),
            fake_birth_year: mem.read_i32(fake_name_addr, layout.field_offset(OffsetSection::Word, "birth_year")),
            fake_birth_time: mem.read_i32(fake_name_addr, layout.field_offset(OffsetSection::Word, "birth_time")),
        }
    }
}

/// Finds the identity record with id `id` in the table of identities.
pub fn find_fake_identity(mem: &ProcessMemory, table: &Vec<u64>, id: i32) -> (r: Option<u64>)
    ensures
        r matches Some(a) ==> exists|k: int| identity_from(mem, table@, 0, id as int) == Some(k) && table@[k] == a,
        r is None ==> identity_from(mem, table@, 0, id as int) is None,
{
    let mut i: usize = 0;
    while i < table.len()
        invariant
            i <= table@.len(),
            identity_from(mem, table@, 0, id as int) == identity_from(mem, table@, i as int, id as int),
        decreases table@.len() - i,
    {
        if mem.read_i32(table[i], 0) == id {
            return Some(table[i]);
        }
        i = i + 1;
    }
    None
}

impl HistoricalFigure {
    /// Decodes the figure `id` whose record is at `hf_addr`, with the false
    /// identity it currently uses, if any.
    pub fn new(mem: &ProcessMemory, layout: &MemoryOffsets, id: i32, hf_addr: u64, identities: &Vec<u64>) -> (r: HistoricalFigure)
        ensures
            r.id == id,
            r.fig_info_addr == wrap_add(hf_addr, layout.off(OffsetSection::HistFigure, "hist_fig_info"@)),
            r.reputation as int == mem.u64_at(r.fig_info_addr + layout.off(OffsetSection::HistFigure, "reputation"@)),
            r.fake_identity is Some <==> identity_from(
                mem,
                identities@,
                0,
                mem.i32_at(r.fig_info_addr + layout.off(OffsetSection::HistFigure, "current_ident"@)),
            ) is Some,
            r.fake_identity matches Some(f) ==> {
                &&& f.id as int == mem.i32_at(r.fig_info_addr + layout.off(OffsetSection::HistFigure, "current_ident"@))
                &&& f.addr == identities@[identity_from(mem, identities@, 0, f.id as int).unwrap()]
                &&& f.fake_name@ == string_at(mem, f.fake_name_addr + layout.off(OffsetSection::Word, "first_name"@))
                &&& f.fake_nickname@ == string_at(mem, f.fake_name_addr + layout.off(OffsetSection::Word, "nickname"@))
                &&& f.fake_name_addr == wrap_add(f.addr, layout.off(OffsetSection::HistFigure, "fake_name"@))
            },
    {
        let fig_info_addr = add_addr(hf_addr, layout.field_offset(OffsetSection::HistFigure, "hist_fig_info"));
        let reputation = mem.read_u64(fig_info_addr, layout.field_offset(OffsetSection::HistFigure, "reputation"));
        let ident = mem.read_i32(fig_info_addr, layout.field_offset(OffsetSection::HistFigure, "current_ident"));
        let fake_identity = match find_fake_identity(mem, identities, ident) {
            Some(a) => Some(FakeIdentity::new(mem, layout, ident, a)),
            None => None,
        };
        HistoricalFigure { id, fig_info_addr, reputation, fake_identity }
    }
}

} // verus!
