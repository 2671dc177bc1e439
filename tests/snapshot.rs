use dwarf_reader::dwarf::{Dwarf, Rejection};
use dwarf_reader::gamedata::{GameData, HappinessLevel, Profession, UnitLabor, UnitSkill};
use dwarf_reader::instance::{required_fields, DFInstance, RebuildError, Snapshot};
use dwarf_reader::layout::{MemoryOffsets, OffsetSection};
use dwarf_reader::memory::ProcessMemory;
use dwarf_reader::personality::{Mood, Orientation, Sex};
use dwarf_reader::squad::SquadOrderType;

const BASE: u64 = 0x1000;
const SIZE: usize = 0xF000;

struct Image {
    buf: Vec<u8>,
}

impl Image {
    fn new() -> Image {
        Image { buf: vec![0u8; SIZE] }
    }
    fn u64(&mut self, addr: u64, v: u64) {
        let i = (addr - BASE) as usize;
        self.buf[i..i + 8].copy_from_slice(&v.to_le_bytes());
    }
    fn i32(&mut self, addr: u64, v: i32) {
        let i = (addr - BASE) as usize;
        self.buf[i..i + 4].copy_from_slice(&v.to_le_bytes());
    }
    fn i16(&mut self, addr: u64, v: i16) {
        let i = (addr - BASE) as usize;
        self.buf[i..i + 2].copy_from_slice(&v.to_le_bytes());
    }
    fn u8(&mut self, addr: u64, v: u8) {
        self.buf[(addr - BASE) as usize] = v;
    }
    fn text(&mut self, addr: u64, s: &str) {
        let i = (addr - BASE) as usize;
        self.buf[i..i + s.len()].copy_from_slice(s.as_bytes());
        self.i32(addr + 16, s.len() as i32);
        self.i32(addr + 24, 15);
    }
    fn list(&mut self, header: u64, at: u64, items: &[u64]) {
        self.u64(header, at);
        self.u64(header + 8, at + 8 * items.len() as u64);
        for (k, v) in items.iter().enumerate() {
            self.u64(at + 8 * k as u64, *v);
        }
    }
    fn memory(self) -> ProcessMemory {
        let mut m = ProcessMemory::new(4242, 0x1_4000_0000);
        m.add_region(BASE, self.buf);
        m
    }
}

fn set(l: &mut MemoryOffsets, s: OffsetSection, f: &str, v: u64) {
    assert!(l.insert_hex(s, f.to_string(), &format!("{:#x}", v)).is_ok());
}

fn layout() -> MemoryOffsets {
    let mut l = MemoryOffsets::new();
    for (f, v) in [
        ("fortress_entity", 0x1000), ("dwarf_civ_index", 0x1008), ("dwarf_race_index", 0x100C),
        ("active_creature_vector", 0x1010), ("all_syndromes_vector", 0x1020), ("races_vector", 0x1030),
        ("language_vector", 0x1040), ("translation_vector", 0x1050), ("historical_figures_vector", 0x1060),
        ("fake_identities_vector", 0x1070), ("historical_entities_vector", 0x1080), ("squad_vector", 0x1090),
        ("current_year", 0x10A0), ("cur_year_tick", 0x10A4),
    ] {
        set(&mut l, OffsetSection::Addresses, f, v);
    }
    for (f, v) in [
        ("name_singular", 0x0), ("name_plural", 0x20), ("adjective", 0x40), ("child_name_singular", 0x60),
        ("child_name_plural", 0x80), ("baby_name_singular", 0xA0), ("baby_name_plural", 0xC0),
        ("castes_vector", 0xE0), ("pref_string_vector", 0xF0), ("flags", 0x100), ("materials_vector", 0x110),
    ] {
        set(&mut l, OffsetSection::Race, f, v);
    }
    for (f, v) in [
        ("caste_name", 0x20), ("flags", 0x40), ("adult_size", 0x50), ("body_info", 0x58), ("extracts", 0x68),
        ("shearable_tissues_vector", 0x78), ("baby_age", 0x90), ("child_age", 0x94),
    ] {
        set(&mut l, OffsetSection::Caste, f, v);
    }
    for (f, v) in [("first_name", 0x0), ("nickname", 0x20), ("language_id", 0x40), ("words", 0x44), ("noun_plural", 0xA0)] {
        set(&mut l, OffsetSection::Word, f, v);
    }
    for (f, v) in [
        ("id", 0x0), ("name", 0x08), ("alias", 0x28), ("members", 0x48), ("orders", 0x58), ("schedule", 0x68),
        ("alert", 0x78), ("histfig_id", 0x10), ("sched_size", 0x100), ("sched_orders", 0x0), ("sched_assigned", 0x10),
    ] {
        set(&mut l, OffsetSection::Squad, f, v);
    }
    for (f, v) in [
        ("id", 0x0), ("civ", 0x4), ("race", 0x8), ("caste", 0xC), ("name", 0x10), ("profession", 0x70),
        ("birth_year", 0x74), ("birth_time", 0x78), ("turn_count", 0x7C), ("hist_id", 0x80), ("squad_id", 0x84),
        ("squad_position", 0x88), ("labors", 0x90), ("size_info", 0xF0), ("size_base", 0xF4),
        ("active_syndrome_vector", 0xF8), ("souls", 0x108), ("mood", 0x118), ("temp_mood", 0x11A), ("sex", 0x11C),
        ("physical_attrs", 0x120), ("states", 0x1D0), ("syn_sick_flag", 0x0),
    ] {
        set(&mut l, OffsetSection::Dwarf, f, v);
    }
    for (f, v) in [
        ("personality", 0x0), ("beliefs", 0x10), ("traits", 0x20), ("emotions", 0x80), ("stress_level", 0x90),
        ("goals", 0xA0), ("goal_realized", 0x8), ("needs", 0xB0), ("combat_hardened", 0xC0), ("mental_attrs", 0x200),
        ("skills", 0x300), ("preferences", 0x310), ("orientation", 0x320),
    ] {
        set(&mut l, OffsetSection::Soul, f, v);
    }
    for (section, field) in required_fields() {
        if l.missing_field(&vec![(section, field.clone())]).is_some() {
            set(&mut l, section, &field, 0);
        }
    }
    l
}

fn catalog() -> GameData {
    GameData {
        attributes: Vec::new(),
        beliefs: Vec::new(),
        facets: Vec::new(),
        goals: Vec::new(),
        happiness_levels: vec![
            band("Miserable", -100000),
            band("Unhappy", -10000),
            band("Fine", 0),
            band("Happy", 10000),
        ],
        health_info: Vec::new(),
        knowledge: Vec::new(),
        labors: vec![labor(5, "Mining"), labor(200, "Beyond the bitmap")],
        needs: Vec::new(),
        professions: vec![Profession {
            id: 2,
            name: "Miner".to_string(),
            is_military: false,
            can_assign_labors: true,
            can_assign_military: true,
        }],
        skills: vec![UnitSkill { name: "Mining".to_string(), noun: "Miner".to_string(), profession_id: 2, mood: 0 }],
        skill_levels: Vec::new(),
        sphere_names: Vec::new(),
        unit_activities: Vec::new(),
        unit_emotions: Vec::new(),
        unit_jobs: Vec::new(),
        unit_moods: Vec::new(),
        unit_orders: Vec::new(),
        unit_thoughts: Vec::new(),
        unit_subthoughts: Vec::new(),
    }
}

fn band(name: &str, threshold: i32) -> HappinessLevel {
    HappinessLevel { name: name.to_string(), threshold, desc: String::new() }
}

fn labor(id: i32, name: &str) -> UnitLabor {
    UnitLabor { name: name.to_string(), id, skill: 0, requires_equipment: false, excludes: Vec::new() }
}

const DWARF: u64 = 0x4000;
const OUTSIDER: u64 = 0x4800;
const GOBLIN: u64 = 0x5000;

fn fixture() -> ProcessMemory {
    let mut m = Image::new();
    m.u64(0x1000, 0x3000);
    m.i32(0x1008, 7);
    m.list(0x1010, 0x1800, &[DWARF, OUTSIDER, GOBLIN]);
    m.list(0x1030, 0x1840, &[0x6000, 0x6800]);
    m.list(0x1090, 0x1880, &[0x7000]);
    m.i32(0x10A0, 250);

    m.text(0x6000, "dwarf");
    m.text(0x6020, "dwarves");
    m.text(0x6040, "dwarven");
    m.text(0x60A0, "dwarf baby");
    m.text(0x60C0, "dwarf babies");
    m.list(0x60E0, 0x6200, &[0x6400, 0x6600]);
    m.text(0x6400, "FEMALE");
    m.text(0x6420, "dwarf");
    m.i32(0x6450, 55000);
    m.text(0x6600, "MALE");
    m.text(0x6620, "dwarf");
    m.i32(0x6650, 60000);
    m.text(0x6800, "goblin");

    m.i32(0x7000, 3);
    m.text(0x7008, "squad");
    m.text(0x7028, "The Axes");
    m.list(0x7048, 0x7200, &[0x7300, 0x7310]);
    m.i32(0x7300, 101);
    m.i32(0x7310, 102);
    m.list(0x7058, 0x7240, &[0x7400]);
    m.u64(0x7400, 0x2A00);
    m.i32(0x7410, -1);
    m.u64(0x2A00 * 3 + 9, 0x7F00);
    m.i32(0x7F00, 0);

    m.i32(DWARF, 1);
    m.i32(DWARF + 0x4, 7);
    m.i32(DWARF + 0x8, 0);
    m.i32(DWARF + 0xC, 1);
    m.text(DWARF + 0x10, "urist");
    m.u8(DWARF + 0x70, 2);
    m.i32(DWARF + 0x74, 200);
    m.i32(DWARF + 0x78, 100);
    m.i32(DWARF + 0x7C, 1000);
    m.i32(DWARF + 0x80, 101);
    m.i32(DWARF + 0x84, 3);
    m.u8(DWARF + 0x90 + 5, 1);
    m.i32(DWARF + 0xF0, 6000);
    m.list(DWARF + 0x108, 0x4300, &[0x4400]);
    m.i16(DWARF + 0x118, -1);
    m.i16(DWARF + 0x11A, -1);
    m.u8(DWARF + 0x11C, 1);
    m.i32(0x4400 + 0x90, -5000);
    m.u8(0x4400 + 0x320, 0b0000_1000);
    m.list(0x4400 + 0x300, 0x4900, &[0x4A00]);
    m.i16(0x4A00, 0);
    m.i16(0x4A04, 25);
    m.i32(0x4A08, 100);

    m.i32(OUTSIDER + 0x4, 8);
    m.i32(GOBLIN + 0x4, 7);
    m.i32(GOBLIN + 0x8, 1);
    m.memory()
}

#[test]
fn rebuild_decodes_one_dwarf() {
    let mem = fixture();
    let mut df = DFInstance::new(layout(), catalog()).ok().unwrap();
    assert!(!df.is_on_embark_screen(&mem));
    assert_eq!(df.rebuild(&mem), Ok(()));
    assert_eq!(df.pid, 4242);
    let snap = df.snapshot.as_ref().unwrap();
    assert_eq!(snap.dwarves.len(), 1);
    let d = &snap.dwarves[0];
    assert_eq!(d.addr, DWARF);
    let race = snap.get_race(d.race_id).unwrap();
    assert_eq!(race.name, "dwarf");
    assert_eq!(race.castes.len(), 2);
    assert_eq!(race.child_name, race.baby_name);
    assert_eq!(race.child_name, "Dwarf Baby");
    assert_eq!(race.child_name_plural, "Dwarf Babies");
    assert_eq!(d.caste_index, 1);
    assert_eq!(race.castes[d.caste_index].adult_size, 60000);
    let squad = &snap.squads[d.squad_index.unwrap()];
    assert_eq!(squad.name, "The Axes");
    assert_eq!(squad.members, vec![(0, 101), (1, 102)]);
    assert_eq!(squad.order_for(d.histfig_id), SquadOrderType::Move);
    assert_eq!(d.first_name, "urist");
    assert_eq!(d.profession_index, 0);
    assert_eq!(d.age, 50);
    assert_eq!(d.birth_date.to_seconds(), 200 * 403200 + 100);
    assert_eq!(d.arrival_time.to_seconds(), 250 * 403200 - 1000);
    assert_eq!(d.happiness_index, Some(1));
    assert_eq!(d.mood, Mood::Calm);
    assert!(!d.locked_mood);
    assert_eq!(d.sex, Sex::Male);
    assert_eq!(d.orientation, Orientation::Heterosexual);
    assert_eq!(d.labors.len(), 2);
    assert!(d.labors[0].enabled);
    assert!(!d.labors[1].enabled);
    assert_eq!(d.skills.len(), 1);
    assert_eq!(d.skills[0].level, 20);
    assert_eq!(d.skills[0].experience, 29000);
    assert_eq!(d.attributes.len(), 19);
    assert_eq!(d.traits.len(), 1);
    assert_eq!(d.traits[0].2, 40);
    assert_eq!(d.body_size, 6000);
    assert_eq!(d.noble_position.name, "");
}

#[test]
fn acceptance_filter_rejects_outsiders() {
    let mem = fixture();
    let l = layout();
    let data = catalog();
    let snap = Snapshot::build(&l, &data, &mem).ok().unwrap();
    assert!(matches!(Dwarf::new(&snap, &l, &data, &mem, OUTSIDER), Err(Rejection::WrongCiv)));
    assert!(matches!(Dwarf::new(&snap, &l, &data, &mem, GOBLIN), Err(Rejection::NotDwarf)));
    assert!(Dwarf::new(&snap, &l, &data, &mem, DWARF).is_ok());
    assert!(snap.dwarves.iter().all(|d| d.addr == DWARF));
}

#[test]
fn rejections_for_missing_links() {
    let mem = fixture();
    let l = layout();
    let mut data = catalog();
    let snap = Snapshot::build(&l, &data, &mem).ok().unwrap();
    assert!(matches!(Dwarf::new(&snap, &l, &data, &mem, 0x9000), Err(Rejection::WrongCiv)));
    data.professions.clear();
    assert!(matches!(Dwarf::new(&snap, &l, &data, &mem, DWARF), Err(Rejection::UnknownProfession)));
    let mut m = Image::new();
    m.u64(0x1000, 0x3000);
    m.i32(0x1008, 7);
    m.list(0x1030, 0x1840, &[0x6000]);
    m.text(0x6000, "dwarf");
    m.i32(DWARF + 0x4, 7);
    let bare = m.memory();
    let data = catalog();
    let snap = Snapshot::build(&l, &data, &bare).ok().unwrap();
    assert!(matches!(Dwarf::new(&snap, &l, &data, &bare, DWARF), Err(Rejection::NoCaste)));
    let mut m = Image::new();
    m.u64(0x1000, 0x3000);
    m.i32(0x1008, 7);
    m.i32(DWARF + 0x4, 7);
    m.i32(DWARF + 0x8, 4);
    let norace = m.memory();
    let snap = Snapshot::build(&l, &data, &norace).ok().unwrap();
    assert!(matches!(Dwarf::new(&snap, &l, &data, &norace, DWARF), Err(Rejection::UnknownRace)));
}

#[test]
fn soulless_creature_is_rejected() {
    let l = layout();
    let data = catalog();
    let mut m = Image::new();
    m.u64(0x1000, 0x3000);
    m.i32(0x1008, 7);
    m.list(0x1030, 0x1840, &[0x6000]);
    m.text(0x6000, "dwarf");
    m.list(0x60E0, 0x6200, &[0x6400, 0x6600]);
    m.i32(DWARF + 0x4, 7);
    m.u8(DWARF + 0x70, 2);
    let mem = m.memory();
    let snap = Snapshot::build(&l, &data, &mem).ok().unwrap();
    assert!(matches!(Dwarf::new(&snap, &l, &data, &mem, DWARF), Err(Rejection::NoSoul)));
}

#[test]
fn no_fortress_keeps_old_snapshot() {
    let l = layout();
    let data = catalog();
    let empty = Image::new().memory();
    let mut df = DFInstance::new(l, data).ok().unwrap();
    assert!(df.is_on_embark_screen(&empty));
    assert_eq!(df.rebuild(&empty), Err(RebuildError::NoFortress));
    assert!(df.snapshot.is_none());
    assert!(!df.refresh_creatures(&empty));
    let mem = fixture();
    assert_eq!(df.rebuild(&mem), Ok(()));
    assert_eq!(df.rebuild(&empty), Err(RebuildError::NoFortress));
    assert_eq!(df.snapshot.as_ref().unwrap().dwarves.len(), 1);
    assert!(df.refresh_creatures(&mem));
    assert_eq!(df.snapshot.as_ref().unwrap().dwarves.len(), 1);
    df.detach();
    assert_eq!(df.pid, 0);
}

#[test]
fn incomplete_schema_is_refused() {
    let mut l = MemoryOffsets::new();
    set(&mut l, OffsetSection::Dwarf, "id", 0);
    match DFInstance::new(l, catalog()) {
        Err((section, field)) => {
            assert_eq!(section, OffsetSection::Addresses);
            assert_eq!(field, "active_creature_vector");
        },
        Ok(_) => panic!("an incomplete schema was accepted"),
    }
    assert!(DFInstance::new(layout(), catalog()).is_ok());
}
