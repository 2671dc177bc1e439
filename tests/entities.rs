use dwarf_reader::attribute::AttributeType;
use dwarf_reader::histfig::{find_fake_identity, HistoricalFigure};
use dwarf_reader::instance::{global_address, Snapshot};
use dwarf_reader::items::{ItemType, Material, MaterialState, Plant};
use dwarf_reader::language::{Languages, Translation, Word, WordType};
use dwarf_reader::layout::{MemoryOffsets, OffsetSection};
use dwarf_reader::memory::ProcessMemory;
use dwarf_reader::need::{FocusDegree, Need};
use dwarf_reader::preference::{Preference, PreferenceType};
use dwarf_reader::race::Caste;
use dwarf_reader::squad::{Squad, SquadOrderType};
use dwarf_reader::syndromes::Syndrome;
use dwarf_reader::gamedata::{GameData, SubThoughts, Subthought, UnitEmotion, UnitThoughts};
use dwarf_reader::thought::{EmotionType, Thought};

const BASE: u64 = 0x1000;

struct Image {
    buf: Vec<u8>,
}

impl Image {
    fn new() -> Image {
        Image { buf: vec![0u8; 0x8000] }
    }
    fn u64(&mut self, a: u64, v: u64) {
        let i = (a - BASE) as usize;
        self.buf[i..i + 8].copy_from_slice(&v.to_le_bytes());
    }
    fn i32(&mut self, a: u64, v: i32) {
        let i = (a - BASE) as usize;
        self.buf[i..i + 4].copy_from_slice(&v.to_le_bytes());
    }
    fn i16(&mut self, a: u64, v: i16) {
        let i = (a - BASE) as usize;
        self.buf[i..i + 2].copy_from_slice(&v.to_le_bytes());
    }
    fn u8(&mut self, a: u64, v: u8) {
        self.buf[(a - BASE) as usize] = v;
    }
    fn text(&mut self, a: u64, s: &str) {
        let i = (a - BASE) as usize;
        self.buf[i..i + s.len()].copy_from_slice(s.as_bytes());
        self.i32(a + 16, s.len() as i32);
        self.i32(a + 24, 15);
    }
    fn list(&mut self, header: u64, at: u64, items: &[u64]) {
        self.u64(header, at);
        self.u64(header + 8, at + 8 * items.len() as u64);
        for (k, v) in items.iter().enumerate() {
            self.u64(at + 8 * k as u64, *v);
        }
    }
    fn memory(self) -> ProcessMemory {
        let mut m = ProcessMemory::new(1, 0x1_4000_0000);
        m.add_region(BASE, self.buf);
        m
    }
}

fn set(l: &mut MemoryOffsets, s: OffsetSection, f: &str, v: u64) {
    assert!(l.insert_hex(s, f.to_string(), &format!("{:#x}", v)).is_ok());
}

fn word(noun: &str, adjective: &str) -> Word {
    Word {
        address: 0,
        base: String::new(),
        noun: noun.to_string(),
        plural_noun: String::new(),
        adjective: adjective.to_string(),
        verb: String::new(),
        present_simple_verb: String::new(),
        past_simple_verb: String::new(),
        past_participle_verb: String::new(),
        present_participle_verb: String::new(),
    }
}

#[test]
fn generated_and_english_names() {
    let mut l = MemoryOffsets::new();
    set(&mut l, OffsetSection::Word, "language_id", 0x0);
    set(&mut l, OffsetSection::Word, "words", 0x4);
    set(&mut l, OffsetSection::Word, "word_type", 0x20);
    let langs = Languages {
        words: vec![word("", ""), word("axe", "sharp"), word("beard", "bold"), word("stone", ""), word("ale", "")],
        translations: vec![Translation {
            name: "DWARF".to_string(),
            words: vec!["".to_string(), "olon".to_string(), "zan".to_string(), "kib".to_string()],
        }],
    };
    let mut m = Image::new();
    let rec = 0x1100;
    m.i32(rec, 0);
    for (k, id) in [1, 2, 0, 0, 0, 0, 0].iter().enumerate() {
        m.i32(rec + 4 + 4 * k as u64, *id);
    }
    let eng = 0x1200;
    for (k, id) in [1, 2, 1, 2, 3, 4, 3].iter().enumerate() {
        m.i32(eng + 4 + 4 * k as u64, *id);
    }
    for (k, t) in [0i16, 0, 2, 2, 0, 0, 0].iter().enumerate() {
        m.i16(eng + 0x20 + 2 * k as u64, *t);
    }
    let mem = m.memory();
    assert_eq!(langs.language_word(&mem, &l, rec), "Olonzan");
    assert_eq!(langs.word_chunk(3, 0), "kib");
    assert_eq!(langs.word_chunk(0, 0), "");
    assert_eq!(langs.word_chunk(9, 0), "");
    assert_eq!(langs.word_chunk(1, 4), "");
    assert_eq!(langs.english_word(&mem, &l, eng), "Axebeard The Sharp Bold Stone-ale of Stone");
    assert_eq!(WordType::from_i32(8), None);
    assert_eq!(langs.words[2].get_word_position(WordType::Adjective), "bold");
}

#[test]
fn word_and_language_tables() {
    let mut l = MemoryOffsets::new();
    set(&mut l, OffsetSection::Word, "base", 0x0);
    set(&mut l, OffsetSection::Word, "noun_singular", 0x20);
    set(&mut l, OffsetSection::Language, "word_table", 0x20);
    let mut m = Image::new();
    m.text(0x1100, "AXE");
    m.text(0x1120, "axe");
    m.list(0x1000, 0x1800, &[0x1100]);
    m.list(0x1010, 0x1840, &[0x1400]);
    m.text(0x1400, "DWARF");
    m.list(0x1420, 0x1880, &[0x1500, 0x1520]);
    m.text(0x1500, "");
    m.text(0x1520, "olon");
    let mem = m.memory();
    let w = Word::new(&mem, &l, 0x1100);
    assert_eq!(w.base, "AXE");
    assert_eq!(w.get_word_position(WordType::Noun), "axe");
    let langs = Languages::load(&mem, &l, 0x1000, 0x1010);
    assert_eq!(langs.words.len(), 1);
    assert_eq!(langs.translations[0].name, "DWARF");
    assert_eq!(langs.translations[0].words, vec!["".to_string(), "olon".to_string()]);
}

#[test]
fn syndrome_names_and_classes() {
    let mut l = MemoryOffsets::new();
    set(&mut l, OffsetSection::Dwarf, "syn_sick_flag", 0x20);
    set(&mut l, OffsetSection::Syndrome, "syn_classes_vector", 0x30);
    set(&mut l, OffsetSection::Syndrome, "cie_effects", 0x40);
    let mut m = Image::new();
    m.i32(0x1000, 1);
    m.i32(0x1008, 5);
    m.text(0x1200, "vampire");
    m.u8(0x1220, 1);
    m.list(0x1230, 0x1300, &[0x1400, 0x1420]);
    m.text(0x1400, "VAMPCURSE");
    m.text(0x1420, "UNDEAD");
    m.list(0x1240, 0x1340, &[0x1500]);
    m.u64(0x1500, 0x1600);
    m.u64(0x1600, 0x1700);
    m.i32(0x1701, 24);
    let mem = m.memory();
    let table = vec![0x1100, 0x1200];
    let s = Syndrome::new(&mem, &l, &table, 0x1000);
    assert_eq!(s.id, 1);
    assert_eq!(s.name, "vampire");
    assert_eq!(s.is_sickness, 1);
    assert!(s.has_transform);
    assert_eq!(s.class_names, vec!["VAMPCURSE".to_string(), "UNDEAD".to_string()]);
    assert_eq!(s.display_name(), "vampire: VAMPCURSE, UNDEAD");
    let unknown = Syndrome::new(&mem, &l, &table, 0x1008);
    assert_eq!(unknown.id, 5);
    assert_eq!(unknown.display_name(), "???");
}

#[test]
fn caste_derived_flags_and_ages() {
    let mut l = MemoryOffsets::new();
    set(&mut l, OffsetSection::Caste, "caste_name", 0x20);
    set(&mut l, OffsetSection::Caste, "flags", 0x40);
    set(&mut l, OffsetSection::Caste, "baby_age", 0x50);
    set(&mut l, OffsetSection::Caste, "child_age", 0x54);
    set(&mut l, OffsetSection::Caste, "extracts", 0x60);
    set(&mut l, OffsetSection::Caste, "shearable_tissues_vector", 0x70);
    set(&mut l, OffsetSection::Word, "noun_plural", 0x80);
    let mut m = Image::new();
    let c = 0x1000;
    m.text(c, "MALE");
    m.text(c + 0x20, "dwarf");
    m.text(c + 0x80, "dwarves");
    m.u64(c + 0x40, 0x1800);
    m.i32(c + 0x48, 26);
    let mut flags = [0u8; 26];
    flags[46 / 8] |= 1 << (46 % 8);
    flags[54 / 8] |= 1 << (54 % 8);
    flags[37 / 8] |= 1 << (37 % 8);
    flags[26 / 8] |= 1 << (26 % 8);
    flags[97 / 8] |= 1 << (97 % 8);
    for (k, b) in flags.iter().enumerate() {
        m.u8(0x1800 + k as u64, *b);
    }
    m.i32(c + 0x50, -1);
    m.i32(c + 0x54, 12);
    m.list(c + 0x60, 0x1900, &[0x1]);
    let mem = m.memory();
    let caste = Caste::new(&mem, &l, c);
    assert_eq!(caste.tag, "MALE");
    assert_eq!(caste.name_plural, "dwarves");
    assert_eq!(caste.baby_age, 0);
    assert_eq!(caste.child_age, 0);
    assert!(caste.flags.flag(202));
    assert!(caste.flags.flag(203));
    assert!(!caste.flags.flag(26));
    assert!(caste.flags.flag(200));
    assert!(!caste.flags.flag(201));
}

#[test]
fn materials_and_plants() {
    let mut l = MemoryOffsets::new();
    set(&mut l, OffsetSection::Material, "prefix", 0x0);
    set(&mut l, OffsetSection::Material, "solid_name", 0x20);
    set(&mut l, OffsetSection::Material, "liquid_name", 0x40);
    set(&mut l, OffsetSection::Material, "inorganic_flags", 0x60);
    set(&mut l, OffsetSection::Plant, "name", 0x0);
    set(&mut l, OffsetSection::Plant, "flags", 0x20);
    let mut m = Image::new();
    m.text(0x1000, "iron");
    m.text(0x1020, "iron bar");
    m.text(0x1040, "molten iron");
    m.u64(0x1060, 0x1800);
    m.i32(0x1068, 1);
    m.u8(0x1800, 0b1);
    m.text(0x1100, "plump helmet");
    m.u64(0x1120, 0x1900);
    m.i32(0x1128, 26);
    m.u8(0x1900, 0b0000_0010);
    m.u8(0x1901, 0b0001_0000);
    let mem = m.memory();
    let mat = Material::new(&mem, &l, 3, 0x1000, false);
    assert_eq!(mat.prefix, "iron");
    assert!(mat.is_generated);
    assert!(mat.flags.flag(0));
    assert_eq!(mat.state_names[0], (MaterialState::Solid, "iron bar".to_string()));
    assert_eq!(mat.state_names[1].1, "molten iron");
    let plant = Plant::new(&mem, &l, 0x1100);
    assert_eq!(plant.name, "plump helmet");
    assert!(plant.flags.flag(200));
    assert!(plant.flags.flag(201));
}

#[test]
fn needs_and_preferences() {
    let mut l = MemoryOffsets::new();
    set(&mut l, OffsetSection::Need, "id", 0x0);
    set(&mut l, OffsetSection::Need, "deity_id", 0x4);
    set(&mut l, OffsetSection::Need, "need_level", 0x8);
    set(&mut l, OffsetSection::Need, "focus_level", 0xC);
    let mut m = Image::new();
    m.i32(0x1000, 7);
    m.i32(0x1004, -1);
    m.i32(0x1008, 2);
    m.i32(0x100C, -20000);
    m.i32(0x1100, 4);
    m.i32(0x1104, 2);
    m.i32(0x1108, 9);
    m.i32(0x1114, 1);
    let mem = m.memory();
    let n = Need::new(&mem, &l, 0x1000);
    assert_eq!((n.id, n.deity_id, n.need_level), (7, -1, 2));
    assert_eq!(n.focus_level.degree, FocusDegree::Distracted);
    let p = Preference::new(&mem, 0x1100);
    assert_eq!(p.pref_type, PreferenceType::LikeItem);
    assert_eq!(p.item_type, ItemType::Blocks);
    assert_eq!(p.item_subtype, 9);
    assert_eq!(p.mat_state, MaterialState::Liquid);
}

#[test]
fn figures_with_false_identities() {
    let mut l = MemoryOffsets::new();
    set(&mut l, OffsetSection::HistFigure, "hist_fig_info", 0x10);
    set(&mut l, OffsetSection::HistFigure, "reputation", 0x8);
    set(&mut l, OffsetSection::HistFigure, "current_ident", 0x10);
    set(&mut l, OffsetSection::HistFigure, "fake_name", 0x8);
    set(&mut l, OffsetSection::Word, "first_name", 0x0);
    set(&mut l, OffsetSection::Word, "nickname", 0x20);
    set(&mut l, OffsetSection::Word, "birth_year", 0x40);
    set(&mut l, OffsetSection::Word, "birth_time", 0x44);
    let mut m = Image::new();
    let hf = 0x1000;
    m.u64(hf + 0x10 + 0x8, 0xABC);
    m.i32(hf + 0x10 + 0x10, 55);
    let ident = 0x1400;
    m.i32(ident, 55);
    m.text(ident + 0x8, "Mistem");
    m.i32(ident + 0x8 + 0x40, 120);
    let mem = m.memory();
    let table = vec![0x1300, ident];
    assert_eq!(find_fake_identity(&mem, &table, 55), Some(ident));
    assert_eq!(find_fake_identity(&mem, &table, 56), None);
    let fig = HistoricalFigure::new(&mem, &l, 9, hf, &table);
    assert_eq!(fig.reputation, 0xABC);
    let f = fig.fake_identity.unwrap();
    assert_eq!(f.fake_name, "Mistem");
    assert_eq!(f.fake_birth_year, 120);
    let plain = HistoricalFigure::new(&mem, &l, 9, hf, &vec![0x1300]);
    assert!(plain.fake_identity.is_none());
}

#[test]
fn nobles_by_figure() {
    let mut l = MemoryOffsets::new();
    set(&mut l, OffsetSection::Addresses, "historical_entities_vector", 0x1000);
    set(&mut l, OffsetSection::HistEntity, "positions", 0x10);
    set(&mut l, OffsetSection::HistEntity, "assignments", 0x20);
    set(&mut l, OffsetSection::HistEntity, "position_id", 0x0);
    set(&mut l, OffsetSection::HistEntity, "position_name", 0x8);
    set(&mut l, OffsetSection::HistEntity, "assign_position_id", 0x0);
    set(&mut l, OffsetSection::HistEntity, "assign_hist_id", 0x4);
    let mut m = Image::new();
    m.list(0x1000, 0x1800, &[0x2000]);
    m.list(0x2010, 0x2100, &[0x2200]);
    m.i32(0x2200, 4);
    m.text(0x2208, "mayor");
    m.list(0x2020, 0x2140, &[0x2300, 0x2310]);
    m.i32(0x2300, 4);
    m.i32(0x2304, 101);
    m.i32(0x2310, 4);
    m.i32(0x2314, -1);
    let mem = m.memory();
    assert_eq!(global_address(&mem, 0x1000), 0x1000);
    let (positions, nobles) = Snapshot::load_historical_entities(&l, &mem);
    assert_eq!(positions.len(), 1);
    assert_eq!(nobles.len(), 1);
    assert_eq!(nobles[0].0, 101);
    assert_eq!(nobles[0].1.name, "mayor");
}

#[test]
fn scheduled_orders_follow_the_month() {
    let mut l = MemoryOffsets::new();
    for (f, v) in [
        ("id", 0x0), ("name", 0x08), ("alias", 0x28), ("members", 0x48), ("orders", 0x58), ("schedule", 0x68),
        ("alert", 0x78), ("histfig_id", 0x10), ("sched_size", 0x100), ("sched_orders", 0x0), ("sched_assigned", 0x10),
    ] {
        set(&mut l, OffsetSection::Squad, f, v);
    }
    let mut m = Image::new();
    let sq = 0x1000;
    m.i32(sq, 4);
    m.text(sq + 0x08, "Iron Hammers");
    m.list(sq + 0x48, 0x1200, &[0x1300, 0x1310]);
    m.i32(0x1300, 201);
    m.i32(0x1310, -1);
    m.list(sq + 0x68, 0x1240, &[0x2000]);
    m.i32(sq + 0x78, 0);
    let block = 0x2000 + 2 * 0x100;
    m.list(block, 0x2800, &[0x2900]);
    m.list(block + 0x10, 0x2840, &[0x2A00]);
    m.i32(0x2A00, 0);
    m.u64(0x2900, 0x2B00);
    m.u64(0x2B00, 0x1);
    let mem = m.memory();
    let s = Squad::new(&mem, &l, sq, 2);
    assert_eq!(s.name, "Iron Hammers");
    assert_eq!(s.members, vec![(0, 201)]);
    assert_eq!(s.order_for(201), SquadOrderType::Move);
    assert_eq!(s.member_in_slot(1), -1);
    let other_month = Squad::new(&mem, &l, sq, 3);
    assert_eq!(other_month.order_for(201), SquadOrderType::NoOrder);
}

#[test]
fn enum_codes() {
    assert_eq!(ItemType::from_i32(1002), ItemType::RangedEquipment);
    assert_eq!(ItemType::from_i32(0), ItemType::Bar);
    assert_eq!(ItemType::from_i32(1003), ItemType::NoItem);
    assert_eq!(SquadOrderType::from_i32(3), SquadOrderType::Patrol);
    assert_eq!(SquadOrderType::from_i32(-1), SquadOrderType::NoOrder);
    assert_eq!(EmotionType::from_i32(169), EmotionType::Admiration);
    assert_eq!(EmotionType::from_i32(170), EmotionType::NoEmotion);
    assert_eq!(EmotionType::Admiration.to_i32(), 169);
    assert_eq!(AttributeType::from_i32(5).name(), "Disease Resistance");
    assert_eq!(AttributeType::from_i32(19), AttributeType::NoAttribute);
    assert_eq!(PreferenceType::from_i32(99), PreferenceType::LikeOutdoors);
    assert_eq!(OffsetSection::Soul.table_name(), "soul_details");
}

#[test]
fn thought_text_and_effect() {
    let mut l = MemoryOffsets::new();
    for (f, v) in [("thought_id", 0x0), ("emotion_type", 0x4), ("strength", 0x8), ("sub_id", 0xC), ("level", 0x10), ("year", 0x14), ("year_tick", 0x18)] {
        set(&mut l, OffsetSection::Emotion, f, v);
    }
    let table = |placeholder: &str| SubThoughts {
        id: 2,
        placeholder: placeholder.to_string(),
        subthoughts: vec![Subthought { id: 4, thought: "rain".to_string() }, Subthought { id: 5, thought: "a fine mug".to_string() }],
    };
    let data = GameData {
        attributes: Vec::new(),
        beliefs: Vec::new(),
        facets: Vec::new(),
        goals: Vec::new(),
        happiness_levels: Vec::new(),
        health_info: Vec::new(),
        knowledge: Vec::new(),
        labors: Vec::new(),
        needs: Vec::new(),
        professions: Vec::new(),
        skills: Vec::new(),
        skill_levels: Vec::new(),
        sphere_names: Vec::new(),
        unit_activities: Vec::new(),
        unit_emotions: vec![
            UnitEmotion { emotion: "Acceptance".to_string(), color: 0, divider: 0 },
            UnitEmotion { emotion: "Adoration".to_string(), color: 0, divider: 5 },
        ],
        unit_jobs: Vec::new(),
        unit_moods: Vec::new(),
        unit_orders: Vec::new(),
        unit_thoughts: vec![
            UnitThoughts { title: "t".to_string(), thought: "admired [SUB] today".to_string(), subthoughts_type: 2 },
            UnitThoughts { title: "u".to_string(), thought: "saw ".to_string(), subthoughts_type: 3 },
        ],
        unit_subthoughts: vec![table(""), table(""), table("[SUB]"), table("")],
    };
    let mut m = Image::new();
    m.i32(0x1000, 1);
    m.i32(0x1004, 1);
    m.i32(0x1008, 52);
    m.i32(0x100C, 5);
    m.i32(0x1014, 3);
    m.i32(0x1018, 7);
    m.i32(0x1100, 2);
    m.i32(0x1104, 1);
    m.i32(0x110C, 4);
    m.i32(0x1200, 9);
    let mem = m.memory();
    let t = Thought::new(&mem, &l, &data, Some(95), 0x1000);
    assert_eq!(t.thought, "admired a fine mug today");
    assert_eq!(t.emotion_type, EmotionType::Adoration);
    assert_eq!(t.divider, 5);
    assert_eq!(t.effect_quarters, 10 * 20);
    assert_eq!(t.time.to_seconds(), 3 * 403200 + 7);
    let appended = Thought::new(&mem, &l, &data, None, 0x1100);
    assert_eq!(appended.thought, "saw rain");
    assert_eq!(appended.effect_quarters, 0);
    let unknown = Thought::new(&mem, &l, &data, Some(95), 0x1200);
    assert_eq!(unknown.thought, "");
}
