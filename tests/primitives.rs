use dwarf_reader::flags::{BitArray, FlagArray};
use dwarf_reader::layout::{parse_hex, MemoryOffsets, OffsetSection, SchemaError};
use dwarf_reader::memory::ProcessMemory;
use dwarf_reader::personality::{combat_hardened, is_conflict, nearest_band, Commitment, Mood, Orientation, Sex};
use dwarf_reader::skill::Skill;
use dwarf_reader::syndromes::{Curse, CurseType};
use dwarf_reader::text::{capitalize_each, contains_str, read_string};
use dwarf_reader::need::{FocusDegree, FocusLevel};
use dwarf_reader::thought::Thought;
use dwarf_reader::time::DfTime;

const BASE: u64 = 0x1000;

fn image(size: usize) -> (ProcessMemory, Vec<u8>) {
    (ProcessMemory::new(1, 0x1_4000_0000), vec![0u8; size])
}

fn put_u64(buf: &mut Vec<u8>, addr: u64, v: u64) {
    let i = (addr - BASE) as usize;
    buf[i..i + 8].copy_from_slice(&v.to_le_bytes());
}

fn put_i32(buf: &mut Vec<u8>, addr: u64, v: i32) {
    let i = (addr - BASE) as usize;
    buf[i..i + 4].copy_from_slice(&v.to_le_bytes());
}

fn put_bytes(buf: &mut Vec<u8>, addr: u64, b: &[u8]) {
    let i = (addr - BASE) as usize;
    buf[i..i + b.len()].copy_from_slice(b);
}

fn finish(mut mem: ProcessMemory, buf: Vec<u8>) -> ProcessMemory {
    mem.add_region(BASE, buf);
    mem
}

#[test]
fn offset_lookup_is_stable() {
    let mut l = MemoryOffsets::new();
    assert!(l.insert_hex(OffsetSection::Race, "name_singular".to_string(), " 0x1A ").is_ok());
    assert!(l.insert_hex(OffsetSection::Caste, "name_singular".to_string(), "20").is_ok());
    assert_eq!(l.field_offset(OffsetSection::Race, "name_singular"), 0x1a);
    assert_eq!(l.field_offset(OffsetSection::Race, "name_singular"), 0x1a);
    assert_eq!(l.field_offset(OffsetSection::Caste, "name_singular"), 0x20);
    assert_eq!(l.field_offset(OffsetSection::Race, "absent"), 0);
    assert_eq!(l.get_section(OffsetSection::Race).len(), 1);
}

#[test]
fn offset_text_errors() {
    let mut l = MemoryOffsets::new();
    assert_eq!(l.insert_hex(OffsetSection::Dwarf, "id".to_string(), "0xZZ"), Err(SchemaError::BadNumber));
    assert_eq!(l.insert_hex(OffsetSection::Dwarf, "id".to_string(), ""), Err(SchemaError::BadNumber));
    assert_eq!(parse_hex("0x10000000000000000"), None);
    assert_eq!(parse_hex("0xffffffffffffffff"), Some(u64::MAX));
    assert_eq!(parse_hex("\t0XaB\n"), Some(0xab));
    let required = vec![(OffsetSection::Dwarf, "id".to_string())];
    assert_eq!(l.missing_field(&required), Some(0));
    assert!(l.insert_hex(OffsetSection::Dwarf, "id".to_string(), "0x4").is_ok());
    assert_eq!(l.missing_field(&required), None);
    assert_eq!(l.insert_hex(OffsetSection::Dwarf, "id".to_string(), "0x8"), Err(SchemaError::DuplicateField));
    assert_eq!(l.field_offset(OffsetSection::Dwarf, "id"), 4);
}

#[test]
fn vector_count_and_bounds() {
    let (mem, mut buf) = image(0x400);
    put_u64(&mut buf, 0x1000, 0x1100);
    put_u64(&mut buf, 0x1008, 0x1118);
    put_u64(&mut buf, 0x1100, 0xAAAA);
    put_u64(&mut buf, 0x1108, 0xBBBB);
    put_u64(&mut buf, 0x1110, 0xCCCC);
    put_u64(&mut buf, 0x1118, 0xDDDD);
    put_u64(&mut buf, 0x1020, 0x1200);
    put_u64(&mut buf, 0x1028, 0x1100);
    let mem = finish(mem, buf);
    assert_eq!(mem.read_pointer_vector(0x1000, 0), vec![0xAAAA, 0xBBBB, 0xCCCC]);
    let wide = mem.read_vector(0x1000, 0, 16);
    assert_eq!(wide.len(), 1);
    assert_eq!(wide[0].len(), 16);
    assert!(mem.read_vector(0x1000, 0, 0).is_empty());
    assert!(mem.read_pointer_vector(0x1020, 0).is_empty());
    assert_eq!(mem.read_vector(0x1000, 0, 5).len(), 4);
}

#[test]
fn flag_set_bits_and_limits() {
    let (mem, mut buf) = image(0x400);
    put_u64(&mut buf, 0x1000, 0x1100);
    put_i32(&mut buf, 0x1008, 2);
    put_bytes(&mut buf, 0x1100, &[0b0000_0101, 0b1000_0000]);
    put_u64(&mut buf, 0x1020, 0x1100);
    put_i32(&mut buf, 0x1028, 0);
    put_u64(&mut buf, 0x1040, 0x1100);
    put_i32(&mut buf, 0x1048, 1001);
    let mem = finish(mem, buf);
    let f = FlagArray::new(&mem, 0x1000);
    assert_eq!(f.flags.size(), 16);
    assert!(f.flag(0));
    assert!(!f.flag(1));
    assert!(f.flag(2));
    assert!(f.flag(15));
    assert!(!f.flag(14));
    assert!(!f.flag(16));
    let empty = FlagArray::new(&mem, 0x1020);
    assert_eq!(empty.flags.size(), 0);
    assert_eq!(empty.flags.get(0), None);
    let too_long = FlagArray::new(&mem, 0x1040);
    assert_eq!(too_long.flags.size(), 0);
    assert!(!too_long.flag(0));
}

#[test]
fn bit_array_set_and_clear() {
    let mut b = BitArray::new(10);
    assert_eq!(b.get(9), Some(false));
    assert!(b.set(9, true).is_ok());
    assert_eq!(b.get(9), Some(true));
    assert!(b.set(9, false).is_ok());
    assert_eq!(b.get(9), Some(false));
    assert!(b.set(10, true).is_err());
    assert_eq!(b.get(10), None);
}

#[test]
fn string_inline_heap_and_ceiling() {
    let (mem, mut buf) = image(0x800);
    put_bytes(&mut buf, 0x1000, b"Urist");
    put_i32(&mut buf, 0x1010, 5);
    put_i32(&mut buf, 0x1018, 15);
    put_u64(&mut buf, 0x1040, 0x1400);
    put_i32(&mut buf, 0x1050, 20);
    put_i32(&mut buf, 0x1058, 31);
    put_bytes(&mut buf, 0x1400, b"a much longer name!!");
    put_bytes(&mut buf, 0x1080, b"abc");
    put_i32(&mut buf, 0x1090, 1025);
    put_i32(&mut buf, 0x1098, 15);
    put_bytes(&mut buf, 0x10C0, &[0x81, 0x9B]);
    put_i32(&mut buf, 0x10D0, 2);
    put_i32(&mut buf, 0x10D8, 15);
    let mem = finish(mem, buf);
    assert_eq!(read_string(&mem, 0x1000, 0), "Urist");
    assert_eq!(read_string(&mem, 0x1000, 0x40), "a much longer name!!");
    assert_eq!(read_string(&mem, 0x1080, 0), "");
    assert_eq!(read_string(&mem, 0x10C0, 0), "ü¢");
}

#[test]
fn skill_rust_tier_scenarios() {
    let s = Skill::from_raw(0, "Mining".to_string(), 0, 0, 0);
    assert_eq!(s.rust_level, 0);
    let capped = Skill::from_raw(0, "Mining".to_string(), 25, 1234, 0);
    assert_eq!(capped.level, 20);
    assert_eq!(capped.experience, 29000);
    assert!(capped.level_capped);
}

#[test]
fn skill_formulas() {
    assert_eq!(Skill::xp_for_level(0), 0);
    assert_eq!(Skill::xp_for_level(1), 500);
    assert_eq!(Skill::xp_for_level(5), 3500);
    assert_eq!(Skill::xp_for_level(-3), 0);
    assert_eq!(Skill::get_level_from_xp(499), 0);
    assert_eq!(Skill::get_level_from_xp(500), 1);
    assert_eq!(Skill::get_level_from_xp(3499), 4);
    assert_eq!(Skill::get_level_from_xp(3500), 5);
    let half = Skill::from_raw(1, "x".to_string(), 2, 350, 0);
    assert_eq!(half.experience, 1100 + 350);
    assert_eq!(half.experience_progress, 50);
    let rusty = Skill::from_raw(1, "x".to_string(), 2, 0, 1);
    assert_eq!(rusty.rust_level, 1);
    let very = Skill::from_raw(1, "x".to_string(), 4, 0, 3);
    assert_eq!(very.rust_level, 2);
    let losing = Skill::from_raw(1, "x".to_string(), 0, 600, 0);
    assert!(losing.losing_exp);
    assert_eq!(losing.rust_level, 3);
    assert_eq!(losing.experience_progress, 100);
    let revived = Skill::from_raw(1, "x".to_string(), 0, 0, 5);
    assert_eq!(revived.raw_experience, 1);
}

#[test]
fn happiness_band_nearest_and_ties() {
    let t = vec![-100000, -10000, 0, 10000];
    assert_eq!(nearest_band(&t, -6000), Some(1));
    assert_eq!(nearest_band(&t, -4000), Some(2));
    assert_eq!(nearest_band(&t, -5000), Some(1));
    assert_eq!(nearest_band(&t, 5000), Some(2));
    assert_eq!(nearest_band(&t, 20000), Some(3));
    assert_eq!(nearest_band(&Vec::new(), 3), None);
}

#[test]
fn mood_resolution() {
    assert_eq!(Mood::resolve(-1, -1), (Mood::Calm, false));
    assert_eq!(Mood::resolve(2, -1), (Mood::Possessed, true));
    assert_eq!(Mood::resolve(-1, 2), (Mood::Tantrum, false));
    assert_eq!(Mood::resolve(-1, 3), (Mood::Depressed, false));
    assert_eq!(Mood::resolve(8, -1), (Mood::Calm, false));
    assert_eq!(Mood::resolve(7, -1), (Mood::Berserk, true));
    assert_eq!(Mood::resolve(9, -1), (Mood::Trauma, true));
}

#[test]
fn orientation_truth_table() {
    let u = Commitment::Uninterested;
    let l = Commitment::Lover;
    assert_eq!(Orientation::from_interests(Sex::Male, u, u), Orientation::Asexual);
    assert_eq!(Orientation::from_interests(Sex::Male, l, u), Orientation::Homosexual);
    assert_eq!(Orientation::from_interests(Sex::Male, u, l), Orientation::Heterosexual);
    assert_eq!(Orientation::from_interests(Sex::Female, l, u), Orientation::Heterosexual);
    assert_eq!(Orientation::from_interests(Sex::Female, u, Commitment::Marriage), Orientation::Homosexual);
    assert_eq!(Orientation::from_interests(Sex::Female, l, l), Orientation::Bisexual);
    let (m, f, o) = Orientation::from_packed(Sex::Male, 0b0001_0010);
    assert_eq!((m, f, o), (Commitment::Lover, Commitment::Marriage, Orientation::Bisexual));
}

#[test]
fn facet_conflict_and_combat_hardened() {
    assert!(is_conflict(11, 39));
    assert!(!is_conflict(10, 0));
    assert!(is_conflict(-11, 61));
    assert!(!is_conflict(-11, 60));
    assert_eq!(combat_hardened(0), 40);
    assert_eq!(combat_hardened(100), 90);
    assert_eq!(combat_hardened(51), 65);
    assert_eq!(combat_hardened(-3), 39);
}

#[test]
fn focus_bands() {
    assert_eq!(FocusLevel::from_level(-100000).degree, FocusDegree::BadlyDistracted);
    assert_eq!(FocusLevel::from_level(-99999).degree, FocusDegree::Distracted);
    assert_eq!(FocusLevel::from_level(-1000).degree, FocusDegree::Unfocused);
    assert_eq!(FocusLevel::from_level(100).degree, FocusDegree::NotDistracted);
    assert_eq!(FocusLevel::from_level(200).degree, FocusDegree::Untroubled);
    assert_eq!(FocusLevel::from_level(300).degree, FocusDegree::LevelHeaded);
    assert_eq!(FocusLevel::from_level(301).degree, FocusDegree::Unfettered);
    assert_eq!(FocusLevel::from_level(301).label(), "Unfettered");
}

#[test]
fn curse_by_name_ignoring_case() {
    assert_eq!(Curse::classify("Syn: VampCurse").curse_type, CurseType::Vampire);
    assert_eq!(Curse::classify("WERECURSE beast").curse_type, CurseType::Werebeast);
    let other = Curse::classify("Ancient CURSE");
    assert_eq!(other.curse_type, CurseType::Other);
    assert_eq!(other.name, "Curse");
    assert_eq!(Curse::classify("cold").curse_type, CurseType::Uncursed);
    assert!(contains_str("abcabd", "abd"));
    assert!(!contains_str("ab", "abc"));
}

#[test]
fn capitalize_words() {
    assert_eq!(capitalize_each("  dwarf   baby "), "Dwarf Baby");
    assert_eq!(capitalize_each("éclair ßig"), "Éclair SSig");
    assert_eq!(capitalize_each(""), "");
}

#[test]
fn stress_effect_buckets() {
    assert_eq!(Thought::effect(100, 10, 95), (10, 20, 200));
    assert_eq!(Thought::effect(100, 10, 80), (10, 12, 120));
    assert_eq!(Thought::effect(100, 10, 61), (10, 8, 80));
    assert_eq!(Thought::effect(100, 10, 5), (0, 0, 0));
    assert_eq!(Thought::effect(100, 10, 20), (10, 1, 10));
    assert_eq!(Thought::effect(-105, 10, 30), (10, 2, -20));
    assert_eq!(Thought::effect(100, 10, 50), (0, 0, 0));
}

#[test]
fn calendar_conversions() {
    let t = DfTime::from_years(2).add(DfTime::from_months(13));
    assert_eq!(t.to_years(), 3);
    assert_eq!(t.to_months(), 37);
    assert_eq!(t.current_month(), "Slate");
    assert_eq!(DfTime::from_days(3).to_seconds(), 3600);
    assert_eq!(DfTime::from_hours(2).to_seconds(), 100);
    assert_eq!(DfTime::from_weeks(1).to_days(), 7);
    assert_eq!(DfTime::from_minutes(25).to_seconds(), 2);
    assert_eq!(DfTime::from_seconds(100).to_hours(), 2);
    assert_eq!(DfTime::from_seconds(10).to_minutes(), 120);
    assert_eq!(DfTime::from_seconds(1200).sub(200).to_seconds(), 1000);
    assert_eq!(DfTime::from_years(u64::MAX).to_seconds(), 0);
    assert_eq!(DfTime::from_seconds(7).as_duration().as_secs(), 7);
    assert_eq!(DfTime::from_days(8400).to_weeks(), 1200);
}
