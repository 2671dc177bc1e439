//! The offset schema: for each section of the foreign layout, the byte
//! offset of each named field, loaded once from configuration text.

use vstd::prelude::*;

verus! {

/// The closed set of sections that the schema configures.
#[derive(PartialEq, Eq, Structural, Clone, Copy, Debug)]
pub enum OffsetSection {
    Info,
    Addresses,
    Language,
    Word,
    GeneralRef,
    Race,
    Caste,
    HistEntity,
    HistFigure,
    HistEvent,
    Item,
    ItemSubtype,
    ItemFilter,
    WeaponSubtype,
    ArmorSubtype,
    Material,
    Plant,
    Descriptor,
    Health,
    Dwarf,
    Syndrome,
    UnitWound,
    Soul,
    Need,
    Emotion,
    Job,
    Squad,
    Activity,
    Art,
    Viewscreen,
}

/// The name of the configuration table that holds a section.
pub open spec fn table_name(s: OffsetSection) -> Seq<char> {
    match s {
        OffsetSection::Info => "info"@,
        OffsetSection::Addresses => "addresses"@,
        OffsetSection::Language => "language"@,
        OffsetSection::Word => "word_offsets"@,
        OffsetSection::GeneralRef => "general_ref_offsets"@,
        OffsetSection::Race => "race_offsets"@,
        OffsetSection::Caste => "caste_offsets"@,
        OffsetSection::HistEntity => "hist_entity_offsets"@,
        OffsetSection::HistFigure => "hist_figure_offsets"@,
        OffsetSection::HistEvent => "hist_event_offsets"@,
        OffsetSection::Item => "item_offsets"@,
        OffsetSection::ItemSubtype => "item_subtype_offsets"@,
        OffsetSection::ItemFilter => "item_filter_offsets"@,
        OffsetSection::WeaponSubtype => "weapon_subtype_offsets"@,
        OffsetSection::ArmorSubtype => "armor_subtype_offsets"@,
        OffsetSection::Material => "material_offsets"@,
        OffsetSection::Plant => "plant_offsets"@,
        OffsetSection::Descriptor => "descriptor_offsets"@,
        OffsetSection::Health => "health_offsets"@,
        OffsetSection::Dwarf => "dwarf_offsets"@,
        OffsetSection::Syndrome => "syndrome_offsets"@,
        OffsetSection::UnitWound => "unit_wound_offsets"@,
        OffsetSection::Soul => "soul_details"@,
        OffsetSection::Need => "need_offsets"@,
        OffsetSection::Emotion => "emotion_offsets"@,
        OffsetSection::Job => "job_details"@,
        OffsetSection::Squad => "squad_offsets"@,
        OffsetSection::Activity => "activity_offsets"@,
        OffsetSection::Art => "art_offsets"@,
        OffsetSection::Viewscreen => "viewscreen_offsets"@,
    }
}

impl OffsetSection {
    /// The name of the configuration table that holds this section.
    pub fn table_name(self) -> (r: &'static str)
        ensures
            r@ == table_name(self),
    {
        match self {
            OffsetSection::Info => "info",
            OffsetSection::Addresses => "addresses",
            OffsetSection::Language => "language",
            OffsetSection::Word => "word_offsets",
            OffsetSection::GeneralRef => "general_ref_offsets",
            OffsetSection::Race => "race_offsets",
            OffsetSection::Caste => "caste_offsets",
            OffsetSection::HistEntity => "hist_entity_offsets",
            OffsetSection::HistFigure => "hist_figure_offsets",
            OffsetSection::HistEvent => "hist_event_offsets",
            OffsetSection::Item => "item_offsets",
            OffsetSection::ItemSubtype => "item_subtype_offsets",
            OffsetSection::ItemFilter => "item_filter_offsets",
            OffsetSection::WeaponSubtype => "weapon_subtype_offsets",
            OffsetSection::ArmorSubtype => "armor_subtype_offsets",
            OffsetSection::Material => "material_offsets",
            OffsetSection::Plant => "plant_offsets",
            OffsetSection::Descriptor => "descriptor_offsets",
            OffsetSection::Health => "health_offsets",
            OffsetSection::Dwarf => "dwarf_offsets",
            OffsetSection::Syndrome => "syndrome_offsets",
            OffsetSection::UnitWound => "unit_wound_offsets",
            OffsetSection::Soul => "soul_details",
            OffsetSection::Need => "need_offsets",
            OffsetSection::Emotion => "emotion_offsets",
            OffsetSection::Job => "job_details",
            OffsetSection::Squad => "squad_offsets",
            OffsetSection::Activity => "activity_offsets",
            OffsetSection::Art => "art_offsets",
            OffsetSection::Viewscreen => "viewscreen_offsets",
        }
    }

    /// Every section, in declaration order.
    pub fn all() -> (r: Vec<OffsetSection>)
        ensures
            r@.len() == 30,
    {
        vec![
            OffsetSection::Info,
            OffsetSection::Addresses,
            OffsetSection::Language,
            OffsetSection::Word,
            OffsetSection::GeneralRef,
            OffsetSection::Race,
            OffsetSection::Caste,
            OffsetSection::HistEntity,
            OffsetSection::HistFigure,
            OffsetSection::HistEvent,
            OffsetSection::Item,
            OffsetSection::ItemSubtype,
            OffsetSection::ItemFilter,
            OffsetSection::WeaponSubtype,
            OffsetSection::ArmorSubtype,
            OffsetSection::Material,
            OffsetSection::Plant,
            OffsetSection::Descriptor,
            OffsetSection::Health,
            OffsetSection::Dwarf,
            OffsetSection::Syndrome,
            OffsetSection::UnitWound,
            OffsetSection::Soul,
            OffsetSection::Need,
            OffsetSection::Emotion,
            OffsetSection::Job,
            OffsetSection::Squad,
            OffsetSection::Activity,
            OffsetSection::Art,
            OffsetSection::Viewscreen,
        ]
    }
}

/// Another name for the schema.
pub type MemoryLayout = MemoryOffsets;

/// Another name for the schema's sections.
pub type MemorySection = OffsetSection;

/// One configured field: its section, its name and its byte offset.
pub struct OffsetEntry {
    pub section: OffsetSection,
    pub field: String,
    pub offset: u64,
}

/// Why a configuration value could not be taken into the schema.
#[derive(PartialEq, Eq, Structural, Clone, Copy, Debug)]
pub enum SchemaError {
    /// The text is not a hexadecimal number that fits in 64 bits.
    BadNumber,
    /// A field that the decoders need is absent.
    MissingField,
    /// A field is configured twice in one section.
    DuplicateField,
}

/// The schema. Each lookup goes to the first entry recorded for the pair.
pub struct MemoryOffsets {
    pub entries: Vec<OffsetEntry>,
}

/// Offset of `f` in section `s` among `entries[i..]`, or `None`.
pub open spec fn find_from(entries: Seq<OffsetEntry>, i: int, s: OffsetSection, f: Seq<char>) -> Option<
    u64,
>
    decreases entries.len() - i,
{
    if i < 0 || i >= entries.len() {
        None
    } else if entries[i].section == s && entries[i].field@ == f {
        Some(entries[i].offset)
    } else {
        find_from(entries, i + 1, s, f)
    }
}

pub open spec fn hex_digit(c: char) -> Option<int> {
    if '0' <= c && c <= '9' {
        Some(c as int - '0' as int)
    } else if 'a' <= c && c <= 'f' {
        Some(c as int - 'a' as int + 10)
    } else if 'A' <= c && c <= 'F' {
        Some(c as int - 'A' as int + 10)
    } else {
        None
    }
}

pub open spec fn all_hex(s: Seq<char>) -> bool {
    forall|i: int| 0 <= i < s.len() ==> hex_digit(#[trigger] s[i]) is Some
}

/// The number that a string of hexadecimal digits denotes.
pub open spec fn hex_value(s: Seq<char>) -> int
    decreases s.len(),
{
    if s.len() == 0 {
        0
    } else {
        hex_value(s.drop_last()) * 16 + hex_digit(s.last()).unwrap_or(0)
    }
}

pub open spec fn is_blank(c: char) -> bool {
    c == ' ' || c == '\t' || c == '\n' || c == '\r'
}

/// `s` without leading and trailing blanks.
pub open spec fn trim_blank(s: Seq<char>) -> Seq<char>
    decreases s.len(),
{
    if s.len() > 0 && is_blank(s[0]) {
        trim_blank(s.drop_first())
    } else if s.len() > 0 && is_blank(s.last()) {
        trim_blank(s.drop_last())
    } else {
        s
    }
}

/// The digits of a configured offset: trimmed, without a leading `0x`.
pub open spec fn hex_body(s: Seq<char>) -> Seq<char> {
    let t = trim_blank(s);
    if t.len() >= 2 && t[0] == '0' && (t[1] == 'x' || t[1] == 'X') {
        t.subrange(2, t.len() as int)
    } else {
        t
    }
}

/// The value of configuration text as an offset, where it is one.
pub open spec fn parse_hex_spec(s: Seq<char>) -> Option<u64> {
    let b = hex_body(s);
    if b.len() > 0 && all_hex(b) && hex_value(b) <= u64::MAX {
        Some(hex_value(b) as u64)
    } else {
        None
    }
}

proof fn lemma_hex_value_nonneg(s: Seq<char>)
    ensures
        hex_value(s) >= 0,
    decreases s.len(),
{
    if s.len() > 0 {
        lemma_hex_value_nonneg(s.drop_last());
    }
}

proof fn lemma_hex_value_grows(s: Seq<char>, i: int)
    requires
        0 <= i <= s.len(),
        all_hex(s),
    ensures
        hex_value(s.subrange(0, i)) <= hex_value(s),
    decreases s.len() - i,
{
    if i < s.len() {
        lemma_hex_value_grows(s, i + 1);
        let p = s.subrange(0, i + 1);
        assert(p.drop_last() =~= s.subrange(0, i));
        lemma_hex_value_nonneg(s.subrange(0, i));
        assert(hex_digit(p.last()) is Some);
    } else {
        assert(s.subrange(0, i) =~= s);
    }
}

fn digit_value(c: char) -> (r: Option<u64>)
    ensures
        match hex_digit(c) {
            Some(v) => r == Some(v as u64),
            None => r is None,
        },
{
    if '0' <= c && c <= '9' {
        Some((c as u32 - '0' as u32) as u64)
    } else if 'a' <= c && c <= 'f' {
        Some((c as u32 - 'a' as u32 + 10) as u64)
    } else if 'A' <= c && c <= 'F' {
        Some((c as u32 - 'A' as u32 + 10) as u64)
    } else {
        None
    }
}

/// Parses an offset as the configuration writes it: hexadecimal, with an
/// optional `0x` and surrounding blanks.
pub fn parse_hex(text: &str) -> (r: Option<u64>)
    ensures
        r == parse_hex_spec(text@),
{
    let n = text.unicode_len();
    let mut lo: usize = 0;
    let mut hi: usize = n;
    assert(text@.subrange(0, n as int) =~= text@);
    while lo < hi && is_blank_char(text.get_char(lo))
        invariant
            lo <= hi == n,
            n == text@.len(),
            trim_blank(text@) == trim_blank(text@.subrange(lo as int, n as int)),
        decreases hi - lo,
    {
        proof {
            let t = text@.subrange(lo as int, n as int);
            assert(t.drop_first() =~= text@.subrange(lo + 1, n as int));
        }
        lo = lo + 1;
    }
    while lo < hi && is_blank_char(text.get_char(hi - 1))
        invariant
            lo <= hi <= n,
            n == text@.len(),
            trim_blank(text@) == trim_blank(text@.subrange(lo as int, hi as int)),
            lo < hi ==> !is_blank(text@[lo as int]),
        decreases hi - lo,
    {
        proof {
            let t = text@.subrange(lo as int, hi as int);
            assert(t.drop_last() =~= text@.subrange(lo as int, hi - 1));
        }
        hi = hi - 1;
    }
    proof {
        let t = text@.subrange(lo as int, hi as int);
        assert(trim_blank(t) == t);
    }
    if hi - lo >= 2 && text.get_char(lo) == '0' && (text.get_char(lo + 1) == 'x' || text.get_char(
        lo + 1,
    ) == 'X') {
        lo = lo + 2;
    }
    let ghost body = text@.subrange(lo as int, hi as int);
    assert(body =~= hex_body(text@));
    if lo == hi {
        return None;
    }
    let mut acc: u64 = 0;
    let mut i: usize = lo;
    while i < hi
        invariant
            lo <= i <= hi <= n,
            n == text@.len(),
            body == text@.subrange(lo as int, hi as int),
            body == hex_body(text@),
            all_hex(body.subrange(0, i - lo)),
            acc as int == hex_value(body.subrange(0, i - lo)),
        decreases hi - i,
    {
        let c = text.get_char(i);
        assert(c == body[i - lo]);
        let d = match digit_value(c) {
            Some(d) => d,
            None => {
                assert(hex_digit(body[i - lo]) is None);
                assert(!all_hex(body));
                assert(hex_body(text@) == body);
                assert(parse_hex_spec(text@) is None);
                return None;
            },
        };
        let ghost p = body.subrange(0, i - lo + 1);
        assert(p.drop_last() =~= body.subrange(0, i - lo));
        assert(p.last() == c);
        assert(hex_value(p) == hex_value(p.drop_last()) * 16 + hex_digit(p.last()).unwrap_or(0));
        if acc > (u64::MAX - d) / 16 {
            proof {
                assert(all_hex(p));
                assert(hex_value(p) > u64::MAX) by (nonlinear_arith)
                    requires
                        hex_value(p) == acc * 16 + d,
                        acc > (u64::MAX - d) / 16,
                        d < 16,
                ;
                if all_hex(body) {
                    lemma_hex_value_grows(body, i - lo + 1);
                    assert(hex_value(body) > u64::MAX);
                }
                assert(hex_body(text@) == body);
                assert(parse_hex_spec(text@) is None);
            }
            return None;
        }
        assert(acc * 16 + d <= u64::MAX) by (nonlinear_arith)
            requires
                acc <= (u64::MAX - d) / 16,
                d < 16,
        ;
        acc = acc * 16 + d;
        i = i + 1;
    }
    assert(body.subrange(0, hi - lo) =~= body);
    Some(acc)
}

fn is_blank_char(c: char) -> (r: bool)
    ensures
        r == is_blank(c),
{
    c == ' ' || c == '\t' || c == '\n' || c == '\r'
}

impl MemoryOffsets {
    /// The offset of `field` in `section`, if the schema has it.
    pub open spec fn offset_of(&self, section: OffsetSection, field: Seq<char>) -> Option<u64> {
        find_from(self.entries@, 0, section, field)
    }

    /// The offset that a decoder uses: an absent field reads as 0, and a
    /// schema that lacks a field the decoders need is refused at load time.
    pub open spec fn off(&self, section: OffsetSection, field: Seq<char>) -> u64 {
        self.offset_of(section, field).unwrap_or(0)
    }

    /// No section names a field twice.
    pub open spec fn keys_unique(&self) -> bool {
        forall|i: int, j: int|
            0 <= i < j < self.entries@.len() ==> !((#[trigger] self.entries@[i]).section == (#[trigger] self.entries@[j]).section
                && self.entries@[i].field@ == self.entries@[j].field@)
    }

    pub fn new() -> (r: MemoryOffsets)
        ensures
            r.entries@.len() == 0,
            r.keys_unique(),
    {
        MemoryOffsets { entries: Vec::new() }
    }

    /// Records `field` of `section` from its configured text.
    pub fn insert_hex(&mut self, section: OffsetSection, field: String, text: &str) -> (r: Result<
        (),
        SchemaError,
    >)
        requires
            old(self).keys_unique(),
        ensures
            final(self).keys_unique(),
            old(self).offset_of(section, field@) is Some ==> r == Err::<(), SchemaError>(SchemaError::DuplicateField)
                && final(self).entries@ == old(self).entries@,
            old(self).offset_of(section, field@) is None && parse_hex_spec(text@) is None ==> r == Err::<(), SchemaError>(SchemaError::BadNumber)
                && final(self).entries@ == old(self).entries@,
            old(self).offset_of(section, field@) is None ==> (parse_hex_spec(text@) matches Some(v) ==> r is Ok && final(self).entries@ == old(
                self,
            ).entries@.push(OffsetEntry { section, field, offset: v })),
    {
        if self.has_field(section, &field) {
            return Err(SchemaError::DuplicateField);
        }
        proof {
            lemma_find_none(self.entries@, 0, section, field@);
        }
        match parse_hex(text) {
            Some(v) => {
                self.entries.push(OffsetEntry { section, field, offset: v });
                Ok(())
            },
            None => Err(SchemaError::BadNumber),
        }
    }

    /// All entries of one section, in the order they were recorded.
    pub fn get_section(&self, section: OffsetSection) -> (r: Vec<(String, u64)>)
        ensures
            r@.len() == self.entries@.filter(|e: OffsetEntry| e.section == section).len(),
            forall|k: int|
                0 <= k < r@.len() ==> (#[trigger] r@[k]).0@ == self.entries@.filter(
                    |e: OffsetEntry| e.section == section,
                )[k].field@ && r@[k].1 == self.entries@.filter(
                    |e: OffsetEntry| e.section == section,
                )[k].offset,
    {
        let mut out: Vec<(String, u64)> = Vec::new();
        let mut i: usize = 0;
        while i < self.entries.len()
            invariant
                i <= self.entries@.len(),
                out@.len() == self.entries@.subrange(0, i as int).filter(
                    |e: OffsetEntry| e.section == section,
                ).len(),
                forall|k: int|
                    0 <= k < out@.len() ==> (#[trigger] out@[k]).0@ == self.entries@.subrange(
                        0,
                        i as int,
                    ).filter(|e: OffsetEntry| e.section == section)[k].field@ && out@[k].1
                        == self.entries@.subrange(0, i as int).filter(
                        |e: OffsetEntry| e.section == section,
                    )[k].offset,
            decreases self.entries@.len() - i,
        {
            let e = &self.entries[i];
            proof {
                let s = self.entries@.subrange(0, i as int + 1);
                assert(s.drop_last() =~= self.entries@.subrange(0, i as int));
                reveal(Seq::filter);
            }
            if e.section == section {
                out.push((e.field.clone(), e.offset));
            }
            i = i + 1;
        }
        assert(self.entries@.subrange(0, i as int) =~= self.entries@);
        out
    }

    /// The offset of `field` in `section`; a lookup is a function of the
    /// loaded entries alone.
    pub fn field_offset(&self, section: OffsetSection, field: &str) -> (r: u64)
        ensures
            r == self.off(section, field@),
    {
        let key = String::from_str(field);
        let mut i: usize = 0;
        while i < self.entries.len()
            invariant
                i <= self.entries@.len(),
                key@ == field@,
                find_from(self.entries@, 0, section, field@) == find_from(
                    self.entries@,
                    i as int,
                    section,
                    field@,
                ),
            decreases self.entries@.len() - i,
        {
            let e = &self.entries[i];
            if e.section == section && e.field == key {
                return e.offset;
            }
            i = i + 1;
        }
        0
    }

    /// The first of `required` that the schema lacks, if any.
    pub fn missing_field(&self, required: &Vec<(OffsetSection, String)>) -> (r: Option<usize>)
        ensures
            r matches Some(k) ==> k < required@.len() && self.offset_of(required@[k as int].0, required@[k as int].1@) is None,
            r is None ==> forall|k: int| 0 <= k < required@.len() ==> self.offset_of(#[trigger] required@[k].0, required@[k].1@) is Some,
    {
        let mut k: usize = 0;
        while k < required.len()
            invariant
                k <= required@.len(),
                forall|j: int| 0 <= j < k ==> self.offset_of(#[trigger] required@[j].0, required@[j].1@) is Some,
            decreases required@.len() - k,
        {
            if !self.has_field(required[k].0, &required[k].1) {
                return Some(k);
            }
            k = k + 1;
        }
        None
    }

    fn has_field(&self, section: OffsetSection, field: &String) -> (r: bool)
        ensures
            r == (self.offset_of(section, field@) is Some),
    {
        let mut i: usize = 0;
        while i < self.entries.len()
            invariant
                i <= self.entries@.len(),
                find_from(self.entries@, 0, section, field@) == find_from(
                    self.entries@,
                    i as int,
                    section,
                    field@,
                ),
            decreases self.entries@.len() - i,
        {
            let e = &self.entries[i];
            if e.section == section && e.field == *field {
                return true;
            }
            i = i + 1;
        }
        false
    }
}

proof fn lemma_find_none(entries: Seq<OffsetEntry>, i: int, s: OffsetSection, f: Seq<char>)
    requires
        0 <= i,
        find_from(entries, i, s, f) is None,
    ensures
        forall|k: int| i <= k < entries.len() ==> !((#[trigger] entries[k]).section == s && entries[k].field@ == f),
    decreases entries.len() - i,
{
    if i < entries.len() {
        lemma_find_none(entries, i + 1, s, f);
    }
}

/// Two schemas loaded from the same entries answer every lookup alike.
pub proof fn lemma_offset_depends_on_entries(
    a: &MemoryOffsets,
    b: &MemoryOffsets,
    section: OffsetSection,
    field: Seq<char>,
)
    requires
        a.entries@ == b.entries@,
    ensures
        a.offset_of(section, field) == b.offset_of(section, field),
        a.off(section, field) == b.off(section, field),
{
}

} // verus!
