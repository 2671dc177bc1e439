//! Languages: the word table, the per-civilization translations, and the
//! names generated from them.

use vstd::prelude::*;
use crate::layout::{MemoryOffsets, OffsetSection};
use crate::memory::{ProcessMemory, POINTER_SIZE};
use crate::text::{capitalize_each, capitalized, read_string, string_at};

verus! {

/// Number of word slots in a generated name.
pub const NAME_WORDS: u64 = 7;

/// A word in each of its forms.
pub struct Word {
    pub address: u64,
    pub base: String,
    pub noun: String,
    pub plural_noun: String,
    pub adjective: String,
    pub verb: String,
    pub present_simple_verb: String,
    pub past_simple_verb: String,
    pub past_participle_verb: String,
    pub present_participle_verb: String,
}

#[derive(PartialEq, Eq, Structural, Clone, Copy, Debug)]
pub enum WordType {
    Noun,
    PluralNoun,
    Adjective,
    Verb,
    PresentSimpleVerb,
    PastSimpleVerb,
    PastParticipleVerb,
    PresentParticipleVerb,
}

impl WordType {
    pub open spec fn from_i32_spec(value: int) -> Option<WordType> {
        if value == 0 {
            Some(WordType::Noun)
        } else if value == 1 {
            Some(WordType::PluralNoun)
        } else if value == 2 {
            Some(WordType::Adjective)
        } else if value == 3 {
            Some(WordType::Verb)
        } else if value == 4 {
            Some(WordType::PresentSimpleVerb)
        } else if value == 5 {
            Some(WordType::PastSimpleVerb)
        } else if value == 6 {
            Some(WordType::PastParticipleVerb)
        } else if value == 7 {
            Some(WordType::PresentParticipleVerb)
        } else {
            None
        }
    }

    /// The form with number `value`, if there is one.
    pub fn from_i32(value: i32) -> (r: Option<WordType>)
        ensures
            r == Self::from_i32_spec(value as int),
            r is Some <==> 0 <= value <= 7,
            value == 0 ==> r == Some(WordType::Noun),
            value == 1 ==> r == Some(WordType::PluralNoun),
            value == 2 ==> r == Some(WordType::Adjective),
            value == 3 ==> r == Some(WordType::Verb),
            value == 4 ==> r == Some(WordType::PresentSimpleVerb),
            value == 5 ==> r == Some(WordType::PastSimpleVerb),
            value == 6 ==> r == Some(WordType::PastParticipleVerb),
            value == 7 ==> r == Some(WordType::PresentParticipleVerb),
    {
        match value {
            0 => Some(WordType::Noun),
            1 => Some(WordType::PluralNoun),
            2 => Some(WordType::Adjective),
            3 => Some(WordType::Verb),
            4 => Some(WordType::PresentSimpleVerb),
            5 => Some(WordType::PastSimpleVerb),
            6 => Some(WordType::PastParticipleVerb),
            7 => Some(WordType::PresentParticipleVerb),
            _ => None,
        }
    }
}

impl Word {
    pub open spec fn form(&self, t: WordType) -> Seq<char> {
        match t {
            WordType::Noun => self.noun@,
            WordType::PluralNoun => self.plural_noun@,
            WordType::Adjective => self.adjective@,
            WordType::Verb => self.verb@,
            WordType::PresentSimpleVerb => self.present_simple_verb@,
            WordType::PastSimpleVerb => self.past_simple_verb@,
            WordType::PastParticipleVerb => self.past_participle_verb@,
            WordType::PresentParticipleVerb => self.present_participle_verb@,
        }
    }

    /// Decodes the word at `address`.
    pub fn new(mem: &ProcessMemory, layout: &MemoryOffsets, address: u64) -> (r: Word)
        ensures
            r.address == address,
            r.base@ == string_at(mem, address + layout.off(OffsetSection::Word, "base"@)),
            r.noun@ == string_at(mem, address + layout.off(OffsetSection::Word, "noun_singular"@)),
            r.plural_noun@ == string_at(mem, address + layout.off(OffsetSection::Word, "noun_plural"@)),
            r.adjective@ == string_at(mem, address + layout.off(OffsetSection::Word, "adjective"@)),
            r.verb@ == string_at(mem, address + layout.off(OffsetSection::Word, "verb"@)),
            r.present_simple_verb@ == string_at(mem, address + layout.off(OffsetSection::Word, "present_simple_verb"@)),
            r.past_simple_verb@ == string_at(mem, address + layout.off(OffsetSection::Word, "past_simple_verb"@)),
            r.past_participle_verb@ == string_at(mem, address + layout.off(OffsetSection::Word, "past_participle_verb"@)),
            r.present_participle_verb@ == string_at(mem, address + layout.off(OffsetSection::Word, "present_participle_verb"@)),
    {
        Word {
            address,
            base: read_string(mem, address, layout.field_offset(OffsetSection::Word, "base")),
            noun: read_string(mem, address, layout.field_offset(OffsetSection::Word, "noun_singular")),
            plural_noun: read_string(mem, address, layout.field_offset(OffsetSection::Word, "noun_plural")),
            adjective: read_string(mem, address, layout.field_offset(OffsetSection::Word, "adjective")),
            verb: read_string(mem, address, layout.field_offset(OffsetSection::Word, "verb")),
            present_simple_verb: read_string(mem, address, layout.field_offset(OffsetSection::Word, "present_simple_verb")),
            past_simple_verb: read_string(mem, address, layout.field_offset(OffsetSection::Word, "past_simple_verb")),
            past_participle_verb: read_string(mem, address, layout.field_offset(OffsetSection::Word, "past_participle_verb")),
            present_participle_verb: read_string(mem, address, layout.field_offset(OffsetSection::Word, "present_participle_verb")),
        }
    }

    /// The word in form `word_type`.
    pub fn get_word_position(&self, word_type: WordType) -> (r: String)
        ensures
            r@ == self.form(word_type),
    {
        match word_type {
            WordType::Noun => self.noun.clone(),
            WordType::PluralNoun => self.plural_noun.clone(),
            WordType::Adjective => self.adjective.clone(),
            WordType::Verb => self.verb.clone(),
            WordType::PresentSimpleVerb => self.present_simple_verb.clone(),
            WordType::PastSimpleVerb => self.past_simple_verb.clone(),
            WordType::PastParticipleVerb => self.past_participle_verb.clone(),
            WordType::PresentParticipleVerb => self.present_participle_verb.clone(),
        }
    }
}

/// The words of one civilization's language, by word id.
pub struct Translation {
    pub name: String,
    pub words: Vec<String>,
}

/// The word table and the translations, numbered in table order.
pub struct Languages {
    pub words: Vec<Word>,
    pub translations: Vec<Translation>,
}

impl Languages {
    /// The text of word `word` in language `lang_id`: empty for a word id
    /// that is not positive, an empty word table, or an id outside the tables.
    pub open spec fn chunk(&self, word: int, lang_id: int) -> Seq<char> {
        if word <= 0 || self.words@.len() == 0 || lang_id < 0 || lang_id >= self.translations@.len()
            || word >= self.translations@[lang_id].words@.len() {
            Seq::empty()
        } else {
            self.translations@[lang_id].words@[word]@
        }
    }

    pub fn word_chunk(&self, word: i32, lang_id: i32) -> (r: String)
        ensures
            r@ == self.chunk(word as int, lang_id as int),
    {
        if word <= 0 || self.words.len() == 0 || lang_id < 0 || lang_id as usize >= self.translations.len() {
            return String::new();
        }
        let table = &self.translations[lang_id as usize];
        if word as usize >= table.words.len() {
            return String::new();
        }
        table.words[word as usize].clone()
    }

    /// Id of the `i`-th word of the name record at `addr`.
    pub open spec fn name_word_id(mem: &ProcessMemory, layout: &MemoryOffsets, addr: int, i: int) -> int {
        mem.i32_at(addr + layout.off(OffsetSection::Word, "words"@) + 4 * i)
    }

    /// The generated name of the name record at `addr`: its front and rear
    /// compounds in its language, joined and capitalised.
    pub fn language_word(&self, mem: &ProcessMemory, layout: &MemoryOffsets, addr: u64) -> (r: String)
        ensures
            r@ == capitalized(
                self.chunk(Self::name_word_id(mem, layout, addr as int, 0), mem.i32_at(addr + layout.off(OffsetSection::Word, "language_id"@)))
                + self.chunk(Self::name_word_id(mem, layout, addr as int, 1), mem.i32_at(addr + layout.off(OffsetSection::Word, "language_id"@))),
            ),
    {
        let language_id = mem.read_i32(addr, layout.field_offset(OffsetSection::Word, "language_id"));
        let words_off = layout.field_offset(OffsetSection::Word, "words");
        let (front_id, rear_id) = match addr.checked_add(words_off) {
            Some(w) => (mem.read_i32(w, 0), mem.read_i32(w, 4)),
            None => {
                proof {
                    mem.lemma_high_zero(addr + words_off, 4);
                    mem.lemma_high_zero(addr + words_off + 4, 4);
                }
                (0, 0)
            },
        };
        let mut first = self.word_chunk(front_id, language_id);
        let rear = self.word_chunk(rear_id, language_id);
        first.append(rear.as_str());
        capitalize_each(first.as_str())
    }

    /// Decodes the word table and the translations, numbering translations
    /// in table order.
    pub fn load(mem: &ProcessMemory, layout: &MemoryOffsets, language_vector: u64, translation_vector: u64) -> (r: Languages)
        ensures
            r.words@.len() == mem.vec_len(language_vector as int, POINTER_SIZE as int),
            r.translations@.len() == mem.vec_len(translation_vector as int, POINTER_SIZE as int),
            forall|k: int| 0 <= k < r.translations@.len() ==> (#[trigger] r.translations@[k]).name@
                == string_at(mem, mem.vec_ptr(translation_vector as int, k)),
            forall|k: int| 0 <= k < r.translations@.len() ==> {
                let lang = mem.vec_ptr(translation_vector as int, k);
                let table = lang + layout.off(OffsetSection::Language, "word_table"@);
                &&& (#[trigger] r.translations@[k]).words@.len() == mem.vec_len(table, POINTER_SIZE as int)
                &&& forall|j: int| 0 <= j < r.translations@[k].words@.len() ==> (#[trigger] r.translations@[k].words@[j])@
                    == string_at(mem, mem.vec_ptr(table, j))
            },
    {
        let word_ptrs = mem.read_pointer_vector(language_vector, 0);
        let mut words: Vec<Word> = Vec::new();
        let mut i: usize = 0;
        while i < word_ptrs.len()
            invariant
                i <= word_ptrs@.len(),
                words@.len() == i,
            decreases word_ptrs@.len() - i,
        {
            words.push(Word::new(mem, layout, word_ptrs[i]));
            i = i + 1;
        }
        let table_off = layout.field_offset(OffsetSection::Language, "word_table");
        let langs = mem.read_pointer_vector(translation_vector, 0);
        let mut translations: Vec<Translation> = Vec::new();
        let mut j: usize = 0;
        while j < langs.len()
            invariant
                j <= langs@.len(),
                langs@.len() == mem.vec_len(translation_vector as int, POINTER_SIZE as int),
                forall|k: int| 0 <= k < langs@.len() ==> (#[trigger] langs@[k]) as int == mem.vec_ptr(translation_vector as int, k),
                translations@.len() == j,
                table_off == layout.off(OffsetSection::Language, "word_table"@),
                forall|k: int| 0 <= k < j ==> (#[trigger] translations@[k]).name@ == string_at(mem, mem.vec_ptr(translation_vector as int, k)),
                forall|k: int| 0 <= k < j ==> {
                    let lang = mem.vec_ptr(translation_vector as int, k);
                    let table = lang + table_off;
                    &&& (#[trigger] translations@[k]).words@.len() == mem.vec_len(table, POINTER_SIZE as int)
                    &&& forall|i: int| 0 <= i < translations@[k].words@.len() ==> (#[trigger] translations@[k].words@[i])@
                        == string_at(mem, mem.vec_ptr(table, i))
                },
            decreases langs@.len() - j,
        {
            let lang = langs[j];
            let name = read_string(mem, lang, 0);
            let word_strs = mem.read_pointer_vector(lang, table_off);
            let mut tw: Vec<String> = Vec::new();
            let mut k: usize = 0;
            while k < word_strs.len()
                invariant
                    k <= word_strs@.len(),
                    word_strs@.len() == mem.vec_len(lang + table_off, POINTER_SIZE as int),
                    forall|m: int| 0 <= m < word_strs@.len() ==> (#[trigger] word_strs@[m]) as int == mem.vec_ptr(lang + table_off, m),
                    tw@.len() == k,
                    forall|m: int| 0 <= m < k ==> (#[trigger] tw@[m])@ == string_at(mem, mem.vec_ptr(lang + table_off, m)),
                decreases word_strs@.len() - k,
            {
                tw.push(read_string(mem, word_strs[k], 0));
                k = k + 1;
            }
            translations.push(Translation { name, words: tw });
            j = j + 1;
        }
        Languages { words, translations }
    }

    /// The word with id `id` in form `form`: empty outside the word table.
    pub open spec fn english_chunk(&self, id: int, form: Option<WordType>) -> Seq<char> {
        if 0 <= id < self.words@.len() && form is Some {
            self.words@[id].form(form.unwrap())
        } else {
            Seq::empty()
        }
    }

    fn english_chunk_of(&self, id: i32, form: i16) -> (r: String)
        ensures
            r@ == self.english_chunk(id as int, WordType::from_i32_spec(form as int)),
    {
        if id < 0 || id as usize >= self.words.len() {
            return String::new();
        }
        match WordType::from_i32(form as i32) {
            Some(t) => self.words[id as usize].get_word_position(t),
            None => String::new(),
        }
    }

    /// The name record at `addr` in English: the front and rear compounds
    /// joined and capitalised; then, where the sixth word is present, the
    /// clause "The" with the two adjectives and the hyphenated pair; then,
    /// where the seventh word is present, "of" and that word.
    pub fn english_word(&self, mem: &ProcessMemory, layout: &MemoryOffsets, addr: u64) -> (r: String)
        ensures
            ({
                let w = |i: int| self.english_chunk(
                    Self::name_word_id(mem, layout, addr as int, i),
                    WordType::from_i32_spec(mem.i16_at(addr + layout.off(OffsetSection::Word, "word_type"@) + 2 * i)),
                );
                r@ == compose_name(w(0), w(1), w(2), w(3), w(4), w(5), w(6))
            }),
    {
        let words_off = layout.field_offset(OffsetSection::Word, "words");
        let types_off = layout.field_offset(OffsetSection::Word, "word_type");
        let mut parts: Vec<String> = Vec::new();
        let mut i: u64 = 0;
        while i < NAME_WORDS
            invariant
                i <= NAME_WORDS,
                parts@.len() == i,
                words_off == layout.off(OffsetSection::Word, "words"@),
                types_off == layout.off(OffsetSection::Word, "word_type"@),
                forall|k: int| 0 <= k < i ==> (#[trigger] parts@[k])@ == self.english_chunk(
                    Self::name_word_id(mem, layout, addr as int, k),
                    WordType::from_i32_spec(mem.i16_at(addr + types_off + 2 * k)),
                ),
            decreases NAME_WORDS - i,
        {
            let id = match words_off.checked_add(4 * i) {
                Some(o) => mem.read_i32(addr, o),
                None => {
                    proof {
                        mem.lemma_high_zero(addr + words_off + 4 * i, 4);
                    }
                    0
                },
            };
            let form = match types_off.checked_add(2 * i) {
                Some(o) => mem.read_i16(addr, o),
                None => {
                    proof {
                        mem.lemma_high_zero(addr + types_off + 2 * i, 2);
                    }
                    0
                },
            };
            parts.push(self.english_chunk_of(id, form));
            i = i + 1;
        }
        compose_name_exec(&parts)
    }
}

/// `a`, then `b` after a space where `b` is not empty.
pub open spec fn then_part(a: Seq<char>, b: Seq<char>) -> Seq<char> {
    if b.len() == 0 { a } else { a + " "@ + b }
}

/// A full name from its seven word slots.
pub open spec fn compose_name(
    w0: Seq<char>,
    w1: Seq<char>,
    w2: Seq<char>,
    w3: Seq<char>,
    w4: Seq<char>,
    w5: Seq<char>,
    w6: Seq<char>,
) -> Seq<char> {
    let first = capitalized(w0 + w1);
    let pair = if w4.len() == 0 { w5 } else { w4 + "-"@ + w5 };
    let second = if w5.len() == 0 {
        Seq::empty()
    } else {
        capitalized("The "@ + w2 + " "@ + w3 + " "@ + pair)
    };
    let third = if w6.len() == 0 { Seq::empty() } else { "of "@ + capitalized(w6) };
    then_part(then_part(first, second), third)
}

fn then_part_exec(a: String, b: &String) -> (r: String)
    ensures
        r@ == then_part(a@, b@),
{
    if b.as_str().unicode_len() == 0 {
        a
    } else {
        let mut a = a;
        a.append(" ");
        a.append(b.as_str());
        a
    }
}

fn compose_name_exec(w: &Vec<String>) -> (r: String)
    requires
        w@.len() == 7,
    ensures
        r@ == compose_name(w@[0]@, w@[1]@, w@[2]@, w@[3]@, w@[4]@, w@[5]@, w@[6]@),
{
    let mut front = w[0].clone();
    front.append(w[1].as_str());
    let first = capitalize_each(front.as_str());
    let second = if w[5].as_str().unicode_len() == 0 {
        String::new()
    } else {
        let mut s = String::from_str("The ");
        s.append(w[2].as_str());
        s.append(" ");
        s.append(w[3].as_str());
        s.append(" ");
        if w[4].as_str().unicode_len() == 0 {
            s.append(w[5].as_str());
        } else {
            s.append(w[4].as_str());
            s.append("-");
            s.append(w[5].as_str());
        }
        capitalize_each(s.as_str())
    };
    let third = if w[6].as_str().unicode_len() == 0 {
        String::new()
    } else {
        let mut t = String::from_str("of ");
        let c = capitalize_each(w[6].as_str());
        t.append(c.as_str());
        t
    };
    let r = then_part_exec(then_part_exec(first, &second), &third);
    proof {
        let pair = if w@[4]@.len() == 0 { w@[5]@ } else { w@[4]@ + "-"@ + w@[5]@ };
        assert(w@[5]@.len() != 0 ==> second@ == capitalized("The "@ + w@[2]@ + " "@ + w@[3]@ + " "@ + pair)) by {
            if w@[5]@.len() != 0 {
                if w@[4]@.len() == 0 {
                    assert("The "@ + w@[2]@ + " "@ + w@[3]@ + " "@ + w@[5]@ =~= "The "@ + w@[2]@ + " "@ + w@[3]@ + " "@ + pair);
                } else {
                    assert("The "@ + w@[2]@ + " "@ + w@[3]@ + " "@ + w@[4]@ + "-"@ + w@[5]@ =~= "The "@ + w@[2]@ + " "@ + w@[3]@ + " "@ + pair);
                }
            }
        }
    }
    r
}

} // verus!
