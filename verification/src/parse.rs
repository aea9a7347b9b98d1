//! Bitfield schema for a parsed morphological form.
//!
//! A form is a single `u32`. Each grammatical attribute occupies its own
//! bit range; composing a form is a bitwise union of field values. The
//! tense bits are overloaded: for possessive and reflexive pronouns the
//! lowest tense bit holds the referent's grammatical number instead.

use vstd::prelude::*;

verus! {

// Part of speech, bits 0-4.
pub const UNKNOWN: u32 = 0;
pub const PARTICLE: u32 = 1;
pub const VERB: u32 = 2;
pub const NOUN: u32 = 3;
pub const ADJECTIVE: u32 = 4;
pub const ADVERB: u32 = 5;
pub const CONJUNCTION: u32 = 6;
pub const PROPER_NOUN: u32 = 7;
pub const PREPOSITION: u32 = 8;
pub const CONDITIONAL: u32 = 9;
pub const ARTICLE: u32 = 10;
pub const INTERJECTION: u32 = 11;
pub const PRONOUN: u32 = 12;
pub const PERSONAL_PRONOUN: u32 = 13;
pub const POSSESSIVE_PRONOUN: u32 = 14;
pub const RELATIVE_PRONOUN: u32 = 15;
pub const DEMONSTRATIVE_PRONOUN: u32 = 16;
pub const RECIPROCAL_PRONOUN: u32 = 17;
pub const REFLEXIVE_PRONOUN: u32 = 18;
pub const TRANSLITERATION: u32 = 19;
pub const HEBREW_TRANSLITERATION: u32 = 20;
pub const ARAMAIC_TRANSLITERATION: u32 = 21;
pub const LETTER: u32 = 22;
pub const NUMERAL: u32 = 23;
pub const SUPERLATIVE_ADJECTIVE: u32 = 24;
pub const SUPERLATIVE_ADVERB: u32 = 25;
pub const SUPERLATIVE_NOUN: u32 = 26;
pub const COMPARATIVE_ADJECTIVE: u32 = 27;
pub const COMPARATIVE_ADVERB: u32 = 28;
pub const COMPARATIVE_NOUN: u32 = 29;

pub const POS_MASK: u32 = 0b11111;

// Flags that modify the part of speech, bits 6-11.
pub const INTERROGATIVE: u32 = 0x40;
pub const NEGATIVE: u32 = 0x80;
pub const CORRELATIVE: u32 = 0x100;
pub const INDEFINITE: u32 = 0x200;
pub const INDECLINABLE: u32 = 0x400;
pub const CRASIS: u32 = 0x800;

pub const FLAGS_MASK: u32 = 0xFC0;

// Tense form, bits 12-15.
pub const PRESENT: u32 = 0x1000;
pub const FUTURE: u32 = 0x2000;
pub const AORIST: u32 = 0x3000;
pub const IMPERFECT: u32 = 0x4000;
pub const PERFECT: u32 = 0x5000;
pub const PLUPERFECT: u32 = 0x6000;
pub const SECOND_FUTURE: u32 = 0x7000;
pub const SECOND_AORIST: u32 = 0x8000;
pub const SECOND_PERFECT: u32 = 0x9000;
pub const SECOND_PLUPERFECT: u32 = 0xA000;

pub const TENSE_MASK: u32 = 0xF000;

// The low tense bit is overloaded: for possessive pronouns it records the
// grammatical number of the referent.
pub const REF_SINGULAR: u32 = 0;
pub const REF_PLURAL: u32 = 0x1000;

pub const REF_NUMBER_MASK: u32 = 0x1000;

// Gender, bits 16-18.
pub const MASCULINE: u32 = 0x10000;
pub const FEMININE: u32 = 0x20000;
pub const NEUTER: u32 = 0x40000;

pub const GENDER_MASK: u32 = 0x70000;

// Case, bits 19-21.
pub const NOMINATIVE: u32 = 0x80000;
pub const ACCUSATIVE: u32 = 0x100000;
pub const GENITIVE: u32 = 0x180000;
pub const DATIVE: u32 = 0x200000;
pub const VOCATIVE: u32 = 0x280000;

pub const CASE_MASK: u32 = 0x380000;

// Voice, bits 22-24.
pub const ACTIVE_VOICE: u32 = 0x400000;
pub const MIDDLE_VOICE: u32 = 0x800000;
pub const PASSIVE_VOICE: u32 = 0xC00000;
pub const MIDDLE_PASSIVE_VOICE: u32 = 0x1000000;
pub const MIDDLE_DEPONENT_VOICE: u32 = 0x1400000;
pub const PASSIVE_DEPONENT_VOICE: u32 = 0x1800000;
pub const MIDDLE_PASSIVE_DEPONENT_VOICE: u32 = 0x1C00000;

pub const VOICE_MASK: u32 = 0x1C00000;

// Mood, bits 25-27.
pub const INDICATIVE_MOOD: u32 = 0x2000000;
pub const SUBJUNCTIVE_MOOD: u32 = 0x4000000;
pub const OPTATIVE_MOOD: u32 = 0x6000000;
pub const IMPERATIVE_MOOD: u32 = 0x8000000;
pub const INFINITIVE_MOOD: u32 = 0xA000000;
pub const PARTICIPLE_MOOD: u32 = 0xC000000;

pub const MOOD_MASK: u32 = 0xE000000;

// Person, bits 28-29.
pub const FIRST_PERSON: u32 = 0x10000000;
pub const SECOND_PERSON: u32 = 0x20000000;
pub const THIRD_PERSON: u32 = 0x30000000;

pub const PERSON_MASK: u32 = 0x30000000;

// Number, bits 30-31.
pub const SINGULAR: u32 = 0x40000000;
pub const DUAL: u32 = 0x80000000;
pub const PLURAL: u32 = 0xC0000000;

pub const NUMBER_MASK: u32 = 0xC0000000;

pub open spec fn spec_part_of_speech(p: u32) -> u32 {
    p & POS_MASK
}

pub open spec fn spec_set_part_of_speech(p: u32, pos: u32) -> u32 {
    (p & !POS_MASK) | pos
}

pub open spec fn spec_is_interrogative(p: u32) -> bool {
    p & INTERROGATIVE == INTERROGATIVE
}

pub open spec fn spec_is_negative(p: u32) -> bool {
    p & NEGATIVE == NEGATIVE
}

pub open spec fn spec_is_correlative(p: u32) -> bool {
    p & CORRELATIVE == CORRELATIVE
}

pub open spec fn spec_is_indefinite(p: u32) -> bool {
    p & INDEFINITE == INDEFINITE
}

pub open spec fn spec_is_indeclinable(p: u32) -> bool {
    p & INDECLINABLE == INDECLINABLE
}

pub open spec fn spec_is_crasis(p: u32) -> bool {
    p & CRASIS == CRASIS
}

pub open spec fn spec_tense(p: u32) -> u32 {
    p & TENSE_MASK
}

pub open spec fn spec_ref_number(p: u32) -> u32 {
    p & REF_NUMBER_MASK
}

pub open spec fn spec_gender(p: u32) -> u32 {
    p & GENDER_MASK
}

pub open spec fn spec_case(p: u32) -> u32 {
    p & CASE_MASK
}

pub open spec fn spec_voice(p: u32) -> u32 {
    p & VOICE_MASK
}

pub open spec fn spec_mood(p: u32) -> u32 {
    p & MOOD_MASK
}

pub open spec fn spec_person(p: u32) -> u32 {
    p & PERSON_MASK
}

pub open spec fn spec_number(p: u32) -> u32 {
    p & NUMBER_MASK
}

/// The part-of-speech category stored in the low five bits.
#[verifier::when_used_as_spec(spec_part_of_speech)]
pub fn part_of_speech(p: u32) -> (r: u32)
    ensures
        r == spec_part_of_speech(p),
{
    p & POS_MASK
}

/// Replaces the part-of-speech bits while preserving every other field.
#[verifier::when_used_as_spec(spec_set_part_of_speech)]
pub fn set_part_of_speech(p: u32, pos: u32) -> (r: u32)
    ensures
        r == spec_set_part_of_speech(p, pos),
{
    let mask = !POS_MASK;
    (p & mask) | pos
}

#[verifier::when_used_as_spec(spec_is_interrogative)]
pub fn is_interrogative(p: u32) -> (r: bool)
    ensures
        r == spec_is_interrogative(p),
{
    p & INTERROGATIVE == INTERROGATIVE
}

#[verifier::when_used_as_spec(spec_is_negative)]
pub fn is_negative(p: u32) -> (r: bool)
    ensures
        r == spec_is_negative(p),
{
    p & NEGATIVE == NEGATIVE
}

#[verifier::when_used_as_spec(spec_is_correlative)]
pub fn is_correlative(p: u32) -> (r: bool)
    ensures
        r == spec_is_correlative(p),
{
    p & CORRELATIVE == CORRELATIVE
}

#[verifier::when_used_as_spec(spec_is_indefinite)]
pub fn is_indefinite(p: u32) -> (r: bool)
    ensures
        r == spec_is_indefinite(p),
{
    p & INDEFINITE == INDEFINITE
}

#[verifier::when_used_as_spec(spec_is_indeclinable)]
pub fn is_indeclinable(p: u32) -> (r: bool)
    ensures
        r == spec_is_indeclinable(p),
{
    p & INDECLINABLE == INDECLINABLE
}

#[verifier::when_used_as_spec(spec_is_crasis)]
pub fn is_crasis(p: u32) -> (r: bool)
    ensures
        r == spec_is_crasis(p),
{
    p & CRASIS == CRASIS
}

/// The tense field; meaningful only for verb forms.
#[verifier::when_used_as_spec(spec_tense)]
pub fn tense(p: u32) -> (r: u32)
    ensures
        r == spec_tense(p),
{
    p & TENSE_MASK
}

/// The referent-number field; meaningful only for possessive pronouns,
/// where it reuses the lowest tense bit.
#[verifier::when_used_as_spec(spec_ref_number)]
pub fn ref_number(p: u32) -> (r: u32)
    ensures
        r == spec_ref_number(p),
{
    p & REF_NUMBER_MASK
}

#[verifier::when_used_as_spec(spec_gender)]
pub fn gender(p: u32) -> (r: u32)
    ensures
        r == spec_gender(p),
{
    p & GENDER_MASK
}

#[verifier::when_used_as_spec(spec_case)]
pub fn case(p: u32) -> (r: u32)
    ensures
        r == spec_case(p),
{
    p & CASE_MASK
}

#[verifier::when_used_as_spec(spec_voice)]
pub fn voice(p: u32) -> (r: u32)
    ensures
        r == spec_voice(p),
{
    p & VOICE_MASK
}

#[verifier::when_used_as_spec(spec_mood)]
pub fn mood(p: u32) -> (r: u32)
    ensures
        r == spec_mood(p),
{
    p & MOOD_MASK
}

#[verifier::when_used_as_spec(spec_person)]
pub fn person(p: u32) -> (r: u32)
    ensures
        r == spec_person(p),
{
    p & PERSON_MASK
}

#[verifier::when_used_as_spec(spec_number)]
pub fn number(p: u32) -> (r: u32)
    ensures
        r == spec_number(p),
{
    p & NUMBER_MASK
}

/// Setting the part of speech stores exactly the given category and leaves
/// every other field of the form untouched.
pub proof fn lemma_set_part_of_speech(p: u32, pos: u32)
    by (bit_vector)
    requires
        pos < 32,
    ensures
        spec_part_of_speech(spec_set_part_of_speech(p, pos)) == pos,
        spec_is_interrogative(spec_set_part_of_speech(p, pos)) == spec_is_interrogative(p),
        spec_is_negative(spec_set_part_of_speech(p, pos)) == spec_is_negative(p),
        spec_is_correlative(spec_set_part_of_speech(p, pos)) == spec_is_correlative(p),
        spec_is_indefinite(spec_set_part_of_speech(p, pos)) == spec_is_indefinite(p),
        spec_is_indeclinable(spec_set_part_of_speech(p, pos)) == spec_is_indeclinable(p),
        spec_is_crasis(spec_set_part_of_speech(p, pos)) == spec_is_crasis(p),
        spec_tense(spec_set_part_of_speech(p, pos)) == spec_tense(p),
        spec_ref_number(spec_set_part_of_speech(p, pos)) == spec_ref_number(p),
        spec_gender(spec_set_part_of_speech(p, pos)) == spec_gender(p),
        spec_case(spec_set_part_of_speech(p, pos)) == spec_case(p),
        spec_voice(spec_set_part_of_speech(p, pos)) == spec_voice(p),
        spec_mood(spec_set_part_of_speech(p, pos)) == spec_mood(p),
        spec_person(spec_set_part_of_speech(p, pos)) == spec_person(p),
        spec_number(spec_set_part_of_speech(p, pos)) == spec_number(p),
{
}

/// The reserved bit between the part-of-speech and flag fields.
pub const RESERVED_MASK: u32 = 0x20;

/// Every field of a union of two forms is the union of that field of
/// each, and a flag is set in the union exactly when it is set in either.
pub proof fn lemma_union_fields(x: u32, y: u32)
    by (bit_vector)
    ensures
        spec_part_of_speech(x | y) == (spec_part_of_speech(x) | spec_part_of_speech(y)),
        spec_tense(x | y) == (spec_tense(x) | spec_tense(y)),
        spec_ref_number(x | y) == (spec_ref_number(x) | spec_ref_number(y)),
        spec_gender(x | y) == (spec_gender(x) | spec_gender(y)),
        spec_case(x | y) == (spec_case(x) | spec_case(y)),
        spec_voice(x | y) == (spec_voice(x) | spec_voice(y)),
        spec_mood(x | y) == (spec_mood(x) | spec_mood(y)),
        spec_person(x | y) == (spec_person(x) | spec_person(y)),
        spec_number(x | y) == (spec_number(x) | spec_number(y)),
        spec_is_interrogative(x | y) == (spec_is_interrogative(x) || spec_is_interrogative(y)),
        spec_is_negative(x | y) == (spec_is_negative(x) || spec_is_negative(y)),
        spec_is_correlative(x | y) == (spec_is_correlative(x) || spec_is_correlative(y)),
        spec_is_indefinite(x | y) == (spec_is_indefinite(x) || spec_is_indefinite(y)),
        spec_is_indeclinable(x | y) == (spec_is_indeclinable(x) || spec_is_indeclinable(y)),
        spec_is_crasis(x | y) == (spec_is_crasis(x) || spec_is_crasis(y)),
        (x | y) & RESERVED_MASK == (x & RESERVED_MASK) | (y & RESERVED_MASK),
{
}

/// Two forms that agree on every field, every flag and the reserved bit
/// are the same form.
pub proof fn lemma_fields_determine(a: u32, b: u32)
    by (bit_vector)
    requires
        spec_part_of_speech(a) == spec_part_of_speech(b),
        spec_is_interrogative(a) == spec_is_interrogative(b),
        spec_is_negative(a) == spec_is_negative(b),
        spec_is_correlative(a) == spec_is_correlative(b),
        spec_is_indefinite(a) == spec_is_indefinite(b),
        spec_is_indeclinable(a) == spec_is_indeclinable(b),
        spec_is_crasis(a) == spec_is_crasis(b),
        spec_tense(a) == spec_tense(b),
        spec_gender(a) == spec_gender(b),
        spec_case(a) == spec_case(b),
        spec_voice(a) == spec_voice(b),
        spec_mood(a) == spec_mood(b),
        spec_person(a) == spec_person(b),
        spec_number(a) == spec_number(b),
        a & RESERVED_MASK == b & RESERVED_MASK,
    ensures
        a == b,
{
}

/// A part-of-speech value occupies only the part-of-speech field.
pub proof fn lemma_pos_value(c: u32)
    by (bit_vector)
    requires
        c < 32,
    ensures
        spec_part_of_speech(c) == c,
        spec_tense(c) == 0,
        spec_ref_number(c) == 0,
        spec_gender(c) == 0,
        spec_case(c) == 0,
        spec_voice(c) == 0,
        spec_mood(c) == 0,
        spec_person(c) == 0,
        spec_number(c) == 0,
        !spec_is_interrogative(c),
        !spec_is_negative(c),
        !spec_is_correlative(c),
        !spec_is_indefinite(c),
        !spec_is_indeclinable(c),
        !spec_is_crasis(c),
        c & RESERVED_MASK == 0,
{
}

/// A flag constant occupies only its own flag bit.
pub proof fn lemma_flag_value(c: u32)
    by (bit_vector)
    requires
        c == 0 || c == INTERROGATIVE || c == NEGATIVE || c == CORRELATIVE || c == INDEFINITE
            || c == INDECLINABLE || c == CRASIS,
    ensures
        spec_part_of_speech(c) == 0,
        spec_tense(c) == 0,
        spec_ref_number(c) == 0,
        spec_gender(c) == 0,
        spec_case(c) == 0,
        spec_voice(c) == 0,
        spec_mood(c) == 0,
        spec_person(c) == 0,
        spec_number(c) == 0,
        spec_is_interrogative(c) == (c == INTERROGATIVE),
        spec_is_negative(c) == (c == NEGATIVE),
        spec_is_correlative(c) == (c == CORRELATIVE),
        spec_is_indefinite(c) == (c == INDEFINITE),
        spec_is_indeclinable(c) == (c == INDECLINABLE),
        spec_is_crasis(c) == (c == CRASIS),
        c & RESERVED_MASK == 0,
{
}

/// A tense value occupies only the tense field.
pub proof fn lemma_tense_value(c: u32)
    by (bit_vector)
    requires
        c == 0 || c == PRESENT || c == IMPERFECT || c == FUTURE || c == AORIST || c == PERFECT
            || c == PLUPERFECT || c == SECOND_FUTURE || c == SECOND_AORIST || c == SECOND_PERFECT
            || c == SECOND_PLUPERFECT,
    ensures
        spec_part_of_speech(c) == 0,
        spec_tense(c) == c,
        spec_gender(c) == 0,
        spec_case(c) == 0,
        spec_voice(c) == 0,
        spec_mood(c) == 0,
        spec_person(c) == 0,
        spec_number(c) == 0,
        !spec_is_interrogative(c),
        !spec_is_negative(c),
        !spec_is_correlative(c),
        !spec_is_indefinite(c),
        !spec_is_indeclinable(c),
        !spec_is_crasis(c),
        c & RESERVED_MASK == 0,
{
}

/// A referent-number value occupies only the low tense bit.
pub proof fn lemma_ref_number_value(c: u32)
    by (bit_vector)
    requires
        c == REF_SINGULAR || c == REF_PLURAL,
    ensures
        spec_part_of_speech(c) == 0,
        spec_tense(c) == c,
        spec_ref_number(c) == c,
        spec_gender(c) == 0,
        spec_case(c) == 0,
        spec_voice(c) == 0,
        spec_mood(c) == 0,
        spec_person(c) == 0,
        spec_number(c) == 0,
        !spec_is_interrogative(c),
        !spec_is_negative(c),
        !spec_is_correlative(c),
        !spec_is_indefinite(c),
        !spec_is_indeclinable(c),
        !spec_is_crasis(c),
        c & RESERVED_MASK == 0,
{
}

/// A gender value occupies only the gender field.
pub proof fn lemma_gender_value(c: u32)
    by (bit_vector)
    requires
        c == 0 || c == MASCULINE || c == FEMININE || c == NEUTER,
    ensures
        spec_part_of_speech(c) == 0,
        spec_tense(c) == 0,
        spec_gender(c) == c,
        spec_case(c) == 0,
        spec_voice(c) == 0,
        spec_mood(c) == 0,
        spec_person(c) == 0,
        spec_number(c) == 0,
        !spec_is_interrogative(c),
        !spec_is_negative(c),
        !spec_is_correlative(c),
        !spec_is_indefinite(c),
        !spec_is_indeclinable(c),
        !spec_is_crasis(c),
        c & RESERVED_MASK == 0,
{
}

/// A case value occupies only the case field.
pub proof fn lemma_case_value(c: u32)
    by (bit_vector)
    requires
        c == 0 || c == NOMINATIVE || c == ACCUSATIVE || c == GENITIVE || c == DATIVE
            || c == VOCATIVE,
    ensures
        spec_part_of_speech(c) == 0,
        spec_tense(c) == 0,
        spec_gender(c) == 0,
        spec_case(c) == c,
        spec_voice(c) == 0,
        spec_mood(c) == 0,
        spec_person(c) == 0,
        spec_number(c) == 0,
        !spec_is_interrogative(c),
        !spec_is_negative(c),
        !spec_is_correlative(c),
        !spec_is_indefinite(c),
        !spec_is_indeclinable(c),
        !spec_is_crasis(c),
        c & RESERVED_MASK == 0,
{
}

/// A voice value occupies only the voice field.
pub proof fn lemma_voice_value(c: u32)
    by (bit_vector)
    requires
        c == 0 || c == ACTIVE_VOICE || c == MIDDLE_VOICE || c == PASSIVE_VOICE
            || c == MIDDLE_PASSIVE_VOICE || c == MIDDLE_DEPONENT_VOICE
            || c == PASSIVE_DEPONENT_VOICE || c == MIDDLE_PASSIVE_DEPONENT_VOICE,
    ensures
        spec_part_of_speech(c) == 0,
        spec_tense(c) == 0,
        spec_gender(c) == 0,
        spec_case(c) == 0,
        spec_voice(c) == c,
        spec_mood(c) == 0,
        spec_person(c) == 0,
        spec_number(c) == 0,
        !spec_is_interrogative(c),
        !spec_is_negative(c),
        !spec_is_correlative(c),
        !spec_is_indefinite(c),
        !spec_is_indeclinable(c),
        !spec_is_crasis(c),
        c & RESERVED_MASK == 0,
{
}

/// A mood value occupies only the mood field.
pub proof fn lemma_mood_value(c: u32)
    by (bit_vector)
    requires
        c == 0 || c == INDICATIVE_MOOD || c == SUBJUNCTIVE_MOOD || c == OPTATIVE_MOOD
            || c == IMPERATIVE_MOOD || c == INFINITIVE_MOOD || c == PARTICIPLE_MOOD,
    ensures
        spec_part_of_speech(c) == 0,
        spec_tense(c) == 0,
        spec_gender(c) == 0,
        spec_case(c) == 0,
        spec_voice(c) == 0,
        spec_mood(c) == c,
        spec_person(c) == 0,
        spec_number(c) == 0,
        !spec_is_interrogative(c),
        !spec_is_negative(c),
        !spec_is_correlative(c),
        !spec_is_indefinite(c),
        !spec_is_indeclinable(c),
        !spec_is_crasis(c),
        c & RESERVED_MASK == 0,
{
}

/// A person value occupies only the person field.
pub proof fn lemma_person_value(c: u32)
    by (bit_vector)
    requires
        c == 0 || c == FIRST_PERSON || c == SECOND_PERSON || c == THIRD_PERSON,
    ensures
        spec_part_of_speech(c) == 0,
        spec_tense(c) == 0,
        spec_gender(c) == 0,
        spec_case(c) == 0,
        spec_voice(c) == 0,
        spec_mood(c) == 0,
        spec_person(c) == c,
        spec_number(c) == 0,
        !spec_is_interrogative(c),
        !spec_is_negative(c),
        !spec_is_correlative(c),
        !spec_is_indefinite(c),
        !spec_is_indeclinable(c),
        !spec_is_crasis(c),
        c & RESERVED_MASK == 0,
{
}

/// A number value occupies only the number field.
pub proof fn lemma_number_value(c: u32)
    by (bit_vector)
    requires
        c == 0 || c == SINGULAR || c == DUAL || c == PLURAL,
    ensures
        spec_part_of_speech(c) == 0,
        spec_tense(c) == 0,
        spec_gender(c) == 0,
        spec_case(c) == 0,
        spec_voice(c) == 0,
        spec_mood(c) == 0,
        spec_person(c) == 0,
        spec_number(c) == c,
        !spec_is_interrogative(c),
        !spec_is_negative(c),
        !spec_is_correlative(c),
        !spec_is_indefinite(c),
        !spec_is_indeclinable(c),
        !spec_is_crasis(c),
        c & RESERVED_MASK == 0,
{
}

/// A union with zero changes nothing.
pub proof fn lemma_union_zero(x: u32)
    by (bit_vector)
    ensures
        x | 0 == x,
        0 | x == x,
{
}

/// Replacing the part of speech also preserves the reserved bit.
pub proof fn lemma_set_part_of_speech_reserved(p: u32, pos: u32)
    by (bit_vector)
    requires
        pos < 32,
    ensures
        spec_set_part_of_speech(p, pos) & RESERVED_MASK == p & RESERVED_MASK,
{
}

} // verus!
