//! Proved laws of the codec: bracket tolerance, rejection of overlong
//! category tags, the literal table, and the decode-encode round trip.

use vstd::prelude::*;

use crate::grammar::{
    Decoded, spec_case_of, spec_cng, spec_cng_string, spec_cng_suffix, spec_dispatch_one,
    spec_from_chars, spec_from_string, spec_fs_ref_string, spec_fst_string, spec_gender_of,
    spec_literal, spec_lower_code, spec_mood_of, spec_name_matches, spec_number_of, spec_pcn,
    spec_pcn_string, spec_person_of, spec_possessive, spec_ref_number_of, spec_reflexive,
    spec_second_tense_of, spec_stripped, spec_tag_end, spec_tense_of, spec_to_string,
    spec_to_string_tail, spec_voice_of, spec_vp, spec_vp_after_tense, spec_vp_string,
};
use crate::parse::{
    ACCUSATIVE, ACTIVE_VOICE, ADJECTIVE, ADVERB, AORIST, ARAMAIC_TRANSLITERATION, ARTICLE,
    COMPARATIVE_ADJECTIVE, COMPARATIVE_ADVERB, COMPARATIVE_NOUN, CONDITIONAL, CONJUNCTION,
    CORRELATIVE, CRASIS, DATIVE, DEMONSTRATIVE_PRONOUN, FEMININE, FIRST_PERSON, FUTURE, GENITIVE,
    HEBREW_TRANSLITERATION, IMPERATIVE_MOOD, IMPERFECT, INDECLINABLE, INDEFINITE, INDICATIVE_MOOD,
    INFINITIVE_MOOD, INTERJECTION, INTERROGATIVE, LETTER, MASCULINE, MIDDLE_DEPONENT_VOICE,
    MIDDLE_PASSIVE_DEPONENT_VOICE, MIDDLE_PASSIVE_VOICE, MIDDLE_VOICE, NEGATIVE, NEUTER,
    NOMINATIVE, NOUN, NUMERAL, OPTATIVE_MOOD, PARTICIPLE_MOOD, PARTICLE, PASSIVE_DEPONENT_VOICE,
    PASSIVE_VOICE, PERFECT, PERSONAL_PRONOUN, PLUPERFECT, PLURAL, POSSESSIVE_PRONOUN, PREPOSITION,
    PRESENT, PRONOUN, PROPER_NOUN, RECIPROCAL_PRONOUN, REFLEXIVE_PRONOUN, REF_PLURAL,
    REF_SINGULAR, RELATIVE_PRONOUN, RESERVED_MASK, SECOND_AORIST, SECOND_FUTURE, SECOND_PERFECT,
    SECOND_PERSON, SECOND_PLUPERFECT, SINGULAR, SUBJUNCTIVE_MOOD, SUPERLATIVE_ADJECTIVE,
    SUPERLATIVE_ADVERB, SUPERLATIVE_NOUN, THIRD_PERSON, UNKNOWN, VERB, VOCATIVE,
    lemma_case_value, lemma_fields_determine, lemma_flag_value, lemma_gender_value,
    lemma_mood_value, lemma_number_value, lemma_person_value, lemma_pos_value,
    lemma_ref_number_value, lemma_set_part_of_speech, lemma_set_part_of_speech_reserved,
    lemma_tense_value, lemma_union_fields, lemma_union_zero, lemma_voice_value, spec_case,
    spec_gender, spec_is_correlative, spec_is_crasis, spec_is_indeclinable, spec_is_indefinite,
    spec_is_interrogative, spec_is_negative, spec_mood, spec_number, spec_part_of_speech,
    spec_person, spec_ref_number, spec_set_part_of_speech, spec_tense, spec_voice,
};

verus! {

/// A stored case value written by the decoder.
pub open spec fn is_case_value(c: u32) -> bool {
    c == NOMINATIVE || c == ACCUSATIVE || c == GENITIVE || c == DATIVE || c == VOCATIVE
}

/// A stored number value written by the decoder.
pub open spec fn is_number_value(n: u32) -> bool {
    n == SINGULAR || n == PLURAL
}

/// A stored gender value, where zero means unspecified.
pub open spec fn is_gender_value(g: u32) -> bool {
    g == 0 || g == MASCULINE || g == FEMININE || g == NEUTER
}

/// A stored person value, where zero means unspecified.
pub open spec fn is_person_value(p: u32) -> bool {
    p == 0 || p == FIRST_PERSON || p == SECOND_PERSON || p == THIRD_PERSON
}

/// A stored tense value written by the verb decoder.
pub open spec fn is_tense_value(t: u32) -> bool {
    t == PRESENT || t == IMPERFECT || t == FUTURE || t == AORIST || t == PERFECT
        || t == PLUPERFECT || t == SECOND_FUTURE || t == SECOND_AORIST || t == SECOND_PERFECT
        || t == SECOND_PLUPERFECT
}

/// A stored voice value written by the verb decoder.
pub open spec fn is_voice_value(v: u32) -> bool {
    v == ACTIVE_VOICE || v == MIDDLE_VOICE || v == PASSIVE_VOICE || v == MIDDLE_PASSIVE_VOICE
        || v == MIDDLE_DEPONENT_VOICE || v == PASSIVE_DEPONENT_VOICE
        || v == MIDDLE_PASSIVE_DEPONENT_VOICE
}

/// A stored mood value written by the verb decoder.
pub open spec fn is_mood_value(m: u32) -> bool {
    m == INDICATIVE_MOOD || m == SUBJUNCTIVE_MOOD || m == OPTATIVE_MOOD || m == IMPERATIVE_MOOD
        || m == INFINITIVE_MOOD || m == PARTICIPLE_MOOD
}

/// The character content of every string literal the codec reads or
/// writes, so that proofs can reason about texts character by character.
proof fn lemma_literal_views()
    ensures
        "ADV"@ == seq!['A', 'D', 'V'],
        "ADV-I"@ == seq!['A', 'D', 'V', '-', 'I'],
        "ADV-K"@ == seq!['A', 'D', 'V', '-', 'K'],
        "ADV-N"@ == seq!['A', 'D', 'V', '-', 'N'],
        "ADV-C"@ == seq!['A', 'D', 'V', '-', 'C'],
        "ADV-S"@ == seq!['A', 'D', 'V', '-', 'S'],
        "CONJ"@ == seq!['C', 'O', 'N', 'J'],
        "CONJ-K"@ == seq!['C', 'O', 'N', 'J', '-', 'K'],
        "CONJ-P"@ == seq!['C', 'O', 'N', 'J', '-', 'P'],
        "CONJ-N"@ == seq!['C', 'O', 'N', 'J', '-', 'N'],
        "COND"@ == seq!['C', 'O', 'N', 'D'],
        "COND-K"@ == seq!['C', 'O', 'N', 'D', '-', 'K'],
        "PRT"@ == seq!['P', 'R', 'T'],
        "PRT-N"@ == seq!['P', 'R', 'T', '-', 'N'],
        "PRT-I"@ == seq!['P', 'R', 'T', '-', 'I'],
        "PREP"@ == seq!['P', 'R', 'E', 'P'],
        "INJ"@ == seq!['I', 'N', 'J'],
        "ARAM"@ == seq!['A', 'R', 'A', 'M'],
        "HEB"@ == seq!['H', 'E', 'B'],
        "N-PRI"@ == seq!['N', '-', 'P', 'R', 'I'],
        "A-NUI"@ == seq!['A', '-', 'N', 'U', 'I'],
        "N-LI"@ == seq!['N', '-', 'L', 'I'],
        "N-OI"@ == seq!['N', '-', 'O', 'I'],
        "V"@ == seq!['V'],
        "N"@ == seq!['N'],
        "T"@ == seq!['T'],
        "A"@ == seq!['A'],
        "R"@ == seq!['R'],
        "C"@ == seq!['C'],
        "D"@ == seq!['D'],
        "G"@ == seq!['G'],
        "M"@ == seq!['M'],
        "F"@ == seq!['F'],
        "S"@ == seq!['S'],
        "P"@ == seq!['P'],
        "E"@ == seq!['E'],
        "O"@ == seq!['O'],
        "I"@ == seq!['I'],
        "K"@ == seq!['K'],
        "X"@ == seq!['X'],
        "Q"@ == seq!['Q'],
        "-"@ == seq!['-'],
        "1"@ == seq!['1'],
        "2"@ == seq!['2'],
        "3"@ == seq!['3'],
        "F-"@ == seq!['F', '-'],
        "S-"@ == seq!['S', '-'],
        "PN"@ == seq!['P', 'N'],
        "IPN"@ == seq!['I', 'P', 'N'],
        "-1"@ == seq!['-', '1'],
        "-2"@ == seq!['-', '2'],
        "-3"@ == seq!['-', '3'],
        "1S"@ == seq!['1', 'S'],
        "2S"@ == seq!['2', 'S'],
        "1P"@ == seq!['1', 'P'],
        "2P"@ == seq!['2', 'P'],
        "-2F"@ == seq!['-', '2', 'F'],
        "-2A"@ == seq!['-', '2', 'A'],
        "-2R"@ == seq!['-', '2', 'R'],
        "-2L"@ == seq!['-', '2', 'L'],
        "-P"@ == seq!['-', 'P'],
        "-I"@ == seq!['-', 'I'],
        "-F"@ == seq!['-', 'F'],
        "-A"@ == seq!['-', 'A'],
        "-R"@ == seq!['-', 'R'],
        "-L"@ == seq!['-', 'L'],
        "-K"@ == seq!['-', 'K'],
        "-N"@ == seq!['-', 'N'],
        "-S"@ == seq!['-', 'S'],
        "-C"@ == seq!['-', 'C'],
{
    reveal_strlit("ADV");
    reveal_strlit("ADV-I");
    reveal_strlit("ADV-K");
    reveal_strlit("ADV-N");
    reveal_strlit("ADV-C");
    reveal_strlit("ADV-S");
    reveal_strlit("CONJ");
    reveal_strlit("CONJ-K");
    reveal_strlit("CONJ-P");
    reveal_strlit("CONJ-N");
    reveal_strlit("COND");
    reveal_strlit("COND-K");
    reveal_strlit("PRT");
    reveal_strlit("PRT-N");
    reveal_strlit("PRT-I");
    reveal_strlit("PREP");
    reveal_strlit("INJ");
    reveal_strlit("ARAM");
    reveal_strlit("HEB");
    reveal_strlit("N-PRI");
    reveal_strlit("A-NUI");
    reveal_strlit("N-LI");
    reveal_strlit("N-OI");
    reveal_strlit("V");
    reveal_strlit("N");
    reveal_strlit("T");
    reveal_strlit("A");
    reveal_strlit("R");
    reveal_strlit("C");
    reveal_strlit("D");
    reveal_strlit("G");
    reveal_strlit("M");
    reveal_strlit("F");
    reveal_strlit("S");
    reveal_strlit("P");
    reveal_strlit("E");
    reveal_strlit("O");
    reveal_strlit("I");
    reveal_strlit("K");
    reveal_strlit("X");
    reveal_strlit("Q");
    reveal_strlit("-");
    reveal_strlit("1");
    reveal_strlit("2");
    reveal_strlit("3");
    reveal_strlit("F-");
    reveal_strlit("S-");
    reveal_strlit("PN");
    reveal_strlit("IPN");
    reveal_strlit("-1");
    reveal_strlit("-2");
    reveal_strlit("-3");
    reveal_strlit("1S");
    reveal_strlit("2S");
    reveal_strlit("1P");
    reveal_strlit("2P");
    reveal_strlit("-2F");
    reveal_strlit("-2A");
    reveal_strlit("-2R");
    reveal_strlit("-2L");
    reveal_strlit("-P");
    reveal_strlit("-I");
    reveal_strlit("-F");
    reveal_strlit("-A");
    reveal_strlit("-R");
    reveal_strlit("-L");
    reveal_strlit("-K");
    reveal_strlit("-N");
    reveal_strlit("-S");
    reveal_strlit("-C");
    assert("ADV"@ =~= seq!['A', 'D', 'V']);
    assert("ADV-I"@ =~= seq!['A', 'D', 'V', '-', 'I']);
    assert("ADV-K"@ =~= seq!['A', 'D', 'V', '-', 'K']);
    assert("ADV-N"@ =~= seq!['A', 'D', 'V', '-', 'N']);
    assert("ADV-C"@ =~= seq!['A', 'D', 'V', '-', 'C']);
    assert("ADV-S"@ =~= seq!['A', 'D', 'V', '-', 'S']);
    assert("CONJ"@ =~= seq!['C', 'O', 'N', 'J']);
    assert("CONJ-K"@ =~= seq!['C', 'O', 'N', 'J', '-', 'K']);
    assert("CONJ-P"@ =~= seq!['C', 'O', 'N', 'J', '-', 'P']);
    assert("CONJ-N"@ =~= seq!['C', 'O', 'N', 'J', '-', 'N']);
    assert("COND"@ =~= seq!['C', 'O', 'N', 'D']);
    assert("COND-K"@ =~= seq!['C', 'O', 'N', 'D', '-', 'K']);
    assert("PRT"@ =~= seq!['P', 'R', 'T']);
    assert("PRT-N"@ =~= seq!['P', 'R', 'T', '-', 'N']);
    assert("PRT-I"@ =~= seq!['P', 'R', 'T', '-', 'I']);
    assert("PREP"@ =~= seq!['P', 'R', 'E', 'P']);
    assert("INJ"@ =~= seq!['I', 'N', 'J']);
    assert("ARAM"@ =~= seq!['A', 'R', 'A', 'M']);
    assert("HEB"@ =~= seq!['H', 'E', 'B']);
    assert("N-PRI"@ =~= seq!['N', '-', 'P', 'R', 'I']);
    assert("A-NUI"@ =~= seq!['A', '-', 'N', 'U', 'I']);
    assert("N-LI"@ =~= seq!['N', '-', 'L', 'I']);
    assert("N-OI"@ =~= seq!['N', '-', 'O', 'I']);
    assert("V"@ =~= seq!['V']);
    assert("N"@ =~= seq!['N']);
    assert("T"@ =~= seq!['T']);
    assert("A"@ =~= seq!['A']);
    assert("R"@ =~= seq!['R']);
    assert("C"@ =~= seq!['C']);
    assert("D"@ =~= seq!['D']);
    assert("G"@ =~= seq!['G']);
    assert("M"@ =~= seq!['M']);
    assert("F"@ =~= seq!['F']);
    assert("S"@ =~= seq!['S']);
    assert("P"@ =~= seq!['P']);
    assert("E"@ =~= seq!['E']);
    assert("O"@ =~= seq!['O']);
    assert("I"@ =~= seq!['I']);
    assert("K"@ =~= seq!['K']);
    assert("X"@ =~= seq!['X']);
    assert("Q"@ =~= seq!['Q']);
    assert("-"@ =~= seq!['-']);
    assert("1"@ =~= seq!['1']);
    assert("2"@ =~= seq!['2']);
    assert("3"@ =~= seq!['3']);
    assert("F-"@ =~= seq!['F', '-']);
    assert("S-"@ =~= seq!['S', '-']);
    assert("PN"@ =~= seq!['P', 'N']);
    assert("IPN"@ =~= seq!['I', 'P', 'N']);
    assert("-1"@ =~= seq!['-', '1']);
    assert("-2"@ =~= seq!['-', '2']);
    assert("-3"@ =~= seq!['-', '3']);
    assert("1S"@ =~= seq!['1', 'S']);
    assert("2S"@ =~= seq!['2', 'S']);
    assert("1P"@ =~= seq!['1', 'P']);
    assert("2P"@ =~= seq!['2', 'P']);
    assert("-2F"@ =~= seq!['-', '2', 'F']);
    assert("-2A"@ =~= seq!['-', '2', 'A']);
    assert("-2R"@ =~= seq!['-', '2', 'R']);
    assert("-2L"@ =~= seq!['-', '2', 'L']);
    assert("-P"@ =~= seq!['-', 'P']);
    assert("-I"@ =~= seq!['-', 'I']);
    assert("-F"@ =~= seq!['-', 'F']);
    assert("-A"@ =~= seq!['-', 'A']);
    assert("-R"@ =~= seq!['-', 'R']);
    assert("-L"@ =~= seq!['-', 'L']);
    assert("-K"@ =~= seq!['-', 'K']);
    assert("-N"@ =~= seq!['-', 'N']);
    assert("-S"@ =~= seq!['-', 'S']);
    assert("-C"@ =~= seq!['-', 'C']);
}

/// Decoding strips one leading `{` or `[` and one trailing `}` or `]`,
/// each independently of the other and with no pairing check: wrapping a
/// bracket-free token in any combination of them decodes as the bare
/// token does.
pub proof fn lemma_bracket_tolerance(t: Seq<char>, lead: Seq<char>, trail: Seq<char>)
    requires
        lead == Seq::<char>::empty() || lead == seq!['['] || lead == seq!['{'],
        trail == Seq::<char>::empty() || trail == seq![']'] || trail == seq!['}'],
        t.len() > 0,
        t[0] != '{' && t[0] != '[',
        t[t.len() - 1] != '}' && t[t.len() - 1] != ']',
    ensures
        spec_from_string(lead + t + trail) == spec_from_chars(t),
        spec_from_string(t) == spec_from_chars(t),
{
    let u = lead + t + trail;
    assert(u.len() == lead.len() + t.len() + trail.len());
    assert(u[0] == if lead.len() > 0 {
        lead[0]
    } else {
        t[0]
    });
    assert(u[u.len() - 1] == if trail.len() > 0 {
        trail[trail.len() - 1]
    } else {
        t[t.len() - 1]
    });
    assert(spec_stripped(u) =~= t);
    assert(spec_stripped(t) =~= t);
}

/// A token whose first four characters (after bracket stripping) hold no
/// `-` and do not form a literal-table entry is rejected as an unknown
/// part of speech carrying exactly those four characters.
pub proof fn lemma_four_letter_tag_rejected(s: Seq<char>)
    requires
        spec_literal(spec_stripped(s)) is None,
        spec_stripped(s).len() > 3,
        spec_stripped(s)[1] != '-',
        spec_stripped(s)[2] != '-',
        spec_stripped(s)[3] != '-',
    ensures
        spec_from_string(s) == Decoded::UnknownPartOfSpeech(spec_stripped(s).subrange(0, 4)),
{
}

/// Field profiles of every value in the literal table.
proof fn lemma_literal_value_fields()
    ensures
        spec_part_of_speech(INTERROGATIVE | ADVERB) == ADVERB,
        spec_is_interrogative(INTERROGATIVE | ADVERB),
        !spec_is_negative(INTERROGATIVE | ADVERB),
        !spec_is_correlative(INTERROGATIVE | ADVERB),
        spec_part_of_speech(CORRELATIVE | ADVERB) == ADVERB,
        !spec_is_interrogative(CORRELATIVE | ADVERB),
        !spec_is_negative(CORRELATIVE | ADVERB),
        spec_is_correlative(CORRELATIVE | ADVERB),
        spec_part_of_speech(NEGATIVE | ADVERB) == ADVERB,
        !spec_is_interrogative(NEGATIVE | ADVERB),
        spec_is_negative(NEGATIVE | ADVERB),
        spec_part_of_speech(CONJUNCTION | CRASIS) == CONJUNCTION,
        spec_is_crasis(CONJUNCTION | CRASIS),
        !spec_is_negative(CONJUNCTION | CRASIS),
        spec_part_of_speech(NEGATIVE | CONJUNCTION) == CONJUNCTION,
        !spec_is_crasis(NEGATIVE | CONJUNCTION),
        spec_is_negative(NEGATIVE | CONJUNCTION),
        spec_part_of_speech(CONDITIONAL | CRASIS) == CONDITIONAL,
        spec_is_crasis(CONDITIONAL | CRASIS),
        spec_part_of_speech(NEGATIVE | PARTICLE) == PARTICLE,
        spec_is_negative(NEGATIVE | PARTICLE),
        !spec_is_interrogative(NEGATIVE | PARTICLE),
        spec_part_of_speech(INTERROGATIVE | PARTICLE) == PARTICLE,
        !spec_is_negative(INTERROGATIVE | PARTICLE),
        spec_is_interrogative(INTERROGATIVE | PARTICLE),
        spec_part_of_speech(INDECLINABLE | PROPER_NOUN) == PROPER_NOUN,
        spec_is_indeclinable(INDECLINABLE | PROPER_NOUN),
        !spec_is_interrogative(INDECLINABLE | PROPER_NOUN),
        spec_case(INDECLINABLE | PROPER_NOUN) == 0,
        spec_part_of_speech(INDECLINABLE | NUMERAL) == NUMERAL,
        spec_is_indeclinable(INDECLINABLE | NUMERAL),
        spec_part_of_speech(INDECLINABLE | LETTER) == LETTER,
        spec_is_indeclinable(INDECLINABLE | LETTER),
        spec_part_of_speech(INDECLINABLE | NOUN) == NOUN,
        spec_is_indeclinable(INDECLINABLE | NOUN),
{
    lemma_union_zero(0);
    lemma_union_zero(ADVERB);
    lemma_union_zero(CONJUNCTION);
    lemma_union_zero(CONDITIONAL);
    lemma_union_zero(PARTICLE);
    lemma_union_zero(PROPER_NOUN);
    lemma_union_zero(NUMERAL);
    lemma_union_zero(LETTER);
    lemma_union_zero(NOUN);
    lemma_flag_value(INTERROGATIVE);
    lemma_flag_value(CORRELATIVE);
    lemma_flag_value(NEGATIVE);
    lemma_flag_value(CRASIS);
    lemma_flag_value(INDECLINABLE);
    lemma_pos_value(ADVERB);
    lemma_pos_value(CONJUNCTION);
    lemma_pos_value(CONDITIONAL);
    lemma_pos_value(PARTICLE);
    lemma_pos_value(PROPER_NOUN);
    lemma_pos_value(NUMERAL);
    lemma_pos_value(LETTER);
    lemma_pos_value(NOUN);
    lemma_union_fields(INTERROGATIVE, ADVERB);
    lemma_union_fields(CORRELATIVE, ADVERB);
    lemma_union_fields(NEGATIVE, ADVERB);
    lemma_union_fields(CONJUNCTION, CRASIS);
    lemma_union_fields(NEGATIVE, CONJUNCTION);
    lemma_union_fields(CONDITIONAL, CRASIS);
    lemma_union_fields(NEGATIVE, PARTICLE);
    lemma_union_fields(INTERROGATIVE, PARTICLE);
    lemma_union_fields(INDECLINABLE, PROPER_NOUN);
    lemma_union_fields(INDECLINABLE, NUMERAL);
    lemma_union_fields(INDECLINABLE, LETTER);
    lemma_union_fields(INDECLINABLE, NOUN);
}

/// The fixed literal table is a two-way dictionary: each entry's text
/// decodes to its value, and each entry's value encodes back to its
/// text. The one exception is the historical alias `CONJ-P`, which
/// decodes to the plain conjunction and therefore has no encoding of its
/// own.
#[verifier::rlimit(100)]
pub proof fn lemma_literal_table()
    ensures
        spec_from_string("ADV"@) == Decoded::Parsed(ADVERB),
        spec_to_string(ADVERB) == "ADV"@,
        spec_from_string("ADV-I"@) == Decoded::Parsed(INTERROGATIVE | ADVERB),
        spec_to_string(INTERROGATIVE | ADVERB) == "ADV-I"@,
        spec_from_string("ADV-K"@) == Decoded::Parsed(CORRELATIVE | ADVERB),
        spec_to_string(CORRELATIVE | ADVERB) == "ADV-K"@,
        spec_from_string("ADV-N"@) == Decoded::Parsed(NEGATIVE | ADVERB),
        spec_to_string(NEGATIVE | ADVERB) == "ADV-N"@,
        spec_from_string("ADV-C"@) == Decoded::Parsed(COMPARATIVE_ADVERB),
        spec_to_string(COMPARATIVE_ADVERB) == "ADV-C"@,
        spec_from_string("ADV-S"@) == Decoded::Parsed(SUPERLATIVE_ADVERB),
        spec_to_string(SUPERLATIVE_ADVERB) == "ADV-S"@,
        spec_from_string("CONJ"@) == Decoded::Parsed(CONJUNCTION),
        spec_to_string(CONJUNCTION) == "CONJ"@,
        spec_from_string("CONJ-K"@) == Decoded::Parsed(CONJUNCTION | CRASIS),
        spec_to_string(CONJUNCTION | CRASIS) == "CONJ-K"@,
        spec_from_string("CONJ-P"@) == Decoded::Parsed(CONJUNCTION),
        spec_from_string("CONJ-N"@) == Decoded::Parsed(NEGATIVE | CONJUNCTION),
        spec_to_string(NEGATIVE | CONJUNCTION) == "CONJ-N"@,
        spec_from_string("COND"@) == Decoded::Parsed(CONDITIONAL),
        spec_to_string(CONDITIONAL) == "COND"@,
        spec_from_string("COND-K"@) == Decoded::Parsed(CONDITIONAL | CRASIS),
        spec_to_string(CONDITIONAL | CRASIS) == "COND-K"@,
        spec_from_string("PRT"@) == Decoded::Parsed(PARTICLE),
        spec_to_string(PARTICLE) == "PRT"@,
        spec_from_string("PRT-N"@) == Decoded::Parsed(NEGATIVE | PARTICLE),
        spec_to_string(NEGATIVE | PARTICLE) == "PRT-N"@,
        spec_from_string("PRT-I"@) == Decoded::Parsed(INTERROGATIVE | PARTICLE),
        spec_to_string(INTERROGATIVE | PARTICLE) == "PRT-I"@,
        spec_from_string("PREP"@) == Decoded::Parsed(PREPOSITION),
        spec_to_string(PREPOSITION) == "PREP"@,
        spec_from_string("INJ"@) == Decoded::Parsed(INTERJECTION),
        spec_to_string(INTERJECTION) == "INJ"@,
        spec_from_string("ARAM"@) == Decoded::Parsed(ARAMAIC_TRANSLITERATION),
        spec_to_string(ARAMAIC_TRANSLITERATION) == "ARAM"@,
        spec_from_string("HEB"@) == Decoded::Parsed(HEBREW_TRANSLITERATION),
        spec_to_string(HEBREW_TRANSLITERATION) == "HEB"@,
        spec_from_string("N-PRI"@) == Decoded::Parsed(INDECLINABLE | PROPER_NOUN),
        spec_to_string(INDECLINABLE | PROPER_NOUN) == "N-PRI"@,
        spec_from_string("A-NUI"@) == Decoded::Parsed(INDECLINABLE | NUMERAL),
        spec_to_string(INDECLINABLE | NUMERAL) == "A-NUI"@,
        spec_from_string("N-LI"@) == Decoded::Parsed(INDECLINABLE | LETTER),
        spec_to_string(INDECLINABLE | LETTER) == "N-LI"@,
        spec_from_string("N-OI"@) == Decoded::Parsed(INDECLINABLE | NOUN),
        spec_to_string(INDECLINABLE | NOUN) == "N-OI"@,
{
    lemma_literal_views();
    lemma_literal_value_fields();
    lemma_pos_value(ADVERB);
    lemma_pos_value(COMPARATIVE_ADVERB);
    lemma_pos_value(SUPERLATIVE_ADVERB);
    lemma_pos_value(CONJUNCTION);
    lemma_pos_value(CONDITIONAL);
    lemma_pos_value(PARTICLE);
    lemma_pos_value(PREPOSITION);
    lemma_pos_value(INTERJECTION);
    lemma_pos_value(ARAMAIC_TRANSLITERATION);
    lemma_pos_value(HEBREW_TRANSLITERATION);
    // Each entry's text, folded for letter casing, differs from every
    // earlier entry of the same length, so its own branch is reached.
    lemma_name_differs("ADV-K"@, "ADV-I"@, 4);
    lemma_name_differs("ADV-N"@, "ADV-I"@, 4);
    lemma_name_differs("ADV-N"@, "ADV-K"@, 4);
    lemma_name_differs("ADV-C"@, "ADV-I"@, 4);
    lemma_name_differs("ADV-C"@, "ADV-K"@, 4);
    lemma_name_differs("ADV-C"@, "ADV-N"@, 4);
    lemma_name_differs("ADV-S"@, "ADV-I"@, 4);
    lemma_name_differs("ADV-S"@, "ADV-K"@, 4);
    lemma_name_differs("ADV-S"@, "ADV-N"@, 4);
    lemma_name_differs("ADV-S"@, "ADV-C"@, 4);
    lemma_name_differs("CONJ-P"@, "CONJ-K"@, 5);
    lemma_name_differs("CONJ-N"@, "CONJ-K"@, 5);
    lemma_name_differs("CONJ-N"@, "CONJ-P"@, 5);
    lemma_name_differs("COND"@, "CONJ"@, 3);
    lemma_name_differs("COND-K"@, "CONJ-K"@, 3);
    lemma_name_differs("COND-K"@, "CONJ-P"@, 3);
    lemma_name_differs("COND-K"@, "CONJ-N"@, 3);
    lemma_name_differs("PRT"@, "ADV"@, 0);
    lemma_name_differs("PRT-N"@, "ADV-I"@, 0);
    lemma_name_differs("PRT-N"@, "ADV-K"@, 0);
    lemma_name_differs("PRT-N"@, "ADV-N"@, 0);
    lemma_name_differs("PRT-N"@, "ADV-C"@, 0);
    lemma_name_differs("PRT-N"@, "ADV-S"@, 0);
    lemma_name_differs("PRT-I"@, "ADV-I"@, 0);
    lemma_name_differs("PRT-I"@, "ADV-K"@, 0);
    lemma_name_differs("PRT-I"@, "ADV-N"@, 0);
    lemma_name_differs("PRT-I"@, "ADV-C"@, 0);
    lemma_name_differs("PRT-I"@, "ADV-S"@, 0);
    lemma_name_differs("PRT-I"@, "PRT-N"@, 4);
    lemma_name_differs("PREP"@, "CONJ"@, 1);
    lemma_name_differs("PREP"@, "COND"@, 1);
    lemma_name_differs("INJ"@, "ADV"@, 0);
    lemma_name_differs("INJ"@, "PRT"@, 0);
    lemma_name_differs("ARAM"@, "CONJ"@, 0);
    lemma_name_differs("ARAM"@, "COND"@, 0);
    lemma_name_differs("ARAM"@, "PREP"@, 0);
    lemma_name_differs("HEB"@, "ADV"@, 0);
    lemma_name_differs("HEB"@, "PRT"@, 0);
    lemma_name_differs("HEB"@, "INJ"@, 0);
    lemma_name_differs("N-PRI"@, "ADV-I"@, 0);
    lemma_name_differs("N-PRI"@, "ADV-K"@, 0);
    lemma_name_differs("N-PRI"@, "ADV-N"@, 0);
    lemma_name_differs("N-PRI"@, "ADV-C"@, 0);
    lemma_name_differs("N-PRI"@, "ADV-S"@, 0);
    lemma_name_differs("N-PRI"@, "PRT-N"@, 0);
    lemma_name_differs("N-PRI"@, "PRT-I"@, 0);
    lemma_name_differs("A-NUI"@, "ADV-I"@, 1);
    lemma_name_differs("A-NUI"@, "ADV-K"@, 1);
    lemma_name_differs("A-NUI"@, "ADV-N"@, 1);
    lemma_name_differs("A-NUI"@, "ADV-C"@, 1);
    lemma_name_differs("A-NUI"@, "ADV-S"@, 1);
    lemma_name_differs("A-NUI"@, "PRT-N"@, 0);
    lemma_name_differs("A-NUI"@, "PRT-I"@, 0);
    lemma_name_differs("A-NUI"@, "N-PRI"@, 0);
    lemma_name_differs("N-LI"@, "CONJ"@, 0);
    lemma_name_differs("N-LI"@, "COND"@, 0);
    lemma_name_differs("N-LI"@, "PREP"@, 0);
    lemma_name_differs("N-LI"@, "ARAM"@, 0);
    lemma_name_differs("N-OI"@, "CONJ"@, 0);
    lemma_name_differs("N-OI"@, "COND"@, 0);
    lemma_name_differs("N-OI"@, "PREP"@, 0);
    lemma_name_differs("N-OI"@, "ARAM"@, 0);
    lemma_name_differs("N-OI"@, "N-LI"@, 2);
    assert(spec_stripped("ADV"@) =~= "ADV"@);
    assert(spec_stripped("ADV-I"@) =~= "ADV-I"@);
    assert(spec_stripped("ADV-K"@) =~= "ADV-K"@);
    assert(spec_stripped("ADV-N"@) =~= "ADV-N"@);
    assert(spec_stripped("ADV-C"@) =~= "ADV-C"@);
    assert(spec_stripped("ADV-S"@) =~= "ADV-S"@);
    assert(spec_stripped("CONJ"@) =~= "CONJ"@);
    assert(spec_stripped("CONJ-K"@) =~= "CONJ-K"@);
    assert(spec_stripped("CONJ-P"@) =~= "CONJ-P"@);
    assert(spec_stripped("CONJ-N"@) =~= "CONJ-N"@);
    assert(spec_stripped("COND"@) =~= "COND"@);
    assert(spec_stripped("COND-K"@) =~= "COND-K"@);
    assert(spec_stripped("PRT"@) =~= "PRT"@);
    assert(spec_stripped("PRT-N"@) =~= "PRT-N"@);
    assert(spec_stripped("PRT-I"@) =~= "PRT-I"@);
    assert(spec_stripped("PREP"@) =~= "PREP"@);
    assert(spec_stripped("INJ"@) =~= "INJ"@);
    assert(spec_stripped("ARAM"@) =~= "ARAM"@);
    assert(spec_stripped("HEB"@) =~= "HEB"@);
    assert(spec_stripped("N-PRI"@) =~= "N-PRI"@);
    assert(spec_stripped("A-NUI"@) =~= "A-NUI"@);
    assert(spec_stripped("N-LI"@) =~= "N-LI"@);
    assert(spec_stripped("N-OI"@) =~= "N-OI"@);
}

/// The letter the encoder writes for a stored case value.
pub open spec fn case_letter(cv: u32) -> char {
    if cv == NOMINATIVE {
        'N'
    } else if cv == ACCUSATIVE {
        'A'
    } else if cv == GENITIVE {
        'G'
    } else if cv == DATIVE {
        'D'
    } else {
        'V'
    }
}

/// The letter the encoder writes for a stored number value.
pub open spec fn number_letter(nv: u32) -> char {
    if nv == SINGULAR {
        'S'
    } else {
        'P'
    }
}

/// The letter the encoder writes for a stored gender value.
pub open spec fn gender_letter(gv: u32) -> char {
    if gv == MASCULINE {
        'M'
    } else if gv == FEMININE {
        'F'
    } else {
        'N'
    }
}

/// The parts of speech whose declension may end after the number letter.
pub open spec fn pos_may_omit_gender(p: u32) -> bool {
    p == NOUN || p == ADJECTIVE || p == PROPER_NOUN || p == PRONOUN
}

/// The declension letters the encoder emits after any dash: case and
/// number letters, the gender letter if any, then the crasis and
/// negative suffixes.
pub open spec fn cng_tail_core(v: u32) -> Seq<char> {
    let base = seq![case_letter(spec_case(v)), number_letter(spec_number(v))];
    let wg = if spec_gender(v) != 0 {
        base + seq![gender_letter(spec_gender(v))]
    } else {
        base
    };
    let wk = if spec_is_crasis(v) {
        wg + seq!['-', 'K']
    } else {
        wg
    };
    if spec_is_negative(v) {
        wk + seq!['-', 'N']
    } else {
        wk
    }
}

/// The declension tail the encoder emits for a form with a valid case
/// and number, with its dash except after a possessive or reflexive
/// person prefix.
pub open spec fn cng_tail_seq(v: u32) -> Seq<char> {
    if spec_part_of_speech(v) != POSSESSIVE_PRONOUN && spec_part_of_speech(v)
        != REFLEXIVE_PRONOUN {
        seq!['-'] + cng_tail_core(v)
    } else {
        cng_tail_core(v)
    }
}

/// With a valid case and number stored, the encoder's declension tail is
/// exactly `cng_tail_seq`.
#[verifier::rlimit(100)]
proof fn lemma_cng_string_shape(s0: Seq<char>, v: u32)
    requires
        is_case_value(spec_case(v)),
        is_number_value(spec_number(v)),
        is_gender_value(spec_gender(v)),
    ensures
        spec_cng_string(s0, v) == s0 + cng_tail_seq(v),
{
    reveal_strlit("-");
    reveal_strlit("N");
    reveal_strlit("A");
    reveal_strlit("G");
    reveal_strlit("D");
    reveal_strlit("V");
    reveal_strlit("S");
    reveal_strlit("P");
    reveal_strlit("M");
    reveal_strlit("F");
    reveal_strlit("-K");
    reveal_strlit("-N");
    if spec_gender(v) != 0 {
        if spec_is_crasis(v) {
            assert(spec_cng_string(s0, v) =~= s0 + cng_tail_seq(v));
        } else if spec_is_negative(v) {
            assert(spec_cng_string(s0, v) =~= s0 + cng_tail_seq(v));
        } else {
            assert(spec_cng_string(s0, v) =~= s0 + cng_tail_seq(v));
        }
    } else {
        if spec_is_crasis(v) {
            assert(spec_cng_string(s0, v) =~= s0 + cng_tail_seq(v));
        } else if spec_is_negative(v) {
            assert(spec_cng_string(s0, v) =~= s0 + cng_tail_seq(v));
        } else {
            assert(spec_cng_string(s0, v) =~= s0 + cng_tail_seq(v));
        }
    }
}

/// Field profile of the union chain the declinable decoder builds.
proof fn lemma_chain_fields(seed: u32, cv: u32, nv: u32, gv: u32)
    requires
        is_case_value(cv),
        is_number_value(nv),
        is_gender_value(gv),
    ensures
        spec_part_of_speech(((seed | cv) | nv) | gv) == spec_part_of_speech(seed),
        spec_is_interrogative(((seed | cv) | nv) | gv) == spec_is_interrogative(seed),
        spec_is_negative(((seed | cv) | nv) | gv) == spec_is_negative(seed),
        spec_is_correlative(((seed | cv) | nv) | gv) == spec_is_correlative(seed),
        spec_is_indefinite(((seed | cv) | nv) | gv) == spec_is_indefinite(seed),
        spec_is_indeclinable(((seed | cv) | nv) | gv) == spec_is_indeclinable(seed),
        spec_is_crasis(((seed | cv) | nv) | gv) == spec_is_crasis(seed),
        spec_tense(((seed | cv) | nv) | gv) == spec_tense(seed),
        spec_gender(((seed | cv) | nv) | gv) == spec_gender(seed) | gv,
        spec_case(((seed | cv) | nv) | gv) == spec_case(seed) | cv,
        spec_voice(((seed | cv) | nv) | gv) == spec_voice(seed),
        spec_mood(((seed | cv) | nv) | gv) == spec_mood(seed),
        spec_person(((seed | cv) | nv) | gv) == spec_person(seed),
        spec_number(((seed | cv) | nv) | gv) == spec_number(seed) | nv,
        (((seed | cv) | nv) | gv) & RESERVED_MASK == seed & RESERVED_MASK,
        spec_part_of_speech(((seed | cv) | nv)) == spec_part_of_speech(seed),
    decreases 0int,
{
    lemma_union_fields(seed, cv);
    lemma_union_fields(seed | cv, nv);
    lemma_union_fields((seed | cv) | nv, gv);
    lemma_case_value(cv);
    lemma_number_value(nv);
    lemma_gender_value(gv);
    lemma_union_zero(spec_part_of_speech(seed));
    lemma_union_zero(spec_tense(seed));
    lemma_union_zero(spec_gender(seed));
    lemma_union_zero(spec_case(seed));
    lemma_union_zero(spec_voice(seed));
    lemma_union_zero(spec_mood(seed));
    lemma_union_zero(spec_person(seed));
    lemma_union_zero(spec_number(seed));
    lemma_union_zero(spec_case(seed) | cv);
    lemma_union_zero(spec_number(seed) | nv);
    lemma_union_zero(seed & RESERVED_MASK);
}

/// Decoding the emitted declension tail from position `i0` rebuilds
/// exactly the encoded form.
#[verifier::rlimit(100)]
proof fn lemma_cng_parse_tail(seed: u32, t: Seq<char>, i0: int, v: u32, dashed: bool)
    requires
        0 <= i0 <= t.len(),
        t.subrange(i0, t.len() as int) == (if dashed {
            seq!['-'] + cng_tail_core(v)
        } else {
            cng_tail_core(v)
        }),
        is_case_value(spec_case(v)),
        is_number_value(spec_number(v)),
        is_gender_value(spec_gender(v)),
        spec_case(seed) == 0,
        spec_number(seed) == 0,
        spec_gender(seed) == 0,
        !spec_is_crasis(seed),
        !spec_is_negative(seed),
        spec_part_of_speech(v) == spec_part_of_speech(seed),
        spec_is_interrogative(v) == spec_is_interrogative(seed),
        spec_is_correlative(v) == spec_is_correlative(seed),
        spec_is_indefinite(v) == spec_is_indefinite(seed),
        spec_is_indeclinable(v) == spec_is_indeclinable(seed),
        !(spec_is_crasis(v) && spec_is_negative(v)),
        spec_tense(v) == spec_tense(seed),
        spec_voice(v) == spec_voice(seed),
        spec_mood(v) == spec_mood(seed),
        spec_person(v) == spec_person(seed),
        v & RESERVED_MASK == seed & RESERVED_MASK,
        spec_gender(v) == 0 && !spec_is_crasis(v) && !spec_is_negative(v)
            ==> pos_may_omit_gender(spec_part_of_speech(seed)),
    ensures
        spec_cng(seed, t, i0) == Decoded::Parsed(v),
{
    let tail: Seq<char> = if dashed {
        seq!['-'] + cng_tail_core(v)
    } else {
        cng_tail_core(v)
    };
    let cv = spec_case(v);
    let nv = spec_number(v);
    let gv = spec_gender(v);
    lemma_chain_fields(seed, cv, nv, gv);
    let p3 = ((seed | cv) | nv) | gv;
    lemma_union_zero(cv);
    lemma_union_zero(nv);
    lemma_union_zero(gv);
    assert(spec_case(p3) == cv);
    assert(spec_number(p3) == nv);
    assert(spec_gender(p3) == gv);
    if spec_is_crasis(v) {
        lemma_union_fields(p3, CRASIS);
        lemma_flag_value(CRASIS);
        lemma_union_zero(spec_part_of_speech(p3));
        lemma_union_zero(spec_tense(p3));
        lemma_union_zero(spec_gender(p3));
        lemma_union_zero(spec_case(p3));
        lemma_union_zero(spec_voice(p3));
        lemma_union_zero(spec_mood(p3));
        lemma_union_zero(spec_person(p3));
        lemma_union_zero(spec_number(p3));
        lemma_union_zero(p3 & RESERVED_MASK);
        lemma_fields_determine(p3 | CRASIS, v);
    } else if spec_is_negative(v) {
        lemma_union_fields(p3, NEGATIVE);
        lemma_flag_value(NEGATIVE);
        lemma_union_zero(spec_part_of_speech(p3));
        lemma_union_zero(spec_tense(p3));
        lemma_union_zero(spec_gender(p3));
        lemma_union_zero(spec_case(p3));
        lemma_union_zero(spec_voice(p3));
        lemma_union_zero(spec_mood(p3));
        lemma_union_zero(spec_person(p3));
        lemma_union_zero(spec_number(p3));
        lemma_union_zero(p3 & RESERVED_MASK);
        lemma_fields_determine(p3 | NEGATIVE, v);
    } else {
        lemma_fields_determine(p3, v);
    }
    let n = t.len() as int;
    assert(n - i0 == tail.len());
    if tail.len() > 0 {
        assert(t.subrange(i0, n)[0] == t[i0]);
    }
    if tail.len() > 1 {
        assert(t.subrange(i0, n)[1] == t[i0 + 1]);
    }
    if tail.len() > 2 {
        assert(t.subrange(i0, n)[2] == t[i0 + 2]);
    }
    if tail.len() > 3 {
        assert(t.subrange(i0, n)[3] == t[i0 + 3]);
    }
    if tail.len() > 4 {
        assert(t.subrange(i0, n)[4] == t[i0 + 4]);
    }
    if tail.len() > 5 {
        assert(t.subrange(i0, n)[5] == t[i0 + 5]);
    }
    assert(spec_case_of(case_letter(cv)) == Option::Some(cv));
    assert(spec_number_of(number_letter(nv)) != UNKNOWN);
    assert(spec_number_of(number_letter(nv)) == nv);
    if gv != 0 {
        assert(spec_gender_of(gender_letter(gv)) == Option::Some(gv));
        assert(gender_letter(gv) != '-');
    }
    assert(spec_gender_of('-') == Option::Some(0u32));
    let dl: int = if dashed {
        1
    } else {
        0
    };
    let gl: int = if gv != 0 {
        1
    } else {
        0
    };
    if dashed {
        assert(tail[0] == '-');
    }
    assert(tail[dl] == case_letter(cv));
    assert(tail[dl + 1] == number_letter(nv));
    if gv != 0 {
        assert(tail[dl + 2] == gender_letter(gv));
    }
    if spec_is_crasis(v) {
        assert(tail[dl + 2 + gl] == '-');
        assert(tail[dl + 3 + gl] == 'K');
        assert(tail.len() == dl + 4 + gl);
        assert(spec_cng(seed, t, i0) == Decoded::Parsed(v));
    } else if spec_is_negative(v) {
        assert(tail[dl + 2 + gl] == '-');
        assert(tail[dl + 3 + gl] == 'N');
        assert(tail.len() == dl + 4 + gl);
        assert(spec_cng(seed, t, i0) == Decoded::Parsed(v));
    } else {
        assert(tail.len() == dl + 2 + gl);
        if gv == 0 {
            lemma_union_zero((seed | cv) | nv);
            assert(p3 == (seed | cv) | nv);
        }
        assert(spec_cng(seed, t, i0) == Decoded::Parsed(v));
    }
}

/// A text does not match a name, ignoring ASCII letter casing, when
/// their lengths differ or the folded characters differ at some
/// position.
proof fn lemma_name_differs(t: Seq<char>, e: Seq<char>, i: int)
    requires
        t.len() != e.len() || (0 <= i < t.len() && spec_lower_code(t[i]) != spec_lower_code(e[i])),
    ensures
        !spec_name_matches(t, e),
{
    if t.len() == e.len() {
        assert(spec_name_matches(t, e) ==> spec_lower_code(t[i]) == spec_lower_code(e[i]));
    }
}

/// A character other than the two ASCII casings of a letter folds to a
/// different code point than either casing of that letter does.
proof fn lemma_fold_differs(c: char, up: char, low: char)
    requires
        up as u32 >= 65 && up as u32 <= 90,
        low as u32 == up as u32 + 32,
        c != up && c != low,
    ensures
        spec_lower_code(c) != spec_lower_code(up),
        spec_lower_code(c) != spec_lower_code(low),
{
    vstd::utf8::char_u32_cast(c, c as u32);
    vstd::utf8::char_u32_cast(up, up as u32);
    vstd::utf8::char_u32_cast(low, low as u32);
}

/// A text whose first characters differ, ignoring ASCII letter casing,
/// from every literal-table entry is not in the table.
#[verifier::rlimit(100)]
proof fn lemma_not_literal(t: Seq<char>)
    requires
        t.len() > 1,
        t[0] != 'H' && t[0] != 'h',
        (t[0] == 'A' || t[0] == 'a') ==> t[1] == '-',
        ((t[0] == 'A' || t[0] == 'a') && t.len() > 3) ==> (t[3] != 'U' && t[3] != 'u'),
        (t[0] == 'C' || t[0] == 'c') ==> (t[1] != 'O' && t[1] != 'o'),
        (t[0] == 'P' || t[0] == 'p') ==> (t[1] != 'R' && t[1] != 'r'),
        (t[0] == 'I' || t[0] == 'i') ==> (t[1] != 'N' && t[1] != 'n'),
        ((t[0] == 'N' || t[0] == 'n') && t.len() > 2) ==> (t[1] == '-' && t[2] != 'P' && t[2]
            != 'p' && t[2] != 'L' && t[2] != 'l' && t[2] != 'O' && t[2] != 'o'),
    ensures
        spec_literal(t) is None,
{
    lemma_literal_views();
    if t[0] == 'A' || t[0] == 'a' {
        lemma_name_differs(t, "ADV"@, 1);
        lemma_name_differs(t, "ADV-I"@, 1);
        lemma_name_differs(t, "ADV-K"@, 1);
        lemma_name_differs(t, "ADV-N"@, 1);
        lemma_name_differs(t, "ADV-C"@, 1);
        lemma_name_differs(t, "ADV-S"@, 1);
        lemma_name_differs(t, "ARAM"@, 1);
        if t.len() == 5 {
            lemma_fold_differs(t[3], 'U', 'u');
            lemma_name_differs(t, "A-NUI"@, 3);
        } else {
            lemma_name_differs(t, "A-NUI"@, 0);
        }
    } else {
        lemma_fold_differs(t[0], 'A', 'a');
        lemma_name_differs(t, "ADV"@, 0);
        lemma_name_differs(t, "ADV-I"@, 0);
        lemma_name_differs(t, "ADV-K"@, 0);
        lemma_name_differs(t, "ADV-N"@, 0);
        lemma_name_differs(t, "ADV-C"@, 0);
        lemma_name_differs(t, "ADV-S"@, 0);
        lemma_name_differs(t, "ARAM"@, 0);
        lemma_name_differs(t, "A-NUI"@, 0);
    }
    if t[0] == 'C' || t[0] == 'c' {
        lemma_fold_differs(t[1], 'O', 'o');
        lemma_name_differs(t, "CONJ"@, 1);
        lemma_name_differs(t, "CONJ-K"@, 1);
        lemma_name_differs(t, "CONJ-P"@, 1);
        lemma_name_differs(t, "CONJ-N"@, 1);
        lemma_name_differs(t, "COND"@, 1);
        lemma_name_differs(t, "COND-K"@, 1);
    } else {
        lemma_fold_differs(t[0], 'C', 'c');
        lemma_name_differs(t, "CONJ"@, 0);
        lemma_name_differs(t, "CONJ-K"@, 0);
        lemma_name_differs(t, "CONJ-P"@, 0);
        lemma_name_differs(t, "CONJ-N"@, 0);
        lemma_name_differs(t, "COND"@, 0);
        lemma_name_differs(t, "COND-K"@, 0);
    }
    if t[0] == 'P' || t[0] == 'p' {
        lemma_fold_differs(t[1], 'R', 'r');
        lemma_name_differs(t, "PRT"@, 1);
        lemma_name_differs(t, "PRT-N"@, 1);
        lemma_name_differs(t, "PRT-I"@, 1);
        lemma_name_differs(t, "PREP"@, 1);
    } else {
        lemma_fold_differs(t[0], 'P', 'p');
        lemma_name_differs(t, "PRT"@, 0);
        lemma_name_differs(t, "PRT-N"@, 0);
        lemma_name_differs(t, "PRT-I"@, 0);
        lemma_name_differs(t, "PREP"@, 0);
    }
    if t[0] == 'I' || t[0] == 'i' {
        lemma_fold_differs(t[1], 'N', 'n');
        lemma_name_differs(t, "INJ"@, 1);
    } else {
        lemma_fold_differs(t[0], 'I', 'i');
        lemma_name_differs(t, "INJ"@, 0);
    }
    lemma_fold_differs(t[0], 'H', 'h');
    lemma_name_differs(t, "HEB"@, 0);
    if t[0] == 'N' || t[0] == 'n' {
        if t.len() > 2 {
            lemma_fold_differs(t[2], 'P', 'p');
            lemma_fold_differs(t[2], 'L', 'l');
            lemma_fold_differs(t[2], 'O', 'o');
            lemma_name_differs(t, "N-PRI"@, 2);
            lemma_name_differs(t, "N-LI"@, 2);
            lemma_name_differs(t, "N-OI"@, 2);
        } else {
            lemma_name_differs(t, "N-PRI"@, 0);
            lemma_name_differs(t, "N-LI"@, 0);
            lemma_name_differs(t, "N-OI"@, 0);
        }
    } else {
        lemma_fold_differs(t[0], 'N', 'n');
        lemma_name_differs(t, "N-PRI"@, 0);
        lemma_name_differs(t, "N-LI"@, 0);
        lemma_name_differs(t, "N-OI"@, 0);
    }
}

/// Field profile of a category seed: a single optional flag joined with
/// a part of speech.
proof fn lemma_seed_profile(f: u32, p: u32)
    requires
        f == 0 || f == INTERROGATIVE || f == CORRELATIVE || f == INDEFINITE || f == INDECLINABLE,
        p < 32,
    ensures
        spec_part_of_speech(f | p) == p,
        spec_tense(f | p) == 0,
        spec_gender(f | p) == 0,
        spec_case(f | p) == 0,
        spec_voice(f | p) == 0,
        spec_mood(f | p) == 0,
        spec_person(f | p) == 0,
        spec_number(f | p) == 0,
        spec_is_interrogative(f | p) == (f == INTERROGATIVE),
        !spec_is_negative(f | p),
        spec_is_correlative(f | p) == (f == CORRELATIVE),
        spec_is_indefinite(f | p) == (f == INDEFINITE),
        spec_is_indeclinable(f | p) == (f == INDECLINABLE),
        !spec_is_crasis(f | p),
        (f | p) & RESERVED_MASK == 0,
{
    lemma_flag_value(f);
    lemma_pos_value(p);
    lemma_union_fields(f, p);
    lemma_union_zero(p);
    lemma_union_zero(0);
}

/// Round trip for the declinable categories without person prefixes:
/// a form of one of these categories with a valid case and number, and
/// with a gender or a crasis/negative flag wherever its category cannot
/// end at the number letter, encodes to a token that decodes back to the
/// same form.
#[verifier::rlimit(100)]
pub proof fn lemma_rt_declinable(v: u32)
    requires
        spec_part_of_speech(v) == NOUN || spec_part_of_speech(v) == ADJECTIVE
            || spec_part_of_speech(v) == ARTICLE || spec_part_of_speech(v) == RELATIVE_PRONOUN
            || spec_part_of_speech(v) == RECIPROCAL_PRONOUN || spec_part_of_speech(v)
            == DEMONSTRATIVE_PRONOUN || spec_part_of_speech(v) == PRONOUN || spec_part_of_speech(
            v,
        ) == PROPER_NOUN || spec_part_of_speech(v) == PERSONAL_PRONOUN,
        spec_person(v) == 0,
        spec_tense(v) == 0,
        spec_voice(v) == 0,
        spec_mood(v) == 0,
        v & RESERVED_MASK == 0,
        is_case_value(spec_case(v)),
        is_number_value(spec_number(v)),
        is_gender_value(spec_gender(v)),
        !(spec_is_crasis(v) && spec_is_negative(v)),
        spec_part_of_speech(v) == PRONOUN ==> !spec_is_indeclinable(v) && (spec_is_indefinite(v)
            ==> !spec_is_correlative(v) && !spec_is_interrogative(v)),
        spec_part_of_speech(v) == PROPER_NOUN ==> !spec_is_interrogative(v)
            && !spec_is_correlative(v) && !spec_is_indefinite(v),
        spec_part_of_speech(v) != PRONOUN && spec_part_of_speech(v) != PROPER_NOUN
            ==> !spec_is_interrogative(v) && !spec_is_correlative(v) && !spec_is_indefinite(v)
            && !spec_is_indeclinable(v),
        spec_gender(v) == 0 && !spec_is_crasis(v) && !spec_is_negative(v)
            ==> pos_may_omit_gender(spec_part_of_speech(v)),
    ensures
        spec_from_string(spec_to_string(v)) == Decoded::Parsed(v),
{
    lemma_literal_views();
    let pos = spec_part_of_speech(v);
    let tail = cng_tail_seq(v);
    let seed: u32 = if pos == NOUN {
        NOUN
    } else if pos == ADJECTIVE {
        ADJECTIVE
    } else if pos == ARTICLE {
        ARTICLE
    } else if pos == RELATIVE_PRONOUN {
        RELATIVE_PRONOUN
    } else if pos == RECIPROCAL_PRONOUN {
        RECIPROCAL_PRONOUN
    } else if pos == DEMONSTRATIVE_PRONOUN {
        DEMONSTRATIVE_PRONOUN
    } else if pos == PERSONAL_PRONOUN {
        PERSONAL_PRONOUN
    } else if pos == PROPER_NOUN {
        if spec_is_indeclinable(v) {
            INDECLINABLE | PROPER_NOUN
        } else {
            PROPER_NOUN
        }
    } else {
        if spec_is_correlative(v) && spec_is_interrogative(v) {
            CORRELATIVE | INTERROGATIVE | PRONOUN
        } else if spec_is_correlative(v) {
            CORRELATIVE | PRONOUN
        } else if spec_is_interrogative(v) {
            INTERROGATIVE | PRONOUN
        } else if spec_is_indefinite(v) {
            INDEFINITE | PRONOUN
        } else {
            PRONOUN
        }
    };
    let pre: Seq<char> = if pos == NOUN {
        "N"@
    } else if pos == ADJECTIVE {
        "A"@
    } else if pos == ARTICLE {
        "T"@
    } else if pos == RELATIVE_PRONOUN {
        "R"@
    } else if pos == RECIPROCAL_PRONOUN {
        "C"@
    } else if pos == DEMONSTRATIVE_PRONOUN {
        "D"@
    } else if pos == PERSONAL_PRONOUN {
        "P"@
    } else if pos == PROPER_NOUN {
        if spec_is_indeclinable(v) {
            "IPN"@
        } else {
            "PN"@
        }
    } else {
        if spec_is_correlative(v) && spec_is_interrogative(v) {
            "Q"@
        } else if spec_is_correlative(v) {
            "K"@
        } else if spec_is_interrogative(v) {
            "I"@
        } else if spec_is_indefinite(v) {
            "X"@
        } else {
            "O"@
        }
    };
    // Seed field profile.
    if pos == PRONOUN && spec_is_correlative(v) && spec_is_interrogative(v) {
        lemma_union_fields(CORRELATIVE, INTERROGATIVE);
        lemma_flag_value(CORRELATIVE);
        lemma_flag_value(INTERROGATIVE);
        lemma_union_fields(CORRELATIVE | INTERROGATIVE, PRONOUN);
        lemma_pos_value(PRONOUN);
        lemma_union_zero(PRONOUN);
        lemma_union_zero(0);
        assert(spec_part_of_speech(seed) == PRONOUN);
        assert(spec_case(seed) == 0 && spec_number(seed) == 0 && spec_gender(seed) == 0);
    } else if pos == PRONOUN {
        if spec_is_correlative(v) {
            lemma_seed_profile(CORRELATIVE, PRONOUN);
        } else if spec_is_interrogative(v) {
            lemma_seed_profile(INTERROGATIVE, PRONOUN);
        } else if spec_is_indefinite(v) {
            lemma_seed_profile(INDEFINITE, PRONOUN);
        } else {
            lemma_seed_profile(0, PRONOUN);
            lemma_union_zero(PRONOUN);
            assert(seed == PRONOUN);
            lemma_pos_value(PRONOUN);
        }
    } else if pos == PROPER_NOUN && spec_is_indeclinable(v) {
        lemma_seed_profile(INDECLINABLE, PROPER_NOUN);
    } else {
        lemma_pos_value(seed);
    }
    // The encoder emits the category prefix followed by the declension
    // tail.
    assert(spec_to_string(v) == spec_cng_string(pre, v));
    lemma_cng_string_shape(pre, v);
    let enc = pre + tail;
    assert(spec_to_string(v) == enc);
    // Bracket stripping leaves the token unchanged.
    assert(enc[0] == pre[0]);
    assert(enc[enc.len() - 1] == tail[tail.len() - 1]);
    assert(enc[enc.len() - 1] != '}' && enc[enc.len() - 1] != ']');
    assert(spec_stripped(enc) =~= enc);
    // The token is not a literal-table entry.
    if pre.len() == 1 {
        assert(enc[1] == tail[0]);
        assert(enc[1] == '-');
    }
    if pos == PROPER_NOUN && !spec_is_indeclinable(v) {
        assert(enc[1] == 'N');
    }
    if pos == PROPER_NOUN && spec_is_indeclinable(v) {
        assert(enc[1] == 'P');
        assert(enc[2] == 'N');
        assert(enc[3] == tail[0]);
        assert(enc[3] == '-');
    }
    lemma_not_literal(enc);
    // The category tag dispatches to the declinable sub-grammar with the
    // same seed.
    let pl = pre.len() as int;
    assert(enc.subrange(pl, enc.len() as int) =~= tail);
    if pos == PERSONAL_PRONOUN {
        assert(enc[2] == tail[1]);
        assert(enc[2] == case_letter(spec_case(v)));
        assert(enc[2] != '1' && enc[2] != '2');
        assert(spec_from_chars(enc) == spec_pcn(PERSONAL_PRONOUN, enc, 1));
        assert(spec_pcn(PERSONAL_PRONOUN, enc, 1) == spec_cng(PERSONAL_PRONOUN, enc, 1));
    } else {
        assert(spec_from_chars(enc) == spec_cng(seed, enc, pl));
    }
    assert(cng_tail_seq(v) == seq!['-'] + cng_tail_core(v));
    lemma_cng_parse_tail(seed, enc, pl, v, true);
    assert(spec_from_string(enc) == Decoded::Parsed(v));
}

/// Decoding a declension tail followed by a promotion suffix rebuilds
/// the promoted form.
#[verifier::rlimit(100)]
proof fn lemma_cng_parse_promoted(seed: u32, t: Seq<char>, i0: int, v: u32, base: u32, sfx: char)
    requires
        0 <= i0 <= t.len(),
        t.subrange(i0, t.len() as int) == (seq!['-'] + cng_tail_core(v)) + seq!['-', sfx],
        is_case_value(spec_case(v)),
        is_number_value(spec_number(v)),
        is_gender_value(spec_gender(v)),
        !spec_is_crasis(v),
        !spec_is_negative(v),
        spec_case(seed) == 0,
        spec_number(seed) == 0,
        spec_gender(seed) == 0,
        !spec_is_crasis(seed),
        !spec_is_negative(seed),
        spec_part_of_speech(seed) == base,
        (base == NOUN && ((sfx == 'S' && spec_part_of_speech(v) == SUPERLATIVE_NOUN) || (sfx
            == 'C' && spec_part_of_speech(v) == COMPARATIVE_NOUN))) || (base == ADJECTIVE && ((
        sfx == 'S' && spec_part_of_speech(v) == SUPERLATIVE_ADJECTIVE) || (sfx == 'C'
            && spec_part_of_speech(v) == COMPARATIVE_ADJECTIVE))),
        spec_is_interrogative(v) == spec_is_interrogative(seed),
        spec_is_correlative(v) == spec_is_correlative(seed),
        spec_is_indefinite(v) == spec_is_indefinite(seed),
        spec_is_indeclinable(v) == spec_is_indeclinable(seed),
        spec_tense(v) == spec_tense(seed),
        spec_voice(v) == spec_voice(seed),
        spec_mood(v) == spec_mood(seed),
        spec_person(v) == spec_person(seed),
        v & RESERVED_MASK == seed & RESERVED_MASK,
    ensures
        spec_cng(seed, t, i0) == Decoded::Parsed(v),
{
    let tail = (seq!['-'] + cng_tail_core(v)) + seq!['-', sfx];
    let cv = spec_case(v);
    let nv = spec_number(v);
    let gv = spec_gender(v);
    lemma_chain_fields(seed, cv, nv, gv);
    let p3 = ((seed | cv) | nv) | gv;
    lemma_union_zero(cv);
    lemma_union_zero(nv);
    lemma_union_zero(gv);
    let np = spec_part_of_speech(v);
    lemma_set_part_of_speech(p3, np);
    lemma_set_part_of_speech_reserved(p3, np);
    lemma_fields_determine(spec_set_part_of_speech(p3, np), v);
    let n = t.len() as int;
    assert(n - i0 == tail.len());
    assert(t.subrange(i0, n)[0] == t[i0]);
    assert(t.subrange(i0, n)[1] == t[i0 + 1]);
    assert(t.subrange(i0, n)[2] == t[i0 + 2]);
    assert(t.subrange(i0, n)[3] == t[i0 + 3]);
    assert(t.subrange(i0, n)[4] == t[i0 + 4]);
    if tail.len() > 5 {
        assert(t.subrange(i0, n)[5] == t[i0 + 5]);
    }
    assert(spec_case_of(case_letter(cv)) == Option::Some(cv));
    assert(spec_number_of(number_letter(nv)) != UNKNOWN);
    assert(spec_number_of(number_letter(nv)) == nv);
    if gv != 0 {
        assert(spec_gender_of(gender_letter(gv)) == Option::Some(gv));
        assert(gender_letter(gv) != '-');
    }
    assert(spec_gender_of('-') == Option::Some(0u32));
    let gl: int = if gv != 0 {
        1
    } else {
        0
    };
    assert(tail[0] == '-');
    assert(tail[1] == case_letter(cv));
    assert(tail[2] == number_letter(nv));
    if gv != 0 {
        assert(tail[3] == gender_letter(gv));
    }
    assert(tail[3 + gl] == '-');
    assert(tail[4 + gl] == sfx);
    assert(tail.len() == 5 + gl);
    if gv == 0 {
        lemma_union_zero((seed | cv) | nv);
        assert(p3 == (seed | cv) | nv);
    }
    assert(spec_cng(seed, t, i0) == Decoded::Parsed(v));
}

/// Round trip for the promoted superlative and comparative categories:
/// such a form encodes as its base category's token with a trailing
/// promotion suffix, which decodes back to the same form.
#[verifier::rlimit(100)]
pub proof fn lemma_rt_promoted(v: u32)
    requires
        spec_part_of_speech(v) == SUPERLATIVE_NOUN || spec_part_of_speech(v)
            == SUPERLATIVE_ADJECTIVE || spec_part_of_speech(v) == COMPARATIVE_NOUN
            || spec_part_of_speech(v) == COMPARATIVE_ADJECTIVE,
        spec_person(v) == 0,
        spec_tense(v) == 0,
        spec_voice(v) == 0,
        spec_mood(v) == 0,
        v & RESERVED_MASK == 0,
        is_case_value(spec_case(v)),
        is_number_value(spec_number(v)),
        is_gender_value(spec_gender(v)),
        !spec_is_interrogative(v),
        !spec_is_negative(v),
        !spec_is_correlative(v),
        !spec_is_indefinite(v),
        !spec_is_indeclinable(v),
        !spec_is_crasis(v),
    ensures
        spec_from_string(spec_to_string(v)) == Decoded::Parsed(v),
{
    lemma_literal_views();
    let pos = spec_part_of_speech(v);
    let noun_base = pos == SUPERLATIVE_NOUN || pos == COMPARATIVE_NOUN;
    let base: u32 = if noun_base {
        NOUN
    } else {
        ADJECTIVE
    };
    let pre: Seq<char> = if noun_base {
        "N"@
    } else {
        "A"@
    };
    let sfx: char = if pos == SUPERLATIVE_NOUN || pos == SUPERLATIVE_ADJECTIVE {
        'S'
    } else {
        'C'
    };
    lemma_pos_value(base);
    let sfxpart: Seq<char> = if sfx == 'S' {
        "-S"@
    } else {
        "-C"@
    };
    assert(spec_to_string(v) == spec_cng_string(pre, v) + sfxpart);
    lemma_cng_string_shape(pre, v);
    let tail = (seq!['-'] + cng_tail_core(v)) + seq!['-', sfx];
    let enc = pre + tail;
    assert(cng_tail_seq(v) == seq!['-'] + cng_tail_core(v));
    assert((pre + cng_tail_seq(v)) + sfxpart =~= enc);
    assert(spec_to_string(v) == enc);
    assert(enc[0] == pre[0]);
    assert(enc[enc.len() - 1] == 'S' || enc[enc.len() - 1] == 'C');
    assert(spec_stripped(enc) =~= enc);
    assert(enc[1] == tail[0]);
    assert(enc[1] == '-');
    assert(enc[2] == case_letter(spec_case(v)));
    assert(enc[3] == number_letter(spec_number(v)));
    lemma_not_literal(enc);
    assert(spec_from_chars(enc) == spec_cng(base, enc, 1));
    assert(enc.subrange(1, enc.len() as int) =~= tail);
    lemma_cng_parse_promoted(base, enc, 1, v, base, sfx);
    assert(spec_from_string(enc) == Decoded::Parsed(v));
}

/// The text the encoder writes for a stored tense value.
pub open spec fn tense_part(t: u32) -> Seq<char> {
    if t == SECOND_FUTURE {
        "-2F"@
    } else if t == SECOND_AORIST {
        "-2A"@
    } else if t == SECOND_PERFECT {
        "-2R"@
    } else if t == SECOND_PLUPERFECT {
        "-2L"@
    } else if t == PRESENT {
        "-P"@
    } else if t == IMPERFECT {
        "-I"@
    } else if t == FUTURE {
        "-F"@
    } else if t == AORIST {
        "-A"@
    } else if t == PERFECT {
        "-R"@
    } else {
        "-L"@
    }
}

/// Whether a tense value is a second formation.
pub open spec fn is_second_tense(t: u32) -> bool {
    t == SECOND_FUTURE || t == SECOND_AORIST || t == SECOND_PERFECT || t == SECOND_PLUPERFECT
}

/// The letter the encoder writes for a stored voice value.
pub open spec fn voice_part(vv: u32) -> Seq<char> {
    if vv == ACTIVE_VOICE {
        "A"@
    } else if vv == MIDDLE_VOICE {
        "M"@
    } else if vv == PASSIVE_VOICE {
        "P"@
    } else if vv == MIDDLE_PASSIVE_VOICE {
        "E"@
    } else if vv == MIDDLE_DEPONENT_VOICE {
        "D"@
    } else if vv == PASSIVE_DEPONENT_VOICE {
        "O"@
    } else {
        "N"@
    }
}

/// The letter the encoder writes for a stored mood value.
pub open spec fn mood_part(mv: u32) -> Seq<char> {
    if mv == INDICATIVE_MOOD {
        "I"@
    } else if mv == SUBJUNCTIVE_MOOD {
        "S"@
    } else if mv == OPTATIVE_MOOD {
        "O"@
    } else if mv == IMPERATIVE_MOOD {
        "M"@
    } else if mv == INFINITIVE_MOOD {
        "N"@
    } else {
        "P"@
    }
}

/// The text the encoder writes for a stored person value.
pub open spec fn person_part(pv: u32) -> Seq<char> {
    if pv == FIRST_PERSON {
        "-1"@
    } else if pv == SECOND_PERSON {
        "-2"@
    } else {
        "-3"@
    }
}

/// The head of an encoded verb token: the tag, tense, voice and mood.
pub open spec fn vp_head(v: u32) -> Seq<char> {
    (("V"@ + tense_part(spec_tense(v))) + voice_part(spec_voice(v))) + mood_part(spec_mood(v))
}

/// Field profile of the union chain the verb decoder builds for the
/// head.
proof fn lemma_verb_head_fields(tv: u32, vv: u32, mv: u32)
    requires
        is_tense_value(tv),
        is_voice_value(vv),
        is_mood_value(mv),
    ensures
        spec_part_of_speech(((VERB | tv) | vv) | mv) == VERB,
        spec_tense(((VERB | tv) | vv) | mv) == tv,
        spec_voice(((VERB | tv) | vv) | mv) == vv,
        spec_mood(((VERB | tv) | vv) | mv) == mv,
        spec_case(((VERB | tv) | vv) | mv) == 0,
        spec_number(((VERB | tv) | vv) | mv) == 0,
        spec_gender(((VERB | tv) | vv) | mv) == 0,
        spec_person(((VERB | tv) | vv) | mv) == 0,
        !spec_is_interrogative(((VERB | tv) | vv) | mv),
        !spec_is_negative(((VERB | tv) | vv) | mv),
        !spec_is_correlative(((VERB | tv) | vv) | mv),
        !spec_is_indefinite(((VERB | tv) | vv) | mv),
        !spec_is_indeclinable(((VERB | tv) | vv) | mv),
        !spec_is_crasis(((VERB | tv) | vv) | mv),
        (((VERB | tv) | vv) | mv) & RESERVED_MASK == 0,
{
    lemma_pos_value(VERB);
    lemma_tense_value(tv);
    lemma_voice_value(vv);
    lemma_mood_value(mv);
    lemma_union_fields(VERB, tv);
    lemma_union_fields(VERB | tv, vv);
    lemma_union_fields((VERB | tv) | vv, mv);
    lemma_union_zero(VERB);
    lemma_union_zero(tv);
    lemma_union_zero(vv);
    lemma_union_zero(mv);
    lemma_union_zero(0);
}

/// Character facts about an encoded verb head, and the walk of the
/// decoder over it: the head always leads to the verb sub-grammar state
/// after tense, voice and mood.
#[verifier::rlimit(100)]
proof fn lemma_vp_parse_head(enc: Seq<char>, v: u32)
    requires
        is_tense_value(spec_tense(v)),
        is_voice_value(spec_voice(v)),
        is_mood_value(spec_mood(v)),
        enc.len() >= vp_head(v).len(),
        enc.subrange(0, vp_head(v).len() as int) == vp_head(v),
    ensures
        spec_vp(VERB, enc, 1) == spec_vp_after_tense(
            VERB | spec_tense(v),
            enc,
            vp_head(v).len() - 2,
        ),
        spec_voice_of(enc[vp_head(v).len() - 2]) == Option::Some(spec_voice(v)),
        spec_mood_of(enc[vp_head(v).len() - 1]) == Option::Some(spec_mood(v)),
        enc[0] == 'V',
        enc[1] == '-',
        vp_head(v).len() == (if is_second_tense(spec_tense(v)) {
            6int
        } else {
            5int
        }),
{
    lemma_literal_views();
    let tv = spec_tense(v);
    let head = vp_head(v);
    let hl = head.len() as int;
    assert(enc.subrange(0, hl)[0] == enc[0]);
    assert(enc.subrange(0, hl)[1] == enc[1]);
    assert(enc.subrange(0, hl)[2] == enc[2]);
    assert(enc.subrange(0, hl)[3] == enc[3]);
    assert(enc.subrange(0, hl)[4] == enc[4]);
    if hl > 5 {
        assert(enc.subrange(0, hl)[5] == enc[5]);
    }
    assert(head[0] == 'V');
    assert(head[1] == '-');
    if is_second_tense(tv) {
        assert(head[2] == '2');
        assert(spec_second_tense_of(head[3]) == Option::Some(tv));
        assert(head.len() == 6);
    } else {
        assert(head[2] != '2');
        assert(spec_tense_of(head[2]) == Option::Some(tv));
        assert(head.len() == 5);
    }
    assert(spec_voice_of(head[hl - 2]) == Option::Some(spec_voice(v)));
    assert(spec_mood_of(head[hl - 1]) == Option::Some(spec_mood(v)));
    assert(spec_vp(VERB, enc, 1) == spec_vp_after_tense(VERB | tv, enc, hl - 2));
}

/// Round trip for finite verb forms: tense, voice, a non-participle
/// mood, person and number encode and decode to the same form.
#[verifier::rlimit(100)]
pub proof fn lemma_rt_verb_finite(v: u32)
    requires
        spec_part_of_speech(v) == VERB,
        is_tense_value(spec_tense(v)),
        is_voice_value(spec_voice(v)),
        is_mood_value(spec_mood(v)),
        spec_mood(v) != PARTICIPLE_MOOD,
        spec_person(v) == FIRST_PERSON || spec_person(v) == SECOND_PERSON || spec_person(v)
            == THIRD_PERSON,
        is_number_value(spec_number(v)),
        spec_case(v) == 0,
        spec_gender(v) == 0,
        !spec_is_interrogative(v),
        !spec_is_negative(v),
        !spec_is_correlative(v),
        !spec_is_indefinite(v),
        !spec_is_indeclinable(v),
        !spec_is_crasis(v),
        v & RESERVED_MASK == 0,
    ensures
        spec_from_string(spec_to_string(v)) == Decoded::Parsed(v),
{
    lemma_literal_views();
    let tv = spec_tense(v);
    let vv = spec_voice(v);
    let mv = spec_mood(v);
    let pv = spec_person(v);
    let nv = spec_number(v);
    let head = vp_head(v);
    let hl = head.len() as int;
    let npart: Seq<char> = if nv == SINGULAR {
        "S"@
    } else {
        "P"@
    };
    assert(spec_to_string(v) == spec_vp_string("V"@, v));
    let enc = (head + person_part(pv)) + npart;
    assert(spec_vp_string("V"@, v) == enc);
    assert(enc.subrange(0, hl) =~= head);
    lemma_vp_parse_head(enc, v);
    assert(enc[hl] == person_part(pv)[0]);
    assert(enc[hl] == '-');
    assert(enc[hl + 1] == person_part(pv)[1]);
    assert(spec_person_of(enc[hl + 1]) == pv);
    assert(enc[hl + 2] == npart[0]);
    assert(spec_number_of(enc[hl + 2]) == nv);
    assert(enc.len() == hl + 3);
    assert(enc[enc.len() - 1] == 'S' || enc[enc.len() - 1] == 'P');
    assert(spec_stripped(enc) =~= enc);
    lemma_not_literal(enc);
    assert(spec_from_chars(enc) == spec_vp(VERB, enc, 1));
    lemma_verb_head_fields(tv, vv, mv);
    let p2 = ((VERB | tv) | vv) | mv;
    lemma_union_fields(p2, pv);
    lemma_person_value(pv);
    lemma_union_fields(p2 | pv, nv);
    lemma_number_value(nv);
    lemma_union_zero(VERB);
    lemma_union_zero(tv);
    lemma_union_zero(vv);
    lemma_union_zero(mv);
    lemma_union_zero(pv);
    lemma_union_zero(nv);
    lemma_union_zero(0);
    lemma_fields_determine((p2 | pv) | nv, v);
    assert(spec_vp_after_tense(VERB | tv, enc, hl - 2) == Decoded::Parsed(v));
    assert(spec_from_string(enc) == Decoded::Parsed(v));
}

/// Round trip for bare infinitives: tense, voice and the infinitive
/// mood with no further fields encode and decode to the same form.
#[verifier::rlimit(100)]
pub proof fn lemma_rt_verb_infinitive(v: u32)
    requires
        spec_part_of_speech(v) == VERB,
        is_tense_value(spec_tense(v)),
        is_voice_value(spec_voice(v)),
        spec_mood(v) == INFINITIVE_MOOD,
        spec_person(v) == 0,
        spec_number(v) == 0,
        spec_case(v) == 0,
        spec_gender(v) == 0,
        !spec_is_interrogative(v),
        !spec_is_negative(v),
        !spec_is_correlative(v),
        !spec_is_indefinite(v),
        !spec_is_indeclinable(v),
        !spec_is_crasis(v),
        v & RESERVED_MASK == 0,
    ensures
        spec_from_string(spec_to_string(v)) == Decoded::Parsed(v),
{
    lemma_literal_views();
    let tv = spec_tense(v);
    let vv = spec_voice(v);
    let mv = spec_mood(v);
    let enc = vp_head(v);
    let hl = enc.len() as int;
    assert(spec_to_string(v) == spec_vp_string("V"@, v));
    assert(spec_vp_string("V"@, v) == enc);
    assert(enc.subrange(0, hl) =~= enc);
    lemma_vp_parse_head(enc, v);
    assert(enc[enc.len() - 1] == 'N');
    assert(spec_stripped(enc) =~= enc);
    lemma_not_literal(enc);
    assert(spec_from_chars(enc) == spec_vp(VERB, enc, 1));
    lemma_verb_head_fields(tv, vv, mv);
    lemma_fields_determine(((VERB | tv) | vv) | mv, v);
    assert(spec_vp_after_tense(VERB | tv, enc, hl - 2) == Decoded::Parsed(v));
    assert(spec_from_string(enc) == Decoded::Parsed(v));
}

/// Round trip for participles: tense, voice, the participle mood and a
/// declension with a gender or flag encode and decode to the same form.
#[verifier::rlimit(100)]
pub proof fn lemma_rt_verb_participle(v: u32)
    requires
        spec_part_of_speech(v) == VERB,
        is_tense_value(spec_tense(v)),
        is_voice_value(spec_voice(v)),
        spec_mood(v) == PARTICIPLE_MOOD,
        spec_person(v) == 0,
        is_case_value(spec_case(v)),
        is_number_value(spec_number(v)),
        is_gender_value(spec_gender(v)),
        !(spec_is_crasis(v) && spec_is_negative(v)),
        spec_gender(v) != 0 || spec_is_crasis(v) || spec_is_negative(v),
        !spec_is_interrogative(v),
        !spec_is_correlative(v),
        !spec_is_indefinite(v),
        !spec_is_indeclinable(v),
        v & RESERVED_MASK == 0,
    ensures
        spec_from_string(spec_to_string(v)) == Decoded::Parsed(v),
{
    lemma_literal_views();
    let tv = spec_tense(v);
    let vv = spec_voice(v);
    let mv = spec_mood(v);
    let head = vp_head(v);
    let hl = head.len() as int;
    let core = cng_tail_core(v);
    assert(spec_to_string(v) == spec_vp_string("V"@, v));
    lemma_cng_string_shape(head, v);
    assert(spec_vp_string("V"@, v) == spec_cng_string(head, v));
    assert(cng_tail_seq(v) == seq!['-'] + core);
    let enc = head + (seq!['-'] + core);
    assert(spec_vp_string("V"@, v) == enc);
    assert(enc.subrange(0, hl) =~= head);
    lemma_vp_parse_head(enc, v);
    assert(enc[hl] == '-');
    assert(core.len() >= 3);
    assert(enc[enc.len() - 1] != '}' && enc[enc.len() - 1] != ']');
    assert(spec_stripped(enc) =~= enc);
    lemma_not_literal(enc);
    assert(spec_from_chars(enc) == spec_vp(VERB, enc, 1));
    lemma_verb_head_fields(tv, vv, mv);
    let p2 = ((VERB | tv) | vv) | mv;
    assert(enc.len() - (hl + 1) == core.len());
    assert(spec_vp_after_tense(VERB | tv, enc, hl - 2) == spec_cng(p2, enc, hl + 1));
    assert(enc.subrange(hl + 1, enc.len() as int) =~= core);
    lemma_cng_parse_tail(p2, enc, hl + 1, v, false);
    assert(spec_from_string(enc) == Decoded::Parsed(v));
}

/// Round trip for first- and second-person personal pronouns: the
/// person digit, case and number (and crasis) encode and decode to the
/// same form.
#[verifier::rlimit(100)]
pub proof fn lemma_rt_personal(v: u32)
    requires
        spec_part_of_speech(v) == PERSONAL_PRONOUN,
        spec_person(v) == FIRST_PERSON || spec_person(v) == SECOND_PERSON,
        is_case_value(spec_case(v)),
        is_number_value(spec_number(v)),
        spec_gender(v) == 0,
        spec_tense(v) == 0,
        spec_voice(v) == 0,
        spec_mood(v) == 0,
        !spec_is_interrogative(v),
        !spec_is_negative(v),
        !spec_is_correlative(v),
        !spec_is_indefinite(v),
        !spec_is_indeclinable(v),
        v & RESERVED_MASK == 0,
    ensures
        spec_from_string(spec_to_string(v)) == Decoded::Parsed(v),
{
    lemma_literal_views();
    let pv = spec_person(v);
    let cv = spec_case(v);
    let nv = spec_number(v);
    let digit: char = if pv == FIRST_PERSON {
        '1'
    } else {
        '2'
    };
    let enc0 = seq!['P', '-', digit, case_letter(cv), number_letter(nv)];
    let enc: Seq<char> = if spec_is_crasis(v) {
        enc0 + seq!['-', 'K']
    } else {
        enc0
    };
    assert(spec_to_string(v) == spec_pcn_string("P"@, v));
    if spec_is_crasis(v) {
        assert(spec_pcn_string("P"@, v) =~= enc);
    } else {
        assert(spec_pcn_string("P"@, v) =~= enc);
    }
    assert(enc[0] == 'P');
    assert(enc[1] == '-');
    assert(enc[enc.len() - 1] != '}' && enc[enc.len() - 1] != ']');
    assert(spec_stripped(enc) =~= enc);
    lemma_not_literal(enc);
    assert(spec_from_chars(enc) == spec_pcn(PERSONAL_PRONOUN, enc, 1));
    assert(spec_person_of(digit) == pv);
    assert(spec_case_of(case_letter(cv)) == Option::Some(cv));
    assert(spec_number_of(number_letter(nv)) != UNKNOWN);
    assert(spec_number_of(number_letter(nv)) == nv);
    lemma_pos_value(PERSONAL_PRONOUN);
    lemma_person_value(pv);
    lemma_case_value(cv);
    lemma_number_value(nv);
    lemma_union_fields(PERSONAL_PRONOUN, pv);
    lemma_union_fields(PERSONAL_PRONOUN | pv, cv);
    lemma_union_fields((PERSONAL_PRONOUN | pv) | cv, nv);
    lemma_union_zero(PERSONAL_PRONOUN);
    lemma_union_zero(pv);
    lemma_union_zero(cv);
    lemma_union_zero(nv);
    lemma_union_zero(0);
    let p3 = ((PERSONAL_PRONOUN | pv) | cv) | nv;
    if spec_is_crasis(v) {
        lemma_union_fields(p3, CRASIS);
        lemma_flag_value(CRASIS);
        lemma_union_zero(spec_part_of_speech(p3));
        lemma_union_zero(spec_tense(p3));
        lemma_union_zero(spec_gender(p3));
        lemma_union_zero(spec_case(p3));
        lemma_union_zero(spec_voice(p3));
        lemma_union_zero(spec_mood(p3));
        lemma_union_zero(spec_person(p3));
        lemma_union_zero(spec_number(p3));
        lemma_union_zero(p3 & RESERVED_MASK);
        lemma_fields_determine(p3 | CRASIS, v);
    } else {
        lemma_fields_determine(p3, v);
    }
    assert(spec_pcn(PERSONAL_PRONOUN, enc, 1) == Decoded::Parsed(v));
    assert(spec_from_string(enc) == Decoded::Parsed(v));
}

/// Round trip for reflexive pronouns with a person digit: the digit and
/// the declension encode and decode to the same form.
#[verifier::rlimit(100)]
pub proof fn lemma_rt_reflexive(v: u32)
    requires
        spec_part_of_speech(v) == REFLEXIVE_PRONOUN,
        spec_person(v) == FIRST_PERSON || spec_person(v) == SECOND_PERSON || spec_person(v)
            == THIRD_PERSON,
        is_case_value(spec_case(v)),
        is_number_value(spec_number(v)),
        is_gender_value(spec_gender(v)),
        !(spec_is_crasis(v) && spec_is_negative(v)),
        spec_gender(v) != 0 || spec_is_crasis(v) || spec_is_negative(v),
        spec_tense(v) == 0,
        spec_voice(v) == 0,
        spec_mood(v) == 0,
        !spec_is_interrogative(v),
        !spec_is_correlative(v),
        !spec_is_indefinite(v),
        !spec_is_indeclinable(v),
        v & RESERVED_MASK == 0,
    ensures
        spec_from_string(spec_to_string(v)) == Decoded::Parsed(v),
{
    lemma_literal_views();
    let pv = spec_person(v);
    let digit: char = if pv == FIRST_PERSON {
        '1'
    } else if pv == SECOND_PERSON {
        '2'
    } else {
        '3'
    };
    let digitpart: Seq<char> = if pv == FIRST_PERSON {
        "1"@
    } else if pv == SECOND_PERSON {
        "2"@
    } else {
        "3"@
    };
    let core = cng_tail_core(v);
    assert(spec_to_string(v) == spec_cng_string(spec_fst_string("F-"@, v), v));
    assert(spec_fst_string("F-"@, v) == "F-"@ + digitpart);
    lemma_cng_string_shape("F-"@ + digitpart, v);
    assert(cng_tail_seq(v) == core);
    let pre = seq!['F', '-', digit];
    assert("F-"@ + digitpart =~= pre);
    let enc = pre + core;
    assert(spec_to_string(v) == enc);
    assert(enc[0] == 'F');
    assert(enc[1] == '-');
    assert(enc[2] == digit);
    assert(enc[enc.len() - 1] != '}' && enc[enc.len() - 1] != ']');
    assert(spec_stripped(enc) =~= enc);
    lemma_not_literal(enc);
    assert(spec_person_of(digit) == pv);
    assert(spec_from_chars(enc) == spec_reflexive(enc));
    assert(spec_reflexive(enc) == spec_cng(REFLEXIVE_PRONOUN | pv, enc, 3));
    lemma_pos_value(REFLEXIVE_PRONOUN);
    lemma_person_value(pv);
    lemma_union_fields(REFLEXIVE_PRONOUN, pv);
    lemma_union_zero(REFLEXIVE_PRONOUN);
    lemma_union_zero(pv);
    lemma_union_zero(0);
    assert(enc.subrange(3, enc.len() as int) =~= core);
    lemma_cng_parse_tail(REFLEXIVE_PRONOUN | pv, enc, 3, v, false);
    assert(spec_from_string(enc) == Decoded::Parsed(v));
}

/// Round trip for possessive pronouns with a person digit and referent
/// number: the prefix and the declension encode and decode to the same
/// form.
#[verifier::rlimit(100)]
pub proof fn lemma_rt_possessive(v: u32)
    requires
        spec_part_of_speech(v) == POSSESSIVE_PRONOUN,
        spec_person(v) == FIRST_PERSON || spec_person(v) == SECOND_PERSON,
        spec_tense(v) == REF_SINGULAR || spec_tense(v) == REF_PLURAL,
        is_case_value(spec_case(v)),
        is_number_value(spec_number(v)),
        is_gender_value(spec_gender(v)),
        !(spec_is_crasis(v) && spec_is_negative(v)),
        spec_gender(v) != 0 || spec_is_crasis(v) || spec_is_negative(v),
        spec_voice(v) == 0,
        spec_mood(v) == 0,
        !spec_is_interrogative(v),
        !spec_is_correlative(v),
        !spec_is_indefinite(v),
        !spec_is_indeclinable(v),
        v & RESERVED_MASK == 0,
    ensures
        spec_from_string(spec_to_string(v)) == Decoded::Parsed(v),
{
    lemma_literal_views();
    let pv = spec_person(v);
    let rv = spec_tense(v);
    assert(spec_ref_number(v) == rv) by {
        lemma_ref_tense_agree(v);
    }
    let digit: char = if pv == FIRST_PERSON {
        '1'
    } else {
        '2'
    };
    let refletter: char = if rv == REF_PLURAL {
        'P'
    } else {
        'S'
    };
    let pairpart: Seq<char> = if pv == FIRST_PERSON && rv == REF_SINGULAR {
        "1S"@
    } else if pv == SECOND_PERSON && rv == REF_SINGULAR {
        "2S"@
    } else if pv == FIRST_PERSON && rv == REF_PLURAL {
        "1P"@
    } else {
        "2P"@
    };
    let core = cng_tail_core(v);
    assert(spec_to_string(v) == spec_cng_string(spec_fs_ref_string("S-"@, v), v));
    assert(spec_fs_ref_string("S-"@, v) == "S-"@ + pairpart);
    lemma_cng_string_shape("S-"@ + pairpart, v);
    assert(cng_tail_seq(v) == core);
    let pre = seq!['S', '-', digit, refletter];
    assert("S-"@ + pairpart =~= pre);
    let enc = pre + core;
    assert(spec_to_string(v) == enc);
    assert(enc[0] == 'S');
    assert(enc[1] == '-');
    assert(enc[2] == digit);
    assert(enc[3] == refletter);
    assert(enc[enc.len() - 1] != '}' && enc[enc.len() - 1] != ']');
    assert(spec_stripped(enc) =~= enc);
    lemma_not_literal(enc);
    assert(spec_person_of(digit) == pv);
    assert(spec_ref_number_of(refletter) == rv);
    assert(enc.len() > 4);
    assert(spec_from_chars(enc) == spec_possessive(enc));
    assert(spec_possessive(enc) == spec_cng((POSSESSIVE_PRONOUN | pv) | rv, enc, 4));
    lemma_pos_value(POSSESSIVE_PRONOUN);
    lemma_person_value(pv);
    lemma_ref_number_value(rv);
    lemma_union_fields(POSSESSIVE_PRONOUN, pv);
    lemma_union_fields(POSSESSIVE_PRONOUN | pv, rv);
    lemma_union_zero(POSSESSIVE_PRONOUN);
    lemma_union_zero(pv);
    lemma_union_zero(rv);
    lemma_union_zero(0);
    assert(enc.subrange(4, enc.len() as int) =~= core);
    lemma_cng_parse_tail((POSSESSIVE_PRONOUN | pv) | rv, enc, 4, v, false);
    assert(spec_from_string(enc) == Decoded::Parsed(v));
}

/// In a possessive pronoun the referent number is the whole of the
/// tense field.
proof fn lemma_ref_tense_agree(v: u32)
    by (bit_vector)
    requires
        spec_tense(v) == REF_SINGULAR || spec_tense(v) == REF_PLURAL,
    ensures
        spec_ref_number(v) == spec_tense(v),
{
}

/// Round trip for the zero form and the bare reflexive and possessive
/// pronoun tags.
pub proof fn lemma_rt_special()
    ensures
        spec_from_string(spec_to_string(UNKNOWN)) == Decoded::Parsed(UNKNOWN),
        spec_from_string(spec_to_string(REFLEXIVE_PRONOUN)) == Decoded::Parsed(REFLEXIVE_PRONOUN),
        spec_from_string(spec_to_string(POSSESSIVE_PRONOUN)) == Decoded::Parsed(
            POSSESSIVE_PRONOUN,
        ),
{
    lemma_literal_views();
    lemma_pos_value(UNKNOWN);
    lemma_pos_value(REFLEXIVE_PRONOUN);
    lemma_pos_value(POSSESSIVE_PRONOUN);
    assert(spec_to_string(UNKNOWN) == Seq::<char>::empty());
    assert(spec_stripped(Seq::<char>::empty()).len() == 0);
    assert(spec_to_string(REFLEXIVE_PRONOUN) == "F-"@);
    assert(spec_stripped("F-"@) =~= "F-"@);
    lemma_not_literal("F-"@);
    assert(spec_from_chars("F-"@) == spec_reflexive("F-"@));
    assert(spec_reflexive("F-"@) == Decoded::Parsed(REFLEXIVE_PRONOUN));
    assert(spec_to_string(POSSESSIVE_PRONOUN) == "S-"@);
    assert(spec_stripped("S-"@) =~= "S-"@);
    lemma_not_literal("S-"@);
    assert(spec_from_chars("S-"@) == spec_possessive("S-"@));
    assert(spec_possessive("S-"@) == Decoded::Parsed(POSSESSIVE_PRONOUN));
}

/// Adding a crasis or negative flag changes no other field.
proof fn lemma_add_flag(x: u32, f: u32)
    requires
        f == CRASIS || f == NEGATIVE,
    ensures
        spec_part_of_speech(x | f) == spec_part_of_speech(x),
        spec_tense(x | f) == spec_tense(x),
        spec_gender(x | f) == spec_gender(x),
        spec_case(x | f) == spec_case(x),
        spec_voice(x | f) == spec_voice(x),
        spec_mood(x | f) == spec_mood(x),
        spec_person(x | f) == spec_person(x),
        spec_number(x | f) == spec_number(x),
        (x | f) & RESERVED_MASK == x & RESERVED_MASK,
        spec_is_interrogative(x | f) == spec_is_interrogative(x),
        spec_is_correlative(x | f) == spec_is_correlative(x),
        spec_is_indefinite(x | f) == spec_is_indefinite(x),
        spec_is_indeclinable(x | f) == spec_is_indeclinable(x),
        spec_is_crasis(x | f) == (spec_is_crasis(x) || f == CRASIS),
        spec_is_negative(x | f) == (spec_is_negative(x) || f == NEGATIVE),
{
    lemma_union_fields(x, f);
    lemma_flag_value(f);
    lemma_union_zero(spec_part_of_speech(x));
    lemma_union_zero(spec_tense(x));
    lemma_union_zero(spec_gender(x));
    lemma_union_zero(spec_case(x));
    lemma_union_zero(spec_voice(x));
    lemma_union_zero(spec_mood(x));
    lemma_union_zero(spec_person(x));
    lemma_union_zero(spec_number(x));
    lemma_union_zero(x & RESERVED_MASK);
}

/// A promotion written by the declension suffix: the promoted category
/// for a base category.
pub open spec fn promotion_pair(base: u32, np: u32) -> bool {
    (base == ADJECTIVE && (np == SUPERLATIVE_ADJECTIVE || np == COMPARATIVE_ADJECTIVE)) || (base
        == ADVERB && (np == SUPERLATIVE_ADVERB || np == COMPARATIVE_ADVERB)) || (base == NOUN && (
    np == SUPERLATIVE_NOUN || np == COMPARATIVE_NOUN))
}

/// What the declinable sub-grammar can build on top of a seed whose
/// case, number and gender fields are empty: a valid case and number, an
/// optional gender, at most one added crasis or negative flag, or a
/// promotion of the seed's category; every other field is the seed's.
pub open spec fn cng_built(seed: u32, v: u32) -> bool {
    is_case_value(spec_case(v)) && is_number_value(spec_number(v)) && is_gender_value(
        spec_gender(v),
    ) && spec_tense(v) == spec_tense(seed) && spec_voice(v) == spec_voice(seed) && spec_mood(v)
        == spec_mood(seed) && spec_person(v) == spec_person(seed) && v & RESERVED_MASK == seed
        & RESERVED_MASK && spec_is_interrogative(v) == spec_is_interrogative(seed)
        && spec_is_correlative(v) == spec_is_correlative(seed) && spec_is_indefinite(v)
        == spec_is_indefinite(seed) && spec_is_indeclinable(v) == spec_is_indeclinable(seed) && ((
    spec_part_of_speech(v) == spec_part_of_speech(seed) && ((spec_is_crasis(v) == spec_is_crasis(
        seed,
    ) && spec_is_negative(v) == spec_is_negative(seed)) || (spec_is_crasis(v)
        && spec_is_negative(v) == spec_is_negative(seed)) || (spec_is_negative(v)
        && spec_is_crasis(v) == spec_is_crasis(seed)))) || (promotion_pair(
        spec_part_of_speech(seed),
        spec_part_of_speech(v),
    ) && spec_is_crasis(v) == spec_is_crasis(seed) && spec_is_negative(v) == spec_is_negative(
        seed,
    )))
}

/// Whatever the declinable sub-grammar accepts, the resulting form is
/// the seed extended as `cng_built` says.
#[verifier::rlimit(100)]
pub proof fn lemma_cng_shape(seed: u32, s: Seq<char>, i0: int, v: u32)
    requires
        0 <= i0,
        spec_cng(seed, s, i0) == Decoded::Parsed(v),
        spec_case(seed) == 0,
        spec_number(seed) == 0,
        spec_gender(seed) == 0,
    ensures
        cng_built(seed, v),
{
    if i0 < s.len() {
        let i = if s[i0] == '-' {
            i0 + 1
        } else {
            i0
        };
        if i < s.len() {
            match spec_case_of(s[i]) {
                Option::None => {},
                Option::Some(cv) => {
                    let j = i + 1;
                    if j < s.len() && spec_number_of(s[j]) != UNKNOWN {
                        let nv = spec_number_of(s[j]);
                        lemma_chain_fields(seed, cv, nv, 0);
                        lemma_union_zero((seed | cv) | nv);
                        lemma_union_zero(cv);
                        lemma_union_zero(nv);
                        lemma_union_zero(0);
                        let k = j + 1;
                        if k >= s.len() {
                            assert(v == (seed | cv) | nv);
                            assert(cng_built(seed, v));
                        } else {
                            match spec_gender_of(s[k]) {
                                Option::None => {},
                                Option::Some(gv) => {
                                    lemma_chain_fields(seed, cv, nv, gv);
                                    lemma_union_zero(gv);
                                    let p3 = ((seed | cv) | nv) | gv;
                                    let m = if s[k] != '-' {
                                        k + 1
                                    } else {
                                        k
                                    };
                                    if m >= s.len() {
                                        assert(v == p3);
                                        assert(cng_built(seed, v));
                                    } else if s[m] != '-' && s[m] != ' ' {
                                    } else {
                                        let q = m + 1;
                                        if q >= s.len() {
                                            assert(v == p3);
                                            assert(cng_built(seed, v));
                                        } else {
                                            lemma_cng_suffix_shape(seed, s, i0, q, p3, v);
                                        }
                                    }
                                },
                            }
                        }
                    }
                },
            }
        }
    }
}

/// The suffix step of the declinable sub-grammar preserves the built
/// shape.
proof fn lemma_cng_suffix_shape(seed: u32, s: Seq<char>, i0: int, q: int, p3: u32, v: u32)
    requires
        0 <= q < s.len(),
        spec_cng_suffix(p3, s, i0, q) == Decoded::Parsed(v),
        spec_part_of_speech(p3) == spec_part_of_speech(seed),
        spec_is_interrogative(p3) == spec_is_interrogative(seed),
        spec_is_negative(p3) == spec_is_negative(seed),
        spec_is_correlative(p3) == spec_is_correlative(seed),
        spec_is_indefinite(p3) == spec_is_indefinite(seed),
        spec_is_indeclinable(p3) == spec_is_indeclinable(seed),
        spec_is_crasis(p3) == spec_is_crasis(seed),
        spec_tense(p3) == spec_tense(seed),
        spec_voice(p3) == spec_voice(seed),
        spec_mood(p3) == spec_mood(seed),
        spec_person(p3) == spec_person(seed),
        p3 & RESERVED_MASK == seed & RESERVED_MASK,
        is_case_value(spec_case(p3)),
        is_number_value(spec_number(p3)),
        is_gender_value(spec_gender(p3)),
    ensures
        cng_built(seed, v),
{
    let pos = spec_part_of_speech(p3);
    if s[q] == 'S' || s[q] == 's' {
        if pos == ADJECTIVE {
            lemma_set_part_of_speech(p3, SUPERLATIVE_ADJECTIVE);
            lemma_set_part_of_speech_reserved(p3, SUPERLATIVE_ADJECTIVE);
        } else if pos == ADVERB {
            lemma_set_part_of_speech(p3, SUPERLATIVE_ADVERB);
            lemma_set_part_of_speech_reserved(p3, SUPERLATIVE_ADVERB);
        } else if pos == NOUN {
            lemma_set_part_of_speech(p3, SUPERLATIVE_NOUN);
            lemma_set_part_of_speech_reserved(p3, SUPERLATIVE_NOUN);
        }
    } else if s[q] == 'C' || s[q] == 'c' {
        if pos == ADJECTIVE {
            lemma_set_part_of_speech(p3, COMPARATIVE_ADJECTIVE);
            lemma_set_part_of_speech_reserved(p3, COMPARATIVE_ADJECTIVE);
        } else if pos == ADVERB {
            lemma_set_part_of_speech(p3, COMPARATIVE_ADVERB);
            lemma_set_part_of_speech_reserved(p3, COMPARATIVE_ADVERB);
        } else if pos == NOUN {
            lemma_set_part_of_speech(p3, COMPARATIVE_NOUN);
            lemma_set_part_of_speech_reserved(p3, COMPARATIVE_NOUN);
        }
    } else if s[q] == 'K' || s[q] == 'k' {
        lemma_add_flag(p3, CRASIS);
    } else if s[q] == 'N' || s[q] == 'n' {
        lemma_add_flag(p3, NEGATIVE);
    }
}


} // verus!
