//! Mathematical model of the textual notation.
//!
//! Every function here is specification-only: `spec_from_chars` and its
//! sub-grammars say, character by character, what the decoder returns for
//! any input, and `spec_to_string` says what text the encoder produces for
//! any form. The executable codec in `string` is proved to follow these
//! definitions exactly, and the laws in `laws` are proved about them.

use vstd::prelude::*;

use crate::parse::{
    ACCUSATIVE, ACTIVE_VOICE, ADJECTIVE, ADVERB, AORIST, ARAMAIC_TRANSLITERATION, ARTICLE,
    COMPARATIVE_ADJECTIVE, COMPARATIVE_ADVERB, COMPARATIVE_NOUN, CONDITIONAL, CONJUNCTION,
    CORRELATIVE, CRASIS, DATIVE, DEMONSTRATIVE_PRONOUN, FEMININE, FIRST_PERSON, FUTURE, GENITIVE,
    HEBREW_TRANSLITERATION, IMPERATIVE_MOOD, IMPERFECT, INDECLINABLE, INDEFINITE, INDICATIVE_MOOD,
    INFINITIVE_MOOD, INTERJECTION, INTERROGATIVE, LETTER, MASCULINE, MIDDLE_DEPONENT_VOICE,
    MIDDLE_PASSIVE_DEPONENT_VOICE, MIDDLE_PASSIVE_VOICE, MIDDLE_VOICE, NEGATIVE, NEUTER,
    NOMINATIVE, NOUN, NUMERAL, OPTATIVE_MOOD, PARTICIPLE_MOOD, PARTICLE, PASSIVE_DEPONENT_VOICE,
    PASSIVE_VOICE, PERFECT, PERSONAL_PRONOUN, PLUPERFECT, PLURAL, POSSESSIVE_PRONOUN, PREPOSITION,
    PRESENT, PRONOUN, PROPER_NOUN, RECIPROCAL_PRONOUN, REFLEXIVE_PRONOUN, REF_PLURAL,
    REF_SINGULAR, RELATIVE_PRONOUN, SECOND_AORIST, SECOND_FUTURE, SECOND_PERFECT, SECOND_PERSON,
    SECOND_PLUPERFECT, SINGULAR, SUBJUNCTIVE_MOOD, SUPERLATIVE_ADJECTIVE, SUPERLATIVE_ADVERB,
    SUPERLATIVE_NOUN, THIRD_PERSON, TRANSLITERATION, UNKNOWN, VERB, VOCATIVE, spec_case,
    spec_gender, spec_is_correlative, spec_is_crasis, spec_is_indeclinable, spec_is_indefinite,
    spec_is_interrogative, spec_is_negative, spec_mood, spec_number, spec_part_of_speech,
    spec_person, spec_ref_number, spec_set_part_of_speech, spec_tense, spec_voice,
};

verus! {

/// Outcome of decoding a token: either a packed form, or a typed failure
/// carrying the partial form accumulated before the failure point.
pub enum Decoded {
    Parsed(u32),
    Incomplete(u32),
    UnexpectedCharacter(u32, char, int),
    UnknownCase(u32, char),
    UnknownTenseForm(u32, char),
    UnknownPerson(u32, char),
    UnknownNumber(u32, char),
    UnknownVoice(u32, char),
    UnknownGender(u32, char),
    UnknownMood(u32, char),
    UnknownPartOfSpeech(Seq<char>),
}

/// Number field selected by a number letter or digit; zero for any other
/// character.
pub open spec fn spec_number_of(c: char) -> u32 {
    if c == 'S' || c == 's' || c == '1' {
        SINGULAR
    } else if c == 'P' || c == 'p' || c == '2' {
        PLURAL
    } else {
        UNKNOWN
    }
}

/// Referent-number field selected by a number letter or digit; zero for
/// any other character.
pub open spec fn spec_ref_number_of(c: char) -> u32 {
    if c == 'S' || c == 's' || c == '1' {
        REF_SINGULAR
    } else if c == 'P' || c == 'p' || c == '2' {
        REF_PLURAL
    } else {
        UNKNOWN
    }
}

/// Person field selected by a person digit; zero for any other character.
pub open spec fn spec_person_of(c: char) -> u32 {
    if c == '1' {
        FIRST_PERSON
    } else if c == '2' {
        SECOND_PERSON
    } else if c == '3' {
        THIRD_PERSON
    } else {
        UNKNOWN
    }
}

/// Case field selected by a case letter.
pub open spec fn spec_case_of(c: char) -> Option<u32> {
    if c == 'N' || c == 'n' {
        Option::Some(NOMINATIVE)
    } else if c == 'A' || c == 'a' {
        Option::Some(ACCUSATIVE)
    } else if c == 'G' || c == 'g' {
        Option::Some(GENITIVE)
    } else if c == 'D' || c == 'd' {
        Option::Some(DATIVE)
    } else if c == 'V' || c == 'v' {
        Option::Some(VOCATIVE)
    } else {
        Option::None
    }
}

/// Gender field selected by a gender letter; the explicit "unspecified"
/// markers `U` and `-` contribute no bits.
pub open spec fn spec_gender_of(c: char) -> Option<u32> {
    if c == 'M' || c == 'm' {
        Option::Some(MASCULINE)
    } else if c == 'F' || c == 'f' {
        Option::Some(FEMININE)
    } else if c == 'N' || c == 'n' {
        Option::Some(NEUTER)
    } else if c == 'U' || c == 'u' || c == '-' {
        Option::Some(UNKNOWN)
    } else {
        Option::None
    }
}

/// Ordinary tense selected by a tense letter.
pub open spec fn spec_tense_of(c: char) -> Option<u32> {
    if c == 'P' || c == 'p' {
        Option::Some(PRESENT)
    } else if c == 'I' || c == 'i' {
        Option::Some(IMPERFECT)
    } else if c == 'F' || c == 'f' {
        Option::Some(FUTURE)
    } else if c == 'A' || c == 'a' {
        Option::Some(AORIST)
    } else if c == 'R' || c == 'r' {
        Option::Some(PERFECT)
    } else if c == 'L' || c == 'l' {
        Option::Some(PLUPERFECT)
    } else {
        Option::None
    }
}

/// Second-formation tense selected by the letter after a leading `2`.
pub open spec fn spec_second_tense_of(c: char) -> Option<u32> {
    if c == 'F' || c == 'f' {
        Option::Some(SECOND_FUTURE)
    } else if c == 'A' || c == 'a' {
        Option::Some(SECOND_AORIST)
    } else if c == 'R' || c == 'r' {
        Option::Some(SECOND_PERFECT)
    } else if c == 'L' || c == 'l' {
        Option::Some(SECOND_PLUPERFECT)
    } else {
        Option::None
    }
}

/// Voice selected by a voice letter.
pub open spec fn spec_voice_of(c: char) -> Option<u32> {
    if c == 'A' || c == 'a' {
        Option::Some(ACTIVE_VOICE)
    } else if c == 'M' || c == 'm' {
        Option::Some(MIDDLE_VOICE)
    } else if c == 'P' || c == 'p' {
        Option::Some(PASSIVE_VOICE)
    } else if c == 'E' || c == 'e' {
        Option::Some(MIDDLE_PASSIVE_VOICE)
    } else if c == 'D' || c == 'd' {
        Option::Some(MIDDLE_DEPONENT_VOICE)
    } else if c == 'O' || c == 'o' {
        Option::Some(PASSIVE_DEPONENT_VOICE)
    } else if c == 'N' || c == 'n' {
        Option::Some(MIDDLE_PASSIVE_DEPONENT_VOICE)
    } else {
        Option::None
    }
}

/// Mood selected by a mood letter.
pub open spec fn spec_mood_of(c: char) -> Option<u32> {
    if c == 'I' || c == 'i' {
        Option::Some(INDICATIVE_MOOD)
    } else if c == 'S' || c == 's' {
        Option::Some(SUBJUNCTIVE_MOOD)
    } else if c == 'O' || c == 'o' {
        Option::Some(OPTATIVE_MOOD)
    } else if c == 'M' || c == 'm' {
        Option::Some(IMPERATIVE_MOOD)
    } else if c == 'N' || c == 'n' {
        Option::Some(INFINITIVE_MOOD)
    } else if c == 'P' || c == 'p' {
        Option::Some(PARTICIPLE_MOOD)
    } else {
        Option::None
    }
}

/// The shared declinable sub-grammar: optional dash, mandatory case
/// letter, mandatory number letter, optional gender letter or
/// "unspecified" marker, then an optional suffix (`S`/`C` promotion to the
/// superlative/comparative category, `K` crasis, `N` negative). Error
/// indices are relative to `i0`.
pub open spec fn spec_cng(parsing: u32, s: Seq<char>, i0: int) -> Decoded {
    if s.len() <= i0 {
        Decoded::Incomplete(parsing)
    } else {
        let i = if s[i0] == '-' {
            i0 + 1
        } else {
            i0
        };
        if i >= s.len() {
            Decoded::Incomplete(parsing)
        } else {
            match spec_case_of(s[i]) {
                Option::None => Decoded::UnknownCase(parsing, s[i]),
                Option::Some(cv) => {
                    let p1 = parsing | cv;
                    let j = i + 1;
                    if j >= s.len() {
                        Decoded::Incomplete(p1)
                    } else if spec_number_of(s[j]) == UNKNOWN {
                        Decoded::UnknownPerson(p1, s[j])
                    } else {
                        let p2 = p1 | spec_number_of(s[j]);
                        let k = j + 1;
                        if k >= s.len() {
                            if spec_part_of_speech(p2) == NOUN || spec_part_of_speech(p2)
                                == ADJECTIVE || spec_part_of_speech(p2) == PROPER_NOUN
                                || spec_part_of_speech(p2) == PRONOUN {
                                Decoded::Parsed(p2)
                            } else {
                                Decoded::Incomplete(p2)
                            }
                        } else {
                            match spec_gender_of(s[k]) {
                                Option::None => Decoded::UnknownGender(p2, s[k]),
                                Option::Some(gv) => {
                                    let p3 = p2 | gv;
                                    let m = if s[k] != '-' {
                                        k + 1
                                    } else {
                                        k
                                    };
                                    if m >= s.len() {
                                        Decoded::Parsed(p3)
                                    } else if s[m] != '-' && s[m] != ' ' {
                                        Decoded::UnexpectedCharacter(p3, s[m], m - i0)
                                    } else {
                                        let q = m + 1;
                                        if q >= s.len() {
                                            Decoded::Parsed(p3)
                                        } else {
                                            spec_cng_suffix(p3, s, i0, q)
                                        }
                                    }
                                },
                            }
                        }
                    }
                },
            }
        }
    }
}

/// The trailing suffix of the declinable sub-grammar, at position `q`.
pub open spec fn spec_cng_suffix(p3: u32, s: Seq<char>, i0: int, q: int) -> Decoded {
    let pos = spec_part_of_speech(p3);
    if s[q] == 'S' || s[q] == 's' {
        if pos == ADJECTIVE {
            Decoded::Parsed(spec_set_part_of_speech(p3, SUPERLATIVE_ADJECTIVE))
        } else if pos == ADVERB {
            Decoded::Parsed(spec_set_part_of_speech(p3, SUPERLATIVE_ADVERB))
        } else if pos == NOUN {
            Decoded::Parsed(spec_set_part_of_speech(p3, SUPERLATIVE_NOUN))
        } else {
            Decoded::UnexpectedCharacter(p3, s[q], q - i0)
        }
    } else if s[q] == 'C' || s[q] == 'c' {
        if pos == ADJECTIVE {
            Decoded::Parsed(spec_set_part_of_speech(p3, COMPARATIVE_ADJECTIVE))
        } else if pos == ADVERB {
            Decoded::Parsed(spec_set_part_of_speech(p3, COMPARATIVE_ADVERB))
        } else if pos == NOUN {
            Decoded::Parsed(spec_set_part_of_speech(p3, COMPARATIVE_NOUN))
        } else {
            Decoded::UnexpectedCharacter(p3, s[q], q - i0)
        }
    } else if s[q] == 'K' || s[q] == 'k' {
        Decoded::Parsed(p3 | CRASIS)
    } else if s[q] == 'N' || s[q] == 'n' {
        Decoded::Parsed(p3 | NEGATIVE)
    } else {
        Decoded::UnexpectedCharacter(p3, s[q], q - i0)
    }
}

/// The verb sub-grammar: optional dash, tense (with the `2` prefix for a
/// second formation), voice, mood, optional dash, then either a
/// person-and-number ending, a participle declension, or nothing for an
/// infinitive.
pub open spec fn spec_vp(parsing: u32, s: Seq<char>, i0: int) -> Decoded {
    if s.len() <= i0 {
        Decoded::Incomplete(parsing)
    } else {
        let i = if s[i0] == '-' {
            i0 + 1
        } else {
            i0
        };
        if i >= s.len() {
            Decoded::Incomplete(parsing)
        } else if s[i] == '2' {
            if i + 1 >= s.len() {
                Decoded::UnknownTenseForm(parsing, '2')
            } else {
                match spec_second_tense_of(s[i + 1]) {
                    Option::None => Decoded::UnknownTenseForm(parsing, s[i + 1]),
                    Option::Some(tv) => spec_vp_after_tense(parsing | tv, s, i + 2),
                }
            }
        } else {
            match spec_tense_of(s[i]) {
                Option::None => Decoded::UnknownTenseForm(parsing, s[i]),
                Option::Some(tv) => spec_vp_after_tense(parsing | tv, s, i + 1),
            }
        }
    }
}

/// The verb sub-grammar after the tense letters: voice, mood, and the
/// ending.
pub open spec fn spec_vp_after_tense(parsing: u32, s: Seq<char>, i: int) -> Decoded {
    if i >= s.len() {
        Decoded::Incomplete(parsing)
    } else {
        match spec_voice_of(s[i]) {
            Option::None => Decoded::UnknownVoice(parsing, s[i]),
            Option::Some(vv) => {
                let p1 = parsing | vv;
                let j = i + 1;
                if j >= s.len() {
                    Decoded::Incomplete(p1)
                } else {
                    match spec_mood_of(s[j]) {
                        Option::None => Decoded::UnknownMood(p1, s[j]),
                        Option::Some(mv) => {
                            let p2 = p1 | mv;
                            let k0 = j + 1;
                            let k = if k0 < s.len() && s[k0] == '-' {
                                k0 + 1
                            } else {
                                k0
                            };
                            let remaining = s.len() - k;
                            if remaining == 2 {
                                Decoded::Parsed(
                                    p2 | spec_person_of(s[k]) | spec_number_of(s[k + 1]),
                                )
                            } else if remaining >= 3 {
                                spec_cng(p2, s, k)
                            } else if remaining == 0 && mv == INFINITIVE_MOOD {
                                Decoded::Parsed(p2)
                            } else {
                                Decoded::Incomplete(p2)
                            }
                        },
                    }
                }
            },
        }
    }
}

/// The personal-pronoun sub-grammar: optional dash; a first- or
/// second-person digit followed by case, number and an optional crasis
/// suffix; any other next character falls through unchanged to the
/// declinable sub-grammar.
pub open spec fn spec_pcn(parsing: u32, s: Seq<char>, i0: int) -> Decoded {
    if s.len() <= i0 {
        Decoded::Incomplete(parsing)
    } else {
        let i = if s[i0] == '-' {
            i0 + 1
        } else {
            i0
        };
        if i >= s.len() {
            Decoded::Incomplete(parsing)
        } else if s[i] == '1' || s[i] == '2' {
            let p1 = parsing | (if s[i] == '1' {
                FIRST_PERSON
            } else {
                SECOND_PERSON
            });
            let j = i + 1;
            if j >= s.len() {
                Decoded::Incomplete(p1)
            } else {
                match spec_case_of(s[j]) {
                    Option::None => Decoded::UnknownCase(p1, s[j]),
                    Option::Some(cv) => {
                        let p2 = p1 | cv;
                        let k = j + 1;
                        if k >= s.len() {
                            Decoded::Incomplete(p2)
                        } else if spec_number_of(s[k]) == UNKNOWN {
                            Decoded::UnknownNumber(p2, s[k])
                        } else {
                            let p3 = p2 | spec_number_of(s[k]);
                            let m = k + 1;
                            if m >= s.len() {
                                Decoded::Parsed(p3)
                            } else if s[m] != '-' && s[m] != ' ' {
                                Decoded::UnexpectedCharacter(p3, s[m], m - i0)
                            } else {
                                let q = m + 1;
                                if q >= s.len() {
                                    Decoded::Parsed(p3)
                                } else if s[q] == 'K' || s[q] == 'k' {
                                    Decoded::Parsed(p3 | CRASIS)
                                } else {
                                    Decoded::UnexpectedCharacter(p3, s[q], q - i0)
                                }
                            }
                        }
                    },
                }
            }
        } else {
            spec_cng(parsing, s, i0)
        }
    }
}

/// The reflexive-pronoun entry: after the `F` tag, an optional dash; a
/// bare `F-` is a complete reflexive pronoun, a bare `F` an incomplete
/// one; otherwise a person digit followed by the declinable sub-grammar.
pub open spec fn spec_reflexive(t: Seq<char>) -> Decoded {
    if t.len() <= 1 {
        Decoded::Incomplete(REFLEXIVE_PRONOUN)
    } else if t[1] == '-' {
        if t.len() <= 2 {
            Decoded::Parsed(REFLEXIVE_PRONOUN)
        } else {
            spec_cng(REFLEXIVE_PRONOUN | spec_person_of(t[2]), t, 3)
        }
    } else {
        spec_cng(REFLEXIVE_PRONOUN | spec_person_of(t[1]), t, 2)
    }
}

/// The possessive-pronoun entry: after the `S` tag, an optional dash;
/// with fewer than two characters left the bare possessive-pronoun tag is
/// returned; otherwise a person digit and a referent-number letter,
/// followed by the declinable sub-grammar.
pub open spec fn spec_possessive(t: Seq<char>) -> Decoded {
    if t.len() > 1 && t[1] == '-' {
        if t.len() <= 2 {
            Decoded::Parsed(POSSESSIVE_PRONOUN)
        } else if t.len() <= 4 {
            Decoded::Parsed(POSSESSIVE_PRONOUN)
        } else {
            spec_cng(
                POSSESSIVE_PRONOUN | spec_person_of(t[2]) | spec_ref_number_of(t[3]),
                t,
                4,
            )
        }
    } else {
        if t.len() <= 3 {
            Decoded::Parsed(POSSESSIVE_PRONOUN)
        } else {
            spec_cng(
                POSSESSIVE_PRONOUN | spec_person_of(t[1]) | spec_ref_number_of(t[2]),
                t,
                3,
            )
        }
    }
}

/// The fixed literal table: whole uninflected forms that decode (and,
/// apart from the `CONJ-P` alias, encode) as single tokens. Matching
/// ignores ASCII letter casing, as the whole textual boundary does.
pub open spec fn spec_literal(t: Seq<char>) -> Option<u32> {
    if spec_name_matches(t, "ADV"@) {
        Option::Some(ADVERB)
    } else if spec_name_matches(t, "ADV-I"@) {
        Option::Some(INTERROGATIVE | ADVERB)
    } else if spec_name_matches(t, "ADV-K"@) {
        Option::Some(CORRELATIVE | ADVERB)
    } else if spec_name_matches(t, "ADV-N"@) {
        Option::Some(NEGATIVE | ADVERB)
    } else if spec_name_matches(t, "ADV-C"@) {
        Option::Some(COMPARATIVE_ADVERB)
    } else if spec_name_matches(t, "ADV-S"@) {
        Option::Some(SUPERLATIVE_ADVERB)
    } else if spec_name_matches(t, "CONJ"@) {
        Option::Some(CONJUNCTION)
    } else if spec_name_matches(t, "CONJ-K"@) {
        Option::Some(CONJUNCTION | CRASIS)
    } else if spec_name_matches(t, "CONJ-P"@) {
        // Attested once in real corpora; treated as a plain conjunction.
        Option::Some(CONJUNCTION)
    } else if spec_name_matches(t, "CONJ-N"@) {
        Option::Some(NEGATIVE | CONJUNCTION)
    } else if spec_name_matches(t, "COND"@) {
        Option::Some(CONDITIONAL)
    } else if spec_name_matches(t, "COND-K"@) {
        Option::Some(CONDITIONAL | CRASIS)
    } else if spec_name_matches(t, "PRT"@) {
        Option::Some(PARTICLE)
    } else if spec_name_matches(t, "PRT-N"@) {
        Option::Some(NEGATIVE | PARTICLE)
    } else if spec_name_matches(t, "PRT-I"@) {
        Option::Some(INTERROGATIVE | PARTICLE)
    } else if spec_name_matches(t, "PREP"@) {
        Option::Some(PREPOSITION)
    } else if spec_name_matches(t, "INJ"@) {
        Option::Some(INTERJECTION)
    } else if spec_name_matches(t, "ARAM"@) {
        Option::Some(ARAMAIC_TRANSLITERATION)
    } else if spec_name_matches(t, "HEB"@) {
        Option::Some(HEBREW_TRANSLITERATION)
    } else if spec_name_matches(t, "N-PRI"@) {
        Option::Some(INDECLINABLE | PROPER_NOUN)
    } else if spec_name_matches(t, "A-NUI"@) {
        Option::Some(INDECLINABLE | NUMERAL)
    } else if spec_name_matches(t, "N-LI"@) {
        Option::Some(INDECLINABLE | LETTER)
    } else if spec_name_matches(t, "N-OI"@) {
        Option::Some(INDECLINABLE | NOUN)
    } else {
        Option::None
    }
}

/// End of the category tag: the number of characters before the first
/// `-`, at most four; four means the tag is too long and is rejected.
pub open spec fn spec_tag_end(t: Seq<char>) -> int {
    if t.len() > 1 && t[1] != '-' {
        if t.len() > 2 && t[2] != '-' {
            if t.len() > 3 && t[3] != '-' {
                4
            } else {
                3
            }
        } else {
            2
        }
    } else {
        1
    }
}

/// Decoding after bracket stripping: the literal table, then the category
/// tag, then the matching sub-grammar.
pub open spec fn spec_from_chars(t: Seq<char>) -> Decoded {
    if t.len() == 0 {
        Decoded::Parsed(UNKNOWN)
    } else {
        match spec_literal(t) {
            Option::Some(v) => Decoded::Parsed(v),
            Option::None => {
                let next = spec_tag_end(t);
                if next == 4 {
                    Decoded::UnknownPartOfSpeech(t.subrange(0, 4))
                } else if next == 1 {
                    spec_dispatch_one(t)
                } else if next == 2 {
                    if (t[0] == 'P' || t[0] == 'p') && (t[1] == 'N' || t[1] == 'n') {
                        spec_cng(PROPER_NOUN, t, 2)
                    } else {
                        Decoded::UnknownPartOfSpeech(t.subrange(0, 2))
                    }
                } else {
                    if (t[0] == 'I' || t[0] == 'i') && (t[1] == 'P' || t[1] == 'p') && (t[2] == 'N'
                        || t[2] == 'n') {
                        spec_cng(INDECLINABLE | PROPER_NOUN, t, 3)
                    } else {
                        Decoded::UnknownPartOfSpeech(t.subrange(0, 3))
                    }
                }
            },
        }
    }
}

/// Dispatch on a one-letter category tag.
pub open spec fn spec_dispatch_one(t: Seq<char>) -> Decoded {
    let c = t[0];
    if c == 'V' || c == 'v' {
        spec_vp(VERB, t, 1)
    } else if c == 'N' || c == 'n' {
        spec_cng(NOUN, t, 1)
    } else if c == 'A' || c == 'a' {
        spec_cng(ADJECTIVE, t, 1)
    } else if c == 'R' || c == 'r' {
        spec_cng(RELATIVE_PRONOUN, t, 1)
    } else if c == 'C' || c == 'c' {
        spec_cng(RECIPROCAL_PRONOUN, t, 1)
    } else if c == 'D' || c == 'd' {
        spec_cng(DEMONSTRATIVE_PRONOUN, t, 1)
    } else if c == 'T' || c == 't' {
        spec_cng(ARTICLE, t, 1)
    } else if c == 'O' || c == 'o' {
        spec_cng(PRONOUN, t, 1)
    } else if c == 'K' || c == 'k' {
        spec_cng(CORRELATIVE | PRONOUN, t, 1)
    } else if c == 'I' || c == 'i' {
        spec_cng(INTERROGATIVE | PRONOUN, t, 1)
    } else if c == 'X' || c == 'x' {
        spec_cng(INDEFINITE | PRONOUN, t, 1)
    } else if c == 'Q' || c == 'q' {
        spec_cng(CORRELATIVE | INTERROGATIVE | PRONOUN, t, 1)
    } else if c == 'F' || c == 'f' {
        spec_reflexive(t)
    } else if c == 'S' || c == 's' {
        spec_possessive(t)
    } else if c == 'P' || c == 'p' {
        spec_pcn(PERSONAL_PRONOUN, t, 1)
    } else {
        Decoded::UnknownPartOfSpeech(t.subrange(0, 1))
    }
}

/// The input text after stripping one leading `{`/`[` and one trailing
/// `}`/`]`, each independently of the other.
pub open spec fn spec_stripped(s: Seq<char>) -> Seq<char> {
    if s.len() == 0 {
        s
    } else {
        let start: int = if s[0] == '{' || s[0] == '[' {
            1
        } else {
            0
        };
        let end: int = if s[s.len() - 1] == '}' || s[s.len() - 1] == ']' {
            s.len() - 1
        } else {
            s.len() as int
        };
        if end <= start {
            Seq::empty()
        } else {
            s.subrange(start, end)
        }
    }
}

/// What decoding returns for any input text: bracket stripping, then the
/// grammar on what remains.
pub open spec fn spec_from_string(s: Seq<char>) -> Decoded {
    spec_from_chars(spec_stripped(s))
}

/// The declension tail of an encoded token: case letter (with a dash
/// except after a possessive or reflexive person prefix), number letter,
/// gender letter if any, then crasis and negative suffixes. Emission
/// stops at the first absent field, mirroring the decoder's left-to-right
/// dependency.
pub open spec fn spec_cng_string(s0: Seq<char>, parsed: u32) -> Seq<char> {
    let pos = spec_part_of_speech(parsed);
    let dash = pos != POSSESSIVE_PRONOUN && pos != REFLEXIVE_PRONOUN;
    let cv = spec_case(parsed);
    if !(cv == NOMINATIVE || cv == ACCUSATIVE || cv == GENITIVE || cv == DATIVE
        || cv == VOCATIVE) {
        s0
    } else {
        let s1 = if dash {
            s0 + "-"@
        } else {
            s0
        };
        let s2 = s1 + (if cv == NOMINATIVE {
            "N"@
        } else if cv == ACCUSATIVE {
            "A"@
        } else if cv == GENITIVE {
            "G"@
        } else if cv == DATIVE {
            "D"@
        } else {
            "V"@
        });
        let nv = spec_number(parsed);
        if !(nv == SINGULAR || nv == PLURAL) {
            s2
        } else {
            let s3 = s2 + (if nv == SINGULAR {
                "S"@
            } else {
                "P"@
            });
            let gv = spec_gender(parsed);
            let s4 = if gv == MASCULINE {
                s3 + "M"@
            } else if gv == FEMININE {
                s3 + "F"@
            } else if gv == NEUTER {
                s3 + "N"@
            } else {
                s3
            };
            let s5 = if spec_is_crasis(parsed) {
                s4 + "-K"@
            } else {
                s4
            };
            if spec_is_negative(parsed) {
                s5 + "-N"@
            } else {
                s5
            }
        }
    }
}

/// The verb tail of an encoded token: tense (with the `2` prefix for a
/// second formation), voice and mood letters, then either the participle
/// declension or a person-and-number ending.
pub open spec fn spec_vp_string(s0: Seq<char>, parsed: u32) -> Seq<char> {
    let tv = spec_tense(parsed);
    if !(tv == PRESENT || tv == IMPERFECT || tv == FUTURE || tv == AORIST || tv == PERFECT
        || tv == PLUPERFECT || tv == SECOND_FUTURE || tv == SECOND_AORIST || tv == SECOND_PERFECT
        || tv == SECOND_PLUPERFECT) {
        s0
    } else {
        let s1 = s0 + (if tv == SECOND_FUTURE {
            "-2F"@
        } else if tv == SECOND_AORIST {
            "-2A"@
        } else if tv == SECOND_PERFECT {
            "-2R"@
        } else if tv == SECOND_PLUPERFECT {
            "-2L"@
        } else if tv == PRESENT {
            "-P"@
        } else if tv == IMPERFECT {
            "-I"@
        } else if tv == FUTURE {
            "-F"@
        } else if tv == AORIST {
            "-A"@
        } else if tv == PERFECT {
            "-R"@
        } else {
            "-L"@
        });
        let vv = spec_voice(parsed);
        if !(vv == ACTIVE_VOICE || vv == MIDDLE_VOICE || vv == PASSIVE_VOICE
            || vv == MIDDLE_PASSIVE_VOICE || vv == MIDDLE_DEPONENT_VOICE
            || vv == PASSIVE_DEPONENT_VOICE || vv == MIDDLE_PASSIVE_DEPONENT_VOICE) {
            s1
        } else {
            let s2 = s1 + (if vv == ACTIVE_VOICE {
                "A"@
            } else if vv == MIDDLE_VOICE {
                "M"@
            } else if vv == PASSIVE_VOICE {
                "P"@
            } else if vv == MIDDLE_PASSIVE_VOICE {
                "E"@
            } else if vv == MIDDLE_DEPONENT_VOICE {
                "D"@
            } else if vv == PASSIVE_DEPONENT_VOICE {
                "O"@
            } else {
                "N"@
            });
            let mv = spec_mood(parsed);
            if !(mv == INDICATIVE_MOOD || mv == SUBJUNCTIVE_MOOD || mv == OPTATIVE_MOOD
                || mv == IMPERATIVE_MOOD || mv == INFINITIVE_MOOD || mv == PARTICIPLE_MOOD) {
                s2
            } else {
                let s3 = s2 + (if mv == INDICATIVE_MOOD {
                    "I"@
                } else if mv == SUBJUNCTIVE_MOOD {
                    "S"@
                } else if mv == OPTATIVE_MOOD {
                    "O"@
                } else if mv == IMPERATIVE_MOOD {
                    "M"@
                } else if mv == INFINITIVE_MOOD {
                    "N"@
                } else {
                    "P"@
                });
                if mv == PARTICIPLE_MOOD {
                    spec_cng_string(s3, parsed)
                } else {
                    let pv = spec_person(parsed);
                    if !(pv == FIRST_PERSON || pv == SECOND_PERSON || pv == THIRD_PERSON) {
                        s3
                    } else {
                        let s4 = s3 + (if pv == FIRST_PERSON {
                            "-1"@
                        } else if pv == SECOND_PERSON {
                            "-2"@
                        } else {
                            "-3"@
                        });
                        let nv = spec_number(parsed);
                        if nv == SINGULAR {
                            s4 + "S"@
                        } else if nv == PLURAL {
                            s4 + "P"@
                        } else {
                            s4
                        }
                    }
                }
            }
        }
    }
}

/// The person prefix of an encoded reflexive pronoun.
pub open spec fn spec_fst_string(s0: Seq<char>, parsed: u32) -> Seq<char> {
    let pv = spec_person(parsed);
    if pv == FIRST_PERSON {
        s0 + "1"@
    } else if pv == SECOND_PERSON {
        s0 + "2"@
    } else if pv == THIRD_PERSON {
        s0 + "3"@
    } else {
        s0
    }
}

/// The person and referent-number prefix of an encoded possessive
/// pronoun.
pub open spec fn spec_fs_ref_string(s0: Seq<char>, parsed: u32) -> Seq<char> {
    let pv = spec_person(parsed);
    let rv = spec_ref_number(parsed);
    if pv == FIRST_PERSON && rv == REF_SINGULAR {
        s0 + "1S"@
    } else if pv == SECOND_PERSON && rv == REF_SINGULAR {
        s0 + "2S"@
    } else if pv == FIRST_PERSON && rv == REF_PLURAL {
        s0 + "1P"@
    } else if pv == SECOND_PERSON && rv == REF_PLURAL {
        s0 + "2P"@
    } else {
        s0
    }
}

/// The tail of an encoded personal pronoun: a first- or second-person
/// digit with case, number and crasis, or the declinable tail for the
/// third person.
pub open spec fn spec_pcn_string(s0: Seq<char>, parsed: u32) -> Seq<char> {
    let pv = spec_person(parsed);
    if !(pv == FIRST_PERSON || pv == SECOND_PERSON) {
        spec_cng_string(s0, parsed)
    } else {
        let s1 = s0 + (if pv == FIRST_PERSON {
            "-1"@
        } else {
            "-2"@
        });
        let cv = spec_case(parsed);
        if !(cv == NOMINATIVE || cv == ACCUSATIVE || cv == GENITIVE || cv == DATIVE
            || cv == VOCATIVE) {
            s1
        } else {
            let s2 = s1 + (if cv == NOMINATIVE {
                "N"@
            } else if cv == ACCUSATIVE {
                "A"@
            } else if cv == GENITIVE {
                "G"@
            } else if cv == DATIVE {
                "D"@
            } else {
                "V"@
            });
            let nv = spec_number(parsed);
            let s3 = if nv == SINGULAR {
                s2 + "S"@
            } else if nv == PLURAL {
                s2 + "P"@
            } else {
                s2
            };
            if spec_is_crasis(parsed) {
                s3 + "-K"@
            } else {
                s3
            }
        }
    }
}

/// The category-specific tail of an encoded token, chosen by part of
/// speech; an unknown category encodes as the empty text.
pub open spec fn spec_to_string_tail(parsed: u32) -> Seq<char> {
    let pos = spec_part_of_speech(parsed);
    if pos == VERB {
        spec_vp_string("V"@, parsed)
    } else if pos == NOUN {
        spec_cng_string("N"@, parsed)
    } else if pos == ARTICLE {
        spec_cng_string("T"@, parsed)
    } else if pos == ADJECTIVE {
        spec_cng_string("A"@, parsed)
    } else if pos == RELATIVE_PRONOUN {
        spec_cng_string("R"@, parsed)
    } else if pos == RECIPROCAL_PRONOUN {
        spec_cng_string("C"@, parsed)
    } else if pos == DEMONSTRATIVE_PRONOUN {
        spec_cng_string("D"@, parsed)
    } else if pos == REFLEXIVE_PRONOUN {
        spec_cng_string(spec_fst_string("F-"@, parsed), parsed)
    } else if pos == POSSESSIVE_PRONOUN {
        spec_cng_string(spec_fs_ref_string("S-"@, parsed), parsed)
    } else if pos == PERSONAL_PRONOUN {
        spec_pcn_string("P"@, parsed)
    } else if pos == PROPER_NOUN {
        if spec_is_indeclinable(parsed) {
            spec_cng_string("IPN"@, parsed)
        } else {
            spec_cng_string("PN"@, parsed)
        }
    } else if pos == PRONOUN {
        if spec_is_correlative(parsed) && spec_is_interrogative(parsed) {
            spec_cng_string("Q"@, parsed)
        } else if spec_is_correlative(parsed) {
            spec_cng_string("K"@, parsed)
        } else if spec_is_interrogative(parsed) {
            spec_cng_string("I"@, parsed)
        } else if spec_is_indefinite(parsed) {
            spec_cng_string("X"@, parsed)
        } else {
            spec_cng_string("O"@, parsed)
        }
    } else if pos == SUPERLATIVE_NOUN {
        spec_cng_string("N"@, parsed) + "-S"@
    } else if pos == SUPERLATIVE_ADJECTIVE {
        spec_cng_string("A"@, parsed) + "-S"@
    } else if pos == COMPARATIVE_NOUN {
        spec_cng_string("N"@, parsed) + "-C"@
    } else if pos == COMPARATIVE_ADJECTIVE {
        spec_cng_string("A"@, parsed) + "-C"@
    } else {
        Seq::empty()
    }
}

/// What encoding returns for any form: first the literal shortcuts for
/// whole uninflected forms, then the category-specific tail.
pub open spec fn spec_to_string(parsed: u32) -> Seq<char> {
    let pos = spec_part_of_speech(parsed);
    if pos == ADVERB {
        if spec_is_interrogative(parsed) {
            "ADV-I"@
        } else if spec_is_negative(parsed) {
            "ADV-N"@
        } else if spec_is_correlative(parsed) {
            "ADV-K"@
        } else {
            "ADV"@
        }
    } else if pos == COMPARATIVE_ADVERB {
        "ADV-C"@
    } else if pos == SUPERLATIVE_ADVERB {
        "ADV-S"@
    } else if pos == CONJUNCTION {
        if spec_is_crasis(parsed) {
            "CONJ-K"@
        } else if spec_is_negative(parsed) {
            "CONJ-N"@
        } else {
            "CONJ"@
        }
    } else if pos == CONDITIONAL {
        if spec_is_crasis(parsed) {
            "COND-K"@
        } else {
            "COND"@
        }
    } else if pos == PARTICLE {
        if spec_is_negative(parsed) {
            "PRT-N"@
        } else if spec_is_interrogative(parsed) {
            "PRT-I"@
        } else {
            "PRT"@
        }
    } else if pos == PREPOSITION {
        "PREP"@
    } else if pos == INTERJECTION {
        "INJ"@
    } else if pos == ARAMAIC_TRANSLITERATION {
        "ARAM"@
    } else if pos == HEBREW_TRANSLITERATION {
        "HEB"@
    } else if pos == PROPER_NOUN && spec_is_indeclinable(parsed) && spec_case(parsed) == 0 {
        "N-PRI"@
    } else if pos == NUMERAL && spec_is_indeclinable(parsed) {
        "A-NUI"@
    } else if pos == LETTER && spec_is_indeclinable(parsed) {
        "N-LI"@
    } else if pos == NOUN && spec_is_indeclinable(parsed) {
        "N-OI"@
    } else {
        spec_to_string_tail(parsed)
    }
}

/// The capitalised English name of a part of speech, with spaces between
/// words; flags select a qualified sub-label for some categories.
pub open spec fn spec_pos_to_string(parsing: u32) -> Seq<char> {
    let pos = spec_part_of_speech(parsing);
    if pos == UNKNOWN {
        ""@
    } else if pos == PARTICLE {
        if spec_is_interrogative(parsing) {
            "Interrogative Particle"@
        } else {
            "Particle"@
        }
    } else if pos == VERB {
        "Verb"@
    } else if pos == NOUN {
        "Noun"@
    } else if pos == ADJECTIVE {
        "Adjective"@
    } else if pos == ADVERB {
        "Adverb"@
    } else if pos == CONJUNCTION {
        "Conjunction"@
    } else if pos == PROPER_NOUN {
        if spec_is_interrogative(parsing) {
            "Interrogative Proper Noun"@
        } else if spec_is_indeclinable(parsing) {
            "Indeclinable Proper Noun"@
        } else {
            "Proper Noun"@
        }
    } else if pos == PREPOSITION {
        "Preposition"@
    } else if pos == CONDITIONAL {
        "Conditional"@
    } else if pos == ARTICLE {
        "Definite Article"@
    } else if pos == INTERJECTION {
        "Interjection"@
    } else if pos == PRONOUN {
        if spec_is_interrogative(parsing) {
            "Interrogative Pronoun"@
        } else if spec_is_indefinite(parsing) {
            "Indefinite Pronoun"@
        } else {
            "Pronoun"@
        }
    } else if pos == PERSONAL_PRONOUN {
        "Personal Pronoun"@
    } else if pos == RELATIVE_PRONOUN {
        "Relative Pronoun"@
    } else if pos == RECIPROCAL_PRONOUN {
        "Reciprocal Pronoun"@
    } else if pos == DEMONSTRATIVE_PRONOUN {
        "Demonstrative Pronoun"@
    } else if pos == REFLEXIVE_PRONOUN {
        "Reflexive Pronoun"@
    } else if pos == POSSESSIVE_PRONOUN {
        "Posessive Pronoun"@
    } else if pos == SUPERLATIVE_NOUN {
        "Superlative Noun"@
    } else if pos == SUPERLATIVE_ADJECTIVE {
        "Superlative Adjective"@
    } else if pos == COMPARATIVE_NOUN {
        "Comparative Noun"@
    } else if pos == COMPARATIVE_ADJECTIVE {
        "Comparative Adjective"@
    } else if pos == TRANSLITERATION {
        "Transliteration"@
    } else if pos == HEBREW_TRANSLITERATION {
        "Hebrew Transliteration"@
    } else if pos == ARAMAIC_TRANSLITERATION {
        "Aramaic Transliteration"@
    } else if pos == NUMERAL {
        "Numeral"@
    } else if pos == LETTER {
        "Letter"@
    } else {
        ""@
    }
}

/// The capitalised English name of a part of speech with no spaces
/// between words; flags select a qualified sub-label for some categories.
pub open spec fn spec_pos_to_camel_case(parsing: u32) -> Seq<char> {
    let pos = spec_part_of_speech(parsing);
    if pos == UNKNOWN {
        "Unknown"@
    } else if pos == PARTICLE {
        if spec_is_interrogative(parsing) {
            "InterrogativeParticle"@
        } else {
            "Particle"@
        }
    } else if pos == VERB {
        "Verb"@
    } else if pos == NOUN {
        "Noun"@
    } else if pos == ADJECTIVE {
        "Adjective"@
    } else if pos == ARTICLE {
        "DefiniteArticle"@
    } else if pos == ADVERB {
        "Adverb"@
    } else if pos == PRONOUN {
        if spec_is_interrogative(parsing) {
            "InterrogativePronoun"@
        } else if spec_is_indefinite(parsing) {
            "IndefinitePronoun"@
        } else {
            "Pronoun"@
        }
    } else if pos == PREPOSITION {
        "Preposition"@
    } else if pos == CONJUNCTION {
        "Conjunction"@
    } else if pos == CONDITIONAL {
        "Conditional"@
    } else if pos == INTERJECTION {
        "Interjection"@
    } else if pos == RELATIVE_PRONOUN {
        "RelativePronoun"@
    } else if pos == RECIPROCAL_PRONOUN {
        "ReciprocalPronoun"@
    } else if pos == DEMONSTRATIVE_PRONOUN {
        "DemonstrativePronoun"@
    } else if pos == REFLEXIVE_PRONOUN {
        "ReflexivePronoun"@
    } else if pos == POSSESSIVE_PRONOUN {
        "PosessivePronoun"@
    } else if pos == PERSONAL_PRONOUN {
        "PersonalPronoun"@
    } else if pos == PROPER_NOUN {
        if spec_is_interrogative(parsing) {
            "InterrogativeProperNoun"@
        } else if spec_is_indeclinable(parsing) {
            "IndeclinableProperNoun"@
        } else {
            "ProperNoun"@
        }
    } else if pos == SUPERLATIVE_NOUN {
        "SuperlativeNoun"@
    } else if pos == SUPERLATIVE_ADJECTIVE {
        "SuperlativeAdjective"@
    } else if pos == COMPARATIVE_NOUN {
        "ComparativeNoun"@
    } else if pos == COMPARATIVE_ADJECTIVE {
        "ComparativeAdjective"@
    } else if pos == TRANSLITERATION {
        "Transliteration"@
    } else if pos == HEBREW_TRANSLITERATION {
        "HebrewTransliteration"@
    } else if pos == ARAMAIC_TRANSLITERATION {
        "AramaicTransliteration"@
    } else if pos == NUMERAL {
        "Numeral"@
    } else if pos == LETTER {
        "Letter"@
    } else {
        ""@
    }
}

/// The character used for lowercase-insensitive name comparison: ASCII
/// capital letters fold to their lowercase code points, everything else
/// compares by its own code point.
pub open spec fn spec_lower_code(c: char) -> u32 {
    if c as u32 >= 65 && c as u32 <= 90 {
        (c as u32 + 32) as u32
    } else {
        c as u32
    }
}

/// Whether a text equals a name, ignoring ASCII letter casing.
pub open spec fn spec_name_matches(s: Seq<char>, name: Seq<char>) -> bool {
    s.len() == name.len() && forall|i: int|
        0 <= i < s.len() ==> spec_lower_code(s[i]) == spec_lower_code(name[i])
}

/// The part-of-speech-plus-flags value named by an English label, in
/// either its spaced or concatenated rendering, ignoring ASCII letter
/// casing; unrecognized text names the zero value.
pub open spec fn spec_string_to_pos(s: Seq<char>) -> u32 {
    if spec_name_matches(s, "verb"@) {
        VERB
    } else if spec_name_matches(s, "noun"@) {
        NOUN
    } else if spec_name_matches(s, "article"@) || spec_name_matches(s, "definite article"@)
        || spec_name_matches(s, "definitearticle"@) {
        ARTICLE
    } else if spec_name_matches(s, "adverb"@) {
        ADVERB
    } else if spec_name_matches(s, "adjective"@) {
        ADJECTIVE
    } else if spec_name_matches(s, "pronoun"@) {
        PRONOUN
    } else if spec_name_matches(s, "particle"@) {
        PARTICLE
    } else if spec_name_matches(s, "preposition"@) {
        PREPOSITION
    } else if spec_name_matches(s, "conjunction"@) {
        CONJUNCTION
    } else if spec_name_matches(s, "conditional"@) {
        CONDITIONAL
    } else if spec_name_matches(s, "interjection"@) {
        INTERJECTION
    } else if spec_name_matches(s, "relative pronoun"@) || spec_name_matches(
        s,
        "relativepronoun"@,
    ) {
        RELATIVE_PRONOUN
    } else if spec_name_matches(s, "interrogative pronoun"@) || spec_name_matches(
        s,
        "interrogativepronoun"@,
    ) {
        PRONOUN | INTERROGATIVE
    } else if spec_name_matches(s, "indefinite pronoun"@) || spec_name_matches(
        s,
        "indefinitepronoun"@,
    ) {
        PRONOUN | INDEFINITE
    } else if spec_name_matches(s, "reciprocal pronoun"@) || spec_name_matches(
        s,
        "reciprocalpronoun"@,
    ) {
        RECIPROCAL_PRONOUN
    } else if spec_name_matches(s, "demonstrative pronoun"@) || spec_name_matches(
        s,
        "demonstrativepronoun"@,
    ) {
        DEMONSTRATIVE_PRONOUN
    } else if spec_name_matches(s, "reflexive pronoun"@) || spec_name_matches(
        s,
        "reflexivepronoun"@,
    ) {
        REFLEXIVE_PRONOUN
    } else if spec_name_matches(s, "posessive pronoun"@) || spec_name_matches(
        s,
        "posessivepronoun"@,
    ) {
        POSSESSIVE_PRONOUN
    } else if spec_name_matches(s, "personal pronoun"@) || spec_name_matches(
        s,
        "personalpronoun"@,
    ) {
        PERSONAL_PRONOUN
    } else if spec_name_matches(s, "interrogative proper noun"@) || spec_name_matches(
        s,
        "interrogativepropernoun"@,
    ) {
        PROPER_NOUN | INTERROGATIVE
    } else if spec_name_matches(s, "indeclinable proper noun"@) || spec_name_matches(
        s,
        "indeclinablepropernoun"@,
    ) {
        PROPER_NOUN | INDECLINABLE
    } else if spec_name_matches(s, "proper noun"@) || spec_name_matches(s, "propernoun"@) {
        PROPER_NOUN
    } else if spec_name_matches(s, "superlative noun"@) || spec_name_matches(
        s,
        "superlativenoun"@,
    ) {
        SUPERLATIVE_NOUN
    } else if spec_name_matches(s, "superlative adjective"@) || spec_name_matches(
        s,
        "superlativeadjective"@,
    ) {
        SUPERLATIVE_ADJECTIVE
    } else if spec_name_matches(s, "comparative noun"@) || spec_name_matches(
        s,
        "comparativenoun"@,
    ) {
        COMPARATIVE_NOUN
    } else if spec_name_matches(s, "comparative adjective"@) || spec_name_matches(
        s,
        "comparativeadjective"@,
    ) {
        COMPARATIVE_ADJECTIVE
    } else if spec_name_matches(s, "transliteration"@) {
        TRANSLITERATION
    } else if spec_name_matches(s, "hebrew transliteration"@) || spec_name_matches(
        s,
        "hebrewtransliteration"@,
    ) {
        HEBREW_TRANSLITERATION
    } else if spec_name_matches(s, "aramaic transliteration"@) || spec_name_matches(
        s,
        "aramaictransliteration"@,
    ) {
        ARAMAIC_TRANSLITERATION
    } else if spec_name_matches(s, "interrogative particle"@) || spec_name_matches(
        s,
        "interrogativeparticle"@,
    ) {
        INTERROGATIVE | PARTICLE
    } else if spec_name_matches(s, "letter"@) {
        LETTER
    } else if spec_name_matches(s, "numeral"@) {
        NUMERAL
    } else {
        UNKNOWN
    }
}

} // verus!
