//! The executable codec: decoding a textual morphology code into a packed
//! form, encoding a form back into its canonical text, and English-name
//! lookup for parts of speech.
//!
//! Every function is proved to return exactly what the corresponding
//! specification in `grammar` says.

use vstd::prelude::*;

use crate::grammar::{
    Decoded, spec_case_of, spec_cng, spec_cng_string, spec_from_string, spec_fs_ref_string,
    spec_fst_string, spec_gender_of, spec_literal, spec_lower_code, spec_mood_of,
    spec_name_matches, spec_number_of, spec_pcn, spec_pcn_string, spec_person_of,
    spec_pos_to_camel_case, spec_pos_to_string, spec_ref_number_of, spec_second_tense_of,
    spec_string_to_pos, spec_stripped, spec_tense_of, spec_to_string, spec_to_string_tail,
    spec_voice_of, spec_vp, spec_vp_string,
};
use crate::parse::{
    ACCUSATIVE, ACTIVE_VOICE, ADJECTIVE, ADVERB, AORIST, ARAMAIC_TRANSLITERATION, ARTICLE,
    COMPARATIVE_ADJECTIVE, COMPARATIVE_ADVERB, COMPARATIVE_NOUN, CONDITIONAL, CONJUNCTION,
    CORRELATIVE, CRASIS, DATIVE, DEMONSTRATIVE_PRONOUN, FEMININE, FIRST_PERSON, FUTURE, GENITIVE,
    HEBREW_TRANSLITERATION, IMPERATIVE_MOOD, IMPERFECT, INDECLINABLE, INDEFINITE, INDICATIVE_MOOD,
    INFINITIVE_MOOD, INTERJECTION, INTERROGATIVE, LETTER, MASCULINE, MIDDLE_DEPONENT_VOICE,
    MIDDLE_PASSIVE_DEPONENT_VOICE, MIDDLE_PASSIVE_VOICE, MIDDLE_VOICE, NEGATIVE, NEUTER,
    NOMINATIVE, NOUN, NUMERAL, OPTATIVE_MOOD, PARTICIPLE_MOOD, PARTICLE, PASSIVE_DEPONENT_VOICE,
    PASSIVE_VOICE, PERFECT, PERSONAL_PRONOUN, PLUPERFECT, PLURAL, POSSESSIVE_PRONOUN, PREPOSITION,
    PRESENT, PRONOUN, PROPER_NOUN, RECIPROCAL_PRONOUN, REFLEXIVE_PRONOUN, REF_PLURAL,
    REF_SINGULAR, RELATIVE_PRONOUN, SECOND_AORIST, SECOND_FUTURE, SECOND_PERFECT, SECOND_PERSON,
    SECOND_PLUPERFECT, SINGULAR, SUBJUNCTIVE_MOOD, SUPERLATIVE_ADJECTIVE, SUPERLATIVE_ADVERB,
    SUPERLATIVE_NOUN, THIRD_PERSON, TRANSLITERATION, UNKNOWN, VERB, VOCATIVE, case, gender,
    is_correlative, is_crasis, is_indeclinable, is_indefinite, is_interrogative, is_negative,
    mood, number, part_of_speech, person, ref_number, set_part_of_speech, tense, voice,
};

verus! {

/// A typed decoding failure. Every variant carries the partial form
/// accumulated before the failure point and, where relevant, the
/// offending character and its index.
#[derive(Debug, PartialEq)]
pub enum ParseError {
    Incomplete(u32),
    UnexpectedCharacter(u32, char, usize),
    UnknownCase(u32, char),
    UnknownTenseForm(u32, char),
    UnknownPerson(u32, char),
    UnknownNumber(u32, char),
    UnknownVoice(u32, char),
    UnknownGender(u32, char),
    UnknownMood(u32, char),
    UnknownPartOfSpeech(String),
}

/// The abstraction of a decoding result into the grammar's outcome model.
pub open spec fn decoded_of(r: Result<u32, ParseError>) -> Decoded {
    match r {
        Result::Ok(v) => Decoded::Parsed(v),
        Result::Err(e) => match e {
            ParseError::Incomplete(p) => Decoded::Incomplete(p),
            ParseError::UnexpectedCharacter(p, c, i) => Decoded::UnexpectedCharacter(
                p,
                c,
                i as int,
            ),
            ParseError::UnknownCase(p, c) => Decoded::UnknownCase(p, c),
            ParseError::UnknownTenseForm(p, c) => Decoded::UnknownTenseForm(p, c),
            ParseError::UnknownPerson(p, c) => Decoded::UnknownPerson(p, c),
            ParseError::UnknownNumber(p, c) => Decoded::UnknownNumber(p, c),
            ParseError::UnknownVoice(p, c) => Decoded::UnknownVoice(p, c),
            ParseError::UnknownGender(p, c) => Decoded::UnknownGender(p, c),
            ParseError::UnknownMood(p, c) => Decoded::UnknownMood(p, c),
            ParseError::UnknownPartOfSpeech(s) => Decoded::UnknownPartOfSpeech(s@),
        },
    }
}

/// Relies on String::push: appends exactly the given character.
#[verifier::external_body]
fn push_char(s: &mut String, c: char)
    ensures
        final(s)@ == old(s)@.push(c),
{
    s.push(c);
}

/// The characters of a string, in order, as a vector.
fn chars_of(code: &str) -> (r: Vec<char>)
    ensures
        r@ == code@,
{
    let n = code.unicode_len();
    let mut data: Vec<char> = Vec::new();
    let mut idx: usize = 0;
    while idx < n
        invariant
            n == code@.len(),
            idx <= n,
            data@.len() == idx,
            forall|k: int| 0 <= k < idx ==> data@[k] == code@[k],
        decreases n - idx,
    {
        data.push(code.get_char(idx));
        idx += 1;
    }
    proof {
        assert(data@ =~= code@);
    }
    data
}

/// The first `k` characters of the vector as an owned string.
fn take_string(w: &Vec<char>, k: usize) -> (r: String)
    requires
        k <= w@.len(),
    ensures
        r@ == w@.subrange(0, k as int),
{
    let mut s = String::new();
    let mut j: usize = 0;
    while j < k
        invariant
            k <= w@.len(),
            j <= k,
            s@.len() == j,
            forall|i: int| 0 <= i < j ==> s@[i] == w@[i],
        decreases k - j,
    {
        push_char(&mut s, w[j]);
        j += 1;
    }
    proof {
        assert(s@ =~= w@.subrange(0, k as int));
    }
    s
}

fn number_of(c: char) -> (r: u32)
    ensures
        r == spec_number_of(c),
{
    if c == 'S' || c == 's' || c == '1' {
        SINGULAR
    } else if c == 'P' || c == 'p' || c == '2' {
        PLURAL
    } else {
        UNKNOWN
    }
}

fn ref_number_of(c: char) -> (r: u32)
    ensures
        r == spec_ref_number_of(c),
{
    if c == 'S' || c == 's' || c == '1' {
        REF_SINGULAR
    } else if c == 'P' || c == 'p' || c == '2' {
        REF_PLURAL
    } else {
        UNKNOWN
    }
}

fn person_of(c: char) -> (r: u32)
    ensures
        r == spec_person_of(c),
{
    if c == '1' {
        FIRST_PERSON
    } else if c == '2' {
        SECOND_PERSON
    } else if c == '3' {
        THIRD_PERSON
    } else {
        UNKNOWN
    }
}

fn case_of(c: char) -> (r: Option<u32>)
    ensures
        r == spec_case_of(c),
{
    if c == 'N' || c == 'n' {
        Option::Some(NOMINATIVE)
    } else if c == 'A' || c == 'a' {
        Option::Some(ACCUSATIVE)
    } else if c == 'G' || c == 'g' {
        Option::Some(GENITIVE)
    } else if c == 'D' || c == 'd' {
        Option::Some(DATIVE)
    } else if c == 'V' || c == 'v' {
        Option::Some(VOCATIVE)
    } else {
        Option::None
    }
}

fn gender_of(c: char) -> (r: Option<u32>)
    ensures
        r == spec_gender_of(c),
{
    if c == 'M' || c == 'm' {
        Option::Some(MASCULINE)
    } else if c == 'F' || c == 'f' {
        Option::Some(FEMININE)
    } else if c == 'N' || c == 'n' {
        Option::Some(NEUTER)
    } else if c == 'U' || c == 'u' || c == '-' {
        Option::Some(UNKNOWN)
    } else {
        Option::None
    }
}

fn tense_of(c: char) -> (r: Option<u32>)
    ensures
        r == spec_tense_of(c),
{
    if c == 'P' || c == 'p' {
        Option::Some(PRESENT)
    } else if c == 'I' || c == 'i' {
        Option::Some(IMPERFECT)
    } else if c == 'F' || c == 'f' {
        Option::Some(FUTURE)
    } else if c == 'A' || c == 'a' {
        Option::Some(AORIST)
    } else if c == 'R' || c == 'r' {
        Option::Some(PERFECT)
    } else if c == 'L' || c == 'l' {
        Option::Some(PLUPERFECT)
    } else {
        Option::None
    }
}

fn second_tense_of(c: char) -> (r: Option<u32>)
    ensures
        r == spec_second_tense_of(c),
{
    if c == 'F' || c == 'f' {
        Option::Some(SECOND_FUTURE)
    } else if c == 'A' || c == 'a' {
        Option::Some(SECOND_AORIST)
    } else if c == 'R' || c == 'r' {
        Option::Some(SECOND_PERFECT)
    } else if c == 'L' || c == 'l' {
        Option::Some(SECOND_PLUPERFECT)
    } else {
        Option::None
    }
}

fn voice_of(c: char) -> (r: Option<u32>)
    ensures
        r == spec_voice_of(c),
{
    if c == 'A' || c == 'a' {
        Option::Some(ACTIVE_VOICE)
    } else if c == 'M' || c == 'm' {
        Option::Some(MIDDLE_VOICE)
    } else if c == 'P' || c == 'p' {
        Option::Some(PASSIVE_VOICE)
    } else if c == 'E' || c == 'e' {
        Option::Some(MIDDLE_PASSIVE_VOICE)
    } else if c == 'D' || c == 'd' {
        Option::Some(MIDDLE_DEPONENT_VOICE)
    } else if c == 'O' || c == 'o' {
        Option::Some(PASSIVE_DEPONENT_VOICE)
    } else if c == 'N' || c == 'n' {
        Option::Some(MIDDLE_PASSIVE_DEPONENT_VOICE)
    } else {
        Option::None
    }
}

fn mood_of(c: char) -> (r: Option<u32>)
    ensures
        r == spec_mood_of(c),
{
    if c == 'I' || c == 'i' {
        Option::Some(INDICATIVE_MOOD)
    } else if c == 'S' || c == 's' {
        Option::Some(SUBJUNCTIVE_MOOD)
    } else if c == 'O' || c == 'o' {
        Option::Some(OPTATIVE_MOOD)
    } else if c == 'M' || c == 'm' {
        Option::Some(IMPERATIVE_MOOD)
    } else if c == 'N' || c == 'n' {
        Option::Some(INFINITIVE_MOOD)
    } else if c == 'P' || c == 'p' {
        Option::Some(PARTICIPLE_MOOD)
    } else {
        Option::None
    }
}

/// The declinable sub-grammar on `w` starting at `i0`.
fn cng(parsing: u32, w: &Vec<char>, i0: usize) -> (r: Result<u32, ParseError>)
    ensures
        decoded_of(r) == spec_cng(parsing, w@, i0 as int),
{
    if w.len() <= i0 {
        return Err(ParseError::Incomplete(parsing));
    }
    let mut parsing = parsing;
    let mut index = i0;
    if w[index] == '-' {
        index += 1;
        if index >= w.len() {
            return Err(ParseError::Incomplete(parsing));
        }
    }
    let ci = w[index];
    let cv = match case_of(ci) {
        Option::Some(v) => v,
        Option::None => {
            return Err(ParseError::UnknownCase(parsing, ci));
        },
    };
    parsing = parsing | cv;
    index += 1;
    if index >= w.len() {
        return Err(ParseError::Incomplete(parsing));
    }
    let nc = w[index];
    let nv = number_of(nc);
    if nv == UNKNOWN {
        return Err(ParseError::UnknownPerson(parsing, nc));
    }
    parsing = parsing | nv;
    index += 1;
    if index >= w.len() {
        let pos = part_of_speech(parsing);
        if pos == NOUN || pos == ADJECTIVE || pos == PROPER_NOUN || pos == PRONOUN {
            return Ok(parsing);
        }
        return Err(ParseError::Incomplete(parsing));
    }
    let gc = w[index];
    let gv = match gender_of(gc) {
        Option::Some(v) => v,
        Option::None => {
            return Err(ParseError::UnknownGender(parsing, gc));
        },
    };
    parsing = parsing | gv;
    if gc != '-' {
        index += 1;
    }
    if index >= w.len() {
        return Ok(parsing);
    }
    let mc = w[index];
    if mc != '-' && mc != ' ' {
        return Err(ParseError::UnexpectedCharacter(parsing, mc, index - i0));
    }
    index += 1;
    if index >= w.len() {
        return Ok(parsing);
    }
    let sc = w[index];
    let pos = part_of_speech(parsing);
    if sc == 'S' || sc == 's' {
        if pos == ADJECTIVE {
            return Ok(set_part_of_speech(parsing, SUPERLATIVE_ADJECTIVE));
        }
        if pos == ADVERB {
            return Ok(set_part_of_speech(parsing, SUPERLATIVE_ADVERB));
        }
        if pos == NOUN {
            return Ok(set_part_of_speech(parsing, SUPERLATIVE_NOUN));
        }
    } else if sc == 'C' || sc == 'c' {
        if pos == ADJECTIVE {
            return Ok(set_part_of_speech(parsing, COMPARATIVE_ADJECTIVE));
        }
        if pos == ADVERB {
            return Ok(set_part_of_speech(parsing, COMPARATIVE_ADVERB));
        }
        if pos == NOUN {
            return Ok(set_part_of_speech(parsing, COMPARATIVE_NOUN));
        }
    } else if sc == 'K' || sc == 'k' {
        return Ok(parsing | CRASIS);
    } else if sc == 'N' || sc == 'n' {
        return Ok(parsing | NEGATIVE);
    }
    Err(ParseError::UnexpectedCharacter(parsing, sc, index - i0))
}

/// The verb sub-grammar on `w` starting at `i0`.
fn vp(parsing: u32, w: &Vec<char>, i0: usize) -> (r: Result<u32, ParseError>)
    ensures
        decoded_of(r) == spec_vp(parsing, w@, i0 as int),
{
    if w.len() <= i0 {
        return Err(ParseError::Incomplete(parsing));
    }
    let mut parsing = parsing;
    let mut index = i0;
    if w[index] == '-' {
        index += 1;
        if index >= w.len() {
            return Err(ParseError::Incomplete(parsing));
        }
    }
    if w[index] == '2' {
        index += 1;
        if index >= w.len() {
            return Err(ParseError::UnknownTenseForm(parsing, '2'));
        }
        let tc = w[index];
        let tv = match second_tense_of(tc) {
            Option::Some(v) => v,
            Option::None => {
                return Err(ParseError::UnknownTenseForm(parsing, tc));
            },
        };
        parsing = parsing | tv;
    } else {
        let tc = w[index];
        let tv = match tense_of(tc) {
            Option::Some(v) => v,
            Option::None => {
                return Err(ParseError::UnknownTenseForm(parsing, tc));
            },
        };
        parsing = parsing | tv;
    }
    index += 1;
    if index >= w.len() {
        return Err(ParseError::Incomplete(parsing));
    }
    let vc = w[index];
    let vv = match voice_of(vc) {
        Option::Some(v) => v,
        Option::None => {
            return Err(ParseError::UnknownVoice(parsing, vc));
        },
    };
    parsing = parsing | vv;
    index += 1;
    if index >= w.len() {
        return Err(ParseError::Incomplete(parsing));
    }
    let mc = w[index];
    let mv = match mood_of(mc) {
        Option::Some(v) => v,
        Option::None => {
            return Err(ParseError::UnknownMood(parsing, mc));
        },
    };
    parsing = parsing | mv;
    index += 1;
    if index < w.len() && w[index] == '-' {
        index += 1;
    }
    // Different verb types require different ending types.
    let remaining = w.len() - index;
    if remaining == 2 {
        parsing = parsing | person_of(w[index]);
        parsing = parsing | number_of(w[index + 1]);
        return Ok(parsing);
    } else if remaining >= 3 {
        return cng(parsing, w, index);
    } else if remaining == 0 && mv == INFINITIVE_MOOD {
        return Ok(parsing);
    }
    Err(ParseError::Incomplete(parsing))
}

/// The personal-pronoun sub-grammar on `w` starting at `i0`.
fn pcn(parsing: u32, w: &Vec<char>, i0: usize) -> (r: Result<u32, ParseError>)
    ensures
        decoded_of(r) == spec_pcn(parsing, w@, i0 as int),
{
    if w.len() <= i0 {
        return Err(ParseError::Incomplete(parsing));
    }
    let mut parsing = parsing;
    let mut index = i0;
    if w[index] == '-' {
        index += 1;
        if index >= w.len() {
            return Err(ParseError::Incomplete(parsing));
        }
    }
    if w[index] == '1' {
        parsing = parsing | FIRST_PERSON;
    } else if w[index] == '2' {
        parsing = parsing | SECOND_PERSON;
    } else {
        return cng(parsing, w, i0);
    }
    index += 1;
    if index >= w.len() {
        return Err(ParseError::Incomplete(parsing));
    }
    let ci = w[index];
    let cv = match case_of(ci) {
        Option::Some(v) => v,
        Option::None => {
            return Err(ParseError::UnknownCase(parsing, ci));
        },
    };
    parsing = parsing | cv;
    index += 1;
    if index >= w.len() {
        return Err(ParseError::Incomplete(parsing));
    }
    let nc = w[index];
    let nv = number_of(nc);
    if nv == UNKNOWN {
        return Err(ParseError::UnknownNumber(parsing, nc));
    }
    parsing = parsing | nv;
    index += 1;
    if index >= w.len() {
        return Ok(parsing);
    }
    let mc = w[index];
    if mc != '-' && mc != ' ' {
        return Err(ParseError::UnexpectedCharacter(parsing, mc, index - i0));
    }
    index += 1;
    if index >= w.len() {
        return Ok(parsing);
    }
    let sc = w[index];
    if sc == 'K' || sc == 'k' {
        return Ok(parsing | CRASIS);
    }
    Err(ParseError::UnexpectedCharacter(parsing, sc, index - i0))
}

/// Decodes a textual morphology code into its packed form, or into a
/// typed failure carrying the partial form read before the failure.
/// One leading `{`/`[` and one trailing `}`/`]` are stripped
/// independently; an empty remainder decodes to the zero form.
pub fn from_string(code: &str) -> (r: Result<u32, ParseError>)
    ensures
        decoded_of(r) == spec_from_string(code@),
{
    let data = chars_of(code);
    let len = data.len();
    if len == 0 {
        return Ok(UNKNOWN);
    }
    // Silently ignore starting or ending brackets.
    let mut start: usize = 0;
    let mut end: usize = len;
    if data[0] == '{' || data[0] == '[' {
        start = 1;
    }
    if data[end - 1] == '}' || data[end - 1] == ']' {
        end = end - 1;
    }
    if end <= start {
        return Ok(UNKNOWN);
    }
    let mut w: Vec<char> = Vec::new();
    let mut i = start;
    while i < end
        invariant
            start <= i <= end,
            end <= data@.len(),
            w@.len() == i - start,
            forall|k: int| 0 <= k < i - start ==> w@[k] == data@[start + k],
        decreases end - i,
    {
        w.push(data[i]);
        i += 1;
    }
    proof {
        assert(w@ =~= data@.subrange(start as int, end as int));
        assert(w@ == spec_stripped(code@));
    }

    if let Option::Some(v) = literal_lookup(&w) {
        return Ok(v);
    }

    // Capture the first few characters up to a `-`.
    let mut next: usize = 1;
    if w.len() > 1 && w[1] != '-' {
        next = 2;
        if w.len() > 2 && w[2] != '-' {
            next = 3;
            if w.len() > 3 && w[3] != '-' {
                return Err(ParseError::UnknownPartOfSpeech(take_string(&w, 4)));
            }
        }
    }

    if next == 1 {
        let c = w[0];
        if c == 'V' || c == 'v' {
            return vp(VERB, &w, 1);
        } else if c == 'N' || c == 'n' {
            return cng(NOUN, &w, 1);
        } else if c == 'A' || c == 'a' {
            return cng(ADJECTIVE, &w, 1);
        } else if c == 'R' || c == 'r' {
            return cng(RELATIVE_PRONOUN, &w, 1);
        } else if c == 'C' || c == 'c' {
            return cng(RECIPROCAL_PRONOUN, &w, 1);
        } else if c == 'D' || c == 'd' {
            return cng(DEMONSTRATIVE_PRONOUN, &w, 1);
        } else if c == 'T' || c == 't' {
            return cng(ARTICLE, &w, 1);
        } else if c == 'O' || c == 'o' {
            return cng(PRONOUN, &w, 1);
        } else if c == 'K' || c == 'k' {
            return cng(CORRELATIVE | PRONOUN, &w, 1);
        } else if c == 'I' || c == 'i' {
            return cng(INTERROGATIVE | PRONOUN, &w, 1);
        } else if c == 'X' || c == 'x' {
            return cng(INDEFINITE | PRONOUN, &w, 1);
        } else if c == 'Q' || c == 'q' {
            return cng(CORRELATIVE | INTERROGATIVE | PRONOUN, &w, 1);
        } else if c == 'F' || c == 'f' {
            if w.len() <= 1 {
                return Err(ParseError::Incomplete(REFLEXIVE_PRONOUN));
            }
            if w[1] == '-' {
                if w.len() <= 2 {
                    return Ok(REFLEXIVE_PRONOUN);
                }
                return cng(REFLEXIVE_PRONOUN | person_of(w[2]), &w, 3);
            }
            return cng(REFLEXIVE_PRONOUN | person_of(w[1]), &w, 2);
        } else if c == 'S' || c == 's' {
            if w.len() > 1 && w[1] == '-' {
                if w.len() <= 2 {
                    return Ok(POSSESSIVE_PRONOUN);
                }
                if w.len() <= 4 {
                    return Ok(POSSESSIVE_PRONOUN);
                }
                return cng(
                    POSSESSIVE_PRONOUN | person_of(w[2]) | ref_number_of(w[3]),
                    &w,
                    4,
                );
            }
            if w.len() <= 3 {
                return Ok(POSSESSIVE_PRONOUN);
            }
            return cng(
                POSSESSIVE_PRONOUN | person_of(w[1]) | ref_number_of(w[2]),
                &w,
                3,
            );
        } else if c == 'P' || c == 'p' {
            return pcn(PERSONAL_PRONOUN, &w, 1);
        } else {
            return Err(ParseError::UnknownPartOfSpeech(take_string(&w, 1)));
        }
    } else if next == 2 {
        if (w[0] == 'P' || w[0] == 'p') && (w[1] == 'N' || w[1] == 'n') {
            return cng(PROPER_NOUN, &w, 2);
        }
        return Err(ParseError::UnknownPartOfSpeech(take_string(&w, 2)));
    } else {
        if (w[0] == 'I' || w[0] == 'i') && (w[1] == 'P' || w[1] == 'p') && (w[2] == 'N' || w[2]
            == 'n') {
            return cng(INDECLINABLE | PROPER_NOUN, &w, 3);
        }
        return Err(ParseError::UnknownPartOfSpeech(take_string(&w, 3)));
    }
}

/// The literal-table lookup on the bracket-stripped characters, ignoring
/// ASCII letter casing.
fn literal_lookup(w: &Vec<char>) -> (r: Option<u32>)
    ensures
        r == spec_literal(w@),
{
    if name_matches(w, "ADV") {
        Option::Some(ADVERB)
    } else if name_matches(w, "ADV-I") {
        Option::Some(INTERROGATIVE | ADVERB)
    } else if name_matches(w, "ADV-K") {
        Option::Some(CORRELATIVE | ADVERB)
    } else if name_matches(w, "ADV-N") {
        Option::Some(NEGATIVE | ADVERB)
    } else if name_matches(w, "ADV-C") {
        Option::Some(COMPARATIVE_ADVERB)
    } else if name_matches(w, "ADV-S") {
        Option::Some(SUPERLATIVE_ADVERB)
    } else if name_matches(w, "CONJ") {
        Option::Some(CONJUNCTION)
    } else if name_matches(w, "CONJ-K") {
        Option::Some(CONJUNCTION | CRASIS)
    } else if name_matches(w, "CONJ-P") {
        Option::Some(CONJUNCTION)
    } else if name_matches(w, "CONJ-N") {
        Option::Some(NEGATIVE | CONJUNCTION)
    } else if name_matches(w, "COND") {
        Option::Some(CONDITIONAL)
    } else if name_matches(w, "COND-K") {
        Option::Some(CONDITIONAL | CRASIS)
    } else if name_matches(w, "PRT") {
        Option::Some(PARTICLE)
    } else if name_matches(w, "PRT-N") {
        Option::Some(NEGATIVE | PARTICLE)
    } else if name_matches(w, "PRT-I") {
        Option::Some(INTERROGATIVE | PARTICLE)
    } else if name_matches(w, "PREP") {
        Option::Some(PREPOSITION)
    } else if name_matches(w, "INJ") {
        Option::Some(INTERJECTION)
    } else if name_matches(w, "ARAM") {
        Option::Some(ARAMAIC_TRANSLITERATION)
    } else if name_matches(w, "HEB") {
        Option::Some(HEBREW_TRANSLITERATION)
    } else if name_matches(w, "N-PRI") {
        Option::Some(INDECLINABLE | PROPER_NOUN)
    } else if name_matches(w, "A-NUI") {
        Option::Some(INDECLINABLE | NUMERAL)
    } else if name_matches(w, "N-LI") {
        Option::Some(INDECLINABLE | LETTER)
    } else if name_matches(w, "N-OI") {
        Option::Some(INDECLINABLE | NOUN)
    } else {
        Option::None
    }
}

/// Appends the declension tail: case, number, gender, then crasis and
/// negative suffixes, stopping at the first absent field.
fn cng_string(s: String, parsed: u32) -> (r: String)
    ensures
        r@ == spec_cng_string(s@, parsed),
{
    let mut s = s;
    let pos = part_of_speech(parsed);
    let dash = pos != POSSESSIVE_PRONOUN && pos != REFLEXIVE_PRONOUN;
    let cv = case(parsed);
    if cv == NOMINATIVE {
        if dash {
            s.append("-");
        }
        s.append("N");
    } else if cv == ACCUSATIVE {
        if dash {
            s.append("-");
        }
        s.append("A");
    } else if cv == GENITIVE {
        if dash {
            s.append("-");
        }
        s.append("G");
    } else if cv == DATIVE {
        if dash {
            s.append("-");
        }
        s.append("D");
    } else if cv == VOCATIVE {
        if dash {
            s.append("-");
        }
        s.append("V");
    } else {
        return s;
    }
    let nv = number(parsed);
    if nv == SINGULAR {
        s.append("S");
    } else if nv == PLURAL {
        s.append("P");
    } else {
        return s;
    }
    let gv = gender(parsed);
    if gv == MASCULINE {
        s.append("M");
    } else if gv == FEMININE {
        s.append("F");
    } else if gv == NEUTER {
        s.append("N");
    }
    // This library recognises an explicit `U` but does not produce one.
    if is_crasis(parsed) {
        s.append("-K");
    }
    if is_negative(parsed) {
        s.append("-N");
    }
    s
}

/// Appends the verb tail: tense, voice and mood letters, then the
/// participle declension or a person-and-number ending.
fn vp_string(s: String, parsed: u32) -> (r: String)
    ensures
        r@ == spec_vp_string(s@, parsed),
{
    let mut s = s;
    let tv = tense(parsed);
    if tv == SECOND_FUTURE {
        s.append("-2F");
    } else if tv == SECOND_AORIST {
        s.append("-2A");
    } else if tv == SECOND_PERFECT {
        s.append("-2R");
    } else if tv == SECOND_PLUPERFECT {
        s.append("-2L");
    } else if tv == PRESENT {
        s.append("-P");
    } else if tv == IMPERFECT {
        s.append("-I");
    } else if tv == FUTURE {
        s.append("-F");
    } else if tv == AORIST {
        s.append("-A");
    } else if tv == PERFECT {
        s.append("-R");
    } else if tv == PLUPERFECT {
        s.append("-L");
    } else {
        return s;
    }
    let vv = voice(parsed);
    if vv == ACTIVE_VOICE {
        s.append("A");
    } else if vv == MIDDLE_VOICE {
        s.append("M");
    } else if vv == PASSIVE_VOICE {
        s.append("P");
    } else if vv == MIDDLE_PASSIVE_VOICE {
        s.append("E");
    } else if vv == MIDDLE_DEPONENT_VOICE {
        s.append("D");
    } else if vv == PASSIVE_DEPONENT_VOICE {
        s.append("O");
    } else if vv == MIDDLE_PASSIVE_DEPONENT_VOICE {
        s.append("N");
    } else {
        return s;
    }
    let mv = mood(parsed);
    if mv == INDICATIVE_MOOD {
        s.append("I");
    } else if mv == SUBJUNCTIVE_MOOD {
        s.append("S");
    } else if mv == OPTATIVE_MOOD {
        s.append("O");
    } else if mv == IMPERATIVE_MOOD {
        s.append("M");
    } else if mv == INFINITIVE_MOOD {
        s.append("N");
    } else if mv == PARTICIPLE_MOOD {
        s.append("P");
    } else {
        return s;
    }
    if mv == PARTICIPLE_MOOD {
        return cng_string(s, parsed);
    }
    let pv = person(parsed);
    if pv == FIRST_PERSON {
        s.append("-1");
    } else if pv == SECOND_PERSON {
        s.append("-2");
    } else if pv == THIRD_PERSON {
        s.append("-3");
    } else {
        return s;
    }
    let nv = number(parsed);
    if nv == SINGULAR {
        s.append("S");
    } else if nv == PLURAL {
        s.append("P");
    }
    s
}

/// Appends the person prefix of a reflexive pronoun.
fn fst_string(s: String, parsed: u32) -> (r: String)
    ensures
        r@ == spec_fst_string(s@, parsed),
{
    let mut s = s;
    let pv = person(parsed);
    if pv == FIRST_PERSON {
        s.append("1");
    } else if pv == SECOND_PERSON {
        s.append("2");
    } else if pv == THIRD_PERSON {
        s.append("3");
    }
    s
}

/// Appends the person and referent-number prefix of a possessive
/// pronoun.
fn fs_ref_string(s: String, parsed: u32) -> (r: String)
    ensures
        r@ == spec_fs_ref_string(s@, parsed),
{
    let mut s = s;
    let pv = person(parsed);
    let rv = ref_number(parsed);
    if pv == FIRST_PERSON && rv == REF_SINGULAR {
        s.append("1S");
    } else if pv == SECOND_PERSON && rv == REF_SINGULAR {
        s.append("2S");
    } else if pv == FIRST_PERSON && rv == REF_PLURAL {
        s.append("1P");
    } else if pv == SECOND_PERSON && rv == REF_PLURAL {
        s.append("2P");
    }
    s
}

/// Appends the personal-pronoun tail: person digit with case, number and
/// crasis, or the declinable tail for the third person.
fn pcn_string(s: String, parsed: u32) -> (r: String)
    ensures
        r@ == spec_pcn_string(s@, parsed),
{
    let mut s = s;
    let pv = person(parsed);
    if pv == FIRST_PERSON {
        s.append("-1");
    } else if pv == SECOND_PERSON {
        s.append("-2");
    } else {
        return cng_string(s, parsed);
    }
    let cv = case(parsed);
    if cv == NOMINATIVE {
        s.append("N");
    } else if cv == ACCUSATIVE {
        s.append("A");
    } else if cv == GENITIVE {
        s.append("G");
    } else if cv == DATIVE {
        s.append("D");
    } else if cv == VOCATIVE {
        s.append("V");
    } else {
        return s;
    }
    let nv = number(parsed);
    if nv == SINGULAR {
        s.append("S");
    } else if nv == PLURAL {
        s.append("P");
    }
    if is_crasis(parsed) {
        s.append("-K");
    }
    s
}

/// Encodes a packed form as its canonical textual token: a literal
/// shortcut where one exists, otherwise the category tag followed by the
/// category's field letters. A zero or unknown part of speech encodes as
/// the empty string.
pub fn to_string(parsed: u32) -> (r: String)
    ensures
        r@ == spec_to_string(parsed),
{
    let pos = part_of_speech(parsed);

    if pos == ADVERB {
        if is_interrogative(parsed) {
            return String::from_str("ADV-I");
        }
        if is_negative(parsed) {
            return String::from_str("ADV-N");
        }
        if is_correlative(parsed) {
            return String::from_str("ADV-K");
        }
        return String::from_str("ADV");
    } else if pos == COMPARATIVE_ADVERB {
        return String::from_str("ADV-C");
    } else if pos == SUPERLATIVE_ADVERB {
        return String::from_str("ADV-S");
    } else if pos == CONJUNCTION {
        if is_crasis(parsed) {
            return String::from_str("CONJ-K");
        }
        if is_negative(parsed) {
            return String::from_str("CONJ-N");
        }
        return String::from_str("CONJ");
    } else if pos == CONDITIONAL {
        if is_crasis(parsed) {
            return String::from_str("COND-K");
        }
        return String::from_str("COND");
    } else if pos == PARTICLE {
        if is_negative(parsed) {
            return String::from_str("PRT-N");
        }
        if is_interrogative(parsed) {
            return String::from_str("PRT-I");
        }
        return String::from_str("PRT");
    } else if pos == PREPOSITION {
        return String::from_str("PREP");
    } else if pos == INTERJECTION {
        return String::from_str("INJ");
    } else if pos == ARAMAIC_TRANSLITERATION {
        return String::from_str("ARAM");
    } else if pos == HEBREW_TRANSLITERATION {
        return String::from_str("HEB");
    } else if pos == PROPER_NOUN && is_indeclinable(parsed) && case(parsed) == 0 {
        return String::from_str("N-PRI");
    } else if pos == NUMERAL && is_indeclinable(parsed) {
        return String::from_str("A-NUI");
    } else if pos == LETTER && is_indeclinable(parsed) {
        return String::from_str("N-LI");
    } else if pos == NOUN && is_indeclinable(parsed) {
        return String::from_str("N-OI");
    }

    if pos == VERB {
        return vp_string(String::from_str("V"), parsed);
    } else if pos == NOUN {
        return cng_string(String::from_str("N"), parsed);
    } else if pos == ARTICLE {
        return cng_string(String::from_str("T"), parsed);
    } else if pos == ADJECTIVE {
        return cng_string(String::from_str("A"), parsed);
    } else if pos == RELATIVE_PRONOUN {
        return cng_string(String::from_str("R"), parsed);
    } else if pos == RECIPROCAL_PRONOUN {
        return cng_string(String::from_str("C"), parsed);
    } else if pos == DEMONSTRATIVE_PRONOUN {
        return cng_string(String::from_str("D"), parsed);
    } else if pos == REFLEXIVE_PRONOUN {
        return cng_string(fst_string(String::from_str("F-"), parsed), parsed);
    } else if pos == POSSESSIVE_PRONOUN {
        return cng_string(fs_ref_string(String::from_str("S-"), parsed), parsed);
    } else if pos == PERSONAL_PRONOUN {
        return pcn_string(String::from_str("P"), parsed);
    } else if pos == PROPER_NOUN {
        if is_indeclinable(parsed) {
            return cng_string(String::from_str("IPN"), parsed);
        }
        return cng_string(String::from_str("PN"), parsed);
    } else if pos == PRONOUN {
        if is_correlative(parsed) && is_interrogative(parsed) {
            return cng_string(String::from_str("Q"), parsed);
        }
        if is_correlative(parsed) {
            return cng_string(String::from_str("K"), parsed);
        }
        if is_interrogative(parsed) {
            return cng_string(String::from_str("I"), parsed);
        }
        if is_indefinite(parsed) {
            return cng_string(String::from_str("X"), parsed);
        }
        return cng_string(String::from_str("O"), parsed);
    } else if pos == SUPERLATIVE_NOUN {
        let mut s = cng_string(String::from_str("N"), parsed);
        s.append("-S");
        return s;
    } else if pos == SUPERLATIVE_ADJECTIVE {
        let mut s = cng_string(String::from_str("A"), parsed);
        s.append("-S");
        return s;
    } else if pos == COMPARATIVE_NOUN {
        let mut s = cng_string(String::from_str("N"), parsed);
        s.append("-C");
        return s;
    } else if pos == COMPARATIVE_ADJECTIVE {
        let mut s = cng_string(String::from_str("A"), parsed);
        s.append("-C");
        return s;
    }

    String::new()
}

/// The capitalised English name for the part of speech, with spaces
/// between words.
pub fn pos_to_string(parsing: u32) -> (r: &'static str)
    ensures
        r@ == spec_pos_to_string(parsing),
{
    let pos = part_of_speech(parsing);
    if pos == UNKNOWN {
        ""
    } else if pos == PARTICLE {
        if is_interrogative(parsing) {
            "Interrogative Particle"
        } else {
            "Particle"
        }
    } else if pos == VERB {
        "Verb"
    } else if pos == NOUN {
        "Noun"
    } else if pos == ADJECTIVE {
        "Adjective"
    } else if pos == ADVERB {
        "Adverb"
    } else if pos == CONJUNCTION {
        "Conjunction"
    } else if pos == PROPER_NOUN {
        if is_interrogative(parsing) {
            "Interrogative Proper Noun"
        } else if is_indeclinable(parsing) {
            "Indeclinable Proper Noun"
        } else {
            "Proper Noun"
        }
    } else if pos == PREPOSITION {
        "Preposition"
    } else if pos == CONDITIONAL {
        "Conditional"
    } else if pos == ARTICLE {
        "Definite Article"
    } else if pos == INTERJECTION {
        "Interjection"
    } else if pos == PRONOUN {
        if is_interrogative(parsing) {
            "Interrogative Pronoun"
        } else if is_indefinite(parsing) {
            "Indefinite Pronoun"
        } else {
            "Pronoun"
        }
    } else if pos == PERSONAL_PRONOUN {
        "Personal Pronoun"
    } else if pos == RELATIVE_PRONOUN {
        "Relative Pronoun"
    } else if pos == RECIPROCAL_PRONOUN {
        "Reciprocal Pronoun"
    } else if pos == DEMONSTRATIVE_PRONOUN {
        "Demonstrative Pronoun"
    } else if pos == REFLEXIVE_PRONOUN {
        "Reflexive Pronoun"
    } else if pos == POSSESSIVE_PRONOUN {
        "Posessive Pronoun"
    } else if pos == SUPERLATIVE_NOUN {
        "Superlative Noun"
    } else if pos == SUPERLATIVE_ADJECTIVE {
        "Superlative Adjective"
    } else if pos == COMPARATIVE_NOUN {
        "Comparative Noun"
    } else if pos == COMPARATIVE_ADJECTIVE {
        "Comparative Adjective"
    } else if pos == TRANSLITERATION {
        "Transliteration"
    } else if pos == HEBREW_TRANSLITERATION {
        "Hebrew Transliteration"
    } else if pos == ARAMAIC_TRANSLITERATION {
        "Aramaic Transliteration"
    } else if pos == NUMERAL {
        "Numeral"
    } else if pos == LETTER {
        "Letter"
    } else {
        ""
    }
}

/// The capitalised English name for the part of speech with no spaces
/// between words.
pub fn pos_to_camel_case(parsing: u32) -> (r: &'static str)
    ensures
        r@ == spec_pos_to_camel_case(parsing),
{
    let pos = part_of_speech(parsing);
    if pos == UNKNOWN {
        "Unknown"
    } else if pos == PARTICLE {
        if is_interrogative(parsing) {
            "InterrogativeParticle"
        } else {
            "Particle"
        }
    } else if pos == VERB {
        "Verb"
    } else if pos == NOUN {
        "Noun"
    } else if pos == ADJECTIVE {
        "Adjective"
    } else if pos == ARTICLE {
        "DefiniteArticle"
    } else if pos == ADVERB {
        "Adverb"
    } else if pos == PRONOUN {
        if is_interrogative(parsing) {
            "InterrogativePronoun"
        } else if is_indefinite(parsing) {
            "IndefinitePronoun"
        } else {
            "Pronoun"
        }
    } else if pos == PREPOSITION {
        "Preposition"
    } else if pos == CONJUNCTION {
        "Conjunction"
    } else if pos == CONDITIONAL {
        "Conditional"
    } else if pos == INTERJECTION {
        "Interjection"
    } else if pos == RELATIVE_PRONOUN {
        "RelativePronoun"
    } else if pos == RECIPROCAL_PRONOUN {
        "ReciprocalPronoun"
    } else if pos == DEMONSTRATIVE_PRONOUN {
        "DemonstrativePronoun"
    } else if pos == REFLEXIVE_PRONOUN {
        "ReflexivePronoun"
    } else if pos == POSSESSIVE_PRONOUN {
        "PosessivePronoun"
    } else if pos == PERSONAL_PRONOUN {
        "PersonalPronoun"
    } else if pos == PROPER_NOUN {
        if is_interrogative(parsing) {
            "InterrogativeProperNoun"
        } else if is_indeclinable(parsing) {
            "IndeclinableProperNoun"
        } else {
            "ProperNoun"
        }
    } else if pos == SUPERLATIVE_NOUN {
        "SuperlativeNoun"
    } else if pos == SUPERLATIVE_ADJECTIVE {
        "SuperlativeAdjective"
    } else if pos == COMPARATIVE_NOUN {
        "ComparativeNoun"
    } else if pos == COMPARATIVE_ADJECTIVE {
        "ComparativeAdjective"
    } else if pos == TRANSLITERATION {
        "Transliteration"
    } else if pos == HEBREW_TRANSLITERATION {
        "HebrewTransliteration"
    } else if pos == ARAMAIC_TRANSLITERATION {
        "AramaicTransliteration"
    } else if pos == NUMERAL {
        "Numeral"
    } else if pos == LETTER {
        "Letter"
    } else {
        ""
    }
}

/// Whether the text equals the given name, ignoring ASCII letter casing.
fn name_matches(w: &Vec<char>, name: &str) -> (r: bool)
    ensures
        r == spec_name_matches(w@, name@),
{
    let m = name.unicode_len();
    if w.len() != m {
        return false;
    }
    let mut j: usize = 0;
    while j < m
        invariant
            m == name@.len(),
            w@.len() == m,
            j <= m,
            forall|k: int|
                0 <= k < j ==> spec_lower_code(w@[k]) == spec_lower_code(name@[k]),
        decreases m - j,
    {
        let a = w[j] as u32;
        let la = if a >= 65 && a <= 90 {
            a + 32
        } else {
            a
        };
        let b = name.get_char(j) as u32;
        let lb = if b >= 65 && b <= 90 {
            b + 32
        } else {
            b
        };
        if la != lb {
            return false;
        }
        j += 1;
    }
    true
}

/// The part-of-speech-plus-flags value named by an English label, in
/// either its spaced or concatenated rendering, ignoring ASCII letter
/// casing. Unrecognized text maps to the zero value. The inverse is
/// lossy: case, number, gender, tense, voice, mood and person are never
/// represented in a label.
pub fn string_to_pos(text: &str) -> (r: u32)
    ensures
        r == spec_string_to_pos(text@),
{
    let w = chars_of(text);
    if name_matches(&w, "verb") {
        VERB
    } else if name_matches(&w, "noun") {
        NOUN
    } else if name_matches(&w, "article") || name_matches(&w, "definite article") || name_matches(
        &w,
        "definitearticle",
    ) {
        ARTICLE
    } else if name_matches(&w, "adverb") {
        ADVERB
    } else if name_matches(&w, "adjective") {
        ADJECTIVE
    } else if name_matches(&w, "pronoun") {
        PRONOUN
    } else if name_matches(&w, "particle") {
        PARTICLE
    } else if name_matches(&w, "preposition") {
        PREPOSITION
    } else if name_matches(&w, "conjunction") {
        CONJUNCTION
    } else if name_matches(&w, "conditional") {
        CONDITIONAL
    } else if name_matches(&w, "interjection") {
        INTERJECTION
    } else if name_matches(&w, "relative pronoun") || name_matches(&w, "relativepronoun") {
        RELATIVE_PRONOUN
    } else if name_matches(&w, "interrogative pronoun") || name_matches(
        &w,
        "interrogativepronoun",
    ) {
        PRONOUN | INTERROGATIVE
    } else if name_matches(&w, "indefinite pronoun") || name_matches(&w, "indefinitepronoun") {
        PRONOUN | INDEFINITE
    } else if name_matches(&w, "reciprocal pronoun") || name_matches(&w, "reciprocalpronoun") {
        RECIPROCAL_PRONOUN
    } else if name_matches(&w, "demonstrative pronoun") || name_matches(
        &w,
        "demonstrativepronoun",
    ) {
        DEMONSTRATIVE_PRONOUN
    } else if name_matches(&w, "reflexive pronoun") || name_matches(&w, "reflexivepronoun") {
        REFLEXIVE_PRONOUN
    } else if name_matches(&w, "posessive pronoun") || name_matches(&w, "posessivepronoun") {
        POSSESSIVE_PRONOUN
    } else if name_matches(&w, "personal pronoun") || name_matches(&w, "personalpronoun") {
        PERSONAL_PRONOUN
    } else if name_matches(&w, "interrogative proper noun") || name_matches(
        &w,
        "interrogativepropernoun",
    ) {
        PROPER_NOUN | INTERROGATIVE
    } else if name_matches(&w, "indeclinable proper noun") || name_matches(
        &w,
        "indeclinablepropernoun",
    ) {
        PROPER_NOUN | INDECLINABLE
    } else if name_matches(&w, "proper noun") || name_matches(&w, "propernoun") {
        PROPER_NOUN
    } else if name_matches(&w, "superlative noun") || name_matches(&w, "superlativenoun") {
        SUPERLATIVE_NOUN
    } else if name_matches(&w, "superlative adjective") || name_matches(
        &w,
        "superlativeadjective",
    ) {
        SUPERLATIVE_ADJECTIVE
    } else if name_matches(&w, "comparative noun") || name_matches(&w, "comparativenoun") {
        COMPARATIVE_NOUN
    } else if name_matches(&w, "comparative adjective") || name_matches(
        &w,
        "comparativeadjective",
    ) {
        COMPARATIVE_ADJECTIVE
    } else if name_matches(&w, "transliteration") {
        TRANSLITERATION
    } else if name_matches(&w, "hebrew transliteration") || name_matches(
        &w,
        "hebrewtransliteration",
    ) {
        HEBREW_TRANSLITERATION
    } else if name_matches(&w, "aramaic transliteration") || name_matches(
        &w,
        "aramaictransliteration",
    ) {
        ARAMAIC_TRANSLITERATION
    } else if name_matches(&w, "interrogative particle") || name_matches(
        &w,
        "interrogativeparticle",
    ) {
        INTERROGATIVE | PARTICLE
    } else if name_matches(&w, "letter") {
        LETTER
    } else if name_matches(&w, "numeral") {
        NUMERAL
    } else {
        UNKNOWN
    }
}

} // verus!
