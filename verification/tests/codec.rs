use greek_morph::parse::{
    case, gender, is_crasis, is_interrogative, number, part_of_speech, set_part_of_speech,
    ACCUSATIVE, ACTIVE_VOICE, ADJECTIVE, ADVERB, AORIST, ARAMAIC_TRANSLITERATION, ARTICLE,
    COMPARATIVE_ADJECTIVE, COMPARATIVE_ADVERB, COMPARATIVE_NOUN, CONDITIONAL, CONJUNCTION,
    CORRELATIVE, CRASIS, DEMONSTRATIVE_PRONOUN, FEMININE, FIRST_PERSON, GENITIVE,
    HEBREW_TRANSLITERATION, INDECLINABLE, INDICATIVE_MOOD, INTERJECTION, INTERROGATIVE, LETTER,
    MASCULINE, NEGATIVE, NEUTER, NOMINATIVE, NOUN, NUMERAL, PARTICLE, PERSONAL_PRONOUN, PLURAL,
    POSSESSIVE_PRONOUN, PREPOSITION, PRONOUN, PROPER_NOUN, REFLEXIVE_PRONOUN, REF_PLURAL,
    REF_SINGULAR, SECOND_AORIST, SECOND_PERSON, SINGULAR, SUPERLATIVE_ADJECTIVE,
    SUPERLATIVE_ADVERB, THIRD_PERSON, TRANSLITERATION, UNKNOWN, VERB,
};
use greek_morph::string::{
    from_string, pos_to_camel_case, pos_to_string, string_to_pos, to_string, ParseError,
};

#[test]
fn lib_test_to_string() {
    assert_eq!(to_string(NOUN), "N", "failed");
    assert_eq!(to_string(CONDITIONAL | CRASIS), "COND-K", "failed");
    assert_eq!(to_string(ARTICLE | NOMINATIVE), "T-N", "failed");
    assert_eq!(to_string(ARTICLE | GENITIVE | SINGULAR), "T-GS", "failed");
    assert_eq!(
        to_string(ARTICLE | GENITIVE | SINGULAR | NEUTER),
        "T-GSN",
        "failed"
    );
}

#[test]
fn test_from_string() {
    assert_eq!(to_string(NOUN), "N", "failed");
    assert_eq!(to_string(CONDITIONAL | CRASIS), "COND-K", "failed");
    assert_eq!(to_string(ARTICLE | NOMINATIVE), "T-N", "failed");
    assert_eq!(to_string(ARTICLE | GENITIVE | SINGULAR), "T-GS", "failed");
    assert_eq!(
        to_string(ARTICLE | GENITIVE | SINGULAR | NEUTER),
        "T-GSN",
        "failed"
    );
}

#[test]
fn test_parsing_bits() {
    assert_eq!(gender(MASCULINE | NOMINATIVE), MASCULINE);
    assert_eq!(gender(FEMININE | NOMINATIVE), FEMININE);
    assert_eq!(gender(NEUTER | NOMINATIVE), NEUTER);
    assert_eq!(gender(MASCULINE | ACCUSATIVE), MASCULINE);
    assert_eq!(gender(FEMININE | ACCUSATIVE), FEMININE);
    assert_eq!(gender(NEUTER | ACCUSATIVE), NEUTER);
    assert_eq!(gender(MASCULINE | GENITIVE), MASCULINE);
    assert_eq!(gender(FEMININE | GENITIVE), FEMININE);
    assert_eq!(gender(NEUTER | GENITIVE), NEUTER);

    assert_eq!(case(MASCULINE | NOMINATIVE), NOMINATIVE);
    assert_eq!(case(FEMININE | NOMINATIVE), NOMINATIVE);
    assert_eq!(case(NEUTER | NOMINATIVE), NOMINATIVE);
    assert_eq!(case(MASCULINE | ACCUSATIVE), ACCUSATIVE);
    assert_eq!(case(FEMININE | ACCUSATIVE), ACCUSATIVE);
    assert_eq!(case(NEUTER | ACCUSATIVE), ACCUSATIVE);
    assert_eq!(case(MASCULINE | GENITIVE), GENITIVE);
    assert_eq!(case(FEMININE | GENITIVE), GENITIVE);
    assert_eq!(case(NEUTER | GENITIVE), GENITIVE);

    let parsed = DEMONSTRATIVE_PRONOUN | ACCUSATIVE | PLURAL | NEUTER;
    assert_eq!(is_crasis(parsed), false);
    assert_eq!(case(parsed), ACCUSATIVE);
    assert_eq!(number(parsed), PLURAL);
    assert_eq!(gender(parsed), NEUTER);
    assert_eq!(part_of_speech(parsed), DEMONSTRATIVE_PRONOUN);
    let parsed = parsed | CRASIS;
    assert_eq!(is_crasis(parsed), true);
    assert_eq!(case(parsed), ACCUSATIVE);
    assert_eq!(number(parsed), PLURAL);
    assert_eq!(gender(parsed), NEUTER);
    assert_eq!(part_of_speech(parsed), DEMONSTRATIVE_PRONOUN);
    assert_eq!(
        parsed,
        DEMONSTRATIVE_PRONOUN | ACCUSATIVE | PLURAL | NEUTER | CRASIS
    );

    let parsed = COMPARATIVE_ADJECTIVE | INTERROGATIVE;
    assert_eq!(is_crasis(parsed), false);
    assert_eq!(is_interrogative(parsed), true);

    let parsed = COMPARATIVE_NOUN | INTERROGATIVE;
    assert_eq!(is_crasis(parsed), false);
    assert_eq!(is_interrogative(parsed), true);
    assert_eq!(part_of_speech(parsed), COMPARATIVE_NOUN);
}

#[test]
fn test_set_part_of_speech() {
    let parsed = NOUN;
    let out = set_part_of_speech(parsed, VERB);
    assert_eq!(part_of_speech(out), VERB, "hmmm {} {}", parsed, out);

    let parsed = ADJECTIVE;
    let out = set_part_of_speech(parsed, SUPERLATIVE_ADJECTIVE);
    assert_eq!(
        part_of_speech(out),
        SUPERLATIVE_ADJECTIVE,
        "hmmm {} {}",
        parsed,
        out
    );
}

#[test]
fn string_test_to_string() {
    assert_eq!(to_string(NOUN), "N", "failed");
    assert_eq!(to_string(CONDITIONAL | CRASIS), "COND-K", "failed");
    assert_eq!(to_string(ARTICLE | NOMINATIVE), "T-N", "failed");
    assert_eq!(to_string(ARTICLE | GENITIVE), "T-G", "failed");
    assert_eq!(to_string(ARTICLE | GENITIVE | SINGULAR), "T-GS", "failed");
    assert_eq!(
        to_string(ARTICLE | GENITIVE | SINGULAR | NEUTER),
        "T-GSN",
        "failed"
    );
    assert_eq!(
        to_string(ADJECTIVE | ACCUSATIVE | PLURAL | MASCULINE),
        "A-APM",
        "failed"
    );
    assert_eq!(
        to_string(INDECLINABLE | PROPER_NOUN | NOMINATIVE | SINGULAR),
        "IPN-NS",
        "failed"
    );
    assert_eq!(to_string(NOUN | NOMINATIVE | SINGULAR), "N-NS", "failed");
    assert_eq!(to_string(NOUN | GENITIVE | SINGULAR), "N-GS", "failed");
    assert_eq!(
        to_string(PROPER_NOUN | ACCUSATIVE | PLURAL | MASCULINE),
        "PN-APM",
        "failed"
    );
    assert_eq!("ADV-S", to_string(SUPERLATIVE_ADVERB), "failed");
    assert_eq!("ADV-C", to_string(COMPARATIVE_ADVERB), "failed");
    assert_eq!(
        to_string(PERSONAL_PRONOUN | FIRST_PERSON | ACCUSATIVE | SINGULAR),
        "P-1AS",
        "failed"
    );
    assert_eq!(
        to_string(
            POSSESSIVE_PRONOUN | SECOND_PERSON | REF_SINGULAR | ACCUSATIVE | PLURAL | MASCULINE
        ),
        "S-2SAPM",
        "expected 'S-2SAPM'"
    );
    assert_eq!(
        to_string(
            POSSESSIVE_PRONOUN | SECOND_PERSON | REF_PLURAL | ACCUSATIVE | PLURAL | MASCULINE
        ),
        "S-2PAPM",
        "failed"
    );
    assert_eq!(
        to_string(REFLEXIVE_PRONOUN | THIRD_PERSON | ACCUSATIVE | PLURAL | MASCULINE),
        "F-3APM",
        "failed"
    );
    assert_eq!(
        to_string(DEMONSTRATIVE_PRONOUN | ACCUSATIVE | PLURAL | MASCULINE | CRASIS),
        "D-APM-K",
        "failed"
    );
    assert_eq!(
        to_string(VERB | AORIST | ACTIVE_VOICE | INDICATIVE_MOOD | FIRST_PERSON | PLURAL),
        "V-AAI-1P",
        "failed"
    );
    assert_eq!(
        to_string(VERB | SECOND_AORIST | ACTIVE_VOICE | INDICATIVE_MOOD | FIRST_PERSON | PLURAL),
        "V-2AAI-1P",
        "failed"
    );
    assert_eq!(
        to_string(
            VERB | SECOND_AORIST
                | ACTIVE_VOICE
                | greek_morph::parse::PARTICIPLE_MOOD
                | ACCUSATIVE
                | PLURAL
                | FEMININE
        ),
        "V-2AAP-APF",
        "failed"
    );
}

#[test]
fn test_basic_parse() {
    assert_eq!(
        from_string("N").expect_err("incomplete"),
        ParseError::Incomplete(NOUN),
        "failed"
    );
    assert_eq!(
        from_string("n").expect_err("incomplete"),
        ParseError::Incomplete(NOUN),
        "failed"
    );
    assert_eq!(
        from_string("COND-K").expect("success"),
        CONDITIONAL | CRASIS,
        "failed"
    );
    assert_eq!(
        from_string("T-G").expect_err("incomplete"),
        ParseError::Incomplete(ARTICLE | GENITIVE),
        "failed"
    );
    assert_eq!(
        from_string("T-GS").expect_err("parse failed"),
        ParseError::Incomplete(ARTICLE | GENITIVE | SINGULAR),
        "failed"
    );
    assert_eq!(
        from_string("N-GS").expect("parse failed"),
        NOUN | GENITIVE | SINGULAR,
        "failed"
    );
    assert_eq!(
        from_string("A-GS").expect("parse failed"),
        ADJECTIVE | GENITIVE | SINGULAR,
        "failed"
    );
    assert_eq!(
        from_string("A-G").expect_err("incomplete"),
        ParseError::Incomplete(ADJECTIVE | GENITIVE),
        "failed"
    );
    assert_eq!(
        from_string("A-GS").expect("parse failed"),
        ADJECTIVE | GENITIVE | SINGULAR,
        "failed"
    );
    assert_eq!(
        from_string("V-AAI-1P").expect("parse failed"),
        VERB | AORIST | ACTIVE_VOICE | INDICATIVE_MOOD | FIRST_PERSON | PLURAL,
        "failed"
    );
    assert_eq!(
        from_string("T-GSN").expect("parse failed"),
        ARTICLE | GENITIVE | SINGULAR | NEUTER,
        "failed"
    );
    assert_eq!(
        from_string("A-APM").expect("parse failed"),
        ADJECTIVE | ACCUSATIVE | PLURAL | MASCULINE,
        "failed"
    );
    assert_eq!(
        from_string("PN-NSM").expect("parse failed"),
        PROPER_NOUN | NOMINATIVE | SINGULAR | MASCULINE,
        "failed"
    );

    let t = from_string("A-APF-C").expect("parse failed");
    assert_eq!(
        t,
        COMPARATIVE_ADJECTIVE | ACCUSATIVE | PLURAL | FEMININE,
        "failed on 'A-APF-C', pos: {} {} {:#018b}--{:#018b}",
        part_of_speech(t),
        part_of_speech(t),
        from_string("A-APF-C").expect("parse"),
        (COMPARATIVE_ADJECTIVE | ACCUSATIVE | PLURAL | FEMININE),
    );
    assert_eq!(from_string("ADV").expect("parse"), ADVERB, "failed");
    assert_eq!(
        from_string("ADV-S").expect("parse"),
        SUPERLATIVE_ADVERB,
        "failed"
    );
    assert_eq!(
        from_string("ADV-C").expect("parse"),
        COMPARATIVE_ADVERB,
        "failed"
    );
    assert_eq!(
        from_string("P-1AS").expect("parse failed"),
        PERSONAL_PRONOUN | FIRST_PERSON | ACCUSATIVE | SINGULAR,
        "failed"
    );
    assert_eq!(
        from_string("S-2SAPM").expect("parse failed"),
        POSSESSIVE_PRONOUN | SECOND_PERSON | ACCUSATIVE | PLURAL | MASCULINE,
        "failed"
    );
    assert_eq!(
        from_string("F-3APM").expect("parse failed"),
        REFLEXIVE_PRONOUN | THIRD_PERSON | ACCUSATIVE | PLURAL | MASCULINE,
        "failed"
    );
    assert_eq!(
        from_string("V-2AAI-1P").expect("parse failed"),
        VERB | SECOND_AORIST | ACTIVE_VOICE | INDICATIVE_MOOD | FIRST_PERSON | PLURAL,
        "failed"
    );
}

#[test]
fn test_parsing_parts() {
    let parsed = from_string("D-GPM-K").expect("parsing fail");
    assert_eq!(part_of_speech(parsed), DEMONSTRATIVE_PRONOUN);
    assert_eq!(case(parsed), GENITIVE);

    let parsed = from_string("D-GPM").expect("parsing fail");
    assert_eq!(part_of_speech(parsed), DEMONSTRATIVE_PRONOUN);
    assert_eq!(is_crasis(parsed), false);
    assert_eq!(case(parsed), GENITIVE);

    // It is valid to leave the gender unknown. In some text the gender of
    // a word is genuinely not known.
    match from_string("T-NS") {
        Err(ParseError::Incomplete(parsed)) => {
            assert_eq!(part_of_speech(parsed), ARTICLE);
            assert_eq!(case(parsed), NOMINATIVE);
            assert_eq!(number(parsed), SINGULAR);
            assert_eq!(gender(parsed), UNKNOWN);
        }
        _ => assert!(false, "failed"),
    }

    match from_string("N-NSU") {
        Ok(parsed) => {
            assert_eq!(part_of_speech(parsed), NOUN);
            assert_eq!(case(parsed), NOMINATIVE);
            assert_eq!(number(parsed), SINGULAR);
            assert_eq!(gender(parsed), UNKNOWN);
        }
        Err(e) => assert!(false, "failed: {:?}", e),
    }

    match from_string("D-APM-K") {
        Ok(parsed) => {
            assert_eq!(part_of_speech(parsed), DEMONSTRATIVE_PRONOUN);
            assert_eq!(case(parsed), ACCUSATIVE);
            assert_eq!(number(parsed), PLURAL);
            assert_eq!(gender(parsed), MASCULINE);
            assert_eq!(is_crasis(parsed), true);
            assert_eq!(
                to_string(DEMONSTRATIVE_PRONOUN | ACCUSATIVE | PLURAL | NEUTER | CRASIS),
                "D-APN-K",
                "failed"
            );
        }
        Err(e) => assert!(false, "failed: {:?}", e),
    }
}

#[test]
fn test_string_parse() {
    assert_eq!(
        INDECLINABLE | PROPER_NOUN,
        string_to_pos("IndeclinableProperNoun")
    );
    assert_eq!(
        INDECLINABLE | PROPER_NOUN,
        string_to_pos("Indeclinable Proper Noun")
    );
    assert_eq!(
        pos_to_camel_case(INDECLINABLE | PROPER_NOUN),
        "IndeclinableProperNoun"
    );
    assert_eq!(
        pos_to_string(INDECLINABLE | PROPER_NOUN),
        "Indeclinable Proper Noun"
    );
}

#[test]
fn test_bracket_stripping() {
    assert_eq!(
        from_string("[N-NS]").expect("parse"),
        NOUN | NOMINATIVE | SINGULAR
    );
    assert_eq!(
        from_string("{N-NS").expect("parse"),
        NOUN | NOMINATIVE | SINGULAR
    );
    assert_eq!(
        from_string("[N-NS").expect("parse"),
        NOUN | NOMINATIVE | SINGULAR
    );
    assert_eq!(
        from_string("N-NS}").expect("parse"),
        NOUN | NOMINATIVE | SINGULAR
    );
    assert_eq!(from_string("[]").expect("parse"), UNKNOWN);
    assert_eq!(from_string("").expect("parse"), UNKNOWN);
}

#[test]
fn test_unknown_part_of_speech() {
    assert_eq!(
        from_string("ABCD-X").expect_err("rejected"),
        ParseError::UnknownPartOfSpeech(String::from("ABCD"))
    );
    assert_eq!(
        from_string("CONJA").expect_err("rejected"),
        ParseError::UnknownPartOfSpeech(String::from("CONJ"))
    );
    assert_eq!(
        from_string("W-NS").expect_err("rejected"),
        ParseError::UnknownPartOfSpeech(String::from("W"))
    );
}

#[test]
fn test_error_variants() {
    assert_eq!(
        from_string("T-X").expect_err("case"),
        ParseError::UnknownCase(ARTICLE, 'X')
    );
    assert_eq!(
        from_string("V-X").expect_err("tense"),
        ParseError::UnknownTenseForm(VERB, 'X')
    );
    assert_eq!(
        from_string("V-2X").expect_err("tense"),
        ParseError::UnknownTenseForm(VERB, 'X')
    );
    assert_eq!(
        from_string("V-AX").expect_err("voice"),
        ParseError::UnknownVoice(VERB | AORIST, 'X')
    );
    assert_eq!(
        from_string("V-AAX").expect_err("mood"),
        ParseError::UnknownMood(VERB | AORIST | ACTIVE_VOICE, 'X')
    );
    assert_eq!(
        from_string("V-AA").expect_err("incomplete"),
        ParseError::Incomplete(VERB | AORIST | ACTIVE_VOICE)
    );
    assert_eq!(
        from_string("N-NX").expect_err("person"),
        ParseError::UnknownPerson(NOUN | NOMINATIVE, 'X')
    );
    assert_eq!(
        from_string("P-1NX").expect_err("number"),
        ParseError::UnknownNumber(PERSONAL_PRONOUN | FIRST_PERSON | NOMINATIVE, 'X')
    );
    assert_eq!(
        from_string("N-NSX").expect_err("gender"),
        ParseError::UnknownGender(NOUN | NOMINATIVE | SINGULAR, 'X')
    );
    assert_eq!(
        from_string("N-NSM?").expect_err("unexpected"),
        ParseError::UnexpectedCharacter(NOUN | NOMINATIVE | SINGULAR | MASCULINE, '?', 4)
    );
}

#[test]
fn test_literal_table_round_trip() {
    let table: [(&str, u32); 22] = [
        ("ADV", ADVERB),
        ("ADV-I", INTERROGATIVE | ADVERB),
        ("ADV-K", CORRELATIVE | ADVERB),
        ("ADV-N", NEGATIVE | ADVERB),
        ("ADV-C", COMPARATIVE_ADVERB),
        ("ADV-S", SUPERLATIVE_ADVERB),
        ("CONJ", CONJUNCTION),
        ("CONJ-K", CONJUNCTION | CRASIS),
        ("CONJ-N", NEGATIVE | CONJUNCTION),
        ("COND", CONDITIONAL),
        ("COND-K", CONDITIONAL | CRASIS),
        ("PRT", PARTICLE),
        ("PRT-N", NEGATIVE | PARTICLE),
        ("PRT-I", INTERROGATIVE | PARTICLE),
        ("PREP", PREPOSITION),
        ("INJ", INTERJECTION),
        ("ARAM", ARAMAIC_TRANSLITERATION),
        ("HEB", HEBREW_TRANSLITERATION),
        ("N-PRI", INDECLINABLE | PROPER_NOUN),
        ("A-NUI", INDECLINABLE | NUMERAL),
        ("N-LI", INDECLINABLE | LETTER),
        ("N-OI", INDECLINABLE | NOUN),
    ];
    for (text, value) in table.iter() {
        assert_eq!(from_string(text).expect("parse"), *value, "decode {}", text);
        assert_eq!(to_string(*value), *text, "encode {}", text);
    }
    // The historical alias decodes to the plain conjunction.
    assert_eq!(from_string("CONJ-P").expect("parse"), CONJUNCTION);
}

#[test]
fn test_round_trip_samples() {
    let samples = [
        "N-NS", "N-GS", "T-GSN", "A-APM", "A-APF-C", "PN-APM", "IPN-NS", "D-APM-K", "N-NSM-N",
        "O-NS", "K-NS", "I-NS", "X-NS", "Q-NS", "R-GSF", "C-DPN", "P-1AS", "P-2GS-K", "P-NSM",
        "F-3APM", "S-2SAPM", "S-2PAPM", "V-AAI-1P", "V-2AAI-1P", "V-AAN", "V-2AAP-APF",
        "V-PPP-NSM", "F-", "S-",
    ];
    for text in samples.iter() {
        let v = from_string(text).expect("parse");
        assert_eq!(to_string(v), *text, "round trip {}", text);
        assert_eq!(from_string(&to_string(v)).expect("parse"), v);
    }
}

#[test]
fn test_name_lookup() {
    assert_eq!(pos_to_string(VERB), "Verb");
    assert_eq!(pos_to_camel_case(ARTICLE), "DefiniteArticle");
    assert_eq!(pos_to_string(ARTICLE), "Definite Article");
    assert_eq!(string_to_pos("VERB"), VERB);
    // Either rendering of the article label looks up, case-insensitively.
    assert_eq!(string_to_pos("definite article"), ARTICLE);
    assert_eq!(string_to_pos("DefiniteArticle"), ARTICLE);
    assert_eq!(string_to_pos("article"), ARTICLE);
    assert_eq!(string_to_pos(pos_to_string(ARTICLE)), ARTICLE);
    assert_eq!(string_to_pos(pos_to_camel_case(ARTICLE)), ARTICLE);
    assert_eq!(string_to_pos("Interrogative Pronoun"), PRONOUN | INTERROGATIVE);
    // Both renderings of the interrogative-proper-noun label reverse.
    assert_eq!(
        string_to_pos("Interrogative Proper Noun"),
        PROPER_NOUN | INTERROGATIVE
    );
    assert_eq!(
        string_to_pos("InterrogativeProperNoun"),
        PROPER_NOUN | INTERROGATIVE
    );
    assert_eq!(
        string_to_pos(pos_to_string(PROPER_NOUN | INTERROGATIVE)),
        PROPER_NOUN | INTERROGATIVE
    );
    assert_eq!(
        string_to_pos(pos_to_camel_case(PROPER_NOUN | INTERROGATIVE)),
        PROPER_NOUN | INTERROGATIVE
    );
    assert_eq!(string_to_pos("nonsense"), UNKNOWN);
    assert_eq!(pos_to_string(PARTICLE | INTERROGATIVE), "Interrogative Particle");
    assert_eq!(string_to_pos(pos_to_string(REFLEXIVE_PRONOUN)), REFLEXIVE_PRONOUN);
    // The plain transliteration category has one label in both renderings.
    assert_eq!(pos_to_string(TRANSLITERATION), "Transliteration");
    assert_eq!(pos_to_camel_case(TRANSLITERATION), "Transliteration");
    assert_eq!(string_to_pos(pos_to_camel_case(TRANSLITERATION)), TRANSLITERATION);
    assert_eq!(
        string_to_pos(pos_to_camel_case(HEBREW_TRANSLITERATION)),
        HEBREW_TRANSLITERATION
    );
    // The inverse is lossy: declension never reaches the label.
    assert_eq!(pos_to_string(NOUN | GENITIVE | SINGULAR), "Noun");
    assert_eq!(string_to_pos("Noun"), NOUN);
}

#[test]
fn test_case_insensitive_decode() {
    // Literal-table entries decode whatever the letter casing.
    assert_eq!(from_string("cond").expect("parse"), CONDITIONAL);
    assert_eq!(from_string("Cond-K").expect("parse"), CONDITIONAL | CRASIS);
    assert_eq!(from_string("prt-n").expect("parse"), NEGATIVE | PARTICLE);
    assert_eq!(from_string("prep").expect("parse"), PREPOSITION);
    assert_eq!(from_string("inj").expect("parse"), INTERJECTION);
    assert_eq!(from_string("aram").expect("parse"), ARAMAIC_TRANSLITERATION);
    assert_eq!(from_string("heb").expect("parse"), HEBREW_TRANSLITERATION);
    assert_eq!(
        from_string("n-pri").expect("parse"),
        INDECLINABLE | PROPER_NOUN
    );
    assert_eq!(from_string("a-nui").expect("parse"), INDECLINABLE | NUMERAL);
    assert_eq!(from_string("n-li").expect("parse"), INDECLINABLE | LETTER);
    assert_eq!(from_string("n-oi").expect("parse"), INDECLINABLE | NOUN);
    assert_eq!(from_string("conj-n").expect("parse"), NEGATIVE | CONJUNCTION);
    assert_eq!(from_string("AdV-k").expect("parse"), CORRELATIVE | ADVERB);
    // So do the multi-letter category tags, in any mixture of casings.
    assert_eq!(
        from_string("Pn-NSM").expect("parse"),
        PROPER_NOUN | NOMINATIVE | SINGULAR | MASCULINE
    );
    assert_eq!(
        from_string("pN-NSM").expect("parse"),
        PROPER_NOUN | NOMINATIVE | SINGULAR | MASCULINE
    );
    assert_eq!(
        from_string("Ipn-NS").expect("parse"),
        INDECLINABLE | PROPER_NOUN | NOMINATIVE | SINGULAR
    );
    assert_eq!(
        from_string("t-gsn").expect("parse"),
        ARTICLE | GENITIVE | SINGULAR | NEUTER
    );
    assert_eq!(
        from_string("v-aai-1p").expect("parse"),
        VERB | AORIST | ACTIVE_VOICE | INDICATIVE_MOOD | FIRST_PERSON | PLURAL
    );
}

#[test]
fn test_accessor_consistency() {
    let x = VERB | AORIST | ACTIVE_VOICE | INDICATIVE_MOOD | FIRST_PERSON | PLURAL | CRASIS;
    let y = set_part_of_speech(x, NOUN);
    assert_eq!(part_of_speech(y), NOUN);
    assert_eq!(greek_morph::parse::tense(y), greek_morph::parse::tense(x));
    assert_eq!(greek_morph::parse::voice(y), greek_morph::parse::voice(x));
    assert_eq!(greek_morph::parse::mood(y), greek_morph::parse::mood(x));
    assert_eq!(greek_morph::parse::person(y), greek_morph::parse::person(x));
    assert_eq!(number(y), number(x));
    assert_eq!(is_crasis(y), is_crasis(x));
    assert_eq!(gender(y), gender(x));
    assert_eq!(case(y), case(x));
}
