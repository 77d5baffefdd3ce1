use rocket_lang::LangCode::{Da, De, En, Es, Fr};
use rocket_lang::{
    accept_language, languages, with_config_from_header, without_config_from_header, Config,
    Decider, Error, LangCode, Quality,
};

fn q(text: &str) -> Quality {
    Quality::parse(text).unwrap()
}

fn table(weights: &[(LangCode, &str)]) -> Config {
    let mut config = Config::new();
    for (lang, w) in weights {
        config.set_weight(*lang, q(w));
    }
    config
}

#[test]
fn test_lang_parsing() -> Result<(), Error> {
    assert_eq!(Da, without_config_from_header("da, en-GB;q=0.8, en;q=0.7")?);
    assert_eq!(
        En,
        without_config_from_header("en-US,en;q=0.8,es;q=0.5,es-ES;q=0.3")?
    );
    assert_eq!(En, without_config_from_header("en-US,en;q=0.9")?);
    assert!(if let Err::<LangCode, _>(Error::BadRequest) =
        without_config_from_header("invalid accept language header")
    {
        true
    } else {
        false
    });
    Ok(())
}

#[test]
fn pairs_in_header_order_with_duplicates() {
    let got = languages("da, en-GB;q=0.8, en;q=0.7");
    assert_eq!(got, vec![(Da, q("1")), (En, q("0.8")), (En, q("0.7"))]);
}

#[test]
fn missing_quality_is_one() {
    let got = languages("fr-CA,de");
    assert_eq!(got, vec![(Fr, Quality::one()), (De, Quality::one())]);
    assert_eq!(Quality::one().millionths, 1_000_000);
}

#[test]
fn unreadable_quality_is_one() {
    assert_eq!(languages("en;q=1.2.3"), vec![(En, Quality::one())]);
    assert_eq!(languages("en;q=."), vec![(En, Quality::one())]);
    assert_eq!(languages("en;q=abc"), vec![(En, Quality::one())]);
}

#[test]
fn unknown_codes_are_dropped() {
    assert_eq!(languages("xx, eng, e, en"), vec![(En, Quality::one())]);
    assert!(languages("").is_empty());
    assert!(languages("EN").is_empty());
}

#[test]
fn tokens_are_taken_greedily() {
    // "abcd" is the token "abc" and then the token "d".
    assert!(languages("abcd").is_empty());
    // "enfr" is "enf" and "r": neither names a language.
    assert!(languages("enfr").is_empty());
    assert_eq!(languages("x-en"), vec![]);
    assert_eq!(languages("en-"), vec![(En, Quality::one())]);
    assert_eq!(languages("*;q=0.1,es"), vec![(Es, Quality::one())]);
}

#[test]
fn non_ascii_word_characters_join_a_token() {
    // "é" is a word character, so "éen" is one token and names nothing.
    assert!(languages("éen").is_empty());
    // "€" is not, so "en" stands on its own.
    assert_eq!(languages("€en"), vec![(En, Quality::one())]);
}

#[test]
fn quality_run_takes_unicode_digits() {
    // U+0663 is a decimal digit: it joins the number, which then does not read.
    assert_eq!(languages("en;q=0.5\u{0663}"), vec![(En, Quality::one())]);
    assert_eq!(languages("en;q=\u{0663}de"), vec![(En, Quality::one()), (De, Quality::one())]);
    assert_eq!(languages("en;q=0.5,de"), vec![(En, q("0.5")), (De, Quality::one())]);
}

#[test]
fn decimal_reading() {
    assert_eq!(q("0.8").millionths, 800_000);
    assert_eq!(q(".5").millionths, 500_000);
    assert_eq!(q("5.").millionths, 5_000_000);
    assert_eq!(q("1").millionths, 1_000_000);
    assert_eq!(q("0.1234567").millionths, 123_456);
    assert_eq!(q("007.25").millionths, 7_250_000);
    assert_eq!(Quality::parse("."), None);
    assert_eq!(Quality::parse(""), None);
    assert_eq!(Quality::parse("1.2.3"), None);
    assert_eq!(Quality::parse("1a"), None);
    assert_eq!(q("99999999999999999999").millionths, u64::MAX);
    assert_eq!(q("18446744073709.551616").millionths, u64::MAX);
    assert_eq!(q("18446744073709.551615").millionths, u64::MAX);
    assert_eq!(q("18446744073709.551614").millionths, u64::MAX - 1);
    assert_eq!(Quality::from_millionths(42).millionths, 42);
}

#[test]
fn strict_maximum_wins_anywhere() {
    assert_eq!(without_config_from_header("de;q=0.3, fr;q=0.9, es;q=0.5"), Ok(Fr));
    assert_eq!(without_config_from_header("fr;q=0.9, de;q=0.3, es;q=0.5"), Ok(Fr));
    assert_eq!(without_config_from_header("de;q=0.3, es;q=0.5, fr;q=0.9"), Ok(Fr));
}

#[test]
fn reordering_keeps_the_choice() {
    let a = without_config_from_header("de;q=0.3, fr;q=0.9, es, de-AT;q=0.7");
    let b = without_config_from_header("es, de-AT;q=0.7, fr;q=0.9, de;q=0.3");
    assert_eq!(a, Ok(Es));
    assert_eq!(a, b);
    let c = without_config_from_header("fr, de-AT;q=0.7, fr-CA, de;q=0.3");
    let d = without_config_from_header("de;q=0.3, fr-CA, de-AT;q=0.7, fr");
    assert_eq!(c, Ok(Fr));
    assert_eq!(c, d);
}

#[test]
fn equal_maximum_takes_the_last() {
    assert_eq!(without_config_from_header("de, fr"), Ok(Fr));
}

#[test]
fn weighted_scenarios() {
    let config = table(&[(En, "0.5"), (De, "0.5"), (Es, "1.0")]);
    assert_eq!(with_config_from_header("en-US, de;q=0.2", &config), Ok(En));
    assert_eq!(with_config_from_header("de, es;q=0.5", &config), Ok(De));
    assert_eq!(with_config_from_header("de, es;q=0.6", &config), Ok(Es));
    assert_eq!(with_config_from_header("de, es;q=0.4", &config), Ok(De));
}

#[test]
fn weighted_result_depends_on_order() {
    let config = table(&[(En, "1.0"), (De, "0.5")]);
    assert_eq!(with_config_from_header("en;q=0.5, de", &config), Ok(En));
    assert_eq!(with_config_from_header("de, en;q=0.5", &config), Ok(De));
}

#[test]
fn disabled_language_is_never_chosen() {
    let config = table(&[(Fr, "0")]);
    assert_eq!(with_config_from_header("de;q=0.1, fr", &config), Ok(De));
    assert_eq!(with_config_from_header("fr", &config), Err(Error::NotAcceptable));
    assert_eq!(with_config_from_header("nothing here", &config), Err(Error::NotAcceptable));
}

#[test]
fn zero_client_quality_never_displaces() {
    let config = Config::new();
    assert_eq!(with_config_from_header("de;q=0, fr;q=0", &config), Ok(De));
    assert_eq!(with_config_from_header("de, fr;q=0", &config), Ok(De));
}

#[test]
fn absent_header_reads_as_en() {
    assert_eq!(accept_language(None), "en");
    assert_eq!(accept_language(Some("")), "en");
    assert_eq!(without_config_from_header(accept_language(Some(""))), Ok(En));
    assert_eq!(with_config_from_header(accept_language(Some("")), &Config::new()), Ok(En));
    assert_eq!(accept_language(Some("de")), "de");
    assert_eq!(without_config_from_header(accept_language(None)), Ok(En));
    assert_eq!(with_config_from_header(accept_language(None), &Config::new()), Ok(En));
}

#[test]
fn config_weights() {
    let mut config = Config::new();
    assert_eq!(config.weight(En), Quality::one());
    config.set_weight(En, q("0.5"));
    config.set_weight(De, q("0.25"));
    config.set_weight(En, q("0.75"));
    assert_eq!(config.weight(En), q("0.75"));
    assert_eq!(config.weight(De), q("0.25"));
    assert_eq!(config.weight(Fr), Quality::one());
}

#[test]
fn decider_steps() {
    let config = table(&[(De, "0.5"), (Fr, "0")]);
    let mut decider = Decider::new(&config);
    assert!(decider.is_none());
    assert_eq!(decider.result(), Err(Error::NotAcceptable));
    decider.add_preference(Fr, Quality::one());
    assert!(decider.is_none());
    decider.add_preference(De, Quality::one());
    assert_eq!(decider.result(), Ok(De));
    decider.compare(Fr, Quality::one());
    assert_eq!(decider.result(), Ok(De));
    decider.compare(Es, q("0.6"));
    assert_eq!(decider.result(), Ok(Es));
    decider.compare(De, q("0"));
    assert_eq!(decider.result(), Ok(Es));
}

#[test]
fn code_text_round_trip() {
    assert_eq!(LangCode::Om.as_str(), "om");
    assert_eq!(LangCode::parse("om"), Some(LangCode::Om));
    assert_eq!(LangCode::parse(Da.as_str()), Some(Da));
    assert_eq!(LangCode::parse("OM"), None);
    assert_eq!(LangCode::parse("eng"), None);
    assert_eq!(LangCode::from_pair('z', 'u'), Some(LangCode::Zu));
}
