use paper_plane::phone::{
    calling_code_bounds, calling_code_highlight, calling_code_input, country_code_of_locales,
    number_for_country, preferred_country_code,
};

#[test]
fn country_codes_of_locales() {
    assert_eq!(country_code_of_locales("de-CH,en-US"), Some("CH".to_string()));
    assert_eq!(country_code_of_locales("en-US"), Some("US".to_string()));
    assert_eq!(country_code_of_locales("zh-Hant-TW"), Some("Hant".to_string()));
    assert_eq!(country_code_of_locales("fr"), None);
    assert_eq!(country_code_of_locales("fr,en-GB"), None);
    assert_eq!(country_code_of_locales(""), None);
    assert_eq!(country_code_of_locales("en-"), Some(String::new()));
}

#[test]
fn numbers_for_a_new_country() {
    assert_eq!(
        number_for_country("+1 555 0100", (0, 2), Some("49")),
        ("+49 555 0100".to_string(), 0, 3)
    );
    assert_eq!(
        number_for_country("  +1 555", (2, 4), Some("358")),
        ("  +358 555".to_string(), 2, 6)
    );
    assert_eq!(number_for_country("+1 555", (0, 2), None), ("+".to_string(), 0, 1));
    assert_eq!(number_for_country("+1", (0, 9), Some("7")), ("+7".to_string(), 0, 2));
}

#[test]
fn calling_code_typed() {
    assert_eq!(calling_code_input("+49 151"), Some((0, "49 151".to_string())));
    assert_eq!(calling_code_input("  +1 555  "), Some((2, "1 555".to_string())));
    assert_eq!(calling_code_input("0151"), None);
    assert_eq!(calling_code_input("   "), None);
    assert_eq!(calling_code_input(""), None);
    // The byte position of the `+` counts the bytes of the white space
    // before it.
    assert_eq!(calling_code_input("\u{3000}+12345"), Some((3, "345".to_string())));
    assert_eq!(calling_code_bounds(2, 3), (2, 6));
    assert_eq!(calling_code_highlight((2, 6)), Some((2, 6)));
    assert_eq!(calling_code_highlight((0, 0)), None);
}

#[test]
fn preferred_country() {
    let s = |x: &str| Some(x.to_string());
    assert_eq!(preferred_country_code(true, s("CA"), s("US"), true), s("CA"));
    assert_eq!(preferred_country_code(true, s("DE"), s("US"), false), s("US"));
    assert_eq!(preferred_country_code(false, s("CA"), s("US"), true), s("US"));
    assert_eq!(preferred_country_code(true, None, s("US"), true), s("US"));
    assert_eq!(preferred_country_code(true, s("CA"), None, true), None);
}
