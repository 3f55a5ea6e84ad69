use paper_plane::format::{decimal_string, fill_placeholders, freplace};

#[test]
fn decimal_of_numbers() {
    assert_eq!(decimal_string(0), "0");
    assert_eq!(decimal_string(7), "7");
    assert_eq!(decimal_string(1234567890), "1234567890");
    assert_eq!(decimal_string(-42), "-42");
    assert_eq!(decimal_string(i64::MIN), i64::MIN.to_string());
    assert_eq!(decimal_string(i64::MAX), i64::MAX.to_string());
}

#[test]
fn fill_placeholders_in_order() {
    assert_eq!(fill_placeholders("{} h {} min {} s", &[1, 2, 3]), "1 h 2 min 3 s");
    assert_eq!(fill_placeholders("{} s", &[-5]), "-5 s");
    assert_eq!(fill_placeholders("{} and {}", &[1]), "1 and {}");
    assert_eq!(fill_placeholders("no placeholder", &[1]), "no placeholder");
    assert_eq!(fill_placeholders("{{}", &[9]), "{9");
}

#[test]
fn freplace_replaces_named_variables() {
    assert_eq!(
        freplace("Failed to join chat: {error}".to_string(), &[("error", "timeout")]),
        "Failed to join chat: timeout"
    );
    assert_eq!(
        freplace("{a} {b} {a}".to_string(), &[("a", "x"), ("b", "y")]),
        "x y x"
    );
    // Variables are replaced one after the other: a value may hold a later
    // variable.
    assert_eq!(freplace("{a}".to_string(), &[("a", "{b}"), ("b", "c")]), "c");
    assert_eq!(freplace("no variables".to_string(), &[("a", "x")]), "no variables");
    assert_eq!(freplace("{num} members".to_string(), &[]), "{num} members");
}
