use azubitafel::enumerate::{find_variant, Enumerate, YesNo};

#[test]
fn yes_and_no_are_listed_with_their_alternatives() {
    assert_eq!(YesNo::variants(), &["Yes", "No"]);
    let alternatives = YesNo::alternatives();
    assert_eq!(alternatives.len(), 2);
    assert_eq!(alternatives[0], &["Yes", "y", "j"]);
    assert_eq!(alternatives[1], &["No", "n"]);
}

#[test]
fn answers_are_read_by_name_and_by_alternative() {
    assert_eq!(YesNo::parse("yes"), Some(YesNo::Yes));
    assert_eq!(YesNo::parse("y"), Some(YesNo::Yes));
    assert_eq!(YesNo::parse("j"), Some(YesNo::Yes));
    assert_eq!(YesNo::parse("no"), Some(YesNo::No));
    assert_eq!(YesNo::parse("n"), Some(YesNo::No));
}

#[test]
fn letter_case_of_the_answer_is_ignored() {
    assert_eq!(YesNo::parse("Yes"), Some(YesNo::Yes));
    assert_eq!(YesNo::parse("YES"), Some(YesNo::Yes));
    assert_eq!(YesNo::parse("yEs"), Some(YesNo::Yes));
    assert_eq!(YesNo::parse("Y"), Some(YesNo::Yes));
    assert_eq!(YesNo::parse("J"), Some(YesNo::Yes));
    assert_eq!(YesNo::parse("NO"), Some(YesNo::No));
    assert_eq!(YesNo::parse("N"), Some(YesNo::No));
}

#[test]
fn anything_else_is_no_answer() {
    assert_eq!(YesNo::parse(""), None);
    assert_eq!(YesNo::parse("maybe"), None);
    assert_eq!(YesNo::parse("ja"), None);
    assert_eq!(YesNo::parse(" yes"), None);
    assert_eq!(YesNo::parse("yes "), None);
    assert_eq!(YesNo::parse("ye"), None);
    assert_eq!(YesNo::parse("nein"), None);
}

#[test]
fn first_variant_that_has_the_name_is_found() {
    let table: &[&'static [&'static str]] = &[&["Red", "r"], &["Green", "g", "r"], &[], &["Blue"]];
    assert_eq!(find_variant(table, "red"), Some(0));
    assert_eq!(find_variant(table, "R"), Some(0));
    assert_eq!(find_variant(table, "G"), Some(1));
    assert_eq!(find_variant(table, "BLUE"), Some(3));
    assert_eq!(find_variant(table, "yellow"), None);
    assert_eq!(find_variant(&[], "red"), None);
}

#[test]
fn only_ascii_capitals_are_folded() {
    let table: &[&'static [&'static str]] = &[&["\u{e4}"], &["\u{c4}"], &["k"]];
    assert_eq!(find_variant(table, "\u{c4}"), Some(1));
    assert_eq!(find_variant(table, "\u{e4}"), Some(0));
    // the Kelvin sign lowers to "k" in Unicode, but it is no ASCII capital
    assert_eq!(find_variant(table, "\u{212a}"), None);
    assert_eq!(find_variant(table, "K"), Some(2));
}
