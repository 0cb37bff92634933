use bill_manager::input::get_input;

#[test]
fn entry_is_the_line_without_outer_whitespace() {
    assert_eq!(get_input("Rent\n"), Some(String::from("Rent")));
    assert_eq!(get_input("  Rent  \r\n"), Some(String::from("Rent")));
    assert_eq!(get_input("\t1"), Some(String::from("1")));
    assert_eq!(get_input("x"), Some(String::from("x")));
}

#[test]
fn inner_whitespace_stays() {
    assert_eq!(get_input(" water  and\tgas \n"), Some(String::from("water  and\tgas")));
}

#[test]
fn blank_lines_hold_no_entry() {
    assert_eq!(get_input(""), None);
    assert_eq!(get_input("\n"), None);
    assert_eq!(get_input("\r\n"), None);
    assert_eq!(get_input("   \t \n"), None);
}

#[test]
fn whitespace_beyond_ascii_is_trimmed_too() {
    assert_eq!(get_input("\u{3000}\u{a0}Miete\u{2003}\u{85}\n"), Some(String::from("Miete")));
    assert_eq!(get_input("\u{2028}\u{1680}"), None);
}

#[test]
fn characters_that_are_not_whitespace_stay_at_the_ends() {
    assert_eq!(get_input("\u{200b}a\u{200b}"), Some(String::from("\u{200b}a\u{200b}")));
    assert_eq!(get_input(" é日本 "), Some(String::from("é日本")));
    assert_eq!(get_input("_ _"), Some(String::from("_ _")));
}

#[test]
fn entry_agrees_with_trim_of_the_standard_library() {
    for line in ["", " ", "a", " a", "a ", " a b ", "\n\ta\u{a0}", "\u{feff}a", "1\n", "  75.25\r\n"] {
        let expected = if line.trim().is_empty() { None } else { Some(line.trim().to_owned()) };
        assert_eq!(get_input(line), expected, "line {:?}", line);
    }
}
