use lngh_strings::DebugText;
use lngh_strings::WriteDebugStringExt;
use lngh_strings::WriteLnDebugStringExt;

#[test]
fn debug_positive_int() {
    let mut string = String::new();
    string.write_debug(407);
    assert_eq!("407", string);
}

#[test]
fn debug_zero() {
    let mut string = String::new();
    string.write_debug(0);
    assert_eq!("0", string);
}

#[test]
fn debug_negative_int() {
    let mut string = String::new();
    string.write_debug(-5);
    assert_eq!("-5", string);
}

#[test]
fn debug_min_int() {
    let mut string = String::new();
    string.write_debug(i32::MIN);
    assert_eq!("-2147483648", string);
    assert_eq!(format!("{:?}", i32::MIN), string);
}

#[test]
fn debug_max_int() {
    let mut string = String::new();
    string.write_debug(i32::MAX);
    assert_eq!("2147483647", string);
}

#[test]
fn debug_plain_char() {
    let mut string = String::new();
    string.write_debug('x');
    assert_eq!("'x'", string);
    assert_eq!(format!("{:?}", 'x'), string);
}

#[test]
fn debug_escaped_chars() {
    let mut string = String::new();
    string
        .write_debug('\n')
        .write_debug('\t')
        .write_debug('\r')
        .write_debug('\\')
        .write_debug('\'');
    assert_eq!("'\\n''\\t''\\r''\\\\''\\''", string);
    assert_eq!(
        format!("{:?}{:?}{:?}{:?}{:?}", '\n', '\t', '\r', '\\', '\''),
        string
    );
}

#[test]
fn debug_pair_matches_std_debug() {
    let item = (1, 'a');
    let mut string = String::new();
    string.write_debug(item);
    assert_eq!(format!("{:?}", item), string);
}

#[test]
fn debug_triple_matches_std_debug() {
    let item = (255, 27, 141);
    let mut string = String::new();
    string.write_debug(item);
    assert_eq!(format!("{:?}", item), string);
}

#[test]
fn debug_nested_tuple() {
    let item = (1, (-2, 'b'));
    let mut string = String::new();
    string.write_debug(item);
    assert_eq!("(1, (-2, 'b'))", string);
    assert_eq!(format!("{:?}", item), string);
}

#[test]
fn debug_text_alone() {
    let item = (10, 'z');
    assert_eq!("(10, 'z')", item.debug_text());
}

#[test]
fn writeln_debug_adds_one_newline() {
    let mut string = String::new();
    string.writeln_debug((7, 'q'));
    assert_eq!("(7, 'q')\n", string);
}
