use rsnex::errors::LoadError;
use rsnex::object::Bytecode;

#[test]
fn pool_empty_section_is_empty_table() {
    assert_eq!(Bytecode::get_strtable(&[]), Ok(Vec::new()));
}

#[test]
fn pool_reproduces_the_list_and_indices() {
    let bytes = [3, b'f', b'o', b'o', 3, b'b', b'a', b'r', 1, b'z'];
    let table = Bytecode::get_strtable(&bytes).unwrap();
    assert_eq!(table, vec!["foo".to_string(), "bar".to_string(), "z".to_string()]);
    assert_eq!(table[0], "foo");
    assert_eq!(table[2], "z");
}

#[test]
fn pool_empty_string_entries() {
    let bytes = [0, 0, 2, b'o', b'k'];
    let table = Bytecode::get_strtable(&bytes).unwrap();
    assert_eq!(table, vec!["".to_string(), "".to_string(), "ok".to_string()]);
}

#[test]
fn pool_multibyte_utf8_entry() {
    // One entry holding a two-byte UTF-8 scalar.
    let bytes = [2, 0xc3, 0xa9];
    let table = Bytecode::get_strtable(&bytes).unwrap();
    assert_eq!(table, vec!["\u{e9}".to_string()]);
}

#[test]
fn pool_entry_longer_than_section_fails() {
    let bytes = [5, b'h', b'i'];
    assert_eq!(Bytecode::get_strtable(&bytes), Err(LoadError::TruncatedString));
}

#[test]
fn pool_invalid_utf8_entry_fails() {
    let bytes = [1, 0xff];
    assert_eq!(Bytecode::get_strtable(&bytes), Err(LoadError::InvalidUtf8));
}

#[test]
fn pool_unterminated_length_fails() {
    let bytes = [0x80];
    assert_eq!(Bytecode::get_strtable(&bytes), Err(LoadError::TruncatedVint));
}
