use rsnex::errors::LoadError;
use rsnex::object::{Bytecode, Type};

fn vint(v: usize, out: &mut Vec<u8>) {
    let mut groups = vec![(v % 128) as u8];
    let mut x = v / 128;
    while x > 0 {
        groups.push((x % 128) as u8);
        x /= 128;
    }
    for (pos, g) in groups.iter().rev().enumerate() {
        if pos + 1 < groups.len() {
            out.push(g | 0x80);
        } else {
            out.push(*g);
        }
    }
}

fn module(
    global_size: usize,
    strings: &[&str],
    type_count: usize,
    type_pairs: &[(usize, usize)],
    code: &[u8],
) -> Vec<u8> {
    let mut b = vec![0u8; 32];
    vint(global_size, &mut b);
    let mut pool: Vec<u8> = Vec::new();
    for s in strings {
        vint(s.len(), &mut pool);
        pool.extend_from_slice(s.as_bytes());
    }
    vint(pool.len(), &mut b);
    b.extend_from_slice(&pool);
    vint(type_count, &mut b);
    for (n, d) in type_pairs {
        vint(*n, &mut b);
        vint(*d, &mut b);
    }
    for _ in 0..9 {
        vint(0, &mut b);
    }
    b.extend_from_slice(code);
    b
}

#[test]
fn loader_minimal_module() {
    let bytes = module(0, &[], 0, &[], &[]);
    let bc = Bytecode::new(&bytes).unwrap();
    assert_eq!(bc.source_hash, vec![0u8; 32]);
    assert_eq!(bc.global_size, 0);
    assert_eq!(bc.strtable, Vec::<String>::new());
    assert_eq!(bc.types, Vec::<Type>::new());
    assert_eq!(bc.code, Vec::<u8>::new());
}

#[test]
fn loader_fields_in_order() {
    let bytes = module(7, &["hello", "print"], 0, &[], &[4, 0, 84]);
    let bc = Bytecode::new(&bytes).unwrap();
    assert_eq!(bc.global_size, 7);
    assert_eq!(bc.strtable, vec!["hello".to_string(), "print".to_string()]);
    assert_eq!(bc.code, vec![4, 0, 84]);
}

#[test]
fn loader_type_table_holds_one_entry_fewer_than_declared() {
    // A declared count of 3 is followed by only 2 entries in the stream.
    let bytes = module(0, &[], 3, &[(1, 2), (3, 4)], &[]);
    let bc = Bytecode::new(&bytes).unwrap();
    assert_eq!(
        bc.types,
        vec![Type { name: 1, descriptor: 2 }, Type { name: 3, descriptor: 4 }]
    );
}

#[test]
fn loader_type_count_one_means_no_entries() {
    let bytes = module(0, &[], 1, &[], &[9]);
    let bc = Bytecode::new(&bytes).unwrap();
    assert_eq!(bc.types, Vec::<Type>::new());
    assert_eq!(bc.code, vec![9]);
}

#[test]
fn loader_buffer_shorter_than_hash_fails() {
    let bytes = vec![0u8; 10];
    assert!(matches!(Bytecode::new(&bytes), Err(LoadError::TruncatedHash)));
}

#[test]
fn loader_missing_header_after_hash_fails() {
    let bytes = vec![0u8; 32];
    assert!(matches!(Bytecode::new(&bytes), Err(LoadError::TruncatedVint)));
}

#[test]
fn loader_pool_longer_than_remaining_bytes_fails() {
    // Hash, zero globals, then a declared pool length of 200 with only two
    // bytes left.
    let mut bytes = vec![0u8; 32];
    vint(0, &mut bytes);
    vint(200, &mut bytes);
    bytes.extend_from_slice(&[1, b'a']);
    assert!(matches!(Bytecode::new(&bytes), Err(LoadError::TruncatedPool)));
}

#[test]
fn loader_nonempty_first_section_fails() {
    // Everything valid up to the sections, then the constants section (the
    // first of the nine) declares one entry.
    let mut bytes = vec![0u8; 32];
    vint(0, &mut bytes); // globals
    vint(0, &mut bytes); // empty pool
    vint(0, &mut bytes); // type count
    vint(1, &mut bytes); // constants: must be empty
    for _ in 0..8 {
        vint(0, &mut bytes);
    }
    assert!(matches!(
        Bytecode::new(&bytes),
        Err(LoadError::UnsupportedSection(0))
    ));
}

#[test]
fn loader_nonempty_last_section_fails() {
    let mut bytes = vec![0u8; 32];
    vint(0, &mut bytes);
    vint(0, &mut bytes);
    vint(0, &mut bytes);
    for _ in 0..8 {
        vint(0, &mut bytes);
    }
    vint(3, &mut bytes); // class table: must be empty
    assert!(matches!(
        Bytecode::new(&bytes),
        Err(LoadError::UnsupportedSection(8))
    ));
}

#[test]
fn loader_invalid_utf8_in_pool_fails() {
    let mut bytes = vec![0u8; 32];
    vint(0, &mut bytes);
    vint(2, &mut bytes); // pool of two bytes
    bytes.extend_from_slice(&[1, 0xff]); // one entry, not UTF-8
    vint(0, &mut bytes);
    for _ in 0..9 {
        vint(0, &mut bytes);
    }
    assert!(matches!(Bytecode::new(&bytes), Err(LoadError::InvalidUtf8)));
}

#[test]
fn loader_keeps_source_hash() {
    let mut bytes: Vec<u8> = (0u8..32).collect();
    vint(0, &mut bytes);
    vint(0, &mut bytes);
    vint(0, &mut bytes);
    for _ in 0..9 {
        vint(0, &mut bytes);
    }
    let bc = Bytecode::new(&bytes).unwrap();
    assert_eq!(bc.source_hash, (0u8..32).collect::<Vec<u8>>());
}
