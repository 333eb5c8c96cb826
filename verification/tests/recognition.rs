//! Command recognition: trimming, table construction and lookup, and the
//! line-buffered matching applied by both actors.

use virtualport::commands::{bytes_eq, copy_bytes, trim_bytes, CommandTable};

fn table_of(pairs: &[(&str, &str)]) -> CommandTable {
    let mut t = CommandTable::new();
    for (trigger, response) in pairs {
        t.insert(trigger.as_bytes().to_vec(), response.as_bytes().to_vec());
    }
    t
}

#[test]
fn trim_strips_both_ends() {
    assert_eq!(trim_bytes(&b"  PING \r\n".to_vec()), b"PING".to_vec());
    assert_eq!(trim_bytes(&b"PING".to_vec()), b"PING".to_vec());
    assert_eq!(trim_bytes(&b"\t\r\n ".to_vec()), b"".to_vec());
    assert_eq!(trim_bytes(&b"".to_vec()), b"".to_vec());
    assert_eq!(trim_bytes(&b"a b".to_vec()), b"a b".to_vec());
}

#[test]
fn bytes_eq_compares_contents() {
    assert!(bytes_eq(&b"abc".to_vec(), &b"abc".to_vec()));
    assert!(!bytes_eq(&b"abc".to_vec(), &b"abd".to_vec()));
    assert!(!bytes_eq(&b"abc".to_vec(), &b"ab".to_vec()));
    assert!(bytes_eq(&b"".to_vec(), &b"".to_vec()));
    assert_eq!(copy_bytes(&b"xyz".to_vec()), b"xyz".to_vec());
}

#[test]
fn lookup_finds_exact_match_only() {
    let t = table_of(&[("PING", "PONG"), ("AT", "OK")]);
    assert_eq!(t.lookup(&b"PING".to_vec()), Some(b"PONG".to_vec()));
    assert_eq!(t.lookup(&b"AT".to_vec()), Some(b"OK".to_vec()));
    assert_eq!(t.lookup(&b"PIN".to_vec()), None);
    assert_eq!(t.lookup(&b"PINGG".to_vec()), None);
    assert_eq!(t.lookup(&b"ping".to_vec()), None);
}

#[test]
fn later_duplicate_trigger_wins() {
    let t = table_of(&[("PING", "PONG"), ("PING", "PANG")]);
    assert_eq!(t.lookup(&b"PING".to_vec()), Some(b"PANG".to_vec()));
}

#[test]
fn recognize_trims_before_matching() {
    let t = table_of(&[("PING", "PONG")]);
    assert_eq!(t.recognize(&b"  PING\r\n".to_vec()), Some(b"PONG".to_vec()));
    assert_eq!(t.recognize(&b"PING\n".to_vec()), Some(b"PONG".to_vec()));
    assert_eq!(t.recognize(&b"PI NG\n".to_vec()), None);
}

#[test]
fn is_empty_reflects_entries() {
    let t = CommandTable::new();
    assert!(t.is_empty());
    let t = table_of(&[("PING", "PONG")]);
    assert!(!t.is_empty());
}

#[test]
fn from_lines_pairs_adjacent_lines() {
    let lines: Vec<Vec<u8>> = vec![
        b"PING".to_vec(),
        b"PONG".to_vec(),
        b"AT".to_vec(),
        b"OK".to_vec(),
    ];
    let t = CommandTable::from_lines(&lines);
    assert_eq!(t.lookup(&b"PING".to_vec()), Some(b"PONG".to_vec()));
    assert_eq!(t.lookup(&b"AT".to_vec()), Some(b"OK".to_vec()));
    assert_eq!(t.lookup(&b"PONG".to_vec()), None);
}

#[test]
fn from_lines_ignores_trailing_unpaired_line() {
    let lines: Vec<Vec<u8>> = vec![b"PING".to_vec(), b"PONG".to_vec(), b"DANGLING".to_vec()];
    let t = CommandTable::from_lines(&lines);
    assert_eq!(t.lookup(&b"PING".to_vec()), Some(b"PONG".to_vec()));
    assert_eq!(t.lookup(&b"DANGLING".to_vec()), None);
}

#[test]
fn from_lines_empty_file_gives_empty_table() {
    let lines: Vec<Vec<u8>> = Vec::new();
    let t = CommandTable::from_lines(&lines);
    assert!(t.is_empty());
    assert_eq!(t.lookup(&b"PING".to_vec()), None);
}
