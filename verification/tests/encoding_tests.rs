//! UTF-16 marshaling, environment blocks, and the SDDL grammar.

use rappct::{AppSid, AcError, WideBlock, is_valid_sddl_str, make_wide_block, to_utf16};

#[test]
fn wide_from_str_is_nul_terminated() {
    let w = to_utf16("abc");
    assert_eq!(w.last().copied(), Some(0));
    assert_eq!(&w[..w.len() - 1], &[97u16, 98, 99]);
}

#[test]
fn wide_handles_surrogate_pairs() {
    // U+1D11E (musical G clef) encodes as the surrogate pair D834 DD1E.
    let w = to_utf16("\u{1D11E}");
    assert_eq!(w, vec![0xD834u16, 0xDD1E, 0]);
}

#[test]
fn wide_block_len_and_is_empty() {
    let empty = WideBlock::new(vec![]);
    assert_eq!(empty.len(), 0);
    assert!(empty.is_empty());
    let with_data = WideBlock::new(vec![b'A' as u16, 0]);
    assert_eq!(with_data.len(), 2);
    assert!(!with_data.is_empty());
}

#[test]
fn make_block_sorts_and_terminates() {
    let block = make_wide_block(&[
        ("PATH".to_string(), "C:\\\\Windows".to_string()),
        (
            "ComSpec".to_string(),
            "C:\\\\Windows\\\\System32\\\\cmd.exe".to_string(),
        ),
    ]);

    let buf = block.as_slice();
    assert!(buf.len() >= 6, "block too short");
    assert_eq!(buf[buf.len() - 1], 0);
    assert_eq!(buf[buf.len() - 2], 0);

    let utf16 = &buf[..buf.len() - 1];
    let strings: Vec<String> = utf16
        .split(|c| *c == 0)
        .filter(|s| !s.is_empty())
        .map(|s| String::from_utf16(s).unwrap())
        .collect();

    assert_eq!(strings[0], "ComSpec=C:\\\\Windows\\\\System32\\\\cmd.exe");
    assert_eq!(strings[1], "PATH=C:\\\\Windows");
}

#[test]
fn empty_environment_block_is_one_nul() {
    let block = make_wide_block(&[]);
    assert_eq!(block.as_slice(), &[0u16]);
}

#[test]
fn sddl_grammar_accepts_well_known_sids() {
    assert!(is_valid_sddl_str("S-1-5-32-544"));
    assert!(is_valid_sddl_str("S-1-15-2-1"));
    assert!(is_valid_sddl_str(
        "S-1-15-3-1024-1065365936-1281604716-3511738428-1654721687-432734479-3232135806-4053264122-3456934681"
    ));
    assert!(is_valid_sddl_str("s-1-5-18"));
    assert!(is_valid_sddl_str("S-1-0"));
}

#[test]
fn sddl_grammar_rejects_malformed_strings() {
    assert!(!is_valid_sddl_str(""));
    assert!(!is_valid_sddl_str("invalid-sddl"));
    assert!(!is_valid_sddl_str("S-2-5-32"));
    assert!(!is_valid_sddl_str("S-1-"));
    assert!(!is_valid_sddl_str("S-1-5-"));
    assert!(!is_valid_sddl_str("S-1-5--1"));
    assert!(!is_valid_sddl_str("S-1-5-32-544-"));
    // One sub-authority at the 32-bit boundary.
    assert!(is_valid_sddl_str("S-1-5-4294967295"));
    assert!(!is_valid_sddl_str("S-1-5-4294967296"));
    // More than fifteen sub-authorities.
    assert!(!is_valid_sddl_str(
        "S-1-5-1-2-3-4-5-6-7-8-9-10-11-12-13-14-15-16"
    ));
}

#[test]
fn wide_of_empty_string_is_just_the_terminator() {
    assert_eq!(to_utf16(""), vec![0u16]);
}

#[test]
fn app_sid_from_app_container_checks_the_grammar() {
    let good = rappct::AppContainerSid::from_sddl("S-1-15-2-1");
    assert!(AppSid::from_app_container(&good).is_ok());
    let bad = rappct::AppContainerSid::from_sddl("S-1-15-2-");
    match AppSid::from_app_container(&bad) {
        Err(AcError::InvalidSid(d)) => assert_eq!(d, "S-1-15-2-"),
        other => panic!("should fail for invalid SID, got {other:?}"),
    }
}

#[test]
fn app_sid_validates_on_construction() {
    let ok = AppSid::from_sddl("S-1-5-32-544").expect("well-formed SID");
    let _ = ok.clone();
    match AppSid::from_sddl("invalid-sddl") {
        Err(AcError::InvalidSid(d)) => assert_eq!(d, "invalid-sddl"),
        other => panic!("should fail for invalid SID, got {other:?}"),
    }
}
