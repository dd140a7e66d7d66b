use llvm_obj::{build_fault, translate_outcome, Fault};

#[test]
fn null_message_pointer_gives_err_null() {
    assert!(matches!(build_fault(None), Fault::ErrNull));
}

#[test]
fn utf8_message_gives_text_with_exact_content() {
    let msg = b"No such file or directory".to_vec();
    match build_fault(Some(msg)) {
        Fault::ErrText(s) => assert_eq!(s, "No such file or directory"),
        _ => panic!("expected the text variant"),
    }
}

#[test]
fn empty_message_gives_empty_text() {
    match build_fault(Some(Vec::new())) {
        Fault::ErrText(s) => assert_eq!(s, ""),
        _ => panic!("expected the text variant"),
    }
}

#[test]
fn non_utf8_message_preserves_bytes() {
    let msg = vec![0xffu8, 0x66, 0x6f, 0x6f];
    match build_fault(Some(msg.clone())) {
        Fault::ErrUTF8(b) => assert_eq!(b, msg),
        _ => panic!("expected the raw-bytes variant"),
    }
}

#[test]
fn outcome_without_failure_is_ok_whatever_the_message() {
    assert!(translate_outcome(false, None).is_ok());
    assert!(translate_outcome(false, Some(b"ignored".to_vec())).is_ok());
}

#[test]
fn failed_outcome_translates_the_message() {
    assert!(matches!(
        translate_outcome(true, None),
        Err(Fault::ErrNull)
    ));
    match translate_outcome(true, Some(b"bad target".to_vec())) {
        Err(Fault::ErrText(s)) => assert_eq!(s, "bad target"),
        _ => panic!("expected a translated text fault"),
    }
    match translate_outcome(true, Some(vec![0x80u8])) {
        Err(Fault::ErrUTF8(b)) => assert_eq!(b, vec![0x80u8]),
        _ => panic!("expected a translated raw-bytes fault"),
    }
}
