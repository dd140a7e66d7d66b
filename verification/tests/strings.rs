use llvm_obj::{str_has_nul, CBuf, Fault, LLVMod};

#[test]
fn buffer_keeps_content_and_adds_terminator() {
    let c = CBuf::new("hello").unwrap();
    assert_eq!(c.as_bytes_with_nul(), b"hello\0");
}

#[test]
fn empty_string_becomes_bare_terminator() {
    let c = CBuf::new("").unwrap();
    assert_eq!(c.as_bytes_with_nul(), b"\0");
}

#[test]
fn embedded_nul_is_refused_with_null_ptr() {
    assert!(matches!(CBuf::new("a\0b"), Err(Fault::NullPtr)));
}

#[test]
fn byte_buffer_with_nul_is_refused() {
    assert!(matches!(
        CBuf::from_bytes(vec![1u8, 2, 0, 3]),
        Err(Fault::NullPtr)
    ));
}

#[test]
fn byte_buffer_without_nul_is_kept() {
    let c = CBuf::from_bytes(vec![0xf0u8, 0x9f, 0x92, 0x96]).unwrap();
    assert_eq!(c.as_bytes_with_nul(), &[0xf0u8, 0x9f, 0x92, 0x96, 0]);
}

#[test]
fn nul_scan_finds_embedded_nul_only() {
    assert!(str_has_nul("a\0b"));
    assert!(str_has_nul("\0"));
    assert!(!str_has_nul(""));
    assert!(!str_has_nul("plain text"));
}

#[test]
fn module_with_empty_name_succeeds() {
    let m = LLVMod::new("").unwrap();
    assert_eq!(m.buffer_count(), 1);
    assert_eq!(m.buffer(0).as_bytes_with_nul(), b"\0");
}

#[test]
fn module_name_with_nul_fails() {
    assert!(matches!(LLVMod::new("foo\0bar"), Err(Fault::NullPtr)));
}

#[test]
fn module_retains_every_string_in_order() {
    let mut m = LLVMod::new("unit").unwrap();
    assert_eq!(m.add_str("define void @f() { ret void }").unwrap(), 1);
    assert_eq!(m.add_str("out.o").unwrap(), 2);
    assert_eq!(m.buffer_count(), 3);
    assert_eq!(m.buffer(0).as_bytes_with_nul(), b"unit\0");
    assert_eq!(
        m.buffer(1).as_bytes_with_nul(),
        b"define void @f() { ret void }\0"
    );
    assert_eq!(m.buffer(2).as_bytes_with_nul(), b"out.o\0");
}

#[test]
fn rejected_string_leaves_the_module_unchanged() {
    let mut m = LLVMod::new("unit").unwrap();
    assert!(matches!(m.add_str("bad\0path"), Err(Fault::NullPtr)));
    assert_eq!(m.buffer_count(), 1);
    assert_eq!(m.buffer(0).as_bytes_with_nul(), b"unit\0");
}

#[test]
fn multibyte_text_is_kept_byte_for_byte() {
    let c = CBuf::new("héllo").unwrap();
    assert_eq!(c.as_bytes_with_nul(), "héllo\0".as_bytes());
    assert!(!str_has_nul("héllo"));
}
