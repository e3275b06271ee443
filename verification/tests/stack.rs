use rustos::sync::stack::BoxStack;

#[test]
fn new_stack_has_requested_size() {
    let s = BoxStack::new(512);
    assert_eq!(s.len(), 512);
    assert!(s.as_slice().iter().all(|b| *b == 0));
}

#[test]
fn empty_stack() {
    let s = BoxStack::new(0);
    assert_eq!(s.len(), 0);
    assert_eq!(s.top(0x1000), 0x1000);
}

#[test]
fn top_is_end_rounded_down_to_16() {
    let s = BoxStack::new(512);
    assert_eq!(s.top(0x1000), 0x1200);
    assert_eq!(s.top(0x1003), 0x1200);
    assert_eq!(s.top(0x100f), 0x1200);
    assert_eq!(s.top(0x1010), 0x1210);
    let t = BoxStack::new(30);
    assert_eq!(t.top(7), 32);
}

#[test]
fn into_buffer_gives_the_bytes() {
    let s = BoxStack::new(64);
    let v = s.into_buffer();
    assert_eq!(v, vec![0u8; 64]);
}
