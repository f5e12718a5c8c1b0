use chip8::fault::Fault;
use chip8::stack::Stack;

#[test]
fn new_stack_is_empty() {
    let s = Stack::new();
    assert!(s.is_empty());
    assert!(!s.is_full());
}

#[test]
fn pop_of_empty_stack_is_underflow() {
    let mut s = Stack::new();
    assert_eq!(s.pop(), Err(Fault::StackUnderflow));
    assert!(s.is_empty());
    assert_eq!(s.push(5), Ok(()));
    assert_eq!(s.pop(), Ok(5));
    assert_eq!(s.pop(), Err(Fault::StackUnderflow));
}

#[test]
fn push_then_pop_returns_the_address() {
    let mut s = Stack::new();
    assert_eq!(s.push(0x0ABC), Ok(()));
    assert!(!s.is_empty());
    assert_eq!(s.pop(), Ok(0x0ABC));
    assert!(s.is_empty());
}

#[test]
fn sixteen_pushes_succeed_and_the_next_overflows() {
    let mut s = Stack::new();
    for i in 0..16u16 {
        assert!(!s.is_full());
        assert_eq!(s.push(0x200 + i), Ok(()));
    }
    assert!(s.is_full());
    assert_eq!(s.push(0xFFFF), Err(Fault::StackOverflow));
    assert_eq!(s.push(0xFFFF), Err(Fault::StackOverflow));
    assert_eq!(s.pop(), Ok(0x20F));
}

#[test]
fn addresses_come_off_in_reverse_order() {
    let mut s = Stack::new();
    for i in 0..16u16 {
        assert_eq!(s.push(i * 3), Ok(()));
    }
    for i in (0..16u16).rev() {
        assert_eq!(s.pop(), Ok(i * 3));
    }
    assert_eq!(s.pop(), Err(Fault::StackUnderflow));
}

#[test]
fn stack_can_be_refilled_after_overflow() {
    let mut s = Stack::new();
    for i in 0..16u16 {
        assert_eq!(s.push(i), Ok(()));
    }
    assert_eq!(s.push(99), Err(Fault::StackOverflow));
    assert_eq!(s.pop(), Ok(15));
    assert_eq!(s.push(77), Ok(()));
    assert_eq!(s.pop(), Ok(77));
    assert_eq!(s.pop(), Ok(14));
}
