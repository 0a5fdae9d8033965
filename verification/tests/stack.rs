use shared_handle::stack::SimpleStack;

#[test]
fn pop_returns_last_pushed_first() {
    let mut stack = SimpleStack::new();
    stack.push(1);
    stack.push(2);
    stack.push(3);
    assert_eq!(stack.pop(), Some(3));
    assert_eq!(stack.pop(), Some(2));
    stack.push(4);
    assert_eq!(stack.pop(), Some(4));
    assert_eq!(stack.pop(), Some(1));
    assert_eq!(stack.pop(), None);
}

#[test]
fn pop_on_empty_yields_nothing() {
    let mut stack: SimpleStack<u32> = SimpleStack::new();
    assert_eq!(stack.pop(), None);
    assert_eq!(stack.len(), 0);
}

#[test]
fn len_follows_pushes_and_pops() {
    let mut stack = SimpleStack::new();
    assert_eq!(stack.len(), 0);
    stack.push("a");
    stack.push("b");
    assert_eq!(stack.len(), 2);
    let _ = stack.pop();
    assert_eq!(stack.len(), 1);
}
