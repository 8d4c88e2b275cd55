use qsc_passes::debug::{CallStack, Frame, FunctorApp, GlobalId};
use qsc_passes::ty::{LocalItemId, PackageId};
use qsc_passes::span::Span;

fn frame(item: usize) -> Frame {
    Frame {
        span: Some(Span { lo: 1, hi: 5 }),
        id: GlobalId { package: PackageId(0), item: LocalItemId(item) },
        caller: PackageId(1),
        functor: FunctorApp { adjoint: false, controlled: 0 },
    }
}

#[test]
fn new_stack_is_empty() {
    let stack = CallStack::default();
    assert!(stack.is_empty());
    assert_eq!(stack.into_frames(), vec![]);
}

#[test]
fn push_then_pop_returns_innermost_first() {
    let mut stack = CallStack::default();
    stack.push_frame(frame(1));
    stack.push_frame(frame(2));
    assert!(!stack.is_empty());
    assert_eq!(stack.pop_frame(), Some(frame(2)));
    assert_eq!(stack.pop_frame(), Some(frame(1)));
    assert_eq!(stack.pop_frame(), None);
    assert!(stack.is_empty());
}

#[test]
fn into_frames_lists_outermost_first() {
    let mut stack = CallStack::default();
    stack.push_frame(frame(7));
    stack.push_frame(frame(8));
    assert_eq!(stack.into_frames(), vec![frame(7), frame(8)]);
}

#[test]
fn stacks_with_the_same_frames_are_equal() {
    let mut a = CallStack::default();
    let mut b = CallStack::default();
    assert!(a == b);
    a.push_frame(frame(1));
    assert!(a != b);
    b.push_frame(frame(1));
    assert!(a == b);
    b.push_frame(frame(2));
    assert!(a != b);
    a.push_frame(frame(3));
    assert!(a != b);
    assert!(a.clone() == a);
}
