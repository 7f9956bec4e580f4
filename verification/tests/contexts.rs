use cef_bridge::abi::{Args, Call, Operation, Reply, Foreign};
use cef_bridge::error::BridgeError;
use cef_bridge::handles::{Browser, DictionaryValue, Frame};
use cef_bridge::v8_context::V8Context;
use std::cell::{Cell, RefCell};

fn copy_of(call: &Call) -> Call {
    let args = match &call.args {
        Args::Empty => Args::Empty,
        Args::Int(i) => Args::Int(*i),
        Args::Handle(h) => Args::Handle(*h),
        Args::Text(s) => Args::Text(s.to_string()),
        Args::IntHandle(i, h) => Args::IntHandle(*i, *h),
        Args::TextHandle(s, h) => Args::TextHandle(s.to_string(), *h),
        Args::TextHandleAttribute(s, h, a) => Args::TextHandleAttribute(s.to_string(), *h, *a),
    };
    Call { op: call.op, receiver: call.receiver, args }
}

/// A stand-in for the engine's side of one context: it keeps the context
/// stack and a record of every call.
struct Stack {
    valid: Cell<bool>,
    refuse: Cell<bool>,
    depth: Cell<i32>,
    unset: RefCell<Vec<Operation>>,
    released: RefCell<Vec<usize>>,
    calls: RefCell<Vec<Call>>,
}

impl Stack {
    fn new() -> Self {
        Stack {
            valid: Cell::new(true),
            refuse: Cell::new(false),
            depth: Cell::new(0),
            unset: RefCell::new(Vec::new()),
            released: RefCell::new(Vec::new()),
            calls: RefCell::new(Vec::new()),
        }
    }

    fn ops(&self) -> Vec<Operation> {
        self.calls.borrow().iter().map(|c| c.op).collect()
    }

    fn answer(&self, call: Call) -> Option<Reply> {
        self.calls.borrow_mut().push(copy_of(&call));
        if self.unset.borrow().contains(&call.op) {
            return None;
        }
        match (call.op, call.args) {
            (Operation::ContextIsValid, _) => Some(Reply::Int(self.valid.get() as i32)),
            (Operation::ContextEnter, _) => {
                if self.refuse.get() {
                    Some(Reply::Int(0))
                } else {
                    self.depth.set(self.depth.get() + 1);
                    Some(Reply::Int(1))
                }
            }
            (Operation::ContextExit, _) => {
                if self.refuse.get() || self.depth.get() == 0 {
                    Some(Reply::Int(0))
                } else {
                    self.depth.set(self.depth.get() - 1);
                    Some(Reply::Int(1))
                }
            }
            (Operation::ContextGetBrowser, _) => Some(Reply::Handle(0xb0)),
            (Operation::ContextGetFrame, _) => Some(Reply::Handle(0xf0)),
            (Operation::ContextGetGlobal, _) => Some(Reply::Handle(0x60)),
            (Operation::ContextIsSame, Args::Handle(that)) => {
                Some(Reply::Int((that == call.receiver) as i32))
            }
            (Operation::CurrentContext, _) => Some(Reply::Handle(0xc0)),
            (Operation::EnteredContext, _) => Some(Reply::Handle(0xe0)),
            (Operation::InContext, _) => Some(Reply::Int((self.depth.get() > 0) as i32)),
            (Operation::AddRef, _) => Some(Reply::Void),
            (Operation::Release, _) => {
                self.released.borrow_mut().push(call.receiver);
                Some(Reply::Int(1))
            }
            _ => Some(Reply::Void),
        }
    }
}

#[test]
fn context_from_null_is_absent() {
    assert!(V8Context::from_ptr(0).is_none());
    let c = V8Context::from_ptr(0xc0).unwrap();
    assert_eq!(c.as_ptr(), 0xc0);
    assert_eq!(c.open_scopes(), 0);
    assert_eq!(c.into_ptr().into_raw(), 0xc0);
}

#[test]
fn collaborator_handles_from_null_are_absent() {
    assert!(Browser::from_ptr(0).is_none());
    assert!(Frame::from_ptr(0).is_none());
    assert!(DictionaryValue::from_ptr(0).is_none());
    assert_eq!(Browser::from_ptr(0xb0).unwrap().as_ptr(), 0xb0);
    assert_eq!(Frame::from_ptr(0xf0).unwrap().as_ptr(), 0xf0);
    assert_eq!(DictionaryValue::from_ptr(0xd0).unwrap().as_ptr(), 0xd0);
    assert_eq!(Browser::from_ptr(0xb0).unwrap().into_ptr().into_raw(), 0xb0);
    assert_eq!(Frame::from_ptr(0xf0).unwrap().into_ptr().into_raw(), 0xf0);
    assert_eq!(DictionaryValue::from_ptr(0xd0).unwrap().into_ptr().into_raw(), 0xd0);
}

#[test]
fn enter_twice_and_exit_twice_ends_at_depth_zero() {
    let stack = Stack::new();
    let mut foreign = Foreign::new(|c: Call| stack.answer(c));
    let mut context = V8Context::from_ptr(0xc0).unwrap();
    assert_eq!(context.enter(&mut foreign), Ok(true));
    assert_eq!(context.open_scopes(), 1);
    assert_eq!(context.enter(&mut foreign), Ok(true));
    assert_eq!(context.open_scopes(), 2);
    assert_eq!(stack.depth.get(), 2);
    assert_eq!(context.exit(&mut foreign), Ok(true));
    assert_eq!(context.open_scopes(), 1);
    assert_eq!(context.exit(&mut foreign), Ok(true));
    assert_eq!(context.open_scopes(), 0);
    assert_eq!(stack.depth.get(), 0);
}

#[test]
fn exit_without_enter_is_a_failure() {
    let stack = Stack::new();
    let mut foreign = Foreign::new(|c: Call| stack.answer(c));
    let mut context = V8Context::from_ptr(0xc0).unwrap();
    assert_eq!(context.exit(&mut foreign), Err(BridgeError::NotEntered));
    assert!(stack.calls.borrow().is_empty());
    assert_eq!(context.open_scopes(), 0);
}

#[test]
fn one_exit_too_many_is_a_failure() {
    let stack = Stack::new();
    let mut foreign = Foreign::new(|c: Call| stack.answer(c));
    let mut context = V8Context::from_ptr(0xc0).unwrap();
    assert_eq!(context.enter(&mut foreign), Ok(true));
    assert_eq!(context.exit(&mut foreign), Ok(true));
    assert_eq!(context.exit(&mut foreign), Err(BridgeError::NotEntered));
    assert_eq!(stack.depth.get(), 0);
}

#[test]
fn enter_hands_over_the_receiver_after_the_validity_check() {
    let stack = Stack::new();
    let mut foreign = Foreign::new(|c: Call| stack.answer(c));
    let mut context = V8Context::from_ptr(0xc0).unwrap();
    let _ = context.enter(&mut foreign);
    assert_eq!(
        stack.calls.borrow().as_slice(),
        &[
            Call { op: Operation::ContextIsValid, receiver: 0xc0, args: Args::Empty },
            Call { op: Operation::ContextEnter, receiver: 0xc0, args: Args::Empty },
        ]
    );
}

#[test]
fn a_refused_enter_opens_no_scope() {
    let stack = Stack::new();
    let mut foreign = Foreign::new(|c: Call| stack.answer(c));
    let mut context = V8Context::from_ptr(0xc0).unwrap();
    stack.refuse.set(true);
    assert_eq!(context.enter(&mut foreign), Ok(false));
    assert_eq!(context.open_scopes(), 0);
    assert_eq!(context.exit(&mut foreign), Err(BridgeError::NotEntered));
}

#[test]
fn a_refused_exit_keeps_the_scope_open() {
    let stack = Stack::new();
    let mut foreign = Foreign::new(|c: Call| stack.answer(c));
    let mut context = V8Context::from_ptr(0xc0).unwrap();
    assert_eq!(context.enter(&mut foreign), Ok(true));
    stack.refuse.set(true);
    assert_eq!(context.exit(&mut foreign), Ok(false));
    assert_eq!(context.open_scopes(), 1);
    stack.refuse.set(false);
    assert_eq!(context.exit(&mut foreign), Ok(true));
    assert_eq!(context.open_scopes(), 0);
}

#[test]
fn enter_and_exit_on_an_invalid_context() {
    let stack = Stack::new();
    let mut foreign = Foreign::new(|c: Call| stack.answer(c));
    let mut context = V8Context::from_ptr(0xc0).unwrap();
    stack.valid.set(false);
    assert_eq!(context.enter(&mut foreign), Err(BridgeError::InvalidHandle));
    assert_eq!(context.open_scopes(), 0);
    stack.valid.set(true);
    assert_eq!(context.enter(&mut foreign), Ok(true));
    stack.valid.set(false);
    assert_eq!(context.exit(&mut foreign), Err(BridgeError::InvalidHandle));
    assert_eq!(context.open_scopes(), 1);
}

#[test]
fn enter_with_an_unset_entry() {
    let stack = Stack::new();
    let mut foreign = Foreign::new(|c: Call| stack.answer(c));
    let mut context = V8Context::from_ptr(0xc0).unwrap();
    stack.unset.borrow_mut().push(Operation::ContextEnter);
    assert_eq!(
        context.enter(&mut foreign),
        Err(BridgeError::MissingOperation(Operation::ContextEnter))
    );
    assert_eq!(context.open_scopes(), 0);
}

#[test]
fn in_scope_enters_runs_and_leaves() {
    let stack = Stack::new();
    let mut foreign = Foreign::new(|c: Call| stack.answer(c));
    let mut context = V8Context::from_ptr(0xc0).unwrap();
    let seen = Cell::new(-1);
    let res = context.in_scope(&mut foreign, |_f| {
        seen.set(stack.depth.get());
        7u8
    });
    assert_eq!(res, Ok(7));
    assert_eq!(seen.get(), 1);
    assert_eq!(stack.depth.get(), 0);
    assert_eq!(context.open_scopes(), 0);
    assert_eq!(
        stack.ops(),
        vec![
            Operation::ContextIsValid,
            Operation::ContextEnter,
            Operation::ContextIsValid,
            Operation::ContextExit,
        ]
    );
}

#[test]
fn in_scope_leaves_when_the_body_reports_a_failure() {
    let stack = Stack::new();
    let mut foreign = Foreign::new(|c: Call| stack.answer(c));
    let mut context = V8Context::from_ptr(0xc0).unwrap();
    let res: Result<Result<u8, &str>, BridgeError> = context.in_scope(&mut foreign, |_f| Err("failed"));
    assert_eq!(res, Ok(Err("failed")));
    assert_eq!(stack.depth.get(), 0);
    assert_eq!(context.open_scopes(), 0);
}

#[test]
fn in_scope_does_not_run_the_body_when_the_scope_is_not_entered() {
    let stack = Stack::new();
    let mut foreign = Foreign::new(|c: Call| stack.answer(c));
    let mut context = V8Context::from_ptr(0xc0).unwrap();
    let ran = Cell::new(false);
    stack.refuse.set(true);
    assert_eq!(context.in_scope(&mut foreign, |_f| ran.set(true)), Err(BridgeError::ScopeRefused));
    stack.refuse.set(false);
    stack.valid.set(false);
    assert_eq!(context.in_scope(&mut foreign, |_f| ran.set(true)), Err(BridgeError::InvalidHandle));
    assert!(!ran.get());
    assert_eq!(context.open_scopes(), 0);
    assert!(!stack.ops().contains(&Operation::ContextExit));
}

#[test]
fn in_scope_nests() {
    let stack = Stack::new();
    let mut foreign = Foreign::new(|c: Call| stack.answer(c));
    let mut context = V8Context::from_ptr(0xc0).unwrap();
    assert_eq!(context.enter(&mut foreign), Ok(true));
    assert_eq!(context.in_scope(&mut foreign, |_f| stack.depth.get()), Ok(2));
    assert_eq!(context.open_scopes(), 1);
    assert_eq!(context.exit(&mut foreign), Ok(true));
    assert_eq!(stack.depth.get(), 0);
}

#[test]
fn release_with_an_open_scope_is_refused() {
    let stack = Stack::new();
    let mut foreign = Foreign::new(|c: Call| stack.answer(c));
    let mut context = V8Context::from_ptr(0xc0).unwrap();
    assert_eq!(context.enter(&mut foreign), Ok(true));
    let mut back = match context.release(&mut foreign) {
        Err((BridgeError::ScopeStillEntered, Some(back))) => back,
        _ => panic!("released inside a scope"),
    };
    assert!(stack.calls.borrow().iter().all(|c| c.op != Operation::Release));
    assert!(stack.released.borrow().is_empty());
    assert_eq!(back.as_ptr(), 0xc0);
    assert_eq!(back.open_scopes(), 1);
    assert_eq!(back.exit(&mut foreign), Ok(true));
    assert!(matches!(back.release(&mut foreign), Ok(true)));
    assert_eq!(stack.released.borrow().as_slice(), &[0xc0]);
}

#[test]
fn release_with_all_scopes_left() {
    let stack = Stack::new();
    let mut foreign = Foreign::new(|c: Call| stack.answer(c));
    let mut context = V8Context::from_ptr(0xc0).unwrap();
    assert_eq!(context.enter(&mut foreign), Ok(true));
    assert_eq!(context.exit(&mut foreign), Ok(true));
    assert!(matches!(context.release(&mut foreign), Ok(true)));
    assert_eq!(stack.released.borrow().as_slice(), &[0xc0]);
}

#[test]
fn context_is_valid_reads_the_truth_value() {
    let stack = Stack::new();
    let mut foreign = Foreign::new(|c: Call| stack.answer(c));
    let context = V8Context::from_ptr(0xc0).unwrap();
    assert_eq!(context.is_valid(&mut foreign), Ok(true));
    stack.valid.set(false);
    assert_eq!(context.is_valid(&mut foreign), Ok(false));
    stack.unset.borrow_mut().push(Operation::ContextIsValid);
    assert_eq!(
        context.is_valid(&mut foreign),
        Err(BridgeError::MissingOperation(Operation::ContextIsValid))
    );
}

#[test]
fn context_hands_out_browser_frame_and_global() {
    let stack = Stack::new();
    let mut foreign = Foreign::new(|c: Call| stack.answer(c));
    let context = V8Context::from_ptr(0xc0).unwrap();
    assert_eq!(context.get_browser(&mut foreign).ok().unwrap().as_ptr(), 0xb0);
    assert_eq!(context.get_frame(&mut foreign).ok().unwrap().as_ptr(), 0xf0);
    assert_eq!(context.get_global(&mut foreign).ok().unwrap().as_ptr(), 0x60);
    assert_eq!(
        stack.ops(),
        vec![
            Operation::ContextIsValid,
            Operation::ContextGetBrowser,
            Operation::ContextIsValid,
            Operation::ContextGetFrame,
            Operation::ContextIsValid,
            Operation::ContextGetGlobal,
        ]
    );
    assert!(stack.calls.borrow().iter().all(|c| c.receiver == 0xc0));
}

#[test]
fn a_null_browser_frame_or_global_is_a_failed_operation() {
    let mut foreign = Foreign::new(|c: Call| match c.op {
        Operation::ContextIsValid => Some(Reply::Int(1)),
        _ => Some(Reply::Handle(0)),
    });
    let context = V8Context::from_ptr(0xc0).unwrap();
    assert!(matches!(
        context.get_browser(&mut foreign),
        Err(BridgeError::NullResult(Operation::ContextGetBrowser))
    ));
    assert!(matches!(
        context.get_frame(&mut foreign),
        Err(BridgeError::NullResult(Operation::ContextGetFrame))
    ));
    assert!(matches!(
        context.get_global(&mut foreign),
        Err(BridgeError::NullResult(Operation::ContextGetGlobal))
    ));
}

#[test]
fn context_getters_on_an_invalid_context() {
    let stack = Stack::new();
    let mut foreign = Foreign::new(|c: Call| stack.answer(c));
    let context = V8Context::from_ptr(0xc0).unwrap();
    stack.valid.set(false);
    assert!(matches!(context.get_browser(&mut foreign), Err(BridgeError::InvalidHandle)));
    assert!(matches!(context.get_frame(&mut foreign), Err(BridgeError::InvalidHandle)));
    assert!(matches!(context.get_global(&mut foreign), Err(BridgeError::InvalidHandle)));
}

#[test]
fn context_is_same_hands_the_other_reference_over() {
    let stack = Stack::new();
    let mut foreign = Foreign::new(|c: Call| stack.answer(c));
    let context = V8Context::from_ptr(0xc0).unwrap();
    let same = V8Context::from_ptr(0xc0).unwrap();
    let other = V8Context::from_ptr(0xc8).unwrap();
    assert_eq!(context.is_same(same, &mut foreign), Ok(true));
    assert_eq!(context.is_same(other, &mut foreign), Ok(false));
    assert_eq!(
        stack.calls.borrow()[3],
        Call { op: Operation::ContextIsSame, receiver: 0xc0, args: Args::Handle(0xc8) }
    );
    assert!(stack.released.borrow().is_empty());
}

#[test]
fn context_is_same_gives_the_reference_back_when_it_did_not_run() {
    let stack = Stack::new();
    let mut foreign = Foreign::new(|c: Call| stack.answer(c));
    let context = V8Context::from_ptr(0xc0).unwrap();
    stack.unset.borrow_mut().push(Operation::ContextIsSame);
    let other = V8Context::from_ptr(0xc8).unwrap();
    assert_eq!(
        context.is_same(other, &mut foreign),
        Err(BridgeError::MissingOperation(Operation::ContextIsSame))
    );
    assert_eq!(stack.released.borrow().as_slice(), &[0xc8]);
}

#[test]
fn engine_wide_context_queries() {
    let stack = Stack::new();
    let mut foreign = Foreign::new(|c: Call| stack.answer(c));
    assert_eq!(V8Context::in_context(&mut foreign), Ok(false));
    let mut current = V8Context::get_current_context(&mut foreign).ok().unwrap();
    assert_eq!(current.as_ptr(), 0xc0);
    assert_eq!(current.open_scopes(), 0);
    assert_eq!(V8Context::get_entered_context(&mut foreign).ok().unwrap().as_ptr(), 0xe0);
    assert_eq!(current.enter(&mut foreign), Ok(true));
    assert_eq!(V8Context::in_context(&mut foreign), Ok(true));
    assert_eq!(
        stack.calls.borrow()[0],
        Call { op: Operation::InContext, receiver: 0, args: Args::Empty }
    );
    assert_eq!(
        stack.calls.borrow()[1],
        Call { op: Operation::CurrentContext, receiver: 0, args: Args::Empty }
    );
}

#[test]
fn engine_wide_context_queries_that_fail() {
    let mut null = Foreign::new(|_c: Call| Some(Reply::Handle(0)));
    assert!(matches!(
        V8Context::get_current_context(&mut null),
        Err(BridgeError::NullResult(Operation::CurrentContext))
    ));
    assert!(matches!(
        V8Context::get_entered_context(&mut null),
        Err(BridgeError::NullResult(Operation::EnteredContext))
    ));
    assert_eq!(
        V8Context::in_context(&mut null),
        Err(BridgeError::UnexpectedReply(Operation::InContext))
    );
    let mut unset = Foreign::new(|_c: Call| None);
    assert!(matches!(
        V8Context::get_current_context(&mut unset),
        Err(BridgeError::MissingOperation(Operation::CurrentContext))
    ));
    assert_eq!(
        V8Context::in_context(&mut unset),
        Err(BridgeError::MissingOperation(Operation::InContext))
    );
    assert!(matches!(
        V8Context::wrap_reply(Operation::CurrentContext, Some(Reply::Int(1))),
        Err(BridgeError::UnexpectedReply(Operation::CurrentContext))
    ));
}

#[test]
fn a_lent_context_is_kept_by_cloning() {
    let stack = Stack::new();
    let mut foreign = Foreign::new(|c: Call| stack.answer(c));
    let mut lent = V8Context::from_ptr(0xc0).unwrap();
    assert_eq!(lent.enter(&mut foreign), Ok(true));
    let kept = lent.clone_ref(&mut foreign).ok().unwrap();
    assert_eq!(kept.as_ptr(), 0xc0);
    assert_eq!(kept.open_scopes(), 0);
    assert_eq!(lent.open_scopes(), 1);
    assert_eq!(stack.ops().last(), Some(&Operation::AddRef));
    assert!(matches!(kept.release(&mut foreign), Ok(true)));
}

#[test]
fn collaborator_handles_are_kept_by_cloning() {
    let stack = Stack::new();
    let mut foreign = Foreign::new(|c: Call| stack.answer(c));
    assert_eq!(Browser::from_ptr(0xb0).unwrap().clone_ref(&mut foreign).ok().unwrap().as_ptr(), 0xb0);
    assert_eq!(Frame::from_ptr(0xf0).unwrap().clone_ref(&mut foreign).ok().unwrap().as_ptr(), 0xf0);
    assert_eq!(
        DictionaryValue::from_ptr(0xd0).unwrap().clone_ref(&mut foreign).ok().unwrap().as_ptr(),
        0xd0
    );
    assert_eq!(
        stack.calls.borrow().as_slice(),
        &[
            Call { op: Operation::AddRef, receiver: 0xb0, args: Args::Empty },
            Call { op: Operation::AddRef, receiver: 0xf0, args: Args::Empty },
            Call { op: Operation::AddRef, receiver: 0xd0, args: Args::Empty },
        ]
    );
}

#[test]
fn in_scope_lends_the_foreign_side_to_the_body() {
    let stack = Stack::new();
    let mut foreign = Foreign::new(|c: Call| stack.answer(c));
    let mut context = V8Context::from_ptr(0xc0).unwrap();
    let res = context.in_scope(&mut foreign, |f| V8Context::in_context(f));
    assert_eq!(res, Ok(Ok(true)));
    assert_eq!(
        stack.ops(),
        vec![
            Operation::ContextIsValid,
            Operation::ContextEnter,
            Operation::InContext,
            Operation::ContextIsValid,
            Operation::ContextExit,
        ]
    );
    assert_eq!(V8Context::in_context(&mut foreign), Ok(false));
}

#[test]
fn each_context_accessor_asks_only_what_it_must() {
    let stack = Stack::new();
    let mut foreign = Foreign::new(|c: Call| stack.answer(c));
    let context = V8Context::from_ptr(0xc0).unwrap();
    let _ = context.is_valid(&mut foreign);
    assert_eq!(stack.ops(), vec![Operation::ContextIsValid]);
    let _ = context.get_frame(&mut foreign);
    let _ = context.get_global(&mut foreign);
    let _ = V8Context::get_current_context(&mut foreign);
    assert_eq!(
        stack.ops(),
        vec![
            Operation::ContextIsValid,
            Operation::ContextIsValid,
            Operation::ContextGetFrame,
            Operation::ContextIsValid,
            Operation::ContextGetGlobal,
            Operation::CurrentContext,
        ]
    );
    stack.valid.set(false);
    let _ = context.get_frame(&mut foreign);
    assert_eq!(stack.ops().len(), 7);
    assert_eq!(stack.ops().last(), Some(&Operation::ContextIsValid));
}

#[test]
fn release_with_an_unset_entry_is_reported() {
    let stack = Stack::new();
    let mut foreign = Foreign::new(|c: Call| stack.answer(c));
    stack.unset.borrow_mut().push(Operation::Release);
    stack.unset.borrow_mut().push(Operation::AddRef);
    let context = V8Context::from_ptr(0xc0).unwrap();
    assert!(matches!(
        context.clone_ref(&mut foreign),
        Err(BridgeError::MissingOperation(Operation::AddRef))
    ));
    assert!(matches!(
        context.release(&mut foreign),
        Err((BridgeError::MissingOperation(Operation::Release), None))
    ));
    assert!(matches!(
        Browser::from_ptr(0xb0).unwrap().clone_ref(&mut foreign),
        Err(BridgeError::MissingOperation(Operation::AddRef))
    ));
}
