use cef_bridge::abi::{flag_from_raw, flag_to_raw, invoke, Args, Call, Operation, Reply, Foreign};
use cef_bridge::error::BridgeError;
use cef_bridge::ref_counted::{RefCountedPtr, Wrapped};
use cef_bridge::reply::{
    fetch_handle, flag_of, gate_of, guarded_flag, guarded_invoke, handle_of, int_of, text_of,
    transfer_flag, uint_of,
};
use std::cell::{Cell, RefCell};

fn copy_of(call: &Call) -> Call {
    let args = match &call.args {
        Args::Empty => Args::Empty,
        Args::Int(i) => Args::Int(*i),
        Args::Handle(h) => Args::Handle(*h),
        Args::Text(s) => Args::Text(s.to_string()),
        Args::IntHandle(i, h) => Args::IntHandle(*i, *h),
        Args::TextHandle(s, h) => Args::TextHandle(s.to_string(), *h),
        Args::TextHandleAttribute(s, h, a) => Args::TextHandleAttribute(s.to_string(), *h, *a),
    };
    Call { op: call.op, receiver: call.receiver, args }
}

/// A foreign handle that records what is asked of its reference count.
struct CountingHandle {
    count: Cell<i64>,
    increments: Cell<u32>,
    decrements: Cell<u32>,
    log: RefCell<Vec<Call>>,
}

impl CountingHandle {
    fn starting_at(count: i64) -> Self {
        CountingHandle {
            count: Cell::new(count),
            increments: Cell::new(0),
            decrements: Cell::new(0),
            log: RefCell::new(Vec::new()),
        }
    }

    fn answer(&self, call: Call) -> Option<Reply> {
        self.log.borrow_mut().push(copy_of(&call));
        match call.op {
            Operation::AddRef => {
                self.count.set(self.count.get() + 1);
                self.increments.set(self.increments.get() + 1);
                Some(Reply::Void)
            }
            Operation::Release => {
                self.count.set(self.count.get() - 1);
                self.decrements.set(self.decrements.get() + 1);
                Some(Reply::Int(if self.count.get() == 0 { 1 } else { 0 }))
            }
            _ => None,
        }
    }
}

#[test]
fn wrap_of_null_is_absent() {
    assert!(RefCountedPtr::wrap(0).is_none());
}

#[test]
fn wrap_keeps_the_address() {
    let p = RefCountedPtr::wrap(0x1000).unwrap();
    assert_eq!(p.as_raw(), 0x1000);
    assert_eq!(p.into_raw(), 0x1000);
}

#[test]
fn wrap_makes_no_foreign_call() {
    let handle = CountingHandle::starting_at(1);
    let p = RefCountedPtr::wrap(0x20).unwrap();
    assert_eq!(p.as_raw(), 0x20);
    assert_eq!(handle.increments.get(), 0);
    assert_eq!(handle.count.get(), 1);
}

#[test]
fn clone_raises_the_foreign_count_once() {
    let handle = CountingHandle::starting_at(1);
    let mut foreign = Foreign::new(|c: Call| handle.answer(c));
    let p = RefCountedPtr::wrap(0x7700).unwrap();
    let q = p.clone_ref(&mut foreign).unwrap();
    assert_eq!(q.as_raw(), 0x7700);
    assert_eq!(handle.count.get(), 2);
    assert_eq!(
        handle.log.borrow().as_slice(),
        &[Call { op: Operation::AddRef, receiver: 0x7700, args: Args::Empty }]
    );
}

#[test]
fn release_lowers_the_foreign_count_once() {
    let handle = CountingHandle::starting_at(2);
    let mut foreign = Foreign::new(|c: Call| handle.answer(c));
    let p = RefCountedPtr::wrap(0x7700).unwrap();
    assert_eq!(p.release(&mut foreign), Ok(false));
    assert_eq!(handle.count.get(), 1);
    assert_eq!(
        handle.log.borrow().as_slice(),
        &[Call { op: Operation::Release, receiver: 0x7700, args: Args::Empty }]
    );
}

#[test]
fn release_of_the_last_reference_is_reported() {
    let handle = CountingHandle::starting_at(1);
    let mut foreign = Foreign::new(|c: Call| handle.answer(c));
    let p = RefCountedPtr::wrap(0x10).unwrap();
    assert_eq!(p.release(&mut foreign), Ok(true));
    assert_eq!(handle.count.get(), 0);
}

#[test]
fn release_reports_an_unset_entry_and_an_answer_of_another_shape() {
    let mut foreign = Foreign::new(|_c: Call| Some(Reply::Void));
    assert_eq!(
        RefCountedPtr::wrap(0x10).unwrap().release(&mut foreign),
        Err(BridgeError::UnexpectedReply(Operation::Release))
    );
    let mut unset = Foreign::new(|_c: Call| None);
    assert_eq!(
        RefCountedPtr::wrap(0x10).unwrap().release(&mut unset),
        Err(BridgeError::MissingOperation(Operation::Release))
    );
}

#[test]
fn clone_with_an_unset_entry_gives_no_second_owner() {
    let asked = Cell::new(0);
    let mut unset = Foreign::new(|_c: Call| {
        asked.set(asked.get() + 1);
        None
    });
    let p = RefCountedPtr::wrap(0x10).unwrap();
    assert!(matches!(
        p.clone_ref(&mut unset),
        Err(BridgeError::MissingOperation(Operation::AddRef))
    ));
    assert_eq!(asked.get(), 1);
    assert_eq!(p.into_raw(), 0x10);
}

#[test]
fn clones_then_drops_leave_what_the_others_hold() {
    for start in [1i64, 2, 5] {
        for n in [0usize, 1, 2, 7] {
            let handle = CountingHandle::starting_at(start);
            let mut foreign = Foreign::new(|c: Call| handle.answer(c));
            let first = RefCountedPtr::wrap(0x4000).unwrap();
            let mut all = vec![];
            for _ in 0..n {
                all.push(first.clone_ref(&mut foreign).unwrap());
            }
            all.push(first);
            assert_eq!(handle.count.get(), start + n as i64);
            let mut last_seen = 0;
            for (i, p) in all.into_iter().enumerate() {
                assert!(handle.count.get() >= start, "freed early at drop {}", i);
                if p.release(&mut foreign) == Ok(true) {
                    last_seen += 1;
                }
            }
            assert_eq!(handle.count.get(), start - 1);
            assert_eq!(handle.increments.get() as usize, n);
            assert_eq!(handle.decrements.get() as usize, n + 1);
            assert_eq!(last_seen, if start == 1 { 1 } else { 0 });
        }
    }
}

#[test]
fn into_raw_lowers_no_count() {
    let handle = CountingHandle::starting_at(1);
    let mut foreign = Foreign::new(|c: Call| handle.answer(c));
    let p = RefCountedPtr::wrap(0x99).unwrap();
    let q = p.clone_ref(&mut foreign).unwrap();
    let raw = q.into_raw();
    assert_eq!(raw, 0x99);
    assert_eq!(handle.count.get(), 2);
    assert_eq!(handle.decrements.get(), 0);
    let again = RefCountedPtr::wrap(raw).unwrap();
    assert_eq!(again.release(&mut foreign), Ok(false));
    assert_eq!(p.release(&mut foreign), Ok(true));
}

#[test]
fn new_record_has_one_reference() {
    let record = Wrapped::new(7u8, String::from("native"));
    assert_eq!(record.has_one_ref(), 1);
    assert_eq!(record.has_at_least_one_ref(), 1);
    assert_eq!(*record.get_table(), 7u8);
}

#[test]
fn record_recovers_the_object_it_was_made_for() {
    let mut record = Wrapped::new((), String::from("the native object"));
    assert_eq!(record.wrappable().unwrap().as_str(), "the native object");
    record.add_ref();
    record.add_ref();
    assert_eq!(record.release(), 0);
    assert_eq!(record.wrappable().unwrap().as_str(), "the native object");
    record.wrappable().unwrap().push_str(", changed in place");
    assert_eq!(record.wrappable().unwrap().as_str(), "the native object, changed in place");
}

#[test]
fn record_counts_references() {
    let mut record = Wrapped::new((), 5u32);
    record.add_ref();
    assert_eq!(record.has_one_ref(), 0);
    assert_eq!(record.has_at_least_one_ref(), 1);
    record.add_ref();
    assert_eq!(record.release(), 0);
    assert_eq!(record.release(), 0);
    assert_eq!(record.has_one_ref(), 1);
    assert_eq!(record.release(), 1);
    assert_eq!(record.has_one_ref(), 0);
    assert_eq!(record.has_at_least_one_ref(), 0);
}

#[test]
fn record_destroys_the_native_object_with_the_last_reference() {
    let marker = std::sync::Arc::new(());
    let mut record = Wrapped::new((), marker.clone());
    record.add_ref();
    assert_eq!(record.release(), 0);
    assert_eq!(std::sync::Arc::strong_count(&marker), 2);
    assert_eq!(record.release(), 1);
    assert_eq!(std::sync::Arc::strong_count(&marker), 1);
    assert!(record.wrappable().is_none());
}

#[test]
fn record_that_is_gone_stays_gone() {
    let mut record = Wrapped::new((), 1u8);
    assert_eq!(record.release(), 1);
    record.add_ref();
    assert_eq!(record.has_at_least_one_ref(), 0);
    assert!(record.wrappable().is_none());
    assert_eq!(record.release(), 0);
    assert_eq!(record.has_at_least_one_ref(), 0);
}

#[test]
fn record_after_n_clones_and_n_plus_one_drops() {
    for n in [0usize, 1, 3, 10] {
        let mut record = Wrapped::new((), 0u8);
        record.add_ref();
        for _ in 0..n {
            record.add_ref();
        }
        for _ in 0..n {
            assert_eq!(record.release(), 0);
        }
        assert_eq!(record.release(), 0);
        assert_eq!(record.has_one_ref(), 1);
    }
}

#[test]
fn foreign_truth_values() {
    assert!(!flag_from_raw(0));
    assert!(flag_from_raw(1));
    assert!(flag_from_raw(-1));
    assert!(flag_from_raw(i32::MAX));
    assert!(flag_from_raw(i32::MIN));
    assert_eq!(flag_to_raw(true), 1);
    assert_eq!(flag_to_raw(false), 0);
    assert!(flag_from_raw(flag_to_raw(true)));
    assert!(!flag_from_raw(flag_to_raw(false)));
}

#[test]
fn invoke_hands_over_the_call_as_built() {
    let seen = RefCell::new(Vec::new());
    let mut foreign = Foreign::new(|c: Call| {
        seen.borrow_mut().push(c);
        Some(Reply::Int(3))
    });
    let reply = invoke(&mut foreign, Operation::HasValueByKey, 0x50, Args::Text(String::from("k")));
    assert_eq!(reply, Some(Reply::Int(3)));
    assert_eq!(
        seen.borrow().as_slice(),
        &[Call {
            op: Operation::HasValueByKey,
            receiver: 0x50,
            args: Args::Text(String::from("k"))
        }]
    );
}

#[test]
fn flag_of_each_answer() {
    let op = Operation::IsInt;
    assert_eq!(flag_of(op, None), Err(BridgeError::MissingOperation(op)));
    assert_eq!(flag_of(op, Some(Reply::Int(0))), Ok(false));
    assert_eq!(flag_of(op, Some(Reply::Int(1))), Ok(true));
    assert_eq!(flag_of(op, Some(Reply::Int(-5))), Ok(true));
    assert_eq!(flag_of(op, Some(Reply::Uint(1))), Err(BridgeError::UnexpectedReply(op)));
    assert_eq!(flag_of(op, Some(Reply::Void)), Err(BridgeError::UnexpectedReply(op)));
    assert_eq!(flag_of(op, Some(Reply::Handle(4))), Err(BridgeError::UnexpectedReply(op)));
    assert_eq!(flag_of(op, Some(Reply::Text(None))), Err(BridgeError::UnexpectedReply(op)));
}

#[test]
fn int_of_each_answer() {
    let op = Operation::GetIntValue;
    assert_eq!(int_of(op, None), Err(BridgeError::MissingOperation(op)));
    assert_eq!(int_of(op, Some(Reply::Int(5))), Ok(5));
    assert_eq!(int_of(op, Some(Reply::Int(0))), Ok(0));
    assert_eq!(int_of(op, Some(Reply::Int(i32::MIN))), Ok(i32::MIN));
    assert_eq!(int_of(op, Some(Reply::Uint(5))), Err(BridgeError::UnexpectedReply(op)));
}

#[test]
fn uint_of_each_answer() {
    let op = Operation::GetUintValue;
    assert_eq!(uint_of(op, None), Err(BridgeError::MissingOperation(op)));
    assert_eq!(uint_of(op, Some(Reply::Uint(u32::MAX))), Ok(u32::MAX));
    assert_eq!(uint_of(op, Some(Reply::Int(5))), Err(BridgeError::UnexpectedReply(op)));
}

#[test]
fn text_of_each_answer() {
    let op = Operation::GetStringValue;
    assert_eq!(text_of(op, None), Err(BridgeError::MissingOperation(op)));
    assert_eq!(
        text_of(op, Some(Reply::Text(Some(String::from("hello"))))),
        Ok(String::from("hello"))
    );
    assert_eq!(text_of(op, Some(Reply::Text(Some(String::new())))), Ok(String::new()));
    assert_eq!(text_of(op, Some(Reply::Text(None))), Err(BridgeError::NullResult(op)));
    assert_eq!(text_of(op, Some(Reply::Int(1))), Err(BridgeError::UnexpectedReply(op)));
}

#[test]
fn handle_of_each_answer() {
    let op = Operation::GetValueByKey;
    assert_eq!(handle_of(op, None), Err(BridgeError::MissingOperation(op)));
    assert_eq!(handle_of(op, Some(Reply::Handle(0x30))), Ok(0x30));
    assert_eq!(handle_of(op, Some(Reply::Handle(0))), Err(BridgeError::NullResult(op)));
    assert_eq!(handle_of(op, Some(Reply::Int(0x30))), Err(BridgeError::UnexpectedReply(op)));
}

#[test]
fn gate_of_each_answer() {
    let op = Operation::ValueIsValid;
    assert_eq!(gate_of(op, None), Err(BridgeError::MissingOperation(op)));
    assert_eq!(gate_of(op, Some(Reply::Int(1))), Ok(()));
    assert_eq!(gate_of(op, Some(Reply::Int(-1))), Ok(()));
    assert_eq!(gate_of(op, Some(Reply::Int(0))), Err(BridgeError::InvalidHandle));
    assert_eq!(gate_of(op, Some(Reply::Void)), Err(BridgeError::UnexpectedReply(op)));
}

#[test]
fn guarded_call_asks_for_validity_first() {
    let seen = RefCell::new(Vec::new());
    let mut foreign = Foreign::new(|c: Call| {
        seen.borrow_mut().push(c.op);
        Some(Reply::Int(1))
    });
    let out = guarded_invoke(&mut foreign, Operation::ValueIsValid, Operation::IsInt, 0x8, Args::Empty);
    assert_eq!(out, Ok(Some(Reply::Int(1))));
    assert_eq!(seen.borrow().as_slice(), &[Operation::ValueIsValid, Operation::IsInt]);
}

#[test]
fn guarded_call_stops_at_an_invalid_handle() {
    let seen = RefCell::new(Vec::new());
    let mut foreign = Foreign::new(|c: Call| {
        seen.borrow_mut().push(c.op);
        Some(Reply::Int(0))
    });
    let out = guarded_invoke(&mut foreign, Operation::ValueIsValid, Operation::IsInt, 0x8, Args::Empty);
    assert_eq!(out, Err(BridgeError::InvalidHandle));
    assert_eq!(seen.borrow().as_slice(), &[Operation::ValueIsValid]);
    assert_eq!(
        guarded_flag(&mut foreign, Operation::ContextIsValid, Operation::ContextEnter, 0x8, Args::Empty),
        Err(BridgeError::InvalidHandle)
    );
    assert_eq!(
        fetch_handle(&mut foreign, Operation::ContextIsValid, Operation::ContextGetGlobal, 0x8, Args::Empty),
        Err(BridgeError::InvalidHandle)
    );
}

#[test]
fn guarded_call_passes_an_unset_entry_on() {
    let mut foreign = Foreign::new(|c: Call| match c.op {
        Operation::ValueIsValid => Some(Reply::Int(1)),
        _ => None,
    });
    let out = guarded_invoke(&mut foreign, Operation::ValueIsValid, Operation::IsInt, 0x8, Args::Empty);
    assert_eq!(out, Ok(None));
    assert_eq!(
        guarded_flag(&mut foreign, Operation::ValueIsValid, Operation::IsInt, 0x8, Args::Empty),
        Err(BridgeError::MissingOperation(Operation::IsInt))
    );
}

#[test]
fn transfer_keeps_the_reference_away_once_the_call_ran() {
    let handle = CountingHandle::starting_at(1);
    let mut foreign = Foreign::new(|c: Call| match c.op {
        Operation::ValueIsValid | Operation::SetValueByIndex => Some(Reply::Int(1)),
        _ => handle.answer(c),
    });
    let value = RefCountedPtr::wrap(0x60).unwrap();
    let res = transfer_flag(
        &mut foreign,
        Operation::ValueIsValid,
        Operation::SetValueByIndex,
        0x8,
        Args::IntHandle(0, 0x60),
        value,
    );
    assert_eq!(res, Ok(true));
    assert_eq!(handle.decrements.get(), 0);
}

#[test]
fn transfer_gives_the_reference_back_when_the_call_did_not_run() {
    let handle = CountingHandle::starting_at(2);
    let mut foreign = Foreign::new(|c: Call| match c.op {
        Operation::ValueIsValid => Some(Reply::Int(1)),
        Operation::SetValueByIndex => None,
        _ => handle.answer(c),
    });
    let value = RefCountedPtr::wrap(0x60).unwrap();
    let res = transfer_flag(
        &mut foreign,
        Operation::ValueIsValid,
        Operation::SetValueByIndex,
        0x8,
        Args::IntHandle(0, 0x60),
        value,
    );
    assert_eq!(res, Err(BridgeError::MissingOperation(Operation::SetValueByIndex)));
    assert_eq!(handle.decrements.get(), 1);
    assert_eq!(
        handle.log.borrow().as_slice(),
        &[Call { op: Operation::Release, receiver: 0x60, args: Args::Empty }]
    );
}

#[test]
fn smart_pointers_over_a_native_record() {
    for n in [0usize, 1, 4] {
        let record = RefCell::new(Wrapped::new((), String::from("native")));
        let mut foreign = Foreign::new(|c: Call| match c.op {
            Operation::AddRef => {
                record.borrow_mut().add_ref();
                Some(Reply::Void)
            }
            Operation::Release => Some(Reply::Int(record.borrow_mut().release())),
            _ => None,
        });
        // One reference is held by someone else; the pointer takes over a second one.
        record.borrow_mut().add_ref();
        let first = RefCountedPtr::wrap(0x4000).unwrap();
        let mut clones = Vec::new();
        for _ in 0..n {
            clones.push(first.clone_ref(&mut foreign).unwrap());
        }
        for p in clones {
            assert_eq!(p.release(&mut foreign), Ok(false));
            assert_eq!(record.borrow().has_at_least_one_ref(), 1);
        }
        assert_eq!(first.release(&mut foreign), Ok(false));
        assert_eq!(record.borrow().has_one_ref(), 1);
        assert_eq!(record.borrow_mut().wrappable().unwrap().as_str(), "native");
        let last = RefCountedPtr::wrap(0x4000).unwrap();
        assert_eq!(last.release(&mut foreign), Ok(true));
        assert!(record.borrow_mut().wrappable().is_none());
    }
}
