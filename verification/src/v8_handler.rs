use crate::error::BridgeError;
use crate::ref_counted::{RefCountedPtr, Wrapped};
use crate::v8_value::V8Value;
use vstd::prelude::*;

verus! {

/// What a native implementation of a script function provides. The method
/// is called on the thread of the function's context.
pub trait V8HandlerCallbacks: Send + Sync + 'static {
    /// What `execute` promises: whether a run on `self` with these arguments
    /// may give `outcome` and leave `after`. An implementation that says
    /// nothing promises nothing.
    open spec fn executes(
        &self,
        name: Seq<char>,
        object: usize,
        arguments_count: usize,
        outcome: Result<i32, BridgeError>,
        after: &Self,
    ) -> bool {
        true
    }

    /// Runs the function `name` on the receiver `object`, which is lent for
    /// the time of the call. `Ok` carries the foreign truth value of "the
    /// call was handled"; `Err` says that the implementation failed.
    fn execute(&mut self, name: String, object: &V8Value, arguments_count: usize) -> (outcome:
        Result<i32, BridgeError>)
        ensures
            old(self).executes(name@, object.addr(), arguments_count, outcome, final(self)),
    ;
}

/// The operation table of a function handler: which entries lead to a native
/// trampoline.
#[derive(Clone, Copy, Debug, PartialEq, Eq, Structural)]
pub struct V8HandlerTable {
    pub execute: bool,
}

/// What the foreign side gets back from `execute` for each outcome of the
/// native method: its value where it succeeded, and the foreign false where
/// it failed. A failure never crosses the boundary.
pub open spec fn spec_execute_reply(outcome: Result<i32, BridgeError>) -> i32 {
    match outcome {
        Ok(handled) => handled,
        Err(_) => 0i32,
    }
}

/// Turns the outcome of the native `execute` into the foreign return value.
pub fn execute_reply(outcome: Result<i32, BridgeError>) -> (raw: i32)
    ensures
        raw == spec_execute_reply(outcome),
{
    match outcome {
        Ok(handled) => handled,
        Err(_) => 0,
    }
}

/// The adapter between the foreign function-handler table and one native
/// implementation, which it owns in a box.
pub struct V8HandlerWrapper<C: V8HandlerCallbacks>(Box<C>);

impl<C: V8HandlerCallbacks> V8HandlerWrapper<C> {
    /// The native implementation that the adapter owns.
    pub closed spec fn delegate(&self) -> C {
        *self.0
    }

    /// Boxes `delegate`.
    pub fn new(delegate: C) -> (w: Self)
        ensures
            w.delegate() == delegate,
    {
        V8HandlerWrapper(Box::new(delegate))
    }

    /// The handle record that `wrap` makes of the adapter `w`.
    pub open spec fn is_wrap_of(record: Wrapped<V8HandlerTable, Self>, w: Self) -> bool {
        &&& record.count() == 1
        &&& record.table() == (V8HandlerTable { execute: true })
        &&& record.native() == Some(w)
    }

    /// Makes the handle record of this adapter: the table with `execute`
    /// set, one reference, and the adapter itself as the native object.
    pub fn wrap(self) -> (record: Wrapped<V8HandlerTable, Self>)
        ensures
            record == Wrapped::made(V8HandlerTable { execute: true }, self),
            Self::is_wrap_of(record, self),
    {
        Wrapped::new(V8HandlerTable { execute: true }, self)
    }

    /// The trampoline behind the table's `execute` entry. It recovers the
    /// adapter from the handle record, lends the receiver to the native
    /// method and turns the outcome into the foreign return value. With a
    /// null receiver, or a record whose last reference is gone, nothing
    /// native runs and the foreign false is returned. Else the native method
    /// runs once, on the object that the record was made for, with the name,
    /// the receiver and the count as they came.
    pub fn execute(
        this: &mut Wrapped<V8HandlerTable, Self>,
        name: String,
        object: usize,
        arguments_count: usize,
    ) -> (handled: i32)
        ensures
            Wrapped::kept(*old(this), *final(this)),
            (object == 0 || old(this).native() is None) ==> handled == 0 && *final(this) == *old(this),
            (object != 0 && old(this).native() is Some) ==> final(this).native() is Some
                && exists|outcome: Result<i32, BridgeError>|
                {
                    &&& #[trigger] old(this).native()->0.delegate().executes(
                        name@,
                        object,
                        arguments_count,
                        outcome,
                        &final(this).native()->0.delegate(),
                    )
                    &&& handled == spec_execute_reply(outcome)
                },
    {
        let object = match V8Value::from_ptr(object) {
            None => {
                return 0;
            },
            Some(o) => o,
        };
        let ghost name_view = name@;
        let ghost before = this.native();
        let ghost mut given: Result<i32, BridgeError> = Ok(0);
        let handled: i32 = match this.wrappable() {
            None => 0,
            Some(w) => {
                let outcome = w.0.execute(name, &object, arguments_count);
                proof {
                    given = outcome;
                }
                execute_reply(outcome)
            },
        };
        assert(before is Some ==> before->0.delegate().executes(
            name_view,
            object.addr(),
            arguments_count,
            given,
            &this.native()->0.delegate(),
        ));
        let _ = object.into_ptr().into_raw();
        handled
    }
}

/// A function handler made on the native side, held by one reference.
pub struct V8Handler {
    ptr: RefCountedPtr,
}

impl V8Handler {
    /// The address of the handler's handle.
    pub closed spec fn addr(&self) -> usize {
        self.ptr.addr()
    }

    /// Wraps `delegate` into an adapter, makes its handle record and has
    /// `place` put the record where the foreign side can reach it. The
    /// result owns the record's one reference; a null address gives none.
    pub fn new<C: V8HandlerCallbacks, P: FnOnce(Wrapped<V8HandlerTable, V8HandlerWrapper<C>>) -> usize>(
        delegate: C,
        place: P,
    ) -> (h: Option<Self>)
        requires
            forall|record: Wrapped<V8HandlerTable, V8HandlerWrapper<C>>|
                call_requires(place, (record,)),
        ensures
            exists|w: V8HandlerWrapper<C>, record: Wrapped<V8HandlerTable, V8HandlerWrapper<C>>, raw: usize|
                w.delegate() == delegate && #[trigger] V8HandlerWrapper::is_wrap_of(record, w)
                    && #[trigger] call_ensures(place, (record,), raw) && match h {
                    None => raw == 0,
                    Some(x) => raw != 0 && x.addr() == raw,
                },
    {
        let record = V8HandlerWrapper::new(delegate).wrap();
        let raw: usize = place(record);
        match RefCountedPtr::wrap(raw) {
            Some(ptr) => Some(V8Handler { ptr }),
            None => None,
        }
    }

    /// The address, for a call that borrows the handle.
    pub fn as_ptr(&self) -> (raw: usize)
        ensures
            raw == self.addr(),
            raw != 0,
    {
        self.ptr.as_raw()
    }

    /// The smart pointer that owns the reference.
    pub fn into_ptr(self) -> (ptr: RefCountedPtr)
        ensures
            ptr.addr() == self.addr(),
    {
        self.ptr
    }
}

} // verus!
