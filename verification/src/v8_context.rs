use crate::abi::{
    asked_once, invoke, Args, ArgsView, Call, CallView, Foreign, Operation, Reply,
};
use crate::error::BridgeError;
use crate::handles::{Browser, Frame};
use crate::ref_counted::RefCountedPtr;
use crate::reply::{
    fetch_handle, fetched, flag_of, flagged, guarded_flag, handle_of, spec_flag_of,
    spec_handle_of, transfer_flag, transferred,
};
use crate::v8_value::V8Value;
use vstd::prelude::*;

verus! {

/// The number of open scopes after an `enter` that gave `res`: one more where
/// the foreign side entered the scope, else as before.
pub open spec fn depth_after_enter(depth: nat, res: Result<bool, BridgeError>) -> nat {
    if res == Ok::<bool, BridgeError>(true) {
        depth + 1
    } else {
        depth
    }
}

/// The number of open scopes after an `exit` that gave `res`: one fewer where
/// the foreign side left the scope, else as before.
pub open spec fn depth_after_exit(depth: nat, res: Result<bool, BridgeError>) -> nat {
    if res == Ok::<bool, BridgeError>(true) && depth > 0 {
        (depth - 1) as nat
    } else {
        depth
    }
}

/// The depth after `n` enters that all succeed.
pub open spec fn depth_after_enters(depth: nat, n: nat) -> nat
    decreases n,
{
    if n == 0 {
        depth
    } else {
        depth_after_enter(depth_after_enters(depth, (n - 1) as nat), Ok(true))
    }
}

/// The depth after `n` exits that all succeed.
pub open spec fn depth_after_exits(depth: nat, n: nat) -> nat
    decreases n,
{
    if n == 0 {
        depth
    } else {
        depth_after_exit(depth_after_exits(depth, (n - 1) as nat), Ok(true))
    }
}

proof fn lemma_depth_after_enters(depth: nat, n: nat)
    ensures
        depth_after_enters(depth, n) == depth + n,
    decreases n,
{
    if n > 0 {
        lemma_depth_after_enters(depth, (n - 1) as nat);
    }
}

proof fn lemma_depth_after_exits(depth: nat, n: nat)
    requires
        n <= depth,
    ensures
        depth_after_exits(depth, n) == depth - n,
    decreases n,
{
    if n > 0 {
        lemma_depth_after_exits(depth, (n - 1) as nat);
    }
}

/// Scopes nest: as many successful exits as successful enters bring the
/// depth back to where it was. Entering twice and leaving twice from depth
/// zero ends at depth zero.
pub proof fn lemma_scopes_nest(depth: nat, n: nat)
    ensures
        depth_after_exits(depth_after_enters(depth, n), n) == depth,
        depth_after_exits(depth_after_enters(0, 2), 2) == 0,
{
    lemma_depth_after_enters(depth, n);
    lemma_depth_after_exits(depth + n, n);
    lemma_depth_after_enters(0, 2);
    lemma_depth_after_exits(2, 2);
}

/// A context of the scripting engine, held by one reference, together with
/// the number of scopes that were entered through this wrapper and are still
/// open.
pub struct V8Context {
    ptr: RefCountedPtr,
    entered: usize,
}

impl V8Context {
    /// The address of the context's handle.
    pub closed spec fn addr(&self) -> usize {
        self.ptr.addr()
    }

    /// The number of scopes entered through this wrapper that are still open.
    pub closed spec fn depth(&self) -> nat {
        self.entered as nat
    }

    /// The call of `op` on this context.
    pub open spec fn call(&self, op: Operation, args: ArgsView) -> CallView {
        CallView { op, receiver: self.addr(), args }
    }

    /// The call of the engine-wide entry point `op`, which has no receiver.
    pub open spec fn engine_call(op: Operation) -> CallView {
        CallView { op, receiver: 0, args: ArgsView::Empty }
    }

    /// `res` holds the context at the address `raw`, with no open scope, or
    /// the error `raw`.
    pub open spec fn wraps(raw: Result<usize, BridgeError>, res: Result<V8Context, BridgeError>) -> bool {
        match raw {
            Err(e) => res == Err::<V8Context, BridgeError>(e),
            Ok(a) => res matches Ok(c) && c.addr() == a && c.depth() == 0,
        }
    }

    /// Takes over the reference on the handle at `raw`; a null address gives
    /// no context. No scope is open.
    pub fn from_ptr(raw: usize) -> (c: Option<Self>)
        ensures
            raw == 0 ==> c is None,
            raw != 0 ==> (c matches Some(x) && x.addr() == raw && x.depth() == 0),
    {
        match RefCountedPtr::wrap(raw) {
            Some(ptr) => Some(V8Context { ptr, entered: 0 }),
            None => None,
        }
    }

    /// The address, for a call that borrows the handle.
    pub fn as_ptr(&self) -> (raw: usize)
        ensures
            raw == self.addr(),
            raw != 0,
    {
        self.ptr.as_raw()
    }

    /// The smart pointer that owns the reference. The count of open scopes
    /// is given up with the wrapper.
    pub fn into_ptr(self) -> (ptr: RefCountedPtr)
        ensures
            ptr.addr() == self.addr(),
    {
        self.ptr
    }

    /// Asks the foreign side for one more reference, once, and gives the
    /// context that owns it, on the same handle, with no open scope of its
    /// own. An unset entry is reported
    /// and gives no second owner.
    /// This is how a context that was lent is kept.
    pub fn clone_ref<F: Fn(Call) -> Option<Reply>>(&self, foreign: &mut Foreign<F>) -> (res:
        Result<Self, BridgeError>)
        ensures
            exists|r: Option<Reply>| #[trigger]
                asked_once(
                    *old(foreign),
                    *final(foreign),
                    RefCountedPtr::count_call(Operation::AddRef, self.addr()),
                    r,
                ) && match RefCountedPtr::spec_cloned(r) {
                    Err(e) => res == Err::<Self, BridgeError>(e),
                    Ok(_) => res matches Ok(x) && x.addr() == self.addr() && x.depth() == 0,
                },
    {
        assert(self.ptr.addr() == self.addr());
        match self.ptr.clone_ref(foreign) {
            Err(e) => Err(e),
            Ok(ptr) => Ok(V8Context { ptr, entered: 0 }),
        }
    }

    /// The number of scopes entered through this wrapper that are still open.
    pub fn open_scopes(&self) -> (n: usize)
        ensures
            n == self.depth(),
    {
        self.entered
    }

    /// Whether the handle is valid and usable on this thread. `Ok(false)`
    /// says that the handle answered no; an error says that it could not be
    /// asked. The check is the one call made.
    pub fn is_valid<F: Fn(Call) -> Option<Reply>>(&self, foreign: &mut Foreign<F>) -> (res: Result<
        bool,
        BridgeError,
    >)
        ensures
            exists|r: Option<Reply>| #[trigger]
                asked_once(
                    *old(foreign),
                    *final(foreign),
                    self.call(Operation::ContextIsValid, ArgsView::Empty),
                    r,
                ) && res == spec_flag_of(Operation::ContextIsValid, r),
    {
        let reply = invoke(foreign, Operation::ContextIsValid, self.ptr.as_raw(), Args::Empty);
        flag_of(Operation::ContextIsValid, reply)
    }

    /// The browser of this context, taken over with its reference. A null
    /// handle is a failed operation.
    pub fn get_browser<F: Fn(Call) -> Option<Reply>>(&self, foreign: &mut Foreign<F>) -> (res: Result<
        Browser,
        BridgeError,
    >)
        ensures
            exists|raw: Result<usize, BridgeError>| #[trigger]
                fetched(
                    *old(foreign),
                    *final(foreign),
                    Operation::ContextIsValid,
                    self.call(Operation::ContextGetBrowser, ArgsView::Empty),
                    raw,
                ) && match raw {
                    Err(e) => res == Err::<Browser, BridgeError>(e),
                    Ok(a) => res matches Ok(b) && b.addr() == a,
                },
    {
        let raw = fetch_handle(
            foreign,
            Operation::ContextIsValid,
            Operation::ContextGetBrowser,
            self.ptr.as_raw(),
            Args::Empty,
        );
        match raw {
            Err(e) => Err(e),
            Ok(a) => match Browser::from_ptr(a) {
                Some(b) => Ok(b),
                None => Err(BridgeError::NullResult(Operation::ContextGetBrowser)),
            },
        }
    }

    /// The frame of this context, taken over with its reference. A null
    /// handle is a failed operation.
    pub fn get_frame<F: Fn(Call) -> Option<Reply>>(&self, foreign: &mut Foreign<F>) -> (res: Result<
        Frame,
        BridgeError,
    >)
        ensures
            exists|raw: Result<usize, BridgeError>| #[trigger]
                fetched(
                    *old(foreign),
                    *final(foreign),
                    Operation::ContextIsValid,
                    self.call(Operation::ContextGetFrame, ArgsView::Empty),
                    raw,
                ) && match raw {
                    Err(e) => res == Err::<Frame, BridgeError>(e),
                    Ok(a) => res matches Ok(f) && f.addr() == a,
                },
    {
        let raw = fetch_handle(
            foreign,
            Operation::ContextIsValid,
            Operation::ContextGetFrame,
            self.ptr.as_raw(),
            Args::Empty,
        );
        match raw {
            Err(e) => Err(e),
            Ok(a) => match Frame::from_ptr(a) {
                Some(f) => Ok(f),
                None => Err(BridgeError::NullResult(Operation::ContextGetFrame)),
            },
        }
    }

    /// The global object of this context, taken over with its reference. A
    /// null handle is a failed operation.
    pub fn get_global<F: Fn(Call) -> Option<Reply>>(&self, foreign: &mut Foreign<F>) -> (res: Result<
        V8Value,
        BridgeError,
    >)
        ensures
            exists|raw: Result<usize, BridgeError>| #[trigger]
                fetched(
                    *old(foreign),
                    *final(foreign),
                    Operation::ContextIsValid,
                    self.call(Operation::ContextGetGlobal, ArgsView::Empty),
                    raw,
                ) && V8Value::wraps(raw, res),
    {
        let raw = fetch_handle(
            foreign,
            Operation::ContextIsValid,
            Operation::ContextGetGlobal,
            self.ptr.as_raw(),
            Args::Empty,
        );
        match raw {
            Err(e) => Err(e),
            Ok(a) => match V8Value::from_ptr(a) {
                Some(v) => Ok(v),
                None => Err(BridgeError::NullResult(Operation::ContextGetGlobal)),
            },
        }
    }

    /// Enters this context. `Ok(true)` says that the foreign side entered
    /// the scope, which this wrapper then counts as open; every such enter
    /// is to be matched by one `exit` before the context is released.
    pub fn enter<F: Fn(Call) -> Option<Reply>>(&mut self, foreign: &mut Foreign<F>) -> (res: Result<
        bool,
        BridgeError,
    >)
        ensures
            final(self).addr() == old(self).addr(),
            old(self).depth() >= usize::MAX ==> res == Err::<bool, BridgeError>(
                BridgeError::ScopeOverflow,
            ) && final(self).depth() == old(self).depth() && *final(foreign) == *old(foreign),
            old(self).depth() < usize::MAX ==> flagged(
                *old(foreign),
                *final(foreign),
                Operation::ContextIsValid,
                old(self).call(Operation::ContextEnter, ArgsView::Empty),
                res,
            ) && final(self).depth() == depth_after_enter(old(self).depth(), res),
    {
        if self.entered == usize::MAX {
            return Err(BridgeError::ScopeOverflow);
        }
        let res = guarded_flag(
            foreign,
            Operation::ContextIsValid,
            Operation::ContextEnter,
            self.ptr.as_raw(),
            Args::Empty,
        );
        match res {
            Ok(true) => {
                self.entered = self.entered + 1;
            },
            _ => {},
        }
        res
    }

    /// Leaves this context. With no scope open through this wrapper the
    /// request is refused and nothing is asked of the foreign side.
    /// `Ok(true)` says that the foreign side left the scope.
    pub fn exit<F: Fn(Call) -> Option<Reply>>(&mut self, foreign: &mut Foreign<F>) -> (res: Result<
        bool,
        BridgeError,
    >)
        ensures
            final(self).addr() == old(self).addr(),
            old(self).depth() == 0 ==> res == Err::<bool, BridgeError>(BridgeError::NotEntered)
                && final(self).depth() == 0 && *final(foreign) == *old(foreign),
            old(self).depth() > 0 ==> flagged(
                *old(foreign),
                *final(foreign),
                Operation::ContextIsValid,
                old(self).call(Operation::ContextExit, ArgsView::Empty),
                res,
            ) && final(self).depth() == depth_after_exit(old(self).depth(), res),
    {
        if self.entered == 0 {
            return Err(BridgeError::NotEntered);
        }
        let res = guarded_flag(
            foreign,
            Operation::ContextIsValid,
            Operation::ContextExit,
            self.ptr.as_raw(),
            Args::Empty,
        );
        match res {
            Ok(true) => {
                self.entered = self.entered - 1;
            },
            _ => {},
        }
        res
    }

    /// The result of a scoped run whose body gave `t` and whose `exit` gave
    /// `ex`.
    pub open spec fn left<T>(res: Result<T, BridgeError>, t: T, ex: Result<bool, BridgeError>) -> bool {
        res == match ex {
            Ok(true) => Ok::<T, BridgeError>(t),
            Ok(false) => Err::<T, BridgeError>(BridgeError::ScopeRefused),
            Err(e) => Err::<T, BridgeError>(e),
        }
    }

    /// Runs `body` inside one scope of this context: enters, runs, leaves.
    /// The scope is asked for by one guarded `enter`. Where it is not
    /// entered, `body` does not run and nothing more is asked. Where it is
    /// entered, `body` runs once on the foreign side as the `enter` left it,
    /// and one guarded `exit` follows on every path, whatever `body` gave;
    /// only a foreign side that does not leave the scope keeps it open.
    pub fn in_scope<F: Fn(Call) -> Option<Reply>, G: FnOnce(&mut Foreign<F>) -> T, T>(
        &mut self,
        foreign: &mut Foreign<F>,
        body: G,
    ) -> (res: Result<T, BridgeError>)
        requires
            forall|x: &mut Foreign<F>| call_requires(body, (x,)),
        ensures
            final(self).addr() == old(self).addr(),
            old(self).depth() >= usize::MAX ==> res == Err::<T, BridgeError>(
                BridgeError::ScopeOverflow,
            ) && final(self).depth() == old(self).depth() && *final(foreign) == *old(foreign),
            old(self).depth() < usize::MAX ==> exists|
                en: Result<bool, BridgeError>,
                entered: Foreign<F>,
            | #[trigger]
                flagged(
                    *old(foreign),
                    entered,
                    Operation::ContextIsValid,
                    old(self).call(Operation::ContextEnter, ArgsView::Empty),
                    en,
                ) && match en {
                    Err(e) => res == Err::<T, BridgeError>(e) && *final(foreign) == entered
                        && final(self).depth() == old(self).depth(),
                    Ok(false) => res == Err::<T, BridgeError>(BridgeError::ScopeRefused)
                        && *final(foreign) == entered && final(self).depth() == old(self).depth(),
                    Ok(true) => exists|x: &mut Foreign<F>, t: T, ex: Result<bool, BridgeError>|
                        #![trigger call_ensures(body, (x,), t), Self::left(res, t, ex)]
                        *x == entered && call_ensures(body, (x,), t) && Self::left(res, t, ex)
                            && flagged(
                            *final(x),
                            *final(foreign),
                            Operation::ContextIsValid,
                            old(self).call(Operation::ContextExit, ArgsView::Empty),
                            ex,
                        ) && final(self).depth() == depth_after_exit(old(self).depth() + 1, ex),
                },
    {
        let en = self.enter(foreign);
        match en {
            Err(e) => Err(e),
            Ok(false) => Err(BridgeError::ScopeRefused),
            Ok(true) => {
                let t = body(foreign);
                let ex = self.exit(foreign);
                assert(Self::left(
                    match ex {
                        Ok(true) => Ok::<T, BridgeError>(t),
                        Ok(false) => Err::<T, BridgeError>(BridgeError::ScopeRefused),
                        Err(e) => Err::<T, BridgeError>(e),
                    },
                    t,
                    ex,
                ));
                match ex {
                    Ok(true) => Ok(t),
                    Ok(false) => Err(BridgeError::ScopeRefused),
                    Err(e) => Err(e),
                }
            },
        }
    }

    /// Whether this context and `that` are one handle. The reference that
    /// `that` owns goes to the foreign side with the call.
    pub fn is_same<F: Fn(Call) -> Option<Reply>>(&self, that: Self, foreign: &mut Foreign<F>) -> (res: Result<
        bool,
        BridgeError,
    >)
        ensures
            transferred(
                *old(foreign),
                *final(foreign),
                Operation::ContextIsValid,
                self.call(Operation::ContextIsSame, ArgsView::Handle(that.addr())),
                that.addr(),
                res,
            ),
    {
        let raw = that.ptr.as_raw();
        transfer_flag(
            foreign,
            Operation::ContextIsValid,
            Operation::ContextIsSame,
            self.ptr.as_raw(),
            Args::Handle(raw),
            that.ptr,
        )
    }

    /// The context on top of the engine's context stack.
    pub fn get_current_context<F: Fn(Call) -> Option<Reply>>(foreign: &mut Foreign<F>) -> (res: Result<
        Self,
        BridgeError,
    >)
        ensures
            exists|r: Option<Reply>| #[trigger]
                asked_once(
                    *old(foreign),
                    *final(foreign),
                    Self::engine_call(Operation::CurrentContext),
                    r,
                ) && Self::wraps(spec_handle_of(Operation::CurrentContext, r), res),
    {
        let reply = invoke(foreign, Operation::CurrentContext, 0, Args::Empty);
        Self::wrap_reply(Operation::CurrentContext, reply)
    }

    /// The context at the bottom of the engine's context stack.
    pub fn get_entered_context<F: Fn(Call) -> Option<Reply>>(foreign: &mut Foreign<F>) -> (res: Result<
        Self,
        BridgeError,
    >)
        ensures
            exists|r: Option<Reply>| #[trigger]
                asked_once(
                    *old(foreign),
                    *final(foreign),
                    Self::engine_call(Operation::EnteredContext),
                    r,
                ) && Self::wraps(spec_handle_of(Operation::EnteredContext, r), res),
    {
        let reply = invoke(foreign, Operation::EnteredContext, 0, Args::Empty);
        Self::wrap_reply(Operation::EnteredContext, reply)
    }

    /// Whether the engine is inside a context.
    pub fn in_context<F: Fn(Call) -> Option<Reply>>(foreign: &mut Foreign<F>) -> (res: Result<bool, BridgeError>)
        ensures
            exists|r: Option<Reply>| #[trigger]
                asked_once(*old(foreign), *final(foreign), Self::engine_call(Operation::InContext), r)
                    && res == spec_flag_of(Operation::InContext, r),
    {
        let reply = invoke(foreign, Operation::InContext, 0, Args::Empty);
        flag_of(Operation::InContext, reply)
    }

    /// Reads the answer of an entry point that returns a context.
    pub fn wrap_reply(op: Operation, reply: Option<Reply>) -> (res: Result<Self, BridgeError>)
        ensures
            Self::wraps(spec_handle_of(op, reply), res),
    {
        match handle_of(op, reply) {
            Err(e) => Err(e),
            Ok(a) => match V8Context::from_ptr(a) {
                Some(c) => Ok(c),
                None => Err(BridgeError::NullResult(op)),
            },
        }
    }

    /// What a release yields for each answer to its `Release`.
    pub open spec fn spec_released(r: Option<Reply>) -> Result<bool, (BridgeError, Option<V8Context>)> {
        match spec_flag_of(Operation::Release, r) {
            Ok(last) => Ok(last),
            Err(e) => Err((e, None)),
        }
    }

    /// Gives the wrapper's reference back to the foreign side, once, and
    /// says whether it was reported as the last one. While scopes entered
    /// through this wrapper are open the release is refused: nothing is
    /// asked of the foreign side and the wrapper comes back as it was, with
    /// the error, so that the scopes can still be left. An unset entry, or an
    /// answer of another shape, is reported; no wrapper comes back then.
    pub fn release<F: Fn(Call) -> Option<Reply>>(self, foreign: &mut Foreign<F>) -> (res: Result<
        bool,
        (BridgeError, Option<V8Context>),
    >)
        ensures
            self.depth() > 0 ==> res == Err::<bool, (BridgeError, Option<V8Context>)>(
                (BridgeError::ScopeStillEntered, Some(self)),
            ) && *final(foreign) == *old(foreign),
            self.depth() == 0 ==> exists|r: Option<Reply>| #[trigger]
                asked_once(
                    *old(foreign),
                    *final(foreign),
                    RefCountedPtr::count_call(Operation::Release, self.addr()),
                    r,
                ) && res == Self::spec_released(r),
    {
        if self.entered > 0 {
            Err((BridgeError::ScopeStillEntered, Some(self)))
        } else {
            assert(self.ptr.addr() == self.addr());
            match self.ptr.release(foreign) {
                Ok(last) => Ok(last),
                Err(e) => Err((e, None)),
            }
        }
    }
}

} // verus!
