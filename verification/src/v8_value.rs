use crate::abi::{
    answered, appended, asked_once, flag_to_raw, invoke, lemma_appended_then, spec_flag_to_raw,
    Args, ArgsView, Call, CallView, Entry, Foreign, Operation, PropertyAttribute, Reply,
};
use crate::error::BridgeError;
use crate::ref_counted::{count_steps, lemma_no_count_steps, RefCountedPtr};
use crate::reply::{
    accessed, bits_of, fetch_handle, fetched, flag_of, flagged, guarded_flag, guarded_invoke,
    handle_of, int_of, spec_bits_of, spec_flag_of, spec_handle_of, spec_int_of, spec_text_of,
    spec_uint_of, text_of, transfer_flag, transferred, uint_of,
};
use crate::v8_handler::V8Handler;
use vstd::prelude::*;

verus! {

/// A value of the scripting engine, held by one reference. The value's kind
/// and contents stay on the foreign side: every accessor asks there, after
/// the handle's own validity check.
pub struct V8Value {
    ptr: RefCountedPtr,
}

impl V8Value {
    /// The address of the value's handle.
    pub closed spec fn addr(&self) -> usize {
        self.ptr.addr()
    }

    /// The call of `op` on this value.
    pub open spec fn call(&self, op: Operation, args: ArgsView) -> CallView {
        CallView { op, receiver: self.addr(), args }
    }

    /// `res` is a possible result of the truth-valued accessor `op`, which
    /// asks the validity check and then the operation, and nothing else.
    pub open spec fn yields_flag<F: Fn(Call) -> Option<Reply>>(
        &self,
        before: Foreign<F>,
        after: Foreign<F>,
        op: Operation,
        args: ArgsView,
        res: Result<bool, BridgeError>,
    ) -> bool {
        flagged(before, after, Operation::ValueIsValid, self.call(op, args), res)
    }

    /// Takes over the reference on the handle at `raw`; a null address gives
    /// no value.
    pub fn from_ptr(raw: usize) -> (v: Option<Self>)
        ensures
            raw == 0 ==> v is None,
            raw != 0 ==> (v matches Some(x) && x.addr() == raw),
    {
        match RefCountedPtr::wrap(raw) {
            Some(ptr) => Some(V8Value { ptr }),
            None => None,
        }
    }

    /// The address, for a call that borrows the handle.
    pub fn as_ptr(&self) -> (raw: usize)
        ensures
            raw == self.addr(),
            raw != 0,
    {
        self.ptr.as_raw()
    }

    /// The smart pointer that owns the reference.
    pub fn into_ptr(self) -> (ptr: RefCountedPtr)
        ensures
            ptr.addr() == self.addr(),
    {
        self.ptr
    }

    /// Asks the foreign side for one more reference, once, and gives the
    /// value that owns it, on the same handle. An unset entry is reported
    /// and gives no second owner.
    /// This is how a value that was lent is kept.
    pub fn clone_ref<F: Fn(Call) -> Option<Reply>>(&self, foreign: &mut Foreign<F>) -> (res:
        Result<Self, BridgeError>)
        ensures
            exists|r: Option<Reply>| #[trigger]
                asked_once(
                    *old(foreign),
                    *final(foreign),
                    RefCountedPtr::count_call(Operation::AddRef, self.addr()),
                    r,
                ) && match RefCountedPtr::spec_cloned(r) {
                    Err(e) => res == Err::<Self, BridgeError>(e),
                    Ok(_) => res matches Ok(x) && x.addr() == self.addr(),
                },
    {
        assert(self.ptr.addr() == self.addr());
        match self.ptr.clone_ref(foreign) {
            Err(e) => Err(e),
            Ok(ptr) => Ok(V8Value { ptr }),
        }
    }

    /// Gives the value's reference back to the foreign side, once, and says
    /// whether it was reported as the last one. An unset entry, or an answer
    /// of another shape, is reported.
    pub fn release<F: Fn(Call) -> Option<Reply>>(self, foreign: &mut Foreign<F>) -> (res: Result<
        bool,
        BridgeError,
    >)
        ensures
            exists|r: Option<Reply>| #[trigger]
                asked_once(
                    *old(foreign),
                    *final(foreign),
                    RefCountedPtr::count_call(Operation::Release, self.addr()),
                    r,
                ) && res == spec_flag_of(Operation::Release, r),
    {
        assert(self.ptr.addr() == self.addr());
        self.ptr.release(foreign)
    }

    fn flag<F: Fn(Call) -> Option<Reply>>(&self, foreign: &mut Foreign<F>, op: Operation, args: Args) -> (res:
        Result<bool, BridgeError>)
        ensures
            self.yields_flag(*old(foreign), *final(foreign), op, args@, res),
    {
        guarded_flag(foreign, Operation::ValueIsValid, op, self.ptr.as_raw(), args)
    }

    /// Whether the handle is valid and usable on this thread. `Ok(false)`
    /// says that the handle answered no; an error says that it could not be
    /// asked. The check is the one call made.
    pub fn is_valid<F: Fn(Call) -> Option<Reply>>(&self, foreign: &mut Foreign<F>) -> (res:
        Result<bool, BridgeError>)
        ensures
            exists|r: Option<Reply>| #[trigger]
                asked_once(
                    *old(foreign),
                    *final(foreign),
                    self.call(Operation::ValueIsValid, ArgsView::Empty),
                    r,
                ) && res == spec_flag_of(Operation::ValueIsValid, r),
    {
        let reply = invoke(foreign, Operation::ValueIsValid, self.ptr.as_raw(), Args::Empty);
        flag_of(Operation::ValueIsValid, reply)
    }

    /// Whether the value's kind is undefined.
    pub fn is_undefined<F: Fn(Call) -> Option<Reply>>(&self, foreign: &mut Foreign<F>) -> (res: Result<
        bool,
        BridgeError,
    >)
        ensures
            self.yields_flag(*old(foreign), *final(foreign), Operation::IsUndefined, ArgsView::Empty, res),
    {
        self.flag(foreign, Operation::IsUndefined, Args::Empty)
    }

    /// Whether the value's kind is null.
    pub fn is_null<F: Fn(Call) -> Option<Reply>>(&self, foreign: &mut Foreign<F>) -> (res: Result<
        bool,
        BridgeError,
    >)
        ensures
            self.yields_flag(*old(foreign), *final(foreign), Operation::IsNull, ArgsView::Empty, res),
    {
        self.flag(foreign, Operation::IsNull, Args::Empty)
    }

    /// Whether the value's kind is bool.
    pub fn is_bool<F: Fn(Call) -> Option<Reply>>(&self, foreign: &mut Foreign<F>) -> (res: Result<
        bool,
        BridgeError,
    >)
        ensures
            self.yields_flag(*old(foreign), *final(foreign), Operation::IsBool, ArgsView::Empty, res),
    {
        self.flag(foreign, Operation::IsBool, Args::Empty)
    }

    /// Whether the value's kind is int.
    pub fn is_int<F: Fn(Call) -> Option<Reply>>(&self, foreign: &mut Foreign<F>) -> (res: Result<
        bool,
        BridgeError,
    >)
        ensures
            self.yields_flag(*old(foreign), *final(foreign), Operation::IsInt, ArgsView::Empty, res),
    {
        self.flag(foreign, Operation::IsInt, Args::Empty)
    }

    /// Whether the value's kind is unsigned int.
    pub fn is_uint<F: Fn(Call) -> Option<Reply>>(&self, foreign: &mut Foreign<F>) -> (res: Result<
        bool,
        BridgeError,
    >)
        ensures
            self.yields_flag(*old(foreign), *final(foreign), Operation::IsUint, ArgsView::Empty, res),
    {
        self.flag(foreign, Operation::IsUint, Args::Empty)
    }

    /// Whether the value's kind is double.
    pub fn is_double<F: Fn(Call) -> Option<Reply>>(&self, foreign: &mut Foreign<F>) -> (res: Result<
        bool,
        BridgeError,
    >)
        ensures
            self.yields_flag(*old(foreign), *final(foreign), Operation::IsDouble, ArgsView::Empty, res),
    {
        self.flag(foreign, Operation::IsDouble, Args::Empty)
    }

    /// Whether the value's kind is date.
    pub fn is_date<F: Fn(Call) -> Option<Reply>>(&self, foreign: &mut Foreign<F>) -> (res: Result<
        bool,
        BridgeError,
    >)
        ensures
            self.yields_flag(*old(foreign), *final(foreign), Operation::IsDate, ArgsView::Empty, res),
    {
        self.flag(foreign, Operation::IsDate, Args::Empty)
    }

    /// Whether the value's kind is string.
    pub fn is_string<F: Fn(Call) -> Option<Reply>>(&self, foreign: &mut Foreign<F>) -> (res: Result<
        bool,
        BridgeError,
    >)
        ensures
            self.yields_flag(*old(foreign), *final(foreign), Operation::IsString, ArgsView::Empty, res),
    {
        self.flag(foreign, Operation::IsString, Args::Empty)
    }

    /// Whether the value's kind is object.
    pub fn is_object<F: Fn(Call) -> Option<Reply>>(&self, foreign: &mut Foreign<F>) -> (res: Result<
        bool,
        BridgeError,
    >)
        ensures
            self.yields_flag(*old(foreign), *final(foreign), Operation::IsObject, ArgsView::Empty, res),
    {
        self.flag(foreign, Operation::IsObject, Args::Empty)
    }

    /// Whether the value's kind is array.
    pub fn is_array<F: Fn(Call) -> Option<Reply>>(&self, foreign: &mut Foreign<F>) -> (res: Result<
        bool,
        BridgeError,
    >)
        ensures
            self.yields_flag(*old(foreign), *final(foreign), Operation::IsArray, ArgsView::Empty, res),
    {
        self.flag(foreign, Operation::IsArray, Args::Empty)
    }

    /// Whether the value's kind is array buffer.
    pub fn is_array_buffer<F: Fn(Call) -> Option<Reply>>(&self, foreign: &mut Foreign<F>) -> (res: Result<
        bool,
        BridgeError,
    >)
        ensures
            self.yields_flag(*old(foreign), *final(foreign), Operation::IsArrayBuffer, ArgsView::Empty, res),
    {
        self.flag(foreign, Operation::IsArrayBuffer, Args::Empty)
    }

    /// Whether the value's kind is function.
    pub fn is_function<F: Fn(Call) -> Option<Reply>>(&self, foreign: &mut Foreign<F>) -> (res: Result<
        bool,
        BridgeError,
    >)
        ensures
            self.yields_flag(*old(foreign), *final(foreign), Operation::IsFunction, ArgsView::Empty, res),
    {
        self.flag(foreign, Operation::IsFunction, Args::Empty)
    }

    /// Whether the value's kind is promise.
    pub fn is_promise<F: Fn(Call) -> Option<Reply>>(&self, foreign: &mut Foreign<F>) -> (res: Result<
        bool,
        BridgeError,
    >)
        ensures
            self.yields_flag(*old(foreign), *final(foreign), Operation::IsPromise, ArgsView::Empty, res),
    {
        self.flag(foreign, Operation::IsPromise, Args::Empty)
    }

    /// The value as a bool.
    pub fn get_bool_value<F: Fn(Call) -> Option<Reply>>(&self, foreign: &mut Foreign<F>) -> (res: Result<
        bool,
        BridgeError,
    >)
        ensures
            self.yields_flag(*old(foreign), *final(foreign), Operation::GetBoolValue, ArgsView::Empty, res),
    {
        self.flag(foreign, Operation::GetBoolValue, Args::Empty)
    }

    /// Whether the value is an object that the user created.
    pub fn is_user_created<F: Fn(Call) -> Option<Reply>>(&self, foreign: &mut Foreign<F>) -> (res: Result<
        bool,
        BridgeError,
    >)
        ensures
            self.yields_flag(*old(foreign), *final(foreign), Operation::IsUserCreated, ArgsView::Empty, res),
    {
        self.flag(foreign, Operation::IsUserCreated, Args::Empty)
    }

    /// Whether the last function call on this value ended in an exception.
    pub fn has_exception<F: Fn(Call) -> Option<Reply>>(&self, foreign: &mut Foreign<F>) -> (res: Result<
        bool,
        BridgeError,
    >)
        ensures
            self.yields_flag(*old(foreign), *final(foreign), Operation::HasException, ArgsView::Empty, res),
    {
        self.flag(foreign, Operation::HasException, Args::Empty)
    }

    /// Clears the last exception; the result says whether that succeeded.
    pub fn clear_exception<F: Fn(Call) -> Option<Reply>>(&self, foreign: &mut Foreign<F>) -> (res: Result<
        bool,
        BridgeError,
    >)
        ensures
            self.yields_flag(*old(foreign), *final(foreign), Operation::ClearException, ArgsView::Empty, res),
    {
        self.flag(foreign, Operation::ClearException, Args::Empty)
    }

    /// Whether this value throws later exceptions again.
    pub fn will_rethrow_exceptions<F: Fn(Call) -> Option<Reply>>(&self, foreign: &mut Foreign<F>) -> (res: Result<
        bool,
        BridgeError,
    >)
        ensures
            self.yields_flag(*old(foreign), *final(foreign), Operation::WillRethrowExceptions, ArgsView::Empty, res),
    {
        self.flag(foreign, Operation::WillRethrowExceptions, Args::Empty)
    }

    /// Whether this value and `that` are one handle. `that` is borrowed.
    pub fn is_same<F: Fn(Call) -> Option<Reply>>(&self, that: &Self, foreign: &mut Foreign<F>) -> (res: Result<
        bool,
        BridgeError,
    >)
        ensures
            self.yields_flag(*old(foreign), *final(foreign), Operation::ValueIsSame, ArgsView::Handle(that.addr()), res),
    {
        self.flag(foreign, Operation::ValueIsSame, Args::Handle(that.ptr.as_raw()))
    }

    /// Sets whether this value throws later exceptions again; the result says
    /// whether that succeeded.
    pub fn set_rethrow_exceptions<F: Fn(Call) -> Option<Reply>>(
        &self,
        rethrow: bool,
        foreign: &mut Foreign<F>,
    ) -> (res: Result<bool, BridgeError>)
        ensures
            self.yields_flag(
                *old(foreign),
                *final(foreign),
                Operation::SetRethrowExceptions,
                ArgsView::Int(spec_flag_to_raw(rethrow)),
                res,
            ),
    {
        self.flag(foreign, Operation::SetRethrowExceptions, Args::Int(flag_to_raw(rethrow)))
    }

    /// Whether the object has a value under `key`.
    pub fn has_value_by_key<F: Fn(Call) -> Option<Reply>>(&self, key: &str, foreign: &mut Foreign<F>) -> (res:
        Result<bool, BridgeError>)
        ensures
            self.yields_flag(*old(foreign), *final(foreign), Operation::HasValueByKey, ArgsView::Text(key@), res),
    {
        self.flag(foreign, Operation::HasValueByKey, Args::Text(key.to_string()))
    }

    /// Whether the object has a value at `index`.
    pub fn has_value_by_index<F: Fn(Call) -> Option<Reply>>(&self, index: i32, foreign: &mut Foreign<F>) -> (res:
        Result<bool, BridgeError>)
        ensures
            self.yields_flag(*old(foreign), *final(foreign), Operation::HasValueByIndex, ArgsView::Int(index), res),
    {
        self.flag(foreign, Operation::HasValueByIndex, Args::Int(index))
    }

    /// Deletes the value under `key`; the result is the foreign side's word
    /// on whether that succeeded.
    pub fn delete_value_by_key<F: Fn(Call) -> Option<Reply>>(&self, key: &str, foreign: &mut Foreign<F>) -> (res:
        Result<bool, BridgeError>)
        ensures
            self.yields_flag(*old(foreign), *final(foreign), Operation::DeleteValueByKey, ArgsView::Text(key@), res),
    {
        self.flag(foreign, Operation::DeleteValueByKey, Args::Text(key.to_string()))
    }

    /// Deletes the value at `index`; the result is the foreign side's word on
    /// whether that succeeded.
    pub fn delete_value_by_index<F: Fn(Call) -> Option<Reply>>(
        &self,
        index: i32,
        foreign: &mut Foreign<F>,
    ) -> (res: Result<bool, BridgeError>)
        ensures
            self.yields_flag(*old(foreign), *final(foreign), Operation::DeleteValueByIndex, ArgsView::Int(index), res),
    {
        self.flag(foreign, Operation::DeleteValueByIndex, Args::Int(index))
    }

    /// The value as an int: the integer that the foreign side gives,
    /// unchanged.
    pub fn get_int_value<F: Fn(Call) -> Option<Reply>>(&self, foreign: &mut Foreign<F>) -> (res: Result<
        i32,
        BridgeError,
    >)
        ensures
            accessed(
                *old(foreign),
                *final(foreign),
                Operation::ValueIsValid,
                self.call(Operation::GetIntValue, ArgsView::Empty),
                |r: Option<Reply>| spec_int_of(Operation::GetIntValue, r),
                res,
            ),
    {
        match guarded_invoke(
            foreign,
            Operation::ValueIsValid,
            Operation::GetIntValue,
            self.ptr.as_raw(),
            Args::Empty,
        ) {
            Err(e) => Err(e),
            Ok(reply) => int_of(Operation::GetIntValue, reply),
        }
    }

    /// The value as an unsigned int, unchanged.
    pub fn get_uint_value<F: Fn(Call) -> Option<Reply>>(&self, foreign: &mut Foreign<F>) -> (res: Result<
        u32,
        BridgeError,
    >)
        ensures
            accessed(
                *old(foreign),
                *final(foreign),
                Operation::ValueIsValid,
                self.call(Operation::GetUintValue, ArgsView::Empty),
                |r: Option<Reply>| spec_uint_of(Operation::GetUintValue, r),
                res,
            ),
    {
        match guarded_invoke(
            foreign,
            Operation::ValueIsValid,
            Operation::GetUintValue,
            self.ptr.as_raw(),
            Args::Empty,
        ) {
            Err(e) => Err(e),
            Ok(reply) => uint_of(Operation::GetUintValue, reply),
        }
    }

    /// The value as a double, as the IEEE 754 bit pattern that the foreign
    /// side gives, unchanged.
    pub fn get_double_value<F: Fn(Call) -> Option<Reply>>(&self, foreign: &mut Foreign<F>) -> (res: Result<
        u64,
        BridgeError,
    >)
        ensures
            accessed(
                *old(foreign),
                *final(foreign),
                Operation::ValueIsValid,
                self.call(Operation::GetDoubleValue, ArgsView::Empty),
                |r: Option<Reply>| spec_bits_of(Operation::GetDoubleValue, r),
                res,
            ),
    {
        match guarded_invoke(
            foreign,
            Operation::ValueIsValid,
            Operation::GetDoubleValue,
            self.ptr.as_raw(),
            Args::Empty,
        ) {
            Err(e) => Err(e),
            Ok(reply) => bits_of(Operation::GetDoubleValue, reply),
        }
    }

    /// The value as a string: the string that the foreign side gives,
    /// unchanged. A null string is a failed operation.
    pub fn get_string_value<F: Fn(Call) -> Option<Reply>>(&self, foreign: &mut Foreign<F>) -> (res: Result<
        String,
        BridgeError,
    >)
        ensures
            accessed(
                *old(foreign),
                *final(foreign),
                Operation::ValueIsValid,
                self.call(Operation::GetStringValue, ArgsView::Empty),
                |r: Option<Reply>| spec_text_of(Operation::GetStringValue, r),
                res,
            ),
    {
        match guarded_invoke(
            foreign,
            Operation::ValueIsValid,
            Operation::GetStringValue,
            self.ptr.as_raw(),
            Args::Empty,
        ) {
            Err(e) => Err(e),
            Ok(reply) => text_of(Operation::GetStringValue, reply),
        }
    }

    /// `res` holds the value at the address `raw`, or the error `raw`.
    pub open spec fn wraps(raw: Result<usize, BridgeError>, res: Result<V8Value, BridgeError>) -> bool {
        match raw {
            Err(e) => res == Err::<V8Value, BridgeError>(e),
            Ok(a) => res matches Ok(v) && v.addr() == a,
        }
    }

    /// `res` is a possible result of the value-returning accessor `op`, which
    /// asks the validity check and then the operation, and nothing else: the
    /// result owns exactly the reference that came with the handle.
    pub open spec fn yields_value<F: Fn(Call) -> Option<Reply>>(
        &self,
        before: Foreign<F>,
        after: Foreign<F>,
        op: Operation,
        args: ArgsView,
        res: Result<V8Value, BridgeError>,
    ) -> bool {
        exists|raw: Result<usize, BridgeError>| #[trigger]
            fetched(before, after, Operation::ValueIsValid, self.call(op, args), raw)
                && Self::wraps(raw, res)
    }

    fn fetch<F: Fn(Call) -> Option<Reply>>(&self, foreign: &mut Foreign<F>, op: Operation, args: Args) -> (res:
        Result<V8Value, BridgeError>)
        ensures
            self.yields_value(*old(foreign), *final(foreign), op, args@, res),
    {
        let raw = fetch_handle(foreign, Operation::ValueIsValid, op, self.ptr.as_raw(), args);
        match raw {
            Err(e) => Err(e),
            Ok(a) => {
                match V8Value::from_ptr(a) {
                    Some(v) => Ok(v),
                    None => Err(BridgeError::NullResult(op)),
                }
            },
        }
    }

    /// The value under `key`, taken over with its reference. A null handle is
    /// a failed operation, not a value.
    pub fn get_value_by_key<F: Fn(Call) -> Option<Reply>>(&self, key: &str, foreign: &mut Foreign<F>) -> (res:
        Result<V8Value, BridgeError>)
        ensures
            self.yields_value(*old(foreign), *final(foreign), Operation::GetValueByKey, ArgsView::Text(key@), res),
    {
        self.fetch(foreign, Operation::GetValueByKey, Args::Text(key.to_string()))
    }

    /// The value at `index`, taken over with its reference. A null handle is
    /// a failed operation, not a value.
    pub fn get_value_by_index<F: Fn(Call) -> Option<Reply>>(&self, index: i32, foreign: &mut Foreign<F>) -> (res:
        Result<V8Value, BridgeError>)
        ensures
            self.yields_value(*old(foreign), *final(foreign), Operation::GetValueByIndex, ArgsView::Int(index), res),
    {
        self.fetch(foreign, Operation::GetValueByIndex, Args::Int(index))
    }

    /// `res` is a possible result of an assignment that hands the reference
    /// on the handle at `value` to the foreign side. Where the operation ran,
    /// the reference has moved: no `Release` was asked, and the result is the
    /// foreign side's word on success. Where it did not run, because the
    /// validity check did not pass or the entry is unset, the reference was
    /// given back by one `Release`. Nothing else was asked.
    pub open spec fn yields_transfer<F: Fn(Call) -> Option<Reply>>(
        &self,
        before: Foreign<F>,
        after: Foreign<F>,
        op: Operation,
        args: ArgsView,
        value: usize,
        res: Result<bool, BridgeError>,
    ) -> bool {
        transferred(before, after, Operation::ValueIsValid, self.call(op, args), value, res)
    }

    fn transfer<F: Fn(Call) -> Option<Reply>>(
        &self,
        foreign: &mut Foreign<F>,
        op: Operation,
        args: Args,
        value: V8Value,
    ) -> (res: Result<bool, BridgeError>)
        ensures
            self.yields_transfer(*old(foreign), *final(foreign), op, args@, value.addr(), res),
    {
        transfer_flag(foreign, Operation::ValueIsValid, op, self.ptr.as_raw(), args, value.ptr)
    }

    /// Puts `value` under `key`, unrestricted in its use, and hands the
    /// reference that `value` owns to the foreign side.
    pub fn set_value_by_key<F: Fn(Call) -> Option<Reply>>(
        &self,
        key: &str,
        value: V8Value,
        foreign: &mut Foreign<F>,
    ) -> (res: Result<bool, BridgeError>)
        ensures
            self.yields_transfer(
                *old(foreign),
                *final(foreign),
                Operation::SetValueByKey,
                ArgsView::TextHandleAttribute(
                    key@,
                    value.addr(),
                    PropertyAttribute::Unrestricted,
                ),
                value.addr(),
                res,
            ),
    {
        let raw = value.ptr.as_raw();
        self.transfer(
            foreign,
            Operation::SetValueByKey,
            Args::TextHandleAttribute(key.to_string(), raw, PropertyAttribute::Unrestricted),
            value,
        )
    }

    /// Puts `value` at `index` and hands the reference that `value` owns to
    /// the foreign side.
    pub fn set_value_by_index<F: Fn(Call) -> Option<Reply>>(
        &self,
        index: i32,
        value: V8Value,
        foreign: &mut Foreign<F>,
    ) -> (res: Result<bool, BridgeError>)
        ensures
            self.yields_transfer(
                *old(foreign),
                *final(foreign),
                Operation::SetValueByIndex,
                ArgsView::IntHandle(index, value.addr()),
                value.addr(),
                res,
            ),
    {
        let raw = value.ptr.as_raw();
        self.transfer(foreign, Operation::SetValueByIndex, Args::IntHandle(index, raw), value)
    }

    /// The call of the engine-wide entry point `op`, which has no receiver.
    pub open spec fn engine_call(op: Operation, args: ArgsView) -> CallView {
        CallView { op, receiver: 0, args }
    }

    /// The call that asks the engine whether a context is entered.
    pub open spec fn in_context_call() -> CallView {
        Self::engine_call(Operation::InContext, ArgsView::Empty)
    }

    /// What making a value asks of the foreign side: whether a context is
    /// entered, answered `c`; then, only inside a context, `call` itself,
    /// answered `r`.
    pub open spec fn create_entries(call: CallView, c: Option<Reply>, r: Option<Reply>) -> Seq<
        Entry,
    > {
        if spec_flag_of(Operation::InContext, c) == Ok::<bool, BridgeError>(true) {
            seq![(Self::in_context_call(), c), (call, r)]
        } else {
            seq![(Self::in_context_call(), c)]
        }
    }

    /// What making a value yields for these answers. Outside every context
    /// no value is made and the request is refused. A null handle is a
    /// failed operation.
    pub open spec fn create_outcome(
        call: CallView,
        c: Option<Reply>,
        r: Option<Reply>,
        res: Result<V8Value, BridgeError>,
    ) -> bool {
        match spec_flag_of(Operation::InContext, c) {
            Err(e) => res == Err::<V8Value, BridgeError>(e),
            Ok(inside) => if inside {
                Self::wraps(spec_handle_of(call.op, r), res)
            } else {
                res == Err::<V8Value, BridgeError>(BridgeError::NotInContext)
            },
        }
    }

    /// Between `before` and `after` a value was made through the engine-wide
    /// entry point of `call`, and nothing else was asked: the result owns
    /// exactly the reference that came with the handle.
    pub open spec fn created<F: Fn(Call) -> Option<Reply>>(
        before: Foreign<F>,
        after: Foreign<F>,
        call: CallView,
        res: Result<V8Value, BridgeError>,
    ) -> bool {
        exists|c: Option<Reply>, r: Option<Reply>| #[trigger]
            appended(before, after, Self::create_entries(call, c, r)) && Self::create_outcome(
                call,
                c,
                r,
                res,
            ) && Self::create_answered(before, call, c, r)
    }

    /// The answers that making a value rests on are answers of the foreign
    /// side.
    pub open spec fn create_answered<F: Fn(Call) -> Option<Reply>>(
        before: Foreign<F>,
        call: CallView,
        c: Option<Reply>,
        r: Option<Reply>,
    ) -> bool {
        &&& answered(before.answerer(), Self::in_context_call(), c)
        &&& spec_flag_of(Operation::InContext, c) == Ok::<bool, BridgeError>(true) ==> answered(
            before.answerer(),
            call,
            r,
        )
    }

    /// Reads the answer of an entry point that returns a value.
    pub fn wrap_reply(op: Operation, reply: Option<Reply>) -> (res: Result<Self, BridgeError>)
        ensures
            Self::wraps(spec_handle_of(op, reply), res),
    {
        match handle_of(op, reply) {
            Err(e) => Err(e),
            Ok(a) => match V8Value::from_ptr(a) {
                Some(v) => Ok(v),
                None => Err(BridgeError::NullResult(op)),
            },
        }
    }

    fn create<F: Fn(Call) -> Option<Reply>>(foreign: &mut Foreign<F>, op: Operation, args: Args) -> (res:
        Result<V8Value, BridgeError>)
        ensures
            Self::created(*old(foreign), *final(foreign), Self::engine_call(op, args@), res),
    {
        let ghost call = Self::engine_call(op, args@);
        let c = invoke(foreign, Operation::InContext, 0, Args::Empty);
        let ghost between = *foreign;
        match flag_of(Operation::InContext, c) {
            Err(e) => {
                assert(appended(*old(foreign), *foreign, Self::create_entries(call, c, None)));
                Err(e)
            },
            Ok(false) => {
                assert(appended(*old(foreign), *foreign, Self::create_entries(call, c, None)));
                Err(BridgeError::NotInContext)
            },
            Ok(true) => {
                let reply = invoke(foreign, op, 0, args);
                proof {
                    lemma_appended_then(
                        *old(foreign),
                        between,
                        *foreign,
                        seq![(Self::in_context_call(), c)],
                        seq![(call, reply)],
                    );
                    assert(seq![(Self::in_context_call(), c)] + seq![(call, reply)]
                        =~= Self::create_entries(call, c, reply));
                    assert(appended(
                        *old(foreign),
                        *foreign,
                        Self::create_entries(call, c, reply),
                    ));
                }
                Self::wrap_reply(op, reply)
            },
        }
    }

    /// Makes a value of kind int that holds `i`. Only inside an entered
    /// context.
    pub fn create_int<F: Fn(Call) -> Option<Reply>>(i: i32, foreign: &mut Foreign<F>) -> (res:
        Result<V8Value, BridgeError>)
        ensures
            Self::created(
                *old(foreign),
                *final(foreign),
                Self::engine_call(Operation::CreateInt, ArgsView::Int(i)),
                res,
            ),
    {
        Self::create(foreign, Operation::CreateInt, Args::Int(i))
    }

    /// Makes a value of kind string that holds `s`. Only inside an entered
    /// context.
    pub fn create_string<F: Fn(Call) -> Option<Reply>>(s: &str, foreign: &mut Foreign<F>) -> (res:
        Result<V8Value, BridgeError>)
        ensures
            Self::created(
                *old(foreign),
                *final(foreign),
                Self::engine_call(Operation::CreateString, ArgsView::Text(s@)),
                res,
            ),
    {
        Self::create(foreign, Operation::CreateString, Args::Text(s.to_string()))
    }

    /// Makes a value of kind function, named `name`, whose calls go to
    /// `handler`. Only inside an entered context. The handler is lent to the
    /// call: no reference on it is asked for or given back here, and the
    /// caller still owns its own.
    pub fn create_function<F: Fn(Call) -> Option<Reply>>(
        name: &str,
        handler: &V8Handler,
        foreign: &mut Foreign<F>,
    ) -> (res: Result<V8Value, BridgeError>)
        ensures
            Self::created(
                *old(foreign),
                *final(foreign),
                Self::engine_call(
                    Operation::CreateFunction,
                    ArgsView::TextHandle(name@, handler.addr()),
                ),
                res,
            ),
    {
        Self::create(
            foreign,
            Operation::CreateFunction,
            Args::TextHandle(name.to_string(), handler.as_ptr()),
        )
    }
}

/// Making a value takes no reference beyond the one that comes with the
/// handle: among the calls of `create_int`, `create_string` and
/// `create_function` there is no
/// `AddRef` and no `Release`, on any handle.
pub proof fn lemma_create_counts_nothing(
    call: CallView,
    c: Option<Reply>,
    r: Option<Reply>,
    addr: usize,
)
    requires
        call.op != Operation::AddRef && call.op != Operation::Release,
    ensures
        count_steps(V8Value::create_entries(call, c, r), addr) =~= Seq::<Operation>::empty(),
{
    lemma_no_count_steps(V8Value::create_entries(call, c, r), addr);
}

/// What is written under a key is what is read back. Let the foreign side
/// report every handle as valid, answer `get_value_by_key` for `key` on
/// `object` with the handle `stored` that `set_value_by_key` handed over, and
/// answer `is_same` by comparing the two addresses. Then every result of
/// `get_value_by_key(key)` is a value on that very handle, for any key and any
/// kind of value, and every result of its `is_same` against the value that
/// was written is `Ok(true)`.
pub proof fn lemma_set_then_get_is_same<F: Fn(Call) -> Option<Reply>>(
    before: Foreign<F>,
    between: Foreign<F>,
    after: Foreign<F>,
    object: V8Value,
    key: Seq<char>,
    stored: usize,
    got: Result<V8Value, BridgeError>,
    same: Result<bool, BridgeError>,
)
    requires
        stored != 0,
        forall|c: Call, r: Option<Reply>| #[trigger]
            call_ensures(before.answerer(), (c,), r) && c.op == Operation::ValueIsValid ==> r
                == Some(Reply::Int(1)),
        forall|c: Call, r: Option<Reply>| #[trigger]
            call_ensures(before.answerer(), (c,), r) && c@ == object.call(
                Operation::GetValueByKey,
                ArgsView::Text(key),
            ) ==> r == Some(Reply::Handle(stored)),
        forall|c: Call, r: Option<Reply>| #[trigger]
            call_ensures(before.answerer(), (c,), r) && c.op == Operation::ValueIsSame ==> r
                == Some(
                Reply::Int(if c.args@ == ArgsView::Handle(c.receiver) { 1i32 } else { 0i32 }),
            ),
        object.yields_value(before, between, Operation::GetValueByKey, ArgsView::Text(key), got),
        got matches Ok(g) ==> g.yields_flag(
            between,
            after,
            Operation::ValueIsSame,
            ArgsView::Handle(stored),
            same,
        ),
    ensures
        got matches Ok(g) && g.addr() == stored,
        same == Ok::<bool, BridgeError>(true),
{
}

/// An int that is made is the int that is read back. Let the foreign side be
/// inside a context, report every handle as valid, make ints at the handle
/// `made`, and answer the accessors of that handle as an int of value `i`
/// does. Then every result of `create_int(i)` is a value on that handle,
/// whose `get_int_value` is `i`.
pub proof fn lemma_create_int_then_read<F: Fn(Call) -> Option<Reply>>(
    before: Foreign<F>,
    between: Foreign<F>,
    after: Foreign<F>,
    i: i32,
    made: usize,
    value: Result<V8Value, BridgeError>,
    read: Result<i32, BridgeError>,
)
    requires
        made != 0,
        forall|c: Call, r: Option<Reply>| #[trigger]
            call_ensures(before.answerer(), (c,), r) ==> r == (match c.op {
                Operation::CreateInt => Some(Reply::Handle(made)),
                Operation::GetIntValue => Some(Reply::Int(i)),
                _ => Some(Reply::Int(1)),
            }),
        V8Value::created(
            before,
            between,
            V8Value::engine_call(Operation::CreateInt, ArgsView::Int(i)),
            value,
        ),
        value matches Ok(v) ==> accessed(
            between,
            after,
            Operation::ValueIsValid,
            v.call(Operation::GetIntValue, ArgsView::Empty),
            |r: Option<Reply>| spec_int_of(Operation::GetIntValue, r),
            read,
        ),
    ensures
        value matches Ok(v) && v.addr() == made,
        read == Ok::<i32, BridgeError>(i),
{
}

/// A string that is made is the string that is read back, character for
/// character. Let the foreign side be inside a context, report every handle
/// as valid, make strings at the handle `made`, and answer `get_string_value`
/// with the string `text`. Then every result of `create_string` is a value on
/// that handle, and every result of its `get_string_value` is `text` itself.
pub proof fn lemma_create_string_then_read<F: Fn(Call) -> Option<Reply>>(
    before: Foreign<F>,
    between: Foreign<F>,
    after: Foreign<F>,
    text: String,
    made: usize,
    value: Result<V8Value, BridgeError>,
    read: Result<String, BridgeError>,
)
    requires
        made != 0,
        forall|c: Call, r: Option<Reply>| #[trigger]
            call_ensures(before.answerer(), (c,), r) ==> r == (match c.op {
                Operation::CreateString => Some(Reply::Handle(made)),
                Operation::GetStringValue => Some(Reply::Text(Some(text))),
                _ => Some(Reply::Int(1)),
            }),
        V8Value::created(
            before,
            between,
            V8Value::engine_call(Operation::CreateString, ArgsView::Text(text@)),
            value,
        ),
        value matches Ok(v) ==> accessed(
            between,
            after,
            Operation::ValueIsValid,
            v.call(Operation::GetStringValue, ArgsView::Empty),
            |r: Option<Reply>| spec_text_of(Operation::GetStringValue, r),
            read,
        ),
    ensures
        value matches Ok(v) && v.addr() == made,
        read == Ok::<String, BridgeError>(text),
{
}

} // verus!
