use crate::abi::{
    answered, appended, asked_once, flag_from_raw, invoke, lemma_appended_then,
    spec_flag_from_raw, Args, ArgsView, Call, CallView, Entry, Foreign, Operation, Reply,
};
use crate::error::BridgeError;
use crate::ref_counted::{count_steps, lemma_no_count_steps, RefCountedPtr};
use vstd::prelude::*;

verus! {

/// What a truth-valued operation yields for each answer: an unset entry is
/// reported as missing, an integer is read as a truth value, and any other
/// shape is refused.
pub open spec fn spec_flag_of(op: Operation, reply: Option<Reply>) -> Result<bool, BridgeError> {
    match reply {
        None => Err(BridgeError::MissingOperation(op)),
        Some(Reply::Int(raw)) => Ok(spec_flag_from_raw(raw)),
        Some(_) => Err(BridgeError::UnexpectedReply(op)),
    }
}

/// Reads the answer of a truth-valued operation.
pub fn flag_of(op: Operation, reply: Option<Reply>) -> (res: Result<bool, BridgeError>)
    ensures
        res == spec_flag_of(op, reply),
{
    match reply {
        None => Err(BridgeError::MissingOperation(op)),
        Some(Reply::Int(raw)) => Ok(flag_from_raw(raw)),
        Some(_) => Err(BridgeError::UnexpectedReply(op)),
    }
}

/// What an integer-valued operation yields for each answer: the integer as
/// it came.
pub open spec fn spec_int_of(op: Operation, reply: Option<Reply>) -> Result<i32, BridgeError> {
    match reply {
        None => Err(BridgeError::MissingOperation(op)),
        Some(Reply::Int(raw)) => Ok(raw),
        Some(_) => Err(BridgeError::UnexpectedReply(op)),
    }
}

/// Reads the answer of an integer-valued operation.
pub fn int_of(op: Operation, reply: Option<Reply>) -> (res: Result<i32, BridgeError>)
    ensures
        res == spec_int_of(op, reply),
{
    match reply {
        None => Err(BridgeError::MissingOperation(op)),
        Some(Reply::Int(raw)) => Ok(raw),
        Some(_) => Err(BridgeError::UnexpectedReply(op)),
    }
}

/// What an operation that returns an unsigned integer yields for each answer.
pub open spec fn spec_uint_of(op: Operation, reply: Option<Reply>) -> Result<u32, BridgeError> {
    match reply {
        None => Err(BridgeError::MissingOperation(op)),
        Some(Reply::Uint(raw)) => Ok(raw),
        Some(_) => Err(BridgeError::UnexpectedReply(op)),
    }
}

/// Reads the answer of an operation that returns an unsigned integer.
pub fn uint_of(op: Operation, reply: Option<Reply>) -> (res: Result<u32, BridgeError>)
    ensures
        res == spec_uint_of(op, reply),
{
    match reply {
        None => Err(BridgeError::MissingOperation(op)),
        Some(Reply::Uint(raw)) => Ok(raw),
        Some(_) => Err(BridgeError::UnexpectedReply(op)),
    }
}

/// What a double-valued operation yields for each answer: the bit pattern as
/// it came.
pub open spec fn spec_bits_of(op: Operation, reply: Option<Reply>) -> Result<u64, BridgeError> {
    match reply {
        None => Err(BridgeError::MissingOperation(op)),
        Some(Reply::DoubleBits(bits)) => Ok(bits),
        Some(_) => Err(BridgeError::UnexpectedReply(op)),
    }
}

/// Reads the answer of a double-valued operation.
pub fn bits_of(op: Operation, reply: Option<Reply>) -> (res: Result<u64, BridgeError>)
    ensures
        res == spec_bits_of(op, reply),
{
    match reply {
        None => Err(BridgeError::MissingOperation(op)),
        Some(Reply::DoubleBits(bits)) => Ok(bits),
        Some(_) => Err(BridgeError::UnexpectedReply(op)),
    }
}

/// What a string-valued operation yields for each answer: the string as it
/// came, and a null string as a failed operation.
pub open spec fn spec_text_of(op: Operation, reply: Option<Reply>) -> Result<String, BridgeError> {
    match reply {
        None => Err(BridgeError::MissingOperation(op)),
        Some(Reply::Text(Some(s))) => Ok(s),
        Some(Reply::Text(None)) => Err(BridgeError::NullResult(op)),
        Some(_) => Err(BridgeError::UnexpectedReply(op)),
    }
}

/// Reads the answer of a string-valued operation.
pub fn text_of(op: Operation, reply: Option<Reply>) -> (res: Result<String, BridgeError>)
    ensures
        res == spec_text_of(op, reply),
{
    match reply {
        None => Err(BridgeError::MissingOperation(op)),
        Some(Reply::Text(Some(s))) => Ok(s),
        Some(Reply::Text(None)) => Err(BridgeError::NullResult(op)),
        Some(_) => Err(BridgeError::UnexpectedReply(op)),
    }
}

/// What a handle-valued operation yields for each answer: the address as it
/// came, and a null address as a failed operation, never as a handle.
pub open spec fn spec_handle_of(op: Operation, reply: Option<Reply>) -> Result<usize, BridgeError> {
    match reply {
        None => Err(BridgeError::MissingOperation(op)),
        Some(Reply::Handle(raw)) => if raw == 0 {
            Err(BridgeError::NullResult(op))
        } else {
            Ok(raw)
        },
        Some(_) => Err(BridgeError::UnexpectedReply(op)),
    }
}

/// Reads the answer of a handle-valued operation.
pub fn handle_of(op: Operation, reply: Option<Reply>) -> (res: Result<usize, BridgeError>)
    ensures
        res == spec_handle_of(op, reply),
        res matches Ok(raw) ==> raw != 0,
{
    match reply {
        None => Err(BridgeError::MissingOperation(op)),
        Some(Reply::Handle(raw)) => {
            if raw == 0 {
                Err(BridgeError::NullResult(op))
            } else {
                Ok(raw)
            }
        },
        Some(_) => Err(BridgeError::UnexpectedReply(op)),
    }
}

/// What the validity check at the entry of an accessor decides for each
/// answer of the handle's own check `valid_op`: only a handle that reports
/// itself valid lets the accessor go on.
pub open spec fn spec_gate_of(valid_op: Operation, reply: Option<Reply>) -> Result<(), BridgeError> {
    match reply {
        None => Err(BridgeError::MissingOperation(valid_op)),
        Some(Reply::Int(raw)) => if spec_flag_from_raw(raw) {
            Ok(())
        } else {
            Err(BridgeError::InvalidHandle)
        },
        Some(_) => Err(BridgeError::UnexpectedReply(valid_op)),
    }
}

/// Reads the answer of a handle's own validity check.
pub fn gate_of(valid_op: Operation, reply: Option<Reply>) -> (res: Result<(), BridgeError>)
    ensures
        res == spec_gate_of(valid_op, reply),
{
    match reply {
        None => Err(BridgeError::MissingOperation(valid_op)),
        Some(Reply::Int(raw)) => {
            if flag_from_raw(raw) {
                Ok(())
            } else {
                Err(BridgeError::InvalidHandle)
            }
        },
        Some(_) => Err(BridgeError::UnexpectedReply(valid_op)),
    }
}

/// The call that asks the receiver of `call` for its validity.
pub open spec fn gate_call(valid_op: Operation, call: CallView) -> CallView {
    CallView { op: valid_op, receiver: call.receiver, args: ArgsView::Empty }
}

/// What a guarded call asks of the foreign side: first the receiver's own
/// validity check, answered `g`; then, only where that check passes, `call`
/// itself, answered `r`.
pub open spec fn guarded_entries(
    valid_op: Operation,
    call: CallView,
    g: Option<Reply>,
    r: Option<Reply>,
) -> Seq<Entry> {
    if spec_gate_of(valid_op, g) is Ok {
        seq![(gate_call(valid_op, call), g), (call, r)]
    } else {
        seq![(gate_call(valid_op, call), g)]
    }
}

/// What a guarded call yields: the error of the validity check, or the
/// answer to the call.
pub open spec fn guarded_outcome(valid_op: Operation, g: Option<Reply>, r: Option<Reply>) -> Result<
    Option<Reply>,
    BridgeError,
> {
    match spec_gate_of(valid_op, g) {
        Err(e) => Err(e),
        Ok(_) => Ok(r),
    }
}

/// Between `before` and `after` one guarded call was made, and nothing else
/// was asked; `out` is what it yields.
pub open spec fn guarded<F: Fn(Call) -> Option<Reply>>(
    before: Foreign<F>,
    after: Foreign<F>,
    valid_op: Operation,
    call: CallView,
    out: Result<Option<Reply>, BridgeError>,
) -> bool {
    exists|g: Option<Reply>, r: Option<Reply>| #[trigger]
        appended(before, after, guarded_entries(valid_op, call, g, r)) && out == guarded_outcome(
            valid_op,
            g,
            r,
        ) && answered(before.answerer(), gate_call(valid_op, call), g) && (spec_gate_of(
            valid_op,
            g,
        ) is Ok ==> answered(before.answerer(), call, r))
}

/// A guarded call of an operation that is no reference-count call takes and
/// gives back no reference, on any handle.
pub proof fn lemma_guarded_counts_nothing(
    valid_op: Operation,
    call: CallView,
    g: Option<Reply>,
    r: Option<Reply>,
    addr: usize,
)
    requires
        valid_op != Operation::AddRef && valid_op != Operation::Release,
        call.op != Operation::AddRef && call.op != Operation::Release,
    ensures
        count_steps(guarded_entries(valid_op, call, g, r), addr) =~= Seq::<Operation>::empty(),
{
    lemma_no_count_steps(guarded_entries(valid_op, call, g, r), addr);
}

/// Asks the receiver for its validity and, only where it is valid, hands the
/// call to the foreign side.
pub fn guarded_invoke<F: Fn(Call) -> Option<Reply>>(
    foreign: &mut Foreign<F>,
    valid_op: Operation,
    op: Operation,
    receiver: usize,
    args: Args,
) -> (out: Result<Option<Reply>, BridgeError>)
    ensures
        guarded(*old(foreign), *final(foreign), valid_op, CallView { op, receiver, args: args@ }, out),
{
    let ghost call = CallView { op, receiver, args: args@ };
    let g = invoke(foreign, valid_op, receiver, Args::Empty);
    let ghost between = *foreign;
    match gate_of(valid_op, g) {
        Err(e) => {
            assert(appended(*old(foreign), *foreign, guarded_entries(valid_op, call, g, None)));
            Err(e)
        },
        Ok(_) => {
            let r = invoke(foreign, op, receiver, args);
            proof {
                lemma_appended_then(
                    *old(foreign),
                    between,
                    *foreign,
                    seq![(gate_call(valid_op, call), g)],
                    seq![(call, r)],
                );
                assert(seq![(gate_call(valid_op, call), g)] + seq![(call, r)]
                    =~= guarded_entries(valid_op, call, g, r));
                assert(appended(*old(foreign), *foreign, guarded_entries(valid_op, call, g, r)));
            }
            Ok(r)
        },
    }
}

/// Between `before` and `after` one guarded call was made, and nothing else
/// was asked; `res` is its answer as `read` reads it.
pub open spec fn accessed<F: Fn(Call) -> Option<Reply>, T>(
    before: Foreign<F>,
    after: Foreign<F>,
    valid_op: Operation,
    call: CallView,
    read: spec_fn(Option<Reply>) -> Result<T, BridgeError>,
    res: Result<T, BridgeError>,
) -> bool {
    exists|out: Result<Option<Reply>, BridgeError>| #[trigger]
        guarded(before, after, valid_op, call, out) && res == match out {
            Err(e) => Err::<T, BridgeError>(e),
            Ok(r) => read(r),
        }
}

/// Between `before` and `after` one guarded, truth-valued call was made, and
/// nothing else was asked; `res` is the error of the validity check or the
/// call's answer read as a truth value.
pub open spec fn flagged<F: Fn(Call) -> Option<Reply>>(
    before: Foreign<F>,
    after: Foreign<F>,
    valid_op: Operation,
    call: CallView,
    res: Result<bool, BridgeError>,
) -> bool {
    accessed(before, after, valid_op, call, |r: Option<Reply>| spec_flag_of(call.op, r), res)
}

/// Makes a guarded, truth-valued call.
pub fn guarded_flag<F: Fn(Call) -> Option<Reply>>(
    foreign: &mut Foreign<F>,
    valid_op: Operation,
    op: Operation,
    receiver: usize,
    args: Args,
) -> (res: Result<bool, BridgeError>)
    ensures
        flagged(*old(foreign), *final(foreign), valid_op, CallView { op, receiver, args: args@ }, res),
{
    match guarded_invoke(foreign, valid_op, op, receiver, args) {
        Err(e) => Err(e),
        Ok(reply) => flag_of(op, reply),
    }
}

/// Between `before` and `after` one guarded call that returns a handle was
/// made, and nothing else was asked: no reference was taken beyond the one
/// that comes with the handle. `raw` is the address of the handle, never
/// null, or the reason why there is none.
pub open spec fn fetched<F: Fn(Call) -> Option<Reply>>(
    before: Foreign<F>,
    after: Foreign<F>,
    valid_op: Operation,
    call: CallView,
    raw: Result<usize, BridgeError>,
) -> bool {
    exists|out: Result<Option<Reply>, BridgeError>| #[trigger]
        guarded(before, after, valid_op, call, out) && raw == match out {
            Err(e) => Err::<usize, BridgeError>(e),
            Ok(r) => spec_handle_of(call.op, r),
        }
}

/// Makes a guarded call that returns a handle.
pub fn fetch_handle<F: Fn(Call) -> Option<Reply>>(
    foreign: &mut Foreign<F>,
    valid_op: Operation,
    op: Operation,
    receiver: usize,
    args: Args,
) -> (raw: Result<usize, BridgeError>)
    ensures
        fetched(*old(foreign), *final(foreign), valid_op, CallView { op, receiver, args: args@ }, raw),
        raw matches Ok(a) ==> a != 0,
{
    match guarded_invoke(foreign, valid_op, op, receiver, args) {
        Err(e) => Err(e),
        Ok(reply) => handle_of(op, reply),
    }
}

/// Whether a guarded call ran its operation: the validity check passed and
/// the entry is set.
pub open spec fn ran(valid_op: Operation, g: Option<Reply>, r: Option<Reply>) -> bool {
    guarded_outcome(valid_op, g, r) matches Ok(Some(_))
}

/// What a guarded call that hands over the reference on the handle at
/// `value` asks of the foreign side: the guarded call; then, exactly where
/// the operation did not run, one `Release` on `value`, answered `x`.
pub open spec fn transfer_entries(
    valid_op: Operation,
    call: CallView,
    value: usize,
    g: Option<Reply>,
    r: Option<Reply>,
    x: Option<Reply>,
) -> Seq<Entry> {
    if ran(valid_op, g, r) {
        guarded_entries(valid_op, call, g, r)
    } else {
        guarded_entries(valid_op, call, g, r) + RefCountedPtr::released(value, x)
    }
}

/// What such a call yields. Where the operation ran, the foreign side's
/// word. Where it did not run, an error: that of the `Release` where the
/// reference could not be given back, else the reason why the operation did
/// not run.
pub open spec fn transfer_outcome(
    valid_op: Operation,
    op: Operation,
    g: Option<Reply>,
    r: Option<Reply>,
    x: Option<Reply>,
) -> Result<bool, BridgeError> {
    match guarded_outcome(valid_op, g, r) {
        Ok(Some(reply)) => spec_flag_of(op, Some(reply)),
        Ok(None) => match spec_flag_of(Operation::Release, x) {
            Err(e) => Err(e),
            Ok(_) => Err(BridgeError::MissingOperation(op)),
        },
        Err(first) => match spec_flag_of(Operation::Release, x) {
            Err(e) => Err(e),
            Ok(_) => Err(first),
        },
    }
}

/// Between `before` and `after` one guarded, truth-valued call was made that
/// hands the reference on the handle at `value` to the foreign side. Where
/// the operation ran, the reference has moved: no `Release` was asked, and
/// the result is the foreign side's word. Where it did not run, the
/// reference was given back by one `Release`. Nothing else was asked.
pub open spec fn transferred<F: Fn(Call) -> Option<Reply>>(
    before: Foreign<F>,
    after: Foreign<F>,
    valid_op: Operation,
    call: CallView,
    value: usize,
    res: Result<bool, BridgeError>,
) -> bool {
    exists|g: Option<Reply>, r: Option<Reply>, x: Option<Reply>| #[trigger]
        appended(before, after, transfer_entries(valid_op, call, value, g, r, x)) && res
            == transfer_outcome(valid_op, call.op, g, r, x) && answered(
            before.answerer(),
            gate_call(valid_op, call),
            g,
        ) && (spec_gate_of(valid_op, g) is Ok ==> answered(before.answerer(), call, r)) && (!ran(
            valid_op,
            g,
            r,
        ) ==> answered(
            before.answerer(),
            RefCountedPtr::count_call(Operation::Release, value),
            x,
        ))
}

/// A guarded call that did not run its operation, followed by the one
/// `Release` that gives the reference back, is a transfer.
proof fn lemma_given_back<F: Fn(Call) -> Option<Reply>>(
    before: Foreign<F>,
    between: Foreign<F>,
    after: Foreign<F>,
    valid_op: Operation,
    call: CallView,
    value: usize,
    g: Option<Reply>,
    r: Option<Reply>,
    x: Option<Reply>,
)
    requires
        appended(before, between, guarded_entries(valid_op, call, g, r)),
        answered(before.answerer(), gate_call(valid_op, call), g),
        spec_gate_of(valid_op, g) is Ok ==> answered(before.answerer(), call, r),
        !ran(valid_op, g, r),
        asked_once(between, after, RefCountedPtr::count_call(Operation::Release, value), x),
    ensures
        transferred(
            before,
            after,
            valid_op,
            call,
            value,
            transfer_outcome(valid_op, call.op, g, r, x),
        ),
{
    lemma_appended_then(
        before,
        between,
        after,
        guarded_entries(valid_op, call, g, r),
        RefCountedPtr::released(value, x),
    );
    assert(appended(before, after, transfer_entries(valid_op, call, value, g, r, x)));
}

/// Makes a guarded, truth-valued call whose arguments name the handle of
/// `value`, and settles who owns the reference afterwards.
pub fn transfer_flag<F: Fn(Call) -> Option<Reply>>(
    foreign: &mut Foreign<F>,
    valid_op: Operation,
    op: Operation,
    receiver: usize,
    args: Args,
    value: RefCountedPtr,
) -> (res: Result<bool, BridgeError>)
    ensures
        transferred(
            *old(foreign),
            *final(foreign),
            valid_op,
            CallView { op, receiver, args: args@ },
            value.addr(),
            res,
        ),
{
    let ghost call = CallView { op, receiver, args: args@ };
    let ghost addr = value.addr();
    let out = guarded_invoke(foreign, valid_op, op, receiver, args);
    let ghost between = *foreign;
    let ghost (g, r) = choose|g: Option<Reply>, r: Option<Reply>| #[trigger]
        appended(*old(foreign), between, guarded_entries(valid_op, call, g, r)) && out
            == guarded_outcome(valid_op, g, r) && answered(
            old(foreign).answerer(),
            gate_call(valid_op, call),
            g,
        ) && (spec_gate_of(valid_op, g) is Ok ==> answered(old(foreign).answerer(), call, r));
    match out {
        Ok(Some(reply)) => {
            let _ = value.into_raw();
            assert(appended(
                *old(foreign),
                *foreign,
                transfer_entries(valid_op, call, addr, g, r, None),
            ));
            flag_of(op, Some(reply))
        },
        other => {
            let back = value.release(foreign);
            proof {
                let x = choose|x: Option<Reply>| #[trigger]
                    asked_once(
                        between,
                        *foreign,
                        RefCountedPtr::count_call(Operation::Release, addr),
                        x,
                    ) && back == spec_flag_of(Operation::Release, x);
                lemma_given_back(*old(foreign), between, *foreign, valid_op, call, addr, g, r, x);
            }
            match back {
                Err(e) => Err(e),
                Ok(_) => match other {
                    Err(first) => Err(first),
                    Ok(_) => Err(BridgeError::MissingOperation(op)),
                },
            }
        },
    }
}

} // verus!
