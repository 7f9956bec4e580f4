use vstd::prelude::*;

verus! {

/// The entries of the foreign operation tables, and the engine-wide entry
/// points, that the native side calls.
#[derive(Clone, Copy, Debug, PartialEq, Eq, Structural)]
pub enum Operation {
    /// Reference-count header: take one more reference.
    AddRef,
    /// Reference-count header: give one reference back.
    Release,
    ContextIsValid,
    ContextGetBrowser,
    ContextGetFrame,
    ContextGetGlobal,
    ContextEnter,
    ContextExit,
    ContextIsSame,
    /// Engine-wide: the context on top of the context stack.
    CurrentContext,
    /// Engine-wide: the context at the bottom of the context stack.
    EnteredContext,
    /// Engine-wide: whether any context is entered.
    InContext,
    /// Engine-wide: make a value of kind int.
    CreateInt,
    /// Engine-wide: make a value of kind string.
    CreateString,
    /// Engine-wide: make a value of kind function.
    CreateFunction,
    ValueIsValid,
    IsUndefined,
    IsNull,
    IsBool,
    IsInt,
    IsUint,
    IsDouble,
    IsDate,
    IsString,
    IsObject,
    IsArray,
    IsArrayBuffer,
    IsFunction,
    IsPromise,
    ValueIsSame,
    GetBoolValue,
    GetIntValue,
    GetUintValue,
    GetDoubleValue,
    GetStringValue,
    IsUserCreated,
    HasException,
    ClearException,
    WillRethrowExceptions,
    SetRethrowExceptions,
    HasValueByKey,
    HasValueByIndex,
    DeleteValueByKey,
    DeleteValueByIndex,
    GetValueByKey,
    GetValueByIndex,
    SetValueByKey,
    SetValueByIndex,
}

/// How a property that is put on an object may be used afterwards.
#[derive(Clone, Copy, Debug, PartialEq, Eq, Structural)]
pub enum PropertyAttribute {
    /// Writable, enumerable and configurable.
    Unrestricted,
    ReadOnly,
    DontEnum,
    DontDelete,
}

/// What follows the receiver in a foreign call.
#[derive(Debug, PartialEq, Eq)]
pub enum Args {
    Empty,
    Int(i32),
    Handle(usize),
    Text(String),
    IntHandle(i32, usize),
    TextHandle(String, usize),
    TextHandleAttribute(String, usize, PropertyAttribute),
}

/// `Args` with its strings as sequences of characters.
pub enum ArgsView {
    Empty,
    Int(i32),
    Handle(usize),
    Text(Seq<char>),
    IntHandle(i32, usize),
    TextHandle(Seq<char>, usize),
    TextHandleAttribute(Seq<char>, usize, PropertyAttribute),
}

impl View for Args {
    type V = ArgsView;

    open spec fn view(&self) -> ArgsView {
        match *self {
            Args::Empty => ArgsView::Empty,
            Args::Int(i) => ArgsView::Int(i),
            Args::Handle(h) => ArgsView::Handle(h),
            Args::Text(s) => ArgsView::Text(s@),
            Args::IntHandle(i, h) => ArgsView::IntHandle(i, h),
            Args::TextHandle(s, h) => ArgsView::TextHandle(s@, h),
            Args::TextHandleAttribute(s, h, a) => ArgsView::TextHandleAttribute(s@, h, a),
        }
    }
}

/// One call across the boundary: the table entry, the receiver's address
/// (zero for an engine-wide entry point) and the arguments.
#[derive(Debug, PartialEq, Eq)]
pub struct Call {
    pub op: Operation,
    pub receiver: usize,
    pub args: Args,
}

/// `Call` with its strings as sequences of characters.
pub struct CallView {
    pub op: Operation,
    pub receiver: usize,
    pub args: ArgsView,
}

impl View for Call {
    type V = CallView;

    open spec fn view(&self) -> CallView {
        CallView { op: self.op, receiver: self.receiver, args: self.args@ }
    }
}

/// What a foreign operation hands back, by the return type of its table
/// entry. A string is already a native string; `Text(None)` is a null string.
/// A double travels as its IEEE 754 bit pattern.
#[derive(Debug, PartialEq, Eq)]
pub enum Reply {
    Void,
    Int(i32),
    Uint(u32),
    DoubleBits(u64),
    Text(Option<String>),
    Handle(usize),
}

/// One line of the record of what was asked of the foreign side: the call and
/// its answer. `None` says that the table entry is unset.
pub type Entry = (CallView, Option<Reply>);

/// `reply` is an answer that `answerer` may give to a call that reads `call`.
pub open spec fn answered<F: Fn(Call) -> Option<Reply>>(
    answerer: F,
    call: CallView,
    reply: Option<Reply>,
) -> bool {
    exists|c: Call| c@ == call && #[trigger] call_ensures(answerer, (c,), reply)
}

/// The foreign side: the function that performs each call, together with
/// the record of every call made through it, in order. A call can be made
/// through `call` only, which writes the record.
pub struct Foreign<F: Fn(Call) -> Option<Reply>> {
    answerer: F,
    asked: Ghost<Seq<Entry>>,
}

impl<F: Fn(Call) -> Option<Reply>> Foreign<F> {
    /// Every call made so far with its answer, oldest first.
    pub closed spec fn log(&self) -> Seq<Entry> {
        self.asked@
    }

    /// The function that performs the calls.
    pub closed spec fn answerer(&self) -> F {
        self.answerer
    }

    /// The function accepts every call.
    #[verifier::type_invariant]
    spec fn accepts_all(self) -> bool {
        forall|c: Call| call_requires(self.answerer, (c,))
    }

    /// A foreign side of which nothing has been asked yet. The function must
    /// accept every call.
    pub fn new(answerer: F) -> (foreign: Self)
        requires
            forall|c: Call| call_requires(answerer, (c,)),
        ensures
            foreign.answerer() == answerer,
            foreign.log() == Seq::<Entry>::empty(),
    {
        Foreign { answerer, asked: Ghost(Seq::empty()) }
    }

    /// Makes one call and records it with its answer.
    pub fn call(&mut self, c: Call) -> (reply: Option<Reply>)
        ensures
            appended(*old(self), *final(self), seq![(c@, reply)]),
    {
        let ghost read = c@;
        proof {
            use_type_invariant(&*self);
        }
        assert(call_requires(self.answerer, (c,)));
        let reply = (self.answerer)(c);
        self.asked = Ghost(self.asked@.push((read, reply)));
        assert(self.asked@ =~= old(self).asked@ + seq![(read, reply)]);
        reply
    }
}

/// Between `before` and `after` exactly the calls of `entries` were made, in
/// this order and with these answers, and no other.
pub open spec fn appended<F: Fn(Call) -> Option<Reply>>(
    before: Foreign<F>,
    after: Foreign<F>,
    entries: Seq<Entry>,
) -> bool {
    &&& after.answerer() == before.answerer()
    &&& after.log() == before.log() + entries
    &&& forall|i: int|
        0 <= i < entries.len() ==> answered(
            before.answerer(),
            (#[trigger] entries[i]).0,
            entries[i].1,
        )
}

/// Between `before` and `after` exactly one call was made: `call`, answered
/// `reply`.
pub open spec fn asked_once<F: Fn(Call) -> Option<Reply>>(
    before: Foreign<F>,
    after: Foreign<F>,
    call: CallView,
    reply: Option<Reply>,
) -> bool {
    &&& appended(before, after, seq![(call, reply)])
    &&& answered(before.answerer(), call, reply)
}

/// Calls made one after the other are the calls of both, in order.
pub proof fn lemma_appended_then<F: Fn(Call) -> Option<Reply>>(
    before: Foreign<F>,
    between: Foreign<F>,
    after: Foreign<F>,
    first: Seq<Entry>,
    second: Seq<Entry>,
)
    requires
        appended(before, between, first),
        appended(between, after, second),
    ensures
        appended(before, after, first + second),
{
    assert(after.log() =~= before.log() + (first + second));
}

/// Hands one call to the foreign side.
pub fn invoke<F: Fn(Call) -> Option<Reply>>(
    foreign: &mut Foreign<F>,
    op: Operation,
    receiver: usize,
    args: Args,
) -> (reply: Option<Reply>)
    ensures
        asked_once(*old(foreign), *final(foreign), CallView { op, receiver, args: args@ }, reply),
{
    let ghost call = CallView { op, receiver, args: args@ };
    let reply = foreign.call(Call { op, receiver, args });
    assert(seq![(call, reply)][0] == (call, reply));
    reply
}

/// The native truth value of a foreign one: zero is false, all else true.
pub open spec fn spec_flag_from_raw(raw: i32) -> bool {
    raw != 0
}

/// Converts a foreign truth value into a native one.
pub fn flag_from_raw(raw: i32) -> (b: bool)
    ensures
        b == spec_flag_from_raw(raw),
{
    raw != 0
}

/// The foreign truth value of a native one: `1` for true, `0` for false.
pub open spec fn spec_flag_to_raw(b: bool) -> i32 {
    if b { 1i32 } else { 0i32 }
}

/// Converts a native truth value into a foreign one.
pub fn flag_to_raw(b: bool) -> (raw: i32)
    ensures
        raw == spec_flag_to_raw(b),
{
    if b { 1 } else { 0 }
}

} // verus!
