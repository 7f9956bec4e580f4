use crate::abi::{
    asked_once, invoke, Args, ArgsView, Call, CallView, Entry, Foreign, Operation, Reply,
};
use crate::error::BridgeError;
use crate::reply::{flag_of, spec_flag_of};
use vstd::prelude::*;

verus! {

/// The count of a live handle after one more reference was taken. A handle
/// whose count has reached zero is gone and stays at zero.
pub open spec fn spec_add_ref(count: nat) -> nat {
    if count > 0 {
        count + 1
    } else {
        0
    }
}

/// The count of a handle after one reference was given back.
pub open spec fn spec_release(count: nat) -> nat {
    if count > 0 {
        (count - 1) as nat
    } else {
        0
    }
}

/// The count of a handle after the reference-count calls `steps`, in order.
pub open spec fn count_after(start: nat, steps: Seq<Operation>) -> nat
    decreases steps.len(),
{
    if steps.len() == 0 {
        start
    } else {
        let before = count_after(start, steps.drop_last());
        match steps.last() {
            Operation::AddRef => spec_add_ref(before),
            Operation::Release => spec_release(before),
            _ => before,
        }
    }
}

/// The reference-count calls that `n` clones of a smart pointer make.
pub open spec fn clone_steps(n: nat) -> Seq<Operation> {
    Seq::new(n, |i: int| Operation::AddRef)
}

/// The reference-count calls that `n` drops of a smart pointer make.
pub open spec fn drop_steps(n: nat) -> Seq<Operation> {
    Seq::new(n, |i: int| Operation::Release)
}

proof fn lemma_count_after_clones(start: nat, n: nat)
    requires
        start >= 1,
    ensures
        count_after(start, clone_steps(n)) == start + n,
    decreases n,
{
    if n > 0 {
        lemma_count_after_clones(start, (n - 1) as nat);
        assert(clone_steps(n).drop_last() =~= clone_steps((n - 1) as nat));
    }
}

proof fn lemma_count_after_drops(start: nat, head: Seq<Operation>, k: nat)
    requires
        k <= count_after(start, head),
    ensures
        count_after(start, head + drop_steps(k)) == count_after(start, head) - k,
    decreases k,
{
    if k == 0 {
        assert(head + drop_steps(0) =~= head);
    } else {
        lemma_count_after_drops(start, head, (k - 1) as nat);
        assert((head + drop_steps(k)).drop_last() =~= head + drop_steps((k - 1) as nat));
    }
}

/// A smart pointer that wraps a handle counted `start`, is cloned `n` times,
/// and is dropped together with all its clones, leaves the handle with the
/// references that the others hold, `start - 1`: none leaks. Until the last
/// of these drops the count stays above zero: nothing is freed early.
pub proof fn lemma_clones_then_drops(start: nat, n: nat)
    requires
        start >= 1,
    ensures
        count_after(start, clone_steps(n) + drop_steps(n + 1)) == start - 1,
        forall|k: nat|
            k <= n ==> #[trigger] count_after(start, clone_steps(n) + drop_steps(k)) >= start,
{
    lemma_count_after_clones(start, n);
    lemma_count_after_drops(start, clone_steps(n), n + 1);
    assert forall|k: nat| k <= n implies #[trigger] count_after(
        start,
        clone_steps(n) + drop_steps(k),
    ) >= start by {
        lemma_count_after_drops(start, clone_steps(n), k);
    }
}

/// The one owner of one reference on a foreign handle. The count itself
/// lives in the handle: the pointer only decides when the foreign side is
/// asked to raise or lower it.
pub struct RefCountedPtr {
    raw: usize,
}

impl RefCountedPtr {
    #[verifier::type_invariant]
    spec fn inv(self) -> bool {
        self.raw != 0
    }

    /// The address of the handle.
    pub closed spec fn addr(&self) -> usize {
        self.raw
    }

    /// Takes over one reference on the handle at `raw`, without raising the
    /// count. A null address gives no pointer.
    pub fn wrap(raw: usize) -> (p: Option<Self>)
        ensures
            raw == 0 ==> p is None,
            raw != 0 ==> (p matches Some(q) && q.addr() == raw),
    {
        if raw == 0 {
            None
        } else {
            Some(RefCountedPtr { raw })
        }
    }

    /// The address, for a foreign call that borrows the handle.
    pub fn as_raw(&self) -> (raw: usize)
        ensures
            raw == self.addr(),
            raw != 0,
    {
        proof {
            use_type_invariant(self);
        }
        self.raw
    }

    /// Gives the address and the reference away: no call lowers the count.
    pub fn into_raw(self) -> (raw: usize)
        ensures
            raw == self.addr(),
            raw != 0,
    {
        proof {
            use_type_invariant(&self);
        }
        self.raw
    }

    /// The call that a clone or a drop of a pointer to `addr` makes.
    pub open spec fn count_call(op: Operation, addr: usize) -> CallView {
        CallView { op, receiver: addr, args: ArgsView::Empty }
    }

    /// What a clone decides for each answer to its `AddRef`: an unset entry
    /// is reported and gives no second owner; any other answer gives one.
    pub open spec fn spec_cloned(r: Option<Reply>) -> Result<(), BridgeError> {
        match r {
            None => Err(BridgeError::MissingOperation(Operation::AddRef)),
            Some(_) => Ok(()),
        }
    }

    /// Asks the foreign side for one more reference, once, and gives the
    /// pointer that owns it, on the same handle. Nothing else is asked.
    pub fn clone_ref<F: Fn(Call) -> Option<Reply>>(&self, foreign: &mut Foreign<F>) -> (res:
        Result<Self, BridgeError>)
        ensures
            exists|r: Option<Reply>| #[trigger]
                asked_once(
                    *old(foreign),
                    *final(foreign),
                    Self::count_call(Operation::AddRef, self.addr()),
                    r,
                ) && match Self::spec_cloned(r) {
                    Err(e) => res == Err::<Self, BridgeError>(e),
                    Ok(_) => res matches Ok(p) && p.addr() == self.addr(),
                },
    {
        proof {
            use_type_invariant(self);
        }
        match invoke(foreign, Operation::AddRef, self.raw, Args::Empty) {
            None => Err(BridgeError::MissingOperation(Operation::AddRef)),
            Some(_) => Ok(RefCountedPtr { raw: self.raw }),
        }
    }

    /// What a drop of a pointer to `addr` asks: one `Release`, answered `r`.
    pub open spec fn released(addr: usize, r: Option<Reply>) -> Seq<Entry> {
        seq![(Self::count_call(Operation::Release, addr), r)]
    }

    /// Gives the pointer's reference back to the foreign side, once, and
    /// says whether the foreign side reported it as the last one. An unset
    /// entry, or an answer of another shape, is reported. Nothing else is
    /// asked.
    pub fn release<F: Fn(Call) -> Option<Reply>>(self, foreign: &mut Foreign<F>) -> (res: Result<
        bool,
        BridgeError,
    >)
        ensures
            exists|r: Option<Reply>| #[trigger]
                asked_once(
                    *old(foreign),
                    *final(foreign),
                    Self::count_call(Operation::Release, self.addr()),
                    r,
                ) && res == spec_flag_of(Operation::Release, r),
    {
        let reply = invoke(foreign, Operation::Release, self.raw, Args::Empty);
        flag_of(Operation::Release, reply)
    }
}

/// The reference-count calls on the handle at `addr` that are among
/// `entries`, in order.
pub open spec fn count_steps(entries: Seq<Entry>, addr: usize) -> Seq<Operation>
    decreases entries.len(),
{
    if entries.len() == 0 {
        Seq::empty()
    } else {
        let rest = count_steps(entries.drop_last(), addr);
        let call = entries.last().0;
        if call.receiver == addr && (call.op == Operation::AddRef || call.op
            == Operation::Release) {
            rest.push(call.op)
        } else {
            rest
        }
    }
}

/// What the clones of a pointer to `addr` ask, one after the other, where the
/// foreign side answers `answers`.
pub open spec fn clone_entries(addr: usize, answers: Seq<Option<Reply>>) -> Seq<Entry> {
    Seq::new(
        answers.len(),
        |i: int| (RefCountedPtr::count_call(Operation::AddRef, addr), answers[i]),
    )
}

/// What the drops of pointers to `addr` ask, one after the other, where the
/// foreign side answers `answers`.
pub open spec fn drop_entries(addr: usize, answers: Seq<Option<Reply>>) -> Seq<Entry> {
    Seq::new(
        answers.len(),
        |i: int| (RefCountedPtr::count_call(Operation::Release, addr), answers[i]),
    )
}

proof fn lemma_count_steps_of_clones(addr: usize, answers: Seq<Option<Reply>>)
    ensures
        count_steps(clone_entries(addr, answers), addr) =~= clone_steps(answers.len()),
    decreases answers.len(),
{
    if answers.len() > 0 {
        lemma_count_steps_of_clones(addr, answers.drop_last());
        assert(clone_entries(addr, answers).drop_last() =~= clone_entries(
            addr,
            answers.drop_last(),
        ));
    }
}

proof fn lemma_count_steps_of_drops(
    addr: usize,
    head: Seq<Entry>,
    answers: Seq<Option<Reply>>,
)
    ensures
        count_steps(head + drop_entries(addr, answers), addr) =~= count_steps(head, addr)
            + drop_steps(answers.len()),
    decreases answers.len(),
{
    if answers.len() == 0 {
        assert(head + drop_entries(addr, answers) =~= head);
    } else {
        lemma_count_steps_of_drops(addr, head, answers.drop_last());
        assert((head + drop_entries(addr, answers)).drop_last() =~= head + drop_entries(
            addr,
            answers.drop_last(),
        ));
    }
}

/// The count of a foreign handle is fixed by what the smart pointers ask:
/// where the record of the foreign side shows the calls of `n` clones and of
/// `n + 1` drops of pointers to one handle counted `start`, whatever the
/// answers were, the handle is left with `start - 1` references, those that
/// the others hold.
pub proof fn lemma_foreign_count_after_clones_and_drops(
    start: nat,
    addr: usize,
    clones: Seq<Option<Reply>>,
    drops: Seq<Option<Reply>>,
)
    requires
        start >= 1,
        drops.len() == clones.len() + 1,
    ensures
        count_after(
            start,
            count_steps(clone_entries(addr, clones) + drop_entries(addr, drops), addr),
        ) == start - 1,
{
    lemma_count_steps_of_clones(addr, clones);
    lemma_count_steps_of_drops(addr, clone_entries(addr, clones), drops);
    lemma_clones_then_drops(start, clones.len());
}

/// Calls that are neither `AddRef` nor `Release` leave every count alone.
pub proof fn lemma_no_count_steps(entries: Seq<Entry>, addr: usize)
    requires
        forall|i: int|
            0 <= i < entries.len() ==> (#[trigger] entries[i]).0.op != Operation::AddRef
                && entries[i].0.op != Operation::Release,
    ensures
        count_steps(entries, addr) =~= Seq::<Operation>::empty(),
    decreases entries.len(),
{
    if entries.len() > 0 {
        lemma_no_count_steps(entries.drop_last(), addr);
    }
}

/// A handle made on the native side: the operation table that the foreign
/// side reads, the reference-count header, and the native object that the
/// table's entries lead back to. The native object lives exactly as long as
/// the count is above zero.
pub struct Wrapped<T, W> {
    table: T,
    /// The references held beyond the first, while the handle lives.
    extra: usize,
    wrappable: Option<W>,
}

impl<T, W> Wrapped<T, W> {
    /// The number of references held on this handle; zero once it is gone.
    pub closed spec fn count(&self) -> nat {
        match self.wrappable {
            Some(_) => (self.extra + 1) as nat,
            None => 0,
        }
    }

    /// The operation table.
    pub closed spec fn table(&self) -> T {
        self.table
    }

    /// The native object, as long as the handle lives.
    pub closed spec fn native(&self) -> Option<W> {
        self.wrappable
    }

    /// The handle record made for `wrappable`: one reference.
    pub closed spec fn made(table: T, wrappable: W) -> Self {
        Wrapped { table, extra: 0, wrappable: Some(wrappable) }
    }

    /// The record after one more reference was taken.
    pub closed spec fn after_add_ref(self) -> Self {
        if self.wrappable is Some && self.extra < usize::MAX {
            Wrapped { table: self.table, extra: (self.extra + 1) as usize, wrappable: self.wrappable }
        } else {
            self
        }
    }

    /// The record after one reference was given back.
    pub closed spec fn after_release(self) -> Self {
        if self.wrappable is None {
            self
        } else if self.extra == 0 {
            Wrapped { table: self.table, extra: 0, wrappable: None }
        } else {
            Wrapped { table: self.table, extra: (self.extra - 1) as usize, wrappable: self.wrappable }
        }
    }

    /// The record after the reference-count calls `steps`, in order.
    pub open spec fn after(self, steps: Seq<Operation>) -> Self
        decreases steps.len(),
    {
        if steps.len() == 0 {
            self
        } else {
            let before = self.after(steps.drop_last());
            match steps.last() {
                Operation::AddRef => before.after_add_ref(),
                Operation::Release => before.after_release(),
                _ => before,
            }
        }
    }

    /// What a new record holds.
    pub proof fn lemma_made(table: T, wrappable: W)
        ensures
            Self::made(table, wrappable).count() == 1,
            Self::made(table, wrappable).table() == table,
            Self::made(table, wrappable).native() == Some(wrappable),
    {
    }

    /// What one reference-count call changes on a record, and that the
    /// native object is there exactly while the count is above zero.
    pub proof fn lemma_step(self)
        ensures
            self.after_add_ref().count() == if self.count() <= usize::MAX {
                spec_add_ref(self.count())
            } else {
                self.count()
            },
            self.after_add_ref().table() == self.table(),
            self.after_add_ref().native() == self.native(),
            self.after_release().count() == spec_release(self.count()),
            self.after_release().table() == self.table(),
            self.after_release().native() == if self.count() > 1 {
                self.native()
            } else {
                None
            },
            self.native() is Some <==> self.count() > 0,
    {
    }

    /// The header counts as the counting rules say: as long as the count
    /// fits the header, the record's count after `steps` is `count_after`.
    pub proof fn lemma_header_counts(self, steps: Seq<Operation>)
        requires
            self.count() + steps.len() <= usize::MAX,
        ensures
            self.after(steps).count() == count_after(self.count(), steps),
            count_after(self.count(), steps) <= self.count() + steps.len(),
        decreases steps.len(),
    {
        if steps.len() > 0 {
            self.lemma_header_counts(steps.drop_last());
            self.after(steps.drop_last()).lemma_step();
        }
    }

    /// The way back from a handle to its native object is an identity: as
    /// long as one reference is held on a record, whatever references were
    /// taken and given back since it was made, the record holds the very
    /// object that it was made for, and its table.
    pub proof fn lemma_recovers_what_was_wrapped(table: T, wrappable: W, steps: Seq<Operation>)
        requires
            Self::made(table, wrappable).after(steps).count() >= 1,
        ensures
            Self::made(table, wrappable).after(steps).native() == Some(wrappable),
            Self::made(table, wrappable).after(steps).table() == table,
        decreases steps.len(),
    {
        let start = Self::made(table, wrappable);
        if steps.len() > 0 {
            let before = start.after(steps.drop_last());
            before.lemma_step();
            Self::lemma_recovers_what_was_wrapped(table, wrappable, steps.drop_last());
        } else {
            Self::lemma_made(table, wrappable);
        }
    }

    /// A call from the foreign side left the record in place: its count and
    /// table are as before, and it holds a native object exactly if it held
    /// one before.
    pub open spec fn kept(before: Self, after: Self) -> bool {
        &&& after.count() == before.count()
        &&& after.table() == before.table()
        &&& after.native() is Some <==> before.native() is Some
    }

    /// However many calls the foreign side makes through a record, each of
    /// which leaves it in place, the record stays in place: the way back to
    /// the native object is there for every one of them.
    pub proof fn lemma_kept_through_calls(states: Seq<Self>)
        requires
            states.len() >= 1,
            forall|i: int|
                0 <= i < states.len() - 1 ==> Self::kept(#[trigger] states[i], states[i + 1]),
        ensures
            forall|i: int| 0 <= i < states.len() ==> Self::kept(states[0], #[trigger] states[i]),
        decreases states.len(),
    {
        if states.len() > 1 {
            Self::lemma_kept_through_calls(states.drop_last());
            assert forall|i: int| 0 <= i < states.len() implies Self::kept(
                states[0],
                #[trigger] states[i],
            ) by {
                if i < states.len() - 1 {
                    assert(states.drop_last()[i] == states[i]);
                } else {
                    assert(states.drop_last()[i - 1] == states[i - 1]);
                    assert(Self::kept(states[i - 1], states[i]));
                }
            }
        }
    }

    /// `states` is a life of a record that holds its native object: one
    /// state after the other, where step `i` is, for `calls[i]`, a call from
    /// the foreign side that leaves the record in place and takes the native
    /// object where `promise` allows, and else a reference-count call that
    /// leaves a reference held.
    pub open spec fn lived(
        states: Seq<Self>,
        calls: Seq<bool>,
        promise: spec_fn(W, W) -> bool,
    ) -> bool {
        &&& states.len() == calls.len() + 1
        &&& states[0].native() is Some
        &&& forall|i: int|
            0 <= i < calls.len() ==> if #[trigger] calls[i] {
                Self::kept(states[i], states[i + 1]) && (states[i].native() is Some ==> promise(
                    states[i].native()->0,
                    states[i + 1].native()->0,
                ))
            } else {
                (states[i + 1] == states[i].after_add_ref() || states[i + 1]
                    == states[i].after_release()) && states[i + 1].count() >= 1
            }
    }

    /// `to` is what `promise` allows of `from` after one run for each call
    /// among `calls`: the changes of each run are what the next one starts
    /// from, and reference-count calls change nothing.
    pub open spec fn promised(
        promise: spec_fn(W, W) -> bool,
        from: W,
        to: W,
        calls: Seq<bool>,
    ) -> bool
        decreases calls.len(),
    {
        if calls.len() == 0 {
            to == from
        } else if calls.last() {
            exists|mid: W| #[trigger]
                Self::promised(promise, from, mid, calls.drop_last()) && promise(mid, to)
        } else {
            Self::promised(promise, from, to, calls.drop_last())
        }
    }

    /// Every call recovers the same native object, and what one call did to
    /// it is what the next call finds: through any number of calls from the
    /// foreign side, with references taken and given back in between, the
    /// record holds its native object, changed by exactly one run for each
    /// call.
    pub proof fn lemma_object_persists(
        states: Seq<Self>,
        calls: Seq<bool>,
        promise: spec_fn(W, W) -> bool,
    )
        requires
            Self::lived(states, calls, promise),
        ensures
            states.last().native() is Some,
            Self::promised(promise, states[0].native()->0, states.last().native()->0, calls),
        decreases calls.len(),
    {
        if calls.len() > 0 {
            let earlier = states.drop_last();
            let before = calls.drop_last();
            assert(Self::lived(earlier, before, promise)) by {
                assert forall|i: int| 0 <= i < before.len() implies if #[trigger] before[i] {
                    Self::kept(earlier[i], earlier[i + 1]) && (earlier[i].native() is Some
                        ==> promise(earlier[i].native()->0, earlier[i + 1].native()->0))
                } else {
                    (earlier[i + 1] == earlier[i].after_add_ref() || earlier[i + 1]
                        == earlier[i].after_release()) && earlier[i + 1].count() >= 1
                } by {
                    assert(before[i] == calls[i]);
                }
            }
            Self::lemma_object_persists(earlier, before, promise);
            let last = calls.len() - 1;
            let from = states[0].native()->0;
            assert(earlier[0] == states[0]);
            assert(earlier.last() == states[last]);
            assert(states.last() == states[last + 1]);
            assert(calls[last] == calls.last());
            states[last].lemma_step();
            let mid = states[last].native()->0;
            assert(Self::promised(promise, from, mid, before));
            if calls.last() {
                assert(promise(mid, states.last().native()->0));
                assert(Self::promised(promise, from, states.last().native()->0, calls));
            } else {
                assert(states.last().native() == states[last].native());
                assert(Self::promised(promise, from, states.last().native()->0, calls));
            }
        } else {
            assert(states.last() == states[0]);
        }
    }

    /// Makes the handle for `wrappable`, held by one reference.
    pub fn new(table: T, wrappable: W) -> (h: Self)
        ensures
            h == Self::made(table, wrappable),
            h.count() == 1,
            h.table() == table,
            h.native() == Some(wrappable),
    {
        Wrapped { table, extra: 0, wrappable: Some(wrappable) }
    }

    /// The operation table that the foreign side reads.
    pub fn get_table(&self) -> (t: &T)
        ensures
            *t == self.table(),
    {
        &self.table
    }

    /// Recovers the native object from the handle: the object that the handle
    /// was made for, or nothing once the handle is gone.
    pub fn wrappable(&mut self) -> (w: Option<&mut W>)
        ensures
            old(self).native() is None ==> w is None && *final(self) == *old(self),
            old(self).native() matches Some(n) ==> (w matches Some(r) && *r == n
                && final(self).native() == Some(*final(r))
                && final(self).count() == old(self).count()
                && final(self).table() == old(self).table()),
    {
        match &mut self.wrappable {
            Some(w) => Some(w),
            None => None,
        }
    }

    /// Takes one more reference. A handle that is gone stays gone, and a
    /// count that the header cannot hold stays as it is.
    pub fn add_ref(&mut self)
        ensures
            *final(self) == old(self).after_add_ref(),
            final(self).count() == if old(self).count() <= usize::MAX {
                spec_add_ref(old(self).count())
            } else {
                old(self).count()
            },
            final(self).table() == old(self).table(),
            final(self).native() == old(self).native(),
    {
        if self.wrappable.is_some() && self.extra < usize::MAX {
            self.extra = self.extra + 1;
        }
    }

    /// Gives one reference back and says, as a foreign truth value, whether
    /// that was the last one. With the last reference the native object is
    /// destroyed.
    pub fn release(&mut self) -> (last: i32)
        ensures
            *final(self) == old(self).after_release(),
            final(self).count() == spec_release(old(self).count()),
            last == if old(self).count() == 1 { 1i32 } else { 0i32 },
            final(self).table() == old(self).table(),
            final(self).native() == if old(self).count() > 1 {
                old(self).native()
            } else {
                None
            },
    {
        if self.wrappable.is_none() {
            0
        } else if self.extra == 0 {
            self.wrappable = None;
            1
        } else {
            self.extra = self.extra - 1;
            0
        }
    }

    /// Says, as a foreign truth value, whether exactly one reference is held.
    pub fn has_one_ref(&self) -> (one: i32)
        ensures
            one == if self.count() == 1 { 1i32 } else { 0i32 },
    {
        if self.wrappable.is_some() && self.extra == 0 {
            1
        } else {
            0
        }
    }

    /// Says, as a foreign truth value, whether any reference is held.
    pub fn has_at_least_one_ref(&self) -> (any: i32)
        ensures
            any == if self.count() >= 1 { 1i32 } else { 0i32 },
    {
        if self.wrappable.is_some() {
            1
        } else {
            0
        }
    }
}

} // verus!
