use crate::abi::{asked_once, Call, Foreign, Operation, Reply};
use crate::error::BridgeError;
use crate::ref_counted::RefCountedPtr;
use vstd::prelude::*;

verus! {

/// A browser of the foreign engine, held by one reference.
pub struct Browser {
    ptr: RefCountedPtr,
}

impl Browser {
    /// The address of the browser's handle.
    pub closed spec fn addr(&self) -> usize {
        self.ptr.addr()
    }

    /// Takes over the reference on the handle at `raw`; a null address gives
    /// no browser.
    pub fn from_ptr(raw: usize) -> (b: Option<Self>)
        ensures
            raw == 0 ==> b is None,
            raw != 0 ==> (b matches Some(x) && x.addr() == raw),
    {
        match RefCountedPtr::wrap(raw) {
            Some(ptr) => Some(Browser { ptr }),
            None => None,
        }
    }

    /// The address, for a call that borrows the handle.
    pub fn as_ptr(&self) -> (raw: usize)
        ensures
            raw == self.addr(),
            raw != 0,
    {
        self.ptr.as_raw()
    }

    /// Asks the foreign side for one more reference, once, and gives the
    /// browser that owns it, on the same handle. An unset entry is reported
    /// and gives no second owner.
    pub fn clone_ref<F: Fn(Call) -> Option<Reply>>(&self, foreign: &mut Foreign<F>) -> (res:
        Result<Self, BridgeError>)
        ensures
            exists|r: Option<Reply>| #[trigger]
                asked_once(
                    *old(foreign),
                    *final(foreign),
                    RefCountedPtr::count_call(Operation::AddRef, self.addr()),
                    r,
                ) && match RefCountedPtr::spec_cloned(r) {
                    Err(e) => res == Err::<Self, BridgeError>(e),
                    Ok(_) => res matches Ok(x) && x.addr() == self.addr(),
                },
    {
        assert(self.ptr.addr() == self.addr());
        match self.ptr.clone_ref(foreign) {
            Err(e) => Err(e),
            Ok(ptr) => Ok(Browser { ptr }),
        }
    }

    /// The smart pointer that owns the reference.
    pub fn into_ptr(self) -> (ptr: RefCountedPtr)
        ensures
            ptr.addr() == self.addr(),
    {
        self.ptr
    }
}

/// A frame of the foreign engine, held by one reference.
pub struct Frame {
    ptr: RefCountedPtr,
}

impl Frame {
    /// The address of the frame's handle.
    pub closed spec fn addr(&self) -> usize {
        self.ptr.addr()
    }

    /// Takes over the reference on the handle at `raw`; a null address gives
    /// no frame.
    pub fn from_ptr(raw: usize) -> (f: Option<Self>)
        ensures
            raw == 0 ==> f is None,
            raw != 0 ==> (f matches Some(x) && x.addr() == raw),
    {
        match RefCountedPtr::wrap(raw) {
            Some(ptr) => Some(Frame { ptr }),
            None => None,
        }
    }

    /// The address, for a call that borrows the handle.
    pub fn as_ptr(&self) -> (raw: usize)
        ensures
            raw == self.addr(),
            raw != 0,
    {
        self.ptr.as_raw()
    }

    /// Asks the foreign side for one more reference, once, and gives the
    /// frame that owns it, on the same handle. An unset entry is reported
    /// and gives no second owner.
    pub fn clone_ref<F: Fn(Call) -> Option<Reply>>(&self, foreign: &mut Foreign<F>) -> (res:
        Result<Self, BridgeError>)
        ensures
            exists|r: Option<Reply>| #[trigger]
                asked_once(
                    *old(foreign),
                    *final(foreign),
                    RefCountedPtr::count_call(Operation::AddRef, self.addr()),
                    r,
                ) && match RefCountedPtr::spec_cloned(r) {
                    Err(e) => res == Err::<Self, BridgeError>(e),
                    Ok(_) => res matches Ok(x) && x.addr() == self.addr(),
                },
    {
        assert(self.ptr.addr() == self.addr());
        match self.ptr.clone_ref(foreign) {
            Err(e) => Err(e),
            Ok(ptr) => Ok(Frame { ptr }),
        }
    }

    /// The smart pointer that owns the reference.
    pub fn into_ptr(self) -> (ptr: RefCountedPtr)
        ensures
            ptr.addr() == self.addr(),
    {
        self.ptr
    }
}

/// A read-only dictionary of the foreign engine, held by one reference.
pub struct DictionaryValue {
    ptr: RefCountedPtr,
}

impl DictionaryValue {
    /// The address of the dictionary's handle.
    pub closed spec fn addr(&self) -> usize {
        self.ptr.addr()
    }

    /// Takes over the reference on the handle at `raw`; a null address gives
    /// no dictionary.
    pub fn from_ptr(raw: usize) -> (d: Option<Self>)
        ensures
            raw == 0 ==> d is None,
            raw != 0 ==> (d matches Some(x) && x.addr() == raw),
    {
        match RefCountedPtr::wrap(raw) {
            Some(ptr) => Some(DictionaryValue { ptr }),
            None => None,
        }
    }

    /// The address, for a call that borrows the handle.
    pub fn as_ptr(&self) -> (raw: usize)
        ensures
            raw == self.addr(),
            raw != 0,
    {
        self.ptr.as_raw()
    }

    /// Asks the foreign side for one more reference, once, and gives the
    /// dictionary that owns it, on the same handle. An unset entry is reported
    /// and gives no second owner.
    pub fn clone_ref<F: Fn(Call) -> Option<Reply>>(&self, foreign: &mut Foreign<F>) -> (res:
        Result<Self, BridgeError>)
        ensures
            exists|r: Option<Reply>| #[trigger]
                asked_once(
                    *old(foreign),
                    *final(foreign),
                    RefCountedPtr::count_call(Operation::AddRef, self.addr()),
                    r,
                ) && match RefCountedPtr::spec_cloned(r) {
                    Err(e) => res == Err::<Self, BridgeError>(e),
                    Ok(_) => res matches Ok(x) && x.addr() == self.addr(),
                },
    {
        assert(self.ptr.addr() == self.addr());
        match self.ptr.clone_ref(foreign) {
            Err(e) => Err(e),
            Ok(ptr) => Ok(DictionaryValue { ptr }),
        }
    }

    /// The smart pointer that owns the reference.
    pub fn into_ptr(self) -> (ptr: RefCountedPtr)
        ensures
            ptr.addr() == self.addr(),
    {
        self.ptr
    }
}

} // verus!
