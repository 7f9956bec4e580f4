use crate::handles::{Browser, DictionaryValue, Frame};
use crate::ref_counted::{RefCountedPtr, Wrapped};
use crate::v8_context::V8Context;
use vstd::prelude::*;

verus! {

/// What a native implementation of the render-process events provides. The
/// methods are called on the main thread of the render process. All handles
/// are lent for the time of the call.
pub trait RenderProcessHandlerCallbacks: Send + Sync + 'static {
    /// What `on_web_kit_initialized` promises: whether a run on `self` may
    /// leave `after`. An implementation that says nothing promises nothing.
    open spec fn web_kit_initialized(&self, after: &Self) -> bool {
        true
    }

    /// What `on_browser_created` promises for the browser at `browser` and
    /// the extra value at `extra_info`, if any.
    open spec fn browser_created(
        &self,
        browser: usize,
        extra_info: Option<usize>,
        after: &Self,
    ) -> bool {
        true
    }

    /// What `on_browser_destroyed` promises for the browser at `browser`.
    open spec fn browser_destroyed(&self, browser: usize, after: &Self) -> bool {
        true
    }

    /// What `on_context_created` promises for the handles at `browser` and
    /// `frame` and for the context, which it gets as `context` and leaves as
    /// `context_after`.
    open spec fn context_created(
        &self,
        browser: usize,
        frame: usize,
        context: V8Context,
        context_after: V8Context,
        after: &Self,
    ) -> bool {
        true
    }

    /// The rendering engine has been set up.
    fn on_web_kit_initialized(&mut self)
        ensures
            old(self).web_kit_initialized(final(self)),
    ;

    /// A browser has been made. `extra_info` is the read-only value that its
    /// maker passed along, if any.
    fn on_browser_created(&mut self, browser: &Browser, extra_info: Option<&DictionaryValue>)
        ensures
            old(self).browser_created(
                browser.addr(),
                match extra_info {
                    Some(d) => Some(d.addr()),
                    None => None,
                },
                final(self),
            ),
    ;

    /// A browser is about to be destroyed.
    fn on_browser_destroyed(&mut self, browser: &Browser)
        ensures
            old(self).browser_destroyed(browser.addr(), final(self)),
    ;

    /// The script context of a frame has just been made. Scopes that the
    /// method enters on `context` are to be left before it returns.
    fn on_context_created(&mut self, browser: &Browser, frame: &Frame, context: &mut V8Context)
        ensures
            old(self).context_created(
                browser.addr(),
                frame.addr(),
                *old(context),
                *final(context),
                final(self),
            ),
    ;
}

/// The operation table of a render-process handler: which entries lead to a
/// native trampoline. An unset entry tells the foreign side to take its own
/// default path.
#[derive(Clone, Copy, Debug, PartialEq, Eq, Structural)]
pub struct RenderProcessHandlerTable {
    pub on_web_kit_initialized: bool,
    pub on_browser_created: bool,
    pub on_browser_destroyed: bool,
    pub get_load_handler: bool,
    pub on_context_created: bool,
    pub on_context_released: bool,
    pub on_uncaught_exception: bool,
    pub on_focused_node_changed: bool,
    pub on_process_message_received: bool,
}

/// One event of the render process as the foreign side raises it, with the
/// addresses of the handles that it passes to an entry that is set.
#[derive(Clone, Copy, Debug, PartialEq, Eq, Structural)]
pub enum RenderProcessEvent {
    WebKitInitialized,
    BrowserCreated { browser: usize, extra_info: usize },
    BrowserDestroyed { browser: usize },
    GetLoadHandler,
    ContextCreated { browser: usize, frame: usize, context: usize },
    ContextReleased,
    UncaughtException,
    FocusedNodeChanged,
    ProcessMessageReceived,
}

/// Which way an event went.
#[derive(Clone, Copy, Debug, PartialEq, Eq, Structural)]
pub enum Dispatch {
    /// The entry is unset: the foreign side's default path, nothing native
    /// ran.
    Default,
    /// The entry is set: its trampoline ran. `left_open` is the number of
    /// scopes that the native method entered on a lent context and did not
    /// leave.
    Native { left_open: usize },
    /// The entry is set, but the adapter has no trampoline for the event:
    /// nothing ran. `wrap` makes no such table.
    Unbound,
}

/// Whether the table's entry for `event` is set.
pub open spec fn spec_entry_set(table: RenderProcessHandlerTable, event: RenderProcessEvent) -> bool {
    match event {
        RenderProcessEvent::WebKitInitialized => table.on_web_kit_initialized,
        RenderProcessEvent::BrowserCreated { .. } => table.on_browser_created,
        RenderProcessEvent::BrowserDestroyed { .. } => table.on_browser_destroyed,
        RenderProcessEvent::GetLoadHandler => table.get_load_handler,
        RenderProcessEvent::ContextCreated { .. } => table.on_context_created,
        RenderProcessEvent::ContextReleased => table.on_context_released,
        RenderProcessEvent::UncaughtException => table.on_uncaught_exception,
        RenderProcessEvent::FocusedNodeChanged => table.on_focused_node_changed,
        RenderProcessEvent::ProcessMessageReceived => table.on_process_message_received,
    }
}

/// Looks up the table's entry for `event`.
pub fn entry_set(table: &RenderProcessHandlerTable, event: &RenderProcessEvent) -> (set: bool)
    ensures
        set == spec_entry_set(*table, *event),
{
    match event {
        RenderProcessEvent::WebKitInitialized => table.on_web_kit_initialized,
        RenderProcessEvent::BrowserCreated { .. } => table.on_browser_created,
        RenderProcessEvent::BrowserDestroyed { .. } => table.on_browser_destroyed,
        RenderProcessEvent::GetLoadHandler => table.get_load_handler,
        RenderProcessEvent::ContextCreated { .. } => table.on_context_created,
        RenderProcessEvent::ContextReleased => table.on_context_released,
        RenderProcessEvent::UncaughtException => table.on_uncaught_exception,
        RenderProcessEvent::FocusedNodeChanged => table.on_focused_node_changed,
        RenderProcessEvent::ProcessMessageReceived => table.on_process_message_received,
    }
}

/// The table that `wrap` makes: the entry of each event that the native
/// side has a method for is set, all others are left to the foreign side.
pub open spec fn spec_wrapped_table() -> RenderProcessHandlerTable {
    RenderProcessHandlerTable {
        on_web_kit_initialized: true,
        on_browser_created: true,
        on_browser_destroyed: true,
        get_load_handler: false,
        on_context_created: true,
        on_context_released: false,
        on_uncaught_exception: false,
        on_focused_node_changed: false,
        on_process_message_received: false,
    }
}

/// The adapter between the foreign render-process table and one native
/// implementation, which it owns in a box.
pub struct RenderProcessHandlerWrapper<C: RenderProcessHandlerCallbacks>(Box<C>);

impl<C: RenderProcessHandlerCallbacks> RenderProcessHandlerWrapper<C> {
    /// The native implementation that the adapter owns.
    pub closed spec fn delegate(&self) -> C {
        *self.0
    }

    /// Boxes `delegate`.
    pub fn new(delegate: C) -> (w: Self)
        ensures
            w.delegate() == delegate,
    {
        RenderProcessHandlerWrapper(Box::new(delegate))
    }

    /// The handle record that `wrap` makes of the adapter `w`.
    pub open spec fn is_wrap_of(record: Wrapped<RenderProcessHandlerTable, Self>, w: Self) -> bool {
        &&& record.count() == 1
        &&& record.table() == spec_wrapped_table()
        &&& record.native() == Some(w)
    }

    /// Makes the handle record of this adapter: the table with one
    /// trampoline for each event that the adapter passes on, one reference,
    /// and the adapter itself as the native object.
    pub fn wrap(self) -> (record: Wrapped<RenderProcessHandlerTable, Self>)
        ensures
            record == Wrapped::made(spec_wrapped_table(), self),
            Self::is_wrap_of(record, self),
    {
        Wrapped::new(
            RenderProcessHandlerTable {
                on_web_kit_initialized: true,
                on_browser_created: true,
                on_browser_destroyed: true,
                get_load_handler: false,
                on_context_created: true,
                on_context_released: false,
                on_uncaught_exception: false,
                on_focused_node_changed: false,
                on_process_message_received: false,
            },
            self,
        )
    }

    /// What the trampoline behind `on_web_kit_initialized` does to a record:
    /// on a record that is gone, nothing; else the native method runs once
    /// on the object that the record was made for.
    pub open spec fn initialized_ran(
        before: Wrapped<RenderProcessHandlerTable, Self>,
        after: Wrapped<RenderProcessHandlerTable, Self>,
    ) -> bool {
        &&& Wrapped::kept(before, after)
        &&& before.native() is None ==> after == before
        &&& before.native() is Some ==> after.native() is Some
            && before.native()->0.delegate().web_kit_initialized(&after.native()->0.delegate())
    }

    /// The extra value of `on_browser_created` as the native method gets it:
    /// none for a null address.
    pub open spec fn spec_extra_info(extra_info: usize) -> Option<usize> {
        if extra_info == 0 {
            None
        } else {
            Some(extra_info)
        }
    }

    /// What the trampoline behind `on_browser_created` does to a record:
    /// with a null browser or on a record that is gone, nothing; else the
    /// native method runs once on the object that the record was made for,
    /// with the handles as they came.
    pub open spec fn browser_created_ran(
        before: Wrapped<RenderProcessHandlerTable, Self>,
        after: Wrapped<RenderProcessHandlerTable, Self>,
        browser: usize,
        extra_info: usize,
    ) -> bool {
        &&& Wrapped::kept(before, after)
        &&& (browser == 0 || before.native() is None) ==> after == before
        &&& (browser != 0 && before.native() is Some) ==> after.native() is Some
            && before.native()->0.delegate().browser_created(
            browser,
            Self::spec_extra_info(extra_info),
            &after.native()->0.delegate(),
        )
    }

    /// What the trampoline behind `on_browser_destroyed` does to a record:
    /// with a null browser or on a record that is gone, nothing; else the
    /// native method runs once on the object that the record was made for,
    /// with the browser as it came.
    pub open spec fn browser_destroyed_ran(
        before: Wrapped<RenderProcessHandlerTable, Self>,
        after: Wrapped<RenderProcessHandlerTable, Self>,
        browser: usize,
    ) -> bool {
        &&& Wrapped::kept(before, after)
        &&& (browser == 0 || before.native() is None) ==> after == before
        &&& (browser != 0 && before.native() is Some) ==> after.native() is Some
            && before.native()->0.delegate().browser_destroyed(
            browser,
            &after.native()->0.delegate(),
        )
    }

    /// What the trampoline behind `on_context_created` does to a record, and
    /// what it returns: with a null handle or on a record that is gone,
    /// nothing and zero; else the native method runs once on the object that
    /// the record was made for, with the handles as they came and a context
    /// that has no open scope, and the result is the number of scopes that
    /// the method left open on it.
    pub open spec fn context_created_ran(
        before: Wrapped<RenderProcessHandlerTable, Self>,
        after: Wrapped<RenderProcessHandlerTable, Self>,
        browser: usize,
        frame: usize,
        context: usize,
        left_open: usize,
    ) -> bool {
        &&& Wrapped::kept(before, after)
        &&& (browser == 0 || frame == 0 || context == 0 || before.native() is None) ==> left_open
            == 0 && after == before
        &&& (browser != 0 && frame != 0 && context != 0 && before.native() is Some)
            ==> after.native() is Some && exists|lent: V8Context, back: V8Context|
            {
                &&& lent.addr() == context
                &&& lent.depth() == 0
                &&& #[trigger] before.native()->0.delegate().context_created(
                    browser,
                    frame,
                    lent,
                    back,
                    &after.native()->0.delegate(),
                )
                &&& left_open == back.depth()
            }
    }

    /// The trampoline behind `on_web_kit_initialized`. With a record whose
    /// last reference is gone nothing native runs. Else the native method
    /// runs once, on the object that the record was made for.
    pub fn on_web_kit_initialized(this: &mut Wrapped<RenderProcessHandlerTable, Self>)
        ensures
            Self::initialized_ran(*old(this), *final(this)),
    {
        match this.wrappable() {
            None => {},
            Some(w) => {
                w.0.on_web_kit_initialized();
            },
        }
    }

    /// The trampoline behind `on_browser_created`. The browser, and the
    /// extra value where its address is not null, are lent to the native
    /// method. With a null browser, or a record whose last reference is
    /// gone, nothing native runs. Else the native method runs once, on the
    /// object that the record was made for, with the handles as they came.
    pub fn c_on_browser_created(
        this: &mut Wrapped<RenderProcessHandlerTable, Self>,
        browser: usize,
        extra_info: usize,
    )
        ensures
            Self::browser_created_ran(*old(this), *final(this), browser, extra_info),
    {
        let browser = match Browser::from_ptr(browser) {
            None => {
                return ;
            },
            Some(b) => b,
        };
        let extra_info = DictionaryValue::from_ptr(extra_info);
        match this.wrappable() {
            None => {},
            Some(w) => {
                w.0.on_browser_created(&browser, extra_info.as_ref());
            },
        }
        let _ = browser.into_ptr().into_raw();
        match extra_info {
            Some(d) => {
                let _ = d.into_ptr().into_raw();
            },
            None => {},
        }
    }

    /// The trampoline behind `on_browser_destroyed`. The browser is lent to
    /// the native method. With a null browser, or a record whose last
    /// reference is gone, nothing native runs. Else the native method runs
    /// once, on the object that the record was made for, with the browser as
    /// it came.
    pub fn c_on_browser_destroyed(
        this: &mut Wrapped<RenderProcessHandlerTable, Self>,
        browser: usize,
    )
        ensures
            Self::browser_destroyed_ran(*old(this), *final(this), browser),
    {
        let browser = match Browser::from_ptr(browser) {
            None => {
                return ;
            },
            Some(b) => b,
        };
        match this.wrappable() {
            None => {},
            Some(w) => {
                w.0.on_browser_destroyed(&browser);
            },
        }
        let _ = browser.into_ptr().into_raw();
    }

    /// The trampoline behind `on_context_created`. The three handles are
    /// lent to the native method; the context comes with no open scope. The
    /// result is the number of scopes that the method entered on the context
    /// and did not leave. With a null handle, or a record whose last
    /// reference is gone, nothing native runs. Else the native method runs
    /// once, on the object that the record was made for, with the handles as
    /// they came.
    pub fn on_context_created(
        this: &mut Wrapped<RenderProcessHandlerTable, Self>,
        browser: usize,
        frame: usize,
        context: usize,
    ) -> (left_open: usize)
        ensures
            Self::context_created_ran(*old(this), *final(this), browser, frame, context, left_open),
    {
        if browser == 0 || frame == 0 || context == 0 {
            return 0;
        }
        let browser = match Browser::from_ptr(browser) {
            None => {
                return 0;
            },
            Some(b) => b,
        };
        let frame = match Frame::from_ptr(frame) {
            None => {
                return 0;
            },
            Some(f) => f,
        };
        let mut context = match V8Context::from_ptr(context) {
            None => {
                return 0;
            },
            Some(c) => c,
        };
        let ghost before = this.native();
        let ghost lent = context;
        match this.wrappable() {
            None => {},
            Some(w) => {
                w.0.on_context_created(&browser, &frame, &mut context);
            },
        }
        assert(before is Some ==> before->0.delegate().context_created(
            browser.addr(),
            frame.addr(),
            lent,
            context,
            &this.native()->0.delegate(),
        ));
        let left_open: usize = context.open_scopes();
        let _ = browser.into_ptr().into_raw();
        let _ = frame.into_ptr().into_raw();
        let _ = context.into_ptr().into_raw();
        left_open
    }

    /// What raising `event` does to a record whose table is `before.table()`,
    /// and which way it goes. An entry that is unset is never called: the
    /// event takes the default path and the record stays as it is. An entry
    /// that is set leads to its trampoline; where the adapter has none for
    /// the event, nothing runs.
    pub open spec fn dispatched(
        before: Wrapped<RenderProcessHandlerTable, Self>,
        after: Wrapped<RenderProcessHandlerTable, Self>,
        event: RenderProcessEvent,
        d: Dispatch,
    ) -> bool {
        if !spec_entry_set(before.table(), event) {
            d == Dispatch::Default && after == before
        } else {
            match event {
                RenderProcessEvent::WebKitInitialized => d == (Dispatch::Native { left_open: 0 })
                    && Self::initialized_ran(before, after),
                RenderProcessEvent::BrowserCreated { browser, extra_info } => d == (
                Dispatch::Native { left_open: 0 }) && Self::browser_created_ran(
                    before,
                    after,
                    browser,
                    extra_info,
                ),
                RenderProcessEvent::BrowserDestroyed { browser } => d == (
                Dispatch::Native { left_open: 0 }) && Self::browser_destroyed_ran(
                    before,
                    after,
                    browser,
                ),
                RenderProcessEvent::ContextCreated { browser, frame, context } => d is Native
                    && Self::context_created_ran(
                    before,
                    after,
                    browser,
                    frame,
                    context,
                    d->left_open,
                ),
                _ => d == Dispatch::Unbound && after == before,
            }
        }
    }

    /// Raises `event` on the handle record as the foreign side does: an
    /// entry that is unset is never called, and the event takes the default
    /// path; an entry that is set leads to its trampoline.
    pub fn dispatch(this: &mut Wrapped<RenderProcessHandlerTable, Self>, event: RenderProcessEvent) -> (d:
        Dispatch)
        ensures
            Self::dispatched(*old(this), *final(this), event, d),
    {
        if !entry_set(this.get_table(), &event) {
            return Dispatch::Default;
        }
        match event {
            RenderProcessEvent::WebKitInitialized => {
                Self::on_web_kit_initialized(this);
                Dispatch::Native { left_open: 0 }
            },
            RenderProcessEvent::BrowserCreated { browser, extra_info } => {
                Self::c_on_browser_created(this, browser, extra_info);
                Dispatch::Native { left_open: 0 }
            },
            RenderProcessEvent::BrowserDestroyed { browser } => {
                Self::c_on_browser_destroyed(this, browser);
                Dispatch::Native { left_open: 0 }
            },
            RenderProcessEvent::ContextCreated { browser, frame, context } => {
                let left_open: usize = Self::on_context_created(this, browser, frame, context);
                Dispatch::Native { left_open }
            },
            _ => Dispatch::Unbound,
        }
    }
}

/// The table that `wrap` makes has an entry set exactly for the events that
/// the native side has a method for.
pub proof fn lemma_wrapped_entries(event: RenderProcessEvent)
    ensures
        spec_entry_set(spec_wrapped_table(), event) <==> (event is WebKitInitialized
            || event is BrowserCreated || event is BrowserDestroyed || event is ContextCreated),
{
}

/// An entry that was left unset is never called: on a handle record with the
/// table that `wrap` makes, raising an event that the native side has no
/// method for takes the default path and leaves the record, and with it the
/// native object, as it was.
pub proof fn lemma_unset_entries_are_never_called<C: RenderProcessHandlerCallbacks>(
    before: Wrapped<RenderProcessHandlerTable, RenderProcessHandlerWrapper<C>>,
    after: Wrapped<RenderProcessHandlerTable, RenderProcessHandlerWrapper<C>>,
    event: RenderProcessEvent,
    d: Dispatch,
)
    requires
        before.table() == spec_wrapped_table(),
        !(event is WebKitInitialized || event is BrowserCreated || event is BrowserDestroyed
            || event is ContextCreated),
        RenderProcessHandlerWrapper::dispatched(before, after, event, d),
    ensures
        d == Dispatch::Default,
        after == before,
{
}

/// An entry that is set always leads to the native side: on a handle record
/// with the table that `wrap` makes, raising an event that the native side
/// has a method for never takes the default path.
pub proof fn lemma_set_entries_reach_native_code<C: RenderProcessHandlerCallbacks>(
    before: Wrapped<RenderProcessHandlerTable, RenderProcessHandlerWrapper<C>>,
    after: Wrapped<RenderProcessHandlerTable, RenderProcessHandlerWrapper<C>>,
    event: RenderProcessEvent,
    d: Dispatch,
)
    requires
        before.table() == spec_wrapped_table(),
        event is WebKitInitialized || event is BrowserCreated || event is BrowserDestroyed
            || event is ContextCreated,
        RenderProcessHandlerWrapper::dispatched(before, after, event, d),
    ensures
        d is Native,
        Wrapped::kept(before, after),
{
}

/// The promise of `on_web_kit_initialized`, from one state of the adapter to
/// the next.
pub open spec fn initialized_promise<C: RenderProcessHandlerCallbacks>() -> spec_fn(
    RenderProcessHandlerWrapper<C>,
    RenderProcessHandlerWrapper<C>,
) -> bool {
    |a: RenderProcessHandlerWrapper<C>, b: RenderProcessHandlerWrapper<C>|
        a.delegate().web_kit_initialized(&b.delegate())
}

/// However often the foreign side raises `on_web_kit_initialized` on a
/// handle record, with references taken and given back in between, every
/// call reaches the same native object, and the object is left as one run of
/// the native method for each call leaves it.
pub proof fn lemma_initialized_every_time<C: RenderProcessHandlerCallbacks>(
    states: Seq<Wrapped<RenderProcessHandlerTable, RenderProcessHandlerWrapper<C>>>,
    calls: Seq<bool>,
)
    requires
        states.len() == calls.len() + 1,
        states[0].native() is Some,
        forall|i: int|
            0 <= i < calls.len() ==> if #[trigger] calls[i] {
                RenderProcessHandlerWrapper::initialized_ran(states[i], states[i + 1])
            } else {
                (states[i + 1] == states[i].after_add_ref() || states[i + 1]
                    == states[i].after_release()) && states[i + 1].count() >= 1
            },
    ensures
        states.last().native() is Some,
        Wrapped::<RenderProcessHandlerTable, RenderProcessHandlerWrapper<C>>::promised(
            initialized_promise::<C>(),
            states[0].native()->0,
            states.last().native()->0,
            calls,
        ),
{
    Wrapped::lemma_object_persists(states, calls, initialized_promise::<C>());
}

/// A render-process handler made on the native side, held by one reference.
pub struct RenderProcessHandler {
    ptr: RefCountedPtr,
}

impl RenderProcessHandler {
    /// The address of the handler's handle.
    pub closed spec fn addr(&self) -> usize {
        self.ptr.addr()
    }

    /// Wraps `delegate` into an adapter, makes its handle record and has
    /// `place` put the record where the foreign side can reach it. The
    /// result owns the record's one reference; a null address gives none.
    pub fn new<
        C: RenderProcessHandlerCallbacks,
        P: FnOnce(Wrapped<RenderProcessHandlerTable, RenderProcessHandlerWrapper<C>>) -> usize,
    >(delegate: C, place: P) -> (h: Option<Self>)
        requires
            forall|record: Wrapped<RenderProcessHandlerTable, RenderProcessHandlerWrapper<C>>|
                call_requires(place, (record,)),
        ensures
            exists|
                w: RenderProcessHandlerWrapper<C>,
                record: Wrapped<RenderProcessHandlerTable, RenderProcessHandlerWrapper<C>>,
                raw: usize,
            |
                w.delegate() == delegate && #[trigger] RenderProcessHandlerWrapper::is_wrap_of(
                    record,
                    w,
                ) && #[trigger] call_ensures(place, (record,), raw) && match h {
                    None => raw == 0,
                    Some(x) => raw != 0 && x.addr() == raw,
                },
    {
        let record = RenderProcessHandlerWrapper::new(delegate).wrap();
        let raw: usize = place(record);
        match RefCountedPtr::wrap(raw) {
            Some(ptr) => Some(RenderProcessHandler { ptr }),
            None => None,
        }
    }

    /// The address, for a call that borrows the handle.
    pub fn as_ptr(&self) -> (raw: usize)
        ensures
            raw == self.addr(),
            raw != 0,
    {
        self.ptr.as_raw()
    }

    /// The smart pointer that owns the reference.
    pub fn into_ptr(self) -> (ptr: RefCountedPtr)
        ensures
            ptr.addr() == self.addr(),
    {
        self.ptr
    }
}

} // verus!
