//! The query for the window that has the focus.
//!
//! The task opens a connection, takes the first root window, looks up the
//! atom of the active-window hint, reads the hint on the root window and
//! resolves the window that the hint names. Where a step fails (no
//! connection, no root, a window manager without the hint, a hint without a
//! window) the answer is the sentinel: the query never fails.

use vstd::prelude::*;
use crate::protocol::{Desktop, Hint, Reply, ReplyView, Request, ATOM_NONE, ATOM_WINDOW};
use crate::resolver::{
    is_record, lemma_resolver_finds_record, resolved, WindowResolver, WindowResolverView,
    RESOLVER_STEPS,
};
use crate::window::{WindowInfo, WindowInfoView};

verus! {

/// What the task asks for next.
#[derive(Clone, Copy, Debug, PartialEq, Eq, Structural)]
pub enum ActiveStage {
    /// A connection and the root windows.
    Connect,
    /// The atom of the active-window hint.
    Atom,
    /// The hint on the root window.
    Hint,
    /// What its resolver asks for; nothing when the resolver is done.
    Resolve,
}

/// The query for the window that has the focus, as far as it has come.
pub struct ActiveWindowTask {
    stage: ActiveStage,
    root: u32,
    atom: u32,
    resolver: WindowResolver,
}

/// What an `ActiveWindowTask` holds.
pub struct ActiveWindowTaskView {
    pub stage: ActiveStage,
    /// The root window, once it is known.
    pub root: u32,
    /// The atom of the hint, once it is known.
    pub atom: u32,
    /// The resolver of the window that the hint names; idle before the hint
    /// is read and where it names no window.
    pub resolver: WindowResolverView,
}

/// The window that has the focus on `desktop`.
pub open spec fn active_window(desktop: Desktop) -> WindowInfoView {
    match desktop(Request::Connect).first_root() {
        Some(root) => {
            let atom = desktop(Request::InternAtom { hint: Hint::ActiveWindow }).atom();
            if atom == ATOM_NONE {
                WindowInfoView::sentinel()
            } else {
                match desktop(
                    Request::GetProperty {
                        window: root,
                        property: atom,
                        kind: ATOM_WINDOW,
                        length: 1,
                    },
                ).first_word() {
                    Some(window) => resolved(desktop, window),
                    None => WindowInfoView::sentinel(),
                }
            }
        },
        None => WindowInfoView::sentinel(),
    }
}

impl ActiveWindowTaskView {
    /// The task before its first request.
    pub open spec fn initial() -> Self {
        ActiveWindowTaskView {
            stage: ActiveStage::Connect,
            root: 0,
            atom: ATOM_NONE,
            resolver: WindowResolverView::idle(),
        }
    }

    /// The task when it has found that no window is to be resolved.
    pub open spec fn give_up(self) -> Self {
        ActiveWindowTaskView {
            stage: ActiveStage::Resolve,
            resolver: WindowResolverView::idle(),
            ..self
        }
    }

    /// The request that the task needs performed; none when it is done.
    pub open spec fn request(self) -> Option<Request> {
        match self.stage {
            ActiveStage::Connect => Some(Request::Connect),
            ActiveStage::Atom => Some(Request::InternAtom { hint: Hint::ActiveWindow }),
            ActiveStage::Hint => Some(
                Request::GetProperty {
                    window: self.root,
                    property: self.atom,
                    kind: ATOM_WINDOW,
                    length: 1,
                },
            ),
            ActiveStage::Resolve => self.resolver.request(),
        }
    }

    /// The answer of the query, once the task is done.
    pub open spec fn result(self) -> Option<WindowInfoView> {
        if self.request() is None {
            Some(self.resolver.record)
        } else {
            None
        }
    }

    /// The task after the reply to its request.
    pub open spec fn advance(self, reply: ReplyView) -> Self {
        match self.stage {
            ActiveStage::Connect => match reply.first_root() {
                Some(root) => ActiveWindowTaskView { stage: ActiveStage::Atom, root, ..self },
                None => self.give_up(),
            },
            ActiveStage::Atom => if reply.atom() == ATOM_NONE {
                self.give_up()
            } else {
                ActiveWindowTaskView { stage: ActiveStage::Hint, atom: reply.atom(), ..self }
            },
            ActiveStage::Hint => match reply.first_word() {
                Some(window) => ActiveWindowTaskView {
                    stage: ActiveStage::Resolve,
                    resolver: WindowResolverView::start(window),
                    ..self
                },
                None => self.give_up(),
            },
            ActiveStage::Resolve => ActiveWindowTaskView {
                resolver: self.resolver.advance(reply),
                ..self
            },
        }
    }

    /// What holds of a task however it was driven.
    pub open spec fn sound(self) -> bool {
        self.resolver.sound()
    }

    /// The number of requests that the task makes from here on, at the most.
    pub open spec fn remaining(self) -> nat {
        match self.stage {
            ActiveStage::Connect => 11,
            ActiveStage::Atom => 10,
            ActiveStage::Hint => 9,
            ActiveStage::Resolve => self.resolver.remaining(),
        }
    }

    /// The task after its request, if it has one, has been answered by
    /// `desktop`.
    pub open spec fn step(self, desktop: Desktop) -> Self {
        match self.request() {
            Some(request) => self.advance(desktop(request)),
            None => self,
        }
    }

    /// The task after `count` steps against `desktop`.
    pub open spec fn run(self, desktop: Desktop, count: nat) -> Self
        decreases count,
    {
        if count == 0 {
            self
        } else {
            self.step(desktop).run(desktop, (count - 1) as nat)
        }
    }
}

/// The number of requests after which the task is done, at the latest.
pub const ACTIVE_WINDOW_STEPS: usize = 3 + RESOLVER_STEPS;

impl View for ActiveWindowTask {
    type V = ActiveWindowTaskView;

    closed spec fn view(&self) -> ActiveWindowTaskView {
        ActiveWindowTaskView {
            stage: self.stage,
            root: self.root,
            atom: self.atom,
            resolver: self.resolver@,
        }
    }
}

impl ActiveWindowTask {
    /// The task before its first request.
    pub fn new() -> (task: Self)
        ensures
            task@ == ActiveWindowTaskView::initial(),
    {
        ActiveWindowTask {
            stage: ActiveStage::Connect,
            root: 0,
            atom: ATOM_NONE,
            resolver: WindowResolver::idle(),
        }
    }

    /// The request that the task needs performed; none when it is done.
    pub fn request(&self) -> (request: Option<Request>)
        ensures
            request == self@.request(),
    {
        match self.stage {
            ActiveStage::Connect => Some(Request::Connect),
            ActiveStage::Atom => Some(Request::InternAtom { hint: Hint::ActiveWindow }),
            ActiveStage::Hint => Some(
                Request::GetProperty {
                    window: self.root,
                    property: self.atom,
                    kind: ATOM_WINDOW,
                    length: 1,
                },
            ),
            ActiveStage::Resolve => self.resolver.request(),
        }
    }

    /// Whether the answer is there.
    pub fn is_done(&self) -> (done: bool)
        ensures
            done == self@.result() is Some,
    {
        self.request().is_none()
    }

    /// The answer of the query, once the task is done.
    pub fn into_result(self) -> (result: Option<WindowInfo>)
        ensures
            match result {
                Some(record) => self@.result() == Some(record@),
                None => self@.result() is None,
            },
    {
        if self.request().is_none() {
            Some(self.resolver.into_record())
        } else {
            None
        }
    }

    fn give_up(&mut self)
        ensures
            final(self)@ == old(self)@.give_up(),
    {
        self.stage = ActiveStage::Resolve;
        self.resolver = WindowResolver::idle();
    }

    /// Takes the reply to the request that the task named. A task that is
    /// done takes no reply: it stays as it is.
    pub fn advance(&mut self, reply: Reply)
        ensures
            final(self)@ == old(self)@.advance(reply@),
    {
        match self.stage {
            ActiveStage::Connect => {
                match reply.first_root() {
                    Some(root) => {
                        self.root = root;
                        self.stage = ActiveStage::Atom;
                    },
                    None => {
                        self.give_up();
                    },
                }
            },
            ActiveStage::Atom => {
                let atom = reply.atom();
                if atom == ATOM_NONE {
                    self.give_up();
                } else {
                    self.atom = atom;
                    self.stage = ActiveStage::Hint;
                }
            },
            ActiveStage::Hint => {
                match reply.first_word() {
                    Some(window) => {
                        self.resolver = WindowResolver::new(window);
                        self.stage = ActiveStage::Resolve;
                    },
                    None => {
                        self.give_up();
                    },
                }
            },
            ActiveStage::Resolve => {
                self.resolver.advance(reply);
            },
        }
    }
}

/// Whatever the replies, the task stays sound and comes nearer to its end
/// with each of them.
pub proof fn lemma_task_advances(task: ActiveWindowTaskView, reply: ReplyView)
    requires
        task.sound(),
    ensures
        task.advance(reply).sound(),
        task.request() is Some ==> task.advance(reply).remaining() < task.remaining(),
        task.request() is None <==> task.remaining() == 0,
        task.remaining() <= ACTIVE_WINDOW_STEPS,
{
    crate::resolver::lemma_resolver_advances(task.resolver, reply);
    match reply.first_word() {
        Some(window) => {
            crate::resolver::lemma_resolver_starts_sound(window);
        },
        None => {},
    }
}

/// The task is sound from the start.
pub proof fn lemma_task_starts_sound()
    ensures
        ActiveWindowTaskView::initial().sound(),
{
}

/// The answer of a sound task is a record of this backend.
pub proof fn lemma_answer_is_a_record(task: ActiveWindowTaskView)
    requires
        task.sound(),
    ensures
        task.result() matches Some(record) ==> is_record(record),
{
}

proof fn lemma_resolving(task: ActiveWindowTaskView, desktop: Desktop, count: nat)
    requires
        task.stage == ActiveStage::Resolve,
    ensures
        task.run(desktop, count) == (ActiveWindowTaskView {
            resolver: task.resolver.run(desktop, count),
            ..task
        }),
    decreases count,
{
    if count > 0 {
        lemma_resolving(task.step(desktop), desktop, (count - 1) as nat);
    }
}

/// The task finds the window that has the focus: driven against a desktop
/// that does not change, the task is done after `ACTIVE_WINDOW_STEPS` steps
/// at the latest, and its answer is then the window that has the focus on
/// that desktop.
pub proof fn lemma_task_finds_active_window(desktop: Desktop)
    ensures
        ActiveWindowTaskView::initial().run(desktop, ACTIVE_WINDOW_STEPS as nat).result() == Some(
            active_window(desktop),
        ),
{
    let start = ActiveWindowTaskView::initial();
    let first = start.step(desktop);
    let second = first.step(desktop);
    let third = second.step(desktop);
    assert(start.run(desktop, ACTIVE_WINDOW_STEPS as nat) == third.run(
        desktop,
        RESOLVER_STEPS as nat,
    )) by {
        reveal_with_fuel(ActiveWindowTaskView::run, 4);
    }
    if first.stage == ActiveStage::Resolve {
        assert(second == first);
        assert(third == first);
    } else if second.stage == ActiveStage::Resolve {
        assert(third == second);
    }
    assert(third.stage == ActiveStage::Resolve);
    lemma_resolving(third, desktop, RESOLVER_STEPS as nat);
    if third.resolver.done() {
        crate::resolver::lemma_done_resolver_rests(
            third.resolver,
            desktop,
            RESOLVER_STEPS as nat,
        );
    } else {
        lemma_resolver_finds_record(desktop, third.resolver.window);
    }
}

/// A window manager without the active-window hint has no focused window to
/// tell of: the answer is the sentinel.
pub proof fn lemma_no_hint_no_window(desktop: Desktop)
    requires
        desktop(Request::InternAtom { hint: Hint::ActiveWindow }).atom() == ATOM_NONE,
    ensures
        active_window(desktop) == WindowInfoView::sentinel(),
        active_window(desktop).id == 0,
{
}

/// The answer is a record of this backend: it has the identifier zero only
/// if it is the sentinel.
pub proof fn lemma_active_window_is_a_record(desktop: Desktop)
    ensures
        is_record(active_window(desktop)),
        active_window(desktop).well_formed(),
{
}

/// Asking twice gives the same answer but for the memory: on two desktops
/// that answer every request alike, except that the memory statistics of a
/// process may have moved, the focused windows are equal in every field but
/// `usage`. On one desktop the two answers are equal.
pub proof fn lemma_active_window_twice(first: Desktop, second: Desktop)
    requires
        forall|request: Request|
            !(request is ReadMemory) ==> #[trigger] first(request) == second(request),
    ensures
        active_window(first) == (WindowInfoView {
            usage: active_window(first).usage,
            ..active_window(second)
        }),
{
    assert(first(Request::Connect) == second(Request::Connect));
    let atom_request = Request::InternAtom { hint: Hint::ActiveWindow };
    assert(first(atom_request) == second(atom_request));
    match first(Request::Connect).first_root() {
        Some(root) => {
            let hint = Request::GetProperty {
                window: root,
                property: first(atom_request).atom(),
                kind: ATOM_WINDOW,
                length: 1,
            };
            assert(first(hint) == second(hint));
            match first(hint).first_word() {
                Some(window) => {
                    crate::resolver::lemma_resolved_twice(first, second, window);
                },
                None => {},
            }
        },
        None => {},
    }
}

} // verus!
