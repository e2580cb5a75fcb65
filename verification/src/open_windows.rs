//! The query for the windows that are open.
//!
//! The task opens a connection, takes the first root window, looks up the
//! atom of the stacking list, reads the list on the root window and goes
//! through it. It resolves each window and, if the window has a record, asks
//! whether it is a normal window; the records of the normal windows are the
//! answer, in the order of the list. Where the list cannot be had the answer
//! is empty: the query never fails.
//!
//! A window is normal if the window manager knows both the window-type hint
//! and the normal type, and the window carries the normal type among its
//! types. Under a window manager that lacks either atom no window is normal.

use vstd::prelude::*;
use crate::protocol::{
    Desktop, Hint, Reply, ReplyView, Request, ATOM_ATOM, ATOM_NONE, ATOM_WINDOW, WHOLE_VALUE,
};
use crate::resolver::{
    is_record, lemma_resolver_takes_its_steps, resolve_steps, resolved, WindowResolver,
    WindowResolverView, RESOLVER_STEPS,
};
use crate::window::{WindowInfo, WindowInfoView};

verus! {

/// What the task asks for next.
#[derive(Clone, Copy, Debug, PartialEq, Eq, Structural)]
pub enum OpenStage {
    /// A connection and the root windows.
    Connect,
    /// The atom of the stacking list.
    Atom,
    /// The stacking list on the root window.
    List,
    /// What the resolver of the window at hand asks for.
    Resolve,
    /// The atom of the window-type hint.
    TypeAtom,
    /// The atom of the normal type.
    NormalAtom,
    /// The types of the window at hand.
    Types,
    /// Nothing.
    Done,
}

/// The query for the windows that are open, as far as it has come.
pub struct OpenWindowsTask {
    stage: OpenStage,
    root: u32,
    atom: u32,
    windows: Vec<u32>,
    index: usize,
    resolver: WindowResolver,
    type_atom: u32,
    normal_atom: u32,
    found: Vec<WindowInfo>,
}

/// What an `OpenWindowsTask` holds.
pub struct OpenWindowsTaskView {
    pub stage: OpenStage,
    /// The root window, once it is known.
    pub root: u32,
    /// The atom of the stacking list, once it is known.
    pub atom: u32,
    /// The stacking list, once it is read.
    pub windows: Seq<u32>,
    /// The place in the list of the window at hand.
    pub index: int,
    /// The resolver of the window at hand.
    pub resolver: WindowResolverView,
    /// The atoms of the window-type hint and of the normal type, as they were
    /// looked up for the window at hand.
    pub type_atom: u32,
    pub normal_atom: u32,
    /// The records of the normal windows before the window at hand.
    pub found: Seq<WindowInfoView>,
}

/// The views of a list of records.
pub open spec fn views(records: Seq<WindowInfo>) -> Seq<WindowInfoView> {
    records.map_values(|record: WindowInfo| record@)
}

// What the desktop says of its windows, stated directly.

/// The stacking list of `desktop`: empty where it cannot be had.
pub open spec fn stacking_list(desktop: Desktop) -> Seq<u32> {
    match desktop(Request::Connect).first_root() {
        Some(root) => {
            let atom = desktop(Request::InternAtom { hint: Hint::ClientListStacking }).atom();
            if atom == ATOM_NONE {
                Seq::empty()
            } else {
                match desktop(
                    Request::GetProperty {
                        window: root,
                        property: atom,
                        kind: ATOM_WINDOW,
                        length: WHOLE_VALUE,
                    },
                ).words() {
                    Some(windows) => windows,
                    None => Seq::empty(),
                }
            }
        },
        None => Seq::empty(),
    }
}

/// Whether `window` is a normal window on `desktop`.
pub open spec fn is_normal(desktop: Desktop, window: u32) -> bool {
    let type_atom = desktop(Request::InternAtom { hint: Hint::WindowType }).atom();
    let normal_atom = desktop(Request::InternAtom { hint: Hint::WindowTypeNormal }).atom();
    &&& type_atom != ATOM_NONE
    &&& normal_atom != ATOM_NONE
    &&& match desktop(
        Request::GetProperty {
            window,
            property: type_atom,
            kind: ATOM_ATOM,
            length: WHOLE_VALUE,
        },
    ).words() {
        Some(types) => types.contains(normal_atom),
        None => false,
    }
}

/// Whether `window` is reported: it has a record and is a normal window.
pub open spec fn is_reported(desktop: Desktop, window: u32) -> bool {
    resolved(desktop, window).id != 0 && is_normal(desktop, window)
}

/// The records of those of `windows` that are reported, in the order of
/// `windows`.
pub open spec fn reported(desktop: Desktop, windows: Seq<u32>) -> Seq<WindowInfoView>
    decreases windows.len(),
{
    if windows.len() == 0 {
        Seq::empty()
    } else {
        let before = reported(desktop, windows.drop_last());
        if is_reported(desktop, windows.last()) {
            before.push(resolved(desktop, windows.last()))
        } else {
            before
        }
    }
}

/// The windows that are open on `desktop`.
pub open spec fn open_windows(desktop: Desktop) -> Seq<WindowInfoView> {
    reported(desktop, stacking_list(desktop))
}

// The task, step by step.

impl OpenWindowsTaskView {
    /// The task before its first request.
    pub open spec fn initial() -> Self {
        OpenWindowsTaskView {
            stage: OpenStage::Connect,
            root: 0,
            atom: ATOM_NONE,
            windows: Seq::empty(),
            index: 0,
            resolver: WindowResolverView::idle(),
            type_atom: ATOM_NONE,
            normal_atom: ATOM_NONE,
            found: Seq::empty(),
        }
    }

    /// The task when nothing is left to ask.
    pub open spec fn finish(self) -> Self {
        OpenWindowsTaskView { stage: OpenStage::Done, ..self }
    }

    /// The task when it turns to the window at `index`, or finishes if the
    /// list has no such window.
    pub open spec fn turn_to(self, index: int) -> Self {
        if 0 <= index < self.windows.len() {
            OpenWindowsTaskView {
                stage: OpenStage::Resolve,
                index,
                resolver: WindowResolverView::start(self.windows[index]),
                ..self
            }
        } else {
            self.finish()
        }
    }

    /// The request that the task needs performed; none when it is done.
    pub open spec fn request(self) -> Option<Request> {
        match self.stage {
            OpenStage::Connect => Some(Request::Connect),
            OpenStage::Atom => Some(Request::InternAtom { hint: Hint::ClientListStacking }),
            OpenStage::List => Some(
                Request::GetProperty {
                    window: self.root,
                    property: self.atom,
                    kind: ATOM_WINDOW,
                    length: WHOLE_VALUE,
                },
            ),
            OpenStage::Resolve => self.resolver.request(),
            OpenStage::TypeAtom => Some(Request::InternAtom { hint: Hint::WindowType }),
            OpenStage::NormalAtom => Some(Request::InternAtom { hint: Hint::WindowTypeNormal }),
            OpenStage::Types => Some(
                Request::GetProperty {
                    window: self.resolver.window,
                    property: self.type_atom,
                    kind: ATOM_ATOM,
                    length: WHOLE_VALUE,
                },
            ),
            OpenStage::Done => None,
        }
    }

    /// The answer of the query, once the task is done.
    pub open spec fn result(self) -> Option<Seq<WindowInfoView>> {
        if self.stage == OpenStage::Done {
            Some(self.found)
        } else {
            None
        }
    }

    /// The task after the reply to its request.
    pub open spec fn advance(self, reply: ReplyView) -> Self {
        match self.stage {
            OpenStage::Connect => match reply.first_root() {
                Some(root) => OpenWindowsTaskView { stage: OpenStage::Atom, root, ..self },
                None => self.finish(),
            },
            OpenStage::Atom => if reply.atom() == ATOM_NONE {
                self.finish()
            } else {
                OpenWindowsTaskView { stage: OpenStage::List, atom: reply.atom(), ..self }
            },
            OpenStage::List => match reply.words() {
                Some(windows) => (OpenWindowsTaskView { windows, ..self }).turn_to(0),
                None => self.finish(),
            },
            OpenStage::Resolve => {
                let resolver = self.resolver.advance(reply);
                let task = OpenWindowsTaskView { resolver, ..self };
                if !resolver.done() {
                    task
                } else if resolver.record.id != 0 {
                    OpenWindowsTaskView { stage: OpenStage::TypeAtom, ..task }
                } else {
                    task.turn_to(self.index + 1)
                }
            },
            OpenStage::TypeAtom => OpenWindowsTaskView {
                stage: OpenStage::NormalAtom,
                type_atom: reply.atom(),
                ..self
            },
            OpenStage::NormalAtom => if self.type_atom != ATOM_NONE && reply.atom() != ATOM_NONE {
                OpenWindowsTaskView {
                    stage: OpenStage::Types,
                    normal_atom: reply.atom(),
                    ..self
                }
            } else {
                (OpenWindowsTaskView { normal_atom: reply.atom(), ..self }).turn_to(
                    self.index + 1,
                )
            },
            OpenStage::Types => {
                let normal = match reply.words() {
                    Some(types) => types.contains(self.normal_atom),
                    None => false,
                };
                let found = if normal {
                    self.found.push(self.resolver.record)
                } else {
                    self.found
                };
                (OpenWindowsTaskView { found, ..self }).turn_to(self.index + 1)
            },
            OpenStage::Done => self,
        }
    }

    /// Whether the task is at work on a window of its list.
    pub open spec fn at_work(self) -> bool {
        match self.stage {
            OpenStage::Resolve | OpenStage::TypeAtom | OpenStage::NormalAtom | OpenStage::Types => true,
            _ => false,
        }
    }

    /// What holds of a task however it was driven: it has no list before it
    /// has read one; the window at hand is one of the list; it is asked for
    /// its types only when it has a record; and every record that was found
    /// is the record of a window.
    pub open spec fn sound(self) -> bool {
        &&& self.resolver.sound()
        &&& self.opening() > 0 ==> self.windows.len() == 0
        &&& self.at_work() ==> 0 <= self.index < self.windows.len()
        &&& self.at_work() ==> if self.stage == OpenStage::Resolve {
            !self.resolver.done()
        } else {
            self.resolver.done() && self.resolver.record.id != 0
        }
        &&& forall|i: int|
            0 <= i < self.found.len() ==> (#[trigger] self.found[i]).id != 0 && is_record(
                self.found[i],
            )
    }

    /// The number of requests that the task makes before it has read the
    /// stacking list, at the most.
    pub open spec fn opening(self) -> nat {
        match self.stage {
            OpenStage::Connect => 3,
            OpenStage::Atom => 2,
            OpenStage::List => 1,
            _ => 0,
        }
    }

    /// The number of requests that the task makes from here on, at the most,
    /// once it has read the stacking list.
    pub open spec fn remaining(self) -> nat {
        let later = if 0 <= self.index < self.windows.len() {
            (self.windows.len() - self.index - 1) * 11
        } else {
            0
        };
        (match self.stage {
            OpenStage::Resolve => later + 3 + self.resolver.remaining(),
            OpenStage::TypeAtom => later + 3,
            OpenStage::NormalAtom => later + 2,
            OpenStage::Types => later + 1,
            _ => 0,
        }) as nat
    }

    /// The number of requests that the task has made so far, at the most:
    /// three for the stacking list and `WINDOW_STEPS` for each window of it,
    /// less what may still be to come.
    pub open spec fn spent(self) -> int {
        3 + 11 * self.windows.len() - self.opening() - self.remaining()
    }

    /// The task after it has taken `replies`, one after the other.
    pub open spec fn fed(self, replies: Seq<ReplyView>) -> Self
        decreases replies.len(),
    {
        if replies.len() == 0 {
            self
        } else {
            self.fed(replies.drop_last()).advance(replies.last())
        }
    }

    /// The task after its request, if it has one, has been answered by
    /// `desktop`.
    pub open spec fn step(self, desktop: Desktop) -> Self {
        match self.request() {
            Some(request) => self.advance(desktop(request)),
            None => self,
        }
    }

    /// The task after `count` steps against `desktop`.
    pub open spec fn run(self, desktop: Desktop, count: nat) -> Self
        decreases count,
    {
        if count == 0 {
            self
        } else {
            self.step(desktop).run(desktop, (count - 1) as nat)
        }
    }
}

impl View for OpenWindowsTask {
    type V = OpenWindowsTaskView;

    closed spec fn view(&self) -> OpenWindowsTaskView {
        OpenWindowsTaskView {
            stage: self.stage,
            root: self.root,
            atom: self.atom,
            windows: self.windows@,
            index: self.index as int,
            resolver: self.resolver@,
            type_atom: self.type_atom,
            normal_atom: self.normal_atom,
            found: views(self.found@),
        }
    }
}

/// Whether `records` is the answer of the query to `replies`: a task that is
/// run from its start takes the replies one after the other, each in answer
/// to the request that it names at that point; it makes no more requests than
/// three and `WINDOW_STEPS` for each window of the stacking list that it has
/// read; and after the last reply it is done and its answer is `records`.
pub open spec fn is_answer_to(records: Seq<WindowInfoView>, replies: Seq<ReplyView>) -> bool {
    let start = OpenWindowsTaskView::initial();
    &&& forall|count: int|
        0 <= count < replies.len() ==> (#[trigger] start.fed(replies.take(count))).request()
            is Some
    &&& start.fed(replies).result() == Some(records)
    &&& replies.len() <= 3 + WINDOW_STEPS * start.fed(replies).windows.len()
}

/// Whether `word` is among `words`.
pub fn contains_word(words: &[u32], word: u32) -> (found: bool)
    ensures
        found == words@.contains(word),
{
    let mut i: usize = 0;
    while i < words.len()
        invariant
            i <= words.len(),
            forall|k: int| 0 <= k < i ==> words@[k] != word,
        decreases words.len() - i,
    {
        if words[i] == word {
            return true;
        }
        i = i + 1;
    }
    false
}

impl OpenWindowsTask {
    /// The task before its first request.
    pub fn new() -> (task: Self)
        ensures
            task@ == OpenWindowsTaskView::initial(),
    {
        let task = OpenWindowsTask {
            stage: OpenStage::Connect,
            root: 0,
            atom: ATOM_NONE,
            windows: Vec::new(),
            index: 0,
            resolver: WindowResolver::idle(),
            type_atom: ATOM_NONE,
            normal_atom: ATOM_NONE,
            found: Vec::new(),
        };
        assert(views(task.found@) =~= Seq::<WindowInfoView>::empty());
        task
    }

    /// The request that the task needs performed; none when it is done.
    pub fn request(&self) -> (request: Option<Request>)
        ensures
            request == self@.request(),
    {
        match self.stage {
            OpenStage::Connect => Some(Request::Connect),
            OpenStage::Atom => Some(Request::InternAtom { hint: Hint::ClientListStacking }),
            OpenStage::List => Some(
                Request::GetProperty {
                    window: self.root,
                    property: self.atom,
                    kind: ATOM_WINDOW,
                    length: WHOLE_VALUE,
                },
            ),
            OpenStage::Resolve => self.resolver.request(),
            OpenStage::TypeAtom => Some(Request::InternAtom { hint: Hint::WindowType }),
            OpenStage::NormalAtom => Some(Request::InternAtom { hint: Hint::WindowTypeNormal }),
            OpenStage::Types => Some(
                Request::GetProperty {
                    window: self.resolver.window(),
                    property: self.type_atom,
                    kind: ATOM_ATOM,
                    length: WHOLE_VALUE,
                },
            ),
            OpenStage::Done => None,
        }
    }

    /// Whether the answer is there.
    pub fn is_done(&self) -> (done: bool)
        ensures
            done == self@.result() is Some,
    {
        match self.stage {
            OpenStage::Done => true,
            _ => false,
        }
    }

    /// The answer of the query, once the task is done.
    pub fn into_result(self) -> (result: Option<Vec<WindowInfo>>)
        ensures
            match result {
                Some(records) => self@.result() == Some(views(records@)),
                None => self@.result() is None,
            },
    {
        match self.stage {
            OpenStage::Done => Some(self.found),
            _ => None,
        }
    }

    fn turn_to(&mut self, index: usize)
        ensures
            final(self)@ == old(self)@.turn_to(index as int),
    {
        if index < self.windows.len() {
            self.resolver = WindowResolver::new(self.windows[index]);
            self.index = index;
            self.stage = OpenStage::Resolve;
        } else {
            self.stage = OpenStage::Done;
        }
    }

    fn turn_to_next(&mut self)
        ensures
            final(self)@ == old(self)@.turn_to(old(self)@.index + 1),
    {
        if self.index < self.windows.len() {
            self.turn_to(self.index + 1);
        } else {
            self.stage = OpenStage::Done;
        }
    }

    /// Takes the reply to the request that the task named. A task that is
    /// done takes no reply: it stays as it is.
    pub fn advance(&mut self, reply: Reply)
        ensures
            final(self)@ == old(self)@.advance(reply@),
    {
        match self.stage {
            OpenStage::Connect => {
                match reply.first_root() {
                    Some(root) => {
                        self.root = root;
                        self.stage = OpenStage::Atom;
                    },
                    None => {
                        self.stage = OpenStage::Done;
                    },
                }
            },
            OpenStage::Atom => {
                let atom = reply.atom();
                if atom == ATOM_NONE {
                    self.stage = OpenStage::Done;
                } else {
                    self.atom = atom;
                    self.stage = OpenStage::List;
                }
            },
            OpenStage::List => {
                match reply.into_words() {
                    Some(windows) => {
                        self.windows = windows;
                        self.turn_to(0);
                    },
                    None => {
                        self.stage = OpenStage::Done;
                    },
                }
            },
            OpenStage::Resolve => {
                self.resolver.advance(reply);
                if self.resolver.is_done() {
                    if self.resolver.record().id != 0 {
                        self.stage = OpenStage::TypeAtom;
                    } else {
                        self.turn_to_next();
                    }
                }
            },
            OpenStage::TypeAtom => {
                self.type_atom = reply.atom();
                self.stage = OpenStage::NormalAtom;
            },
            OpenStage::NormalAtom => {
                self.normal_atom = reply.atom();
                if self.type_atom != ATOM_NONE && self.normal_atom != ATOM_NONE {
                    self.stage = OpenStage::Types;
                } else {
                    self.turn_to_next();
                }
            },
            OpenStage::Types => {
                let normal = match reply.into_words() {
                    Some(types) => contains_word(types.as_slice(), self.normal_atom),
                    None => false,
                };
                if normal {
                    let record = self.resolver.record().clone();
                    let ghost before = self.found@;
                    self.found.push(record);
                    assert(views(self.found@) =~= views(before).push(record@));
                }
                self.turn_to_next();
            },
            OpenStage::Done => {},
        }
    }
}

/// The number of requests that the task makes for one window, at the most.
pub const WINDOW_STEPS: usize = RESOLVER_STEPS + 3;

/// Whatever the replies, the task stays sound and comes nearer to its end
/// with each of them: first to the reading of the stacking list, then to the
/// end of the list. Each request counts against what the task may spend.
pub proof fn lemma_task_advances(task: OpenWindowsTaskView, reply: ReplyView)
    requires
        task.sound(),
    ensures
        task.advance(reply).sound(),
        task.request() is Some ==> {
            ||| task.advance(reply).opening() < task.opening()
            ||| task.advance(reply).opening() == task.opening() && task.advance(
                reply,
            ).remaining() < task.remaining()
        },
        task.opening() == 0 ==> task.remaining() <= WINDOW_STEPS * task.windows.len(),
        task.request() is Some ==> task.advance(reply).spent() >= task.spent() + 1,
{
    crate::resolver::lemma_resolver_advances(task.resolver, reply);
    if task.at_work() {
        assert((task.windows.len() - task.index - 1) * 11 + 11 <= 11 * task.windows.len());
    }
}

/// A task that has taken one reply more is the task that has taken the
/// replies before it, advanced with that reply.
pub proof fn lemma_fed_one_more(task: OpenWindowsTaskView, replies: Seq<ReplyView>, reply: ReplyView)
    ensures
        task.fed(replies.push(reply)) == task.fed(replies).advance(reply),
        replies.push(reply).take(replies.len() as int) == replies,
        forall|count: int|
            0 <= count <= replies.len() ==> #[trigger] replies.push(reply).take(count)
                == replies.take(count),
{
    assert(replies.push(reply).drop_last() =~= replies);
    assert(replies.push(reply).take(replies.len() as int) =~= replies);
    assert forall|count: int| 0 <= count <= replies.len() implies #[trigger] replies.push(
        reply,
    ).take(count) == replies.take(count) by {
        assert(replies.push(reply).take(count) =~= replies.take(count));
    }
}

/// The task is sound from the start.
pub proof fn lemma_task_starts_sound()
    ensures
        OpenWindowsTaskView::initial().sound(),
{
}

/// A sound task has an answer when it has no request, and every record of
/// the answer is the record of a window. It has not spent more than three
/// requests and `WINDOW_STEPS` for each window of its list.
pub proof fn lemma_answer_holds_records(task: OpenWindowsTaskView)
    requires
        task.sound(),
    ensures
        task.request() is None <==> task.result() is Some,
        task.spent() <= 3 + WINDOW_STEPS * task.windows.len(),
        task.result() matches Some(records) ==> forall|i: int|
            0 <= i < records.len() ==> (#[trigger] records[i]).id != 0 && is_record(records[i]),
{
    crate::resolver::lemma_resolver_advances(task.resolver, ReplyView::Failed);
}

/// The number of requests that the task makes for `window` on `desktop`.
pub open spec fn window_steps(desktop: Desktop, window: u32) -> nat {
    let type_atom = desktop(Request::InternAtom { hint: Hint::WindowType }).atom();
    let normal_atom = desktop(Request::InternAtom { hint: Hint::WindowTypeNormal }).atom();
    resolve_steps(desktop, window) + if resolved(desktop, window).id == 0 {
        0nat
    } else if type_atom != ATOM_NONE && normal_atom != ATOM_NONE {
        3nat
    } else {
        2nat
    }
}

/// The task is about to resolve the window at `index` of `windows`, and has
/// found what is reported of the windows before it.
spec fn at_window(
    task: OpenWindowsTaskView,
    desktop: Desktop,
    windows: Seq<u32>,
    index: int,
) -> bool {
    &&& task.stage == OpenStage::Resolve
    &&& task.windows == windows
    &&& task.index == index
    &&& 0 <= index < windows.len()
    &&& task.resolver == WindowResolverView::start(windows[index])
    &&& task.found == reported(desktop, windows.take(index))
}

/// The task is done, and has found what is reported of `windows`.
spec fn finished(task: OpenWindowsTaskView, desktop: Desktop, windows: Seq<u32>) -> bool {
    &&& task.stage == OpenStage::Done
    &&& task.found == reported(desktop, windows)
}

proof fn lemma_run_split(task: OpenWindowsTaskView, desktop: Desktop, first: nat, second: nat)
    ensures
        task.run(desktop, first + second) == task.run(desktop, first).run(desktop, second),
    decreases first,
{
    if first > 0 {
        lemma_run_split(task.step(desktop), desktop, (first - 1) as nat, second);
    }
}

/// A task that is done stays as it is.
pub proof fn lemma_done_task_rests(task: OpenWindowsTaskView, desktop: Desktop, count: nat)
    requires
        task.result() is Some,
    ensures
        task.run(desktop, count) == task,
    decreases count,
{
    if count > 0 {
        lemma_done_task_rests(task, desktop, (count - 1) as nat);
    }
}

/// While the resolver of the window at hand is at work, the task is at its
/// service and stays as it is otherwise.
proof fn lemma_resolving(task: OpenWindowsTaskView, desktop: Desktop, count: nat)
    requires
        task.stage == OpenStage::Resolve,
        forall|fewer: nat| 0 < fewer <= count ==> !(#[trigger] task.resolver.run(desktop, fewer)).done(),
    ensures
        task.run(desktop, count) == (OpenWindowsTaskView {
            resolver: task.resolver.run(desktop, count),
            ..task
        }),
    decreases count,
{
    if count > 0 {
        let next = task.step(desktop);
        reveal_with_fuel(WindowResolverView::run, 2);
        assert(task.resolver.run(desktop, 1) == task.resolver.step(desktop));
        if task.resolver.done() {
            crate::resolver::lemma_done_resolver_rests(task.resolver, desktop, 1);
        }
        assert(next.resolver == task.resolver.step(desktop));
        assert(next.stage == OpenStage::Resolve);
        assert forall|fewer: nat| 0 < fewer <= count - 1 implies !(#[trigger] next.resolver.run(
            desktop,
            fewer,
        )).done() by {
            assert(task.resolver.run(desktop, fewer + 1) == next.resolver.run(desktop, fewer));
        }
        lemma_resolving(next, desktop, (count - 1) as nat);
        assert(task.resolver.run(desktop, count) == next.resolver.run(
            desktop,
            (count - 1) as nat,
        ));
    }
}

proof fn lemma_reported_take(desktop: Desktop, windows: Seq<u32>, index: int)
    requires
        0 <= index < windows.len(),
    ensures
        reported(desktop, windows.take(index + 1)) == if is_reported(desktop, windows[index]) {
            reported(desktop, windows.take(index)).push(resolved(desktop, windows[index]))
        } else {
            reported(desktop, windows.take(index))
        },
{
    assert(windows.take(index + 1).drop_last() =~= windows.take(index));
}

/// The task when the resolver of the window at hand has made its last
/// request.
spec fn resolved_window(task: OpenWindowsTaskView, desktop: Desktop) -> OpenWindowsTaskView {
    let window = task.resolver.window;
    let resolver = task.resolver.run(desktop, resolve_steps(desktop, window));
    let resolved_task = OpenWindowsTaskView { resolver, ..task };
    if resolved(desktop, window).id != 0 {
        OpenWindowsTaskView { stage: OpenStage::TypeAtom, ..resolved_task }
    } else {
        resolved_task.turn_to(task.index + 1)
    }
}

proof fn lemma_window_resolved(
    task: OpenWindowsTaskView,
    desktop: Desktop,
    windows: Seq<u32>,
    index: int,
)
    requires
        at_window(task, desktop, windows, index),
    ensures
        task.run(desktop, resolve_steps(desktop, windows[index])) == resolved_window(task, desktop),
{
    let window = windows[index];
    let steps = resolve_steps(desktop, window);
    let before = (steps - 1) as nat;
    lemma_resolver_takes_its_steps(desktop, window);
    lemma_resolving(task, desktop, before);
    let resolving = task.run(desktop, before);
    assert(!resolving.resolver.done()) by {
        if before == 0 {
            assert(resolving.resolver == task.resolver);
        }
    }
    assert(resolving.resolver.step(desktop) == task.resolver.run(desktop, steps)) by {
        lemma_resolver_run_split(task.resolver, desktop, before, 1);
        reveal_with_fuel(WindowResolverView::run, 2);
    }
    assert(resolving.run(desktop, 1) == resolving.step(desktop)) by {
        reveal_with_fuel(OpenWindowsTaskView::run, 2);
    }
    lemma_run_split(task, desktop, before, 1);
    let request = resolving.resolver.request();
    assert(request is Some);
    assert(resolving.step(desktop) == resolving.advance(desktop(request->0)));
    assert(resolving.resolver.step(desktop) == resolving.resolver.advance(desktop(request->0)));
}

/// The task when it has asked whether the window at hand is a normal window.
spec fn judged_window(task: OpenWindowsTaskView, desktop: Desktop) -> OpenWindowsTaskView {
    let window = task.resolver.window;
    let type_atom = desktop(Request::InternAtom { hint: Hint::WindowType }).atom();
    let normal_atom = desktop(Request::InternAtom { hint: Hint::WindowTypeNormal }).atom();
    let found = if is_normal(desktop, window) {
        task.found.push(task.resolver.record)
    } else {
        task.found
    };
    (OpenWindowsTaskView { type_atom, normal_atom, found, ..task }).turn_to(task.index + 1)
}

proof fn lemma_window_judged(task: OpenWindowsTaskView, desktop: Desktop)
    requires
        task.stage == OpenStage::TypeAtom,
    ensures
        ({
            let type_atom = desktop(Request::InternAtom { hint: Hint::WindowType }).atom();
            let normal_atom = desktop(Request::InternAtom { hint: Hint::WindowTypeNormal }).atom();
            let steps: nat = if type_atom != ATOM_NONE && normal_atom != ATOM_NONE {
                3
            } else {
                2
            };
            task.run(desktop, steps) == judged_window(task, desktop)
        }),
{
    let typed = task.step(desktop);
    let normal = typed.step(desktop);
    let judged = normal.step(desktop);
    assert(task.run(desktop, 2) == normal && task.run(desktop, 3) == judged) by {
        reveal_with_fuel(OpenWindowsTaskView::run, 4);
    }
}

/// One window: from the first request about it to the first request about
/// the next one, or to the end.
proof fn lemma_window(task: OpenWindowsTaskView, desktop: Desktop, windows: Seq<u32>, index: int)
    requires
        at_window(task, desktop, windows, index),
    ensures
        ({
            let after = task.run(desktop, window_steps(desktop, windows[index]));
            if index + 1 < windows.len() {
                at_window(after, desktop, windows, index + 1)
            } else {
                finished(after, desktop, windows)
            }
        }),
{
    let window = windows[index];
    let steps = resolve_steps(desktop, window);
    lemma_resolver_takes_its_steps(desktop, window);
    lemma_reported_take(desktop, windows, index);
    if index + 1 == windows.len() {
        assert(windows.take(index + 1) =~= windows);
    }
    lemma_window_resolved(task, desktop, windows, index);
    let middle = resolved_window(task, desktop);
    if resolved(desktop, window).id != 0 {
        lemma_window_judged(middle, desktop);
        lemma_run_split(task, desktop, steps, (window_steps(desktop, window) - steps) as nat);
    }
}

proof fn lemma_resolver_run_split(
    resolver: WindowResolverView,
    desktop: Desktop,
    first: nat,
    second: nat,
)
    ensures
        resolver.run(desktop, first + second) == resolver.run(desktop, first).run(desktop, second),
    decreases first,
{
    if first > 0 {
        lemma_resolver_run_split(resolver.step(desktop), desktop, (first - 1) as nat, second);
    }
}

proof fn lemma_from_window(
    task: OpenWindowsTaskView,
    desktop: Desktop,
    windows: Seq<u32>,
    index: int,
) -> (steps: nat)
    requires
        at_window(task, desktop, windows, index),
    ensures
        finished(task.run(desktop, steps), desktop, windows),
        steps <= WINDOW_STEPS * (windows.len() - index),
    decreases windows.len() - index,
{
    let here = window_steps(desktop, windows[index]);
    lemma_window(task, desktop, windows, index);
    lemma_resolver_takes_its_steps(desktop, windows[index]);
    if index + 1 < windows.len() {
        let rest = lemma_from_window(task.run(desktop, here), desktop, windows, index + 1);
        lemma_run_split(task, desktop, here, rest);
        assert(here + rest <= WINDOW_STEPS * (windows.len() - index)) by (nonlinear_arith)
            requires
                here <= WINDOW_STEPS,
                rest <= WINDOW_STEPS * (windows.len() - (index + 1)),
        ;
        here + rest
    } else {
        here
    }
}

/// The task finds the windows that are open: driven against a desktop that
/// does not change, the task is done after the number of steps that the law
/// returns, which is at most three and `WINDOW_STEPS` for each window of the
/// stacking list, and its answer is then the open windows of that desktop.
pub proof fn lemma_task_finds_open_windows(desktop: Desktop) -> (steps: nat)
    ensures
        OpenWindowsTaskView::initial().run(desktop, steps).result() == Some(open_windows(desktop)),
        steps <= 3 + WINDOW_STEPS * stacking_list(desktop).len(),
{
    let start = OpenWindowsTaskView::initial();
    let windows = stacking_list(desktop);
    let listed = start.run(desktop, 3);
    assert(listed == start.step(desktop).step(desktop).step(desktop)) by {
        reveal_with_fuel(OpenWindowsTaskView::run, 4);
    }
    assert(reported(desktop, Seq::<u32>::empty()) == Seq::<WindowInfoView>::empty());
    if at_window(listed, desktop, windows, 0) {
        let rest = lemma_from_window(listed, desktop, windows, 0);
        lemma_run_split(start, desktop, 3, rest);
        3 + rest
    } else {
        assert(windows.take(0) =~= Seq::<u32>::empty());
        assert(finished(listed, desktop, windows));
        3
    }
}

proof fn lemma_reported_are_reported(desktop: Desktop, windows: Seq<u32>)
    ensures
        reported(desktop, windows).len() <= windows.len(),
        forall|i: int|
            0 <= i < reported(desktop, windows).len() ==> {
                let record = #[trigger] reported(desktop, windows)[i];
                &&& record.id != 0
                &&& windows.contains(record.id)
                &&& record == resolved(desktop, record.id)
                &&& is_normal(desktop, record.id)
            },
    decreases windows.len(),
{
    if windows.len() > 0 {
        let earlier = windows.drop_last();
        lemma_reported_are_reported(desktop, earlier);
        assert forall|i: int| 0 <= i < reported(desktop, windows).len() implies {
            let record = #[trigger] reported(desktop, windows)[i];
            &&& record.id != 0
            &&& windows.contains(record.id)
            &&& record == resolved(desktop, record.id)
            &&& is_normal(desktop, record.id)
        } by {
            let record = reported(desktop, windows)[i];
            if i < reported(desktop, earlier).len() {
                assert(record == reported(desktop, earlier)[i]);
                let k = choose|k: int| 0 <= k < earlier.len() && earlier[k] == record.id;
                assert(windows[k] == record.id);
            } else {
                assert(record == resolved(desktop, windows.last()));
                assert(windows[windows.len() - 1] == record.id);
            }
        }
    }
}

/// Only application windows are reported: every record of the answer has an
/// identifier that is not zero, is the record of the window of that
/// identifier, which stands in the stacking list, and that window is a
/// normal window. No more records are reported than windows are listed.
pub proof fn lemma_open_windows_are_normal(desktop: Desktop)
    ensures
        open_windows(desktop).len() <= stacking_list(desktop).len(),
        forall|i: int|
            0 <= i < open_windows(desktop).len() ==> {
                let record = #[trigger] open_windows(desktop)[i];
                &&& record.id != 0
                &&& stacking_list(desktop).contains(record.id)
                &&& record == resolved(desktop, record.id)
                &&& is_normal(desktop, record.id)
            },
{
    lemma_reported_are_reported(desktop, stacking_list(desktop));
}

/// What is reported is what is left of the list when the windows that are
/// not reported are struck out, window for window and in the order of the
/// list.
pub proof fn lemma_reported_is_the_list_filtered(desktop: Desktop, windows: Seq<u32>)
    ensures
        reported(desktop, windows) == windows.filter(
            |window: u32| is_reported(desktop, window),
        ).map_values(|window: u32| resolved(desktop, window)),
    decreases windows.len(),
{
    let keep = |window: u32| is_reported(desktop, window);
    let record = |window: u32| resolved(desktop, window);
    reveal_with_fuel(Seq::filter, 2);
    if windows.len() == 0 {
        assert(windows.filter(keep).map_values(record) =~= Seq::<WindowInfoView>::empty());
    } else {
        let earlier = windows.drop_last();
        lemma_reported_is_the_list_filtered(desktop, earlier);
        if is_reported(desktop, windows.last()) {
            assert(earlier.filter(keep).push(windows.last()).map_values(record) =~= earlier.filter(
                keep,
            ).map_values(record).push(resolved(desktop, windows.last())));
        }
    }
}

proof fn lemma_nothing_normal_nothing_reported(desktop: Desktop, windows: Seq<u32>)
    requires
        forall|window: u32| !is_normal(desktop, window),
    ensures
        reported(desktop, windows) == Seq::<WindowInfoView>::empty(),
    decreases windows.len(),
{
    if windows.len() > 0 {
        lemma_nothing_normal_nothing_reported(desktop, windows.drop_last());
    }
}

/// Under a window manager that lacks the window-type hint or the normal type
/// no window is normal, and no window is reported.
pub proof fn lemma_no_type_no_windows(desktop: Desktop)
    requires
        desktop(Request::InternAtom { hint: Hint::WindowType }).atom() == ATOM_NONE || desktop(
            Request::InternAtom { hint: Hint::WindowTypeNormal },
        ).atom() == ATOM_NONE,
    ensures
        forall|window: u32| !is_normal(desktop, window),
        open_windows(desktop) == Seq::<WindowInfoView>::empty(),
{
    lemma_nothing_normal_nothing_reported(desktop, stacking_list(desktop));
}

/// A window manager without the stacking list has no windows to tell of.
pub proof fn lemma_no_list_no_windows(desktop: Desktop)
    requires
        desktop(Request::InternAtom { hint: Hint::ClientListStacking }).atom() == ATOM_NONE,
    ensures
        open_windows(desktop) == Seq::<WindowInfoView>::empty(),
{
}


} // verus!
