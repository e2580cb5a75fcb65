//! From a window handle to the record of the window.
//!
//! A resolver asks, in this order, for the atom of the process hint, the
//! process of the window, the executable of the process, the title and the
//! class of the window, the memory of the process, the geometry of the window
//! and the place of the window on its root. A window without a process is no
//! application window: its record is the sentinel, and nothing more is asked
//! about it. Whatever else is missing stays empty or zero in the record.

use vstd::prelude::*;
use crate::geometry::{place, placed};
use crate::process::{page_count, parse_page_count};
use crate::protocol::{
    Desktop, Hint, Reply, ReplyView, Request, ATOM_ANY, ATOM_NONE, ATOM_STRING, ATOM_WM_CLASS,
    ATOM_WM_NAME, WHOLE_VALUE,
};
use crate::text::{class_name, class_of, decode_text, decoded, file_name, file_name_of};
use crate::window::{UsageInfo, WindowInfo, WindowInfoView, WindowPosition};

verus! {

/// What a resolver asks for next.
#[derive(Clone, Copy, Debug, PartialEq, Eq, Structural)]
pub enum ResolveStage {
    ProcessAtom,
    Process,
    Executable,
    Title,
    Class,
    Memory,
    Geometry,
    Place,
    Done,
}

/// The resolution of one window, as far as it has come.
pub struct WindowResolver {
    window: u32,
    stage: ResolveStage,
    process_atom: u32,
    root: u32,
    x: i16,
    y: i16,
    width: u16,
    height: u16,
    record: WindowInfo,
}

/// What a `WindowResolver` holds.
pub struct WindowResolverView {
    pub window: u32,
    pub stage: ResolveStage,
    /// The atom of the process hint, once it is known.
    pub process_atom: u32,
    /// The root of the window, its position in its parent and its size, once
    /// they are known.
    pub root: u32,
    pub x: i16,
    pub y: i16,
    pub width: u16,
    pub height: u16,
    /// The record, as far as it is filled in.
    pub record: WindowInfoView,
}

// What the desktop says of a window, stated directly.

/// The process that owns `window`: the first word of its process hint, or
/// zero if the window manager has no such hint or the window does not carry
/// it.
pub open spec fn process_of(desktop: Desktop, window: u32) -> u32 {
    let atom = desktop(Request::InternAtom { hint: Hint::ProcessId }).atom();
    if atom == ATOM_NONE {
        0
    } else {
        match desktop(
            Request::GetProperty { window, property: atom, kind: ATOM_ANY, length: 1 },
        ).first_word() {
            Some(process_id) => process_id,
            None => 0,
        }
    }
}

/// The path of the executable of a process; empty if it cannot be read.
pub open spec fn path_of(desktop: Desktop, process_id: u32) -> Seq<char> {
    match desktop(Request::ReadExecutable { process_id }) {
        ReplyView::Executable { path } => path,
        _ => Seq::empty(),
    }
}

/// The title of `window`; empty if it cannot be read.
pub open spec fn title_of(desktop: Desktop, window: u32) -> Seq<char> {
    match desktop(
        Request::GetProperty {
            window,
            property: ATOM_WM_NAME,
            kind: ATOM_ANY,
            length: WHOLE_VALUE,
        },
    ).bytes() {
        Some(bytes) => decoded(bytes),
        None => Seq::empty(),
    }
}

/// The class of `window`; empty if it cannot be read.
pub open spec fn class_name_of(desktop: Desktop, window: u32) -> Seq<char> {
    match desktop(
        Request::GetProperty {
            window,
            property: ATOM_WM_CLASS,
            kind: ATOM_STRING,
            length: WHOLE_VALUE,
        },
    ).bytes() {
        Some(bytes) => class_of(bytes),
        None => Seq::empty(),
    }
}

/// The memory of a process, in pages; zero if it cannot be read.
pub open spec fn memory_of(desktop: Desktop, process_id: u32) -> u32 {
    match desktop(Request::ReadMemory { process_id }) {
        ReplyView::Memory { line } => match page_count(line) {
            Some(pages) => pages,
            None => 0,
        },
        _ => 0,
    }
}

/// The position of `window` on its root; zero if the geometry cannot be read
/// or the translation fails.
pub open spec fn position_of(desktop: Desktop, window: u32) -> WindowPosition {
    match desktop(Request::GetGeometry { window }) {
        ReplyView::Geometry { root, x, y, width, height } => match desktop(
            Request::TranslateCoordinates { source: window, target: root, x, y },
        ) {
            ReplyView::Translated { x: translated_x, y: translated_y } => placed(
                x,
                y,
                translated_x,
                translated_y,
                width,
                height,
            ),
            _ => WindowPosition::zero(),
        },
        _ => WindowPosition::zero(),
    }
}

/// The record of `window` on `desktop`.
pub open spec fn resolved(desktop: Desktop, window: u32) -> WindowInfoView {
    let process_id = process_of(desktop, window);
    if window == 0 || process_id == 0 {
        WindowInfoView::sentinel()
    } else {
        let path = path_of(desktop, process_id);
        WindowInfoView {
            id: window,
            os: crate::window::os_tag(),
            title: title_of(desktop, window),
            position: position_of(desktop, window),
            info: crate::window::ProcessInfoView {
                process_id,
                path,
                name: class_name_of(desktop, window),
                exec_name: file_name_of(path),
            },
            usage: UsageInfo { memory: memory_of(desktop, process_id) },
            url: None,
        }
    }
}

/// What holds of every record that this backend makes, whatever the desktop
/// answers: the identifier zero is kept for the sentinel; a window has a
/// process; the tag is that of this backend; the file name is that of the
/// path; and what X11 does not tell of is left out.
pub open spec fn is_record(record: WindowInfoView) -> bool {
    &&& record.well_formed()
    &&& record.id != 0 ==> record.info.process_id != 0
    &&& record.os == crate::window::os_tag()
    &&& record.info.exec_name == file_name_of(record.info.path)
    &&& !record.position.is_full_screen
    &&& record.url is None
}

// The resolver, step by step.

impl WindowResolverView {
    /// A resolver that has nothing to resolve.
    pub open spec fn idle() -> Self {
        WindowResolverView {
            window: 0,
            stage: ResolveStage::Done,
            process_atom: ATOM_NONE,
            root: 0,
            x: 0,
            y: 0,
            width: 0,
            height: 0,
            record: WindowInfoView::sentinel(),
        }
    }

    /// A resolver for `window`, before its first request.
    pub open spec fn start(window: u32) -> Self {
        WindowResolverView { window, stage: ResolveStage::ProcessAtom, ..Self::idle() }
    }

    /// The resolver when it has found that the window has no record.
    pub open spec fn give_up(self) -> Self {
        WindowResolverView {
            stage: ResolveStage::Done,
            record: WindowInfoView::sentinel(),
            ..self
        }
    }

    pub open spec fn done(self) -> bool {
        self.stage == ResolveStage::Done
    }

    /// The request that the resolver needs performed; none when it is done.
    pub open spec fn request(self) -> Option<Request> {
        match self.stage {
            ResolveStage::ProcessAtom => Some(Request::InternAtom { hint: Hint::ProcessId }),
            ResolveStage::Process => Some(
                Request::GetProperty {
                    window: self.window,
                    property: self.process_atom,
                    kind: ATOM_ANY,
                    length: 1,
                },
            ),
            ResolveStage::Executable => Some(
                Request::ReadExecutable { process_id: self.record.info.process_id },
            ),
            ResolveStage::Title => Some(
                Request::GetProperty {
                    window: self.window,
                    property: ATOM_WM_NAME,
                    kind: ATOM_ANY,
                    length: WHOLE_VALUE,
                },
            ),
            ResolveStage::Class => Some(
                Request::GetProperty {
                    window: self.window,
                    property: ATOM_WM_CLASS,
                    kind: ATOM_STRING,
                    length: WHOLE_VALUE,
                },
            ),
            ResolveStage::Memory => Some(
                Request::ReadMemory { process_id: self.record.info.process_id },
            ),
            ResolveStage::Geometry => Some(Request::GetGeometry { window: self.window }),
            ResolveStage::Place => Some(
                Request::TranslateCoordinates {
                    source: self.window,
                    target: self.root,
                    x: self.x,
                    y: self.y,
                },
            ),
            ResolveStage::Done => None,
        }
    }

    /// The resolver after the reply to its request.
    pub open spec fn advance(self, reply: ReplyView) -> Self {
        match self.stage {
            ResolveStage::ProcessAtom => if reply.atom() == ATOM_NONE {
                self.give_up()
            } else {
                WindowResolverView {
                    stage: ResolveStage::Process,
                    process_atom: reply.atom(),
                    ..self
                }
            },
            ResolveStage::Process => match reply.first_word() {
                Some(process_id) => if process_id == 0 || self.window == 0 {
                    self.give_up()
                } else {
                    WindowResolverView {
                        stage: ResolveStage::Executable,
                        record: WindowInfoView {
                            id: self.window,
                            info: crate::window::ProcessInfoView {
                                process_id,
                                ..self.record.info
                            },
                            ..self.record
                        },
                        ..self
                    }
                },
                None => self.give_up(),
            },
            ResolveStage::Executable => {
                let path = match reply {
                    ReplyView::Executable { path } => path,
                    _ => Seq::empty(),
                };
                WindowResolverView {
                    stage: ResolveStage::Title,
                    record: WindowInfoView {
                        info: crate::window::ProcessInfoView {
                            path,
                            exec_name: file_name_of(path),
                            ..self.record.info
                        },
                        ..self.record
                    },
                    ..self
                }
            },
            ResolveStage::Title => {
                let title = match reply.bytes() {
                    Some(bytes) => decoded(bytes),
                    None => Seq::empty(),
                };
                WindowResolverView {
                    stage: ResolveStage::Class,
                    record: WindowInfoView { title, ..self.record },
                    ..self
                }
            },
            ResolveStage::Class => {
                let name = match reply.bytes() {
                    Some(bytes) => class_of(bytes),
                    None => Seq::empty(),
                };
                WindowResolverView {
                    stage: ResolveStage::Memory,
                    record: WindowInfoView {
                        info: crate::window::ProcessInfoView { name, ..self.record.info },
                        ..self.record
                    },
                    ..self
                }
            },
            ResolveStage::Memory => {
                let memory = match reply {
                    ReplyView::Memory { line } => match page_count(line) {
                        Some(pages) => pages,
                        None => 0,
                    },
                    _ => 0,
                };
                WindowResolverView {
                    stage: ResolveStage::Geometry,
                    record: WindowInfoView { usage: UsageInfo { memory }, ..self.record },
                    ..self
                }
            },
            ResolveStage::Geometry => match reply {
                ReplyView::Geometry { root, x, y, width, height } => WindowResolverView {
                    stage: ResolveStage::Place,
                    root,
                    x,
                    y,
                    width,
                    height,
                    ..self
                },
                _ => WindowResolverView { stage: ResolveStage::Done, ..self },
            },
            ResolveStage::Place => match reply {
                ReplyView::Translated { x, y } => WindowResolverView {
                    stage: ResolveStage::Done,
                    record: WindowInfoView {
                        position: placed(self.x, self.y, x, y, self.width, self.height),
                        ..self.record
                    },
                    ..self
                },
                _ => WindowResolverView { stage: ResolveStage::Done, ..self },
            },
            ResolveStage::Done => self,
        }
    }

    /// What holds of a resolver however it was driven: its record is a
    /// record of this backend; it is the sentinel as long as no process is
    /// known, and the record of the window at hand from then on until the
    /// resolver is done.
    pub open spec fn sound(self) -> bool {
        &&& is_record(self.record)
        &&& self.record.id != 0 ==> self.record.id == self.window
        &&& match self.stage {
            ResolveStage::ProcessAtom | ResolveStage::Process => self.record
                == WindowInfoView::sentinel(),
            ResolveStage::Done => true,
            _ => self.record.id != 0,
        }
    }

    /// The number of requests that the resolver makes from here on, at the
    /// most.
    pub open spec fn remaining(self) -> nat {
        match self.stage {
            ResolveStage::ProcessAtom => 8,
            ResolveStage::Process => 7,
            ResolveStage::Executable => 6,
            ResolveStage::Title => 5,
            ResolveStage::Class => 4,
            ResolveStage::Memory => 3,
            ResolveStage::Geometry => 2,
            ResolveStage::Place => 1,
            ResolveStage::Done => 0,
        }
    }

    /// The resolver after its request, if it has one, has been answered by
    /// `desktop`.
    pub open spec fn step(self, desktop: Desktop) -> Self {
        match self.request() {
            Some(request) => self.advance(desktop(request)),
            None => self,
        }
    }

    /// The resolver after `count` steps against `desktop`.
    pub open spec fn run(self, desktop: Desktop, count: nat) -> Self
        decreases count,
    {
        if count == 0 {
            self
        } else {
            self.step(desktop).run(desktop, (count - 1) as nat)
        }
    }
}

/// The number of requests after which a resolver is done, at the latest.
pub const RESOLVER_STEPS: usize = 8;

impl View for WindowResolver {
    type V = WindowResolverView;

    closed spec fn view(&self) -> WindowResolverView {
        WindowResolverView {
            window: self.window,
            stage: self.stage,
            process_atom: self.process_atom,
            root: self.root,
            x: self.x,
            y: self.y,
            width: self.width,
            height: self.height,
            record: self.record@,
        }
    }
}

impl WindowResolver {
    /// A resolver that has nothing to resolve: it is done, and its record is
    /// the sentinel.
    pub fn idle() -> (resolver: Self)
        ensures
            resolver@ == WindowResolverView::idle(),
    {
        WindowResolver {
            window: 0,
            stage: ResolveStage::Done,
            process_atom: ATOM_NONE,
            root: 0,
            x: 0,
            y: 0,
            width: 0,
            height: 0,
            record: WindowInfo::sentinel(),
        }
    }

    /// A resolver for `window`.
    pub fn new(window: u32) -> (resolver: Self)
        ensures
            resolver@ == WindowResolverView::start(window),
    {
        WindowResolver {
            window,
            stage: ResolveStage::ProcessAtom,
            process_atom: ATOM_NONE,
            root: 0,
            x: 0,
            y: 0,
            width: 0,
            height: 0,
            record: WindowInfo::sentinel(),
        }
    }

    /// The window that is resolved.
    pub fn window(&self) -> (window: u32)
        ensures
            window == self@.window,
    {
        self.window
    }

    /// Whether the record is complete.
    pub fn is_done(&self) -> (done: bool)
        ensures
            done == self@.done(),
    {
        match self.stage {
            ResolveStage::Done => true,
            _ => false,
        }
    }

    /// The record, as far as it is filled in.
    pub fn record(&self) -> (record: &WindowInfo)
        ensures
            record@ == self@.record,
    {
        &self.record
    }

    /// The record, as far as it is filled in.
    pub fn into_record(self) -> (record: WindowInfo)
        ensures
            record@ == self@.record,
    {
        self.record
    }

    /// The request that the resolver needs performed; none when it is done.
    pub fn request(&self) -> (request: Option<Request>)
        ensures
            request == self@.request(),
    {
        match self.stage {
            ResolveStage::ProcessAtom => Some(Request::InternAtom { hint: Hint::ProcessId }),
            ResolveStage::Process => Some(
                Request::GetProperty {
                    window: self.window,
                    property: self.process_atom,
                    kind: ATOM_ANY,
                    length: 1,
                },
            ),
            ResolveStage::Executable => Some(
                Request::ReadExecutable { process_id: self.record.info.process_id },
            ),
            ResolveStage::Title => Some(
                Request::GetProperty {
                    window: self.window,
                    property: ATOM_WM_NAME,
                    kind: ATOM_ANY,
                    length: WHOLE_VALUE,
                },
            ),
            ResolveStage::Class => Some(
                Request::GetProperty {
                    window: self.window,
                    property: ATOM_WM_CLASS,
                    kind: ATOM_STRING,
                    length: WHOLE_VALUE,
                },
            ),
            ResolveStage::Memory => Some(
                Request::ReadMemory { process_id: self.record.info.process_id },
            ),
            ResolveStage::Geometry => Some(Request::GetGeometry { window: self.window }),
            ResolveStage::Place => Some(
                Request::TranslateCoordinates {
                    source: self.window,
                    target: self.root,
                    x: self.x,
                    y: self.y,
                },
            ),
            ResolveStage::Done => None,
        }
    }

    fn give_up(&mut self)
        ensures
            final(self)@ == old(self)@.give_up(),
    {
        self.stage = ResolveStage::Done;
        self.record = WindowInfo::sentinel();
    }

    /// Takes the reply to the request that the resolver named. A resolver
    /// that is done takes no reply: it stays as it is.
    pub fn advance(&mut self, reply: Reply)
        ensures
            final(self)@ == old(self)@.advance(reply@),
    {
        match self.stage {
            ResolveStage::ProcessAtom => {
                let atom = reply.atom();
                if atom == ATOM_NONE {
                    self.give_up();
                } else {
                    self.process_atom = atom;
                    self.stage = ResolveStage::Process;
                }
            },
            ResolveStage::Process => {
                match reply.first_word() {
                    Some(process_id) => {
                        if process_id == 0 || self.window == 0 {
                            self.give_up();
                        } else {
                            self.record.id = self.window;
                            self.record.info.process_id = process_id;
                            self.stage = ResolveStage::Executable;
                        }
                    },
                    None => {
                        self.give_up();
                    },
                }
            },
            ResolveStage::Executable => {
                let path = match reply {
                    Reply::Executable { path } => path,
                    _ => String::new(),
                };
                self.record.info.exec_name = file_name(path.as_str());
                self.record.info.path = path;
                self.stage = ResolveStage::Title;
            },
            ResolveStage::Title => {
                self.record.title = match reply.into_bytes() {
                    Some(bytes) => decode_text(bytes.as_slice()),
                    None => String::new(),
                };
                self.stage = ResolveStage::Class;
            },
            ResolveStage::Class => {
                self.record.info.name = match reply.into_bytes() {
                    Some(bytes) => class_name(bytes.as_slice()),
                    None => String::new(),
                };
                self.stage = ResolveStage::Memory;
            },
            ResolveStage::Memory => {
                let memory: u32 = match reply {
                    Reply::Memory { line } => match parse_page_count(line.as_slice()) {
                        Some(pages) => pages,
                        None => 0,
                    },
                    _ => 0,
                };
                self.record.usage = UsageInfo { memory };
                self.stage = ResolveStage::Geometry;
            },
            ResolveStage::Geometry => {
                match reply {
                    Reply::Geometry { root, x, y, width, height } => {
                        self.root = root;
                        self.x = x;
                        self.y = y;
                        self.width = width;
                        self.height = height;
                        self.stage = ResolveStage::Place;
                    },
                    _ => {
                        self.stage = ResolveStage::Done;
                    },
                }
            },
            ResolveStage::Place => {
                match reply {
                    Reply::Translated { x, y } => {
                        self.record.position = place(
                            self.x,
                            self.y,
                            x,
                            y,
                            self.width,
                            self.height,
                        );
                    },
                    _ => {},
                }
                self.stage = ResolveStage::Done;
            },
            ResolveStage::Done => {},
        }
    }
}

/// Whatever the replies, a resolver stays sound and comes nearer to its end
/// with each of them.
pub proof fn lemma_resolver_advances(resolver: WindowResolverView, reply: ReplyView)
    requires
        resolver.sound(),
    ensures
        resolver.advance(reply).sound(),
        resolver.advance(reply).window == resolver.window,
        resolver.request() is Some ==> resolver.advance(reply).remaining() < resolver.remaining(),
        resolver.request() is None <==> resolver.remaining() == 0,
        resolver.request() is None <==> resolver.done(),
{
}

/// A resolver is sound from the start.
pub proof fn lemma_resolver_starts_sound(window: u32)
    ensures
        WindowResolverView::idle().sound(),
        WindowResolverView::start(window).sound(),
{
}

/// A resolver that is done stays as it is.
pub proof fn lemma_done_resolver_rests(resolver: WindowResolverView, desktop: Desktop, count: nat)
    requires
        resolver.done(),
    ensures
        resolver.run(desktop, count) == resolver,
    decreases count,
{
    if count > 0 {
        lemma_done_resolver_rests(resolver, desktop, (count - 1) as nat);
    }
}

/// A resolver finds the record of its window: driven against a desktop that
/// does not change, a resolver for `window` is done after `RESOLVER_STEPS`
/// steps at the latest, and its record is then the record of `window` on that
/// desktop.
pub proof fn lemma_resolver_finds_record(desktop: Desktop, window: u32)
    ensures
        WindowResolverView::start(window).run(desktop, RESOLVER_STEPS as nat).done(),
        WindowResolverView::start(window).run(desktop, RESOLVER_STEPS as nat).record == resolved(
            desktop,
            window,
        ),
{
    reveal_with_fuel(WindowResolverView::run, 9);
}

/// The number of requests that a resolver for `window` makes on `desktop`.
pub open spec fn resolve_steps(desktop: Desktop, window: u32) -> nat {
    if desktop(Request::InternAtom { hint: Hint::ProcessId }).atom() == ATOM_NONE {
        1
    } else if resolved(desktop, window).id == 0 {
        2
    } else if desktop(Request::GetGeometry { window }) is Geometry {
        8
    } else {
        7
    }
}

/// A resolver makes `resolve_steps` requests, no more and no fewer: it is
/// done after that many steps, with the record of its window, and not
/// before.
pub proof fn lemma_resolver_takes_its_steps(desktop: Desktop, window: u32)
    ensures
        1 <= resolve_steps(desktop, window) <= RESOLVER_STEPS,
        WindowResolverView::start(window).run(desktop, resolve_steps(desktop, window)).done(),
        WindowResolverView::start(window).run(desktop, resolve_steps(desktop, window)).record
            == resolved(desktop, window),
        WindowResolverView::start(window).run(desktop, resolve_steps(desktop, window)).window
            == window,
        forall|count: nat|
            count < resolve_steps(desktop, window) ==> !(#[trigger] WindowResolverView::start(
                window,
            ).run(desktop, count)).done(),
{
    reveal_with_fuel(WindowResolverView::run, 9);
}

/// The identifier zero is kept for the sentinel: the record of a window has
/// the identifier zero only if it is the sentinel, and otherwise the handle
/// of the window and the process of the window.
pub proof fn lemma_resolved_is_a_record(desktop: Desktop, window: u32)
    ensures
        is_record(resolved(desktop, window)),
        resolved(desktop, window).id != 0 ==> {
            &&& resolved(desktop, window).id == window
            &&& resolved(desktop, window).info.process_id == process_of(desktop, window)
        },
{
}

/// The position of a window is found again exactly: where the display server
/// reports a window of width `width` and height `height` at `(x, y)` of its
/// parent, and translates that point of the window to the point of the root
/// that lies `(x, y)` from `(origin_x, origin_y)`, the position of the window
/// is `(origin_x, origin_y)` with that size, and so is the position in the
/// record of the window if it has one.
pub proof fn lemma_position_is_found_again(
    desktop: Desktop,
    window: u32,
    origin_x: int,
    origin_y: int,
    root: u32,
    x: i16,
    y: i16,
    width: u16,
    height: u16,
)
    requires
        i16::MIN <= origin_x + x <= i16::MAX,
        i16::MIN <= origin_y + y <= i16::MAX,
        desktop(Request::GetGeometry { window }) == (ReplyView::Geometry {
            root,
            x,
            y,
            width,
            height,
        }),
        desktop(Request::TranslateCoordinates { source: window, target: root, x, y }) == (
        ReplyView::Translated { x: (origin_x + x) as i16, y: (origin_y + y) as i16 }),
    ensures
        position_of(desktop, window) == (WindowPosition {
            x: origin_x as i32,
            y: origin_y as i32,
            width: width as i32,
            height: height as i32,
            is_full_screen: false,
        }),
        position_of(desktop, window).x == origin_x,
        position_of(desktop, window).y == origin_y,
        resolved(desktop, window).id != 0 ==> resolved(desktop, window).position == position_of(
            desktop,
            window,
        ),
{
    crate::geometry::lemma_position_round_trip(origin_x, origin_y, x, y, width, height);
}

/// Two looks at one window agree but for the memory: on two desktops that
/// answer every request alike, except that the memory statistics of a process
/// may have moved, the records of a window are equal in every field but
/// `usage`.
pub proof fn lemma_resolved_twice(first: Desktop, second: Desktop, window: u32)
    requires
        forall|request: Request|
            !(request is ReadMemory) ==> #[trigger] first(request) == second(request),
    ensures
        resolved(first, window) == (WindowInfoView {
            usage: resolved(first, window).usage,
            ..resolved(second, window)
        }),
{
    let atom_request = Request::InternAtom { hint: Hint::ProcessId };
    assert(first(atom_request) == second(atom_request));
    let atom = first(atom_request).atom();
    let process_request = Request::GetProperty {
        window,
        property: atom,
        kind: ATOM_ANY,
        length: 1,
    };
    assert(first(process_request) == second(process_request));
    let process_id = process_of(first, window);
    assert(process_id == process_of(second, window));
    let executable = Request::ReadExecutable { process_id };
    assert(first(executable) == second(executable));
    let title = Request::GetProperty {
        window,
        property: ATOM_WM_NAME,
        kind: ATOM_ANY,
        length: WHOLE_VALUE,
    };
    assert(first(title) == second(title));
    let class = Request::GetProperty {
        window,
        property: ATOM_WM_CLASS,
        kind: ATOM_STRING,
        length: WHOLE_VALUE,
    };
    assert(first(class) == second(class));
    let geometry = Request::GetGeometry { window };
    assert(first(geometry) == second(geometry));
    match first(geometry) {
        ReplyView::Geometry { root, x, y, width, height } => {
            let translate = Request::TranslateCoordinates { source: window, target: root, x, y };
            assert(first(translate) == second(translate));
        },
        _ => {},
    }
}


} // verus!
