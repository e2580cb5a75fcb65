//! The requests that a query makes and the replies that it takes.
//!
//! A query never performs a request. It names the request that it needs next
//! and is advanced with the reply. Whoever drives the query performs the
//! request: against the display server for the first five kinds, against the
//! process table for the last two. A request that fails, for whatever reason,
//! is answered with [`Reply::Failed`], and so is one whose answer has no place
//! in [`Reply`]; a query treats a reply of a kind that it did not ask for as
//! it treats a failure.

use vstd::prelude::*;

verus! {

/// The atom that stands for "no atom".
pub const ATOM_NONE: u32 = 0;

/// The type that matches a property of any type.
pub const ATOM_ANY: u32 = 0;

/// The predefined atom `ATOM`.
pub const ATOM_ATOM: u32 = 4;

/// The predefined atom `STRING`.
pub const ATOM_STRING: u32 = 31;

/// The predefined atom `WINDOW`.
pub const ATOM_WINDOW: u32 = 33;

/// The predefined atom `WM_NAME`.
pub const ATOM_WM_NAME: u32 = 39;

/// The predefined atom `WM_CLASS`.
pub const ATOM_WM_CLASS: u32 = 67;

/// The length to ask for when the whole value of a property is wanted.
pub const WHOLE_VALUE: u32 = 0xffff_ffff;

/// The hints of a window manager that the queries read.
#[derive(Clone, Copy, Debug, PartialEq, Eq, Structural)]
pub enum Hint {
    /// `_NET_ACTIVE_WINDOW`: on the root window, the window that has the
    /// focus.
    ActiveWindow,
    /// `_NET_CLIENT_LIST_STACKING`: on the root window, the windows that the
    /// window manager manages, in stacking order.
    ClientListStacking,
    /// `_NET_WM_PID`: on a window, the process that owns it.
    ProcessId,
    /// `_NET_WM_WINDOW_TYPE`: on a window, the types that it has.
    WindowType,
    /// `_NET_WM_WINDOW_TYPE_NORMAL`: the type of an ordinary window.
    WindowTypeNormal,
}

impl Hint {
    /// The name under which the display server knows the atom of the hint.
    pub open spec fn spec_name(self) -> Seq<char> {
        match self {
            Hint::ActiveWindow => "_NET_ACTIVE_WINDOW"@,
            Hint::ClientListStacking => "_NET_CLIENT_LIST_STACKING"@,
            Hint::ProcessId => "_NET_WM_PID"@,
            Hint::WindowType => "_NET_WM_WINDOW_TYPE"@,
            Hint::WindowTypeNormal => "_NET_WM_WINDOW_TYPE_NORMAL"@,
        }
    }

    /// The name under which the display server knows the atom of the hint.
    pub fn name(&self) -> (name: &'static str)
        ensures
            name@ == self.spec_name(),
    {
        match self {
            Hint::ActiveWindow => "_NET_ACTIVE_WINDOW",
            Hint::ClientListStacking => "_NET_CLIENT_LIST_STACKING",
            Hint::ProcessId => "_NET_WM_PID",
            Hint::WindowType => "_NET_WM_WINDOW_TYPE",
            Hint::WindowTypeNormal => "_NET_WM_WINDOW_TYPE_NORMAL",
        }
    }
}

/// A request that a query needs performed.
#[derive(Clone, Copy, Debug, PartialEq, Eq, Structural)]
pub enum Request {
    /// Open a connection to the display server and list the root windows of
    /// its screens, in the order in which the server advertises them.
    Connect,
    /// Look up the atom of a hint. The atom is not created if the server does
    /// not know it: the answer is then `ATOM_NONE`.
    InternAtom { hint: Hint },
    /// Read up to `length` 32-bit units of the property `property` of
    /// `window`, if it has the type `kind`. The property is not deleted.
    GetProperty { window: u32, property: u32, kind: u32, length: u32 },
    /// Read the geometry of `window`.
    GetGeometry { window: u32 },
    /// Translate the point `(x, y)` of `source` into the coordinates of
    /// `target`.
    TranslateCoordinates { source: u32, target: u32, x: i16, y: i16 },
    /// Read the path of the executable of a process.
    ReadExecutable { process_id: u32 },
    /// Read the memory statistics of a process.
    ReadMemory { process_id: u32 },
}

/// The value of a property: a list of items of 8, 16 or 32 bits.
#[derive(Debug, PartialEq, Eq)]
pub enum PropertyValue {
    Bytes(Vec<u8>),
    Halves(Vec<u16>),
    Words(Vec<u32>),
}

/// What `PropertyValue` holds.
pub enum PropertyValueView {
    Bytes(Seq<u8>),
    Halves(Seq<u16>),
    Words(Seq<u32>),
}

impl View for PropertyValue {
    type V = PropertyValueView;

    open spec fn view(&self) -> PropertyValueView {
        match self {
            PropertyValue::Bytes(items) => PropertyValueView::Bytes(items@),
            PropertyValue::Halves(items) => PropertyValueView::Halves(items@),
            PropertyValue::Words(items) => PropertyValueView::Words(items@),
        }
    }
}

impl PropertyValueView {
    /// The number of items.
    pub open spec fn len(self) -> nat {
        match self {
            PropertyValueView::Bytes(items) => items.len(),
            PropertyValueView::Halves(items) => items.len(),
            PropertyValueView::Words(items) => items.len(),
        }
    }

    /// The value as a list of bytes, if it is one. A value without items is
    /// an empty list of any width.
    pub open spec fn bytes(self) -> Option<Seq<u8>> {
        match self {
            PropertyValueView::Bytes(items) => Some(items),
            _ => if self.len() == 0 {
                Some(Seq::empty())
            } else {
                None
            },
        }
    }

    /// The value as a list of 32-bit words, if it is one. A value without
    /// items is an empty list of any width.
    pub open spec fn words(self) -> Option<Seq<u32>> {
        match self {
            PropertyValueView::Words(items) => Some(items),
            _ => if self.len() == 0 {
                Some(Seq::empty())
            } else {
                None
            },
        }
    }
}

/// The reply to a request.
#[derive(Debug, PartialEq, Eq)]
pub enum Reply {
    /// The request failed, or its answer did not arrive.
    Failed,
    /// To `Connect`: the root windows.
    Connected { roots: Vec<u32> },
    /// To `InternAtom`: the atom, or `ATOM_NONE`.
    Atom { atom: u32 },
    /// To `GetProperty`: the value that was read. A property that the window
    /// does not have, or has with another type, reads as a value without
    /// items.
    Property { value: PropertyValue },
    /// To `GetGeometry`: the root of the window, the position of the window
    /// in its parent, and its size.
    Geometry { root: u32, x: i16, y: i16, width: u16, height: u16 },
    /// To `TranslateCoordinates`: the point in the coordinates of the target.
    Translated { x: i16, y: i16 },
    /// To `ReadExecutable`: the path.
    Executable { path: String },
    /// To `ReadMemory`: the statistics, as they stand in the process table.
    Memory { line: Vec<u8> },
}

/// What `Reply` holds.
pub enum ReplyView {
    Failed,
    Connected { roots: Seq<u32> },
    Atom { atom: u32 },
    Property { value: PropertyValueView },
    Geometry { root: u32, x: i16, y: i16, width: u16, height: u16 },
    Translated { x: i16, y: i16 },
    Executable { path: Seq<char> },
    Memory { line: Seq<u8> },
}

impl View for Reply {
    type V = ReplyView;

    open spec fn view(&self) -> ReplyView {
        match self {
            Reply::Failed => ReplyView::Failed,
            Reply::Connected { roots } => ReplyView::Connected { roots: roots@ },
            Reply::Atom { atom } => ReplyView::Atom { atom: *atom },
            Reply::Property { value } => ReplyView::Property { value: value@ },
            Reply::Geometry { root, x, y, width, height } => ReplyView::Geometry {
                root: *root,
                x: *x,
                y: *y,
                width: *width,
                height: *height,
            },
            Reply::Translated { x, y } => ReplyView::Translated { x: *x, y: *y },
            Reply::Executable { path } => ReplyView::Executable { path: path@ },
            Reply::Memory { line } => ReplyView::Memory { line: line@ },
        }
    }
}

impl ReplyView {
    /// The first root window that the reply advertises.
    pub open spec fn first_root(self) -> Option<u32> {
        match self {
            ReplyView::Connected { roots } => if roots.len() > 0 {
                Some(roots[0])
            } else {
                None
            },
            _ => None,
        }
    }

    /// The atom that the reply holds; `ATOM_NONE` if it holds none.
    pub open spec fn atom(self) -> u32 {
        match self {
            ReplyView::Atom { atom } => atom,
            _ => ATOM_NONE,
        }
    }

    /// The bytes of the property that the reply holds.
    pub open spec fn bytes(self) -> Option<Seq<u8>> {
        match self {
            ReplyView::Property { value } => value.bytes(),
            _ => None,
        }
    }

    /// The words of the property that the reply holds.
    pub open spec fn words(self) -> Option<Seq<u32>> {
        match self {
            ReplyView::Property { value } => value.words(),
            _ => None,
        }
    }

    /// The first word of the property that the reply holds.
    pub open spec fn first_word(self) -> Option<u32> {
        match self.words() {
            Some(words) => if words.len() > 0 {
                Some(words[0])
            } else {
                None
            },
            None => None,
        }
    }
}

/// What a display server and a process table answer, request by request.
///
/// A desktop whose state does not change answers a request in the same way
/// whenever it is made, and that is all that the laws of the queries ask of
/// it.
pub type Desktop = spec_fn(Request) -> ReplyView;

impl PropertyValue {
    /// The value as a list of bytes, if it is one.
    pub fn into_bytes(self) -> (bytes: Option<Vec<u8>>)
        ensures
            match bytes {
                Some(bytes) => self@.bytes() == Some(bytes@),
                None => self@.bytes() is None,
            },
    {
        match self {
            PropertyValue::Bytes(items) => Some(items),
            PropertyValue::Halves(items) => if items.len() == 0 {
                Some(Vec::new())
            } else {
                None
            },
            PropertyValue::Words(items) => if items.len() == 0 {
                Some(Vec::new())
            } else {
                None
            },
        }
    }

    /// The value as a list of 32-bit words, if it is one.
    pub fn into_words(self) -> (words: Option<Vec<u32>>)
        ensures
            match words {
                Some(words) => self@.words() == Some(words@),
                None => self@.words() is None,
            },
    {
        match self {
            PropertyValue::Words(items) => Some(items),
            PropertyValue::Halves(items) => if items.len() == 0 {
                Some(Vec::new())
            } else {
                None
            },
            PropertyValue::Bytes(items) => if items.len() == 0 {
                Some(Vec::new())
            } else {
                None
            },
        }
    }
}

impl Reply {
    /// The first root window that the reply advertises.
    pub fn first_root(&self) -> (root: Option<u32>)
        ensures
            root == self@.first_root(),
    {
        match self {
            Reply::Connected { roots } => if roots.len() > 0 {
                Some(roots[0])
            } else {
                None
            },
            _ => None,
        }
    }

    /// The atom that the reply holds; `ATOM_NONE` if it holds none.
    pub fn atom(&self) -> (atom: u32)
        ensures
            atom == self@.atom(),
    {
        match self {
            Reply::Atom { atom } => *atom,
            _ => ATOM_NONE,
        }
    }

    /// The bytes of the property that the reply holds.
    pub fn into_bytes(self) -> (bytes: Option<Vec<u8>>)
        ensures
            match bytes {
                Some(bytes) => self@.bytes() == Some(bytes@),
                None => self@.bytes() is None,
            },
    {
        match self {
            Reply::Property { value } => value.into_bytes(),
            _ => None,
        }
    }

    /// The words of the property that the reply holds.
    pub fn into_words(self) -> (words: Option<Vec<u32>>)
        ensures
            match words {
                Some(words) => self@.words() == Some(words@),
                None => self@.words() is None,
            },
    {
        match self {
            Reply::Property { value } => value.into_words(),
            _ => None,
        }
    }

    /// The first word of the property that the reply holds.
    pub fn first_word(self) -> (word: Option<u32>)
        ensures
            word == self@.first_word(),
    {
        match self.into_words() {
            Some(words) => if words.len() > 0 {
                Some(words[0])
            } else {
                None
            },
            None => None,
        }
    }
}

} // verus!
