//! The records that describe one window.
//!
//! The records are plain values: a query builds them afresh and hands them to
//! its caller. Text fields are `String`s, so each record that holds text has a
//! view in which the text is a sequence of characters; contracts speak of the
//! views.

use vstd::prelude::*;

verus! {

/// Position and size of a window, in the coordinates of its root window.
#[derive(Clone, Copy, Debug, PartialEq, Eq, Structural)]
pub struct WindowPosition {
    pub x: i32,
    pub y: i32,
    pub width: i32,
    pub height: i32,
    pub is_full_screen: bool,
}

impl WindowPosition {
    pub fn new(x: i32, y: i32, width: i32, height: i32, is_full_screen: bool) -> (position: Self)
        ensures
            position == (WindowPosition { x, y, width, height, is_full_screen }),
    {
        Self { x, y, width, height, is_full_screen }
    }

    /// The position of a window of which no geometry is known.
    pub open spec fn zero() -> Self {
        WindowPosition { x: 0, y: 0, width: 0, height: 0, is_full_screen: false }
    }
}

impl Default for WindowPosition {
    fn default() -> (position: Self)
        ensures
            position == WindowPosition::zero(),
    {
        WindowPosition::new(0, 0, 0, 0, false)
    }
}

/// Resource usage of the process that owns a window.
///
/// `memory` is counted in pages.
#[derive(Clone, Copy, Debug, PartialEq, Eq, Structural)]
pub struct UsageInfo {
    pub memory: u32,
}

/// The process that owns a window.
#[derive(Debug, PartialEq, Eq)]
pub struct ProcessInfo {
    pub process_id: u32,
    /// Absolute path of the executable, or empty.
    pub path: String,
    /// Class name of the window, or empty.
    pub name: String,
    /// File name of the executable, or empty.
    pub exec_name: String,
}

/// What `ProcessInfo` holds, with its text as sequences of characters.
pub struct ProcessInfoView {
    pub process_id: u32,
    pub path: Seq<char>,
    pub name: Seq<char>,
    pub exec_name: Seq<char>,
}

impl ProcessInfoView {
    /// No process: identifier zero and no text.
    pub open spec fn empty() -> Self {
        ProcessInfoView { process_id: 0, path: Seq::empty(), name: Seq::empty(), exec_name: Seq::empty() }
    }
}

impl View for ProcessInfo {
    type V = ProcessInfoView;

    open spec fn view(&self) -> ProcessInfoView {
        ProcessInfoView {
            process_id: self.process_id,
            path: self.path@,
            name: self.name@,
            exec_name: self.exec_name@,
        }
    }
}

impl Clone for ProcessInfo {
    fn clone(&self) -> (copy: Self)
        ensures
            copy@ == self@,
    {
        ProcessInfo {
            process_id: self.process_id,
            path: self.path.clone(),
            name: self.name.clone(),
            exec_name: self.exec_name.clone(),
        }
    }
}

/// One window, as every query reports it.
///
/// The identifier zero stands for "no window": a record with that identifier
/// is the sentinel, in which every field but `os` is zero or empty.
#[derive(Debug, PartialEq, Eq)]
pub struct WindowInfo {
    pub id: u32,
    pub os: String,
    pub title: String,
    pub position: WindowPosition,
    pub info: ProcessInfo,
    pub usage: UsageInfo,
    pub url: Option<String>,
}

/// What `WindowInfo` holds, with its text as sequences of characters.
pub struct WindowInfoView {
    pub id: u32,
    pub os: Seq<char>,
    pub title: Seq<char>,
    pub position: WindowPosition,
    pub info: ProcessInfoView,
    pub usage: UsageInfo,
    pub url: Option<Seq<char>>,
}

/// The tag that this backend writes into every record.
pub open spec fn os_tag() -> Seq<char> {
    "linux"@
}

impl WindowInfoView {
    /// The record that stands for "no window".
    pub open spec fn sentinel() -> Self {
        WindowInfoView {
            id: 0,
            os: os_tag(),
            title: Seq::empty(),
            position: WindowPosition::zero(),
            info: ProcessInfoView::empty(),
            usage: UsageInfo { memory: 0 },
            url: None,
        }
    }

    /// The identifier zero is kept for the sentinel.
    pub open spec fn well_formed(self) -> bool {
        self.id == 0 ==> self == Self::sentinel()
    }
}

impl View for WindowInfo {
    type V = WindowInfoView;

    open spec fn view(&self) -> WindowInfoView {
        WindowInfoView {
            id: self.id,
            os: self.os@,
            title: self.title@,
            position: self.position,
            info: self.info@,
            usage: self.usage,
            url: match self.url {
                Some(url) => Some(url@),
                None => None,
            },
        }
    }
}

impl Clone for WindowInfo {
    fn clone(&self) -> (copy: Self)
        ensures
            copy@ == self@,
    {
        WindowInfo {
            id: self.id,
            os: self.os.clone(),
            title: self.title.clone(),
            position: self.position,
            info: self.info.clone(),
            usage: self.usage,
            url: match &self.url {
                Some(url) => Some(url.clone()),
                None => None,
            },
        }
    }
}

impl WindowInfo {
    /// The record that stands for "no window".
    pub fn sentinel() -> (record: Self)
        ensures
            record@ == WindowInfoView::sentinel(),
    {
        WindowInfo {
            id: 0,
            os: os_name(),
            title: String::new(),
            position: WindowPosition::new(0, 0, 0, 0, false),
            info: ProcessInfo {
                process_id: 0,
                path: String::new(),
                name: String::new(),
                exec_name: String::new(),
            },
            usage: UsageInfo { memory: 0 },
            url: None,
        }
    }
}

/// The tag of this backend.
pub fn os_name() -> (name: String)
    ensures
        name@ == os_tag(),
{
    "linux".to_owned()
}

} // verus!
