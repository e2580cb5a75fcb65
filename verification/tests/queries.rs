use x_win::active_window::{ActiveWindowTask, ACTIVE_WINDOW_STEPS};
use x_win::api::{init_platform_api, WindowSystem, X11Api, API};
use x_win::open_windows::{contains_word, OpenWindowsTask, WINDOW_STEPS};
use x_win::protocol::{
    Hint, PropertyValue, Reply, Request, ATOM_ANY, ATOM_ATOM, ATOM_STRING, ATOM_WINDOW,
    ATOM_WM_CLASS, ATOM_WM_NAME, WHOLE_VALUE,
};
use x_win::resolver::{WindowResolver, RESOLVER_STEPS};
use x_win::window::{UsageInfo, WindowInfo, WindowPosition};

const ROOT: u32 = 0x100;
const CARDINAL: u32 = 6;

const ACTIVE_WINDOW: u32 = 301;
const CLIENT_LIST_STACKING: u32 = 302;
const PROCESS_ID: u32 = 303;
const WINDOW_TYPE: u32 = 304;
const WINDOW_TYPE_NORMAL: u32 = 305;
const WINDOW_TYPE_DOCK: u32 = 306;

/// One window of the simulated display server.
struct Window {
    id: u32,
    process_id: Option<u32>,
    title: Option<Vec<u8>>,
    class: Option<Vec<u8>>,
    types: Option<Vec<u32>>,
    /// Where the origin of the window lies on the root.
    origin: (i16, i16),
    /// Where the window lies in its parent.
    in_parent: (i16, i16),
    size: (u16, u16),
    has_geometry: bool,
    translates: bool,
}

struct Process {
    id: u32,
    path: Option<&'static str>,
    memory: Option<&'static [u8]>,
}

/// A display server and a process table that answer from what they hold, and
/// keep the requests that were made.
struct Desk {
    reachable: bool,
    roots: Vec<u32>,
    missing: Vec<Hint>,
    active: Option<Vec<u32>>,
    stacking: Option<Vec<u32>>,
    windows: Vec<Window>,
    processes: Vec<Process>,
    log: Vec<Request>,
}

fn atom_of(hint: Hint) -> u32 {
    match hint {
        Hint::ActiveWindow => ACTIVE_WINDOW,
        Hint::ClientListStacking => CLIENT_LIST_STACKING,
        Hint::ProcessId => PROCESS_ID,
        Hint::WindowType => WINDOW_TYPE,
        Hint::WindowTypeNormal => WINDOW_TYPE_NORMAL,
    }
}

fn empty_value() -> Reply {
    Reply::Property { value: PropertyValue::Bytes(Vec::new()) }
}

fn words(kind: u32, asked: u32, length: u32, items: &Option<Vec<u32>>) -> Reply {
    match items {
        Some(items) if asked == ATOM_ANY || asked == kind => {
            let count = items.len().min(length as usize);
            if count == 0 {
                empty_value()
            } else {
                Reply::Property { value: PropertyValue::Words(items[..count].to_vec()) }
            }
        }
        _ => empty_value(),
    }
}

fn bytes(kind: u32, asked: u32, length: u32, items: &Option<Vec<u8>>) -> Reply {
    match items {
        Some(items) if asked == ATOM_ANY || asked == kind => {
            let count = items.len().min((length as usize).saturating_mul(4));
            Reply::Property { value: PropertyValue::Bytes(items[..count].to_vec()) }
        }
        _ => empty_value(),
    }
}

impl Desk {
    fn known(&self, hint: Hint) -> bool {
        !self.missing.contains(&hint)
    }

    fn property(&self, window: u32, property: u32, kind: u32, length: u32) -> Reply {
        if window == ROOT {
            if property == ACTIVE_WINDOW && self.known(Hint::ActiveWindow) {
                return words(ATOM_WINDOW, kind, length, &self.active);
            }
            if property == CLIENT_LIST_STACKING && self.known(Hint::ClientListStacking) {
                return words(ATOM_WINDOW, kind, length, &self.stacking);
            }
            return empty_value();
        }
        let window = match self.windows.iter().find(|candidate| candidate.id == window) {
            Some(window) => window,
            None => return Reply::Failed,
        };
        if property == PROCESS_ID {
            words(CARDINAL, kind, length, &window.process_id.map(|id| vec![id]))
        } else if property == WINDOW_TYPE {
            words(ATOM_ATOM, kind, length, &window.types)
        } else if property == ATOM_WM_NAME {
            bytes(ATOM_STRING, kind, length, &window.title)
        } else if property == ATOM_WM_CLASS {
            bytes(ATOM_STRING, kind, length, &window.class)
        } else {
            empty_value()
        }
    }
}

impl WindowSystem for Desk {
    fn perform(&mut self, request: Request) -> Reply {
        self.log.push(request);
        match request {
            Request::Connect => {
                if self.reachable {
                    Reply::Connected { roots: self.roots.clone() }
                } else {
                    Reply::Failed
                }
            }
            Request::InternAtom { hint } => {
                Reply::Atom { atom: if self.known(hint) { atom_of(hint) } else { 0 } }
            }
            Request::GetProperty { window, property, kind, length } => {
                self.property(window, property, kind, length)
            }
            Request::GetGeometry { window } => {
                match self.windows.iter().find(|candidate| candidate.id == window) {
                    Some(window) if window.has_geometry => Reply::Geometry {
                        root: ROOT,
                        x: window.in_parent.0,
                        y: window.in_parent.1,
                        width: window.size.0,
                        height: window.size.1,
                    },
                    _ => Reply::Failed,
                }
            }
            Request::TranslateCoordinates { source, target, x, y } => {
                match self.windows.iter().find(|candidate| candidate.id == source) {
                    Some(window) if window.translates && target == ROOT => {
                        Reply::Translated { x: window.origin.0 + x, y: window.origin.1 + y }
                    }
                    _ => Reply::Failed,
                }
            }
            Request::ReadExecutable { process_id } => {
                match self.processes.iter().find(|process| process.id == process_id) {
                    Some(Process { path: Some(path), .. }) => {
                        Reply::Executable { path: path.to_string() }
                    }
                    _ => Reply::Failed,
                }
            }
            Request::ReadMemory { process_id } => {
                match self.processes.iter().find(|process| process.id == process_id) {
                    Some(Process { memory: Some(line), .. }) => {
                        Reply::Memory { line: line.to_vec() }
                    }
                    _ => Reply::Failed,
                }
            }
        }
    }
}

fn editor() -> Window {
    Window {
        id: 0x2a00007,
        process_id: Some(4711),
        title: Some(b"notes.txt - Editor".to_vec()),
        class: Some(b"editor\0Editor\0".to_vec()),
        types: Some(vec![WINDOW_TYPE_NORMAL]),
        origin: (120, 80),
        in_parent: (2, 25),
        size: (800, 600),
        has_geometry: true,
        translates: true,
    }
}

fn browser() -> Window {
    Window {
        id: 0x3c00001,
        process_id: Some(815),
        title: Some("Caf\u{e9} \u{2014} Browser".as_bytes().to_vec()),
        class: Some(b"Navigator\0Browser\0".to_vec()),
        types: Some(vec![WINDOW_TYPE_DOCK, WINDOW_TYPE_NORMAL]),
        origin: (-30, 0),
        in_parent: (0, 0),
        size: (1280, 1024),
        has_geometry: true,
        translates: true,
    }
}

fn panel() -> Window {
    Window {
        id: 0x1000003,
        process_id: Some(600),
        title: Some(b"panel".to_vec()),
        class: Some(b"panel\0Panel\0".to_vec()),
        types: Some(vec![WINDOW_TYPE_DOCK]),
        origin: (0, 0),
        in_parent: (0, 0),
        size: (1920, 30),
        has_geometry: true,
        translates: true,
    }
}

fn orphan() -> Window {
    Window {
        id: 0x4400002,
        process_id: None,
        title: Some(b"orphan".to_vec()),
        class: None,
        types: Some(vec![WINDOW_TYPE_NORMAL]),
        origin: (5, 5),
        in_parent: (5, 5),
        size: (10, 10),
        has_geometry: true,
        translates: true,
    }
}

fn desk() -> Desk {
    Desk {
        reachable: true,
        roots: vec![ROOT, 0x200],
        missing: Vec::new(),
        active: Some(vec![editor().id]),
        stacking: Some(vec![panel().id, browser().id, orphan().id, editor().id]),
        windows: vec![editor(), browser(), panel(), orphan()],
        processes: vec![
            Process { id: 4711, path: Some("/usr/bin/editor"), memory: Some(b"2048 512 3 4 0 5 0\n") },
            Process { id: 815, path: Some("/opt/browser/bin/browser"), memory: Some(b"900000 1 1 1 0 1 0\n") },
            Process { id: 600, path: Some("/usr/libexec/panel"), memory: Some(b"10 1 1 1 0 1 0\n") },
        ],
        log: Vec::new(),
    }
}

fn editor_record() -> WindowInfo {
    let mut record = WindowInfo::sentinel();
    record.id = 0x2a00007;
    record.title = "notes.txt - Editor".to_string();
    record.position = WindowPosition::new(120, 80, 800, 600, false);
    record.info.process_id = 4711;
    record.info.path = "/usr/bin/editor".to_string();
    record.info.name = "Editor".to_string();
    record.info.exec_name = "editor".to_string();
    record.usage = UsageInfo { memory: 2048 };
    record
}

fn browser_record() -> WindowInfo {
    let mut record = WindowInfo::sentinel();
    record.id = 0x3c00001;
    record.title = "Caf\u{e9} \u{2014} Browser".to_string();
    record.position = WindowPosition::new(-30, 0, 1280, 1024, false);
    record.info.process_id = 815;
    record.info.path = "/opt/browser/bin/browser".to_string();
    record.info.name = "Browser".to_string();
    record.info.exec_name = "browser".to_string();
    record.usage = UsageInfo { memory: 900000 };
    record
}

#[test]
fn active_window_is_the_window_that_the_hint_names() {
    let mut desk = desk();
    assert_eq!(X11Api {}.get_active_window(&mut desk), editor_record());
}

#[test]
fn active_window_asks_in_the_order_of_the_protocol() {
    let mut desk = desk();
    X11Api {}.get_active_window(&mut desk);
    let window = editor().id;
    assert_eq!(
        desk.log,
        vec![
            Request::Connect,
            Request::InternAtom { hint: Hint::ActiveWindow },
            Request::GetProperty { window: ROOT, property: ACTIVE_WINDOW, kind: ATOM_WINDOW, length: 1 },
            Request::InternAtom { hint: Hint::ProcessId },
            Request::GetProperty { window, property: PROCESS_ID, kind: ATOM_ANY, length: 1 },
            Request::ReadExecutable { process_id: 4711 },
            Request::GetProperty { window, property: ATOM_WM_NAME, kind: ATOM_ANY, length: WHOLE_VALUE },
            Request::GetProperty { window, property: ATOM_WM_CLASS, kind: ATOM_STRING, length: WHOLE_VALUE },
            Request::ReadMemory { process_id: 4711 },
            Request::GetGeometry { window },
            Request::TranslateCoordinates { source: window, target: ROOT, x: 2, y: 25 },
        ]
    );
    assert_eq!(desk.log.len(), ACTIVE_WINDOW_STEPS);
}

#[test]
fn active_window_position_is_the_origin_on_the_root() {
    for (origin, in_parent, size) in [
        ((0i16, 0i16), (0i16, 0i16), (1u16, 1u16)),
        ((300, 200), (4, 30), (640, 480)),
        ((-100, -50), (1, 1), (65535, 1)),
        ((32000, -32000), (700, -700), (0, 0)),
    ] {
        let mut desk = desk();
        desk.windows[0].origin = origin;
        desk.windows[0].in_parent = in_parent;
        desk.windows[0].size = size;
        let record = X11Api {}.get_active_window(&mut desk);
        assert_eq!(
            record.position,
            WindowPosition::new(origin.0 as i32, origin.1 as i32, size.0 as i32, size.1 as i32, false)
        );
    }
}

#[test]
fn active_window_without_connection_is_the_sentinel() {
    let mut desk = desk();
    desk.reachable = false;
    assert_eq!(X11Api {}.get_active_window(&mut desk), WindowInfo::sentinel());
    assert_eq!(desk.log, vec![Request::Connect]);
}

#[test]
fn active_window_without_root_is_the_sentinel() {
    let mut desk = desk();
    desk.roots.clear();
    assert_eq!(X11Api {}.get_active_window(&mut desk), WindowInfo::sentinel());
    assert_eq!(desk.log, vec![Request::Connect]);
}

#[test]
fn active_window_without_hint_atom_is_the_sentinel() {
    let mut desk = desk();
    desk.missing.push(Hint::ActiveWindow);
    let record = X11Api {}.get_active_window(&mut desk);
    assert_eq!(record, WindowInfo::sentinel());
    assert_eq!(record.id, 0);
    assert_eq!(desk.log, vec![Request::Connect, Request::InternAtom { hint: Hint::ActiveWindow }]);
}

#[test]
fn active_window_with_an_empty_hint_is_the_sentinel() {
    let mut desk = desk();
    desk.active = None;
    assert_eq!(X11Api {}.get_active_window(&mut desk), WindowInfo::sentinel());
    desk.active = Some(Vec::new());
    assert_eq!(X11Api {}.get_active_window(&mut desk), WindowInfo::sentinel());
}

#[test]
fn active_window_takes_the_first_root_and_the_first_window() {
    let mut desk = desk();
    desk.roots = vec![ROOT, 0x200, 0x300];
    desk.active = Some(vec![browser().id, editor().id]);
    assert_eq!(X11Api {}.get_active_window(&mut desk), browser_record());
}

#[test]
fn window_without_process_is_the_sentinel() {
    let mut desk = desk();
    desk.active = Some(vec![orphan().id]);
    assert_eq!(X11Api {}.get_active_window(&mut desk), WindowInfo::sentinel());
    // Nothing is asked about a window once it is known to have no process.
    assert_eq!(desk.log.len(), 5);
}

#[test]
fn window_with_process_zero_is_the_sentinel() {
    let mut desk = desk();
    desk.windows[0].process_id = Some(0);
    assert_eq!(X11Api {}.get_active_window(&mut desk), WindowInfo::sentinel());
}

#[test]
fn window_that_is_gone_is_the_sentinel() {
    let mut desk = desk();
    desk.active = Some(vec![0x5500009]);
    assert_eq!(X11Api {}.get_active_window(&mut desk), WindowInfo::sentinel());
}

#[test]
fn the_null_window_is_the_sentinel() {
    let mut desk = desk();
    desk.active = Some(vec![0]);
    let mut null = editor();
    null.id = 0;
    desk.windows.push(null);
    assert_eq!(X11Api {}.get_active_window(&mut desk), WindowInfo::sentinel());
}

#[test]
fn window_manager_without_process_hint_has_no_windows() {
    let mut desk = desk();
    desk.missing.push(Hint::ProcessId);
    assert_eq!(X11Api {}.get_active_window(&mut desk), WindowInfo::sentinel());
    assert_eq!(desk.log.len(), 4);
    assert_eq!(X11Api {}.get_open_windows(&mut desk), Vec::<WindowInfo>::new());
}

#[test]
fn process_identifier_of_another_width_is_no_process() {
    let mut task = ActiveWindowTask::new();
    task.advance(Reply::Connected { roots: vec![ROOT] });
    task.advance(Reply::Atom { atom: ACTIVE_WINDOW });
    task.advance(Reply::Property { value: PropertyValue::Words(vec![77]) });
    task.advance(Reply::Atom { atom: PROCESS_ID });
    task.advance(Reply::Property { value: PropertyValue::Bytes(vec![1, 0, 0, 0]) });
    assert_eq!(task.request(), None);
    assert_eq!(task.into_result(), Some(WindowInfo::sentinel()));
}

#[test]
fn what_is_missing_of_a_window_stays_empty() {
    let mut desk = desk();
    desk.windows[0].title = None;
    desk.windows[0].class = None;
    desk.processes[0].path = None;
    desk.processes[0].memory = None;
    desk.windows[0].has_geometry = false;
    let mut expected = WindowInfo::sentinel();
    expected.id = editor().id;
    expected.info.process_id = 4711;
    assert_eq!(X11Api {}.get_active_window(&mut desk), expected);
    // Without geometry there is no point to translate.
    assert_eq!(desk.log.len(), ACTIVE_WINDOW_STEPS - 1);
}

#[test]
fn position_stays_zero_when_the_translation_fails() {
    let mut desk = desk();
    desk.windows[0].translates = false;
    let mut expected = editor_record();
    expected.position = WindowPosition::new(0, 0, 0, 0, false);
    assert_eq!(X11Api {}.get_active_window(&mut desk), expected);
}

#[test]
fn memory_that_is_no_number_is_zero() {
    let mut desk = desk();
    desk.processes[0].memory = Some(b"lots of it\n");
    let mut expected = editor_record();
    expected.usage = UsageInfo { memory: 0 };
    assert_eq!(X11Api {}.get_active_window(&mut desk), expected);
}

#[test]
fn title_in_latin1_is_read_as_latin1() {
    let mut desk = desk();
    desk.windows[0].title = Some(vec![0x43, 0x61, 0x66, 0xe9]);
    let mut expected = editor_record();
    expected.title = "Caf\u{e9}".to_string();
    assert_eq!(X11Api {}.get_active_window(&mut desk), expected);
}

#[test]
fn asking_twice_gives_equal_records() {
    let mut desk = desk();
    let first = X11Api {}.get_active_window(&mut desk);
    let second = X11Api {}.get_active_window(&mut desk);
    assert_eq!(first, second);
    let first = X11Api {}.get_open_windows(&mut desk);
    let second = X11Api {}.get_open_windows(&mut desk);
    assert_eq!(first, second);
}

#[test]
fn asking_twice_differs_in_memory_only_when_memory_moves() {
    let mut desk = desk();
    let first = X11Api {}.get_active_window(&mut desk);
    desk.processes[0].memory = Some(b"4096 512 3 4 0 5 0\n");
    let mut second = X11Api {}.get_active_window(&mut desk);
    assert_eq!(second.usage, UsageInfo { memory: 4096 });
    second.usage = first.usage;
    assert_eq!(first, second);
}

#[test]
fn open_windows_are_the_normal_windows_in_stacking_order() {
    let mut desk = desk();
    assert_eq!(X11Api {}.get_open_windows(&mut desk), vec![browser_record(), editor_record()]);
}

#[test]
fn open_windows_keep_the_order_of_the_list() {
    let mut desk = desk();
    desk.stacking = Some(vec![editor().id, browser().id, editor().id]);
    assert_eq!(
        X11Api {}.get_open_windows(&mut desk),
        vec![editor_record(), browser_record(), editor_record()]
    );
}

#[test]
fn open_windows_have_an_identifier_and_are_normal() {
    let mut desk = desk();
    desk.stacking = Some(vec![0, panel().id, 0x5500009, orphan().id, browser().id, 0]);
    let records = X11Api {}.get_open_windows(&mut desk);
    assert_eq!(records, vec![browser_record()]);
    for record in &records {
        assert_ne!(record.id, 0);
        let window = desk.windows.iter().find(|window| window.id == record.id).unwrap();
        assert!(window.types.as_ref().unwrap().contains(&WINDOW_TYPE_NORMAL));
    }
}

#[test]
fn open_windows_ask_for_the_types_of_windows_with_a_record_only() {
    let mut desk = desk();
    desk.stacking = Some(vec![orphan().id, panel().id]);
    assert_eq!(X11Api {}.get_open_windows(&mut desk), Vec::<WindowInfo>::new());
    let asked_for_types: Vec<u32> = desk
        .log
        .iter()
        .filter_map(|request| match request {
            Request::GetProperty { window, property: WINDOW_TYPE, kind: ATOM_ATOM, length: WHOLE_VALUE } => {
                Some(*window)
            }
            _ => None,
        })
        .collect();
    assert_eq!(asked_for_types, vec![panel().id]);
}

#[test]
fn open_windows_without_connection_are_none() {
    let mut desk = desk();
    desk.reachable = false;
    assert_eq!(X11Api {}.get_open_windows(&mut desk), Vec::<WindowInfo>::new());
    assert_eq!(desk.log, vec![Request::Connect]);
}

#[test]
fn open_windows_without_list_atom_are_none() {
    let mut desk = desk();
    desk.missing.push(Hint::ClientListStacking);
    assert_eq!(X11Api {}.get_open_windows(&mut desk), Vec::<WindowInfo>::new());
    assert_eq!(desk.log.len(), 2);
}

#[test]
fn open_windows_of_an_empty_list_are_none() {
    let mut desk = desk();
    desk.stacking = Some(Vec::new());
    assert_eq!(X11Api {}.get_open_windows(&mut desk), Vec::<WindowInfo>::new());
    desk.stacking = None;
    assert_eq!(X11Api {}.get_open_windows(&mut desk), Vec::<WindowInfo>::new());
}

#[test]
fn open_windows_without_type_atom_are_none() {
    let mut desk = desk();
    desk.missing.push(Hint::WindowType);
    assert_eq!(X11Api {}.get_open_windows(&mut desk), Vec::<WindowInfo>::new());
}

#[test]
fn open_windows_without_normal_atom_are_none() {
    let mut desk = desk();
    desk.missing.push(Hint::WindowTypeNormal);
    assert_eq!(X11Api {}.get_open_windows(&mut desk), Vec::<WindowInfo>::new());
}

#[test]
fn open_windows_without_types_are_none() {
    let mut desk = desk();
    for window in desk.windows.iter_mut() {
        window.types = None;
    }
    assert_eq!(X11Api {}.get_open_windows(&mut desk), Vec::<WindowInfo>::new());
}

#[test]
fn open_windows_make_a_bounded_number_of_requests() {
    let mut desk = desk();
    let list: Vec<u32> = (0..50).map(|i| [editor().id, panel().id, orphan().id, 0][i % 4]).collect();
    desk.stacking = Some(list.clone());
    let records = X11Api {}.get_open_windows(&mut desk);
    assert_eq!(records.len(), 13);
    assert!(desk.log.len() <= 3 + WINDOW_STEPS * list.len());
    assert_eq!(WINDOW_STEPS, RESOLVER_STEPS + 3);
}

#[test]
fn the_platform_backend_answers_as_the_x11_backend() {
    let mut desk = desk();
    let platform = init_platform_api();
    assert_eq!(platform.get_active_window(&mut desk), editor_record());
    assert_eq!(platform.get_open_windows(&mut desk), vec![browser_record(), editor_record()]);
}

#[test]
fn a_task_names_its_request_until_it_is_done() {
    let mut task = ActiveWindowTask::new();
    assert!(!task.is_done());
    assert_eq!(task.request(), Some(Request::Connect));
    task.advance(Reply::Connected { roots: vec![ROOT] });
    assert_eq!(task.request(), Some(Request::InternAtom { hint: Hint::ActiveWindow }));
    task.advance(Reply::Atom { atom: 0 });
    assert_eq!(task.request(), None);
    assert!(task.is_done());
    // A task that is done takes no reply.
    task.advance(Reply::Atom { atom: ACTIVE_WINDOW });
    assert_eq!(task.request(), None);
    assert_eq!(task.into_result(), Some(WindowInfo::sentinel()));
}

#[test]
fn a_task_that_is_not_done_has_no_result() {
    assert_eq!(ActiveWindowTask::new().into_result(), None);
    assert_eq!(OpenWindowsTask::new().into_result(), None);
    let mut task = OpenWindowsTask::new();
    assert!(!task.is_done());
    task.advance(Reply::Connected { roots: vec![ROOT] });
    assert_eq!(task.request(), Some(Request::InternAtom { hint: Hint::ClientListStacking }));
    assert_eq!(task.into_result(), None);
}

#[test]
fn a_reply_of_another_kind_is_a_failure() {
    let mut task = OpenWindowsTask::new();
    task.advance(Reply::Atom { atom: 5 });
    assert!(task.is_done());
    assert_eq!(task.into_result(), Some(Vec::new()));
}

#[test]
fn a_resolver_resolves_one_window() {
    let mut desk = desk();
    let mut resolver = WindowResolver::new(browser().id);
    assert_eq!(resolver.window(), browser().id);
    let mut steps = 0;
    while let Some(request) = resolver.request() {
        assert!(!resolver.is_done());
        let reply = desk.perform(request);
        resolver.advance(reply);
        steps += 1;
    }
    assert!(resolver.is_done());
    assert_eq!(steps, RESOLVER_STEPS);
    assert_eq!(resolver.record(), &browser_record());
    assert_eq!(resolver.into_record(), browser_record());
}

#[test]
fn an_idle_resolver_is_done_with_the_sentinel() {
    let mut resolver = WindowResolver::idle();
    assert!(resolver.is_done());
    assert_eq!(resolver.request(), None);
    resolver.advance(Reply::Atom { atom: PROCESS_ID });
    assert!(resolver.is_done());
    assert_eq!(resolver.into_record(), WindowInfo::sentinel());
}

#[test]
fn contains_word_finds_a_word() {
    assert!(contains_word(&[3, 1, 2], 1));
    assert!(contains_word(&[3, 1, 2], 2));
    assert!(!contains_word(&[3, 1, 2], 4));
    assert!(!contains_word(&[], 0));
}
