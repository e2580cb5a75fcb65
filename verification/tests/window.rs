use x_win::window::{os_name, ProcessInfo, UsageInfo, WindowInfo, WindowPosition};

#[test]
fn position_new_keeps_every_field() {
    let position = WindowPosition::new(-7, 12, 640, 480, true);
    assert_eq!(position.x, -7);
    assert_eq!(position.y, 12);
    assert_eq!(position.width, 640);
    assert_eq!(position.height, 480);
    assert!(position.is_full_screen);
}

#[test]
fn position_new_takes_the_extremes() {
    let position = WindowPosition::new(i32::MIN, i32::MAX, 0, -1, false);
    assert_eq!(
        position,
        WindowPosition { x: i32::MIN, y: i32::MAX, width: 0, height: -1, is_full_screen: false }
    );
}

#[test]
fn position_default_is_zero() {
    assert_eq!(WindowPosition::default(), WindowPosition::new(0, 0, 0, 0, false));
}

#[test]
fn os_name_is_linux() {
    assert_eq!(os_name(), "linux");
}

#[test]
fn sentinel_is_empty_but_for_the_tag() {
    let sentinel = WindowInfo::sentinel();
    assert_eq!(sentinel.id, 0);
    assert_eq!(sentinel.os, "linux");
    assert_eq!(sentinel.title, "");
    assert_eq!(sentinel.position, WindowPosition::new(0, 0, 0, 0, false));
    assert_eq!(sentinel.info.process_id, 0);
    assert_eq!(sentinel.info.path, "");
    assert_eq!(sentinel.info.name, "");
    assert_eq!(sentinel.info.exec_name, "");
    assert_eq!(sentinel.usage, UsageInfo { memory: 0 });
    assert_eq!(sentinel.url, None);
}

#[test]
fn clone_of_a_record_is_equal_to_it() {
    let record = WindowInfo {
        id: 41,
        os: os_name(),
        title: "Notes — draft".to_string(),
        position: WindowPosition::new(10, 20, 300, 200, false),
        info: ProcessInfo {
            process_id: 4242,
            path: "/usr/bin/notes".to_string(),
            name: "Notes".to_string(),
            exec_name: "notes".to_string(),
        },
        usage: UsageInfo { memory: 9000 },
        url: Some("https://example.org/".to_string()),
    };
    let copy = record.clone();
    assert_eq!(copy, record);
    assert_eq!(copy.info.clone(), record.info);
}
