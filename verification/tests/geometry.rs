use x_win::geometry::place;
use x_win::window::WindowPosition;

#[test]
fn place_subtracts_the_point_from_its_translation() {
    // The point (3, 4) of the window lies at (103, 204) of the root.
    assert_eq!(place(3, 4, 103, 204, 640, 480), WindowPosition::new(100, 200, 640, 480, false));
}

#[test]
fn place_of_a_window_left_of_the_root() {
    assert_eq!(place(0, 0, -50, -60, 10, 20), WindowPosition::new(-50, -60, 10, 20, false));
}

#[test]
fn place_does_not_wrap_at_the_ends_of_the_range() {
    assert_eq!(
        place(i16::MIN, i16::MAX, i16::MAX, i16::MIN, u16::MAX, 0),
        WindowPosition::new(65535, -65535, 65535, 0, false)
    );
}

#[test]
fn place_finds_the_origin_whichever_point_is_translated() {
    let (origin_x, origin_y) = (250i32, -40i32);
    for (x, y) in [(0i16, 0i16), (1, 1), (-5, 30), (26, 71), (-250, 40)] {
        let translated_x = (origin_x + x as i32) as i16;
        let translated_y = (origin_y + y as i32) as i16;
        assert_eq!(
            place(x, y, translated_x, translated_y, 800, 600),
            WindowPosition::new(origin_x, origin_y, 800, 600, false)
        );
    }
}
