use save_cloud::c2d::rgba;
use save_cloud::utils::{color_name_rgba, get_active_color, join_path, str_to_c_null_term_bytes};

#[test]
fn palette_resolves_every_name() {
    assert_eq!(color_name_rgba("red"), rgba(0xff, 0x00, 0x00, 0xff));
    assert_eq!(color_name_rgba("green"), rgba(0x00, 0xff, 0x00, 0xff));
    assert_eq!(color_name_rgba("blue"), rgba(0x00, 0x00, 0xff, 0xff));
    assert_eq!(color_name_rgba("dir"), rgba(0x00, 0xb4, 0xd8, 0xff));
    assert_eq!(color_name_rgba("white"), rgba(0xff, 0xff, 0xff, 0xff));
    assert_eq!(color_name_rgba("gray"), rgba(0xbb, 0xbb, 0xbb, 0xff));
    assert_eq!(color_name_rgba("black"), rgba(0x00, 0x00, 0x00, 0xff));
    assert_eq!(color_name_rgba("main-text"), rgba(0xee, 0xee, 0xee, 0xff));
    assert_eq!(color_name_rgba("main_bg"), rgba(0x22, 0x22, 0x22, 0xff));
    assert_eq!(color_name_rgba("selected_bg"), rgba(0x44, 0x44, 0x44, 0xff));
    assert_eq!(color_name_rgba("selected_bg_info"), rgba(0x33, 0x33, 0x33, 0xff));
    assert_eq!(color_name_rgba("selected_bg_dark"), rgba(0x28, 0x28, 0x28, 0xff));
    assert_eq!(color_name_rgba("selected_bg_light"), rgba(0x60, 0x60, 0x60, 0xff));
    assert_eq!(color_name_rgba("transparent"), 0);
    assert_eq!(color_name_rgba("tips"), rgba(0xaa, 0xaa, 0xaa, 0xff));
    assert_eq!(color_name_rgba("panel_bg"), rgba(0x26, 0x26, 0x26, 0xff));
}

#[test]
fn palette_green_is_exact() {
    assert_eq!(color_name_rgba("green"), 0xff00ff00);
}

#[test]
fn palette_unknown_name_is_black() {
    assert_eq!(color_name_rgba("chartreuse"), 0xff000000);
    assert_eq!(color_name_rgba(""), 0xff000000);
    assert_eq!(color_name_rgba("Red"), 0xff000000);
}

#[test]
fn join_path_adds_one_slash() {
    assert_eq!(join_path("/save-cloud/cache", "icons.bin"), "/save-cloud/cache/icons.bin");
}

#[test]
fn join_path_keeps_trailing_slash() {
    assert_eq!(join_path("/save-cloud/cache/", "icons.bin"), "/save-cloud/cache/icons.bin");
}

#[test]
fn join_path_with_empty_base() {
    assert_eq!(join_path("", "icons.bin"), "icons.bin");
}

#[test]
fn join_path_with_non_ascii_base() {
    assert_eq!(join_path("/存档", "a"), "/存档/a");
    assert_eq!(join_path("/存档/", "a"), "/存档/a");
}

#[test]
fn c_string_bytes_end_in_nul() {
    assert_eq!(str_to_c_null_term_bytes("abc"), vec![b'a', b'b', b'c', 0]);
    assert_eq!(str_to_c_null_term_bytes(""), vec![0]);
    assert_eq!(str_to_c_null_term_bytes("é"), vec![0xc3, 0xa9, 0]);
}

#[test]
fn active_color_is_zero() {
    assert_eq!(get_active_color(), 0);
}
