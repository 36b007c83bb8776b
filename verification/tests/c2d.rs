use save_cloud::c2d::rgba;

#[test]
fn rgba_packs_red_lowest() {
    assert_eq!(rgba(0xff, 0x00, 0x00, 0xff), 0xff0000ff);
    assert_eq!(rgba(0x12, 0x34, 0x56, 0x78), 0x78563412);
    assert_eq!(rgba(0, 0, 0, 0), 0);
}
