use save_cloud::app::cloud::{sort_children, ChildItem, List, ListItem};
use save_cloud::app::list_display_status::ListState;
use save_cloud::app::list_wrap_display_status::ScrollAction;
use save_cloud::app::titles::menu::{
    backup_dir_name, get_game_cloud_backup_path, get_game_local_backup_path,
};
use save_cloud::app::titles::title_selected::{keep_title, SaveTypes, TitleSelected};
use save_cloud::fsu::ArchiveID;
use save_cloud::render::image_data_set::{
    get_image_raw_buf, icon_cache_record, ImageDataSet, ImageHandle, ICON_PIXELS, ICON_RECORD_SIZE,
};
use save_cloud::resource::{MediaType, TitleInfo};

fn title(id: u64) -> TitleInfo {
    TitleInfo::new(id, MediaType::Sd)
}

#[test]
fn title_id_halves() {
    let t = title(0x0004000000055E00);
    assert_eq!(t.high_id(), 0x00040000);
    assert_eq!(t.low_id(), 0x00055E00);
    assert_eq!(title(u64::MAX).high_id(), u32::MAX);
    assert_eq!(title(u64::MAX).low_id(), u32::MAX);
}

#[test]
fn title_id_in_hexadecimal() {
    assert_eq!(title(0x0004000000055E00).id_hex_str(), format!("{:#X}", 0x0004000000055E00u64));
    assert_eq!(title(0x0004000000055E00).id_hex_str(), "0x4000000055E00");
    assert_eq!(title(0).id_hex_str(), "0x0");
    assert_eq!(title(9).id_hex_str(), "0x9");
    assert_eq!(title(10).id_hex_str(), "0xA");
    assert_eq!(title(16).id_hex_str(), "0x10");
    assert_eq!(title(0xABCDEF).id_hex_str(), "0xABCDEF");
    assert_eq!(title(u64::MAX).id_hex_str(), "0xFFFFFFFFFFFFFFFF");
    assert_eq!(title(1 << 60).id_hex_str(), "0x1000000000000000");
    assert_eq!(title(0x0123456789ABCDEF).id_hex_str(), "0x123456789ABCDEF");
}

#[test]
fn title_categories() {
    assert_eq!(title(0x0004000000055E00).category(), "App");
    assert_eq!(title(0x0004000200055E00).category(), "Demo");
    assert_eq!(title(0x0004001000021000).category(), "System App");
    assert_eq!(title(0x0004800000000000).category(), "Unknown");
    assert_eq!(title(0).category(), "Unknown");
}

#[test]
fn title_media_names() {
    assert_eq!(TitleInfo::new(1, MediaType::Sd).media_str(), "sd");
    assert_eq!(TitleInfo::new(1, MediaType::Nand).media_str(), "nand");
    assert_eq!(TitleInfo::new(1, MediaType::GameCard).media_str(), "nand");
}

#[test]
fn applications_and_demos_are_listed() {
    assert!(TitleInfo::is_application(0x0004000000055E00));
    assert!(TitleInfo::is_application(0x0004000200055E00));
    assert!(!TitleInfo::is_application(0x0004800000055E00));
    assert!(!TitleInfo::is_application(0x0004003000008F02));
    assert!(!TitleInfo::is_application(0));
}

#[test]
fn plain_system_titles_are_not_listed() {
    let plain: [u32; 51] = [
        0x00020A00, 0x00021A00, 0x00022A00, 0x00027A00, 0x00028A00, 0x00008602, 0x00009202,
        0x00009B02, 0x0000A402, 0x0000AC02, 0x0000B402, 0x00008802, 0x00009402, 0x00009D02,
        0x0000A602, 0x0000AE02, 0x0000B602, 0x20008802, 0x20009402, 0x20009D02, 0x2000AE02,
        0x00020F00, 0x00021F00, 0x00022F00, 0x00026F00, 0x00027F00, 0x00028F00, 0x00020900,
        0x00021900, 0x00022900, 0x00027900, 0x00028900, 0x20023100, 0x20024100, 0x20025100,
        0x20020300, 0x20021300, 0x20022300, 0x20027300, 0x0002BF00, 0x0002C000, 0x0002C100,
        0x00020100, 0x00021100, 0x00022100, 0x00026100, 0x00027100, 0x00028100, 0x2002CA00,
        0x0002D300, 0x2002D400,
    ];
    for low in plain {
        assert!(!TitleInfo::is_application(0x0004001000000000 | low as u64), "{:#X}", low);
        assert!(TitleInfo::is_application(0x0004000000000000 | low as u64));
    }
    assert!(TitleInfo::is_application(0x0004001000021000));
    assert!(TitleInfo::is_application(0x000400102002D300));
    assert!(TitleInfo::is_application(0x0004001000000000));
}

#[test]
fn product_code_ends_at_the_first_nul() {
    let mut buf = [0u8; 16];
    buf[..10].copy_from_slice(b"CTR-P-EKJE");
    assert_eq!(TitleInfo::product_code(&buf), b"CTR-P-EKJE");
    assert_eq!(TitleInfo::product_code(&[0u8; 16]), b"");
    assert_eq!(TitleInfo::product_code(b"0123456789abcdef"), b"0123456789abcdef");
    assert_eq!(TitleInfo::product_code(b"ab\0cd\0"), b"ab");
    assert_eq!(TitleInfo::product_code(b""), b"");
}

#[test]
fn save_kinds_have_archives_and_names() {
    assert_eq!(SaveTypes::User.arch_id(), ArchiveID::UserSavedata);
    assert_eq!(SaveTypes::Ext.arch_id(), ArchiveID::Extdata);
    assert_eq!(SaveTypes::Sys.arch_id(), ArchiveID::SystemSavedata);
    assert_eq!(SaveTypes::Boss.arch_id(), ArchiveID::BossExtdata);
    assert_eq!(SaveTypes::User.name(), "user");
    assert_eq!(SaveTypes::Ext.name(), "ext");
    assert_eq!(SaveTypes::Sys.name(), "sys");
    assert_eq!(SaveTypes::Boss.name(), "boss");
}

#[test]
fn save_kinds_depend_on_the_medium() {
    let table = [
        (SaveTypes::User, [false, true, true]),
        (SaveTypes::Ext, [true, true, true]),
        (SaveTypes::Sys, [true, false, false]),
        (SaveTypes::Boss, [true, false, false]),
    ];
    for (kind, expected) in table {
        assert_eq!(kind.can_exist_on(MediaType::Nand), expected[0]);
        assert_eq!(kind.can_exist_on(MediaType::Sd), expected[1]);
        assert_eq!(kind.can_exist_on(MediaType::GameCard), expected[2]);
    }
}

#[test]
fn save_mask_has_one_bit_per_kind() {
    assert_eq!(SaveTypes::mask_of(false, false, false, false), 0);
    assert_eq!(SaveTypes::mask_of(true, false, false, false), 1);
    assert_eq!(SaveTypes::mask_of(false, true, false, false), 2);
    assert_eq!(SaveTypes::mask_of(false, false, true, false), 4);
    assert_eq!(SaveTypes::mask_of(false, false, false, true), 8);
    assert_eq!(SaveTypes::mask_of(true, true, false, true), 11);
    assert_eq!(SaveTypes::mask_of(true, true, true, true), 15);
}

#[test]
fn selected_title_shows_its_first_kind_of_save() {
    let none = TitleSelected::new(title(1), 0);
    assert_eq!(none.saves, vec![]);
    assert_eq!(none.save_type, None);
    let all = TitleSelected::new(title(1), 15);
    assert_eq!(all.saves, vec![SaveTypes::User, SaveTypes::Ext, SaveTypes::Sys, SaveTypes::Boss]);
    assert_eq!(all.save_type, Some(SaveTypes::User));
    let some = TitleSelected::new(title(1), 0b1010);
    assert_eq!(some.saves, vec![SaveTypes::Ext, SaveTypes::Boss]);
    assert_eq!(some.save_type, Some(SaveTypes::Ext));
    let high_bits = TitleSelected::new(title(7), 0xF4);
    assert_eq!(high_bits.saves, vec![SaveTypes::Sys]);
    assert_eq!(high_bits.title, title(7));
}

#[test]
fn titles_in_internal_memory_need_save_data() {
    let app = 0x0004000000055E00;
    assert!(keep_title(app, MediaType::Sd, false));
    assert!(keep_title(app, MediaType::GameCard, false));
    assert!(!keep_title(app, MediaType::Nand, false));
    assert!(keep_title(app, MediaType::Nand, true));
    assert!(!keep_title(0x0004001000020900, MediaType::Nand, true));
    assert!(!keep_title(0, MediaType::Sd, true));
}

#[test]
fn backup_directory_is_named_after_the_title() {
    let t = title(0x0004000000055E00);
    assert_eq!(backup_dir_name(&t, "Pokémon: Y"), "0x4000000055E00 Pokémon_ Y");
    assert_eq!(backup_dir_name(&t, "  Mario/Kart? "), "0x4000000055E00 Mario_Kart_");
    assert_eq!(backup_dir_name(&t, ""), "0x4000000055E00");
    assert_eq!(backup_dir_name(&t, "   "), "0x4000000055E00");
}

#[test]
fn local_backup_goes_into_the_existing_directory() {
    let t = title(0x0004000000055E00);
    let target = get_game_local_backup_path(
        Some("/save-cloud/save/user/0x4000000055E00 Old Name".to_string()),
        &t,
        SaveTypes::User,
        "New Name",
        "2024-01-01.zip",
    );
    assert_eq!(target.path, "/save-cloud/save/user/0x4000000055E00 Old Name/2024-01-01.zip");
    assert_eq!(target.create_dir, None);
}

#[test]
fn local_backup_creates_a_directory_for_a_new_title() {
    let t = title(0x0004000000055E00);
    let target = get_game_local_backup_path(None, &t, SaveTypes::Ext, " Pokémon: Y ", "a.zip");
    assert_eq!(
        target.create_dir,
        Some("/save-cloud/save/ext/0x4000000055E00 Pokémon_ Y".to_string())
    );
    assert_eq!(target.path, "/save-cloud/save/ext/0x4000000055E00 Pokémon_ Y/a.zip");
}

#[test]
fn cloud_backup_directory_by_preference() {
    let t = title(0x0004000000055E00);
    assert_eq!(
        get_game_cloud_backup_path(Some("/known".to_string()), Some("/listed".to_string()), &t, SaveTypes::Sys, "Name"),
        "/known"
    );
    assert_eq!(
        get_game_cloud_backup_path(None, Some("/listed".to_string()), &t, SaveTypes::Sys, "Name"),
        "/listed"
    );
    assert_eq!(
        get_game_cloud_backup_path(None, None, &t, SaveTypes::Boss, "Name"),
        "/apps/Backup/3ds/save-cloud/saves/boss/0x4000000055E00 Name"
    );
}

fn panel() -> List {
    let mut list = List::new();
    list.items.push(ListItem {
        path: "/".to_string(),
        children: vec![ChildItem::Local("3ds".to_string(), true)],
        list_state: ListState::new(8),
    });
    list.items.push(ListItem {
        path: "/3ds".to_string(),
        children: vec![
            ChildItem::Local("FBI.3dsx".to_string(), false),
            ChildItem::Local("Saves".to_string(), true),
            ChildItem::Cloud("backup/".to_string(), 77, true, 0),
            ChildItem::Cloud("notes.TXT".to_string(), 78, false, 120),
        ],
        list_state: ListState { top_row: 1, selected_idx: 2, display_row: 2 },
    });
    list
}

#[test]
fn empty_panel_answers_with_nothing() {
    let mut list = List::new();
    assert!(list.is_not_init());
    assert!(list.get(0).is_none());
    assert!(list.selected_item().is_none());
    assert!(!list.is_selected_item_dir());
    assert!(!list.is_exists("a"));
    assert_eq!(list.current_idx(), 0);
    assert_eq!(list.total_items(), 0);
    assert!(!list.is_selected(0));
    assert_eq!(list.current_abs_path(), "");
    assert!(!list.pop());
    list.list_do_scroll(ScrollAction::Down);
    assert!(list.is_not_init());
}

#[test]
fn panel_reads_the_current_directory() {
    let list = panel();
    assert!(!list.is_not_init());
    assert_eq!(list.current_abs_path(), "/3ds");
    assert_eq!(list.total_items(), 4);
    assert_eq!(list.current_idx(), 3);
    assert_eq!(list.get(0).unwrap().as_str(), "Saves");
    assert_eq!(list.get(2).unwrap().as_str(), "notes.TXT");
    assert!(list.get(3).is_none());
    assert!(list.get(usize::MAX).is_none());
    assert_eq!(list.selected_item().unwrap().as_str(), "backup/");
    assert!(list.is_selected_item_dir());
    assert!(list.is_selected(1));
    assert!(!list.is_selected(0));
    assert!(!list.selected_item().unwrap().is_local());
    assert!(list.get(0).unwrap().is_local());
}

#[test]
fn panel_finds_names_without_regard_to_case() {
    let list = panel();
    assert!(list.is_exists("fbi.3DSX"));
    assert!(list.is_exists("NOTES.txt"));
    assert!(list.is_exists("Saves"));
    assert!(!list.is_exists("Save"));
    assert!(!list.is_exists("3ds"));
}

#[test]
fn panel_paths_of_selected_entries_end_in_a_slash() {
    let mut list = panel();
    assert_eq!(list.current_selected_abs_path(), "/3ds/backup/");
    list.items[1].list_state.set_selected_idx(1);
    assert_eq!(list.current_selected_abs_path(), "/3ds/Saves/");
    assert!(list.pop());
    assert_eq!(list.current_selected_abs_path(), "/3ds/");
    assert!(!list.pop());
    assert_eq!(list.current_abs_path(), "/");
}

#[test]
fn panel_scrolls_its_current_directory() {
    let mut list = panel();
    list.list_do_scroll(ScrollAction::Down);
    assert_eq!(list.items[1].list_state, ListState { top_row: 2, selected_idx: 3, display_row: 2 });
    list.list_do_scroll(ScrollAction::Down);
    assert_eq!(list.items[1].list_state, ListState { top_row: 0, selected_idx: 0, display_row: 2 });
    list.list_do_scroll(ScrollAction::Up);
    assert_eq!(list.items[1].list_state, ListState { top_row: 2, selected_idx: 3, display_row: 2 });
    assert_eq!(list.items[0].list_state, ListState::new(8));
}

#[test]
fn selection_outside_the_directory_selects_nothing() {
    let mut list = panel();
    list.items[1].list_state.set_selected_idx(4);
    assert!(list.selected_item().is_none());
    assert!(!list.is_selected_item_dir());
    list.items[1].list_state.set_selected_idx(-1);
    assert!(list.selected_item().is_none());
    list.items[1].list_state.top_row = -1;
    assert!(list.get(1).is_none());
}

fn icon(seed: u16) -> Vec<u16> {
    (0..ICON_PIXELS as u32).map(|i| (i as u16).wrapping_mul(7).wrapping_add(seed)).collect()
}

#[test]
fn icon_cache_file_is_read_back() {
    let mut bytes = icon_cache_record(10, &icon(1));
    bytes.extend(icon_cache_record(20, &icon(2)));
    bytes.extend(icon_cache_record(30, &icon(3)));
    assert_eq!(bytes.len(), 3 * ICON_RECORD_SIZE);
    let titles = vec![title(30), title(10)];
    let mut images = ImageDataSet::new();
    images.load_icon_cache(&bytes, &titles);
    let raw = get_image_raw_buf(&images);
    assert_eq!(raw.len(), 2);
    assert_eq!(raw.get(&10), Some(&icon(1)));
    assert_eq!(raw.get(&30), Some(&icon(3)));
    assert_eq!(images.get_image("10", "sd"), Some(ImageHandle::Icon(10)));
    assert_eq!(images.icon_pixels(10), Some(&icon(1)));
    assert_eq!(images.get_image("20", "sd"), None);
}

#[test]
fn icon_cache_file_later_record_wins_and_tail_is_ignored() {
    let mut bytes = icon_cache_record(10, &icon(1));
    bytes.extend(icon_cache_record(10, &icon(5)));
    bytes.extend(&icon_cache_record(20, &icon(2))[..ICON_RECORD_SIZE - 1]);
    let titles = vec![title(10), title(20)];
    let mut images = ImageDataSet::new();
    images.preload(99, vec![1, 2, 3]);
    images.preload(10, vec![4]);
    images.load_icon_cache(&bytes, &titles);
    let raw = get_image_raw_buf(&images);
    assert_eq!(raw.len(), 2);
    assert_eq!(raw.get(&10), Some(&icon(5)));
    assert_eq!(raw.get(&99), Some(&vec![1, 2, 3]));
}

#[test]
fn empty_icon_cache_file_changes_nothing() {
    let mut images = ImageDataSet::new();
    images.load_icon_cache(&vec![], &vec![title(1)]);
    images.load_icon_cache(&vec![0u8; ICON_RECORD_SIZE - 1], &vec![title(0)]);
    assert!(get_image_raw_buf(&images).is_empty());
    images.load_icon_cache(&vec![0u8; ICON_RECORD_SIZE], &vec![title(0)]);
    assert_eq!(get_image_raw_buf(&images).get(&0), Some(&vec![0u16; ICON_PIXELS]));
}

#[test]
fn icon_record_sizes() {
    assert_eq!(ICON_PIXELS, 0x900);
    assert_eq!(ICON_RECORD_SIZE, 8 + 0x900 * 2);
}

fn local(name: &str, is_dir: bool) -> ChildItem {
    ChildItem::Local(name.to_string(), is_dir)
}

#[test]
fn panel_puts_directories_first_and_ignores_case() {
    let children = vec![
        local("zeta.txt", false),
        local("Alpha.txt", false),
        local("saves", true),
        local("beta.txt", false),
        local("3ds", true),
        local("Backup", true),
        local("alpha.TXT", false),
    ];
    assert_eq!(
        sort_children(children),
        vec![
            local("3ds", true),
            local("Backup", true),
            local("saves", true),
            local("Alpha.txt", false),
            local("alpha.TXT", false),
            local("beta.txt", false),
            local("zeta.txt", false),
        ]
    );
    assert_eq!(sort_children(vec![]), vec![]);
}

#[test]
fn panel_order_agrees_with_the_standard_library() {
    let names = ["b", "A", "a", "é", "É", "10", "9", "Z", "z", "", "ab", "AB", "存", "ß"];
    let build = || -> Vec<ChildItem> {
        names
            .iter()
            .enumerate()
            .map(|(i, name)| local(name, i % 3 == 0))
            .collect()
    };
    let children = build();
    let mut expected = build();
    expected.sort_by(|a, b| {
        if a.is_dir() && !b.is_dir() {
            return std::cmp::Ordering::Less;
        } else if !a.is_dir() && b.is_dir() {
            return std::cmp::Ordering::Greater;
        }
        a.as_str().to_lowercase().cmp(&b.as_str().to_lowercase())
    });
    assert_eq!(sort_children(children), expected);
}

#[test]
fn entering_a_directory_selects_its_first_row() {
    let mut list = panel();
    list.enter_dir("/3ds/Saves".to_string(), vec![local("a", false)], false);
    assert_eq!(list.items.len(), 3);
    assert_eq!(list.current_abs_path(), "/3ds/Saves");
    assert_eq!(list.items[2].list_state, ListState::new(12));
    assert_eq!(list.total_items(), 1);
}

#[test]
fn showing_a_directory_again_keeps_the_selection_within_it() {
    let mut list = panel();
    list.enter_dir("/3ds".to_string(), vec![local("a", false), local("b", false)], true);
    assert_eq!(list.items.len(), 2);
    assert_eq!(list.items[1].list_state, ListState { top_row: 1, selected_idx: 1, display_row: 2 });
    list.enter_dir("/3ds".to_string(), vec![], true);
    assert_eq!(list.items[1].list_state, ListState { top_row: 1, selected_idx: -1, display_row: 2 });
    let mut empty = List::new();
    empty.enter_dir("/".to_string(), vec![local("a", true)], true);
    assert_eq!(empty.items.len(), 1);
    assert_eq!(empty.items[0].list_state, ListState::new(12));
}
