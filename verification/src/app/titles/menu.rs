//! Where the backups of a title's save data are kept.

use vstd::prelude::*;
use vstd::string::StringExecFns;
use crate::app::titles::title_selected::{name_of, SaveTypes};
use crate::constant::{GAME_SAVE_CLOUD_DIR, HOME_LOCAL_PATH_SAVE};
use crate::resource::{hex_digits, TitleInfo};
use crate::utils::{is_trimmed, join_path, join_path_spec, normalize_path, normalized_char, trim};

verus! {

/// Where a backup goes, and the directory that has to be created first if
/// the title has none yet.
pub struct BackupPath {
    /// The path of the backup.
    pub path: String,
    /// The directory to create before the backup is written, if any.
    pub create_dir: Option<String>,
}

/// Whether a text is the name of the directory that holds a title's
/// backups: the title id in hexadecimal, a space, and the title's name made
/// fit to be a file name, with whitespace cut from both ends of the name
/// and of the whole.
pub open spec fn is_backup_dir_name(title: TitleInfo, title_name: Seq<char>, dir: Seq<char>) -> bool {
    exists|bare: Seq<char>, fit: Seq<char>|
        is_trimmed(title_name, bare) && is_trimmed(
            bare.map_values(|c: char| normalized_char(c)),
            fit,
        ) && is_trimmed("0x"@ + hex_digits(title.id as nat) + " "@ + fit, dir)
}

/// Names the directory that holds a title's backups.
pub fn backup_dir_name(title: &TitleInfo, title_name: &str) -> (dir: String)
    ensures
        is_backup_dir_name(*title, title_name@, dir@),
{
    let bare = trim(title_name);
    let fit = normalize_path(bare.as_str());
    let mut name = title.id_hex_str();
    name.append(" ");
    name.append(fit.as_str());
    let dir = trim(name.as_str());
    proof {
        assert(is_trimmed(title_name@, bare@));
        assert(is_trimmed(bare@.map_values(|c: char| normalized_char(c)), fit@));
    }
    dir
}

/// The local directory that holds a title's backups of a kind, given the
/// directory's name.
pub open spec fn local_backup_dir(save_type: SaveTypes, name: Seq<char>) -> Seq<char> {
    join_path_spec(join_path_spec(HOME_LOCAL_PATH_SAVE@, name_of(save_type)), name)
}

/// The cloud directory that holds a title's backups of a kind, given the
/// directory's name.
pub open spec fn cloud_backup_dir(save_type: SaveTypes, name: Seq<char>) -> Seq<char> {
    join_path_spec(join_path_spec(GAME_SAVE_CLOUD_DIR@, name_of(save_type)), name)
}

/// Says where a local backup of a title's save data goes. `existing` is
/// the path of the directory that already holds the title's backups of
/// this kind, if there is one; otherwise a directory named after the title
/// is to be created under the directory of the kind.
pub fn get_game_local_backup_path(
    existing: Option<String>,
    title: &TitleInfo,
    save_type: SaveTypes,
    title_name: &str,
    backup_name: &str,
) -> (target: BackupPath)
    ensures
        existing matches Some(dir) ==> target.create_dir.is_none() && target.path@
            == join_path_spec(dir@, backup_name@),
        existing.is_none() ==> target.create_dir.is_some() && is_backup_dir_of(
            *title,
            save_type,
            title_name@,
            target.create_dir.unwrap()@,
        ) && target.path@ == join_path_spec(target.create_dir.unwrap()@, backup_name@),
{
    match existing {
        Some(dir) => BackupPath { path: join_path(dir.as_str(), backup_name), create_dir: None },
        None => {
            let kind_dir = join_path(HOME_LOCAL_PATH_SAVE, save_type.name());
            let name = backup_dir_name(title, title_name);
            let dir = join_path(kind_dir.as_str(), name.as_str());
            let path = join_path(dir.as_str(), backup_name);
            assert(dir@ == local_backup_dir(save_type, name@));
            BackupPath { path, create_dir: Some(dir) }
        },
    }
}

/// Whether a path is that of the local directory for a title's backups of
/// a kind.
pub open spec fn is_backup_dir_of(
    title: TitleInfo,
    save_type: SaveTypes,
    title_name: Seq<char>,
    dir: Seq<char>,
) -> bool {
    exists|name: Seq<char>|
        is_backup_dir_name(title, title_name, name) && dir == #[trigger] local_backup_dir(
            save_type,
            name,
        )
}

/// Whether a path is that of the cloud directory for a title's backups of
/// a kind.
pub open spec fn is_cloud_dir_of(
    title: TitleInfo,
    save_type: SaveTypes,
    title_name: Seq<char>,
    dir: Seq<char>,
) -> bool {
    exists|name: Seq<char>|
        is_backup_dir_name(title, title_name, name) && dir == #[trigger] cloud_backup_dir(
            save_type,
            name,
        )
}

/// Says where the cloud backups of a title's save data are kept: in the
/// directory already known, or else in the one the cloud lists for the
/// title, or else in one named after the title under the cloud directory
/// of the kind.
pub fn get_game_cloud_backup_path(
    game_save_cloud_dir: Option<String>,
    listed_dir: Option<String>,
    title: &TitleInfo,
    save_type: SaveTypes,
    title_name: &str,
) -> (dir: String)
    ensures
        game_save_cloud_dir matches Some(known) ==> dir == known,
        game_save_cloud_dir.is_none() ==> (listed_dir matches Some(listed) ==> dir == listed),
        game_save_cloud_dir.is_none() && listed_dir.is_none() ==> is_cloud_dir_of(
            *title,
            save_type,
            title_name@,
            dir@,
        ),
{
    match game_save_cloud_dir {
        Some(known) => known,
        None => match listed_dir {
            Some(listed) => listed,
            None => {
                let kind_dir = join_path(GAME_SAVE_CLOUD_DIR, save_type.name());
                let name = backup_dir_name(title, title_name);
                let dir = join_path(kind_dir.as_str(), name.as_str());
                assert(dir@ == cloud_backup_dir(save_type, name@));
                dir
            },
        },
    }
}

} // verus!
