//! Fixed quantities of the console: screen sizes, colours, limits.

use vstd::prelude::*;

verus! {

/// Width of the top screen in pixels.
pub const SCREEN_TOP_WIDTH: i64 = 400;

/// Width of the bottom screen in pixels.
pub const SCREEN_BOTTOM_WIDTH: i64 = 320;

/// Height of either screen in pixels.
pub const SCREEN_HEIGHT: i64 = 240;

/// Background of a selected row.
pub const SELECTED_BG_COLOR: i64 = 4281874488;

/// Light hint text.
pub const TIPS_COLOR_LIGHT: i64 = 4288256409;

/// Hint text.
pub const TIPS_COLOR: i64 = 4284900966;

/// Number of scalar steps in one whole unit: lengths, scales and depths are
/// kept as integers counting thousandths.
pub const SCALAR_UNIT: i32 = 1000;

/// Largest stereo depth a node may resolve to, in thousandths (five units);
/// the smallest is its negation.
pub const MAX_DEEP_3D: i32 = 5000;

/// Size of one download buffer in bytes (512 KiB).
pub const DOWNLOAD_BUF_SIZE: usize = 524288;

/// Size of one upload slice in bytes (4 MiB).
pub const UPLOAD_SLICE_PER_SIZE: usize = 4194304;

/// Title id of the installer that the application can hand over to.
pub const FBI_SC_TITLE_ID: u64 = 0x400000F899900;

/// Directory of local save backups.
pub const HOME_LOCAL_PATH_SAVE: &'static str = "/save-cloud/save";

/// Directory of cached data.
pub const HOME_LOCAL_PATH_CACHE: &'static str = "/save-cloud/cache";

/// Name of the icon cache file within the cache directory.
pub const CACHE_ICON_NAME: &'static str = "icons.bin";

/// Directory of the cloud account's configuration.
pub const AUTH_BAIDU_CONFIG_PATH: &'static str = "/save-cloud/auth";

/// Prefix of every path in the cloud.
pub const GAME_SAVE_CLOUD_DIR_PREFIX: &'static str = "/apps/Backup/";

/// Root of the application's directory in the cloud.
pub const GAME_SAVE_CLOUD_DIR_ROOT: &'static str = "/apps/Backup/3ds/save-cloud";

/// Directory of save backups in the cloud.
pub const GAME_SAVE_CLOUD_DIR: &'static str = "/apps/Backup/3ds/save-cloud/saves";

/// Directory in the cloud for uploads in progress.
pub const UPLOAD_CACHE_DIR: &'static str = "/apps/Backup/upload_cache_can_delete";

} // verus!
