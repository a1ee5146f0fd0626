//! The settings record: paths the surrounding application reads at start.
//! This core only defines the record and its defaults; loading and storing
//! it is file I/O and lives outside.

use vstd::prelude::*;
use vstd::string::StringExecFns;

verus! {

/// General settings: where music and miniature images live, and whether
/// miniatures are downloaded.
pub struct General {
    pub music_directory: String,
    pub miniature_directory: String,
    pub download_miniature: bool,
}

/// Database settings: where the daemon's database file lives.
pub struct Database {
    pub database_path: String,
}

/// The whole settings record.
pub struct Config {
    pub general: General,
    pub database: Database,
}

impl Default for Config {
    /// The defaults written on first start, when no settings file exists
    /// yet.
    fn default() -> (r: Config)
        ensures
            r.general.music_directory@ == "~/Music/songs/"@,
            r.general.miniature_directory@ == "~/Music/miniatures"@,
            r.general.download_miniature == false,
            r.database.database_path@ == "~/.config/yap/yap.db"@,
    {
        Config {
            general: General {
                music_directory: String::from_str("~/Music/songs/"),
                miniature_directory: String::from_str("~/Music/miniatures"),
                download_miniature: false,
            },
            database: Database { database_path: String::from_str("~/.config/yap/yap.db") },
        }
    }
}

} // verus!
