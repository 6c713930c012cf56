//! Start-up settings of a board server.
use vstd::prelude::*;
use vstd::string::*;

verus! {

/// Where the server listens, where it keeps its files, and its title.
#[derive(Debug)]
pub struct Settings {
    pub bind: String,
    pub db_path: String,
    pub uploads_dir: String,
    pub title: String,
    /// Start from an empty board on each start.
    pub reset_on_start: bool,
}

impl Default for Settings {
    fn default() -> (r: Self)
        ensures
            r.bind@ == "0.0.0.0:8080"@,
            r.db_path@ == "db.sqlite"@,
            r.uploads_dir@ == "uploads"@,
            r.title@ == "Chessboard Messageboard"@,
            r.reset_on_start,
    {
        Settings {
            bind: String::from_str("0.0.0.0:8080"),
            db_path: String::from_str("db.sqlite"),
            uploads_dir: String::from_str("uploads"),
            title: String::from_str("Chessboard Messageboard"),
            reset_on_start: true,
        }
    }
}

} // verus!
