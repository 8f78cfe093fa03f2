use vstd::prelude::*;

verus! {

/// Process-wide configuration, built once at start-up and never changed.
pub struct Settings {
    pub program_name: String,
    pub program_ver: String,
    pub program_devs: Vec<String>,
    pub program_web: String,
    /// Folder under which uploaded files are stored, flat.
    pub songbites_folder: String,
}

} // verus!
