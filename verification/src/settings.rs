use vstd::prelude::*;
use libc::{gid_t, uid_t};

verus! {

/// Settings of the whole process. The engine that runs the steps reads
/// them; nothing here does.
#[derive(Clone, Debug)]
pub struct Settings {
    pub version_check: bool,
    pub ubuntu_mirror: String,
    /// Ranges of user ids and of group ids to map, each as the first id
    /// inside, the first id outside, and how many.
    pub uid_map: Option<(Vec<(uid_t, uid_t, uid_t)>, Vec<(gid_t, gid_t, gid_t)>)>,
}

impl Default for Settings {
    /// No version check, no mirror, no id ranges.
    fn default() -> (settings: Settings)
        ensures
            !settings.version_check,
            settings.ubuntu_mirror@ == Seq::<char>::empty(),
            settings.uid_map is None,
    {
        Settings { version_check: false, ubuntu_mirror: String::new(), uid_map: None }
    }
}

} // verus!
