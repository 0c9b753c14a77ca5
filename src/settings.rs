use vstd::prelude::*;

verus! {

/// The fixed values of a launch: where the control group lives, how many
/// processes it admits, and the container's hostname.
pub struct Settings {
    pub cgroup_dir: String,
    pub max_pids: u32,
    pub hostname: String,
}

impl Settings {
    /// The values every launch uses unless told otherwise.
    pub fn standard() -> (r: Settings)
        ensures
            r.cgroup_dir@ == "/sys/fs/cgroup/pids/ctr"@,
            r.max_pids == 20,
            r.hostname@ == "ctr"@,
    {
        Settings { cgroup_dir: "/sys/fs/cgroup/pids/ctr".to_owned(), max_pids: 20, hostname: "ctr".to_owned() }
    }
}

} // verus!
