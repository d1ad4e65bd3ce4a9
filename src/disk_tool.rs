use vstd::prelude::*;

use crate::text::join3;

verus! {

/// A mounted volume: the name it is known by and where it is mounted.
#[derive(Debug, Clone)]
pub struct DiskResult {
    pub name: String,
    pub path: String,
}

/// Time between two looks at the list of mounted volumes.
pub const POLL_INTERVAL_MS: u64 = 500;

/// Some volume of `disks` is named `name`.
pub open spec fn has_disk(disks: Seq<DiskResult>, name: Seq<char>) -> bool {
    exists|i: int| 0 <= i < disks.len() && (#[trigger] disks[i]).name@ == name
}

pub open spec fn unable_to_find_text(name: Seq<char>) -> Seq<char> {
    "Unable to find '"@ + name + "' disk."@
}

/// Finds the first volume named `disk_name`, by its index in `disks`.
pub fn locate_disk(disks: &Vec<DiskResult>, disk_name: &str) -> (r: Result<usize, String>)
    ensures
        match r {
            Ok(i) => {
                &&& i < disks@.len()
                &&& disks@[i as int].name@ == disk_name@
                &&& forall|j: int| 0 <= j < i ==> (#[trigger] disks@[j]).name@ != disk_name@
            },
            Err(e) => !has_disk(disks@, disk_name@) && e@ == unable_to_find_text(disk_name@),
        },
{
    let target = String::from_str(disk_name);
    let mut i: usize = 0;
    while i < disks.len()
        invariant
            i <= disks@.len(),
            target@ == disk_name@,
            forall|j: int| 0 <= j < i ==> (#[trigger] disks@[j]).name@ != disk_name@,
        decreases disks@.len() - i,
    {
        if disks[i].name == target {
            return Ok(i);
        }
        i = i + 1;
    }
    Err(join3("Unable to find '", disk_name, "' disk."))
}

/// What the wait for a volume does after one more look at the mounted volumes.
#[derive(Clone, Copy, Debug, PartialEq, Eq, Structural)]
pub enum DriveWait {
    /// The volume is there.
    Found,
    /// Not there yet: look again after `POLL_INTERVAL_MS`.
    PollAgain,
    /// The wait is over without the volume.
    TimedOut,
}

/// Decides the next move of the wait for volume `disk_name`, `elapsed_ms`
/// after the wait started, given the volumes mounted now.
pub fn wait_for_drive_step(disks: &Vec<DiskResult>, disk_name: &str, elapsed_ms: u64, timeout_ms: u64) -> (r: DriveWait)
    ensures
        elapsed_ms > timeout_ms ==> r == DriveWait::TimedOut,
        elapsed_ms <= timeout_ms && has_disk(disks@, disk_name@) ==> r == DriveWait::Found,
        elapsed_ms <= timeout_ms && !has_disk(disks@, disk_name@) ==> r == DriveWait::PollAgain,
{
    if elapsed_ms > timeout_ms {
        return DriveWait::TimedOut;
    }
    match locate_disk(disks, disk_name) {
        Ok(_) => DriveWait::Found,
        Err(_) => DriveWait::PollAgain,
    }
}

} // verus!
