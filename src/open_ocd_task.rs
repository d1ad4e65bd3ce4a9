use vstd::prelude::*;

use crate::text::join3;

verus! {

/// Script of the flashing tool that removes the read protection.
pub const UNLOCK_SCRIPT_FILENAME: &'static str = "f1x-unlock.cfg";

/// Script that erases the target.
pub const ERASE_SCRIPT_FILENAME: &'static str = "f1x-erase.cfg";

/// Script that flashes the bootloader copied to the scratch directory.
pub const FLASH_SCRIPT_FILENAME: &'static str = "f1x-flash.cfg";

/// Target configuration of the radio co-processor board.
pub const WB55_CONFIG: &'static str = "wb5x.cfg";

/// The arguments that add the tool's search directories, in the order they
/// are searched: the tool's own scripts, then configurations, scratch files
/// and wireless-stack images.
pub open spec fn search_args_of(config_dir: Seq<char>, tmp_dir: Seq<char>, ws_dir: Seq<char>) -> Seq<Seq<char>> {
    seq!["-s"@, "scripts"@, "-s"@, config_dir, "-s"@, tmp_dir, "-s"@, ws_dir]
}

/// The views of a list of strings.
pub open spec fn views(v: Seq<String>) -> Seq<Seq<char>> {
    v.map_values(|s: String| s@)
}

fn push_str(v: &mut Vec<String>, s: &str)
    ensures
        final(v)@.len() == old(v)@.len() + 1,
        views(final(v)@) == views(old(v)@).push(s@),
{
    v.push(String::from_str(s));
    assert(views(v@) =~= views(old(v)@).push(s@));
}

pub fn search_path_args(config_dir: &str, tmp_dir: &str, ws_dir: &str) -> (r: Vec<String>)
    ensures
        views(r@) == search_args_of(config_dir@, tmp_dir@, ws_dir@),
{
    let mut v: Vec<String> = Vec::new();
    push_str(&mut v, "-s");
    push_str(&mut v, "scripts");
    push_str(&mut v, "-s");
    push_str(&mut v, config_dir);
    push_str(&mut v, "-s");
    push_str(&mut v, tmp_dir);
    push_str(&mut v, "-s");
    push_str(&mut v, ws_dir);
    assert(views(v@) =~= search_args_of(config_dir@, tmp_dir@, ws_dir@));
    v
}

/// Arguments that run one script of the tool.
pub fn script_args(script_path: &str) -> (r: Vec<String>)
    ensures
        views(r@) == seq!["-f"@, script_path@],
{
    let mut v: Vec<String> = Vec::new();
    push_str(&mut v, "-f");
    push_str(&mut v, script_path);
    assert(views(v@) =~= seq!["-f"@, script_path@]);
    v
}

/// Arguments that flash the bootloader: the scratch directory where it was
/// copied is searched first, then the flash script runs.
pub fn flash_target_args(tmp_dir: &str, script_path: &str) -> (r: Vec<String>)
    ensures
        views(r@) == seq!["-s"@, tmp_dir@, "-f"@, script_path@],
{
    let mut v: Vec<String> = Vec::new();
    push_str(&mut v, "-s");
    push_str(&mut v, tmp_dir);
    push_str(&mut v, "-f");
    push_str(&mut v, script_path);
    assert(views(v@) =~= seq!["-s"@, tmp_dir@, "-f"@, script_path@]);
    v
}

/// Arguments that program `file` on the radio board, verify it, reset the
/// board and exit.
pub fn flash_wb55_args(file: &str) -> (r: Vec<String>)
    ensures
        views(r@) == seq![
            "-f"@,
            "wb5x.cfg"@,
            "-c"@,
            "program "@ + file@ + " verify reset"@,
            "-c"@,
            "reset run"@,
            "-c"@,
            "exit"@,
        ],
{
    let mut v: Vec<String> = Vec::new();
    push_str(&mut v, "-f");
    push_str(&mut v, WB55_CONFIG);
    push_str(&mut v, "-c");
    let program = join3("program ", file, " verify reset");
    push_str(&mut v, program.as_str());
    push_str(&mut v, "-c");
    push_str(&mut v, "reset run");
    push_str(&mut v, "-c");
    push_str(&mut v, "exit");
    assert(views(v@) =~= seq![
        "-f"@,
        "wb5x.cfg"@,
        "-c"@,
        "program "@ + file@ + " verify reset"@,
        "-c"@,
        "reset run"@,
        "-c"@,
        "exit"@,
    ]);
    v
}

} // verus!
