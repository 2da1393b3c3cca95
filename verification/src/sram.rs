//! Where battery saves, clock data and save states live, and the checks
//! made before core memory is filled from a save file.
use vstd::prelude::*;
use crate::text::{chars_of, string_from_chars, concat_str};

verus! {

/// libretro memory id of the battery-backed save RAM.
pub const RETRO_MEMORY_SAVE_RAM: u32 = 0;

/// libretro memory id of the real-time clock data.
pub const RETRO_MEMORY_RTC: u32 = 1;

/// A Unix path with `part` appended, as `Path::join` builds it: an absolute
/// `part` replaces the path; otherwise a `/` separates the two unless the
/// path is empty or already ends with one.
pub open spec fn path_join(base: Seq<char>, part: Seq<char>) -> Seq<char> {
    if part.len() > 0 && part[0] == '/' {
        part
    } else if base.len() > 0 && base.last() != '/' {
        base + seq!['/'] + part
    } else {
        base + part
    }
}

/// `base` joined with `part`.
pub fn join_path(base: &str, part: &str) -> (p: String)
    ensures
        p@ == path_join(base@, part@),
{
    let b = chars_of(base);
    let mut q = chars_of(part);
    if q.len() > 0 && q[0] == '/' {
        return string_from_chars(q);
    }
    let mut out = b;
    if out.len() > 0 && out[out.len() - 1] != '/' {
        out.push('/');
    }
    let ghost head = out@;
    out.append(&mut q);
    proof {
        if base@.len() > 0 && base@.last() != '/' {
            assert(head =~= base@ + seq!['/']);
        } else {
            assert(head =~= base@);
        }
        assert(out@ =~= head + part@);
    }
    string_from_chars(out)
}

/// The save directory of a core: `<system_dir>/saves/<core_name>`.
pub fn get_save_dir(system_dir: &str, core_name: &str) -> (p: String)
    ensures
        p@ == path_join(path_join(system_dir@, "saves"@), core_name@),
{
    let saves = join_path(system_dir, "saves");
    join_path(saves.as_str(), core_name)
}

/// The save-state file of a game: `<save_dir>/<game_name>.state`.
pub fn state_path(save_dir: &str, game_name: &str) -> (p: String)
    ensures
        p@ == path_join(save_dir@, game_name@ + ".state"@),
{
    let f = concat_str(game_name, ".state");
    join_path(save_dir, f.as_str())
}

/// The battery-save file of a game: `<save_dir>/<game_name>.sav`.
pub fn sram_path(save_dir: &str, game_name: &str) -> (p: String)
    ensures
        p@ == path_join(save_dir@, game_name@ + ".sav"@),
{
    let f = concat_str(game_name, ".sav");
    join_path(save_dir, f.as_str())
}

/// The clock-data file of a game: `<save_dir>/<game_name>.rtc`.
pub fn rtc_path(save_dir: &str, game_name: &str) -> (p: String)
    ensures
        p@ == path_join(save_dir@, game_name@ + ".rtc"@),
{
    let f = concat_str(game_name, ".rtc");
    join_path(save_dir, f.as_str())
}

/// What is done with a save file read from disk, given the size of the
/// core memory it belongs to.
#[derive(Clone, Copy, PartialEq, Eq, Structural, Debug)]
pub enum SaveFileAction {
    /// The sizes agree and are not zero: copy the file into core memory.
    Load,
    /// The core has such memory but the file's size differs: skip it.
    SizeMismatch,
    /// The core has no such memory (and the file is empty or of another size).
    Ignore,
}

/// Decide what to do with a save file of `file_len` bytes for core memory
/// of `core_size` bytes.
pub fn save_file_action(file_len: usize, core_size: usize) -> (a: SaveFileAction)
    ensures
        a == (if file_len == core_size && file_len != 0 {
            SaveFileAction::Load
        } else if core_size > 0 {
            SaveFileAction::SizeMismatch
        } else {
            SaveFileAction::Ignore
        }),
{
    if file_len == core_size && file_len != 0 {
        SaveFileAction::Load
    } else if core_size > 0 {
        SaveFileAction::SizeMismatch
    } else {
        SaveFileAction::Ignore
    }
}

} // verus!
