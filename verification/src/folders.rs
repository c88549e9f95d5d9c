//! Replay-folder discovery decisions and folder display information. The
//! host probes the file system for the candidate folders; which one is
//! chosen, how the platform is named and how the path is displayed is
//! decided here.

use vstd::prelude::*;
use vstd::string::StrSliceExecFns;
use vstd::string::StringExecFns;
use crate::paths;
use crate::text;
use crate::types::DetectedFolder;
use crate::types::FolderInfo;

verus! {

/// Pick the default replay folder from the candidates that exist on this
/// machine: the Epic Games folder takes precedence over the Steam one.
pub fn pick_replay_folder(epic: Option<String>, steam: Option<String>) -> (r: Option<String>)
    ensures
        epic matches Some(e) ==> r == Some(e),
        epic is None ==> r == steam,
{
    match epic {
        Some(e) => Some(e),
        None => steam,
    }
}

/// The chosen replay folder, or the not-found condition when no candidate
/// exists.
pub fn detect_replay_folder(folder: Option<String>) -> (r: Result<String, String>)
    ensures
        folder matches Some(f) ==> r == Ok::<String, String>(f),
        folder is None ==> (r matches Err(m) && m@ == "Rocket League replay folder not found"@),
{
    match folder {
        Some(f) => Ok(f),
        None => Err(String::from_str("Rocket League replay folder not found")),
    }
}

/// List every replay folder that exists, Steam's first, each labelled with
/// its platform.
pub fn detect_all_replay_folders(steam: Option<String>, epic: Option<String>) -> (r: Vec<
    DetectedFolder,
>)
    ensures
        r@.len() == (if steam is Some {
            1int
        } else {
            0int
        }) + (if epic is Some {
            1int
        } else {
            0int
        }),
        steam matches Some(s) ==> r@[0].path == s && r@[0].platform@ == "steam"@,
        epic matches Some(e) ==> (r@.last().path == e && r@.last().platform@ == "epic"@),
{
    let mut folders: Vec<DetectedFolder> = Vec::new();
    match steam {
        Some(s) => {
            folders.push(DetectedFolder { path: s, platform: String::from_str("steam") });
        },
        None => {},
    }
    match epic {
        Some(e) => {
            folders.push(DetectedFolder { path: e, platform: String::from_str("epic") });
        },
        None => {},
    }
    folders
}

/// Characters of the path kept for display.
pub const DISPLAY_PATH_LEN: usize = 40;

/// Describe the configured folder for display: its truncated path, the
/// platform its name suggests, and whether the host found it on disk. An
/// empty configured path is the not-configured condition.
pub fn get_folder_info(path: String, exists: bool) -> (r: Result<FolderInfo, String>)
    ensures
        path@.len() == 0 ==> (r matches Err(m) && m@ == "No replay folder configured"@),
        path@.len() > 0 ==> (r matches Ok(info) && info.path == path && info.exists == exists
            && info.platform@ == paths::spec_platform_of(path@) && info.display_path@ == (
        if path@.len() <= DISPLAY_PATH_LEN {
            path@
        } else {
            "..."@ + path@.skip(path@.len() - (DISPLAY_PATH_LEN - 3))
        })),
{
    if path.as_str().unicode_len() == 0 {
        return Err(String::from_str("No replay folder configured"));
    }
    let display_path = paths::truncate_path(path.as_str(), DISPLAY_PATH_LEN);
    let platform = paths::detect_platform(path.as_str());
    Ok(FolderInfo { path, display_path, platform, exists })
}

} // verus!
