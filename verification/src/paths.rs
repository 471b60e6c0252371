//! Path resolution decisions for the directory messages.
//!
//! Which directory is handed to the game depends only on plain facts the
//! caller establishes first: the variant, whether certain folders exist,
//! and the OS-reported document and working directories.

use crate::variant::{GameType, StoreType};
use vstd::prelude::*;
use vstd::string::StringExecFns;

verus! {

/// The directory the game's metadata lives in: the per-user documents
/// folder under the title's fixed subpath, unless this is the e-store
/// edition or the local music folder marks a portable install, in which
/// case it is the working directory itself.
pub open spec fn spec_game_metadata_path(
    game: GameType,
    music_folder_present: bool,
    documents_dir: Seq<char>,
    current_dir: Seq<char>,
) -> Seq<char> {
    if game != GameType::FF7(StoreType::EStore) && !music_folder_present {
        documents_dir + "\\Square Enix\\FINAL FANTASY "@ + (if game is FF8 {
            "VIII Steam"@
        } else {
            "VII Steam"@
        })
    } else {
        current_dir
    }
}

/// Resolves the game's metadata directory from the variant, the presence of
/// the local music folder, and the two OS-reported directories.
pub fn get_game_metadata_path(
    game: &GameType,
    music_folder_present: bool,
    documents_dir: &str,
    current_dir: &str,
) -> (r: String)
    ensures
        r@ == spec_game_metadata_path(*game, music_folder_present, documents_dir@, current_dir@),
{
    if *game != GameType::FF7(StoreType::EStore) && !music_folder_present {
        let mut p = String::from_str(documents_dir);
        p.append("\\Square Enix\\FINAL FANTASY ");
        match game {
            GameType::FF7(_) => p.append("VII Steam"),
            GameType::FF8 => p.append("VIII Steam"),
        }
        proof {
            assert(p@ =~= spec_game_metadata_path(
                *game,
                music_folder_present,
                documents_dir@,
                current_dir@,
            ));
        }
        p
    } else {
        String::from_str(current_dir)
    }
}

/// The view of an optional string.
pub open spec fn spec_option_str(o: Option<String>) -> Option<Seq<char>> {
    match o {
        Some(s) => Some(s@),
        None => None,
    }
}

/// The save directory handed to the game: the metadata directory with the
/// literal save suffix when a local save folder exists, else with the
/// discovered per-user subdirectory when one was found, else unchanged.
pub open spec fn spec_save_dir(
    base: Seq<char>,
    save_folder_present: bool,
    user_subdir: Option<Seq<char>>,
) -> Seq<char> {
    if save_folder_present {
        base + "\\save"@
    } else {
        match user_subdir {
            Some(u) => base + "\\"@ + u,
            None => base,
        }
    }
}

/// Resolves the save directory from the metadata directory, the presence of
/// a local save folder, and the per-user subdirectory the caller discovered.
pub fn resolve_save_dir(base: &str, save_folder_present: bool, user_subdir: &Option<String>) -> (r:
    String)
    ensures
        r@ == spec_save_dir(base@, save_folder_present, spec_option_str(*user_subdir)),
{
    let mut p = String::from_str(base);
    if save_folder_present {
        p.append("\\save");
    } else {
        match user_subdir {
            Some(u) => {
                p.append("\\");
                p.append(u.as_str());
                proof {
                    assert(p@ =~= base@ + "\\"@ + u@);
                }
            },
            None => {},
        }
    }
    p
}

} // verus!
