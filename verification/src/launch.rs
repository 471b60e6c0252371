//! Startup decisions: which executable runs, which variant it is, which
//! language it carries, and the names of the session's OS objects.
//!
//! All of it is pure string and size logic; the caller only reports which
//! candidate executables exist and how large the driver file is.

use crate::variant::{GameType, StoreType};
use crate::LauncherError;
use vstd::prelude::*;
use vstd::string::{StrSliceExecFns, StringExecFns};

verus! {

/// A driver file under one megabyte marks the e-store edition.
pub const DRIVER_SIZE_THRESHOLD: u64 = 1048576;

/// Whether `s` begins with `prefix`.
pub open spec fn spec_starts_with(s: Seq<char>, prefix: Seq<char>) -> bool {
    s.len() >= prefix.len() && s.take(prefix.len() as int) == prefix
}

/// Compares the first characters of `s` against `prefix`.
pub fn str_starts_with(s: &str, prefix: &str) -> (b: bool)
    ensures
        b == spec_starts_with(s@, prefix@),
{
    let n = s.unicode_len();
    let m = prefix.unicode_len();
    if m > n {
        return false;
    }
    let mut i: usize = 0;
    while i < m
        invariant
            i <= m <= n,
            n == s@.len(),
            m == prefix@.len(),
            forall|j: int| 0 <= j < i ==> s@[j] == prefix@[j],
        decreases m - i,
    {
        if s.get_char(i) != prefix.get_char(i) {
            proof {
                assert(s@.take(m as int)[i as int] == s@[i as int]);
            }
            return false;
        }
        i = i + 1;
    }
    proof {
        assert(s@.take(m as int) =~= prefix@);
    }
    true
}

/// The position of the first occurrence of `c` in `s`.
pub open spec fn spec_find(s: Seq<char>, c: char) -> Option<int>
    decreases s.len(),
{
    if s.len() == 0 {
        None
    } else if s[0] == c {
        Some(0)
    } else {
        match spec_find(s.drop_first(), c) {
            Some(i) => Some(i + 1),
            None => None,
        }
    }
}

/// A first occurrence found by scanning is the first occurrence.
proof fn lemma_find_first(s: Seq<char>, c: char, i: int)
    requires
        0 <= i < s.len(),
        s[i] == c,
        forall|j: int| 0 <= j < i ==> s[j] != c,
    ensures
        spec_find(s, c) == Some(i),
    decreases i,
{
    if i > 0 {
        lemma_find_first(s.drop_first(), c, i - 1);
    }
}

/// A scan that saw no occurrence proves there is none.
proof fn lemma_find_none(s: Seq<char>, c: char)
    requires
        forall|j: int| 0 <= j < s.len() ==> s[j] != c,
    ensures
        spec_find(s, c) is None,
    decreases s.len(),
{
    if s.len() > 0 {
        lemma_find_none(s.drop_first(), c);
    }
}

/// Finds the first occurrence of `c` in `s`.
fn find_char(s: &str, c: char) -> (r: Option<usize>)
    ensures
        match r {
            Some(i) => i < s@.len() && s@[i as int] == c && spec_find(s@, c) == Some(i as int),
            None => spec_find(s@, c) is None,
        },
{
    let n = s.unicode_len();
    let mut i: usize = 0;
    while i < n
        invariant
            i <= n,
            n == s@.len(),
            forall|j: int| 0 <= j < i ==> s@[j] != c,
        decreases n - i,
    {
        if s.get_char(i) == c {
            proof {
                lemma_find_first(s@, c, i as int);
            }
            return Some(i);
        }
        i = i + 1;
    }
    proof {
        lemma_find_none(s@, c);
    }
    None
}

/// The literal suffix stripped from an executable name.
pub open spec fn exe_suffix() -> Seq<char> {
    seq!['.', 'e', 'x', 'e']
}

/// `s` with every trailing executable suffix removed.
pub open spec fn spec_trim_exe(s: Seq<char>) -> Seq<char>
    decreases s.len(),
{
    if s.len() >= 4 && s.skip(s.len() - 4) == exe_suffix() {
        spec_trim_exe(s.take(s.len() - 4))
    } else {
        s
    }
}

/// The language token of an executable name: the text between the first
/// separator and the second (or the end), or the whole name when there is
/// no separator.
pub open spec fn spec_lang_token(s: Seq<char>) -> Seq<char> {
    match spec_find(s, '_') {
        None => s,
        Some(i) => {
            let rest = s.skip(i + 1);
            match spec_find(rest, '_') {
                None => rest,
                Some(j) => rest.take(j),
            }
        },
    }
}

/// The language an executable name carries: its language token with any
/// trailing executable suffix stripped.
pub open spec fn spec_extract_lang(s: Seq<char>) -> Seq<char> {
    spec_trim_exe(spec_lang_token(s))
}

/// Whether `s` ends with the executable suffix.
fn ends_with_exe(s: &str) -> (b: bool)
    ensures
        b == (s@.len() >= 4 && s@.skip(s@.len() - 4) == exe_suffix()),
{
    let n = s.unicode_len();
    if n < 4 {
        return false;
    }
    let b = s.get_char(n - 4) == '.' && s.get_char(n - 3) == 'e' && s.get_char(n - 2) == 'x'
        && s.get_char(n - 1) == 'e';
    proof {
        if b {
            assert(s@.skip(s@.len() - 4) =~= exe_suffix());
        } else {
            assert(s@.skip(s@.len() - 4)[0] == s@[s@.len() - 4]);
            assert(s@.skip(s@.len() - 4)[1] == s@[s@.len() - 3]);
            assert(s@.skip(s@.len() - 4)[2] == s@[s@.len() - 2]);
            assert(s@.skip(s@.len() - 4)[3] == s@[s@.len() - 1]);
        }
    }
    b
}

/// Extracts the language of an executable name: the token after the first
/// separator (up to a second separator or the end), with every trailing
/// executable suffix removed.
pub fn extract_lang(process_name: &str) -> (r: String)
    ensures
        r@ == spec_extract_lang(process_name@),
{
    let n = process_name.unicode_len();
    let token: &str = match find_char(process_name, '_') {
        None => process_name,
        Some(i) => {
            let rest = process_name.substring_char(i + 1, n);
            proof {
                assert(rest@ =~= process_name@.skip(i + 1));
            }
            match find_char(rest, '_') {
                None => rest,
                Some(j) => {
                    let head = rest.substring_char(0, j);
                    proof {
                        assert(head@ =~= rest@.take(j as int));
                    }
                    head
                },
            }
        },
    };
    let mut t: &str = token;
    while ends_with_exe(t)
        invariant
            spec_trim_exe(t@) == spec_trim_exe(token@),
        decreases t@.len(),
    {
        let m = t.unicode_len();
        let shorter = t.substring_char(0, m - 4);
        proof {
            assert(shorter@ =~= t@.take(t@.len() - 4));
        }
        t = shorter;
    }
    String::from_str(t)
}

/// Classifies the executable: the second title by its name prefix, the
/// e-store edition of the first title by its name and a small driver file,
/// the standard edition otherwise.
pub open spec fn spec_classify_game(name: Seq<char>, driver_small: bool) -> GameType {
    if spec_starts_with(name, "ff8"@) {
        GameType::FF8
    } else if spec_starts_with(name, "ff7_ja"@) && driver_small {
        GameType::FF7(StoreType::EStore)
    } else {
        GameType::FF7(StoreType::Standard)
    }
}

/// Classifies the executable name into the game variant.
pub fn classify_game(process_name: &str, driver_small: bool) -> (g: GameType)
    ensures
        g == spec_classify_game(process_name@, driver_small),
{
    if str_starts_with(process_name, "ff8") {
        GameType::FF8
    } else if str_starts_with(process_name, "ff7_ja") && driver_small {
        GameType::FF7(StoreType::EStore)
    } else {
        GameType::FF7(StoreType::Standard)
    }
}

/// Whether a driver file of this size marks the e-store edition: present
/// and under the size threshold.
pub fn driver_is_small(driver_size: &Option<u64>) -> (b: bool)
    ensures
        b == (driver_size matches Some(s) && s < DRIVER_SIZE_THRESHOLD),
{
    match driver_size {
        Some(s) => *s < DRIVER_SIZE_THRESHOLD,
        None => false,
    }
}

/// Whether a driver file of this size carries the enhanced driver: present
/// and over the size threshold.
pub fn driver_is_ffnx(driver_size: &Option<u64>) -> (b: bool)
    ensures
        b == (driver_size matches Some(s) && s > DRIVER_SIZE_THRESHOLD),
{
    match driver_size {
        Some(s) => *s > DRIVER_SIZE_THRESHOLD,
        None => false,
    }
}

/// Picks the one executable to start: an error when none of the candidates
/// exists, an error when more than one does.
pub fn select_process(available: &Vec<String>) -> (r: Result<String, LauncherError>)
    ensures
        match r {
            Ok(name) => available@.len() == 1 && name@ == available@[0]@,
            Err(e) => (available@.len() == 0 && e == LauncherError::NoProcessFound) || (
            available@.len() > 1 && e == LauncherError::MultipleProcessesFound),
        },
{
    if available.len() > 1 {
        Err(LauncherError::MultipleProcessesFound)
    } else if available.len() == 0 {
        Err(LauncherError::NoProcessFound)
    } else {
        Ok(available[0].clone())
    }
}

/// The executable of the bonus game for a language.
pub fn chocobo_process_name(lang: &str) -> (r: String)
    ensures
        r@ == "chocobo_"@ + lang@ + ".exe"@,
{
    let mut s = String::from_str("chocobo_");
    s.append(lang);
    s.append(".exe");
    proof {
        assert(s@ =~= "chocobo_"@ + lang@ + ".exe"@);
    }
    s
}

/// The session prefix of every named OS object: the bonus game's own
/// prefix when it is launched, else the title's.
pub open spec fn spec_name_prefix(launch_chocobo: bool, game: GameType) -> Seq<char> {
    if launch_chocobo {
        "choco"@
    } else if game is FF8 {
        "ff8"@
    } else {
        "ff7"@
    }
}

/// Selects the session prefix for the named OS objects.
pub fn name_prefix(launch_chocobo: bool, game: &GameType) -> (r: &'static str)
    ensures
        r@ == spec_name_prefix(launch_chocobo, *game),
{
    if launch_chocobo {
        "choco"
    } else {
        match game {
            GameType::FF7(_) => "ff7",
            GameType::FF8 => "ff8",
        }
    }
}

/// The named OS objects of one session.
#[derive(Clone, Copy, Debug, PartialEq, Eq, Structural)]
pub enum SessionObject {
    /// Outbound handshake: the game may read the mailbox.
    GameCanReadSem,
    /// Outbound handshake: the game has read the mailbox.
    GameDidReadSem,
    /// Inbound handshake: the launcher may answer the game.
    LauncherCanReadSem,
    /// Inbound handshake: the launcher has answered the game.
    LauncherDidReadSem,
    /// The shared memory region holding the mailbox.
    SharedMemory,
}

/// The fixed name suffix of a session object.
pub open spec fn spec_object_suffix(o: SessionObject) -> Seq<char> {
    match o {
        SessionObject::GameCanReadSem => "_gameCanReadMsgSem"@,
        SessionObject::GameDidReadSem => "_gameDidReadMsgSem"@,
        SessionObject::LauncherCanReadSem => "_launcherCanReadMsgSem"@,
        SessionObject::LauncherDidReadSem => "_launcherDidReadMsgSem"@,
        SessionObject::SharedMemory => "_sharedMemoryWithLauncher"@,
    }
}

/// The full name of a session object: the session prefix and the object's
/// fixed suffix.
pub fn object_name(prefix: &str, o: SessionObject) -> (r: String)
    ensures
        r@ == prefix@ + spec_object_suffix(o),
{
    let mut s = String::from_str(prefix);
    match o {
        SessionObject::GameCanReadSem => s.append("_gameCanReadMsgSem"),
        SessionObject::GameDidReadSem => s.append("_gameDidReadMsgSem"),
        SessionObject::LauncherCanReadSem => s.append("_launcherCanReadMsgSem"),
        SessionObject::LauncherDidReadSem => s.append("_launcherDidReadMsgSem"),
        SessionObject::SharedMemory => s.append("_sharedMemoryWithLauncher"),
    }
    s
}

} // verus!
