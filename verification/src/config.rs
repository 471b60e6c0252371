//! Launcher configuration: values read from a TOML key/value file, with
//! defaults filled in from the current display mode and the game variant.
//!
//! Parsing is done by the `toml` crate; everything read out of the parsed
//! table is a plain boolean or integer, and the defaulting rules applied to
//! those values are verified here.

use crate::variant::GameType;
use crate::LauncherError;
use vstd::prelude::*;

verus! {

/// TOML's map type, declared so its values can cross verified signatures.
#[verifier::external_type_specification]
#[verifier::external_body]
#[verifier::reject_recursive_types(K)]
#[verifier::reject_recursive_types(V)]
pub struct ExTomlMap<K, V>(toml::map::Map<K, V>);

/// TOML's value type, declared opaquely.
#[verifier::external_type_specification]
#[verifier::external_body]
pub struct ExTomlValue(toml::Value);

/// TOML's parse error type, declared opaquely.
#[verifier::external_type_specification]
#[verifier::external_body]
pub struct ExTomlError(toml::de::Error);

/// The boolean entries of a parsed table: the keys whose value is a boolean,
/// each mapped to that boolean.
pub uninterp spec fn table_bools(t: toml::Table) -> Map<Seq<char>, bool>;

/// The integer entries of a parsed table: the keys whose value is an
/// integer, each mapped to that integer.
pub uninterp spec fn table_ints(t: toml::Table) -> Map<Seq<char>, i64>;

/// Relies on toml::from_str: parses TOML text into a table of key/value
/// pairs, or reports a parse error.
#[verifier::external_body]
fn parse_toml_table(text: &str) -> Result<toml::Table, toml::de::Error> {
    toml::from_str::<toml::Table>(text)
}

/// Relies on toml::map::Map::get and toml::Value::as_bool: looks a key up in
/// the table and extracts its value when that value is a boolean.
#[verifier::external_body]
fn table_get_bool(t: &toml::Table, key: &str) -> (r: Option<bool>)
    ensures
        r == (if table_bools(*t).dom().contains(key@) {
            Some(table_bools(*t)[key@])
        } else {
            None::<bool>
        }),
{
    match t.get(key) {
        Some(v) => v.as_bool(),
        None => None,
    }
}

/// Relies on toml::map::Map::get and toml::Value::as_integer: looks a key up
/// in the table and extracts its value when that value is an integer.
#[verifier::external_body]
fn table_get_integer(t: &toml::Table, key: &str) -> (r: Option<i64>)
    ensures
        r == (if table_ints(*t).dom().contains(key@) {
            Some(table_ints(*t)[key@])
        } else {
            None::<i64>
        }),
{
    match t.get(key) {
        Some(v) => v.as_integer(),
        None => None,
    }
}

/// A display mode reported by the OS: pixel size and refresh frequency.
#[derive(Clone, Copy, Debug, PartialEq, Eq, Structural)]
pub struct DisplayMode {
    pub width: u32,
    pub height: u32,
    pub frequency: u32,
}

/// The configuration handed to the launcher.
#[derive(Clone, Copy, Debug, PartialEq, Eq, Structural)]
pub struct Config {
    pub fullscreen: bool,
    pub window_width: u32,
    pub window_height: u32,
    pub refresh_rate: u32,
    pub enable_linear_filtering: bool,
    pub keep_aspect_ratio: bool,
    pub original_mode: bool,
    pub pause_game_on_background: bool,
    pub sfx_volume: i32,
    pub music_volume: i32,
    pub launch_chocobo: bool,
}

/// The configuration used when no file overrides anything: everything off
/// and zero, except full volume on both channels.
pub open spec fn spec_default_config() -> Config {
    Config {
        fullscreen: false,
        window_width: 0,
        window_height: 0,
        refresh_rate: 0,
        enable_linear_filtering: false,
        keep_aspect_ratio: false,
        original_mode: false,
        pause_game_on_background: false,
        sfx_volume: 100,
        music_volume: 100,
        launch_chocobo: false,
    }
}

impl Default for Config {
    /// The default configuration: volumes at 100, everything else off.
    fn default() -> (c: Config)
        ensures
            c == spec_default_config(),
    {
        Config {
            fullscreen: false,
            window_width: 0,
            window_height: 0,
            refresh_rate: 0,
            enable_linear_filtering: false,
            keep_aspect_ratio: false,
            original_mode: false,
            pause_game_on_background: false,
            sfx_volume: 100,
            music_volume: 100,
            launch_chocobo: false,
        }
    }
}

/// The boolean stored under a key, or false when the key has no boolean.
pub open spec fn spec_bool_entry(bools: Map<Seq<char>, bool>, key: Seq<char>) -> bool {
    if bools.dom().contains(key) {
        bools[key]
    } else {
        false
    }
}

/// The integer stored under a key, or zero when the key has no integer.
pub open spec fn spec_int_entry(ints: Map<Seq<char>, i64>, key: Seq<char>) -> i64 {
    if ints.dom().contains(key) {
        ints[key]
    } else {
        0
    }
}

/// A file integer taken as a `u32` the way the games expect:
/// negative values become zero, larger values keep their low 32 bits.
pub open spec fn spec_int_as_u32(v: i64) -> u32 {
    if v < 0 {
        0
    } else {
        (v % 0x100000000) as u32
    }
}

/// A file integer taken as an `i32` the way the games expect:
/// negative values become zero, larger values keep their low 32 bits,
/// reinterpreted as a signed value.
pub open spec fn spec_int_as_i32(v: i64) -> i32 {
    if v < 0 {
        0
    } else {
        let low = v % 0x100000000;
        if low >= 0x80000000 {
            (low - 0x100000000) as i32
        } else {
            low as i32
        }
    }
}

/// The configuration resolved from the file's boolean and integer entries,
/// the reported display mode, and the game variant: missing booleans are
/// false, missing integers zero; a window geometry left entirely unset is
/// taken from the display in fullscreen (when one was reported) and is
/// 640x480 at 60 Hz otherwise; and the first title never pauses in the
/// background nor launches the bonus game.
pub open spec fn spec_resolve_config(
    bools: Map<Seq<char>, bool>,
    ints: Map<Seq<char>, i64>,
    display: Option<DisplayMode>,
    game: GameType,
) -> Config {
    let fullscreen = spec_bool_entry(bools, "fullscreen"@);
    let w0 = spec_int_as_u32(spec_int_entry(ints, "window_width"@));
    let h0 = spec_int_as_u32(spec_int_entry(ints, "window_height"@));
    let r0 = spec_int_as_u32(spec_int_entry(ints, "refresh_rate"@));
    let geometry = if w0 == 0 && h0 == 0 {
        match display {
            Some(d) if fullscreen => (d.width, d.height, if r0 == 0 { d.frequency } else { r0 }),
            _ => (640u32, 480u32, if r0 == 0 { 60u32 } else { r0 }),
        }
    } else {
        (w0, h0, r0)
    };
    let ff7 = game is FF7;
    Config {
        fullscreen,
        window_width: geometry.0,
        window_height: geometry.1,
        refresh_rate: geometry.2,
        enable_linear_filtering: spec_bool_entry(bools, "enable_linear_filtering"@),
        keep_aspect_ratio: spec_bool_entry(bools, "keep_aspect_ratio"@),
        original_mode: spec_bool_entry(bools, "original_mode"@),
        pause_game_on_background: !ff7 && spec_bool_entry(bools, "pause_game_on_background"@),
        sfx_volume: spec_int_as_i32(spec_int_entry(ints, "sfx_volume"@)),
        music_volume: spec_int_as_i32(spec_int_entry(ints, "music_volume"@)),
        launch_chocobo: !ff7 && spec_bool_entry(bools, "launch_chocobo"@),
    }
}

/// A boolean entry read from the table, or false.
fn bool_entry(table: &toml::Table, key: &str) -> (r: bool)
    ensures
        r == spec_bool_entry(table_bools(*table), key@),
{
    match table_get_bool(table, key) {
        Some(b) => b,
        None => false,
    }
}

/// An integer entry read from the table, or zero.
fn int_entry(table: &toml::Table, key: &str) -> (r: i64)
    ensures
        r == spec_int_entry(table_ints(*table), key@),
{
    match table_get_integer(table, key) {
        Some(v) => v,
        None => 0,
    }
}

/// Takes a file integer as a `u32`: zero when negative, else its low 32 bits.
fn int_as_u32(v: i64) -> (r: u32)
    ensures
        r == spec_int_as_u32(v),
{
    if v < 0 {
        0
    } else {
        (v % 0x100000000) as u32
    }
}

/// Takes a file integer as an `i32`: zero when negative, else its low 32
/// bits reinterpreted as signed.
fn int_as_i32(v: i64) -> (r: i32)
    ensures
        r == spec_int_as_i32(v),
{
    if v < 0 {
        0
    } else {
        let low = v % 0x100000000;
        if low >= 0x80000000 {
            (low - 0x100000000) as i32
        } else {
            low as i32
        }
    }
}

impl Config {
    /// Resolves the configuration from a parsed table, the reported display
    /// mode, and the game variant.
    pub fn resolve(table: &toml::Table, display: &Option<DisplayMode>, game: &GameType) -> (c:
        Config)
        ensures
            c == spec_resolve_config(table_bools(*table), table_ints(*table), *display, *game),
    {
        let fullscreen = bool_entry(table, "fullscreen");
        let mut window_width = int_as_u32(int_entry(table, "window_width"));
        let mut window_height = int_as_u32(int_entry(table, "window_height"));
        let mut refresh_rate = int_as_u32(int_entry(table, "refresh_rate"));
        if window_width == 0 && window_height == 0 {
            match display {
                Some(d) if fullscreen => {
                    window_width = d.width;
                    window_height = d.height;
                    if refresh_rate == 0 {
                        refresh_rate = d.frequency;
                    }
                },
                _ => {
                    window_width = 640;
                    window_height = 480;
                    if refresh_rate == 0 {
                        refresh_rate = 60;
                    }
                },
            }
        }
        let mut pause_game_on_background = bool_entry(table, "pause_game_on_background");
        let mut launch_chocobo = bool_entry(table, "launch_chocobo");
        if let GameType::FF7(_) = game {
            pause_game_on_background = false;
            launch_chocobo = false;
        }
        Config {
            fullscreen,
            window_width,
            window_height,
            refresh_rate,
            enable_linear_filtering: bool_entry(table, "enable_linear_filtering"),
            keep_aspect_ratio: bool_entry(table, "keep_aspect_ratio"),
            original_mode: bool_entry(table, "original_mode"),
            pause_game_on_background,
            sfx_volume: int_as_i32(int_entry(table, "sfx_volume")),
            music_volume: int_as_i32(int_entry(table, "music_volume")),
            launch_chocobo,
        }
    }

    /// Parses configuration text and resolves it against the reported
    /// display mode and the game variant. Unparsable text is rejected; any
    /// configuration returned is the resolution of some table of boolean and
    /// integer entries.
    pub fn from_config_file(text: &str, display: &Option<DisplayMode>, game: &GameType) -> (r:
        Result<Config, LauncherError>)
        ensures
            r matches Ok(c) ==> exists|bools: Map<Seq<char>, bool>, ints: Map<Seq<char>, i64>|
                c == spec_resolve_config(bools, ints, *display, *game),
            r matches Err(e) ==> e == LauncherError::InvalidConfig,
    {
        match parse_toml_table(text) {
            Ok(table) => {
                let c = Config::resolve(&table, display, game);
                proof {
                    assert(c == spec_resolve_config(
                        table_bools(table),
                        table_ints(table),
                        *display,
                        *game,
                    ));
                }
                Ok(c)
            },
            Err(_) => Err(LauncherError::InvalidConfig),
        }
    }
}

} // verus!
