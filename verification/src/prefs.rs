//! Fixed-layout preference files the game reads directly.
//!
//! Two one-shot files carry the video and sound settings. The first title
//! reads its video values big-endian; the second reads everything
//! little-endian and takes one extra value. The sound file is two signed
//! little-endian volumes.

use crate::codec::{i32_le, push_i32_le, push_u32_be, push_u32_le, u32_be, u32_le};
use crate::config::Config;
use crate::variant::GameType;
use vstd::prelude::*;

verus! {

/// 1 for a set flag, 0 for a cleared one.
pub open spec fn spec_flag_u32(b: bool) -> u32 {
    if b {
        1
    } else {
        0
    }
}

/// The byte image of the video preference file: width, height, refresh
/// rate, fullscreen, a reserved zero, aspect-ratio keep, linear filtering
/// and original mode — big-endian for the first title; little-endian, with
/// the background-pause flag appended, for the second.
pub open spec fn spec_ffvideo_bytes(config: Config, game: GameType) -> Seq<u8> {
    match game {
        GameType::FF7(_) => u32_be(config.window_width) + u32_be(config.window_height) + u32_be(
            config.refresh_rate,
        ) + u32_be(spec_flag_u32(config.fullscreen)) + u32_be(0) + u32_be(
            spec_flag_u32(config.keep_aspect_ratio),
        ) + u32_be(spec_flag_u32(config.enable_linear_filtering)) + u32_be(
            spec_flag_u32(config.original_mode),
        ),
        GameType::FF8 => u32_le(config.window_width) + u32_le(config.window_height) + u32_le(
            config.refresh_rate,
        ) + u32_le(spec_flag_u32(config.fullscreen)) + u32_le(0) + u32_le(
            spec_flag_u32(config.keep_aspect_ratio),
        ) + u32_le(spec_flag_u32(config.enable_linear_filtering)) + u32_le(
            spec_flag_u32(config.original_mode),
        ) + u32_le(spec_flag_u32(config.pause_game_on_background)),
    }
}

/// The byte image of the sound preference file: the effect volume and the
/// music volume, signed little-endian.
pub open spec fn spec_ffsound_bytes(config: Config) -> Seq<u8> {
    i32_le(config.sfx_volume) + i32_le(config.music_volume)
}

/// Turns a flag into the 32-bit value the files store.
fn flag_u32(b: bool) -> (r: u32)
    ensures
        r == spec_flag_u32(b),
{
    if b {
        1
    } else {
        0
    }
}

/// Lays out the video preference file for this variant.
pub fn ffvideo_bytes(config: &Config, game: &GameType) -> (r: Vec<u8>)
    ensures
        r@ == spec_ffvideo_bytes(*config, *game),
{
    let mut out: Vec<u8> = Vec::new();
    match game {
        GameType::FF7(_) => {
            push_u32_be(&mut out, config.window_width);
            push_u32_be(&mut out, config.window_height);
            push_u32_be(&mut out, config.refresh_rate);
            push_u32_be(&mut out, flag_u32(config.fullscreen));
            push_u32_be(&mut out, 0);
            push_u32_be(&mut out, flag_u32(config.keep_aspect_ratio));
            push_u32_be(&mut out, flag_u32(config.enable_linear_filtering));
            push_u32_be(&mut out, flag_u32(config.original_mode));
        },
        GameType::FF8 => {
            push_u32_le(&mut out, config.window_width);
            push_u32_le(&mut out, config.window_height);
            push_u32_le(&mut out, config.refresh_rate);
            push_u32_le(&mut out, flag_u32(config.fullscreen));
            push_u32_le(&mut out, 0);
            push_u32_le(&mut out, flag_u32(config.keep_aspect_ratio));
            push_u32_le(&mut out, flag_u32(config.enable_linear_filtering));
            push_u32_le(&mut out, flag_u32(config.original_mode));
            push_u32_le(&mut out, flag_u32(config.pause_game_on_background));
        },
    }
    proof {
        assert(out@ =~= spec_ffvideo_bytes(*config, *game));
    }
    out
}

/// Lays out the sound preference file.
pub fn ffsound_bytes(config: &Config) -> (r: Vec<u8>)
    ensures
        r@ == spec_ffsound_bytes(*config),
{
    let mut out: Vec<u8> = Vec::new();
    push_i32_le(&mut out, config.sfx_volume);
    push_i32_le(&mut out, config.music_volume);
    proof {
        assert(out@ =~= spec_ffsound_bytes(*config));
    }
    out
}

/// The video preference file's name for this variant.
pub fn ffvideo_filename(game: &GameType) -> (r: &'static str)
    ensures
        r@ == (if *game is FF8 {
            "ff8video.cfg"@
        } else {
            "ff7video.cfg"@
        }),
{
    match game {
        GameType::FF7(_) => "ff7video.cfg",
        GameType::FF8 => "ff8video.cfg",
    }
}

/// The sound preference file's name for this variant.
pub fn ffsound_filename(game: &GameType) -> (r: &'static str)
    ensures
        r@ == (if *game is FF8 {
            "ff8sound.cfg"@
        } else {
            "ff7sound.cfg"@
        }),
{
    match game {
        GameType::FF7(_) => "ff7sound.cfg",
        GameType::FF8 => "ff8sound.cfg",
    }
}

} // verus!
