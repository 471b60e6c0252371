//! Game variants and their field-id tables.
//!
//! Three variants are supported: the first title in its standard and e-store
//! editions, and the second title. Each configuration message carries a
//! numeric field id that the consuming game binary expects; the ids differ
//! per variant and are fixed externally, so they must be reproduced exactly.

use vstd::prelude::*;

verus! {

/// The edition of the first title.
#[derive(Clone, Copy, Debug, PartialEq, Eq, Structural)]
pub enum StoreType {
    Standard,
    EStore,
}

/// Which game binary the session is configuring.
#[derive(Clone, Copy, Debug, PartialEq, Eq, Structural)]
pub enum GameType {
    FF7(StoreType),
    FF8,
}

/// The eight configuration messages of a session, in protocol order.
#[derive(Clone, Copy, Debug, PartialEq, Eq, Structural)]
pub enum MessageStep {
    LocaleDataDir,
    UserSaveDir,
    DocDir,
    InstallDir,
    GameVersion,
    DisableCloud,
    BgPauseEnabled,
    EndUserInfo,
}

pub const FF7_USER_SAVE_DIR: u32 = 10;

pub const FF7_DOC_DIR: u32 = 11;

pub const FF7_INSTALL_DIR: u32 = 12;

pub const FF7_LOCALE_DATA_DIR: u32 = 13;

pub const FF7_GAME_VERSION: u32 = 18;

pub const FF7_DISABLE_CLOUD: u32 = 22;

pub const FF7_END_USER_INFO: u32 = 24;

pub const FF8_USER_SAVE_DIR: u32 = 9;

pub const FF8_DOC_DIR: u32 = 10;

pub const FF8_INSTALL_DIR: u32 = 11;

pub const FF8_LOCALE_DATA_DIR: u32 = 12;

pub const FF8_GAME_VERSION: u32 = 17;

pub const FF8_DISABLE_CLOUD: u32 = 21;

pub const FF8_BG_PAUSE_ENABLED: u32 = 23;

pub const FF8_END_USER_INFO: u32 = 24;

pub const ESTORE_USER_SAVE_DIR: u32 = 9;

pub const ESTORE_DOC_DIR: u32 = 10;

pub const ESTORE_INSTALL_DIR: u32 = 11;

pub const ESTORE_LOCALE_DATA_DIR: u32 = 12;

pub const ESTORE_GAME_VERSION: u32 = 17;

pub const ESTORE_END_USER_INFO: u32 = 20;

/// Whether a step is part of the sequence for this variant. The cloud-disable
/// message is skipped for the e-store edition, and the background-pause
/// message is sent only for the second title.
pub open spec fn step_applies(game: GameType, step: MessageStep) -> bool {
    match step {
        MessageStep::DisableCloud => game != GameType::FF7(StoreType::EStore),
        MessageStep::BgPauseEnabled => game == GameType::FF8,
        _ => true,
    }
}

/// The field id this variant uses for a step of the sequence.
pub open spec fn spec_field_code(game: GameType, step: MessageStep) -> u32
    recommends
        step_applies(game, step),
{
    match game {
        GameType::FF7(StoreType::Standard) => match step {
            MessageStep::LocaleDataDir => FF7_LOCALE_DATA_DIR,
            MessageStep::UserSaveDir => FF7_USER_SAVE_DIR,
            MessageStep::DocDir => FF7_DOC_DIR,
            MessageStep::InstallDir => FF7_INSTALL_DIR,
            MessageStep::GameVersion => FF7_GAME_VERSION,
            MessageStep::DisableCloud => FF7_DISABLE_CLOUD,
            MessageStep::BgPauseEnabled => 0,
            MessageStep::EndUserInfo => FF7_END_USER_INFO,
        },
        GameType::FF7(StoreType::EStore) => match step {
            MessageStep::LocaleDataDir => ESTORE_LOCALE_DATA_DIR,
            MessageStep::UserSaveDir => ESTORE_USER_SAVE_DIR,
            MessageStep::DocDir => ESTORE_DOC_DIR,
            MessageStep::InstallDir => ESTORE_INSTALL_DIR,
            MessageStep::GameVersion => ESTORE_GAME_VERSION,
            MessageStep::DisableCloud => 0,
            MessageStep::BgPauseEnabled => 0,
            MessageStep::EndUserInfo => ESTORE_END_USER_INFO,
        },
        GameType::FF8 => match step {
            MessageStep::LocaleDataDir => FF8_LOCALE_DATA_DIR,
            MessageStep::UserSaveDir => FF8_USER_SAVE_DIR,
            MessageStep::DocDir => FF8_DOC_DIR,
            MessageStep::InstallDir => FF8_INSTALL_DIR,
            MessageStep::GameVersion => FF8_GAME_VERSION,
            MessageStep::DisableCloud => FF8_DISABLE_CLOUD,
            MessageStep::BgPauseEnabled => FF8_BG_PAUSE_ENABLED,
            MessageStep::EndUserInfo => FF8_END_USER_INFO,
        },
    }
}

/// Looks up the field id a variant uses for a step; `None` when the step is
/// skipped for that variant.
pub fn field_code(game: GameType, step: MessageStep) -> (r: Option<u32>)
    ensures
        r is Some <==> step_applies(game, step),
        r matches Some(c) ==> c == spec_field_code(game, step),
{
    match step {
        MessageStep::DisableCloud if game == GameType::FF7(StoreType::EStore) => None,
        MessageStep::BgPauseEnabled if game != GameType::FF8 => None,
        _ => Some(
            match game {
                GameType::FF7(StoreType::Standard) => match step {
                    MessageStep::LocaleDataDir => FF7_LOCALE_DATA_DIR,
                    MessageStep::UserSaveDir => FF7_USER_SAVE_DIR,
                    MessageStep::DocDir => FF7_DOC_DIR,
                    MessageStep::InstallDir => FF7_INSTALL_DIR,
                    MessageStep::GameVersion => FF7_GAME_VERSION,
                    MessageStep::DisableCloud => FF7_DISABLE_CLOUD,
                    MessageStep::BgPauseEnabled => 0,
                    MessageStep::EndUserInfo => FF7_END_USER_INFO,
                },
                GameType::FF7(StoreType::EStore) => match step {
                    MessageStep::LocaleDataDir => ESTORE_LOCALE_DATA_DIR,
                    MessageStep::UserSaveDir => ESTORE_USER_SAVE_DIR,
                    MessageStep::DocDir => ESTORE_DOC_DIR,
                    MessageStep::InstallDir => ESTORE_INSTALL_DIR,
                    MessageStep::GameVersion => ESTORE_GAME_VERSION,
                    MessageStep::DisableCloud => 0,
                    MessageStep::BgPauseEnabled => 0,
                    MessageStep::EndUserInfo => ESTORE_END_USER_INFO,
                },
                GameType::FF8 => match step {
                    MessageStep::LocaleDataDir => FF8_LOCALE_DATA_DIR,
                    MessageStep::UserSaveDir => FF8_USER_SAVE_DIR,
                    MessageStep::DocDir => FF8_DOC_DIR,
                    MessageStep::InstallDir => FF8_INSTALL_DIR,
                    MessageStep::GameVersion => FF8_GAME_VERSION,
                    MessageStep::DisableCloud => FF8_DISABLE_CLOUD,
                    MessageStep::BgPauseEnabled => FF8_BG_PAUSE_ENABLED,
                    MessageStep::EndUserInfo => FF8_END_USER_INFO,
                },
            },
        ),
    }
}

} // verus!
