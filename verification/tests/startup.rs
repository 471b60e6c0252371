use ff78_launcher::config::{Config, DisplayMode};
use ff78_launcher::launch::{
    chocobo_process_name, classify_game, driver_is_ffnx, driver_is_small, extract_lang,
    name_prefix, object_name, select_process, SessionObject,
};
use ff78_launcher::paths::{get_game_metadata_path, resolve_save_dir};
use ff78_launcher::prefs::{ffsound_bytes, ffsound_filename, ffvideo_bytes, ffvideo_filename};
use ff78_launcher::variant::{GameType, StoreType};
use ff78_launcher::{CrashGuard, LauncherError};

#[test]
fn default_config_values() {
    let c = Config::default();
    assert_eq!(c.sfx_volume, 100);
    assert_eq!(c.music_volume, 100);
    assert!(!c.fullscreen);
    assert_eq!(c.window_width, 0);
    assert_eq!(c.window_height, 0);
    assert_eq!(c.refresh_rate, 0);
    assert!(!c.launch_chocobo);
}

#[test]
fn config_reads_plain_entries() {
    let text = "fullscreen = true\nwindow_width = 800\nwindow_height = 600\nsfx_volume = 40\nmusic_volume = 60\nenable_linear_filtering = true\n";
    let c = Config::from_config_file(text, &None, &GameType::FF8).unwrap();
    assert!(c.fullscreen);
    assert_eq!(c.window_width, 800);
    assert_eq!(c.window_height, 600);
    assert_eq!(c.sfx_volume, 40);
    assert_eq!(c.music_volume, 60);
    assert!(c.enable_linear_filtering);
    assert!(!c.keep_aspect_ratio);
}

#[test]
fn config_geometry_defaults_to_windowed_mode() {
    let c = Config::from_config_file("", &None, &GameType::FF8).unwrap();
    assert_eq!((c.window_width, c.window_height, c.refresh_rate), (640, 480, 60));
}

#[test]
fn config_geometry_from_display_in_fullscreen() {
    let display = Some(DisplayMode { width: 1920, height: 1080, frequency: 144 });
    let c = Config::from_config_file("fullscreen = true", &display, &GameType::FF8).unwrap();
    assert_eq!((c.window_width, c.window_height, c.refresh_rate), (1920, 1080, 144));
}

#[test]
fn config_display_ignored_when_not_fullscreen() {
    let display = Some(DisplayMode { width: 1920, height: 1080, frequency: 144 });
    let c = Config::from_config_file("", &display, &GameType::FF8).unwrap();
    assert_eq!((c.window_width, c.window_height, c.refresh_rate), (640, 480, 60));
}

#[test]
fn config_explicit_refresh_rate_wins() {
    let display = Some(DisplayMode { width: 1920, height: 1080, frequency: 144 });
    let c =
        Config::from_config_file("fullscreen = true\nrefresh_rate = 75", &display, &GameType::FF8)
            .unwrap();
    assert_eq!((c.window_width, c.window_height, c.refresh_rate), (1920, 1080, 75));
}

#[test]
fn config_partial_geometry_is_kept_as_given() {
    let c = Config::from_config_file("window_width = 800", &None, &GameType::FF8).unwrap();
    assert_eq!((c.window_width, c.window_height, c.refresh_rate), (800, 0, 0));
}

#[test]
fn config_ff7_never_pauses_nor_launches_chocobo() {
    let text = "pause_game_on_background = true\nlaunch_chocobo = true";
    let c =
        Config::from_config_file(text, &None, &GameType::FF7(StoreType::Standard)).unwrap();
    assert!(!c.pause_game_on_background);
    assert!(!c.launch_chocobo);
    let c = Config::from_config_file(text, &None, &GameType::FF8).unwrap();
    assert!(c.pause_game_on_background);
    assert!(c.launch_chocobo);
}

#[test]
fn config_negative_integers_become_zero() {
    let text = "sfx_volume = -5\nwindow_width = -100";
    let c = Config::from_config_file(text, &None, &GameType::FF8).unwrap();
    assert_eq!(c.sfx_volume, 0);
    // both dimensions unset after clamping, so the windowed default applies
    assert_eq!(c.window_width, 640);
}

#[test]
fn config_large_integers_keep_their_low_bits() {
    let text = "window_width = 5000000000\nsfx_volume = 2147483648";
    let c = Config::from_config_file(text, &None, &GameType::FF8).unwrap();
    assert_eq!(c.window_width, 705032704); // 5000000000 mod 2^32
    assert_eq!(c.sfx_volume, -2147483648); // 2^31 reinterpreted as signed
}

#[test]
fn config_wrong_type_entries_fall_back() {
    let text = "fullscreen = \"yes\"\nsfx_volume = \"loud\"";
    let c = Config::from_config_file(text, &None, &GameType::FF8).unwrap();
    assert!(!c.fullscreen);
    assert_eq!(c.sfx_volume, 0);
}

#[test]
fn config_rejects_unparsable_text() {
    let r = Config::from_config_file("this is = = not toml", &None, &GameType::FF8);
    assert_eq!(r.unwrap_err(), LauncherError::InvalidConfig);
}

#[test]
fn select_process_needs_exactly_one_candidate() {
    assert_eq!(select_process(&vec![]).unwrap_err(), LauncherError::NoProcessFound);
    assert_eq!(
        select_process(&vec![String::from("ff7_en.exe"), String::from("ff8_en.exe")]).unwrap_err(),
        LauncherError::MultipleProcessesFound
    );
    assert_eq!(
        select_process(&vec![String::from("ff8_fr.exe")]).unwrap(),
        String::from("ff8_fr.exe")
    );
}

#[test]
fn classify_by_name_and_driver_size() {
    assert_eq!(classify_game("ff8_en.exe", false), GameType::FF8);
    assert_eq!(classify_game("ff7_en.exe", false), GameType::FF7(StoreType::Standard));
    assert_eq!(classify_game("ff7_ja.exe", true), GameType::FF7(StoreType::EStore));
    // a large driver file keeps the Japanese executable on the standard edition
    assert_eq!(classify_game("ff7_ja.exe", false), GameType::FF7(StoreType::Standard));
}

#[test]
fn driver_size_thresholds() {
    assert!(driver_is_small(&Some(1024)));
    assert!(!driver_is_small(&Some(1024 * 1024)));
    assert!(!driver_is_small(&None));
    assert!(driver_is_ffnx(&Some(2 * 1024 * 1024)));
    assert!(!driver_is_ffnx(&Some(1024 * 1024)));
    assert!(!driver_is_ffnx(&None));
}

#[test]
fn extract_lang_from_process_names() {
    assert_eq!(extract_lang("ff7_en.exe"), "en");
    assert_eq!(extract_lang("ff8_ja.exe"), "ja");
    assert_eq!(extract_lang("game.exe"), "game");
    assert_eq!(extract_lang("a_b_c"), "b");
    assert_eq!(extract_lang("trailing_"), "");
}

#[test]
fn chocobo_name_is_built_from_language() {
    assert_eq!(chocobo_process_name("fr"), "chocobo_fr.exe");
}

#[test]
fn name_prefix_per_variant() {
    assert_eq!(name_prefix(false, &GameType::FF7(StoreType::Standard)), "ff7");
    assert_eq!(name_prefix(false, &GameType::FF8), "ff8");
    assert_eq!(name_prefix(true, &GameType::FF8), "choco");
}

#[test]
fn object_names_carry_prefix_and_suffix() {
    assert_eq!(object_name("ff8", SessionObject::GameCanReadSem), "ff8_gameCanReadMsgSem");
    assert_eq!(object_name("ff8", SessionObject::GameDidReadSem), "ff8_gameDidReadMsgSem");
    assert_eq!(
        object_name("ff7", SessionObject::LauncherCanReadSem),
        "ff7_launcherCanReadMsgSem"
    );
    assert_eq!(
        object_name("ff7", SessionObject::LauncherDidReadSem),
        "ff7_launcherDidReadMsgSem"
    );
    assert_eq!(
        object_name("choco", SessionObject::SharedMemory),
        "choco_sharedMemoryWithLauncher"
    );
}

#[test]
fn metadata_path_under_documents() {
    let p = get_game_metadata_path(
        &GameType::FF7(StoreType::Standard),
        false,
        "C:\\Users\\u\\Documents",
        "C:\\games",
    );
    assert_eq!(p, "C:\\Users\\u\\Documents\\Square Enix\\FINAL FANTASY VII Steam");
    let p = get_game_metadata_path(&GameType::FF8, false, "D:\\Docs", "C:\\games");
    assert_eq!(p, "D:\\Docs\\Square Enix\\FINAL FANTASY VIII Steam");
}

#[test]
fn metadata_path_is_cwd_for_estore_or_portable() {
    let p = get_game_metadata_path(
        &GameType::FF7(StoreType::EStore),
        false,
        "C:\\Users\\u\\Documents",
        "C:\\games",
    );
    assert_eq!(p, "C:\\games");
    let p = get_game_metadata_path(&GameType::FF8, true, "C:\\Users\\u\\Documents", "C:\\games");
    assert_eq!(p, "C:\\games");
}

#[test]
fn save_dir_resolution() {
    assert_eq!(resolve_save_dir("base", true, &None), "base\\save");
    assert_eq!(
        resolve_save_dir("base", false, &Some(String::from("user_12345"))),
        "base\\user_12345"
    );
    assert_eq!(resolve_save_dir("base", false, &None), "base");
}

#[test]
fn ffvideo_bytes_big_endian_for_ff7() {
    let mut c = Config::default();
    c.window_width = 640;
    c.window_height = 480;
    c.refresh_rate = 60;
    c.fullscreen = true;
    c.keep_aspect_ratio = true;
    let bytes = ffvideo_bytes(&c, &GameType::FF7(StoreType::Standard));
    let mut expected = Vec::new();
    for v in [640u32, 480, 60, 1, 0, 1, 0, 0] {
        expected.extend_from_slice(&v.to_be_bytes());
    }
    assert_eq!(bytes, expected);
}

#[test]
fn ffvideo_bytes_little_endian_for_ff8() {
    let mut c = Config::default();
    c.window_width = 1280;
    c.window_height = 720;
    c.refresh_rate = 75;
    c.enable_linear_filtering = true;
    c.pause_game_on_background = true;
    let bytes = ffvideo_bytes(&c, &GameType::FF8);
    let mut expected = Vec::new();
    for v in [1280u32, 720, 75, 0, 0, 0, 1, 0, 1] {
        expected.extend_from_slice(&v.to_le_bytes());
    }
    assert_eq!(bytes, expected);
}

#[test]
fn ffsound_bytes_signed_little_endian() {
    let mut c = Config::default();
    c.sfx_volume = -1;
    c.music_volume = 100;
    let bytes = ffsound_bytes(&c);
    let mut expected = Vec::new();
    expected.extend_from_slice(&(-1i32).to_le_bytes());
    expected.extend_from_slice(&100i32.to_le_bytes());
    assert_eq!(bytes, expected);
}

#[test]
fn pref_filenames_per_variant() {
    assert_eq!(ffvideo_filename(&GameType::FF7(StoreType::EStore)), "ff7video.cfg");
    assert_eq!(ffvideo_filename(&GameType::FF8), "ff8video.cfg");
    assert_eq!(ffsound_filename(&GameType::FF7(StoreType::Standard)), "ff7sound.cfg");
    assert_eq!(ffsound_filename(&GameType::FF8), "ff8sound.cfg");
}

#[test]
fn crash_guard_trips_once() {
    let mut g = CrashGuard::new();
    assert!(!g.on_exception());
    assert!(g.on_exception());
    assert!(g.on_exception());
}
