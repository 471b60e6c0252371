use ff78_launcher::config::Config;
use ff78_launcher::handshake::{plan_session_actions, HandshakeAction};
use ff78_launcher::listener::{listener_actions, listener_step, ListenerAction};
use ff78_launcher::message::MessageBody;
use ff78_launcher::protocol::{
    send_bg_pause_enabled, send_disable_cloud, send_game_version, send_launcher_completed,
    send_locale_data_dir, session_messages,
};
use ff78_launcher::variant::{GameType, StoreType};
use ff78_launcher::Context;

fn context(game: GameType, lang: &str) -> Context {
    Context {
        game_to_launch: game,
        game_lang: String::from(lang),
        use_ffnx: false,
        config: Config::default(),
    }
}

fn field_ids(ctx: &Context) -> Vec<u32> {
    session_messages(ctx, "save", "doc", "install")
        .iter()
        .map(|m| m.field_id)
        .collect()
}

#[test]
fn locale_message_for_standard_edition() {
    // variant = first title, standard edition; locale = "en"
    let ctx = context(GameType::FF7(StoreType::Standard), "en");
    let m = send_locale_data_dir(&ctx);
    assert_eq!(m.field_id, 13);
    match m.body {
        MessageBody::Text { units, nul_terminated } => {
            // the UTF-16LE encoding of "lang-en"
            let expected: Vec<u16> = "lang-en".encode_utf16().collect();
            assert_eq!(units, expected);
            assert!(!nul_terminated);
        }
        _ => panic!("expected a text body"),
    }
}

#[test]
fn field_ids_for_ff7_standard() {
    let ctx = context(GameType::FF7(StoreType::Standard), "en");
    // locale, save, doc, install, version, cloud-disable, completion
    assert_eq!(field_ids(&ctx), vec![13, 10, 11, 12, 18, 22, 24]);
}

#[test]
fn field_ids_for_ff7_estore() {
    let ctx = context(GameType::FF7(StoreType::EStore), "ja");
    // no cloud-disable and no background-pause for the e-store edition
    assert_eq!(field_ids(&ctx), vec![12, 9, 10, 11, 17, 20]);
}

#[test]
fn field_ids_for_ff8() {
    let ctx = context(GameType::FF8, "fr");
    // all eight messages, including the background-pause flag
    assert_eq!(field_ids(&ctx), vec![12, 9, 10, 11, 17, 21, 23, 24]);
}

#[test]
fn field_ids_do_not_depend_on_texts() {
    let ctx = context(GameType::FF8, "de");
    let a: Vec<u32> = session_messages(&ctx, "s1", "d1", "i1").iter().map(|m| m.field_id).collect();
    let b: Vec<u32> = session_messages(&ctx, "other", "texts", "entirely")
        .iter()
        .map(|m| m.field_id)
        .collect();
    assert_eq!(a, b);
}

#[test]
fn bg_pause_sent_with_value_one_for_ff8() {
    let ctx = context(GameType::FF8, "en");
    let m = send_bg_pause_enabled(&ctx).expect("second title sends the flag");
    assert_eq!(m.field_id, 23);
    assert!(matches!(m.body, MessageBody::FlagValue(1)));
    assert_eq!(m.encode(), vec![23, 0, 0, 0, 1, 0, 0, 0]);
}

#[test]
fn bg_pause_skipped_for_ff7() {
    assert!(send_bg_pause_enabled(&context(GameType::FF7(StoreType::Standard), "en")).is_none());
    assert!(send_bg_pause_enabled(&context(GameType::FF7(StoreType::EStore), "ja")).is_none());
}

#[test]
fn disable_cloud_skipped_only_for_estore() {
    assert!(send_disable_cloud(&context(GameType::FF7(StoreType::EStore), "ja")).is_none());
    let m = send_disable_cloud(&context(GameType::FF7(StoreType::Standard), "en")).unwrap();
    assert_eq!(m.field_id, 22);
    assert!(matches!(m.body, MessageBody::FlagOnly));
    let m = send_disable_cloud(&context(GameType::FF8, "en")).unwrap();
    assert_eq!(m.field_id, 21);
}

#[test]
fn version_message_text() {
    let ctx = context(GameType::FF7(StoreType::Standard), "en");
    let m = send_game_version(&ctx);
    assert_eq!(m.field_id, 18);
    match m.body {
        MessageBody::Text { units, .. } => {
            let expected: Vec<u16> = "FF78Launcher 1.0.0".encode_utf16().collect();
            assert_eq!(units, expected);
        }
        _ => panic!("expected a text body"),
    }
}

#[test]
fn completion_marker_is_field_id_alone() {
    let ctx = context(GameType::FF7(StoreType::EStore), "ja");
    let m = send_launcher_completed(&ctx);
    assert_eq!(m.field_id, 20);
    assert_eq!(m.encode(), vec![20, 0, 0, 0]);
}

#[test]
fn plan_writes_then_signals_then_waits() {
    let ctx = context(GameType::FF8, "en");
    let msgs = session_messages(&ctx, "save", "doc", "install");
    let encoded: Vec<Vec<u8>> = msgs.iter().map(|m| m.encode()).collect();
    let plan = plan_session_actions(&msgs);
    assert_eq!(plan.len(), 3 * msgs.len());
    for (k, bytes) in encoded.iter().enumerate() {
        match &plan[3 * k] {
            HandshakeAction::WriteMailbox(b) => assert_eq!(b, bytes),
            _ => panic!("every third step starting at 0 writes the mailbox"),
        }
        assert!(matches!(plan[3 * k + 1], HandshakeAction::SignalReady));
        assert!(matches!(plan[3 * k + 2], HandshakeAction::WaitConsumed));
    }
}

#[test]
fn plan_never_writes_twice_without_a_wait() {
    let ctx = context(GameType::FF7(StoreType::Standard), "en");
    let msgs = session_messages(&ctx, "save", "doc", "install");
    let plan = plan_session_actions(&msgs);
    let mut last_write: Option<usize> = None;
    for (i, a) in plan.iter().enumerate() {
        if let HandshakeAction::WriteMailbox(_) = a {
            if let Some(prev) = last_write {
                let waited = plan[prev + 1..i]
                    .iter()
                    .any(|x| matches!(x, HandshakeAction::WaitConsumed));
                assert!(waited, "a write overtook the previous handshake");
            }
            last_write = Some(i);
        }
    }
}

#[test]
fn listener_step_decisions() {
    assert_eq!(listener_step(false), ListenerAction::AwaitAndAcknowledge);
    assert_eq!(listener_step(true), ListenerAction::Terminate);
}

#[test]
fn listener_terminates_at_first_observed_stop() {
    let acts = listener_actions(&vec![false, false, true, false]);
    assert_eq!(
        acts,
        vec![
            ListenerAction::AwaitAndAcknowledge,
            ListenerAction::AwaitAndAcknowledge,
            ListenerAction::Terminate,
        ]
    );
}

#[test]
fn listener_stops_immediately_when_stop_already_issued() {
    assert_eq!(listener_actions(&vec![true]), vec![ListenerAction::Terminate]);
}
