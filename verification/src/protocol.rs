//! The launcher's message catalog: the strictly ordered sequence of
//! configuration messages one session writes into the mailbox.
//!
//! Every session sends the locale, the save directory, the document
//! directory, the install directory and the version, then a cloud-disable
//! flag (skipped for the e-store edition), a background-pause flag (sent
//! only for the second title, with value 1), and finally a completion
//! marker. Each message's field id comes from the variant's table.

use crate::message::{Message, MessageBody, MessageBodyView, MessageView, LAUNCHER_PART_CAPACITY};
use crate::utf16::{lemma_utf16_units_len, utf16_units, utf16_units_of_str};
use crate::variant::{field_code, spec_field_code, step_applies, GameType, MessageStep};
use crate::Context;
use vstd::prelude::*;
use vstd::string::StringExecFns;

verus! {

/// Longest text, in characters, a caller may hand to a message builder.
/// Keeps every encoded message inside the mailbox slot even if each
/// character needs a surrogate pair.
pub const MAX_TEXT_CHARS: usize = 16000;

/// A text message for a step: the field id from the variant's table and the
/// UTF-16 code units of the text.
pub open spec fn text_message(
    game: GameType,
    step: MessageStep,
    text: Seq<char>,
    nul_terminated: bool,
) -> MessageView {
    MessageView {
        field_id: spec_field_code(game, step),
        body: MessageBodyView::Text { units: utf16_units(text), nul_terminated },
    }
}

/// The locale message: the language tag behind the fixed literal prefix.
pub open spec fn locale_message(game: GameType, lang: Seq<char>) -> MessageView {
    text_message(game, MessageStep::LocaleDataDir, "lang-"@ + lang, false)
}

/// The per-user save directory message.
pub open spec fn save_dir_message(game: GameType, save_dir: Seq<char>) -> MessageView {
    text_message(game, MessageStep::UserSaveDir, save_dir, false)
}

/// The per-user document directory message.
pub open spec fn doc_dir_message(game: GameType, doc_dir: Seq<char>) -> MessageView {
    text_message(game, MessageStep::DocDir, doc_dir, false)
}

/// The install directory message: the one message whose payload carries a
/// single trailing NUL byte beyond the declared byte count.
pub open spec fn install_dir_message(game: GameType, install_dir: Seq<char>) -> MessageView {
    text_message(game, MessageStep::InstallDir, install_dir, true)
}

/// The application name and version message.
pub open spec fn version_message(game: GameType) -> MessageView {
    text_message(game, MessageStep::GameVersion, "FF78Launcher 1.0.0"@, false)
}

/// The cloud-disable flag: the field id alone.
pub open spec fn disable_cloud_message(game: GameType) -> MessageView {
    MessageView {
        field_id: spec_field_code(game, MessageStep::DisableCloud),
        body: MessageBodyView::FlagOnly,
    }
}

/// The background-pause flag: the field id with payload value 1.
pub open spec fn bg_pause_message(game: GameType) -> MessageView {
    MessageView {
        field_id: spec_field_code(game, MessageStep::BgPauseEnabled),
        body: MessageBodyView::FlagValue(1),
    }
}

/// The completion marker: the field id alone.
pub open spec fn completed_message(game: GameType) -> MessageView {
    MessageView {
        field_id: spec_field_code(game, MessageStep::EndUserInfo),
        body: MessageBodyView::FlagOnly,
    }
}

/// Builds the text message of a step from the variant's table.
fn make_text_message(game: GameType, step: MessageStep, text: &str, nul_terminated: bool) -> (m:
    Message)
    requires
        step_applies(game, step),
        8 + 4 * text@.len() + 1 <= LAUNCHER_PART_CAPACITY,
    ensures
        m@ == text_message(game, step, text@, nul_terminated),
        m@.wf(),
{
    let units = utf16_units_of_str(text);
    proof {
        lemma_utf16_units_len(text@);
    }
    let code = match field_code(game, step) {
        Some(c) => c,
        None => 0,
    };
    Message { field_id: code, body: MessageBody::Text { units, nul_terminated } }
}

/// Builds the locale message from the configured language.
pub fn send_locale_data_dir(ctx: &Context) -> (m: Message)
    requires
        ctx.game_lang@.len() <= MAX_TEXT_CHARS,
    ensures
        m@ == locale_message(ctx.game_to_launch, ctx.game_lang@),
        m@.wf(),
{
    proof {
        reveal_strlit("lang-");
    }
    let mut text = String::from_str("lang-");
    text.append(ctx.game_lang.as_str());
    make_text_message(ctx.game_to_launch, MessageStep::LocaleDataDir, text.as_str(), false)
}

/// Builds the save directory message from the resolved save path.
pub fn send_user_save_dir(ctx: &Context, save_dir: &str) -> (m: Message)
    requires
        save_dir@.len() <= MAX_TEXT_CHARS,
    ensures
        m@ == save_dir_message(ctx.game_to_launch, save_dir@),
        m@.wf(),
{
    make_text_message(ctx.game_to_launch, MessageStep::UserSaveDir, save_dir, false)
}

/// Builds the document directory message from the resolved document path.
pub fn send_user_doc_dir(ctx: &Context, doc_dir: &str) -> (m: Message)
    requires
        doc_dir@.len() <= MAX_TEXT_CHARS,
    ensures
        m@ == doc_dir_message(ctx.game_to_launch, doc_dir@),
        m@.wf(),
{
    make_text_message(ctx.game_to_launch, MessageStep::DocDir, doc_dir, false)
}

/// Builds the install directory message from the absolute working
/// directory; this is the one message with a trailing NUL byte.
pub fn send_install_dir(ctx: &Context, install_dir: &str) -> (m: Message)
    requires
        install_dir@.len() <= MAX_TEXT_CHARS,
    ensures
        m@ == install_dir_message(ctx.game_to_launch, install_dir@),
        m@.wf(),
{
    make_text_message(ctx.game_to_launch, MessageStep::InstallDir, install_dir, true)
}

/// Builds the application name and version message.
pub fn send_game_version(ctx: &Context) -> (m: Message)
    ensures
        m@ == version_message(ctx.game_to_launch),
        m@.wf(),
{
    proof {
        reveal_strlit("FF78Launcher 1.0.0");
    }
    make_text_message(ctx.game_to_launch, MessageStep::GameVersion, "FF78Launcher 1.0.0", false)
}

/// Builds the cloud-disable flag, or nothing for the variant that skips it.
pub fn send_disable_cloud(ctx: &Context) -> (r: Option<Message>)
    ensures
        r is Some <==> step_applies(ctx.game_to_launch, MessageStep::DisableCloud),
        r matches Some(m) ==> m@ == disable_cloud_message(ctx.game_to_launch) && m@.wf(),
{
    match field_code(ctx.game_to_launch, MessageStep::DisableCloud) {
        Some(code) => Some(Message { field_id: code, body: MessageBody::FlagOnly }),
        None => None,
    }
}

/// Builds the background-pause flag with payload value 1, or nothing for the
/// title that never sends it.
pub fn send_bg_pause_enabled(ctx: &Context) -> (r: Option<Message>)
    ensures
        r is Some <==> step_applies(ctx.game_to_launch, MessageStep::BgPauseEnabled),
        r matches Some(m) ==> m@ == bg_pause_message(ctx.game_to_launch) && m@.wf(),
{
    match field_code(ctx.game_to_launch, MessageStep::BgPauseEnabled) {
        Some(code) => Some(Message { field_id: code, body: MessageBody::FlagValue(1) }),
        None => None,
    }
}

/// Builds the completion marker that ends the sequence.
pub fn send_launcher_completed(ctx: &Context) -> (m: Message)
    ensures
        m@ == completed_message(ctx.game_to_launch),
        m@.wf(),
{
    let code = match field_code(ctx.game_to_launch, MessageStep::EndUserInfo) {
        Some(c) => c,
        None => 0,
    };
    Message { field_id: code, body: MessageBody::FlagOnly }
}

/// The full ordered message sequence of one session.
pub open spec fn spec_session_messages(
    game: GameType,
    lang: Seq<char>,
    save_dir: Seq<char>,
    doc_dir: Seq<char>,
    install_dir: Seq<char>,
) -> Seq<MessageView> {
    seq![
        locale_message(game, lang),
        save_dir_message(game, save_dir),
        doc_dir_message(game, doc_dir),
        install_dir_message(game, install_dir),
        version_message(game),
    ] + (if step_applies(game, MessageStep::DisableCloud) {
        seq![disable_cloud_message(game)]
    } else {
        Seq::<MessageView>::empty()
    }) + (if step_applies(game, MessageStep::BgPauseEnabled) {
        seq![bg_pause_message(game)]
    } else {
        Seq::<MessageView>::empty()
    }) + seq![completed_message(game)]
}

/// The steps of one session, in the order their messages are sent.
pub open spec fn spec_session_steps(game: GameType) -> Seq<MessageStep> {
    seq![
        MessageStep::LocaleDataDir,
        MessageStep::UserSaveDir,
        MessageStep::DocDir,
        MessageStep::InstallDir,
        MessageStep::GameVersion,
    ] + (if step_applies(game, MessageStep::DisableCloud) {
        seq![MessageStep::DisableCloud]
    } else {
        Seq::<MessageStep>::empty()
    }) + (if step_applies(game, MessageStep::BgPauseEnabled) {
        seq![MessageStep::BgPauseEnabled]
    } else {
        Seq::<MessageStep>::empty()
    }) + seq![MessageStep::EndUserInfo]
}

/// Builds the session's messages in protocol order.
pub fn session_messages(ctx: &Context, save_dir: &str, doc_dir: &str, install_dir: &str) -> (msgs:
    Vec<Message>)
    requires
        ctx.game_lang@.len() <= MAX_TEXT_CHARS,
        save_dir@.len() <= MAX_TEXT_CHARS,
        doc_dir@.len() <= MAX_TEXT_CHARS,
        install_dir@.len() <= MAX_TEXT_CHARS,
    ensures
        msgs@.map_values(|m: Message| m@) == spec_session_messages(
            ctx.game_to_launch,
            ctx.game_lang@,
            save_dir@,
            doc_dir@,
            install_dir@,
        ),
        forall|i: int| 0 <= i < msgs@.len() ==> (#[trigger] msgs@[i]@).wf(),
{
    let mut msgs: Vec<Message> = Vec::new();
    msgs.push(send_locale_data_dir(ctx));
    msgs.push(send_user_save_dir(ctx, save_dir));
    msgs.push(send_user_doc_dir(ctx, doc_dir));
    msgs.push(send_install_dir(ctx, install_dir));
    msgs.push(send_game_version(ctx));
    if let Some(m) = send_disable_cloud(ctx) {
        msgs.push(m);
    }
    if let Some(m) = send_bg_pause_enabled(ctx) {
        msgs.push(m);
    }
    msgs.push(send_launcher_completed(ctx));
    proof {
        assert(msgs@.map_values(|m: Message| m@) =~= spec_session_messages(
            ctx.game_to_launch,
            ctx.game_lang@,
            save_dir@,
            doc_dir@,
            install_dir@,
        ));
    }
    msgs
}

/// Each message of a session selects its field id from the variant's table,
/// at the step the protocol order assigns it, and only applicable steps
/// appear — whatever texts the session carries.
pub proof fn lemma_field_ids_from_table(
    game: GameType,
    lang: Seq<char>,
    save_dir: Seq<char>,
    doc_dir: Seq<char>,
    install_dir: Seq<char>,
)
    ensures
        spec_session_messages(game, lang, save_dir, doc_dir, install_dir).len()
            == spec_session_steps(game).len(),
        forall|i: int|
            0 <= i < spec_session_steps(game).len() ==> (#[trigger] spec_session_messages(
                game,
                lang,
                save_dir,
                doc_dir,
                install_dir,
            )[i]).field_id == spec_field_code(game, spec_session_steps(game)[i]) && step_applies(
                game,
                spec_session_steps(game)[i],
            ),
{
    let msgs = spec_session_messages(game, lang, save_dir, doc_dir, install_dir);
    let steps = spec_session_steps(game);
    assert forall|i: int| 0 <= i < steps.len() implies (#[trigger] msgs[i]).field_id
        == spec_field_code(game, steps[i]) && step_applies(game, steps[i]) by {
        if step_applies(game, MessageStep::DisableCloud) && step_applies(
            game,
            MessageStep::BgPauseEnabled,
        ) {
            assert(msgs[i].field_id == spec_field_code(game, steps[i]));
        } else if step_applies(game, MessageStep::DisableCloud) {
            assert(msgs[i].field_id == spec_field_code(game, steps[i]));
        } else if step_applies(game, MessageStep::BgPauseEnabled) {
            assert(msgs[i].field_id == spec_field_code(game, steps[i]));
        } else {
            assert(msgs[i].field_id == spec_field_code(game, steps[i]));
        }
    }
}

/// The field ids of a session do not depend on the runtime texts: two
/// sessions of the same variant select identical id sequences.
pub proof fn lemma_field_ids_independent_of_texts(
    game: GameType,
    lang1: Seq<char>,
    save1: Seq<char>,
    doc1: Seq<char>,
    install1: Seq<char>,
    lang2: Seq<char>,
    save2: Seq<char>,
    doc2: Seq<char>,
    install2: Seq<char>,
)
    ensures
        spec_session_messages(game, lang1, save1, doc1, install1).map_values(
            |m: MessageView| m.field_id,
        ) == spec_session_messages(game, lang2, save2, doc2, install2).map_values(
            |m: MessageView| m.field_id,
        ),
{
    lemma_field_ids_from_table(game, lang1, save1, doc1, install1);
    lemma_field_ids_from_table(game, lang2, save2, doc2, install2);
    let a = spec_session_messages(game, lang1, save1, doc1, install1);
    let b = spec_session_messages(game, lang2, save2, doc2, install2);
    assert(a.map_values(|m: MessageView| m.field_id) =~= b.map_values(
        |m: MessageView| m.field_id,
    ));
}

} // verus!
