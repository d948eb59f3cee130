use whisperme_core::backend::{
    backend_error_message, build_voice_request, convert_audio_to_groq_format,
    is_backend_reachable, judge_backend_answer, prepare_audio, processing_verdict,
};
use whisperme_core::context::{
    determine_field_type, gather_voice_context, get_active_window_info, get_text_field_info,
    merge_voice_context, text_field_context, VoiceContext, WindowInfo,
};
use whisperme_core::overlay::{OverlayAction, OverlayManager, OverlayState};

#[test]
fn empty_audio_is_refused() {
    assert_eq!(convert_audio_to_groq_format(Vec::new()), Err("Audio data is empty".to_string()));
    assert_eq!(
        prepare_audio(Vec::new()),
        Err("Audio conversion failed: Audio data is empty".to_string())
    );
}

#[test]
fn audio_passes_unchanged() {
    assert_eq!(convert_audio_to_groq_format(vec![0u8]), Ok(vec![0u8]));
    let long: Vec<u8> = (0..2000u32).map(|i| (i % 251) as u8).collect();
    assert_eq!(convert_audio_to_groq_format(long.clone()), Ok(long.clone()));
    assert_eq!(prepare_audio(long.clone()), Ok(long));
}

#[test]
fn request_carries_base64_audio_and_wav_format() {
    let audio = b"hello world~".to_vec();
    let request = build_voice_request(&audio, None);
    assert_eq!(request.audio, "aGVsbG8gd29ybGR+");
    assert_eq!(request.format, "wav");
    assert_eq!(request.context.package_name, "unknown");
    assert_eq!(request.context.keyboard_mode, "text");
    let padded = build_voice_request(&vec![0xffu8], None);
    assert_eq!(padded.audio, "/w==");
    let empty = build_voice_request(&Vec::new(), None);
    assert_eq!(empty.audio, "");
}

#[test]
fn request_keeps_the_given_context() {
    let mut given = VoiceContext::default();
    given.package_name = "com.example.editor".to_string();
    given.full_text = "draft".to_string();
    given.cursor_position = 5;
    let request = build_voice_request(&vec![1u8, 2, 3], Some(given));
    assert_eq!(request.audio, "AQID");
    assert_eq!(request.context.package_name, "com.example.editor");
    assert_eq!(request.context.full_text, "draft");
    assert_eq!(request.context.cursor_position, 5);
}

#[test]
fn reachable_means_success_or_client_error() {
    for status in [200u16, 204, 299, 400, 404, 405, 499] {
        assert!(is_backend_reachable(status), "{}", status);
    }
    for status in [0u16, 100, 199, 300, 302, 399, 500, 503, 599, 65535] {
        assert!(!is_backend_reachable(status), "{}", status);
    }
}

#[test]
fn error_message_names_status_and_body() {
    assert_eq!(
        backend_error_message("500 Internal Server Error", Some("boom".to_string())),
        "Backend error 500 Internal Server Error: boom"
    );
    assert_eq!(
        backend_error_message("502 Bad Gateway", None),
        "Backend error 502 Bad Gateway: Unknown error"
    );
}

#[test]
fn answer_is_judged_by_its_status() {
    assert_eq!(
        judge_backend_answer(200, "200 OK", Ok("{}".to_string())),
        Ok("{}".to_string())
    );
    assert_eq!(
        judge_backend_answer(200, "200 OK", Err("timed out".to_string())),
        Err("Failed to read response: timed out".to_string())
    );
    assert_eq!(
        judge_backend_answer(404, "404 Not Found", Ok("nothing here".to_string())),
        Err("Backend error 404 Not Found: nothing here".to_string())
    );
    assert_eq!(
        judge_backend_answer(500, "500 Internal Server Error", Err("reset".to_string())),
        Err("Backend error 500 Internal Server Error: Unknown error".to_string())
    );
    assert_eq!(
        judge_backend_answer(300, "300 Multiple Choices", Ok(String::new())),
        Err("Backend error 300 Multiple Choices: ".to_string())
    );
}

#[test]
fn verdict_follows_the_success_flag() {
    assert_eq!(processing_verdict(true, None), Ok(()));
    assert_eq!(processing_verdict(true, Some("ignored".to_string())), Ok(()));
    assert_eq!(processing_verdict(false, Some("bad audio".to_string())), Err("bad audio".to_string()));
    assert_eq!(processing_verdict(false, None), Err("Unknown backend error".to_string()));
}

#[test]
fn default_context_is_an_empty_text_field() {
    let ctx = VoiceContext::default();
    assert_eq!(ctx.text_before_cursor, "");
    assert_eq!(ctx.text_after_cursor, "");
    assert_eq!(ctx.selected_text, "");
    assert_eq!(ctx.cursor_position, 0);
    assert_eq!(ctx.full_text, "");
    assert_eq!(ctx.package_name, "");
    assert_eq!(ctx.field_type, None);
    assert_eq!(ctx.field_hint, None);
    assert_eq!(ctx.field_label, None);
    assert!(!ctx.is_password_field);
    assert!(!ctx.is_rich_editor);
    assert_eq!(ctx.keyboard_mode, "text");
    assert_eq!(ctx.input_shift_state, "unshifted");
    assert_eq!(ctx.locale, "en-US");
    assert_eq!(ctx.content_mime_types, None);
    assert_eq!(ctx.ime_options.action, "done");
    assert!(!ctx.ime_options.flag_no_enter_action);
    assert!(!ctx.ime_options.flag_no_personalized_learning);
}

#[test]
fn field_type_follows_the_role() {
    assert_eq!(determine_field_type("AXTextField"), "text");
    assert_eq!(determine_field_type("AXTextArea"), "text");
    assert_eq!(determine_field_type("AXSecureTextField"), "password");
    assert_eq!(determine_field_type("AXPasswordTextArea"), "password");
    assert_eq!(determine_field_type("AXSearchField"), "search");
    assert_eq!(determine_field_type("AXComboBox"), "combobox");
    assert_eq!(determine_field_type("AXButton"), "text");
    assert_eq!(determine_field_type(""), "text");
    assert_eq!(determine_field_type("AXPassword"), "text");
    assert_eq!(determine_field_type("axtextfield Secure"), "text");
    assert_eq!(determine_field_type("AXSearchField AXTextField"), "text");
    assert_eq!(determine_field_type("AXComboBox AXSearchField"), "search");
}

#[test]
fn text_field_context_takes_what_was_read() {
    let ctx = text_field_context(
        Some("hello".to_string()),
        Some("ell".to_string()),
        Some("AXSecureTextField".to_string()),
        Some("Password".to_string()),
        Some("Enter it".to_string()),
    );
    assert_eq!(ctx.full_text, "hello");
    assert_eq!(ctx.text_before_cursor, "hello");
    assert_eq!(ctx.text_after_cursor, "");
    assert_eq!(ctx.selected_text, "ell");
    assert_eq!(ctx.field_type, Some("password".to_string()));
    assert!(ctx.is_password_field);
    assert_eq!(ctx.field_label, Some("Password".to_string()));
    assert_eq!(ctx.field_hint, Some("Enter it".to_string()));
    assert_eq!(ctx.package_name, "");
    assert_eq!(ctx.locale, "en-US");
}

#[test]
fn text_field_context_without_attributes_is_the_default() {
    let ctx = text_field_context(None, None, None, None, None);
    assert_eq!(ctx.full_text, "");
    assert_eq!(ctx.selected_text, "");
    assert_eq!(ctx.field_type, None);
    assert!(!ctx.is_password_field);
    assert_eq!(ctx.field_label, None);
    assert_eq!(ctx.field_hint, None);
    let plain = text_field_context(None, None, Some("AXPasswordButton".to_string()), None, None);
    assert_eq!(plain.field_type, Some("text".to_string()));
    assert!(plain.is_password_field);
}

#[test]
fn unknown_platform_reports_unknown_window() {
    let info = get_active_window_info().unwrap();
    assert_eq!(info.window_title, "Unknown");
    assert_eq!(info.application_name, "Unknown");
    assert_eq!(info.bundle_id, "unknown");
    assert_eq!(info.process_name, "unknown");
    let field = get_text_field_info().unwrap();
    assert_eq!(field.full_text, "");
    assert_eq!(field.keyboard_mode, "text");
}

#[test]
fn gathered_context_names_the_package() {
    let ctx = gather_voice_context();
    assert_eq!(ctx.package_name, "unknown");
    assert_eq!(ctx.full_text, "");
    assert_eq!(ctx.ime_options.action, "done");
}

#[test]
fn merged_context_takes_the_bundle_identifier() {
    let mut field = VoiceContext::default();
    field.full_text = "draft".to_string();
    field.package_name = "stale".to_string();
    let window = WindowInfo {
        window_title: "Untitled".to_string(),
        application_name: "Editor".to_string(),
        bundle_id: "com.example.editor".to_string(),
        process_name: "Editor".to_string(),
    };
    let ctx = merge_voice_context(Ok(field.clone()), Ok(window.clone()));
    assert_eq!(ctx.package_name, "com.example.editor");
    assert_eq!(ctx.full_text, "draft");
    let no_window = merge_voice_context(Ok(field), Err("denied".to_string()));
    assert_eq!(no_window.package_name, "unknown");
    assert_eq!(no_window.full_text, "draft");
    let no_field = merge_voice_context(Err("denied".to_string()), Ok(window));
    assert_eq!(no_field.package_name, "com.example.editor");
    assert_eq!(no_field.full_text, "");
    assert_eq!(no_field.locale, "en-US");
}

#[test]
fn overlay_starts_hidden_without_a_window() {
    let manager = OverlayManager::new();
    assert_eq!(*manager.get_current_state(), OverlayState::Hidden);
    assert_eq!(manager.hide_overlay(), Vec::new());
    assert_eq!(manager.update_state(OverlayState::Processing), Vec::new());
}

#[test]
fn first_show_creates_the_window() {
    let mut manager = OverlayManager::new();
    assert_eq!(
        manager.show_overlay(OverlayState::Recording),
        vec![
            OverlayAction::CreateWindow,
            OverlayAction::ShowWindow,
            OverlayAction::KeepOnTop,
            OverlayAction::PositionWindow,
            OverlayAction::EmitState(OverlayState::Recording),
        ]
    );
    manager.window_created();
    assert_eq!(*manager.get_current_state(), OverlayState::Hidden);
    manager.state_changed(OverlayState::Recording);
    assert_eq!(*manager.get_current_state(), OverlayState::Recording);
    assert_eq!(
        manager.show_overlay(OverlayState::Processing),
        vec![
            OverlayAction::ShowWindow,
            OverlayAction::KeepOnTop,
            OverlayAction::PositionWindow,
            OverlayAction::EmitState(OverlayState::Processing),
        ]
    );
    assert_eq!(
        manager.update_state(OverlayState::Processing),
        vec![OverlayAction::EmitState(OverlayState::Processing)]
    );
    assert_eq!(manager.hide_overlay(), vec![OverlayAction::HideWindow]);
    manager.state_changed(OverlayState::Hidden);
    assert_eq!(*manager.get_current_state(), OverlayState::Hidden);
}
