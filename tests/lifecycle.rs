use playbyte::dualsense::{
    button_changes, parse_button_state, parse_touch_sample, SwipeDetector, TouchSample,
};
use playbyte::input::{
    action_from_button, action_from_key, map_key, map_pad_button, Action, ButtonContext, Key,
    PadButton,
};
use playbyte::joypad::{RETRO_DEVICE_ID_JOYPAD_A, RETRO_DEVICE_ID_JOYPAD_B, RETRO_DEVICE_ID_JOYPAD_SELECT};
use playbyte::router::{CallbackRouter, Callbacks};
use playbyte::session::{
    check_api_version, check_provenance, decode_system_info, required_symbol, resolve_symbols,
    serialize_outcome, state_buffer, unserialize_outcome, LibretroError, Phase, ProvenanceError,
    Session, SystemInfo, TeardownStep, REQUIRED_SYMBOL_COUNT,
};

fn info(name: &str, version: &str) -> SystemInfo {
    SystemInfo {
        library_name: name.to_string(),
        library_version: version.to_string(),
        valid_extensions: "nes".to_string(),
        need_fullpath: false,
        block_extract: false,
    }
}

fn loaded_session(router: &mut CallbackRouter, id: u64) -> Session {
    let mut s = Session::new(id);
    s.library_opened(Ok(())).unwrap();
    s.register(router, Callbacks::new(8));
    s.initialized(Ok(info("core", "1.0"))).unwrap();
    s.game_load_finished(true).unwrap();
    s
}

#[test]
fn api_version_must_match_exactly() {
    assert!(check_api_version(1).is_ok());
    assert_eq!(check_api_version(2), Err(LibretroError::ApiVersion { expected: 1, actual: 2 }));
}

#[test]
fn first_missing_symbol_is_named() {
    assert!(resolve_symbols(&[true; REQUIRED_SYMBOL_COUNT]).is_ok());
    let mut found = [true; REQUIRED_SYMBOL_COUNT];
    found[13] = false;
    found[15] = false;
    assert_eq!(resolve_symbols(&found), Err(LibretroError::MissingSymbol("retro_run".to_string())));
    assert_eq!(required_symbol(0), "retro_init");
    assert_eq!(required_symbol(16), "retro_unserialize");
}

#[test]
fn metadata_must_be_utf8() {
    let ok = decode_system_info(b"Mesen", b"0.9", b"nes|fds", true, false).unwrap();
    assert_eq!(ok.library_name, "Mesen");
    assert_eq!(ok.valid_extensions, "nes|fds");
    assert!(ok.need_fullpath && !ok.block_extract);
    assert_eq!(decode_system_info(b"Mesen", &[0xff, 0xfe], b"", false, false).unwrap_err(), LibretroError::Utf8);
}

#[test]
fn serialize_results_are_distinct_errors() {
    assert_eq!(state_buffer(4), vec![0; 4]);
    assert_eq!(serialize_outcome(true, vec![1, 2]).unwrap(), vec![1, 2]);
    assert_eq!(serialize_outcome(false, vec![1, 2]).unwrap_err(), LibretroError::Serialize);
    assert!(unserialize_outcome(true).is_ok());
    assert_eq!(unserialize_outcome(false).unwrap_err(), LibretroError::Unserialize);
}

#[test]
fn restore_requires_matching_core_and_version() {
    let running = info("Mesen", "0.9.9");
    assert!(check_provenance(&running, "Mesen", "0.9.9").is_ok());
    assert_eq!(
        check_provenance(&running, "FCEUmm", "0.9.9"),
        Err(ProvenanceError::CoreMismatch { expected: "FCEUmm".to_string(), found: "Mesen".to_string() })
    );
    assert_eq!(
        check_provenance(&running, "Mesen", "1.0"),
        Err(ProvenanceError::VersionMismatch { expected: "1.0".to_string(), found: "0.9.9".to_string() })
    );
}

#[test]
fn session_lifecycle_phases() {
    let mut router = CallbackRouter::new();
    let mut s = Session::new(3);
    assert_eq!(s.phase(), Phase::Unloaded);
    let err = Session::new(4).library_opened(Err("no such file".to_string())).unwrap_err();
    assert_eq!(err, LibretroError::LoadLibrary("no such file".to_string()));
    s.library_opened(Ok(())).unwrap();
    s.register(&mut router, Callbacks::new(8));
    assert_eq!(router.active_session_id(), Some(3));
    s.initialized(Ok(info("core", "1"))).unwrap();
    assert_eq!(s.phase(), Phase::Initialized);
    assert_eq!(s.game_load_finished(false), Err(LibretroError::LoadGame));
    assert_eq!(s.phase(), Phase::Initialized);
    s.game_load_finished(true).unwrap();
    assert_eq!(s.phase(), Phase::GameLoaded);
    assert_eq!(s.system_info().unwrap().library_name, "core");
    assert!(s.unload_game());
    assert!(!s.unload_game());
    assert_eq!(s.phase(), Phase::Initialized);
}

#[test]
fn teardown_runs_unload_deinit_unregister_release() {
    let mut router = CallbackRouter::new();
    let mut s = loaded_session(&mut router, 9);
    let mut steps = Vec::new();
    while let Some(step) = s.next_teardown_step() {
        if step == TeardownStep::Deinit {
            // callbacks made during deinit still reach this session
            assert_eq!(router.active_session_id(), Some(9));
        }
        let handed_back = s.teardown_step_done(step, &mut router);
        assert_eq!(handed_back.is_some(), step == TeardownStep::Unregister);
        steps.push(step);
    }
    assert_eq!(
        steps,
        vec![TeardownStep::UnloadGame, TeardownStep::Deinit, TeardownStep::Unregister, TeardownStep::ReleaseLibrary]
    );
    assert_eq!(router.active_session_id(), None);
}

#[test]
fn failed_init_still_tears_down_in_order() {
    let mut router = CallbackRouter::new();
    let mut s = Session::new(1);
    s.library_opened(Ok(())).unwrap();
    s.register(&mut router, Callbacks::new(8));
    assert_eq!(s.initialized(Err(LibretroError::Utf8)), Err(LibretroError::Utf8));
    let mut steps = Vec::new();
    while let Some(step) = s.next_teardown_step() {
        s.teardown_step_done(step, &mut router);
        steps.push(step);
    }
    assert_eq!(steps, vec![TeardownStep::Deinit, TeardownStep::Unregister, TeardownStep::ReleaseLibrary]);
}

#[test]
fn second_session_registers_only_after_first_is_gone() {
    let mut router = CallbackRouter::new();
    let mut a = loaded_session(&mut router, 1);
    router.audio_sample(1, 1);
    while let Some(step) = a.next_teardown_step() {
        a.teardown_step_done(step, &mut router);
    }
    assert_eq!(router.active_session_id(), None);
    let _b = loaded_session(&mut router, 2);
    router.audio_sample(2, 2);
    let mut out = [0i16; 4];
    router.pop_audio(&mut out);
    assert_eq!(out, [2, 2, 0, 0]);
}

#[test]
fn keys_and_buttons_map_to_actions() {
    assert_eq!(action_from_key(Key::PageDown, true), Some(Action::NextItem));
    assert_eq!(action_from_key(Key::PageDown, false), None);
    assert_eq!(action_from_key(Key::KeyB, true), Some(Action::CreateByte));
    let idle = ButtonContext { overlay_visible: false, official_picker_open: false, is_editing_text: false };
    let overlay = ButtonContext { overlay_visible: true, ..idle };
    let picker = ButtonContext { official_picker_open: true, ..overlay };
    assert!(!idle.capture_gameplay());
    assert!(overlay.capture_gameplay());
    assert_eq!(action_from_button(PadButton::Start, true, idle), Some(Action::ToggleOverlay));
    assert_eq!(action_from_button(PadButton::South, true, idle), None);
    assert_eq!(action_from_button(PadButton::RightTrigger2, true, overlay), Some(Action::NextItem));
    assert_eq!(action_from_button(PadButton::North, true, overlay), Some(Action::OpenOfficialPickerCurrent));
    assert_eq!(action_from_button(PadButton::DPadUp, true, picker), Some(Action::OfficialPickerMove(-1)));
    assert_eq!(action_from_button(PadButton::Start, true, picker), Some(Action::CancelUi));
    assert_eq!(action_from_button(PadButton::Start, false, picker), None);
    assert_eq!(map_pad_button(PadButton::South), Some(RETRO_DEVICE_ID_JOYPAD_B));
    assert_eq!(map_pad_button(PadButton::Mode), None);
    assert_eq!(map_key(Key::KeyX), Some(RETRO_DEVICE_ID_JOYPAD_A));
    assert_eq!(map_key(Key::ShiftRight), Some(RETRO_DEVICE_ID_JOYPAD_SELECT));
    assert_eq!(map_key(Key::Tab), None);
}

fn report(len: usize) -> Vec<u8> {
    let mut r = vec![0u8; len];
    r[0] = 1;
    r
}

#[test]
fn dualsense_reports_parse() {
    let mut r = report(64);
    r[8] = 0x08 | 0x20; // d-pad released, cross held
    r[9] = 0x02 | 0x20; // R1 and options
    let b = parse_button_state(&r).unwrap();
    assert!(b.cross && b.r1 && b.options);
    assert!(!b.dpad_up && !b.square && !b.l1);
    r[8] = 0x05;
    let d = parse_button_state(&r).unwrap();
    assert!(d.dpad_down && d.dpad_left && !d.dpad_up && !d.dpad_right);
    assert!(parse_button_state(&report(10)).is_none());
    let mut other = report(64);
    other[0] = 2;
    assert!(parse_button_state(&other).is_none());
    r[33] = 0x80;
    r[34] = 0x34;
    r[35] = 0xa2;
    assert_eq!(parse_touch_sample(&r), Some(TouchSample { active: false, x: 0x234 }));
    assert!(parse_touch_sample(&report(36)).is_none());
}

#[test]
fn dualsense_button_changes_in_report_order() {
    let mut r = report(64);
    r[8] = 0x08;
    let before = parse_button_state(&r).unwrap();
    r[8] = 0x00 | 0x10;
    r[9] = 0x20;
    let after = parse_button_state(&r).unwrap();
    assert_eq!(
        button_changes(before, after),
        vec![(PadButton::DPadUp, true), (PadButton::West, true), (PadButton::Start, true)]
    );
    assert!(button_changes(after, after).is_empty());
}

#[test]
fn swipes_are_recognised() {
    let mut d = SwipeDetector::new();
    assert_eq!(d.update(TouchSample { active: true, x: 900 }, 1000), None);
    assert_eq!(d.update(TouchSample { active: true, x: 500 }, 1100), None);
    assert_eq!(d.update(TouchSample { active: false, x: 0 }, 1200), Some(Action::NextItem));
    // within the cooldown
    d.update(TouchSample { active: true, x: 100 }, 1250);
    assert_eq!(d.update(TouchSample { active: false, x: 0 }, 1300), None);
    // too slow
    d.update(TouchSample { active: true, x: 100 }, 2000);
    d.update(TouchSample { active: true, x: 900 }, 2500);
    assert_eq!(d.update(TouchSample { active: false, x: 0 }, 2800), None);
    // rightwards, quick enough
    d.update(TouchSample { active: true, x: 100 }, 4000);
    d.update(TouchSample { active: true, x: 400 }, 4100);
    assert_eq!(d.update(TouchSample { active: false, x: 0 }, 4200), Some(Action::PrevItem));
    // too short
    d.update(TouchSample { active: true, x: 100 }, 6000);
    d.update(TouchSample { active: true, x: 200 }, 6100);
    assert_eq!(d.update(TouchSample { active: false, x: 0 }, 6200), None);
}
