use playbyte::audio::AudioRingBuffer;
use playbyte::joypad::{
    JoypadState, RETRO_DEVICE_ID_JOYPAD_A, RETRO_DEVICE_ID_JOYPAD_B, RETRO_DEVICE_ID_JOYPAD_START,
    RETRO_DEVICE_JOYPAD,
};
use playbyte::pixel::{convert_frame_to_rgba, RetroPixelFormat, VideoFrame};
use playbyte::router::{
    audio_batch_len, video_copy_len, CallbackRouter, Callbacks, RETRO_ENVIRONMENT_GET_CAN_DUPE,
    RETRO_ENVIRONMENT_SET_PIXEL_FORMAT,
};

fn frame(width: u32, height: u32, pitch: usize, format: RetroPixelFormat, data: Vec<u8>) -> VideoFrame {
    VideoFrame { width, height, pitch, pixel_format: format, data }
}

#[test]
fn xrgb8888_swaps_to_rgba() {
    let f = frame(2, 1, 8, RetroPixelFormat::Xrgb8888, vec![0x10, 0x20, 0x30, 0x00, 0xff, 0x00, 0x80, 0x7f]);
    assert_eq!(convert_frame_to_rgba(&f), vec![0x30, 0x20, 0x10, 0xff, 0x80, 0x00, 0xff, 0xff]);
}

#[test]
fn rgb565_replicates_high_bits() {
    // white, pure red, pure green, pure blue
    let data = vec![0xff, 0xff, 0x00, 0xf8, 0xe0, 0x07, 0x1f, 0x00];
    let f = frame(4, 1, 8, RetroPixelFormat::Rgb565, data);
    assert_eq!(
        convert_frame_to_rgba(&f),
        vec![255, 255, 255, 255, 255, 0, 0, 255, 0, 255, 0, 255, 0, 0, 255, 255]
    );
}

#[test]
fn rgb565_mid_values() {
    // r = 16, g = 32, b = 1 -> value 0x8401
    let f = frame(1, 1, 2, RetroPixelFormat::Rgb565, vec![0x01, 0x84]);
    assert_eq!(convert_frame_to_rgba(&f), vec![132, 130, 8, 255]);
}

#[test]
fn rgb1555_replicates_high_bits() {
    // all three channels at 31, top bit set and ignored
    let f = frame(1, 1, 2, RetroPixelFormat::_0rgb1555, vec![0xff, 0xff]);
    assert_eq!(convert_frame_to_rgba(&f), vec![255, 255, 255, 255]);
    // r = 1, g = 2, b = 3 -> 0x0443
    let g = frame(1, 1, 2, RetroPixelFormat::_0rgb1555, vec![0x43, 0x04]);
    assert_eq!(convert_frame_to_rgba(&g), vec![8, 16, 24, 255]);
}

#[test]
fn row_padding_is_skipped() {
    let data = vec![1, 2, 3, 0, 9, 9, 4, 5, 6, 0, 9, 9];
    let f = frame(1, 2, 6, RetroPixelFormat::Xrgb8888, data);
    assert_eq!(convert_frame_to_rgba(&f), vec![3, 2, 1, 255, 6, 5, 4, 255]);
}

#[test]
fn short_buffer_gives_blank_image() {
    let f = frame(2, 2, 8, RetroPixelFormat::Xrgb8888, vec![1; 8]);
    assert_eq!(convert_frame_to_rgba(&f), vec![0; 16]);
    let narrow = frame(2, 1, 4, RetroPixelFormat::Xrgb8888, vec![1; 8]);
    assert_eq!(convert_frame_to_rgba(&narrow), vec![0; 8]);
}

#[test]
fn empty_frame_gives_empty_image() {
    let f = frame(0, 3, 0, RetroPixelFormat::Rgb565, vec![]);
    assert!(convert_frame_to_rgba(&f).is_empty());
}

#[test]
fn ring_keeps_order_within_capacity() {
    let mut ring = AudioRingBuffer::new(8);
    ring.push_samples(&[1, 2, 3]);
    ring.push_samples(&[4, 5]);
    let mut out = [0i16; 5];
    ring.pop_samples(&mut out);
    assert_eq!(out, [1, 2, 3, 4, 5]);
    assert_eq!(ring.len(), 0);
}

#[test]
fn ring_overflow_keeps_newest() {
    let mut ring = AudioRingBuffer::new(4);
    ring.push_samples(&[1, 2, 3, 4, 5, 6]);
    assert_eq!(ring.len(), 4);
    let mut out = [0i16; 4];
    ring.pop_samples(&mut out);
    assert_eq!(out, [3, 4, 5, 6]);
}

#[test]
fn ring_underflow_pads_with_silence() {
    let mut ring = AudioRingBuffer::new(4);
    ring.push_samples(&[7, -7]);
    let mut out = [9i16; 5];
    ring.pop_samples(&mut out);
    assert_eq!(out, [7, -7, 0, 0, 0]);
    let mut again = [9i16; 2];
    ring.pop_samples(&mut again);
    assert_eq!(again, [0, 0]);
}

#[test]
fn ring_of_zero_capacity_keeps_nothing() {
    let mut ring = AudioRingBuffer::new(0);
    ring.push_samples(&[1, 2]);
    assert_eq!(ring.len(), 0);
    assert_eq!(ring.capacity(), 0);
}

#[test]
fn joypad_reports_pressed_buttons() {
    let mut pad = JoypadState::default();
    assert_eq!(pad.value_for_id(RETRO_DEVICE_ID_JOYPAD_A), 0);
    pad.set_button(RETRO_DEVICE_ID_JOYPAD_A, true);
    pad.set_button(RETRO_DEVICE_ID_JOYPAD_START, true);
    assert_eq!(pad.value_for_id(RETRO_DEVICE_ID_JOYPAD_A), 1);
    assert_eq!(pad.value_for_id(RETRO_DEVICE_ID_JOYPAD_START), 1);
    assert_eq!(pad.value_for_id(RETRO_DEVICE_ID_JOYPAD_B), 0);
    pad.set_button(RETRO_DEVICE_ID_JOYPAD_A, false);
    assert_eq!(pad.value_for_id(RETRO_DEVICE_ID_JOYPAD_A), 0);
    pad.set_button(99, true);
    assert_eq!(pad.value_for_id(99), 0);
}

#[test]
fn router_without_registrant_answers_defaults() {
    let mut router = CallbackRouter::new();
    let dupe = router.environment(RETRO_ENVIRONMENT_GET_CAN_DUPE, true, 0);
    assert!(dupe.handled && dupe.write_true);
    let no_data = router.environment(RETRO_ENVIRONMENT_GET_CAN_DUPE, false, 0);
    assert!(!no_data.handled && !no_data.write_true);
    assert!(!router.environment(RETRO_ENVIRONMENT_SET_PIXEL_FORMAT, true, 1).handled);
    assert!(!router.environment(42, true, 0).handled);
    assert_eq!(router.input_state(0, RETRO_DEVICE_JOYPAD, 0, RETRO_DEVICE_ID_JOYPAD_A), 0);
    router.video_refresh(&[1, 2, 3, 4], 1, 1, 4);
    assert!(router.latest_frame().is_none());
    assert_eq!(router.active_pixel_format(), None);
    assert_eq!(router.audio_sample_batch(&[1, 2], 1), 1);
    router.audio_sample(3, 4);
    let mut out = [5i16; 3];
    router.pop_audio(&mut out);
    assert_eq!(out, [0, 0, 0]);
}

#[test]
fn router_delivers_to_registrant() {
    let mut router = CallbackRouter::new();
    assert!(router.register(7, Callbacks::new(16)).is_none());
    assert_eq!(router.active_session_id(), Some(7));
    assert!(router.environment(RETRO_ENVIRONMENT_SET_PIXEL_FORMAT, true, 1).handled);
    // 1-5-5-5 is representable but not negotiable
    assert!(!router.environment(RETRO_ENVIRONMENT_SET_PIXEL_FORMAT, true, 2).handled);
    assert!(!router.environment(RETRO_ENVIRONMENT_SET_PIXEL_FORMAT, true, 3).handled);
    assert_eq!(router.active_pixel_format(), Some(RetroPixelFormat::Rgb565));
    router.video_refresh(&[1, 2, 3, 4], 2, 1, 4);
    let f = router.latest_frame().expect("frame kept");
    assert_eq!((f.width, f.height, f.pitch), (2, 1, 4));
    assert_eq!(f.pixel_format, RetroPixelFormat::Rgb565);
    assert_eq!(f.data, vec![1, 2, 3, 4]);
    router.audio_sample(1, 2);
    assert_eq!(router.audio_sample_batch(&[3, 4, 5, 6], 2), 2);
    let mut out = [0i16; 8];
    router.pop_audio(&mut out);
    assert_eq!(out, [1, 2, 3, 4, 5, 6, 0, 0]);
    router.set_button(RETRO_DEVICE_ID_JOYPAD_B, true);
    assert_eq!(router.input_state(0, RETRO_DEVICE_JOYPAD, 0, RETRO_DEVICE_ID_JOYPAD_B), 1);
    assert_eq!(router.input_state(1, RETRO_DEVICE_JOYPAD, 0, RETRO_DEVICE_ID_JOYPAD_B), 0);
    assert_eq!(router.input_state(0, 2, 0, RETRO_DEVICE_ID_JOYPAD_B), 0);
}

#[test]
fn router_unregister_only_removes_own_registration() {
    let mut router = CallbackRouter::new();
    router.register(1, Callbacks::new(4));
    assert!(router.unregister(2).is_none());
    assert_eq!(router.active_session_id(), Some(1));
    assert!(router.unregister(1).is_some());
    assert_eq!(router.active_session_id(), None);
}

#[test]
fn replacing_a_registrant_hands_back_the_old_set() {
    let mut router = CallbackRouter::new();
    router.register(1, Callbacks::new(4));
    router.audio_sample(1, 1);
    let old = router.register(2, Callbacks::new(4)).expect("previous registration");
    assert_eq!(old.session, 1);
    assert_eq!(old.callbacks.audio.len(), 2);
    router.audio_sample(5, 5);
    let mut out = [0i16; 2];
    router.pop_audio(&mut out);
    assert_eq!(out, [5, 5]);
}

#[test]
fn copy_lengths_follow_the_abi() {
    assert_eq!(video_copy_len(true, 2, 3, 10), Some(30));
    assert_eq!(video_copy_len(false, 2, 3, 10), None);
    assert_eq!(video_copy_len(true, 0, 3, 10), None);
    assert_eq!(video_copy_len(true, 2, 2, usize::MAX), Some(usize::MAX));
    assert_eq!(audio_batch_len(true, 3), Some(6));
    assert_eq!(audio_batch_len(true, 0), None);
    assert_eq!(audio_batch_len(false, 3), None);
    assert_eq!(audio_batch_len(true, usize::MAX), None);
}
