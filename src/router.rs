use crate::audio::{keep_last, AudioRingBuffer};
use crate::joypad::{JoypadState, RETRO_DEVICE_JOYPAD};
use crate::pixel::{pixel_format_from_raw, RetroPixelFormat, VideoFrame};
use vstd::prelude::*;
use vstd::slice::slice_to_vec;

verus! {

pub const RETRO_ENVIRONMENT_GET_CAN_DUPE: u32 = 3;

pub const RETRO_ENVIRONMENT_SET_PIXEL_FORMAT: u32 = 10;

/// A copy of `f` with the same dimensions, format and bytes.
pub open spec fn same_frame(a: VideoFrame, b: VideoFrame) -> bool {
    &&& a.width == b.width
    &&& a.height == b.height
    &&& a.pitch == b.pitch
    &&& a.pixel_format == b.pixel_format
    &&& a.data@ == b.data@
}

/// Copies a frame, bytes included.
pub fn copy_frame(f: &VideoFrame) -> (r: VideoFrame)
    ensures
        same_frame(r, *f),
{
    let data = f.data.clone();
    assert(data@ =~= f.data@);
    VideoFrame { width: f.width, height: f.height, pitch: f.pitch, pixel_format: f.pixel_format, data }
}

/// The callback set of one session: the state that the ABI callbacks write
/// (latest frame, queued audio, negotiated pixel format) and read (joypad).
#[derive(Debug)]
pub struct Callbacks {
    pub pixel_format: RetroPixelFormat,
    pub latest_frame: Option<VideoFrame>,
    pub audio: AudioRingBuffer,
    pub joypad: JoypadState,
}

impl Callbacks {
    pub open spec fn wf(&self) -> bool {
        self.audio.wf()
    }

    pub open spec fn spec_pixel_format(&self) -> RetroPixelFormat {
        self.pixel_format
    }

    /// A fresh callback set: no frame yet, an empty audio queue of the given
    /// capacity, all buttons released, and the default XRGB8888 format.
    pub fn new(audio_capacity: usize) -> (r: Callbacks)
        ensures
            r.wf(),
            r.latest_frame is None,
            r.audio@ == Seq::<i16>::empty(),
            r.audio.spec_capacity() == audio_capacity,
            forall|id: u32| !r.joypad.pressed(id),
            r.spec_pixel_format() == RetroPixelFormat::Xrgb8888,
    {
        Callbacks {
            pixel_format: RetroPixelFormat::Xrgb8888,
            latest_frame: None,
            audio: AudioRingBuffer::new(audio_capacity),
            joypad: JoypadState::released(),
        }
    }

    pub fn set_pixel_format(&mut self, format: RetroPixelFormat)
        ensures
            final(self).spec_pixel_format() == format,
            final(self).latest_frame == old(self).latest_frame,
            final(self).audio == old(self).audio,
            final(self).joypad == old(self).joypad,
    {
        self.pixel_format = format;
    }

    pub fn pixel_format(&self) -> (r: RetroPixelFormat)
        ensures
            r == self.spec_pixel_format(),
    {
        self.pixel_format
    }
}

/// One registered callback set with the session that owns it.
#[derive(Debug)]
pub struct Registration {
    pub session: u64,
    pub callbacks: Callbacks,
}

/// What the environment callback hands back to the core.
#[derive(Debug, Clone, Copy, PartialEq, Eq, Structural)]
pub struct EnvironmentReply {
    /// The callback's boolean result.
    pub handled: bool,
    /// Whether `true` is to be written through the command's data pointer.
    pub write_true: bool,
}

/// The process-wide slot that the ABI's context-free callbacks consult: at
/// most one callback set is active at a time.
#[derive(Debug)]
pub struct CallbackRouter {
    active: Option<Registration>,
}

impl CallbackRouter {
    pub closed spec fn spec_active(&self) -> Option<Registration> {
        self.active
    }

    pub open spec fn active_session(&self) -> Option<u64> {
        match self.spec_active() {
            Some(reg) => Some(reg.session),
            None => None,
        }
    }

    pub open spec fn wf(&self) -> bool {
        match self.spec_active() {
            Some(reg) => reg.callbacks.wf(),
            None => true,
        }
    }

    pub fn new() -> (r: CallbackRouter)
        ensures
            r.spec_active() is None,
            r.wf(),
    {
        CallbackRouter { active: None }
    }

    /// Installs `callbacks` as the active set for `session`, handing back the
    /// registration it replaces.
    pub fn register(&mut self, session: u64, callbacks: Callbacks) -> (prev: Option<Registration>)
        requires
            callbacks.wf(),
        ensures
            final(self).spec_active() == Some(Registration { session, callbacks }),
            final(self).wf(),
            prev == old(self).spec_active(),
    {
        let prev = self.active.take();
        self.active = Some(Registration { session, callbacks });
        prev
    }

    /// Removes the active set if `session` owns it and hands it back; a
    /// session that is not the registrant leaves the slot as it is.
    pub fn unregister(&mut self, session: u64) -> (r: Option<Callbacks>)
        requires
            old(self).wf(),
        ensures
            final(self).wf(),
            old(self).active_session() == Some(session) ==> {
                &&& final(self).spec_active() is None
                &&& r == Some(old(self).spec_active()->0.callbacks)
            },
            old(self).active_session() != Some(session) ==> {
                &&& final(self).spec_active() == old(self).spec_active()
                &&& r is None
            },
    {
        let owns = match &self.active {
            Some(reg) => reg.session == session,
            None => false,
        };
        if owns {
            match self.active.take() {
                Some(reg) => Some(reg.callbacks),
                None => None,
            }
        } else {
            None
        }
    }

    pub fn active_session_id(&self) -> (r: Option<u64>)
        ensures
            r == self.active_session(),
    {
        match &self.active {
            Some(reg) => Some(reg.session),
            None => None,
        }
    }

    /// The environment callback. Only two commands are understood: "can the
    /// host dupe frames" (yes, whenever there is somewhere to write the
    /// answer) and "set pixel format", which accepts XRGB8888 and RGB565 and
    /// only while a callback set is registered. Every other command, and any
    /// call without data, is unsupported.
    pub fn environment(&mut self, cmd: u32, has_data: bool, raw_format: u32) -> (r: EnvironmentReply)
        requires
            old(self).wf(),
        ensures
            final(self).wf(),
            r == environment_reply(cmd, has_data, raw_format, old(self).active_session() is Some),
            final(self).active_session() == old(self).active_session(),
            match (old(self).spec_active(), final(self).spec_active()) {
                (Some(a), Some(b)) => {
                    &&& b.callbacks.latest_frame == a.callbacks.latest_frame
                    &&& b.callbacks.audio == a.callbacks.audio
                    &&& b.callbacks.joypad == a.callbacks.joypad
                    &&& b.callbacks.spec_pixel_format() == if r.handled && cmd
                        == RETRO_ENVIRONMENT_SET_PIXEL_FORMAT {
                        pixel_format_from_raw(raw_format)->0
                    } else {
                        a.callbacks.spec_pixel_format()
                    }
                },
                (None, None) => true,
                _ => false,
            },
    {
        if cmd == RETRO_ENVIRONMENT_GET_CAN_DUPE {
            EnvironmentReply { handled: has_data, write_true: has_data }
        } else if cmd == RETRO_ENVIRONMENT_SET_PIXEL_FORMAT {
            if !has_data {
                return EnvironmentReply { handled: false, write_true: false };
            }
            let format = RetroPixelFormat::from_raw(raw_format);
            let supported = match format {
                Some(RetroPixelFormat::Xrgb8888) => true,
                Some(RetroPixelFormat::Rgb565) => true,
                _ => false,
            };
            if !supported {
                return EnvironmentReply { handled: false, write_true: false };
            }
            match &mut self.active {
                Some(reg) => {
                    match format {
                        Some(f) => reg.callbacks.set_pixel_format(f),
                        None => {},
                    }
                    EnvironmentReply { handled: true, write_true: false }
                },
                None => EnvironmentReply { handled: false, write_true: false },
            }
        } else {
            EnvironmentReply { handled: false, write_true: false }
        }
    }

    /// The video-refresh callback, given the bytes the core's buffer holds
    /// (`video_copy_len` of them). The active set keeps a copy as its latest
    /// frame, tagged with the negotiated pixel format; a zero-sized frame, or
    /// no registrant, changes nothing.
    pub fn video_refresh(&mut self, data: &[u8], width: u32, height: u32, pitch: usize)
        requires
            old(self).wf(),
        ensures
            final(self).wf(),
            final(self).active_session() == old(self).active_session(),
            match (old(self).spec_active(), final(self).spec_active()) {
                (Some(a), Some(b)) => {
                    &&& b.callbacks.audio == a.callbacks.audio
                    &&& b.callbacks.joypad == a.callbacks.joypad
                    &&& b.callbacks.spec_pixel_format() == a.callbacks.spec_pixel_format()
                    &&& if width == 0 || height == 0 {
                        b.callbacks.latest_frame == a.callbacks.latest_frame
                    } else {
                        &&& b.callbacks.latest_frame is Some
                        &&& same_frame(
                            b.callbacks.latest_frame->0,
                            VideoFrame {
                                width,
                                height,
                                pitch,
                                pixel_format: a.callbacks.spec_pixel_format(),
                                data: b.callbacks.latest_frame->0.data,
                            },
                        )
                        &&& b.callbacks.latest_frame->0.data@ == data@
                    }
                },
                (None, None) => true,
                _ => false,
            },
    {
        if width == 0 || height == 0 {
            return ;
        }
        match &mut self.active {
            Some(reg) => {
                let format = reg.callbacks.pixel_format();
                let frame = VideoFrame {
                    width,
                    height,
                    pitch,
                    pixel_format: format,
                    data: slice_to_vec(data),
                };
                reg.callbacks.latest_frame = Some(frame);
            },
            None => {},
        }
    }

    /// The single-sample audio callback: one stereo frame, left then right.
    pub fn audio_sample(&mut self, left: i16, right: i16)
        requires
            old(self).wf(),
        ensures
            final(self).wf(),
            final(self).active_session() == old(self).active_session(),
            match (old(self).spec_active(), final(self).spec_active()) {
                (Some(a), Some(b)) => {
                    &&& b.callbacks.audio@ == keep_last(
                        a.callbacks.audio@ + seq![left, right],
                        a.callbacks.audio.spec_capacity(),
                    )
                    &&& b.callbacks.audio.spec_capacity() == a.callbacks.audio.spec_capacity()
                    &&& b.callbacks.latest_frame == a.callbacks.latest_frame
                    &&& b.callbacks.joypad == a.callbacks.joypad
                    &&& b.callbacks.spec_pixel_format() == a.callbacks.spec_pixel_format()
                },
                (None, None) => true,
                _ => false,
            },
    {
        let samples: [i16; 2] = [left, right];
        let s: &[i16] = &samples;
        assert(s@ =~= seq![left, right]);
        match &mut self.active {
            Some(reg) => reg.callbacks.audio.push_samples(s),
            None => {},
        }
    }

    /// The batch audio callback, given `frames` interleaved stereo frames
    /// (`samples`, `audio_batch_len` of them). Returns the number of frames
    /// consumed.
    pub fn audio_sample_batch(&mut self, samples: &[i16], frames: usize) -> (r: usize)
        requires
            old(self).wf(),
        ensures
            r == frames,
            final(self).wf(),
            final(self).active_session() == old(self).active_session(),
            match (old(self).spec_active(), final(self).spec_active()) {
                (Some(a), Some(b)) => {
                    &&& b.callbacks.audio@ == keep_last(
                        a.callbacks.audio@ + samples@,
                        a.callbacks.audio.spec_capacity(),
                    )
                    &&& b.callbacks.audio.spec_capacity() == a.callbacks.audio.spec_capacity()
                    &&& b.callbacks.latest_frame == a.callbacks.latest_frame
                    &&& b.callbacks.joypad == a.callbacks.joypad
                    &&& b.callbacks.spec_pixel_format() == a.callbacks.spec_pixel_format()
                },
                (None, None) => true,
                _ => false,
            },
    {
        match &mut self.active {
            Some(reg) => reg.callbacks.audio.push_samples(samples),
            None => {},
        }
        frames
    }

    /// The input-state callback: the joypad on port 0 answers from the active
    /// set's button record; everything else, and no registrant, reads as not
    /// pressed.
    pub fn input_state(&self, port: u32, device: u32, index: u32, id: u32) -> (r: i16)
        ensures
            r == match self.spec_active() {
                Some(reg) => if port == 0 && device == RETRO_DEVICE_JOYPAD && reg.callbacks.joypad.pressed(id) {
                    1i16
                } else {
                    0i16
                },
                None => 0i16,
            },
    {
        match &self.active {
            Some(reg) => {
                if port != 0 || device != RETRO_DEVICE_JOYPAD {
                    0
                } else {
                    reg.callbacks.joypad.value_for_id(id)
                }
            },
            None => 0,
        }
    }

    /// The pixel format negotiated by the active set, if any is registered.
    pub fn active_pixel_format(&self) -> (r: Option<RetroPixelFormat>)
        ensures
            r == match self.spec_active() {
                Some(reg) => Some(reg.callbacks.spec_pixel_format()),
                None => None::<RetroPixelFormat>,
            },
    {
        match &self.active {
            Some(reg) => Some(reg.callbacks.pixel_format()),
            None => None,
        }
    }

    /// The latest frame of the active set, if it has one.
    pub fn latest_frame(&self) -> (r: Option<VideoFrame>)
        ensures
            match self.spec_active() {
                Some(reg) => match reg.callbacks.latest_frame {
                    Some(f) => r is Some && same_frame(r->0, f),
                    None => r is None,
                },
                None => r is None,
            },
    {
        match &self.active {
            Some(reg) => match &reg.callbacks.latest_frame {
                Some(f) => Some(copy_frame(f)),
                None => None,
            },
            None => None,
        }
    }

    /// Host side: records a button of the active set's joypad.
    pub fn set_button(&mut self, id: u32, pressed: bool)
        requires
            old(self).wf(),
        ensures
            final(self).wf(),
            final(self).active_session() == old(self).active_session(),
            match (old(self).spec_active(), final(self).spec_active()) {
                (Some(a), Some(b)) => {
                    &&& forall|i: u32|
                        #![trigger b.callbacks.joypad.pressed(i)]
                        b.callbacks.joypad.pressed(i) == if i == id && JoypadState::is_button_id(id) {
                            pressed
                        } else {
                            a.callbacks.joypad.pressed(i)
                        }
                    &&& b.callbacks.audio == a.callbacks.audio
                    &&& b.callbacks.latest_frame == a.callbacks.latest_frame
                    &&& b.callbacks.spec_pixel_format() == a.callbacks.spec_pixel_format()
                },
                (None, None) => true,
                _ => false,
            },
    {
        match &mut self.active {
            Some(reg) => reg.callbacks.joypad.set_button(id, pressed),
            None => {},
        }
    }

    /// Host side: pulls audio from the active set into `out`, padding with
    /// silence; with no registrant `out` becomes all silence.
    pub fn pop_audio(&mut self, out: &mut [i16])
        requires
            old(self).wf(),
        ensures
            final(self).wf(),
            final(self).active_session() == old(self).active_session(),
            final(out)@.len() == old(out)@.len(),
            match (old(self).spec_active(), final(self).spec_active()) {
                (Some(a), Some(b)) => {
                    &&& final(out)@ == crate::audio::popped(a.callbacks.audio@, old(out)@.len())
                    &&& b.callbacks.audio@ == crate::audio::after_pop(
                        a.callbacks.audio@,
                        old(out)@.len(),
                    )
                    &&& b.callbacks.latest_frame == a.callbacks.latest_frame
                    &&& b.callbacks.joypad == a.callbacks.joypad
                },
                (None, None) => final(out)@ == Seq::new(old(out)@.len(), |i: int| 0i16),
                _ => false,
            },
    {
        match &mut self.active {
            Some(reg) => reg.callbacks.audio.pop_samples(out),
            None => {
                let mut empty = AudioRingBuffer::new(0);
                empty.pop_samples(out);
                assert(out@ =~= Seq::new(old(out)@.len(), |i: int| 0i16));
            },
        }
    }
}

/// The environment callback's answer as a function of the command, whether
/// the core passed a data pointer, the requested format, and whether anything
/// is registered.
pub open spec fn environment_reply(cmd: u32, has_data: bool, raw_format: u32, registered: bool) -> EnvironmentReply {
    if cmd == RETRO_ENVIRONMENT_GET_CAN_DUPE {
        EnvironmentReply { handled: has_data, write_true: has_data }
    } else if cmd == RETRO_ENVIRONMENT_SET_PIXEL_FORMAT {
        EnvironmentReply {
            handled: has_data && registered && (raw_format == 0 || raw_format == 1),
            write_true: false,
        }
    } else {
        EnvironmentReply { handled: false, write_true: false }
    }
}

/// With nothing registered the environment callback supports only the
/// can-dupe query (when the core supplies somewhere to write the answer);
/// every other command, pixel-format negotiation included, reports failure.
pub proof fn law_environment_without_registrant(cmd: u32, has_data: bool, raw_format: u32)
    ensures
        environment_reply(cmd, has_data, raw_format, false).handled == (cmd
            == RETRO_ENVIRONMENT_GET_CAN_DUPE && has_data),
{
}

/// Of the three representable pixel formats, negotiation accepts only
/// XRGB8888 and RGB565: 1-5-5-5 is representable but never accepted.
pub proof fn law_negotiable_formats(raw_format: u32)
    ensures
        environment_reply(RETRO_ENVIRONMENT_SET_PIXEL_FORMAT, true, raw_format, true).handled
            <==> (pixel_format_from_raw(raw_format) == Some(RetroPixelFormat::Xrgb8888)
            || pixel_format_from_raw(raw_format) == Some(RetroPixelFormat::Rgb565)),
{
}

/// How many bytes of the core's video buffer a refresh copies: none for a
/// missing buffer or a zero-sized frame, else `pitch * height`, saturating.
pub fn video_copy_len(has_data: bool, width: u32, height: u32, pitch: usize) -> (r: Option<usize>)
    ensures
        r == if !has_data || width == 0 || height == 0 {
            None::<usize>
        } else if pitch * height > usize::MAX {
            Some(usize::MAX)
        } else {
            Some((pitch * height) as usize)
        },
{
    if !has_data || width == 0 || height == 0 {
        None
    } else {
        match pitch.checked_mul(height as usize) {
            Some(n) => Some(n),
            None => Some(usize::MAX),
        }
    }
}

/// How many samples a batch of `frames` stereo frames carries: none for a
/// missing buffer, zero frames, or a count whose samples cannot be addressed.
pub fn audio_batch_len(has_data: bool, frames: usize) -> (r: Option<usize>)
    ensures
        r == if !has_data || frames == 0 || frames * 2 > usize::MAX {
            None::<usize>
        } else {
            Some((frames * 2) as usize)
        },
{
    if !has_data || frames == 0 {
        None
    } else {
        frames.checked_mul(2)
    }
}

} // verus!
