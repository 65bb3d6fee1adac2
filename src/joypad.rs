use vstd::prelude::*;

verus! {

pub const RETRO_DEVICE_JOYPAD: u32 = 1;

pub const RETRO_DEVICE_ID_JOYPAD_B: u32 = 0;

pub const RETRO_DEVICE_ID_JOYPAD_Y: u32 = 1;

pub const RETRO_DEVICE_ID_JOYPAD_SELECT: u32 = 2;

pub const RETRO_DEVICE_ID_JOYPAD_START: u32 = 3;

pub const RETRO_DEVICE_ID_JOYPAD_UP: u32 = 4;

pub const RETRO_DEVICE_ID_JOYPAD_DOWN: u32 = 5;

pub const RETRO_DEVICE_ID_JOYPAD_LEFT: u32 = 6;

pub const RETRO_DEVICE_ID_JOYPAD_RIGHT: u32 = 7;

pub const RETRO_DEVICE_ID_JOYPAD_A: u32 = 8;

pub const RETRO_DEVICE_ID_JOYPAD_X: u32 = 9;

pub const RETRO_DEVICE_ID_JOYPAD_L: u32 = 10;

pub const RETRO_DEVICE_ID_JOYPAD_R: u32 = 11;

/// The latest pressed/released state of each joypad button, as the host last
/// wrote it.
#[derive(Debug, Clone, Copy)]
pub struct JoypadState {
    pub a: bool,
    pub b: bool,
    pub x: bool,
    pub y: bool,
    pub l: bool,
    pub r: bool,
    pub start: bool,
    pub select: bool,
    pub up: bool,
    pub down: bool,
    pub left: bool,
    pub right: bool,
}

impl JoypadState {
    /// Whether the button with ABI id `id` is held; false for ids that name no
    /// joypad button.
    pub open spec fn pressed(self, id: u32) -> bool {
        if id == RETRO_DEVICE_ID_JOYPAD_A {
            self.a
        } else if id == RETRO_DEVICE_ID_JOYPAD_B {
            self.b
        } else if id == RETRO_DEVICE_ID_JOYPAD_X {
            self.x
        } else if id == RETRO_DEVICE_ID_JOYPAD_Y {
            self.y
        } else if id == RETRO_DEVICE_ID_JOYPAD_L {
            self.l
        } else if id == RETRO_DEVICE_ID_JOYPAD_R {
            self.r
        } else if id == RETRO_DEVICE_ID_JOYPAD_START {
            self.start
        } else if id == RETRO_DEVICE_ID_JOYPAD_SELECT {
            self.select
        } else if id == RETRO_DEVICE_ID_JOYPAD_UP {
            self.up
        } else if id == RETRO_DEVICE_ID_JOYPAD_DOWN {
            self.down
        } else if id == RETRO_DEVICE_ID_JOYPAD_LEFT {
            self.left
        } else if id == RETRO_DEVICE_ID_JOYPAD_RIGHT {
            self.right
        } else {
            false
        }
    }

    /// Ids that name a joypad button.
    pub open spec fn is_button_id(id: u32) -> bool {
        id <= RETRO_DEVICE_ID_JOYPAD_R
    }

    /// All buttons released.
    pub fn released() -> (r: JoypadState)
        ensures
            forall|id: u32| !r.pressed(id),
    {
        JoypadState {
            a: false,
            b: false,
            x: false,
            y: false,
            l: false,
            r: false,
            start: false,
            select: false,
            up: false,
            down: false,
            left: false,
            right: false,
        }
    }

    /// Records the state of button `id`; other buttons keep their state, and an
    /// id that names no button changes nothing.
    pub fn set_button(&mut self, id: u32, pressed: bool)
        ensures
            forall|i: u32|
                #![trigger final(self).pressed(i)]
                final(self).pressed(i) == if i == id && Self::is_button_id(id) {
                    pressed
                } else {
                    old(self).pressed(i)
                },
    {
        match id {
            RETRO_DEVICE_ID_JOYPAD_A => self.a = pressed,
            RETRO_DEVICE_ID_JOYPAD_B => self.b = pressed,
            RETRO_DEVICE_ID_JOYPAD_X => self.x = pressed,
            RETRO_DEVICE_ID_JOYPAD_Y => self.y = pressed,
            RETRO_DEVICE_ID_JOYPAD_L => self.l = pressed,
            RETRO_DEVICE_ID_JOYPAD_R => self.r = pressed,
            RETRO_DEVICE_ID_JOYPAD_START => self.start = pressed,
            RETRO_DEVICE_ID_JOYPAD_SELECT => self.select = pressed,
            RETRO_DEVICE_ID_JOYPAD_UP => self.up = pressed,
            RETRO_DEVICE_ID_JOYPAD_DOWN => self.down = pressed,
            RETRO_DEVICE_ID_JOYPAD_LEFT => self.left = pressed,
            RETRO_DEVICE_ID_JOYPAD_RIGHT => self.right = pressed,
            _ => {},
        }
    }

    /// The ABI's input-state answer for button `id`: 1 when held, else 0.
    pub fn value_for_id(&self, id: u32) -> (r: i16)
        ensures
            r == if self.pressed(id) {
                1i16
            } else {
                0i16
            },
    {
        let pressed = match id {
            RETRO_DEVICE_ID_JOYPAD_A => self.a,
            RETRO_DEVICE_ID_JOYPAD_B => self.b,
            RETRO_DEVICE_ID_JOYPAD_X => self.x,
            RETRO_DEVICE_ID_JOYPAD_Y => self.y,
            RETRO_DEVICE_ID_JOYPAD_L => self.l,
            RETRO_DEVICE_ID_JOYPAD_R => self.r,
            RETRO_DEVICE_ID_JOYPAD_START => self.start,
            RETRO_DEVICE_ID_JOYPAD_SELECT => self.select,
            RETRO_DEVICE_ID_JOYPAD_UP => self.up,
            RETRO_DEVICE_ID_JOYPAD_DOWN => self.down,
            RETRO_DEVICE_ID_JOYPAD_LEFT => self.left,
            RETRO_DEVICE_ID_JOYPAD_RIGHT => self.right,
            _ => false,
        };
        if pressed {
            1
        } else {
            0
        }
    }
}

impl Default for JoypadState {
    fn default() -> (r: JoypadState)
        ensures
            forall|id: u32| !r.pressed(id),
    {
        JoypadState::released()
    }
}

} // verus!
