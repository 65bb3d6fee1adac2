//! Host input: which user action a key or pad button means, and which
//! joypad button it drives in the core.
use crate::joypad::{
    RETRO_DEVICE_ID_JOYPAD_A, RETRO_DEVICE_ID_JOYPAD_B, RETRO_DEVICE_ID_JOYPAD_DOWN,
    RETRO_DEVICE_ID_JOYPAD_L, RETRO_DEVICE_ID_JOYPAD_LEFT, RETRO_DEVICE_ID_JOYPAD_R,
    RETRO_DEVICE_ID_JOYPAD_RIGHT, RETRO_DEVICE_ID_JOYPAD_SELECT, RETRO_DEVICE_ID_JOYPAD_START,
    RETRO_DEVICE_ID_JOYPAD_UP, RETRO_DEVICE_ID_JOYPAD_X, RETRO_DEVICE_ID_JOYPAD_Y,
};
use vstd::prelude::*;

verus! {

/// What the user asked the front end to do.
#[derive(Debug, Clone, PartialEq, Eq)]
pub enum Action {
    NextItem,
    PrevItem,
    ToggleOverlay,
    CreateByte,
    BeginRenameCurrent,
    OpenOfficialPickerCurrent,
    CancelUi,
    OfficialPickerMove(i32),
    OfficialPickerConfirm,
    SelectIndex(usize),
    RenameTitle { index: usize, title: String },
    SetOfficialTitle { index: usize, title: String },
    ClearOfficialTitle { index: usize },
}

/// Which overlays are open when a pad button arrives.
#[derive(Debug, Clone, Copy)]
pub struct ButtonContext {
    pub overlay_visible: bool,
    pub official_picker_open: bool,
    pub is_editing_text: bool,
}

impl ButtonContext {
    /// Whether pad input goes to the front end instead of the game.
    pub fn capture_gameplay(self) -> (r: bool)
        ensures
            r == (self.overlay_visible || self.official_picker_open || self.is_editing_text),
    {
        self.overlay_visible || self.official_picker_open || self.is_editing_text
    }
}

/// The buttons of a standard game pad.
#[derive(Debug, Clone, Copy, PartialEq, Eq, Structural)]
pub enum PadButton {
    South,
    East,
    North,
    West,
    C,
    Z,
    LeftTrigger,
    LeftTrigger2,
    RightTrigger,
    RightTrigger2,
    Select,
    Start,
    Mode,
    LeftThumb,
    RightThumb,
    DPadUp,
    DPadDown,
    DPadLeft,
    DPadRight,
    Unknown,
}

/// The keyboard keys the front end reacts to; every other key is `Other`.
#[derive(Debug, Clone, Copy, PartialEq, Eq, Structural)]
pub enum Key {
    PageUp,
    PageDown,
    Tab,
    KeyB,
    KeyZ,
    KeyX,
    ShiftLeft,
    ShiftRight,
    Enter,
    ArrowUp,
    ArrowDown,
    ArrowLeft,
    ArrowRight,
    Other,
}

pub open spec fn key_action(key: Key, pressed: bool) -> Option<Action> {
    if !pressed {
        None
    } else {
        match key {
            Key::PageUp => Some(Action::PrevItem),
            Key::PageDown => Some(Action::NextItem),
            Key::Tab => Some(Action::ToggleOverlay),
            Key::KeyB => Some(Action::CreateByte),
            _ => None,
        }
    }
}

/// The front-end action of a key press; releases mean nothing.
pub fn action_from_key(key: Key, pressed: bool) -> (r: Option<Action>)
    ensures
        r == key_action(key, pressed),
{
    if !pressed {
        return None;
    }
    match key {
        Key::PageUp => Some(Action::PrevItem),
        Key::PageDown => Some(Action::NextItem),
        Key::Tab => Some(Action::ToggleOverlay),
        Key::KeyB => Some(Action::CreateByte),
        _ => None,
    }
}

pub open spec fn button_action(button: PadButton, pressed: bool, context: ButtonContext) -> Option<
    Action,
> {
    if !pressed {
        None
    } else if context.official_picker_open {
        match button {
            PadButton::DPadUp => Some(Action::OfficialPickerMove(-1i32)),
            PadButton::DPadDown => Some(Action::OfficialPickerMove(1i32)),
            PadButton::South => Some(Action::OfficialPickerConfirm),
            PadButton::East | PadButton::Start => Some(Action::CancelUi),
            _ => None,
        }
    } else if context.overlay_visible {
        match button {
            PadButton::DPadLeft | PadButton::LeftTrigger | PadButton::LeftTrigger2 => Some(
                Action::PrevItem,
            ),
            PadButton::DPadRight | PadButton::RightTrigger | PadButton::RightTrigger2 => Some(
                Action::NextItem,
            ),
            PadButton::Start | PadButton::South => Some(Action::ToggleOverlay),
            PadButton::North => Some(Action::OpenOfficialPickerCurrent),
            PadButton::West => Some(Action::CreateByte),
            PadButton::Select => Some(Action::BeginRenameCurrent),
            PadButton::East => Some(Action::CancelUi),
            _ => None,
        }
    } else {
        match button {
            PadButton::Start => Some(Action::ToggleOverlay),
            _ => None,
        }
    }
}

/// The front-end action of a pad button press: the title picker, when open,
/// takes precedence over the overlay; with neither open only Start acts.
pub fn action_from_button(button: PadButton, pressed: bool, context: ButtonContext) -> (r: Option<
    Action,
>)
    ensures
        r == button_action(button, pressed, context),
{
    if !pressed {
        return None;
    }
    if context.official_picker_open {
        return match button {
            PadButton::DPadUp => Some(Action::OfficialPickerMove(-1)),
            PadButton::DPadDown => Some(Action::OfficialPickerMove(1)),
            PadButton::South => Some(Action::OfficialPickerConfirm),
            PadButton::East | PadButton::Start => Some(Action::CancelUi),
            _ => None,
        };
    }
    if context.overlay_visible {
        return match button {
            PadButton::DPadLeft | PadButton::LeftTrigger | PadButton::LeftTrigger2 => Some(
                Action::PrevItem,
            ),
            PadButton::DPadRight | PadButton::RightTrigger | PadButton::RightTrigger2 => Some(
                Action::NextItem,
            ),
            PadButton::Start => Some(Action::ToggleOverlay),
            PadButton::South => Some(Action::ToggleOverlay),
            PadButton::North => Some(Action::OpenOfficialPickerCurrent),
            PadButton::West => Some(Action::CreateByte),
            PadButton::Select => Some(Action::BeginRenameCurrent),
            PadButton::East => Some(Action::CancelUi),
            _ => None,
        };
    }
    match button {
        PadButton::Start => Some(Action::ToggleOverlay),
        _ => None,
    }
}

pub open spec fn pad_joypad_id(button: PadButton) -> Option<u32> {
    match button {
        PadButton::South => Some(RETRO_DEVICE_ID_JOYPAD_B),
        PadButton::East => Some(RETRO_DEVICE_ID_JOYPAD_A),
        PadButton::West => Some(RETRO_DEVICE_ID_JOYPAD_Y),
        PadButton::North => Some(RETRO_DEVICE_ID_JOYPAD_X),
        PadButton::Select => Some(RETRO_DEVICE_ID_JOYPAD_SELECT),
        PadButton::Start => Some(RETRO_DEVICE_ID_JOYPAD_START),
        PadButton::DPadUp => Some(RETRO_DEVICE_ID_JOYPAD_UP),
        PadButton::DPadDown => Some(RETRO_DEVICE_ID_JOYPAD_DOWN),
        PadButton::DPadLeft => Some(RETRO_DEVICE_ID_JOYPAD_LEFT),
        PadButton::DPadRight => Some(RETRO_DEVICE_ID_JOYPAD_RIGHT),
        PadButton::LeftTrigger => Some(RETRO_DEVICE_ID_JOYPAD_L),
        PadButton::RightTrigger => Some(RETRO_DEVICE_ID_JOYPAD_R),
        _ => None,
    }
}

/// The core's joypad button that a pad button drives during play.
pub fn map_pad_button(button: PadButton) -> (r: Option<u32>)
    ensures
        r == pad_joypad_id(button),
{
    match button {
        PadButton::South => Some(RETRO_DEVICE_ID_JOYPAD_B),
        PadButton::East => Some(RETRO_DEVICE_ID_JOYPAD_A),
        PadButton::West => Some(RETRO_DEVICE_ID_JOYPAD_Y),
        PadButton::North => Some(RETRO_DEVICE_ID_JOYPAD_X),
        PadButton::Select => Some(RETRO_DEVICE_ID_JOYPAD_SELECT),
        PadButton::Start => Some(RETRO_DEVICE_ID_JOYPAD_START),
        PadButton::DPadUp => Some(RETRO_DEVICE_ID_JOYPAD_UP),
        PadButton::DPadDown => Some(RETRO_DEVICE_ID_JOYPAD_DOWN),
        PadButton::DPadLeft => Some(RETRO_DEVICE_ID_JOYPAD_LEFT),
        PadButton::DPadRight => Some(RETRO_DEVICE_ID_JOYPAD_RIGHT),
        PadButton::LeftTrigger => Some(RETRO_DEVICE_ID_JOYPAD_L),
        PadButton::RightTrigger => Some(RETRO_DEVICE_ID_JOYPAD_R),
        _ => None,
    }
}

pub open spec fn key_joypad_id(key: Key) -> Option<u32> {
    match key {
        Key::KeyZ => Some(RETRO_DEVICE_ID_JOYPAD_B),
        Key::KeyX => Some(RETRO_DEVICE_ID_JOYPAD_A),
        Key::ShiftLeft | Key::ShiftRight => Some(RETRO_DEVICE_ID_JOYPAD_SELECT),
        Key::Enter => Some(RETRO_DEVICE_ID_JOYPAD_START),
        Key::ArrowUp => Some(RETRO_DEVICE_ID_JOYPAD_UP),
        Key::ArrowDown => Some(RETRO_DEVICE_ID_JOYPAD_DOWN),
        Key::ArrowLeft => Some(RETRO_DEVICE_ID_JOYPAD_LEFT),
        Key::ArrowRight => Some(RETRO_DEVICE_ID_JOYPAD_RIGHT),
        _ => None,
    }
}

/// The core's joypad button that a key drives during play.
pub fn map_key(key: Key) -> (r: Option<u32>)
    ensures
        r == key_joypad_id(key),
{
    match key {
        Key::KeyZ => Some(RETRO_DEVICE_ID_JOYPAD_B),
        Key::KeyX => Some(RETRO_DEVICE_ID_JOYPAD_A),
        Key::ShiftLeft | Key::ShiftRight => Some(RETRO_DEVICE_ID_JOYPAD_SELECT),
        Key::Enter => Some(RETRO_DEVICE_ID_JOYPAD_START),
        Key::ArrowUp => Some(RETRO_DEVICE_ID_JOYPAD_UP),
        Key::ArrowDown => Some(RETRO_DEVICE_ID_JOYPAD_DOWN),
        Key::ArrowLeft => Some(RETRO_DEVICE_ID_JOYPAD_LEFT),
        Key::ArrowRight => Some(RETRO_DEVICE_ID_JOYPAD_RIGHT),
        _ => None,
    }
}

/// What one frame of the front end's interface asked for.
#[derive(Debug)]
pub struct UiOutput {
    pub actions: Vec<Action>,
}

/// The two kinds of transient notice.
#[derive(Debug, Clone, Copy, PartialEq, Eq, Structural)]
pub enum ToastKind {
    Success,
    Error,
}

} // verus!
