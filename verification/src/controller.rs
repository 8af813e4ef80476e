//! The serial game pad: a strobe latches the buttons, reads shift them out
//! one bit at a time.

use vstd::prelude::*;

verus! {

pub const BUTTON_A: u8 = 0x01;

pub const BUTTON_B: u8 = 0x02;

pub const BUTTON_SELECT: u8 = 0x04;

pub const BUTTON_START: u8 = 0x08;

pub const BUTTON_UP: u8 = 0x10;

pub const BUTTON_DOWN: u8 = 0x20;

pub const BUTTON_LEFT: u8 = 0x40;

pub const BUTTON_RIGHT: u8 = 0x80;

/// One game pad: the held buttons, the shift position of the next serial
/// read, and the last strobe byte written.
#[derive(Debug, Clone, Copy, PartialEq, Eq, Structural)]
pub struct Controller {
    pub buttons: u8,
    pub index: u8,
    pub strobe: u8,
}

/// An abstract button action fed in by the front end.
#[derive(Debug, Clone, Copy, PartialEq, Eq, Structural)]
pub enum CommandKey {
    ControllerUp,
    ControllerDown,
    ControllerLeft,
    ControllerRight,
    ControllerSelect,
    ControllerStart,
    ControllerB,
    ControllerA,
    Controller2UpAndA,
    SystemQuit,
    SystemReset,
    SystemPause,
    SystemSaveState,
    SystemRestoreState,
    SelectState0,
    SelectState1,
    SelectState2,
    SelectState3,
    SelectState4,
    SelectState5,
    SelectState6,
    SelectState7,
    SelectState8,
    SelectState9,
}

/// A key action paired with its edge: pressed down or released.
#[derive(Debug, Clone, Copy, PartialEq, Eq, Structural)]
pub enum Command {
    Idle,
    Down(CommandKey),
    Up(CommandKey),
}

/// The button bit a pad-related command key drives; zero for system keys.
pub open spec fn spec_command_key_to_nes(ck: CommandKey) -> u8 {
    match ck {
        CommandKey::ControllerB => BUTTON_B,
        CommandKey::ControllerA => BUTTON_A,
        CommandKey::ControllerSelect => BUTTON_SELECT,
        CommandKey::ControllerStart => BUTTON_START,
        CommandKey::ControllerLeft => BUTTON_LEFT,
        CommandKey::ControllerRight => BUTTON_RIGHT,
        CommandKey::ControllerUp => BUTTON_UP,
        CommandKey::ControllerDown => BUTTON_DOWN,
        _ => 0,
    }
}

/// Map a command key to the button bit it drives.
pub fn command_key_to_nes(ck: &CommandKey) -> (r: u8)
    ensures
        r == spec_command_key_to_nes(*ck),
{
    match ck {
        CommandKey::ControllerB => BUTTON_B,
        CommandKey::ControllerA => BUTTON_A,
        CommandKey::ControllerSelect => BUTTON_SELECT,
        CommandKey::ControllerStart => BUTTON_START,
        CommandKey::ControllerLeft => BUTTON_LEFT,
        CommandKey::ControllerRight => BUTTON_RIGHT,
        CommandKey::ControllerUp => BUTTON_UP,
        CommandKey::ControllerDown => BUTTON_DOWN,
        _ => 0,
    }
}

impl Controller {
    /// A pad with no buttons held and the shifter at rest.
    pub fn new() -> (r: Controller)
        ensures
            r == (Controller { buttons: 0, index: 0, strobe: 0 }),
    {
        Controller { buttons: 0, index: 0, strobe: 0 }
    }

    /// The bit a serial read returns at shift position `index`: one button
    /// bit for the first eight reads, then zeros.
    pub open spec fn spec_read_bit(self) -> u8 {
        if self.index < 8 {
            (self.buttons >> self.index) & 1
        } else {
            0
        }
    }

    /// The pad state a serial read leaves behind: the shifter advances (or
    /// stays parked while the strobe is held).
    pub open spec fn spec_after_read(self) -> Controller {
        Controller {
            index: if self.strobe & 1 != 0 {
                0u8
            } else if self.index < 8 {
                (self.index + 1) as u8
            } else {
                self.index
            },
            ..self
        }
    }

    /// Shift one button bit out.  While the strobe's low bit is held the
    /// shifter stays at the first button; otherwise it advances until all
    /// eight buttons have been shifted out.
    pub fn read(&mut self) -> (r: u8)
        ensures
            r == old(self).spec_read_bit(),
            *final(self) == old(self).spec_after_read(),
            old(self).index < 8 ==> r == (old(self).buttons >> old(self).index) & 1,
            old(self).index >= 8 ==> r == 0,
    {
        let ret = if self.index < 8 {
            let r = (self.buttons >> self.index) & 1;
            self.index += 1;
            r
        } else {
            0
        };
        if self.strobe & 1 != 0 {
            self.index = 0;
        }
        ret
    }

    /// The pad state a strobe write leaves behind.
    pub open spec fn spec_after_write(self, val: u8) -> Controller {
        Controller {
            strobe: val,
            index: if val & 1 != 0 {
                0u8
            } else {
                self.index
            },
            ..self
        }
    }

    /// Latch a strobe byte; a low bit of 1 resets the shifter.
    pub fn write(&mut self, val: u8)
        ensures
            *final(self) == old(self).spec_after_write(val),
    {
        self.strobe = val;
        if self.strobe & 1 != 0 {
            self.index = 0;
        }
    }

    /// Press or release the button a front-end command names.
    pub fn process_command(&mut self, command: &Command)
        ensures
            final(self).index == old(self).index,
            final(self).strobe == old(self).strobe,
            final(self).buttons == match *command {
                Command::Down(key) => old(self).buttons | spec_command_key_to_nes(key),
                Command::Up(key) => old(self).buttons & !spec_command_key_to_nes(key),
                Command::Idle => old(self).buttons,
            },
    {
        match command {
            Command::Down(key) => {
                self.buttons = self.buttons | command_key_to_nes(key);
            },
            Command::Up(key) => {
                self.buttons = self.buttons & !command_key_to_nes(key);
            },
            _ => {},
        }
    }

    /// Replace the held-button mask wholesale (front ends with their own
    /// event mapping use this).
    pub fn set_buttons(&mut self, buttons: u8)
        ensures
            *final(self) == (Controller { buttons, ..*old(self) }),
    {
        self.buttons = buttons;
    }
}

} // verus!
