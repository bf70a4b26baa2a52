use vstd::prelude::*;

verus! {

/// Which buttons are held.
#[derive(Copy, Clone, PartialEq, Eq, Structural, Debug)]
pub struct GamePadState {
    pub start: bool,
    pub select: bool,
    pub a: bool,
    pub b: bool,
    pub up: bool,
    pub down: bool,
    pub right: bool,
    pub left: bool,
}

impl GamePadState {
    /// Bits of the held buttons: start 3, select 2, b 1, a 0.
    pub open spec fn buttons_mask(self) -> u8 {
        (if self.start { 8u8 } else { 0u8 }) | (if self.select { 4u8 } else { 0u8 }) | (if self.b { 2u8 } else { 0u8 }) | (
        if self.a { 1u8 } else { 0u8 })
    }

    /// Bits of the held directions: down 3, up 2, left 1, right 0.
    pub open spec fn directions_mask(self) -> u8 {
        (if self.down { 8u8 } else { 0u8 }) | (if self.up { 4u8 } else { 0u8 }) | (if self.left { 2u8 } else { 0u8 }) | (
        if self.right { 1u8 } else { 0u8 })
    }

    fn button_bits(&self) -> (r: u8)
        ensures
            r == self.buttons_mask(),
    {
        (if self.start { 8u8 } else { 0u8 }) | (if self.select { 4u8 } else { 0u8 }) | (if self.b { 2u8 } else { 0u8 }) | (
        if self.a { 1u8 } else { 0u8 })
    }

    fn direction_bits(&self) -> (r: u8)
        ensures
            r == self.directions_mask(),
    {
        (if self.down { 8u8 } else { 0u8 }) | (if self.up { 4u8 } else { 0u8 }) | (if self.left { 2u8 } else { 0u8 }) | (
        if self.right { 1u8 } else { 0u8 })
    }

    pub fn new() -> (r: Self)
        ensures
            r == (GamePadState {
                start: false,
                select: false,
                a: false,
                b: false,
                up: false,
                down: false,
                right: false,
                left: false,
            }),
    {
        GamePadState {
            start: false,
            select: false,
            a: false,
            b: false,
            up: false,
            down: false,
            right: false,
            left: false,
        }
    }
}

/// The joypad register (0xFF00): two select lines and the button state.
#[derive(Copy, Clone, PartialEq, Eq, Structural, Debug)]
pub struct GamePad {
    pub button_select: bool,
    pub direction_select: bool,
    pub state: GamePadState,
}

impl GamePad {
    /// Value read from 0xFF00: 0xCF with a bit cleared for every held key of a selected
    /// group. When the button line is low, start, select, b and a clear bits 3, 2, 1 and 0;
    /// when the direction line is low, down, up, left and right do.
    pub open spec fn output(self) -> u8 {
        0xCF & !((if !self.button_select { self.state.buttons_mask() } else { 0 }) | (
        if !self.direction_select { self.state.directions_mask() } else { 0 }))
    }

    pub open spec fn with_selection(self, value: u8) -> GamePad {
        GamePad { button_select: value & 0x20 != 0, direction_select: value & 0x10 != 0, ..self }
    }

    pub fn new() -> (r: Self)
        ensures
            !r.button_select && !r.direction_select,
            !r.state.start && !r.state.select && !r.state.a && !r.state.b && !r.state.up
                && !r.state.down && !r.state.right && !r.state.left,
    {
        GamePad { button_select: false, direction_select: false, state: GamePadState::new() }
    }

    pub fn gamepad_button_selection(&self) -> (r: bool)
        ensures
            r == self.button_select,
    {
        self.button_select
    }

    pub fn gamepad_direction_selection(&self) -> (r: bool)
        ensures
            r == self.direction_select,
    {
        self.direction_select
    }

    /// A write to 0xFF00 sets the button line from bit 5 and the direction line from bit 4.
    pub fn gamepad_set_selection(&mut self, value: u8)
        ensures
            *final(self) == old(self).with_selection(value),
    {
        self.button_select = (value & 0x20) != 0;
        self.direction_select = (value & 0x10) != 0;
    }

    pub fn get_gamepad_output(&self) -> (r: u8)
        ensures
            r == self.output(),
    {
        let buttons: u8 = if !self.gamepad_button_selection() { self.state.button_bits() } else { 0 };
        let directions: u8 = if !self.gamepad_direction_selection() { self.state.direction_bits() } else { 0 };
        0xCF & !(buttons | directions)
    }
}

proof fn lemma_joypad_bits(
    bs: bool,
    ds: bool,
    start: bool,
    select: bool,
    b: bool,
    a: bool,
    down: bool,
    up: bool,
    left: bool,
    right: bool,
)
    by (bit_vector)
    ensures
        ({
            let o: u8 = 0xCF & !((if bs {
                (if start { 8u8 } else { 0u8 }) | (if select { 4u8 } else { 0u8 }) | (if b { 2u8 } else { 0u8 }) | (
                if a { 1u8 } else { 0u8 })
            } else {
                0u8
            }) | (if ds {
                (if down { 8u8 } else { 0u8 }) | (if up { 4u8 } else { 0u8 }) | (if left { 2u8 } else { 0u8 }) | (
                if right { 1u8 } else { 0u8 })
            } else {
                0u8
            }));
            &&& o & 0xF0 == 0xC0
            &&& (o & 8 == 0) == ((bs && start) || (ds && down))
            &&& (o & 4 == 0) == ((bs && select) || (ds && up))
            &&& (o & 2 == 0) == ((bs && b) || (ds && left))
            &&& (o & 1 == 0) == ((bs && a) || (ds && right))
        }),
{
}

/// Each held key clears exactly its own bit of 0xFF00 while its group is selected (its
/// line written low): Start, Select, B and A bits 3, 2, 1 and 0 on the button line, Down,
/// Up, Left and Right bits 3, 2, 1 and 0 on the direction line. Bits 7 and 6 read 1,
/// bits 5 and 4 read 0, and a bit whose keys are all up reads 1.
pub proof fn law_joypad_bits(pad: GamePad)
    ensures
        ({
            let o = pad.output();
            let bs = !pad.button_select;
            let ds = !pad.direction_select;
            let k = pad.state;
            &&& o & 0xF0 == 0xC0
            &&& (o & 8 == 0) == ((bs && k.start) || (ds && k.down))
            &&& (o & 4 == 0) == ((bs && k.select) || (ds && k.up))
            &&& (o & 2 == 0) == ((bs && k.b) || (ds && k.left))
            &&& (o & 1 == 0) == ((bs && k.a) || (ds && k.right))
        }),
{
    let k = pad.state;
    lemma_joypad_bits(
        !pad.button_select,
        !pad.direction_select,
        k.start,
        k.select,
        k.b,
        k.a,
        k.down,
        k.up,
        k.left,
        k.right,
    );
}

/// A write to 0xFF00 sets the button line from bit 5 and the direction line from bit 4
/// (a line is selected while its bit is 0) and leaves the keys as they are.
pub proof fn law_joypad_select(pad: GamePad, value: u8)
    ensures
        pad.with_selection(value).button_select == ((value / 32) % 2 == 1),
        pad.with_selection(value).direction_select == ((value / 16) % 2 == 1),
        pad.with_selection(value).state == pad.state,
{
    assert((value & 0x20 != 0) == ((value / 32) % 2 == 1) && (value & 0x10 != 0) == ((value / 16) % 2
        == 1)) by (bit_vector);
}

} // verus!
