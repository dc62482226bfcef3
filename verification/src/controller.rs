//! The standard controller: eight buttons behind a parallel-in, serial-out
//! shift register.
use vstd::prelude::*;

verus! {

/// The processor address of the first controller port.
pub const CONTROLLER_ADDRESS: u16 = 0x4016;

/// The bits that a read of the port returns besides the button bit.
pub const CONTROLLER_OPEN_BUS: u8 = 0x40;

/// The eight buttons, in the order in which the port reports them.
#[derive(Clone, Copy, Debug, PartialEq, Eq, Structural)]
pub enum Button {
    A,
    B,
    Select,
    Start,
    Up,
    Down,
    Left,
    Right,
}

impl Button {
    /// The bit of the state byte that stands for the button.
    pub open spec fn mask(self) -> u8 {
        match self {
            Button::A => 0x01,
            Button::B => 0x02,
            Button::Select => 0x04,
            Button::Start => 0x08,
            Button::Up => 0x10,
            Button::Down => 0x20,
            Button::Left => 0x40,
            Button::Right => 0x80,
        }
    }

    /// The bit of the state byte that stands for the button.
    pub fn bit(self) -> (r: u8)
        ensures
            r == self.mask(),
    {
        match self {
            Button::A => 0x01,
            Button::B => 0x02,
            Button::Select => 0x04,
            Button::Start => 0x08,
            Button::Up => 0x10,
            Button::Down => 0x20,
            Button::Left => 0x40,
            Button::Right => 0x80,
        }
    }
}

/// The first controller.
#[derive(Clone, Copy, Debug)]
pub struct Controller {
    strobe: bool,
    state: u8,
    state_locked: u8,
}

/// The mathematical content of a [`Controller`]: the strobe line, the buttons
/// held now, and the snapshot that is being shifted out.
pub struct ControllerView {
    pub strobe: bool,
    pub state: u8,
    pub latch: u8,
}

impl ControllerView {
    /// A controller with no button held and nothing to shift out.
    pub open spec fn init() -> ControllerView {
        ControllerView { strobe: false, state: 0, latch: 0 }
    }

    pub open spec fn in_range(address: u16) -> bool {
        address == CONTROLLER_ADDRESS
    }

    /// The byte that a read returns: bit 0 of the live state while the strobe
    /// is high, bit 0 of the snapshot otherwise.
    pub open spec fn read_value(self) -> u8 {
        if self.strobe {
            CONTROLLER_OPEN_BUS | (self.state & 0x1)
        } else {
            CONTROLLER_OPEN_BUS | (self.latch & 0x1)
        }
    }

    /// The controller after a read: with the strobe low the snapshot moves one
    /// place to the right and a 1 enters at the top.
    pub open spec fn after_read(self) -> ControllerView {
        if self.strobe {
            self
        } else {
            ControllerView { latch: 0x80 | (self.latch >> 1), ..self }
        }
    }

    /// Bit 0 of the value is the strobe; when it falls, the live state is
    /// snapshot.
    pub open spec fn io_write(self, value: u8) -> ControllerView {
        ControllerView {
            strobe: (value & 0x1) != 0,
            latch: if self.strobe && (value & 0x1) == 0 { self.state } else { self.latch },
            ..self
        }
    }

    pub open spec fn set_button(self, button: Button, pressed: bool) -> ControllerView {
        ControllerView {
            state: if pressed { self.state | button.mask() } else { self.state & !button.mask() },
            ..self
        }
    }

    pub open spec fn set_buttons(self, state: u8) -> ControllerView {
        ControllerView { state, ..self }
    }
}

impl ControllerView {
    /// The controller after `n` reads.
    pub open spec fn reads(self, n: nat) -> ControllerView
        decreases n,
    {
        if n == 0 {
            self
        } else {
            self.after_read().reads((n - 1) as nat)
        }
    }
}

/// The snapshot after `k` reads with the strobe low: what is left of it has
/// moved `k` places down, and ones have come in from the top.
pub open spec fn shifted_out(latch: u8, k: nat) -> u8 {
    if k >= 8 {
        0xff
    } else {
        (((0xff00u16 | (latch as u16)) >> (k as u16)) & 0xff) as u8
    }
}

proof fn lemma_shift_out_step(latch: u8, k: nat)
    ensures
        0x80u8 | (shifted_out(latch, k) >> 1) == shifted_out(latch, k + 1),
        shifted_out(latch, 0) == latch,
        k < 8 ==> shifted_out(latch, k) & 0x1 == (latch >> (k as u8)) & 0x1,
{
    let j: u16 = if k < 8 { k as u16 } else { 0 };
    assert({
        let w = 0xff00u16 | (latch as u16);
        &&& (j < 7 ==> 0x80u8 | ((((w >> j) & 0xff) as u8) >> 1) == (((w >> ((j + 1) as u16))
            & 0xff) as u8))
        &&& (j == 7 ==> 0x80u8 | ((((w >> j) & 0xff) as u8) >> 1) == 0xffu8)
        &&& ((w >> 0u16) & 0xff) as u8 == latch
        &&& (j < 8 ==> (((w >> j) & 0xff) as u8) & 0x1 == (latch >> (j as u8)) & 0x1)
        &&& 0x80u8 | (0xffu8 >> 1) == 0xffu8
    }) by (bit_vector)
        requires
            j < 8,
    ;
}

proof fn lemma_reads(c: ControllerView, k: nat)
    requires
        !c.strobe,
    ensures
        c.reads(k) == (ControllerView { latch: shifted_out(c.latch, k), ..c }),
    decreases k,
{
    lemma_shift_out_step(c.latch, 0);
    if k > 0 {
        let next = c.after_read();
        lemma_reads(next, (k - 1) as nat);
        lemma_shift_out_rest(c.latch, (k - 1) as nat);
    }
}

proof fn lemma_shift_out_rest(latch: u8, k: nat)
    ensures
        shifted_out(0x80u8 | (latch >> 1), k) == shifted_out(latch, k + 1),
    decreases k,
{
    lemma_shift_out_step(latch, 0);
    lemma_shift_out_step(0x80u8 | (latch >> 1), 0);
    if k > 0 {
        lemma_shift_out_rest(latch, (k - 1) as nat);
        lemma_shift_out_step(0x80u8 | (latch >> 1), (k - 1) as nat);
        lemma_shift_out_step(latch, k);
    }
}

/// With the strobe low, the first eight reads give the buttons of the
/// snapshot in order, A first and Right last, and every read after them
/// gives a 1.
pub proof fn lemma_serial_read(c: ControllerView, k: nat)
    requires
        !c.strobe,
    ensures
        k < 8 ==> c.reads(k).read_value() == CONTROLLER_OPEN_BUS | ((c.latch >> (k as u8)) & 0x1),
        k >= 8 ==> c.reads(k).read_value() == CONTROLLER_OPEN_BUS | 0x1,
{
    lemma_reads(c, k);
    lemma_shift_out_step(c.latch, k);
    assert(0xffu8 & 0x1 == 0x1) by (bit_vector);
}

/// While the strobe is high, reads change nothing and give the A button as
/// it is held.
pub proof fn lemma_strobed_read(c: ControllerView, k: nat)
    requires
        c.strobe,
    ensures
        c.reads(k) == c,
        c.read_value() == CONTROLLER_OPEN_BUS | (c.state & 0x1),
    decreases k,
{
    if k > 0 {
        lemma_strobed_read(c, (k - 1) as nat);
    }
}

impl View for Controller {
    type V = ControllerView;

    closed spec fn view(&self) -> ControllerView {
        ControllerView { strobe: self.strobe, state: self.state, latch: self.state_locked }
    }
}

impl Controller {
    /// A controller with no button held.
    pub fn new() -> (r: Controller)
        ensures
            r@ == ControllerView::init(),
    {
        Controller { strobe: false, state: 0, state_locked: 0 }
    }

    pub fn in_range(&self, address: u16) -> (r: bool)
        ensures
            r == ControllerView::in_range(address),
    {
        address == CONTROLLER_ADDRESS
    }

    /// One read of the port. While the strobe is held high every read gives
    /// the A button as it is now.
    pub fn io_read(&mut self) -> (r: u8)
        ensures
            r == old(self)@.read_value(),
            final(self)@ == old(self)@.after_read(),
            old(self)@.strobe ==> r == CONTROLLER_OPEN_BUS | (old(self)@.state & 0x1),
            old(self)@.strobe ==> final(self)@ == old(self)@,
    {
        if self.strobe {
            return CONTROLLER_OPEN_BUS | (self.state & 0x1);
        }
        let key = CONTROLLER_OPEN_BUS | (self.state_locked & 0x1);
        self.state_locked = 0x80 | (self.state_locked >> 1);
        key
    }

    /// A write to the port: bit 0 of the value is the strobe, and the buttons
    /// are snapshot when it falls.
    pub fn io_write(&mut self, value: u8)
        ensures
            final(self)@ == old(self)@.io_write(value),
    {
        if self.strobe && (value & 0x1) == 0 {
            self.state_locked = self.state;
        }
        self.strobe = (value & 0x1) != 0;
    }

    /// Presses or releases one button.
    pub fn set_button(&mut self, button: Button, state: bool)
        ensures
            final(self)@ == old(self)@.set_button(button, state),
    {
        let mask = button.bit();
        if state {
            self.state |= mask;
        } else {
            self.state &= !mask;
        }
    }

    /// Replaces the state of all eight buttons: bit 0 is A, then B, Select,
    /// Start, Up, Down, Left, and bit 7 is Right.
    pub fn set_buttons(&mut self, state: u8)
        ensures
            final(self)@ == old(self)@.set_buttons(state),
    {
        self.state = state;
    }
}

} // verus!
