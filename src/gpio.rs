use vstd::prelude::*;

use crate::register::{masked_update, RegisterAccess};

verus! {

/// Number of pins on a port. The mode register gives each pin a two-bit field, and
/// the set/reset register holds the set bits in its lower half and the reset bits
/// in its upper half.
pub const PORT_WIDTH: u32 = 16;

/// Value of a two-bit mode field for a push-pull output.
pub const OUTPUT_MODE: u32 = 1;

/// The two bits of the mode register that belong to `pin`.
pub open spec fn mode_mask(pin: u32) -> u32 {
    3u32 << ((2 * pin) as u32)
}

/// The output encoding placed in the mode field of `pin`.
pub open spec fn output_mode_bits(pin: u32) -> u32 {
    1u32 << ((2 * pin) as u32)
}

/// The mode field of `pin` in a mode-register value.
pub open spec fn mode_field(mode: u32, pin: u32) -> u32 {
    (mode >> ((2 * pin) as u32)) & 3u32
}

/// The set/reset word that drives `pin` high.
pub open spec fn set_word(pin: u32) -> u32 {
    1u32 << pin
}

/// The set/reset word that drives `pin` low.
pub open spec fn reset_word(pin: u32) -> u32 {
    1u32 << ((pin + PORT_WIDTH) as u32)
}

/// Output levels of a port (bit `q` is pin `q`) after the port takes the set/reset
/// word `word`: the pins of the lower half go high, those of the upper half go low
/// (set wins where both are given), the others keep their level.
pub open spec fn drive(levels: u32, word: u32) -> u32 {
    (levels & !(word >> 16u32)) | (word & 0xFFFFu32)
}

/// Level of pin `q` in `levels`.
pub open spec fn level(levels: u32, q: u32) -> bool {
    (levels >> q) & 1u32 == 1u32
}

/// Bit `b` of `word`.
pub open spec fn bit(word: u32, b: u32) -> bool {
    (word >> b) & 1u32 == 1u32
}

#[derive(Debug)]
pub enum PinError {
    /// The pin index is not below the port width. The registers come back
    /// untouched.
    InvalidPinIndex { mode_reg: RegisterAccess, set_reset_reg: RegisterAccess },
}

/// One pin of a GPIO port, configured as a push-pull output. It owns the port's
/// mode register and set/reset register.
#[derive(Debug)]
pub struct GpioOutputPin {
    mode_reg: RegisterAccess,
    set_reset_reg: RegisterAccess,
    pin: u32,
}

/// Writing the output encoding into the mode field of `pin` gives that field the
/// output encoding and leaves every other bit of the mode register as it was.
pub proof fn lemma_output_mode_write(mode: u32, pin: u32)
    requires
        pin < PORT_WIDTH,
    ensures
        mode_field(masked_update(mode, mode_mask(pin), output_mode_bits(pin)), pin)
            == OUTPUT_MODE,
        masked_update(mode, mode_mask(pin), output_mode_bits(pin)) & !mode_mask(pin) == mode
            & !mode_mask(pin),
{
    let s = (2 * pin) as u32;
    assert(s < 32);
    assert(((((mode & !(3u32 << s)) | ((1u32 << s) & (3u32 << s))) >> s) & 3u32) == 1u32)
        by (bit_vector)
        requires
            s < 32,
    ;
    assert(((mode & !(3u32 << s)) | ((1u32 << s) & (3u32 << s))) & !(3u32 << s) == mode & !(
    3u32 << s)) by (bit_vector);
}

/// Driving a pin high and then low touches no other pin: neither word written
/// holds a set or reset bit of another pin, every other pin keeps its level
/// through both writes, and the pin ends low.
pub proof fn lemma_set_then_reset_isolated(pin: u32, levels: u32)
    requires
        pin < PORT_WIDTH,
    ensures
        forall|q: u32|
            q < PORT_WIDTH && q != pin ==> !#[trigger] bit(set_word(pin), q) && !bit(
                set_word(pin),
                (q + PORT_WIDTH) as u32,
            ) && !bit(reset_word(pin), q) && !bit(reset_word(pin), (q + PORT_WIDTH) as u32),
        forall|q: u32|
            q < PORT_WIDTH && q != pin ==> #[trigger] level(
                drive(drive(levels, set_word(pin)), reset_word(pin)),
                q,
            ) == level(levels, q),
        level(drive(levels, set_word(pin)), pin),
        !level(drive(drive(levels, set_word(pin)), reset_word(pin)), pin),
{
    assert forall|q: u32| q < PORT_WIDTH && q != pin implies !#[trigger] bit(set_word(pin), q)
        && !bit(set_word(pin), (q + PORT_WIDTH) as u32) && !bit(reset_word(pin), q) && !bit(
        reset_word(pin),
        (q + PORT_WIDTH) as u32,
    ) by {
        let r = (q + 16) as u32;
        let t = (pin + 16) as u32;
        assert(((1u32 << pin) >> q) & 1u32 != 1u32 && ((1u32 << pin) >> r) & 1u32 != 1u32 && ((
        1u32 << t) >> q) & 1u32 != 1u32 && ((1u32 << t) >> r) & 1u32 != 1u32) by (bit_vector)
            requires
                q < 16 && pin < 16 && q != pin && r == q + 16 && t == pin + 16,
        ;
    }
    assert forall|q: u32| q < PORT_WIDTH && q != pin implies #[trigger] level(
        drive(drive(levels, set_word(pin)), reset_word(pin)),
        q,
    ) == level(levels, q) by {
        let t = (pin + 16) as u32;
        assert(((((((levels & !((1u32 << pin) >> 16u32)) | ((1u32 << pin) & 0xFFFFu32)) & !((
        1u32 << t) >> 16u32)) | ((1u32 << t) & 0xFFFFu32)) >> q) & 1u32 == 1u32) == (((levels
            >> q) & 1u32) == 1u32)) by (bit_vector)
            requires
                q < 16 && pin < 16 && q != pin && t == pin + 16,
        ;
    }
    let t = (pin + 16) as u32;
    assert((((levels & !((1u32 << pin) >> 16u32)) | ((1u32 << pin) & 0xFFFFu32)) >> pin) & 1u32
        == 1u32) by (bit_vector)
        requires
            pin < 16,
    ;
    assert((((((levels & !((1u32 << pin) >> 16u32)) | ((1u32 << pin) & 0xFFFFu32)) & !((1u32
        << t) >> 16u32)) | ((1u32 << t) & 0xFFFFu32)) >> pin) & 1u32 != 1u32) by (bit_vector)
        requires
            pin < 16 && t == pin + 16,
    ;
}

impl GpioOutputPin {
    #[verifier::type_invariant]
    spec fn configured(self) -> bool {
        self.pin < PORT_WIDTH && mode_field(self.mode_reg.contents(), self.pin) == OUTPUT_MODE
    }

    pub closed spec fn spec_pin(self) -> u32 {
        self.pin
    }

    pub closed spec fn spec_mode_reg(self) -> RegisterAccess {
        self.mode_reg
    }

    pub closed spec fn spec_set_reset_reg(self) -> RegisterAccess {
        self.set_reset_reg
    }

    /// Takes the port's registers and makes `pin` a push-pull output by writing its
    /// two-bit mode field. An index at or past the port width writes nothing and
    /// hands the registers back in the error.
    pub fn new(
        mode_reg: RegisterAccess,
        set_reset_reg: RegisterAccess,
        pin: u32,
    ) -> (r: Result<GpioOutputPin, PinError>)
        ensures
            r is Ok <==> pin < PORT_WIDTH,
            r matches Ok(p) ==> {
                &&& p.spec_pin() == pin
                &&& p.spec_mode_reg().addr() == mode_reg.addr()
                &&& p.spec_mode_reg().contents() == masked_update(
                    mode_reg.contents(),
                    mode_mask(pin),
                    output_mode_bits(pin),
                )
                &&& mode_field(p.spec_mode_reg().contents(), pin) == OUTPUT_MODE
                &&& p.spec_mode_reg().contents() & !mode_mask(pin) == mode_reg.contents()
                    & !mode_mask(pin)
                &&& p.spec_set_reset_reg() == set_reset_reg
            },
            r matches Err(PinError::InvalidPinIndex { mode_reg: m, set_reset_reg: s }) ==> m
                == mode_reg && s == set_reset_reg,
    {
        if pin >= PORT_WIDTH {
            return Err(PinError::InvalidPinIndex { mode_reg, set_reset_reg });
        }
        let mut mode = mode_reg;
        let shift: u32 = 2 * pin;
        mode.modify(3u32 << shift, OUTPUT_MODE << shift);
        proof {
            lemma_output_mode_write(mode_reg.contents(), pin);
        }
        Ok(GpioOutputPin { mode_reg: mode, set_reset_reg, pin })
    }

    /// Drives the pin high with one write of its set bit; no other pin is touched.
    pub fn set_high(&mut self)
        ensures
            final(self).spec_pin() == old(self).spec_pin(),
            final(self).spec_mode_reg() == old(self).spec_mode_reg(),
            final(self).spec_set_reset_reg().addr() == old(self).spec_set_reset_reg().addr(),
            final(self).spec_set_reset_reg().contents() == set_word(old(self).spec_pin()),
    {
        proof {
            use_type_invariant(&*self);
        }
        let word: u32 = 1u32 << self.pin;
        self.set_reset_reg.write(word);
    }

    /// Drives the pin low with one write of its reset bit, which sits a port width
    /// above the set bit; no other pin is touched.
    pub fn set_low(&mut self)
        ensures
            final(self).spec_pin() == old(self).spec_pin(),
            final(self).spec_mode_reg() == old(self).spec_mode_reg(),
            final(self).spec_set_reset_reg().addr() == old(self).spec_set_reset_reg().addr(),
            final(self).spec_set_reset_reg().contents() == reset_word(old(self).spec_pin()),
    {
        proof {
            use_type_invariant(&*self);
        }
        let word: u32 = 1u32 << (self.pin + PORT_WIDTH);
        self.set_reset_reg.write(word);
    }

    pub fn pin(&self) -> (r: u32)
        ensures
            r == self.spec_pin(),
            r < PORT_WIDTH,
    {
        proof {
            use_type_invariant(self);
        }
        self.pin
    }

    pub fn mode_reg(&self) -> (r: &RegisterAccess)
        ensures
            *r == self.spec_mode_reg(),
            mode_field(r.contents(), self.spec_pin()) == OUTPUT_MODE,
    {
        proof {
            use_type_invariant(self);
        }
        &self.mode_reg
    }

    pub fn set_reset_reg(&self) -> (r: &RegisterAccess)
        ensures
            *r == self.spec_set_reset_reg(),
    {
        &self.set_reset_reg
    }

    /// Gives up the pin and hands back the port's registers.
    pub fn release(self) -> (r: (RegisterAccess, RegisterAccess))
        ensures
            r.0 == self.spec_mode_reg(),
            r.1 == self.spec_set_reset_reg(),
    {
        (self.mode_reg, self.set_reset_reg)
    }
}

} // verus!
