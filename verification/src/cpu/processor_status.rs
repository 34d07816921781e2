//! The processor status register: one byte holding seven named flags and one
//! spare bit. Every accessor says which bit it reads, and every mutator says
//! both what the new byte is and that the other seven bits keep their values.

use vstd::prelude::*;

verus! {

/// The packed status byte. Bit 0 is carry, bit 1 zero, bit 2 interrupt
/// disable, bit 3 decimal, bit 4 break, bit 5 spare, bit 6 overflow and
/// bit 7 negative.
#[derive(Debug, Clone, Copy, PartialEq, Eq)]
pub struct ProcessorStatus(pub u8);

impl ProcessorStatus {
    /// Bit 0: set by a carry out of the high end of an addition.
    pub open spec fn carry(self) -> bool {
        self.0 & 0x01 != 0
    }

    /// Bit 1: set when the last result was zero.
    pub open spec fn zero(self) -> bool {
        self.0 & 0x02 != 0
    }

    /// Bit 2: set while maskable interrupts are held off.
    pub open spec fn interrupt_disable(self) -> bool {
        self.0 & 0x04 != 0
    }

    /// Bit 3: the (unused here) binary-coded-decimal mode flag.
    pub open spec fn decimal(self) -> bool {
        self.0 & 0x08 != 0
    }

    /// Bit 4: the break flag, distinguishing a software interrupt.
    pub open spec fn break_bit(self) -> bool {
        self.0 & 0x10 != 0
    }

    /// Bit 5: spare, with no hardware meaning.
    pub open spec fn bit5(self) -> bool {
        self.0 & 0x20 != 0
    }

    /// Bit 6: set on signed overflow.
    pub open spec fn overflow(self) -> bool {
        self.0 & 0x40 != 0
    }

    /// Bit 7: a copy of bit 7 of the last result.
    pub open spec fn negative(self) -> bool {
        self.0 & 0x80 != 0
    }
}

/// All flags of `a` and `b` agree except carry.
pub open spec fn eq_except_carry(a: ProcessorStatus, b: ProcessorStatus) -> bool {
    &&& a.zero() == b.zero()
    &&& a.interrupt_disable() == b.interrupt_disable()
    &&& a.decimal() == b.decimal()
    &&& a.break_bit() == b.break_bit()
    &&& a.bit5() == b.bit5()
    &&& a.overflow() == b.overflow()
    &&& a.negative() == b.negative()
}

/// All flags of `a` and `b` agree except zero.
pub open spec fn eq_except_zero(a: ProcessorStatus, b: ProcessorStatus) -> bool {
    &&& a.carry() == b.carry()
    &&& a.interrupt_disable() == b.interrupt_disable()
    &&& a.decimal() == b.decimal()
    &&& a.break_bit() == b.break_bit()
    &&& a.bit5() == b.bit5()
    &&& a.overflow() == b.overflow()
    &&& a.negative() == b.negative()
}

/// All flags of `a` and `b` agree except interrupt disable.
pub open spec fn eq_except_interrupt_disable(a: ProcessorStatus, b: ProcessorStatus) -> bool {
    &&& a.carry() == b.carry()
    &&& a.zero() == b.zero()
    &&& a.decimal() == b.decimal()
    &&& a.break_bit() == b.break_bit()
    &&& a.bit5() == b.bit5()
    &&& a.overflow() == b.overflow()
    &&& a.negative() == b.negative()
}

/// All flags of `a` and `b` agree except decimal.
pub open spec fn eq_except_decimal(a: ProcessorStatus, b: ProcessorStatus) -> bool {
    &&& a.carry() == b.carry()
    &&& a.zero() == b.zero()
    &&& a.interrupt_disable() == b.interrupt_disable()
    &&& a.break_bit() == b.break_bit()
    &&& a.bit5() == b.bit5()
    &&& a.overflow() == b.overflow()
    &&& a.negative() == b.negative()
}

/// All flags of `a` and `b` agree except break.
pub open spec fn eq_except_break(a: ProcessorStatus, b: ProcessorStatus) -> bool {
    &&& a.carry() == b.carry()
    &&& a.zero() == b.zero()
    &&& a.interrupt_disable() == b.interrupt_disable()
    &&& a.decimal() == b.decimal()
    &&& a.bit5() == b.bit5()
    &&& a.overflow() == b.overflow()
    &&& a.negative() == b.negative()
}

/// All flags of `a` and `b` agree except the spare bit 5.
pub open spec fn eq_except_bit5(a: ProcessorStatus, b: ProcessorStatus) -> bool {
    &&& a.carry() == b.carry()
    &&& a.zero() == b.zero()
    &&& a.interrupt_disable() == b.interrupt_disable()
    &&& a.decimal() == b.decimal()
    &&& a.break_bit() == b.break_bit()
    &&& a.overflow() == b.overflow()
    &&& a.negative() == b.negative()
}

/// All flags of `a` and `b` agree except overflow.
pub open spec fn eq_except_overflow(a: ProcessorStatus, b: ProcessorStatus) -> bool {
    &&& a.carry() == b.carry()
    &&& a.zero() == b.zero()
    &&& a.interrupt_disable() == b.interrupt_disable()
    &&& a.decimal() == b.decimal()
    &&& a.break_bit() == b.break_bit()
    &&& a.bit5() == b.bit5()
    &&& a.negative() == b.negative()
}

/// All flags of `a` and `b` agree except negative.
pub open spec fn eq_except_negative(a: ProcessorStatus, b: ProcessorStatus) -> bool {
    &&& a.carry() == b.carry()
    &&& a.zero() == b.zero()
    &&& a.interrupt_disable() == b.interrupt_disable()
    &&& a.decimal() == b.decimal()
    &&& a.break_bit() == b.break_bit()
    &&& a.bit5() == b.bit5()
    &&& a.overflow() == b.overflow()
}

impl ProcessorStatus {
    /// A zeroed status byte: every flag clear.
    pub fn new() -> (r: ProcessorStatus)
        ensures
            r.0 == 0,
            !r.carry(),
            !r.zero(),
            !r.interrupt_disable(),
            !r.decimal(),
            !r.break_bit(),
            !r.bit5(),
            !r.overflow(),
            !r.negative(),
    {
        proof {
            assert(0u8 & 0x01u8 == 0 && 0u8 & 0x02u8 == 0 && 0u8 & 0x04u8 == 0 && 0u8 & 0x08u8
                == 0 && 0u8 & 0x10u8 == 0 && 0u8 & 0x20u8 == 0 && 0u8 & 0x40u8 == 0 && 0u8 & 0x80u8
                == 0) by (bit_vector);
        }
        ProcessorStatus(0)
    }

    pub fn carry_flag(&self) -> (r: bool)
        ensures
            r == self.carry(),
    {
        self.0 & 0b0000_0001 != 0
    }

    pub fn set_carry_flag(&mut self)
        ensures
            final (self).0 == old(self).0 | 0x01,
            final (self).carry(),
            eq_except_carry(*old(self), *final (self)),
    {
        let mask = 0b0000_0001;
        self.0 |= mask;
        proof {
            let o = old(self).0;
            assert((o | 0x01u8) & 0x01u8 != 0 && ((o | 0x01u8) & 0x02u8 != 0) == (o & 0x02u8 != 0)
                && ((o | 0x01u8) & 0x04u8 != 0) == (o & 0x04u8 != 0) && ((o | 0x01u8) & 0x08u8 != 0)
                == (o & 0x08u8 != 0) && ((o | 0x01u8) & 0x10u8 != 0) == (o & 0x10u8 != 0) && ((o
                | 0x01u8) & 0x20u8 != 0) == (o & 0x20u8 != 0) && ((o | 0x01u8) & 0x40u8 != 0) == (o
                & 0x40u8 != 0) && ((o | 0x01u8) & 0x80u8 != 0) == (o & 0x80u8 != 0))
                by (bit_vector);
        }
    }

    pub fn clear_carry_flag(&mut self)
        ensures
            final (self).0 == old(self).0 & 0xFE,
            !final (self).carry(),
            eq_except_carry(*old(self), *final (self)),
    {
        let mask = 0b1111_1110;
        self.0 &= mask;
        proof {
            let o = old(self).0;
            assert((o & 0xFEu8) & 0x01u8 == 0 && ((o & 0xFEu8) & 0x02u8 != 0) == (o & 0x02u8 != 0)
                && ((o & 0xFEu8) & 0x04u8 != 0) == (o & 0x04u8 != 0) && ((o & 0xFEu8) & 0x08u8 != 0)
                == (o & 0x08u8 != 0) && ((o & 0xFEu8) & 0x10u8 != 0) == (o & 0x10u8 != 0) && ((o
                & 0xFEu8) & 0x20u8 != 0) == (o & 0x20u8 != 0) && ((o & 0xFEu8) & 0x40u8 != 0) == (o
                & 0x40u8 != 0) && ((o & 0xFEu8) & 0x80u8 != 0) == (o & 0x80u8 != 0))
                by (bit_vector);
        }
    }

    pub fn zero_flag(&self) -> (r: bool)
        ensures
            r == self.zero(),
    {
        self.0 & 0b0000_0010 != 0
    }

    pub fn set_zero_flag(&mut self)
        ensures
            final (self).0 == old(self).0 | 0x02,
            final (self).zero(),
            eq_except_zero(*old(self), *final (self)),
    {
        let mask = 0b0000_0010;
        self.0 |= mask;
        proof {
            let o = old(self).0;
            assert((o | 0x02u8) & 0x02u8 != 0 && ((o | 0x02u8) & 0x01u8 != 0) == (o & 0x01u8 != 0)
                && ((o | 0x02u8) & 0x04u8 != 0) == (o & 0x04u8 != 0) && ((o | 0x02u8) & 0x08u8 != 0)
                == (o & 0x08u8 != 0) && ((o | 0x02u8) & 0x10u8 != 0) == (o & 0x10u8 != 0) && ((o
                | 0x02u8) & 0x20u8 != 0) == (o & 0x20u8 != 0) && ((o | 0x02u8) & 0x40u8 != 0) == (o
                & 0x40u8 != 0) && ((o | 0x02u8) & 0x80u8 != 0) == (o & 0x80u8 != 0))
                by (bit_vector);
        }
    }

    /// Clears the zero flag outright: the cleared bit is not re-set afterwards.
    pub fn clear_zero_flag(&mut self)
        ensures
            final (self).0 == old(self).0 & 0xFD,
            !final (self).zero(),
            eq_except_zero(*old(self), *final (self)),
    {
        let mask = 0b1111_1101;
        self.0 &= mask;
        proof {
            let o = old(self).0;
            assert((o & 0xFDu8) & 0x02u8 == 0 && ((o & 0xFDu8) & 0x01u8 != 0) == (o & 0x01u8 != 0)
                && ((o & 0xFDu8) & 0x04u8 != 0) == (o & 0x04u8 != 0) && ((o & 0xFDu8) & 0x08u8 != 0)
                == (o & 0x08u8 != 0) && ((o & 0xFDu8) & 0x10u8 != 0) == (o & 0x10u8 != 0) && ((o
                & 0xFDu8) & 0x20u8 != 0) == (o & 0x20u8 != 0) && ((o & 0xFDu8) & 0x40u8 != 0) == (o
                & 0x40u8 != 0) && ((o & 0xFDu8) & 0x80u8 != 0) == (o & 0x80u8 != 0))
                by (bit_vector);
        }
    }

    pub fn interrupt_disable_flag(&self) -> (r: bool)
        ensures
            r == self.interrupt_disable(),
    {
        self.0 & 0b0000_0100 != 0
    }

    pub fn set_interrupt_disable_flag(&mut self)
        ensures
            final (self).0 == old(self).0 | 0x04,
            final (self).interrupt_disable(),
            eq_except_interrupt_disable(*old(self), *final (self)),
    {
        let mask = 0b0000_0100;
        self.0 |= mask;
        proof {
            let o = old(self).0;
            assert((o | 0x04u8) & 0x04u8 != 0 && ((o | 0x04u8) & 0x01u8 != 0) == (o & 0x01u8 != 0)
                && ((o | 0x04u8) & 0x02u8 != 0) == (o & 0x02u8 != 0) && ((o | 0x04u8) & 0x08u8 != 0)
                == (o & 0x08u8 != 0) && ((o | 0x04u8) & 0x10u8 != 0) == (o & 0x10u8 != 0) && ((o
                | 0x04u8) & 0x20u8 != 0) == (o & 0x20u8 != 0) && ((o | 0x04u8) & 0x40u8 != 0) == (o
                & 0x40u8 != 0) && ((o | 0x04u8) & 0x80u8 != 0) == (o & 0x80u8 != 0))
                by (bit_vector);
        }
    }

    /// Clears the interrupt-disable flag outright: the cleared bit is not
    /// re-set afterwards.
    pub fn clear_interrupt_disable_flag(&mut self)
        ensures
            final (self).0 == old(self).0 & 0xFB,
            !final (self).interrupt_disable(),
            eq_except_interrupt_disable(*old(self), *final (self)),
    {
        let mask = 0b1111_1011;
        self.0 &= mask;
        proof {
            let o = old(self).0;
            assert((o & 0xFBu8) & 0x04u8 == 0 && ((o & 0xFBu8) & 0x01u8 != 0) == (o & 0x01u8 != 0)
                && ((o & 0xFBu8) & 0x02u8 != 0) == (o & 0x02u8 != 0) && ((o & 0xFBu8) & 0x08u8 != 0)
                == (o & 0x08u8 != 0) && ((o & 0xFBu8) & 0x10u8 != 0) == (o & 0x10u8 != 0) && ((o
                & 0xFBu8) & 0x20u8 != 0) == (o & 0x20u8 != 0) && ((o & 0xFBu8) & 0x40u8 != 0) == (o
                & 0x40u8 != 0) && ((o & 0xFBu8) & 0x80u8 != 0) == (o & 0x80u8 != 0))
                by (bit_vector);
        }
    }

    pub fn decimal_flag(&self) -> (r: bool)
        ensures
            r == self.decimal(),
    {
        self.0 & 0b0000_1000 != 0
    }

    pub fn set_decimal_flag(&mut self)
        ensures
            final (self).0 == old(self).0 | 0x08,
            final (self).decimal(),
            eq_except_decimal(*old(self), *final (self)),
    {
        let mask = 0b0000_1000;
        self.0 |= mask;
        proof {
            let o = old(self).0;
            assert((o | 0x08u8) & 0x08u8 != 0 && ((o | 0x08u8) & 0x01u8 != 0) == (o & 0x01u8 != 0)
                && ((o | 0x08u8) & 0x02u8 != 0) == (o & 0x02u8 != 0) && ((o | 0x08u8) & 0x04u8 != 0)
                == (o & 0x04u8 != 0) && ((o | 0x08u8) & 0x10u8 != 0) == (o & 0x10u8 != 0) && ((o
                | 0x08u8) & 0x20u8 != 0) == (o & 0x20u8 != 0) && ((o | 0x08u8) & 0x40u8 != 0) == (o
                & 0x40u8 != 0) && ((o | 0x08u8) & 0x80u8 != 0) == (o & 0x80u8 != 0))
                by (bit_vector);
        }
    }

    pub fn clear_decimal_flag(&mut self)
        ensures
            final (self).0 == old(self).0 & 0xF7,
            !final (self).decimal(),
            eq_except_decimal(*old(self), *final (self)),
    {
        let mask = 0b1111_0111;
        self.0 &= mask;
        proof {
            let o = old(self).0;
            assert((o & 0xF7u8) & 0x08u8 == 0 && ((o & 0xF7u8) & 0x01u8 != 0) == (o & 0x01u8 != 0)
                && ((o & 0xF7u8) & 0x02u8 != 0) == (o & 0x02u8 != 0) && ((o & 0xF7u8) & 0x04u8 != 0)
                == (o & 0x04u8 != 0) && ((o & 0xF7u8) & 0x10u8 != 0) == (o & 0x10u8 != 0) && ((o
                & 0xF7u8) & 0x20u8 != 0) == (o & 0x20u8 != 0) && ((o & 0xF7u8) & 0x40u8 != 0) == (o
                & 0x40u8 != 0) && ((o & 0xF7u8) & 0x80u8 != 0) == (o & 0x80u8 != 0))
                by (bit_vector);
        }
    }

    pub fn break_flag(&self) -> (r: bool)
        ensures
            r == self.break_bit(),
    {
        self.0 & 0b0001_0000 != 0
    }

    pub fn set_break_flag(&mut self)
        ensures
            final (self).0 == old(self).0 | 0x10,
            final (self).break_bit(),
            eq_except_break(*old(self), *final (self)),
    {
        let mask = 0b0001_0000;
        self.0 |= mask;
        proof {
            let o = old(self).0;
            assert((o | 0x10u8) & 0x10u8 != 0 && ((o | 0x10u8) & 0x01u8 != 0) == (o & 0x01u8 != 0)
                && ((o | 0x10u8) & 0x02u8 != 0) == (o & 0x02u8 != 0) && ((o | 0x10u8) & 0x04u8 != 0)
                == (o & 0x04u8 != 0) && ((o | 0x10u8) & 0x08u8 != 0) == (o & 0x08u8 != 0) && ((o
                | 0x10u8) & 0x20u8 != 0) == (o & 0x20u8 != 0) && ((o | 0x10u8) & 0x40u8 != 0) == (o
                & 0x40u8 != 0) && ((o | 0x10u8) & 0x80u8 != 0) == (o & 0x80u8 != 0))
                by (bit_vector);
        }
    }

    pub fn clear_break_flag(&mut self)
        ensures
            final (self).0 == old(self).0 & 0xEF,
            !final (self).break_bit(),
            eq_except_break(*old(self), *final (self)),
    {
        let mask = 0b1110_1111;
        self.0 &= mask;
        proof {
            let o = old(self).0;
            assert((o & 0xEFu8) & 0x10u8 == 0 && ((o & 0xEFu8) & 0x01u8 != 0) == (o & 0x01u8 != 0)
                && ((o & 0xEFu8) & 0x02u8 != 0) == (o & 0x02u8 != 0) && ((o & 0xEFu8) & 0x04u8 != 0)
                == (o & 0x04u8 != 0) && ((o & 0xEFu8) & 0x08u8 != 0) == (o & 0x08u8 != 0) && ((o
                & 0xEFu8) & 0x20u8 != 0) == (o & 0x20u8 != 0) && ((o & 0xEFu8) & 0x40u8 != 0) == (o
                & 0x40u8 != 0) && ((o & 0xEFu8) & 0x80u8 != 0) == (o & 0x80u8 != 0))
                by (bit_vector);
        }
    }

    pub fn bit_5_flag(&self) -> (r: bool)
        ensures
            r == self.bit5(),
    {
        self.0 & 0b0010_0000 != 0
    }

    pub fn set_bit_5_flag(&mut self)
        ensures
            final (self).0 == old(self).0 | 0x20,
            final (self).bit5(),
            eq_except_bit5(*old(self), *final (self)),
    {
        let mask = 0b0010_0000;
        self.0 |= mask;
        proof {
            let o = old(self).0;
            assert((o | 0x20u8) & 0x20u8 != 0 && ((o | 0x20u8) & 0x01u8 != 0) == (o & 0x01u8 != 0)
                && ((o | 0x20u8) & 0x02u8 != 0) == (o & 0x02u8 != 0) && ((o | 0x20u8) & 0x04u8 != 0)
                == (o & 0x04u8 != 0) && ((o | 0x20u8) & 0x08u8 != 0) == (o & 0x08u8 != 0) && ((o
                | 0x20u8) & 0x10u8 != 0) == (o & 0x10u8 != 0) && ((o | 0x20u8) & 0x40u8 != 0) == (o
                & 0x40u8 != 0) && ((o | 0x20u8) & 0x80u8 != 0) == (o & 0x80u8 != 0))
                by (bit_vector);
        }
    }

    pub fn clear_bit_5_flag(&mut self)
        ensures
            final (self).0 == old(self).0 & 0xDF,
            !final (self).bit5(),
            eq_except_bit5(*old(self), *final (self)),
    {
        let mask = 0b1101_1111;
        self.0 &= mask;
        proof {
            let o = old(self).0;
            assert((o & 0xDFu8) & 0x20u8 == 0 && ((o & 0xDFu8) & 0x01u8 != 0) == (o & 0x01u8 != 0)
                && ((o & 0xDFu8) & 0x02u8 != 0) == (o & 0x02u8 != 0) && ((o & 0xDFu8) & 0x04u8 != 0)
                == (o & 0x04u8 != 0) && ((o & 0xDFu8) & 0x08u8 != 0) == (o & 0x08u8 != 0) && ((o
                & 0xDFu8) & 0x10u8 != 0) == (o & 0x10u8 != 0) && ((o & 0xDFu8) & 0x40u8 != 0) == (o
                & 0x40u8 != 0) && ((o & 0xDFu8) & 0x80u8 != 0) == (o & 0x80u8 != 0))
                by (bit_vector);
        }
    }

    pub fn overflow_flag(&self) -> (r: bool)
        ensures
            r == self.overflow(),
    {
        self.0 & 0b0100_0000 != 0
    }

    pub fn set_overflow_flag(&mut self)
        ensures
            final (self).0 == old(self).0 | 0x40,
            final (self).overflow(),
            eq_except_overflow(*old(self), *final (self)),
    {
        let mask = 0b0100_0000;
        self.0 |= mask;
        proof {
            let o = old(self).0;
            assert((o | 0x40u8) & 0x40u8 != 0 && ((o | 0x40u8) & 0x01u8 != 0) == (o & 0x01u8 != 0)
                && ((o | 0x40u8) & 0x02u8 != 0) == (o & 0x02u8 != 0) && ((o | 0x40u8) & 0x04u8 != 0)
                == (o & 0x04u8 != 0) && ((o | 0x40u8) & 0x08u8 != 0) == (o & 0x08u8 != 0) && ((o
                | 0x40u8) & 0x10u8 != 0) == (o & 0x10u8 != 0) && ((o | 0x40u8) & 0x20u8 != 0) == (o
                & 0x20u8 != 0) && ((o | 0x40u8) & 0x80u8 != 0) == (o & 0x80u8 != 0))
                by (bit_vector);
        }
    }

    pub fn clear_overflow_flag(&mut self)
        ensures
            final (self).0 == old(self).0 & 0xBF,
            !final (self).overflow(),
            eq_except_overflow(*old(self), *final (self)),
    {
        let mask = 0b1011_1111;
        self.0 &= mask;
        proof {
            let o = old(self).0;
            assert((o & 0xBFu8) & 0x40u8 == 0 && ((o & 0xBFu8) & 0x01u8 != 0) == (o & 0x01u8 != 0)
                && ((o & 0xBFu8) & 0x02u8 != 0) == (o & 0x02u8 != 0) && ((o & 0xBFu8) & 0x04u8 != 0)
                == (o & 0x04u8 != 0) && ((o & 0xBFu8) & 0x08u8 != 0) == (o & 0x08u8 != 0) && ((o
                & 0xBFu8) & 0x10u8 != 0) == (o & 0x10u8 != 0) && ((o & 0xBFu8) & 0x20u8 != 0) == (o
                & 0x20u8 != 0) && ((o & 0xBFu8) & 0x80u8 != 0) == (o & 0x80u8 != 0))
                by (bit_vector);
        }
    }

    pub fn negative_flag(&self) -> (r: bool)
        ensures
            r == self.negative(),
    {
        self.0 & 0b1000_0000 != 0
    }

    pub fn set_negative_flag(&mut self)
        ensures
            final (self).0 == old(self).0 | 0x80,
            final (self).negative(),
            eq_except_negative(*old(self), *final (self)),
    {
        let mask = 0b1000_0000;
        self.0 |= mask;
        proof {
            let o = old(self).0;
            assert((o | 0x80u8) & 0x80u8 != 0 && ((o | 0x80u8) & 0x01u8 != 0) == (o & 0x01u8 != 0)
                && ((o | 0x80u8) & 0x02u8 != 0) == (o & 0x02u8 != 0) && ((o | 0x80u8) & 0x04u8 != 0)
                == (o & 0x04u8 != 0) && ((o | 0x80u8) & 0x08u8 != 0) == (o & 0x08u8 != 0) && ((o
                | 0x80u8) & 0x10u8 != 0) == (o & 0x10u8 != 0) && ((o | 0x80u8) & 0x20u8 != 0) == (o
                & 0x20u8 != 0) && ((o | 0x80u8) & 0x40u8 != 0) == (o & 0x40u8 != 0))
                by (bit_vector);
        }
    }

    pub fn clear_negative_flag(&mut self)
        ensures
            final (self).0 == old(self).0 & 0x7F,
            !final (self).negative(),
            eq_except_negative(*old(self), *final (self)),
    {
        let mask = 0b0111_1111;
        self.0 &= mask;
        proof {
            let o = old(self).0;
            assert((o & 0x7Fu8) & 0x80u8 == 0 && ((o & 0x7Fu8) & 0x01u8 != 0) == (o & 0x01u8 != 0)
                && ((o & 0x7Fu8) & 0x02u8 != 0) == (o & 0x02u8 != 0) && ((o & 0x7Fu8) & 0x04u8 != 0)
                == (o & 0x04u8 != 0) && ((o & 0x7Fu8) & 0x08u8 != 0) == (o & 0x08u8 != 0) && ((o
                & 0x7Fu8) & 0x10u8 != 0) == (o & 0x10u8 != 0) && ((o & 0x7Fu8) & 0x20u8 != 0) == (o
                & 0x20u8 != 0) && ((o & 0x7Fu8) & 0x40u8 != 0) == (o & 0x40u8 != 0))
                by (bit_vector);
        }
    }
}

} // verus!
