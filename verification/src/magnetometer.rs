//! Mode typestate transitions: one-shot to continuous and back, and the
//! continuous-mode configuration operations.
//!
//! A transition consumes the handle of one mode and returns the handle of
//! the other; both share the same transport and shadow state, so ownership
//! transfers and nothing is duplicated.

use vstd::prelude::*;

use crate::interface::ReadData;
use crate::mode;
use crate::register_address::{
    RegRead,
    CTRL2_CMM_EN, CTRL2_CM_FREQ, CTRL2_EN_PRD_SET, CTRL2_PRD_SET, InternalControl2,
    lemma_ctrl2_flags_wf,
};
use crate::types::{Error, MagMode, MagOutputDataRate, SetResetPeriod};
use crate::Mmc5983;

verus! {

/// The control register 2 value after entering continuous mode from
/// `before`: period bits and periodic-SET enable first when a period is
/// requested, then the output rate and the continuous-mode enable.
pub open spec fn spec_continuous_ctrl2(
    before: InternalControl2,
    frequency: MagOutputDataRate,
    set_period: Option<SetResetPeriod>,
) -> InternalControl2 {
    match set_period {
        Some(period) => before.spec_with_set_period(period).spec_union(
            CTRL2_EN_PRD_SET,
        ).spec_with_output_rate(frequency).spec_union(CTRL2_CMM_EN),
        None => before.spec_with_output_rate(frequency).spec_union(CTRL2_CMM_EN),
    }
}

/// The control register 2 value after leaving continuous mode: the
/// continuous-mode enable and periodic-SET bits are cleared in one write.
pub open spec fn spec_oneshot_ctrl2(before: InternalControl2) -> InternalControl2 {
    before.spec_difference(CTRL2_CMM_EN | CTRL2_EN_PRD_SET)
}

/// Law: leaving continuous mode clears both the continuous-mode-enable
/// bit and the periodic-SET bit, whatever frequency or period changes the
/// register saw before.
pub proof fn lemma_mode_transition_safety(c2: InternalControl2)
    ensures
        !spec_oneshot_ctrl2(c2).spec_contains(CTRL2_CMM_EN),
        !spec_oneshot_ctrl2(c2).spec_contains(CTRL2_EN_PRD_SET),
{
    let b = c2.bits;
    assert((b & !(CTRL2_CMM_EN | CTRL2_EN_PRD_SET)) & CTRL2_CMM_EN != CTRL2_CMM_EN && (b & !(
    CTRL2_CMM_EN | CTRL2_EN_PRD_SET)) & CTRL2_EN_PRD_SET != CTRL2_EN_PRD_SET) by (bit_vector);
}

/// Law: after entering continuous mode with a SET/RESET period, the mode
/// configuration read back reports periodic SET/RESET enabled with
/// exactly that period; the requested output rate is reported back
/// whenever its encoding has bit 2 set. (For the lower rates that bit is
/// clear, and the continuous-mode-enable bit, which overlays the top
/// frequency bit in the raw datasheet layout, raises the reported rate.)
pub proof fn lemma_mode_config_faithful(
    c2: InternalControl2,
    frequency: MagOutputDataRate,
    period: SetResetPeriod,
)
    ensures
        spec_continuous_ctrl2(c2, frequency, Some(period)).spec_contains(CTRL2_EN_PRD_SET),
        spec_continuous_ctrl2(c2, frequency, Some(period)).spec_set_period() == period,
        frequency.spec_bits() >= 4 ==> spec_continuous_ctrl2(
            c2,
            frequency,
            Some(period),
        ).spec_output_rate() == frequency,
{
    let b = c2.bits;
    let p = period.spec_bits();
    let w = frequency.spec_bits();
    let after = ((((b & !CTRL2_PRD_SET) | (p << 3)) | CTRL2_EN_PRD_SET) & !CTRL2_CM_FREQ) | w
        | CTRL2_CMM_EN;
    assert(after & CTRL2_EN_PRD_SET == CTRL2_EN_PRD_SET && ((after & CTRL2_PRD_SET) >> 3) & 0b111
        == p && (w >= 4 ==> after & CTRL2_CM_FREQ == w)) by (bit_vector)
        requires
            p < 8 && w < 8 && after == ((((b & !CTRL2_PRD_SET) | (p << 3)) | CTRL2_EN_PRD_SET)
                & !CTRL2_CM_FREQ) | w | CTRL2_CMM_EN,
    ;
}

impl<DI: ReadData> Mmc5983<DI, mode::OneShot> {
    /// Change the magnetometer to continuous measurement mode with the
    /// given frequency; when a SET/RESET period is given, periodic
    /// automatic SET/RESET is configured and enabled first.
    pub fn into_continuous(
        self,
        frequency: MagOutputDataRate,
        set_period: Option<SetResetPeriod>,
    ) -> (r: Result<Mmc5983<DI, mode::Continuous>, Error<DI::Comm>>)
        requires
            self.wf(),
        ensures
            r matches Ok(dev) ==> {
                &&& dev.wf()
                &&& dev.ctrl_reg0 == self.ctrl_reg0
                &&& dev.ctrl_reg1 == self.ctrl_reg1
                &&& dev.ctrl_reg2 == spec_continuous_ctrl2(self.ctrl_reg2, frequency, set_period)
                &&& dev.ctrl_reg3 == self.ctrl_reg3
                &&& dev.offset == self.offset
            },
            r matches Err(e) ==> e is Comm,
    {
        proof {
            lemma_ctrl2_flags_wf();
        }
        let mut this = self;
        if let Some(period) = set_period {
            let reg = this.ctrl_reg2.with_set_period(period).union(CTRL2_EN_PRD_SET);
            match this.iface.write_register(InternalControl2::addr(), reg.bits()) {
                Ok(()) => {
                    this.ctrl_reg2 = reg;
                },
                Err(e) => {
                    return Err(e);
                },
            }
        }
        let reg = this.ctrl_reg2.with_output_rate(frequency).union(CTRL2_CMM_EN);
        match this.iface.write_register(InternalControl2::addr(), reg.bits()) {
            Ok(()) => {
                this.ctrl_reg2 = reg;
            },
            Err(e) => {
                return Err(e);
            },
        }
        Ok(
            Mmc5983 {
                iface: this.iface,
                ctrl_reg0: this.ctrl_reg0,
                ctrl_reg1: this.ctrl_reg1,
                ctrl_reg2: this.ctrl_reg2,
                ctrl_reg3: this.ctrl_reg3,
                offset: this.offset,
                _mode: core::marker::PhantomData,
            },
        )
    }
}

impl<DI: ReadData> Mmc5983<DI, mode::Continuous> {
    /// Change the magnetometer back to one-shot mode, disabling
    /// continuous measurement and automatic SET/RESET in one write.
    pub fn into_oneshot(self) -> (r: Result<Mmc5983<DI, mode::OneShot>, Error<DI::Comm>>)
        requires
            self.wf(),
        ensures
            r matches Ok(dev) ==> {
                &&& dev.wf()
                &&& dev.ctrl_reg0 == self.ctrl_reg0
                &&& dev.ctrl_reg1 == self.ctrl_reg1
                &&& dev.ctrl_reg2 == spec_oneshot_ctrl2(self.ctrl_reg2)
                &&& dev.ctrl_reg3 == self.ctrl_reg3
                &&& dev.offset == self.offset
            },
            r matches Err(e) ==> e is Comm,
    {
        let mut this = self;
        let reg = this.ctrl_reg2.difference(CTRL2_CMM_EN | CTRL2_EN_PRD_SET);
        match this.iface.write_register(InternalControl2::addr(), reg.bits()) {
            Ok(()) => {
                this.ctrl_reg2 = reg;
            },
            Err(e) => {
                return Err(e);
            },
        }
        Ok(
            Mmc5983 {
                iface: this.iface,
                ctrl_reg0: this.ctrl_reg0,
                ctrl_reg1: this.ctrl_reg1,
                ctrl_reg2: this.ctrl_reg2,
                ctrl_reg3: this.ctrl_reg3,
                offset: this.offset,
                _mode: core::marker::PhantomData,
            },
        )
    }

    /// Change the continuous-mode measurement frequency.
    pub fn set_frequency(&mut self, frequency: MagOutputDataRate) -> (r: Result<
        (),
        Error<DI::Comm>,
    >)
        requires
            old(self).wf(),
        ensures
            final(self).wf(),
            final(self).ctrl_reg0 == old(self).ctrl_reg0,
            final(self).ctrl_reg1 == old(self).ctrl_reg1,
            final(self).ctrl_reg3 == old(self).ctrl_reg3,
            final(self).offset == old(self).offset,
            r matches Ok(_) ==> final(self).ctrl_reg2 == old(self).ctrl_reg2.spec_with_output_rate(
                frequency,
            ),
            r matches Err(e) ==> e is Comm && final(self).ctrl_reg2 == old(self).ctrl_reg2,
    {
        let reg = self.ctrl_reg2.with_output_rate(frequency);
        match self.iface.write_register(InternalControl2::addr(), reg.bits()) {
            Ok(()) => {
                self.ctrl_reg2 = reg;
                Ok(())
            },
            Err(e) => Err(e),
        }
    }

    /// Enable automatic SET/RESET with the given period.
    pub fn enable_auto_set_reset(&mut self, period: SetResetPeriod) -> (r: Result<
        (),
        Error<DI::Comm>,
    >)
        requires
            old(self).wf(),
        ensures
            final(self).wf(),
            final(self).ctrl_reg0 == old(self).ctrl_reg0,
            final(self).ctrl_reg1 == old(self).ctrl_reg1,
            final(self).ctrl_reg3 == old(self).ctrl_reg3,
            final(self).offset == old(self).offset,
            r matches Ok(_) ==> final(self).ctrl_reg2 == old(self).ctrl_reg2.spec_with_set_period(
                period,
            ).spec_union(CTRL2_EN_PRD_SET),
            r matches Err(e) ==> e is Comm && final(self).ctrl_reg2 == old(self).ctrl_reg2,
    {
        proof {
            lemma_ctrl2_flags_wf();
        }
        let reg = self.ctrl_reg2.with_set_period(period).union(CTRL2_EN_PRD_SET);
        match self.iface.write_register(InternalControl2::addr(), reg.bits()) {
            Ok(()) => {
                self.ctrl_reg2 = reg;
                Ok(())
            },
            Err(e) => Err(e),
        }
    }

    /// Disable automatic SET/RESET.
    pub fn disable_auto_set_reset(&mut self) -> (r: Result<(), Error<DI::Comm>>)
        requires
            old(self).wf(),
        ensures
            final(self).wf(),
            final(self).ctrl_reg0 == old(self).ctrl_reg0,
            final(self).ctrl_reg1 == old(self).ctrl_reg1,
            final(self).ctrl_reg3 == old(self).ctrl_reg3,
            final(self).offset == old(self).offset,
            r matches Ok(_) ==> final(self).ctrl_reg2 == old(self).ctrl_reg2.spec_difference(
                CTRL2_EN_PRD_SET,
            ),
            r matches Err(e) ==> e is Comm && final(self).ctrl_reg2 == old(self).ctrl_reg2,
    {
        let reg = self.ctrl_reg2.difference(CTRL2_EN_PRD_SET);
        match self.iface.write_register(InternalControl2::addr(), reg.bits()) {
            Ok(()) => {
                self.ctrl_reg2 = reg;
                Ok(())
            },
            Err(e) => Err(e),
        }
    }

    /// The measurement mode the control register 2 shadow encodes: the
    /// continuous-mode frequency, and the SET/RESET period when periodic
    /// SET/RESET is enabled.
    pub fn get_mode_config(&self) -> (r: MagMode)
        ensures
            r == (MagMode::Continuous {
                frequency: self.ctrl_reg2.spec_output_rate(),
                set_period: if self.ctrl_reg2.spec_contains(CTRL2_EN_PRD_SET) {
                    Some(self.ctrl_reg2.spec_set_period())
                } else {
                    None
                },
            }),
    {
        let frequency = self.ctrl_reg2.output_rate();
        let auto_set = self.ctrl_reg2.contains(CTRL2_EN_PRD_SET);
        let set_period = if auto_set {
            Some(self.ctrl_reg2.set_period())
        } else {
            None
        };
        MagMode::Continuous { frequency, set_period }
    }
}

} // verus!
