//! The driver chip's register map, as far as this firmware touches it.
//!
//! The writer task keeps a local copy of the configuration registers
//! and periodically pushes them over the link as write frames (the
//! heartbeat).  The reader task maps decoded reply frames back to the
//! registers it knows; an unrecognized address is reported, never
//! fatal.

use vstd::prelude::*;
use crate::codec::{encode_write, encode_write_spec};

verus! {

/// Global configuration register (write).
pub const REG_GCONF: u8 = 0x00;

/// Interface access counter (read): counts register writes the chip
/// has taken.
pub const REG_IFCNT: u8 = 0x02;

/// IO input state register (read).
pub const REG_IOIN: u8 = 0x06;

/// Velocity register (write): direct motion when non-zero.
pub const REG_VACTUAL: u8 = 0x22;

/// `GCONF` bit: invert the motor shaft direction.
pub const GCONF_SHAFT: u32 = 0x8;

/// `GCONF` bit: take configuration over the serial link instead of the
/// power-down pin.
pub const GCONF_PDN_DISABLE: u32 = 0x40;

/// Which register a decoded reply frame speaks of.
#[derive(Clone, Copy, PartialEq, Eq, Structural, Debug)]
pub enum RegisterKind {
    /// The IO input state register.
    IoStatus,
    /// The interface access counter.
    InterfaceCounter,
    /// An address this firmware does not track; reported as a warning
    /// and otherwise ignored.
    Unknown,
}

/// The register a reply address maps to.
pub open spec fn classify_register_spec(addr: u8) -> RegisterKind {
    if addr == REG_IOIN {
        RegisterKind::IoStatus
    } else if addr == REG_IFCNT {
        RegisterKind::InterfaceCounter
    } else {
        RegisterKind::Unknown
    }
}

/// Map a decoded reply's register address to the register it names.
pub fn classify_register(addr: u8) -> (r: RegisterKind)
    ensures
        r == classify_register_spec(addr),
{
    if addr == REG_IOIN {
        RegisterKind::IoStatus
    } else if addr == REG_IFCNT {
        RegisterKind::InterfaceCounter
    } else {
        RegisterKind::Unknown
    }
}

/// The local copy of the driver's configuration registers.
pub struct TmcRegisters {
    pub gconf: u32,
    pub vactual: u32,
}

impl TmcRegisters {
    /// Both registers at their reset value.
    pub fn new() -> (r: TmcRegisters)
        ensures
            r.gconf == 0,
            r.vactual == 0,
    {
        TmcRegisters { gconf: 0, vactual: 0 }
    }

    /// Set or clear the shaft-inversion bit of `GCONF`.
    pub fn set_shaft(&mut self, on: bool)
        ensures
            final(self).gconf == if on {
                old(self).gconf | GCONF_SHAFT
            } else {
                old(self).gconf & !GCONF_SHAFT
            },
            final(self).vactual == old(self).vactual,
    {
        if on {
            self.gconf = self.gconf | GCONF_SHAFT;
        } else {
            self.gconf = self.gconf & !GCONF_SHAFT;
        }
    }

    /// Set or clear the `pdn_disable` bit of `GCONF`.
    pub fn set_pdn_disable(&mut self, on: bool)
        ensures
            final(self).gconf == if on {
                old(self).gconf | GCONF_PDN_DISABLE
            } else {
                old(self).gconf & !GCONF_PDN_DISABLE
            },
            final(self).vactual == old(self).vactual,
    {
        if on {
            self.gconf = self.gconf | GCONF_PDN_DISABLE;
        } else {
            self.gconf = self.gconf & !GCONF_PDN_DISABLE;
        }
    }

    /// Set the velocity register.
    pub fn set_vactual(&mut self, v: u32)
        ensures
            final(self).vactual == v,
            final(self).gconf == old(self).gconf,
    {
        self.vactual = v;
    }

    /// The byte stream of one heartbeat: a write frame for each
    /// configuration register, back to back.
    pub fn heartbeat_frames(&self) -> (r: Vec<u8>)
        ensures
            r@ == encode_write_spec(REG_GCONF, self.gconf) + encode_write_spec(
                REG_VACTUAL,
                self.vactual,
            ),
    {
        let mut out = encode_write(REG_GCONF, self.gconf);
        let mut tail = encode_write(REG_VACTUAL, self.vactual);
        out.append(&mut tail);
        out
    }
}

} // verus!
