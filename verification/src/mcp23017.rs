//! Register map of the MCP23017 port expander, for IOCON.BANK=0, and the
//! base bus address of the chip.

use vstd::prelude::*;

verus! {

/// Default bus address of the chip.
pub const ADDR: u8 = 0x20;

pub const IODIRA: u8 = 0x00;

pub const IPOLA: u8 = 0x02;

pub const GPINTENA: u8 = 0x04;

pub const DEFVALA: u8 = 0x06;

pub const INTCONA: u8 = 0x08;

pub const IOCONA: u8 = 0x0A;

pub const GPPUA: u8 = 0x0C;

pub const INTFA: u8 = 0x0E;

pub const INTCAPA: u8 = 0x10;

pub const GPIOA: u8 = 0x12;

pub const OLATA: u8 = 0x14;

pub const IODIRB: u8 = 0x01;

pub const IPOLB: u8 = 0x03;

pub const GPINTENB: u8 = 0x05;

pub const DEFVALB: u8 = 0x07;

pub const INTCONB: u8 = 0x09;

pub const IOCONB: u8 = 0x0B;

pub const GPPUB: u8 = 0x0D;

pub const INTFB: u8 = 0x0F;

pub const INTCAPB: u8 = 0x11;

pub const GPIOB: u8 = 0x13;

pub const OLATB: u8 = 0x15;

/// The register value names a register of the chip.
pub open spec fn is_known_reg(reg: u8) -> bool {
    ||| reg == IODIRA
    ||| reg == IPOLA
    ||| reg == GPINTENA
    ||| reg == DEFVALA
    ||| reg == INTCONA
    ||| reg == IOCONA
    ||| reg == GPPUA
    ||| reg == INTFA
    ||| reg == INTCAPA
    ||| reg == GPIOA
    ||| reg == OLATA
    ||| reg == IODIRB
    ||| reg == IPOLB
    ||| reg == GPINTENB
    ||| reg == DEFVALB
    ||| reg == INTCONB
    ||| reg == IOCONB
    ||| reg == GPPUB
    ||| reg == INTFB
    ||| reg == INTCAPB
    ||| reg == GPIOB
    ||| reg == OLATB
}

/// The name of a known register.
pub open spec fn spec_regname(reg: u8) -> Seq<char> {
    if reg == IODIRA {
        "IODIRA"@
    } else if reg == IPOLA {
        "IPOLA"@
    } else if reg == GPINTENA {
        "GPINTENA"@
    } else if reg == DEFVALA {
        "DEFVALA"@
    } else if reg == INTCONA {
        "INTCONA"@
    } else if reg == IOCONA {
        "IOCONA"@
    } else if reg == GPPUA {
        "GPPUA"@
    } else if reg == INTFA {
        "INTFA"@
    } else if reg == INTCAPA {
        "INTCAPA"@
    } else if reg == GPIOA {
        "GPIOA"@
    } else if reg == OLATA {
        "OLATA"@
    } else if reg == IODIRB {
        "IODIRB"@
    } else if reg == IPOLB {
        "IPOLB"@
    } else if reg == GPINTENB {
        "GPINTENB"@
    } else if reg == DEFVALB {
        "DEFVALB"@
    } else if reg == INTCONB {
        "INTCONB"@
    } else if reg == IOCONB {
        "IOCONB"@
    } else if reg == GPPUB {
        "GPPUB"@
    } else if reg == INTFB {
        "INTFB"@
    } else if reg == INTCAPB {
        "INTCAPB"@
    } else if reg == GPIOB {
        "GPIOB"@
    } else {
        "OLATB"@
    }
}

/// Name of a register, for diagnostics.
pub fn regname(reg: u8) -> (r: &'static str)
    requires
        is_known_reg(reg),
    ensures
        r@ == spec_regname(reg),
{
    if reg == IODIRA {
        "IODIRA"
    } else if reg == IPOLA {
        "IPOLA"
    } else if reg == GPINTENA {
        "GPINTENA"
    } else if reg == DEFVALA {
        "DEFVALA"
    } else if reg == INTCONA {
        "INTCONA"
    } else if reg == IOCONA {
        "IOCONA"
    } else if reg == GPPUA {
        "GPPUA"
    } else if reg == INTFA {
        "INTFA"
    } else if reg == INTCAPA {
        "INTCAPA"
    } else if reg == GPIOA {
        "GPIOA"
    } else if reg == OLATA {
        "OLATA"
    } else if reg == IODIRB {
        "IODIRB"
    } else if reg == IPOLB {
        "IPOLB"
    } else if reg == GPINTENB {
        "GPINTENB"
    } else if reg == DEFVALB {
        "DEFVALB"
    } else if reg == INTCONB {
        "INTCONB"
    } else if reg == IOCONB {
        "IOCONB"
    } else if reg == GPPUB {
        "GPPUB"
    } else if reg == INTFB {
        "INTFB"
    } else if reg == INTCAPB {
        "INTCAPB"
    } else if reg == GPIOB {
        "GPIOB"
    } else {
        "OLATB"
    }
}

} // verus!
