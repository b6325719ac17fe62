//! Registers of the PCI Express capability.
use vstd::prelude::*;

verus! {

/// Length of the capability structure in bytes.
pub const PCIE_CAP_LEN: usize = 0x3C;

/// Offset of slot control, a word.
pub const PCIE_SLTCTL_OFFSET: usize = 0x18;

/// Offset of slot status, a word.
pub const PCIE_SLTSTA_OFFSET: usize = 0x1A;

/// Offset of root control, a word.
pub const PCIE_ROOTCTL_OFFSET: usize = 0x1C;

/// Offset of root status, a double word.
pub const PCIE_ROOTSTA_OFFSET: usize = 0x20;

/// Attention button pressed interrupt enable.
pub const PCIE_SLTCTL_ABPE: u16 = 0x01;

/// Presence detect changed interrupt enable.
pub const PCIE_SLTCTL_PDCE: u16 = 0x08;

/// Command completed interrupt enable.
pub const PCIE_SLTCTL_CCIE: u16 = 0x10;

/// Hot plug interrupt enable.
pub const PCIE_SLTCTL_HPIE: u16 = 0x20;

/// Attention indicator off.
pub const PCIE_SLTCTL_AIC_OFF: u16 = 0xC0;

/// Power indicator field.
pub const PCIE_SLTCTL_PIC: u16 = 0x300;

pub const PCIE_SLTCTL_PIC_ON: u16 = 0x100;

pub const PCIE_SLTCTL_PIC_BLINK: u16 = 0x200;

pub const PCIE_SLTCTL_PIC_OFF: u16 = 0x300;

/// Attention button pressed.
pub const PCIE_SLTSTA_ABP: u16 = 0x01;

/// Power fault detected.
pub const PCIE_SLTSTA_PFD: u16 = 0x02;

/// Presence detect changed.
pub const PCIE_SLTSTA_PDC: u16 = 0x08;

/// Command completed.
pub const PCIE_SLTSTA_CC: u16 = 0x10;

/// Presence detect state.
pub const PCIE_SLTSTA_PDS: u16 = 0x40;

/// Data link layer state changed.
pub const PCIE_SLTSTA_DLLSC: u16 = 0x100;

/// The slot status bits that a guest clears by writing a one.
pub const PCIE_SLTSTA_W1C: u16 = 0x11B;

pub const PCIE_ROOTCTL_PME_ENABLE: u16 = 0x08;

pub const PCIE_ROOTSTA_PME_REQ_ID_MASK: u32 = 0xFFFF;

pub const PCIE_ROOTSTA_PME_STATUS: u32 = 0x1_0000;

pub const PCIE_ROOTSTA_PME_PENDING: u32 = 0x2_0000;

/// What a port is in the hierarchy.
#[derive(Clone, Copy, Debug, PartialEq, Eq, Structural)]
pub enum PcieDevicePortType {
    RootPort,
    UpstreamPort,
    DownstreamPort,
}

/// The buses behind a bridge.
#[derive(Clone, Copy, Debug, PartialEq, Eq, Structural)]
pub struct PciBridgeBusRange {
    pub primary: u8,
    pub secondary: u8,
    pub subordinate: u8,
}

/// Power states of a PCI function.
#[derive(Clone, Copy, Debug, PartialEq, Eq, Structural)]
pub enum PciDevicePower {
    D0,
    D3,
}

} // verus!
