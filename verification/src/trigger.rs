//! The outgoing two-byte "Trigger Report": the report id `0x04`, then a
//! bitfield. Bit 1 of the bitfield keeps the scanner from reading barcodes;
//! a bitfield of zero lets it read.

use vstd::prelude::*;

verus! {

/// Report id of a "Trigger Report".
pub const TRIGGER_REPORT_ID: u8 = 0x04;

/// The bit of the bitfield that prevents barcode reads.
pub const PREVENT_READS: u8 = 0b0000_0010;

/// The trigger command that prevents barcode reads, or allows them.
pub fn trigger_command(prevent_reads: bool) -> (command: [u8; 2])
    ensures
        command[0] == TRIGGER_REPORT_ID,
        command[1] == if prevent_reads { PREVENT_READS } else { 0u8 },
{
    let bitfield: u8 = if prevent_reads { PREVENT_READS } else { 0 };
    [TRIGGER_REPORT_ID, bitfield]
}

/// The command that arms the scanner: barcode reads are allowed.
pub fn arm_command() -> (command: [u8; 2])
    ensures
        command[0] == 0x04,
        command[1] == 0x00,
{
    trigger_command(false)
}

/// The command that disarms the scanner: barcode reads are prevented.
pub fn disarm_command() -> (command: [u8; 2])
    ensures
        command[0] == 0x04,
        command[1] == 0x02,
{
    trigger_command(true)
}

} // verus!
