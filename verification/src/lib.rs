//! Emulation core for a Nuvoton N329x-class system-on-chip: the cooperative
//! scheduler that interleaves CPU execution with peripheral servicing, the
//! interrupt controller, CPU exception vectoring, and the SD/MMC storage
//! stack (card protocol state machine plus host controller / DMA bridge).
//!
//! The CPU core itself and all host-side I/O (guest memory access, frame
//! presentation, image files) live outside this crate; the library exchanges
//! plain values with them.
use vstd::prelude::*;

pub mod device;
pub mod exception;
pub mod hle;
pub mod extdev;
pub mod peripherals;

verus! {

/// Error vocabulary of the emulation core.
///
/// Host-side failures (file or CPU-engine errors) are translated by the
/// embedding program into its own error type; this enum covers only the
/// conditions the core itself detects.
#[derive(Debug, Clone, Copy, PartialEq, Eq, Structural)]
pub enum RuntimeError {
    LoaderParserFailed,
    LoaderInvalidMagic,
    SDAlreadyMounted,
    SDNotMounted,
    /// A data-phase read was requested while no transfer was staged: a
    /// protocol error of the caller, reported loudly rather than answered
    /// with silent zeros.
    SDNoStagedAction,
}

/// The little-endian 32-bit value stored in the first four bytes of `s`.
pub open spec fn spec_le_u32(s: Seq<u8>) -> u32 {
    (s[0] as u32) | ((s[1] as u32) << 8) | ((s[2] as u32) << 16) | ((s[3] as u32) << 24)
}

/// Decode a little-endian 32-bit word from a 4-byte slice.
pub fn read_le_u32(input: &[u8]) -> (r: Result<u32, RuntimeError>)
    ensures
        input@.len() == 4 <==> r is Ok,
        r matches Ok(v) ==> v == spec_le_u32(input@),
        r matches Err(e) ==> e == RuntimeError::LoaderParserFailed,
{
    if input.len() != 4 {
        return Err(RuntimeError::LoaderParserFailed);
    }
    let b0 = input[0];
    let b1 = input[1];
    let b2 = input[2];
    let b3 = input[3];
    Ok((b0 as u32) | ((b1 as u32) << 8) | ((b2 as u32) << 16) | ((b3 as u32) << 24))
}

} // verus!

verus! {

use vstd::slice::slice_subrange;

/// First word of a valid first-stage boot header.
pub const BOOT_MAGIC_HEAD: u32 = 0x57425aa5;

/// Fourth word of a valid first-stage boot header.
pub const BOOT_MAGIC_TAIL: u32 = 0xa55a4257;

/// The loading directive of a first-stage boot header: where to place the
/// boot code in guest memory and how many bytes of it follow the header.
#[derive(Debug, Clone, Copy, PartialEq, Eq, Structural)]
pub struct BootHeader {
    pub load_addr: u32,
    pub load_size: u32,
}

/// Parse the 32-byte first-stage boot header found behind the first sector
/// of a card image: the first and fourth little-endian words must hold the
/// two magic values, the second is the load address and the third the code
/// size.
pub fn parse_boot_header(header: &[u8]) -> (r: Result<BootHeader, RuntimeError>)
    ensures
        header@.len() < 16 ==> r == Result::<BootHeader, RuntimeError>::Err(
            RuntimeError::LoaderParserFailed,
        ),
        header@.len() >= 16 ==> ({
            let magic = spec_le_u32(header@.subrange(0, 4));
            let tail = spec_le_u32(header@.subrange(12, 16));
            if magic != BOOT_MAGIC_HEAD || tail != BOOT_MAGIC_TAIL {
                r == Result::<BootHeader, RuntimeError>::Err(RuntimeError::LoaderInvalidMagic)
            } else {
                r == Result::<BootHeader, RuntimeError>::Ok(
                    BootHeader {
                        load_addr: spec_le_u32(header@.subrange(4, 8)),
                        load_size: spec_le_u32(header@.subrange(8, 12)),
                    },
                )
            }
        }),
{
    if header.len() < 16 {
        return Err(RuntimeError::LoaderParserFailed);
    }
    let magic = match read_le_u32(slice_subrange(header, 0, 4)) {
        Ok(v) => v,
        Err(e) => {
            return Err(e);
        },
    };
    let magic_tail = match read_le_u32(slice_subrange(header, 12, 16)) {
        Ok(v) => v,
        Err(e) => {
            return Err(e);
        },
    };
    if magic != BOOT_MAGIC_HEAD || magic_tail != BOOT_MAGIC_TAIL {
        return Err(RuntimeError::LoaderInvalidMagic);
    }
    let load_addr = match read_le_u32(slice_subrange(header, 4, 8)) {
        Ok(v) => v,
        Err(e) => {
            return Err(e);
        },
    };
    let load_size = match read_le_u32(slice_subrange(header, 8, 12)) {
        Ok(v) => v,
        Err(e) => {
            return Err(e);
        },
    };
    Ok(BootHeader { load_addr, load_size })
}

} // verus!
