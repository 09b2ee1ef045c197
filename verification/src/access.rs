//! The accesses a controller operation asks its host to perform.

use vstd::prelude::*;

verus! {

/// One access to the machine.
///
/// `Load` and `MsrRead` return a value; every other access returns nothing
/// that the controller looks at.
#[derive(Clone, Copy, Debug, PartialEq, Eq, Structural)]
#[allow(inconsistent_fields)]
pub enum Access {
    /// Volatile 32-bit load from the physical address `addr`.
    Load { addr: usize },
    /// Volatile 32-bit store of `value` to the physical address `addr`.
    Store { addr: usize, value: u32 },
    /// 16-bit store of `value` to the physical address `addr`.
    StoreHalf { addr: usize, value: u16 },
    /// Write of the byte `value` to the I/O port `port`.
    PortOut { port: u16, value: u8 },
    /// Read of the model-specific register `index`.
    MsrRead { index: u32 },
    /// Write of `value` to the model-specific register `index`.
    MsrWrite { index: u32, value: u64 },
    /// Pause of at least `micros` microseconds.
    Delay { micros: usize },
}

impl Access {
    /// Whether the access returns a value and leaves the machine as it was.
    pub open spec fn is_read(self) -> bool {
        self is Load || self is MsrRead
    }
}

} // verus!
