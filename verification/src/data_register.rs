//! The 16 general-purpose 8-bit data registers and the closed set of
//! identifiers naming them. `VF` is the designated flag register:
//! arithmetic, shift and draw instructions overwrite it to report
//! carry/borrow/collision.

use vstd::prelude::*;

verus! {

/// Identifier of one of the 16 general-purpose registers (`V0`–`VF`).
#[derive(Debug, Clone, Copy, PartialEq, Eq, Structural)]
pub enum DataRegister {
    V0,
    V1,
    V2,
    V3,
    V4,
    V5,
    V6,
    V7,
    V8,
    V9,
    VA,
    VB,
    VC,
    VD,
    VE,
    VF,
}

impl DataRegister {
    /// The dense index (0–15) this identifier names.
    pub open spec fn idx(self) -> int {
        match self {
            DataRegister::V0 => 0,
            DataRegister::V1 => 1,
            DataRegister::V2 => 2,
            DataRegister::V3 => 3,
            DataRegister::V4 => 4,
            DataRegister::V5 => 5,
            DataRegister::V6 => 6,
            DataRegister::V7 => 7,
            DataRegister::V8 => 8,
            DataRegister::V9 => 9,
            DataRegister::VA => 10,
            DataRegister::VB => 11,
            DataRegister::VC => 12,
            DataRegister::VD => 13,
            DataRegister::VE => 14,
            DataRegister::VF => 15,
        }
    }

    /// The register identifier with the given dense index, if it is one
    /// of the 16 legal values.
    pub open spec fn spec_from_index(value: u8) -> DataRegister
        recommends
            value < 16,
    {
        match value {
            0 => DataRegister::V0,
            1 => DataRegister::V1,
            2 => DataRegister::V2,
            3 => DataRegister::V3,
            4 => DataRegister::V4,
            5 => DataRegister::V5,
            6 => DataRegister::V6,
            7 => DataRegister::V7,
            8 => DataRegister::V8,
            9 => DataRegister::V9,
            10 => DataRegister::VA,
            11 => DataRegister::VB,
            12 => DataRegister::VC,
            13 => DataRegister::VD,
            14 => DataRegister::VE,
            _ => DataRegister::VF,
        }
    }

    /// Validating constructor: accepts exactly the 16 legal identifiers,
    /// handing back the rejected value otherwise.
    pub fn try_from_u8(value: u8) -> (r: Result<DataRegister, u8>)
        ensures
            match r {
                Ok(d) => value < 16 && d == DataRegister::spec_from_index(value) && d.idx()
                    == value as int,
                Err(e) => value >= 16 && e == value,
            },
    {
        match value {
            0 => Ok(DataRegister::V0),
            1 => Ok(DataRegister::V1),
            2 => Ok(DataRegister::V2),
            3 => Ok(DataRegister::V3),
            4 => Ok(DataRegister::V4),
            5 => Ok(DataRegister::V5),
            6 => Ok(DataRegister::V6),
            7 => Ok(DataRegister::V7),
            8 => Ok(DataRegister::V8),
            9 => Ok(DataRegister::V9),
            10 => Ok(DataRegister::VA),
            11 => Ok(DataRegister::VB),
            12 => Ok(DataRegister::VC),
            13 => Ok(DataRegister::VD),
            14 => Ok(DataRegister::VE),
            15 => Ok(DataRegister::VF),
            _ => Err(value),
        }
    }

    /// The dense index as a byte, for use as an array index or key code.
    pub fn as_u8(self) -> (r: u8)
        ensures
            r as int == self.idx(),
            r < 16,
    {
        match self {
            DataRegister::V0 => 0,
            DataRegister::V1 => 1,
            DataRegister::V2 => 2,
            DataRegister::V3 => 3,
            DataRegister::V4 => 4,
            DataRegister::V5 => 5,
            DataRegister::V6 => 6,
            DataRegister::V7 => 7,
            DataRegister::V8 => 8,
            DataRegister::V9 => 9,
            DataRegister::VA => 10,
            DataRegister::VB => 11,
            DataRegister::VC => 12,
            DataRegister::VD => 13,
            DataRegister::VE => 14,
            DataRegister::VF => 15,
        }
    }
}

/// The register file: 16 independent 8-bit values, indexed by
/// [`DataRegister`].
pub struct DataRegisters {
    pub data: Vec<u8>,
}

impl View for DataRegisters {
    type V = Seq<u8>;

    open spec fn view(&self) -> Seq<u8> {
        self.data@
    }
}

impl DataRegisters {
    /// There is a value for each of the 16 identifiers.
    pub open spec fn wf(&self) -> bool {
        self@.len() == 16
    }

    /// A fresh register file, all registers zero.
    pub fn new() -> (r: DataRegisters)
        ensures
            r.wf(),
            r@ == Seq::new(16, |i: int| 0u8),
    {
        let r = DataRegisters { data: vec![0u8; 16] };
        proof {
            assert(r@ =~= Seq::new(16, |i: int| 0u8));
        }
        r
    }

    /// Zero every register.
    pub fn reset(&mut self)
        ensures
            final (self).wf(),
            final (self)@ == Seq::new(16, |i: int| 0u8),
    {
        self.data = vec![0u8; 16];
        proof {
            assert(self@ =~= Seq::new(16, |i: int| 0u8));
        }
    }

    /// Read the register named by `index`.
    pub fn get(&self, index: DataRegister) -> (r: u8)
        requires
            self.wf(),
        ensures
            r == self@[index.idx()],
    {
        self.data[index.as_u8() as usize]
    }

    /// Write `value` to the register named by `index`.
    pub fn set(&mut self, index: DataRegister, value: u8)
        requires
            old(self).wf(),
        ensures
            final (self).wf(),
            final (self)@ == old(self)@.update(index.idx(), value),
    {
        let i = index.as_u8() as usize;
        self.data[i] = value;
    }
}

} // verus!
