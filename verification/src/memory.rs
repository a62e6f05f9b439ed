//! Machine memory: a fixed-size byte array with a protected low region
//! (the boot/font area) and a writable program region. Writes go through
//! an unrestricted path (used to install font data) or a restricted path
//! that rejects writes beginning inside the protected region.

use vstd::prelude::*;

use crate::constants::{INSTRUCTION_SIZE, MEMORY_SIZE, UNPROTECTED_MEMORY_START};
use crate::instruction::Instruction;
use crate::parser::{spec_parse, InstructionParsingError};
use crate::sprite::SpriteView;

verus! {

/// The machine's byte-addressable memory.
pub struct Memory {
    pub raw_data: Vec<u8>,
}

/// Why an instruction fetch failed.
#[derive(Debug, Clone, Copy, PartialEq, Eq, Structural)]
pub enum ReadInstructionError {
    /// The word at the address did not decode.
    ParseError(InstructionParsingError),
    /// The fetch address lies inside the protected region.
    AddressInProtectedMemoryArea(usize),
    /// The fetch address lies outside memory.
    AddressOutOfRange(usize),
}

/// Why a memory write failed; both variants carry the start and
/// one-past-the-end addresses of the attempted range.
#[derive(Debug, Clone, Copy, PartialEq, Eq, Structural)]
pub enum WriteError {
    /// The range begins inside the protected region (restricted path).
    InProtectedMemoryArea(usize, usize),
    /// The range does not fit in memory.
    OutOfRange(usize, usize),
}

/// `mem` with `data` written at `addr` and every other byte unchanged.
pub open spec fn spec_write(mem: Seq<u8>, addr: int, data: Seq<u8>) -> Seq<u8> {
    Seq::new(
        mem.len(),
        |i: int|
            if addr <= i < addr + data.len() {
                data[i - addr]
            } else {
                mem[i]
            },
    )
}

/// What fetching an instruction word at `address` yields: a protection
/// or range error, or the decode of the two bytes at the address.
pub open spec fn spec_read_instruction(mem: Seq<u8>, address: usize) -> Result<
    Instruction,
    ReadInstructionError,
> {
    if address < UNPROTECTED_MEMORY_START {
        Err(ReadInstructionError::AddressInProtectedMemoryArea(address))
    } else if address + INSTRUCTION_SIZE > MEMORY_SIZE {
        Err(ReadInstructionError::AddressOutOfRange(address))
    } else {
        match spec_parse(mem[address as int], mem[address as int + 1]) {
            Ok(i) => Ok(i),
            Err(e) => Err(ReadInstructionError::ParseError(e)),
        }
    }
}

impl Memory {
    /// Memory always holds exactly [`MEMORY_SIZE`] bytes.
    pub open spec fn wf(&self) -> bool {
        self.raw_data@.len() == MEMORY_SIZE
    }

    /// Fresh all-zero memory.
    pub fn new() -> (r: Memory)
        ensures
            r.wf(),
            r.raw_data@ == Seq::new(MEMORY_SIZE as nat, |i: int| 0u8),
    {
        let r = Memory { raw_data: vec![0u8; MEMORY_SIZE] };
        proof {
            assert(r.raw_data@ =~= Seq::new(MEMORY_SIZE as nat, |i: int| 0u8));
        }
        r
    }

    /// Zero every byte.
    pub fn clear(&mut self)
        ensures
            final (self).wf(),
            final (self).raw_data@ == Seq::new(MEMORY_SIZE as nat, |i: int| 0u8),
    {
        self.raw_data = vec![0u8; MEMORY_SIZE];
        proof {
            assert(self.raw_data@ =~= Seq::new(MEMORY_SIZE as nat, |i: int| 0u8));
        }
    }

    /// Write `data` at `write_address`, bypassing region protection.
    /// Fails, leaving memory unchanged, exactly when the range does not
    /// fit in memory.
    pub fn write_unrestricted(&mut self, data: &[u8], write_address: usize) -> (r: Result<
        (),
        WriteError,
    >)
        requires
            old(self).wf(),
            write_address + data@.len() <= usize::MAX,
        ensures
            final (self).wf(),
            write_address + data@.len() <= MEMORY_SIZE ==> r is Ok && final (self).raw_data@
                == spec_write(old(self).raw_data@, write_address as int, data@),
            write_address + data@.len() > MEMORY_SIZE ==> r == Err::<(), WriteError>(
                WriteError::OutOfRange(write_address, (write_address + data@.len()) as usize),
            ) && final (self).raw_data@ == old(self).raw_data@,
    {
        let len = data.len();
        if len > MEMORY_SIZE || write_address > MEMORY_SIZE - len {
            return Err(WriteError::OutOfRange(write_address, write_address + len));
        }
        let mut i: usize = 0;
        while i < len
            invariant
                i <= len,
                write_address + len <= MEMORY_SIZE,
                len == data@.len(),
                self.raw_data@.len() == MEMORY_SIZE,
                forall|j: int|
                    0 <= j < MEMORY_SIZE && !(write_address <= j < write_address + i)
                        ==> self.raw_data@[j] == old(self).raw_data@[j],
                forall|j: int|
                    write_address <= j < write_address + i ==> self.raw_data@[j] == data@[j
                        - write_address],
            decreases len - i,
        {
            self.raw_data[write_address + i] = data[i];
            i += 1;
        }
        proof {
            assert(self.raw_data@ =~= spec_write(old(self).raw_data@, write_address as int, data@));
        }
        Ok(())
    }

    /// Write `data` at `write_address` through the restricted (program)
    /// path: additionally fails, leaving memory unchanged, when the
    /// range begins inside the protected region.
    pub fn write_restricted(&mut self, data: &[u8], write_address: usize) -> (r: Result<
        (),
        WriteError,
    >)
        requires
            old(self).wf(),
            write_address + data@.len() <= usize::MAX,
        ensures
            final (self).wf(),
            write_address < UNPROTECTED_MEMORY_START ==> r == Err::<(), WriteError>(
                WriteError::InProtectedMemoryArea(
                    write_address,
                    (write_address + data@.len()) as usize,
                ),
            ) && final (self).raw_data@ == old(self).raw_data@,
            write_address >= UNPROTECTED_MEMORY_START && write_address + data@.len() <= MEMORY_SIZE
                ==> r is Ok && final (self).raw_data@ == spec_write(
                old(self).raw_data@,
                write_address as int,
                data@,
            ),
            write_address >= UNPROTECTED_MEMORY_START && write_address + data@.len() > MEMORY_SIZE
                ==> r == Err::<(), WriteError>(
                WriteError::OutOfRange(write_address, (write_address + data@.len()) as usize),
            ) && final (self).raw_data@ == old(self).raw_data@,
    {
        if write_address < UNPROTECTED_MEMORY_START {
            return Err(WriteError::InProtectedMemoryArea(write_address, write_address + data.len()));
        }
        self.write_unrestricted(data, write_address)
    }

    /// Fetch and decode the instruction word at `address`.
    pub fn read_instruction(&self, address: usize) -> (r: Result<Instruction, ReadInstructionError>)
        requires
            self.wf(),
        ensures
            r == spec_read_instruction(self.raw_data@, address),
            r matches Ok(i) ==> i.inv(),
    {
        if address < UNPROTECTED_MEMORY_START {
            return Err(ReadInstructionError::AddressInProtectedMemoryArea(address));
        }
        if address > MEMORY_SIZE - INSTRUCTION_SIZE {
            return Err(ReadInstructionError::AddressOutOfRange(address));
        }
        match Instruction::parse(self.raw_data[address], self.raw_data[address + 1]) {
            Ok(i) => Ok(i),
            Err(e) => Err(ReadInstructionError::ParseError(e)),
        }
    }

    /// A bounded pixel view of `byte_count` bytes starting at `address`,
    /// or `None` exactly when that range exceeds memory bounds.
    pub fn read_sprite(&self, address: usize, byte_count: usize) -> (r: Option<SpriteView>)
        requires
            self.wf(),
            address + byte_count <= usize::MAX,
        ensures
            match r {
                Some(s) => address + byte_count <= MEMORY_SIZE && s.wf() && s.height == byte_count
                    && s.data@ == self.raw_data@.subrange(
                    address as int,
                    address as int + byte_count,
                ),
                None => address + byte_count > MEMORY_SIZE,
            },
    {
        if byte_count > MEMORY_SIZE || address > MEMORY_SIZE - byte_count {
            return None;
        }
        let mut bytes: Vec<u8> = Vec::new();
        let mut i: usize = 0;
        while i < byte_count
            invariant
                i <= byte_count,
                address + byte_count <= MEMORY_SIZE,
                self.raw_data@.len() == MEMORY_SIZE,
                bytes@ == self.raw_data@.subrange(address as int, address as int + i),
            decreases byte_count - i,
        {
            bytes.push(self.raw_data[address + i]);
            proof {
                assert(bytes@ =~= self.raw_data@.subrange(address as int, address as int + i + 1));
            }
            i += 1;
        }
        Some(SpriteView::new_from_bytes(bytes))
    }
}

} // verus!
