use vstd::prelude::*;

verus! {

/// Why a ROM image cannot be used.
#[derive(Debug, PartialEq, Eq, Structural)]
pub enum CartridgeError {
    /// Only flat 2 KiB and 4 KiB images are supported.
    UnsupportedSize,
}

/// A flat ROM cartridge of 2 KiB (mirrored) or 4 KiB, seen through address
/// lines A0..A11.
pub struct Cartridge {
    pub rom: Vec<u8>,
}

impl Cartridge {
    pub open spec fn wf(&self) -> bool {
        self.rom@.len() == 2048 || self.rom@.len() == 4096
    }

    pub open spec fn byte_at(&self, address: u16) -> u8 {
        self.rom@[(address % 4096) as int % self.rom@.len() as int]
    }

    pub fn new(rom: Vec<u8>) -> (r: Result<Cartridge, CartridgeError>)
        ensures
            (rom@.len() == 2048 || rom@.len() == 4096) <==> r.is_ok(),
            r.is_ok() ==> r.unwrap().rom@ == rom@ && r.unwrap().wf(),
            r.is_err() ==> r == Err::<Cartridge, CartridgeError>(CartridgeError::UnsupportedSize),
    {
        if rom.len() == 2048 || rom.len() == 4096 {
            Ok(Cartridge { rom })
        } else {
            Err(CartridgeError::UnsupportedSize)
        }
    }

    pub fn read(&self, address: u16) -> (r: u8)
        requires
            self.wf(),
        ensures
            r == self.byte_at(address),
    {
        let n = self.rom.len();
        self.rom[(address as usize % 4096) % n]
    }

    /// Writes reach a flat cartridge but change nothing.
    pub fn write(&mut self, address: u16, data: u8)
        ensures
            *final(self) == *old(self),
    {
    }
}

} // verus!
