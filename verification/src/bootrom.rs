use vstd::prelude::*;

verus! {

/// Length in bytes of the DMG boot ROM.
pub const BOOT_ROM_SIZE: usize = 0x100;

/// Errors raised when building a boot ROM image.
#[derive(Debug, Clone, Copy, PartialEq, Eq)]
pub enum Error {
    /// The image does not have the expected size (got, expected).
    InvalidSize(usize, usize),
}

/// The 256-byte boot ROM mapped at 0x0000..=0x00FF until it is disabled.
#[derive(Debug)]
pub struct BootRom {
    data: Vec<u8>,
}

impl BootRom {
    /// Bytes of the image.
    pub closed spec fn view(&self) -> Seq<u8> {
        self.data@
    }

    #[verifier::type_invariant]
    closed spec fn wf(&self) -> bool {
        self.data@.len() == BOOT_ROM_SIZE
    }

    /// Builds a boot ROM from its raw image, which must be exactly 256 bytes long.
    pub fn new(data: Vec<u8>) -> (r: Result<BootRom, Error>)
        ensures
            data@.len() == BOOT_ROM_SIZE ==> (r matches Ok(b) && b@ == data@),
            data@.len() != BOOT_ROM_SIZE ==> r == Err::<BootRom, Error>(Error::InvalidSize(data@.len() as usize, BOOT_ROM_SIZE)),
    {
        if data.len() != BOOT_ROM_SIZE {
            return Err(Error::InvalidSize(data.len(), BOOT_ROM_SIZE));
        }
        Ok(BootRom { data })
    }

    /// A copy of the image.
    pub fn duplicate(&self) -> (r: BootRom)
        ensures r@ == self@,
    {
        proof { use_type_invariant(self); }
        BootRom { data: self.data.clone() }
    }

    /// Byte of the image at `index`.
    pub fn read(&self, index: u8) -> (r: u8)
        ensures
            self@.len() == BOOT_ROM_SIZE,
            r == self@[index as int],
    {
        proof { use_type_invariant(self); }
        self.data[index as usize]
    }
}

} // verus!
