use vstd::prelude::*;

verus! {

/// A RAM of `SIZE` bytes, all 0 at power on.
#[derive(Debug)]
pub struct WorkRam<const SIZE: usize> {
    data: Vec<u8>,
}

impl<const SIZE: usize> WorkRam<SIZE> {
    /// The bytes of the RAM.
    pub closed spec fn view(&self) -> Seq<u8> {
        self.data@
    }

    #[verifier::type_invariant]
    closed spec fn wf(&self) -> bool {
        self.data@.len() == SIZE
    }

    /// A RAM filled with zeroes.
    pub fn new() -> (r: Self)
        ensures
            r@ == Seq::new(SIZE as nat, |i: int| 0u8),
    {
        let mut data: Vec<u8> = Vec::new();
        let mut i: usize = 0;
        while i < SIZE
            invariant
                i <= SIZE,
                data@ == Seq::new(i as nat, |k: int| 0u8),
            decreases SIZE - i,
        {
            data.push(0);
            i = i + 1;
        }
        Self { data }
    }

    /// The byte at `index`.
    pub fn read(&self, index: u16) -> (r: u8)
        requires
            index < SIZE,
        ensures
            self@.len() == SIZE,
            r == self@[index as int],
    {
        proof { use_type_invariant(self); }
        self.data[index as usize]
    }

    /// Writes the byte at `index`.
    pub fn write(&mut self, index: u16, value: u8)
        requires
            index < SIZE,
        ensures
            final(self)@ == old(self)@.update(index as int, value),
    {
        proof { use_type_invariant(&*self); }
        self.data[index as usize] = value;
    }
}

/// A read gives back the last value written at the same place, and a write leaves the other
/// places alone.
pub proof fn lemma_read_after_write(ram: Seq<u8>, index: int, other: int, value: u8)
    requires
        0 <= index < ram.len(),
        0 <= other < ram.len(),
    ensures
        ram.update(index, value)[index] == value,
        other != index ==> ram.update(index, value)[other] == ram[other],
{
}

} // verus!
