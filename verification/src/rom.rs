use vstd::prelude::*;
use vstd::slice::slice_to_vec;
use crate::memory::{Image, Memory};
use crate::ram::storage_read;

verus! {

/// The image of read-only storage that holds `cells`: whatever is written,
/// every address goes on showing what it showed.
pub open spec fn fixed_image(cells: Seq<u8>) -> Image {
    Image { after: |writes: Seq<(u16, u8)>, a: u16| storage_read(cells, a) }
}

/// A read of read-only storage shows the cell, and a write changes nothing.
pub proof fn lemma_fixed_image(cells: Seq<u8>, addr: u16, value: u8)
    ensures
        fixed_image(cells).read(addr) == storage_read(cells, addr),
        fixed_image(cells).write(addr, value) == fixed_image(cells),
{
    assert(fixed_image(cells).write(addr, value).after =~= fixed_image(cells).after);
}

/// Read-only memory: a copy of the bytes it was made from, addressed from 0.
///
/// Writes are ignored. An address past the last byte reads `0xFF`.
pub struct ROM {
    data: Vec<u8>,
}

impl ROM {
    /// The bytes that the device holds.
    pub closed spec fn cells(&self) -> Seq<u8> {
        self.data@
    }

    /// A device that holds a copy of `data`.
    pub fn new(data: &[u8]) -> (rom: Self)
        ensures
            rom.cells() == data@,
    {
        Self { data: slice_to_vec(data) }
    }
}

impl Memory for ROM {
    open spec fn view(&self) -> Image {
        fixed_image(self.cells())
    }

    fn get_u8(&self, addr: u16) -> (value: u8)
        ensures
            value == storage_read(self.cells(), addr),
    {
        proof {
            lemma_fixed_image(self.cells(), addr, 0);
        }
        if (addr as usize) < self.data.len() {
            self.data[addr as usize]
        } else {
            0xFF
        }
    }

    fn set_u8(&mut self, addr: u16, value: u8)
        ensures
            final(self).cells() == old(self).cells(),
    {
        proof {
            lemma_fixed_image(self.cells(), addr, value);
        }
    }
}

} // verus!
