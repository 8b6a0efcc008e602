use vstd::prelude::*;
use crate::memory::{Image, Memory};

verus! {

/// The byte that plain storage of the given cells shows at `addr`: the cell,
/// or `0xFF` where the address is past the last cell.
pub open spec fn storage_read(cells: Seq<u8>, addr: u16) -> u8 {
    if addr < cells.len() {
        cells[addr as int]
    } else {
        0xFF
    }
}

/// The cells once `value` has been written at `addr`. A write past the last
/// cell is dropped.
pub open spec fn storage_write(cells: Seq<u8>, addr: u16, value: u8) -> Seq<u8> {
    if addr < cells.len() {
        cells.update(addr as int, value)
    } else {
        cells
    }
}

/// The cells once all of `writes` have been applied, in order.
pub open spec fn storage_after(cells: Seq<u8>, writes: Seq<(u16, u8)>) -> Seq<u8>
    decreases writes.len(),
{
    if writes.len() == 0 {
        cells
    } else {
        storage_after(storage_write(cells, writes[0].0, writes[0].1), writes.drop_first())
    }
}

/// The image of read-write storage that holds `cells`.
pub open spec fn storage_image(cells: Seq<u8>) -> Image {
    Image { after: |writes: Seq<(u16, u8)>, a: u16| storage_read(storage_after(cells, writes), a) }
}

/// A read of storage shows the cell, and a write replaces it.
pub proof fn lemma_storage_image(cells: Seq<u8>, addr: u16, value: u8)
    ensures
        storage_image(cells).read(addr) == storage_read(cells, addr),
        storage_image(cells).write(addr, value) == storage_image(storage_write(cells, addr, value)),
{
    let written = storage_image(cells).write(addr, value);
    let direct = storage_image(storage_write(cells, addr, value));
    assert forall|writes: Seq<(u16, u8)>, a: u16| #[trigger]
        (written.after)(writes, a) == (direct.after)(writes, a) by {
        let all = seq![(addr, value)] + writes;
        assert(all.drop_first() =~= writes);
    }
    assert(written.after =~= direct.after);
}

/// A word written little-endian into storage reads back unchanged, wherever
/// both of its bytes fall on cells.
pub proof fn lemma_storage_keeps_word(cells: Seq<u8>, addr: u16, value: u16)
    requires
        addr < cells.len(),
        crate::memory::address_after(addr, 1) < cells.len(),
    ensures
        storage_image(cells).keeps_word(addr, value),
{
    let next = crate::memory::address_after(addr, 1);
    let low = crate::arith::low_byte(value);
    let high = crate::arith::high_byte(value);
    let once = storage_write(cells, addr, low);
    let twice = storage_write(once, next, high);
    lemma_storage_image(cells, addr, low);
    lemma_storage_image(once, next, high);
    lemma_storage_image(twice, addr, 0);
    lemma_storage_image(twice, next, 0);
}

/// Read-write memory: a buffer of bytes addressed from 0.
///
/// An address past the end of the buffer reads `0xFF`, and a write to it is
/// dropped.
pub struct RAM {
    data: Vec<u8>,
}

impl RAM {
    /// The bytes that the buffer holds.
    pub closed spec fn cells(&self) -> Seq<u8> {
        self.data@
    }

    /// A buffer of `size` zero bytes.
    pub fn new(size: usize) -> (ram: Self)
        ensures
            ram.cells() == Seq::new(size as nat, |i: int| 0u8),
    {
        let ram = Self { data: vec![0; size] };
        ram
    }
}

impl Default for RAM {
    /// The whole 16-bit address space, zeroed.
    fn default() -> (ram: Self)
        ensures
            ram.cells() == Seq::new(0x1_0000, |i: int| 0u8),
    {
        Self::new(65536)
    }
}

impl Memory for RAM {
    open spec fn view(&self) -> Image {
        storage_image(self.cells())
    }

    fn get_u8(&self, addr: u16) -> (value: u8)
        ensures
            value == storage_read(self.cells(), addr),
    {
        proof {
            lemma_storage_image(self.cells(), addr, 0);
        }
        if (addr as usize) < self.data.len() {
            self.data[addr as usize]
        } else {
            0xFF
        }
    }

    fn set_u8(&mut self, addr: u16, value: u8)
        ensures
            final(self).cells() == storage_write(old(self).cells(), addr, value),
    {
        proof {
            lemma_storage_image(self.cells(), addr, value);
        }
        if (addr as usize) < self.data.len() {
            self.data[addr as usize] = value;
        }
    }
}

} // verus!
