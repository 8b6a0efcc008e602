use vstd::prelude::*;
use vstd::seq::{
    axiom_seq_push_index_different, axiom_seq_push_index_same, axiom_seq_push_len,
    axiom_seq_update_different, axiom_seq_update_len, axiom_seq_update_same,
};
use crate::memory::{Image, Memory};

verus! {

/// One entry of a bus: the device that answers for the addresses from `from`
/// up to `to`, `to` not included.
pub ghost struct Window {
    pub from: usize,
    pub to: usize,
    pub device: Image,
}

impl Window {
    /// Whether the window holds `addr`.
    pub open spec fn covers(self, addr: u16) -> bool {
        self.from <= addr && addr < self.to
    }

    /// The address that the device sees for the bus address `addr`.
    pub open spec fn local(self, addr: u16) -> u16 {
        (addr - self.from) as u16
    }

    /// The window once `value` has been written at the bus address `addr`:
    /// the device takes the write if the window holds the address.
    pub open spec fn write(self, addr: u16, value: u8) -> Window {
        if self.covers(addr) {
            Window { device: self.device.write(self.local(addr), value), ..self }
        } else {
            self
        }
    }
}

/// The byte that a bus of these windows shows at `addr`: what the first
/// window that holds the address shows, or `0xFF` if none holds it.
pub open spec fn bus_read(windows: Seq<Window>, addr: u16) -> u8
    decreases windows.len(),
{
    if windows.len() == 0 {
        0xFF
    } else if windows[0].covers(addr) {
        windows[0].device.read(windows[0].local(addr))
    } else {
        bus_read(windows.drop_first(), addr)
    }
}

/// The windows once `value` has been written at `addr`: every window that
/// holds the address takes the write.
pub open spec fn bus_write(windows: Seq<Window>, addr: u16, value: u8) -> Seq<Window> {
    Seq::new(windows.len(), |i: int| windows[i].write(addr, value))
}

/// The windows once all of `writes` have been applied, in order.
pub open spec fn bus_after(windows: Seq<Window>, writes: Seq<(u16, u8)>) -> Seq<Window>
    decreases writes.len(),
{
    if writes.len() == 0 {
        windows
    } else {
        bus_after(bus_write(windows, writes[0].0, writes[0].1), writes.drop_first())
    }
}

/// The image of a bus of these windows.
pub open spec fn bus_image(windows: Seq<Window>) -> Image {
    Image { after: |writes: Seq<(u16, u8)>, a: u16| bus_read(bus_after(windows, writes), a) }
}

/// A read of a bus goes to the first window that holds the address, and a
/// write to every window that holds it.
pub proof fn lemma_bus_image(windows: Seq<Window>, addr: u16, value: u8)
    ensures
        bus_image(windows).read(addr) == bus_read(windows, addr),
        bus_image(windows).write(addr, value) == bus_image(bus_write(windows, addr, value)),
{
    let written = bus_image(windows).write(addr, value);
    let direct = bus_image(bus_write(windows, addr, value));
    assert forall|writes: Seq<(u16, u8)>, a: u16| #[trigger]
        (written.after)(writes, a) == (direct.after)(writes, a) by {
        let all = seq![(addr, value)] + writes;
        assert(all.drop_first() =~= writes);
    }
    assert(written.after =~= direct.after);
}

/// Windows that do not hold an address can be skipped when reading it.
pub proof fn lemma_bus_read_skip(windows: Seq<Window>, addr: u16, n: int)
    requires
        0 <= n <= windows.len(),
        forall|i: int| 0 <= i < n ==> !windows[i].covers(addr),
    ensures
        bus_read(windows, addr) == bus_read(windows.skip(n), addr),
    decreases n,
{
    if n == 0 {
        assert(windows.skip(0) =~= windows);
    } else {
        lemma_bus_read_skip(windows.drop_first(), addr, n - 1);
        assert(windows.drop_first().skip(n - 1) =~= windows.skip(n));
    }
}

/// A read of an address that no window holds finds the bus open.
pub proof fn lemma_bus_read_unmapped(windows: Seq<Window>, addr: u16)
    requires
        forall|i: int| 0 <= i < windows.len() ==> !windows[i].covers(addr),
    ensures
        bus_read(windows, addr) == 0xFF,
{
    lemma_bus_read_skip(windows, addr, windows.len() as int);
}

/// A read goes to the first window that holds the address, with the address
/// less the window's start.
pub proof fn lemma_bus_read_first(windows: Seq<Window>, addr: u16, first: int)
    requires
        0 <= first < windows.len(),
        windows[first].covers(addr),
        forall|i: int| 0 <= i < first ==> !windows[i].covers(addr),
    ensures
        bus_read(windows, addr) == windows[first].device.read((addr - windows[first].from) as u16),
{
    lemma_bus_read_skip(windows, addr, first);
}

/// A bus: an ordered list of windows, each with the device behind it.
///
/// The windows may overlap. A read goes to the first window, in the order of
/// insertion, that holds the address, and returns `0xFF` if none does. A
/// write goes to every window that holds the address. A device sees the
/// address less its window's start.
pub struct SegmentedMemory {
    segments: Vec<(usize, usize, Box<dyn Memory>)>,
}

impl SegmentedMemory {
    /// The windows of the bus, in the order of insertion.
    pub closed spec fn windows(&self) -> Seq<Window> {
        Seq::new(
            self.segments@.len(),
            |i: int|
                Window {
                    from: self.segments@[i].0,
                    to: self.segments@[i].1,
                    device: self.segments@[i].2@,
                },
        )
    }

    /// A bus without windows.
    pub fn new() -> (bus: Self)
        ensures
            bus.windows() == Seq::<Window>::empty(),
    {
        let bus = Self { segments: Vec::new() };
        bus
    }

    /// The bus with one more window, after those it has: `memory` answers
    /// for the addresses from `from` up to `to`, `to` not included.
    pub fn add(self, from: usize, to: usize, memory: Box<dyn Memory>) -> (bus: Self)
        ensures
            bus.windows() == self.windows().push(Window { from, to, device: memory@ }),
    {
        let segment = (from, to, memory);
        let ghost entry = segment;
        let mut segments = self.segments;
        segments.push(segment);
        let bus = Self { segments };
        proof {
            // Verus does not apply its facts about sequences to sequences of
            // trait objects by itself.
            let n = self.segments@.len() as int;
            axiom_seq_push_len(self.segments@, entry);
            axiom_seq_push_index_same(self.segments@, entry, n);
            assert forall|i: int| 0 <= i < n implies bus.windows()[i] == self.windows()[i] by {
                axiom_seq_push_index_different(self.segments@, entry, i);
            }
        }
        bus
    }
}

impl Memory for SegmentedMemory {
    open spec fn view(&self) -> Image {
        bus_image(self.windows())
    }

    fn get_u8(&self, addr: u16) -> (value: u8)
        ensures
            value == bus_read(self.windows(), addr),
    {
        proof {
            lemma_bus_image(self.windows(), addr, 0);
        }
        let mut i: usize = 0;
        while i < self.segments.len()
            invariant
                i <= self.segments@.len(),
                forall|j: int| 0 <= j < i ==> !self.windows()[j].covers(addr),
            decreases self.segments@.len() - i,
        {
            let from = self.segments[i].0;
            let to = self.segments[i].1;
            if from <= (addr as usize) && (addr as usize) < to {
                proof {
                    lemma_bus_read_skip(self.windows(), addr, i as int);
                }
                return self.segments[i].2.get_u8(addr - (from as u16));
            }
            i = i + 1;
        }
        proof {
            lemma_bus_read_skip(self.windows(), addr, i as int);
        }
        0xFF
    }

    fn set_u8(&mut self, addr: u16, value: u8)
        ensures
            final(self).windows() == bus_write(old(self).windows(), addr, value),
    {
        proof {
            lemma_bus_image(self.windows(), addr, value);
        }
        let mut i: usize = 0;
        while i < self.segments.len()
            invariant
                i <= self.segments@.len(),
                self.windows().len() == old(self).windows().len(),
                forall|j: int|
                    0 <= j < i ==> #[trigger] self.windows()[j] == old(self).windows()[j].write(
                        addr,
                        value,
                    ),
                forall|j: int|
                    i <= j < self.segments@.len() ==> #[trigger] self.windows()[j] == old(
                        self,
                    ).windows()[j],
            decreases self.segments@.len() - i,
        {
            let from = self.segments[i].0;
            let to = self.segments[i].1;
            let ghost before = self.segments@;
            let ghost windows = self.windows();
            if from <= (addr as usize) && (addr as usize) < to {
                self.segments[i].2.set_u8(addr - (from as u16), value);
                proof {
                    let entry = self.segments@[i as int];
                    axiom_seq_update_len(before, i as int, entry);
                    axiom_seq_update_same(before, i as int, entry);
                    assert forall|j: int| 0 <= j < before.len() && j != i implies #[trigger]
                        self.windows()[j] == windows[j] by {
                        axiom_seq_update_different(before, j, i as int, entry);
                    }
                }
            }
            assert(self.windows()[i as int] == windows[i as int].write(addr, value));
            i = i + 1;
        }
        assert(self.windows() =~= bus_write(old(self).windows(), addr, value));
    }
}

} // verus!
