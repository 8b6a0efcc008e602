use vstd::prelude::*;
use crate::arith::{high_byte, lemma_bytes_and_words, low_byte, word, wrap16};

verus! {

/// The address `offset` places after `addr`, wrapping at 2^16.
pub open spec fn address_after(addr: u16, offset: int) -> u16 {
    wrap16(addr + offset)
}

/// What a device looks like from the bus: the byte that a read at any
/// address returns, now and after any sequence of further writes.
///
/// Two devices with the same image cannot be told apart by reading and
/// writing them. A device with registers behind its addresses has an image
/// as well as plain storage has: `after` folds the writes into whatever state
/// the device keeps.
pub ghost struct Image {
    /// The byte read at the address once the writes, each an address and a
    /// byte, have been applied in order.
    pub after: spec_fn(Seq<(u16, u8)>, u16) -> u8,
}

impl Image {
    /// The byte that a read at `addr` returns.
    pub open spec fn read(self, addr: u16) -> u8 {
        (self.after)(Seq::empty(), addr)
    }

    /// The image of the device once `value` has been written at `addr`.
    pub open spec fn write(self, addr: u16, value: u8) -> Image {
        Image {
            after: |writes: Seq<(u16, u8)>, a: u16| (self.after)(seq![(addr, value)] + writes, a),
        }
    }

    /// The little-endian word at `addr`: low byte at `addr`, high byte at the
    /// next address, which wraps at 2^16.
    pub open spec fn read_word(self, addr: u16) -> u16 {
        word(self.read(address_after(addr, 1)), self.read(addr))
    }

    /// The image once `value` has been stored little-endian at `addr`: the
    /// low byte first, at `addr`, then the high byte at the next address.
    pub open spec fn write_word(self, addr: u16, value: u16) -> Image {
        self.write(addr, low_byte(value)).write(address_after(addr, 1), high_byte(value))
    }

    /// Whether the word `value`, once written at `addr`, reads back from there.
    pub open spec fn keeps_word(self, addr: u16, value: u16) -> bool {
        self.write_word(addr, value).read_word(addr) == value
    }

    /// The bytes at `from`, `from + 1`, ... up to but not including `to`;
    /// nothing when `to` is not above `from`.
    pub open spec fn read_range(self, from: u16, to: u16) -> Seq<u8> {
        Seq::new(
            if from < to { (to - from) as nat } else { 0 },
            |i: int| self.read((from + i) as u16),
        )
    }

    /// The image once the bytes of `data` have been written at `addr`,
    /// `addr + 1`, ... in order, the address wrapping at 2^16.
    pub open spec fn write_range(self, addr: u16, data: Seq<u8>) -> Image
        decreases data.len(),
    {
        if data.len() == 0 {
            self
        } else {
            self.write(addr, data[0]).write_range(address_after(addr, 1), data.drop_first())
        }
    }
}

/// A byte-addressable device on a 16-bit address space.
///
/// `get_u8` and `set_u8` are the two primitives. The others are composed of
/// them; an implementation may replace any of them, and must keep what each
/// one promises here.
pub trait Memory {
    /// The image of this device.
    ///
    /// A device that is to be verified says here what it shows. One that is
    /// written outside Verus may leave this out: its image is then some
    /// image of which nothing is known.
    open spec fn view(&self) -> Image {
        arbitrary()
    }

    /// Reads the byte at `addr`.
    fn get_u8(&self, addr: u16) -> (value: u8)
        ensures
            value == self@.read(addr),
    ;

    /// Writes `value` at `addr`.
    fn set_u8(&mut self, addr: u16, value: u8)
        ensures
            final(self)@ == old(self)@.write(addr, value),
    ;

    /// Reads the bytes from `from` up to `to`, `to` not included.
    fn get_range(&self, from: u16, to: u16) -> (bytes: Vec<u8>)
        ensures
            bytes@ == self@.read_range(from, to),
    {
        let mut result: Vec<u8> = Vec::new();
        let mut at: u16 = from;
        while at < to
            invariant
                from <= at,
                from < to ==> at <= to,
                from >= to ==> at == from,
                result@.len() == at - from,
                forall|i: int| 0 <= i < result@.len() ==> result@[i] == self@.read((from + i) as u16),
            decreases to - at,
        {
            result.push(self.get_u8(at));
            at = at.wrapping_add(1);
        }
        result
    }

    /// Writes the bytes of `data` at `addr` and the addresses after it.
    fn set_range(&mut self, addr: u16, data: &[u8])
        ensures
            final(self)@ == old(self)@.write_range(addr, data@),
    {
        let mut at: u16 = addr;
        let mut i: usize = 0;
        assert(data@.skip(0) =~= data@);
        while i < data.len()
            invariant
                i <= data@.len(),
                self@.write_range(at, data@.skip(i as int)) == old(self)@.write_range(addr, data@),
            decreases data@.len() - i,
        {
            proof {
                assert(data@.skip(i as int).drop_first() =~= data@.skip(i + 1));
            }
            self.set_u8(at, data[i]);
            at = at.wrapping_add(1);
            i = i + 1;
        }
    }

    /// Reads the bytes at `addr` and at the next address, in that order.
    fn get_u8_u8(&self, addr: u16) -> (pair: (u8, u8))
        ensures
            pair.0 == self@.read(addr),
            pair.1 == self@.read(address_after(addr, 1)),
    {
        (self.get_u8(addr), self.get_u8(addr.wrapping_add(1)))
    }

    /// Reads the little-endian word at `addr`.
    fn get_u16(&self, addr: u16) -> (value: u16)
        ensures
            value == self@.read_word(addr),
    {
        let (l, h) = self.get_u8_u8(addr);
        proof {
            lemma_bytes_and_words(h, l, 0);
        }
        (h as u16) << 8 | (l as u16)
    }

    /// Writes `pair.0` at `addr`, then `pair.1` at the next address.
    fn set_u8_u8(&mut self, addr: u16, pair: (u8, u8))
        ensures
            final(self)@ == old(self)@.write(addr, pair.0).write(address_after(addr, 1), pair.1),
    {
        self.set_u8(addr, pair.0);
        self.set_u8(addr.wrapping_add(1), pair.1);
    }

    /// Writes `value` little-endian at `addr`.
    fn set_u16(&mut self, addr: u16, value: u16)
        ensures
            final(self)@ == old(self)@.write_word(addr, value),
    {
        proof {
            lemma_bytes_and_words(0, 0, value);
        }
        let h = (value >> 8) as u8;
        let l = (value & 0xFF) as u8;
        self.set_u8_u8(addr, (l, h));
    }

    /// Exchanges the byte at `addr` with the caller's byte.
    fn swap(&mut self, addr: u16, value: &mut u8)
        ensures
            *final(value) == old(self)@.read(addr),
            final(self)@ == old(self)@.write(addr, *old(value)),
    {
        let m = self.get_u8(addr);
        self.set_u8(addr, *value);
        *value = m;
    }
}

} // verus!
