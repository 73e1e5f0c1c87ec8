use vstd::prelude::*;

verus! {

/// Bytes in a 512k RAM chip.
pub const RAM_512K_SIZE: usize = 0x80000;

/// Bytes in a 1m RAM or ROM chip.
pub const CHIP_1M_SIZE: usize = 0x10_0000;

/// `addr + k`, wrapping at 2^32.
pub open spec fn offset_address(addr: u32, k: u32) -> u32 {
    ((addr as int + k as int) % 0x1_0000_0000) as u32
}

/// The byte a memory holds at an address.
pub open spec fn byte_at<M: MemoryAccess>(m: &M, addr: u32) -> u8 {
    m.cells()[M::cell_of(addr)]
}

/// The half word a memory holds at an address: two bytes, low byte first.
pub open spec fn half_at<M: MemoryAccess>(m: &M, addr: u32) -> u16 {
    (byte_at(m, addr) as u16) | ((byte_at(m, offset_address(addr, 1)) as u16) << 8)
}

/// The word a memory holds at an address: four bytes, low byte first.
pub open spec fn word_at<M: MemoryAccess>(m: &M, addr: u32) -> u32 {
    (byte_at(m, addr) as u32) | ((byte_at(m, offset_address(addr, 1)) as u32) << 8) | ((byte_at(
        m,
        offset_address(addr, 2),
    ) as u32) << 16) | ((byte_at(m, offset_address(addr, 3)) as u32) << 24)
}

/// The cells of a memory of type `M` after a byte is written at `addr`.
pub open spec fn cells_after_write<M: MemoryAccess>(cells: Seq<u8>, addr: u32, data: u8) -> Seq<
    u8,
> {
    if M::read_only() {
        cells
    } else {
        cells.update(M::cell_of(addr), data)
    }
}

/// Byte `k` (from the low end) of a word.
pub open spec fn byte_of(v: u32, k: u32) -> u8 {
    ((v >> ((8 * k) as u32)) & 0xFF) as u8
}

/// Byte-addressed memory.
pub trait MemoryAccess: Sized {
    /// The bytes held, one per storage cell.
    spec fn cells(&self) -> Seq<u8>;

    /// The storage cell an address selects.
    spec fn cell_of(addr: u32) -> int;

    /// Whether writes are ignored.
    spec fn read_only() -> bool;

    /// The memory holds all its cells.
    spec fn wf(&self) -> bool;

    /// Read a byte from memory.
    fn read_byte(&self, addr: u32) -> (r: u8)
        requires
            self.wf(),
        ensures
            r == self.cells()[Self::cell_of(addr)],
    ;

    /// Write a byte to memory.
    fn write_byte(&mut self, addr: u32, data: u8)
        requires
            old(self).wf(),
        ensures
            final(self).wf(),
            final(self).cells() == if Self::read_only() {
                old(self).cells()
            } else {
                old(self).cells().update(Self::cell_of(addr), data)
            },
    ;
}

/// Memory accessed by half words.
pub trait MemoryAccess16: MemoryAccess {
    /// Read a half word from memory.
    fn read_u16(&self, addr: u32) -> (r: u16)
        requires
            self.wf(),
        ensures
            r == half_at(self, addr),
    ;

    /// Write a half word to memory, low byte first.
    fn write_u16(&mut self, addr: u32, data: u16)
        requires
            old(self).wf(),
        ensures
            final(self).wf(),
            final(self).cells() == cells_after_write::<Self>(
                cells_after_write::<Self>(old(self).cells(), addr, byte_of(data as u32, 0)),
                offset_address(addr, 1),
                byte_of(data as u32, 1),
            ),
    ;
}

/// Memory accessed by words.
pub trait MemoryAccess32: MemoryAccess16 {
    /// Read a word from memory.
    fn read_u32(&self, addr: u32) -> (r: u32)
        requires
            self.wf(),
        ensures
            r == word_at(self, addr),
    ;

    /// Write a word to memory, low byte first.
    fn write_u32(&mut self, addr: u32, data: u32)
        requires
            old(self).wf(),
        ensures
            final(self).wf(),
            final(self).cells() == cells_after_write::<Self>(
                cells_after_write::<Self>(
                    cells_after_write::<Self>(
                        cells_after_write::<Self>(old(self).cells(), addr, byte_of(data, 0)),
                        offset_address(addr, 1),
                        byte_of(data, 1),
                    ),
                    offset_address(addr, 2),
                    byte_of(data, 2),
                ),
                offset_address(addr, 3),
                byte_of(data, 3),
            ),
    ;
}

/// A vector of `n` zero bytes.
fn zeroed_bytes(n: usize) -> (r: Vec<u8>)
    ensures
        r@ == Seq::new(n as nat, |i: int| 0u8),
{
    let mut v: Vec<u8> = Vec::new();
    let mut i: usize = 0;
    while i < n
        invariant
            i <= n,
            v@ == Seq::new(i as nat, |j: int| 0u8),
        decreases n - i,
    {
        v.push(0);
        i = i + 1;
        assert(v@ =~= Seq::new(i as nat, |j: int| 0u8));
    }
    v
}

/// RAM chip (512k).
pub struct Ram512k {
    memory: Vec<u8>,
}

impl Ram512k {
    /// Generate a new 512k RAM chip, cleared.
    pub fn new() -> (r: Self)
        ensures
            r.wf(),
            r.cells() == Seq::new(RAM_512K_SIZE as nat, |i: int| 0u8),
    {
        Self { memory: zeroed_bytes(RAM_512K_SIZE) }
    }
}

impl MemoryAccess for Ram512k {
    closed spec fn cells(&self) -> Seq<u8> {
        self.memory@
    }

    open spec fn cell_of(addr: u32) -> int {
        (addr & 0x7FFFF) as int
    }

    open spec fn read_only() -> bool {
        false
    }

    closed spec fn wf(&self) -> bool {
        self.memory@.len() == RAM_512K_SIZE
    }

    fn read_byte(&self, addr: u32) -> (r: u8) {
        assert(addr & 0x7FFFF < 0x80000) by (bit_vector);
        self.memory[(addr & 0x7FFFF) as usize]
    }

    fn write_byte(&mut self, addr: u32, data: u8) {
        assert(addr & 0x7FFFF < 0x80000) by (bit_vector);
        self.memory[(addr & 0x7FFFF) as usize] = data;
    }
}

/// RAM chip (1m).
pub struct Ram1m {
    memory: Vec<u8>,
}

impl Ram1m {
    /// Generate a new 1m RAM chip, cleared.
    pub fn new() -> (r: Self)
        ensures
            r.wf(),
            r.cells() == Seq::new(CHIP_1M_SIZE as nat, |i: int| 0u8),
    {
        Self { memory: zeroed_bytes(CHIP_1M_SIZE) }
    }
}

impl MemoryAccess for Ram1m {
    closed spec fn cells(&self) -> Seq<u8> {
        self.memory@
    }

    open spec fn cell_of(addr: u32) -> int {
        (addr & 0xFFFFF) as int
    }

    open spec fn read_only() -> bool {
        false
    }

    closed spec fn wf(&self) -> bool {
        self.memory@.len() == CHIP_1M_SIZE
    }

    fn read_byte(&self, addr: u32) -> (r: u8) {
        assert(addr & 0xFFFFF < 0x100000) by (bit_vector);
        self.memory[(addr & 0xFFFFF) as usize]
    }

    fn write_byte(&mut self, addr: u32, data: u8) {
        assert(addr & 0xFFFFF < 0x100000) by (bit_vector);
        self.memory[(addr & 0xFFFFF) as usize] = data;
    }
}

/// ROM chip (1m): reads like RAM and ignores writes.
pub struct Rom1m {
    memory: Vec<u8>,
}

impl Rom1m {
    /// Generate a new 1m ROM chip, cleared.
    pub fn new() -> (r: Self)
        ensures
            r.wf(),
            r.cells() == Seq::new(CHIP_1M_SIZE as nat, |i: int| 0u8),
    {
        Self { memory: zeroed_bytes(CHIP_1M_SIZE) }
    }
}

impl MemoryAccess for Rom1m {
    closed spec fn cells(&self) -> Seq<u8> {
        self.memory@
    }

    open spec fn cell_of(addr: u32) -> int {
        (addr & 0xFFFFF) as int
    }

    open spec fn read_only() -> bool {
        true
    }

    closed spec fn wf(&self) -> bool {
        self.memory@.len() == CHIP_1M_SIZE
    }

    fn read_byte(&self, addr: u32) -> (r: u8) {
        assert(addr & 0xFFFFF < 0x100000) by (bit_vector);
        self.memory[(addr & 0xFFFFF) as usize]
    }

    fn write_byte(&mut self, _addr: u32, _data: u8) {
    }
}

/// The motherboard's memory: two 512k RAM chips, the second selected by
/// address bit 19, so that addresses wrap every 1m.
pub struct MotherboardMemory {
    ram0: Ram512k,
    ram1: Ram512k,
}

impl MotherboardMemory {
    /// Generate a new MotherboardMemory, cleared.
    pub fn new() -> (r: Self)
        ensures
            r.wf(),
            r.cells() == Seq::new(CHIP_1M_SIZE as nat, |i: int| 0u8),
    {
        let r = Self { ram0: Ram512k::new(), ram1: Ram512k::new() };
        assert(r.wf());
        assert(r.cells() =~= Seq::new(CHIP_1M_SIZE as nat, |i: int| 0u8));
        r
    }
}

impl MotherboardMemory {
    /// A well-formed motherboard memory has 1m cells.
    pub proof fn lemma_size(&self)
        requires
            self.wf(),
        ensures
            self.cells().len() == CHIP_1M_SIZE,
    {
    }
}

proof fn lemma_bank_split(addr: u32)
    ensures
        addr & 0x80000 > 0 ==> (addr & 0xFFFFF) == (addr & 0x7FFFF) + 0x80000,
        !(addr & 0x80000 > 0) ==> (addr & 0xFFFFF) == (addr & 0x7FFFF),
        addr & 0x7FFFF < 0x80000,
{
    assert(addr & 0x80000 > 0 ==> (addr & 0xFFFFF) == (addr & 0x7FFFF) + 0x80000) by (bit_vector);
    assert(!(addr & 0x80000 > 0) ==> (addr & 0xFFFFF) == (addr & 0x7FFFF)) by (bit_vector);
    assert(addr & 0x7FFFF < 0x80000) by (bit_vector);
}

impl MemoryAccess for MotherboardMemory {
    closed spec fn cells(&self) -> Seq<u8> {
        self.ram0.cells() + self.ram1.cells()
    }

    open spec fn cell_of(addr: u32) -> int {
        (addr & 0xFFFFF) as int
    }

    open spec fn read_only() -> bool {
        false
    }

    closed spec fn wf(&self) -> bool {
        self.ram0.wf() && self.ram1.wf()
    }

    fn read_byte(&self, addr: u32) -> (r: u8) {
        proof {
            lemma_bank_split(addr);
        }
        if addr & 0x80000 > 0 {
            self.ram1.read_byte(addr)
        } else {
            self.ram0.read_byte(addr)
        }
    }

    fn write_byte(&mut self, addr: u32, data: u8) {
        proof {
            lemma_bank_split(addr);
        }
        if addr & 0x80000 > 0 {
            self.ram1.write_byte(addr, data)
        } else {
            self.ram0.write_byte(addr, data)
        }
        assert(self.cells() =~= old(self).cells().update((addr & 0xFFFFF) as int, data));
    }
}

impl MemoryAccess16 for MotherboardMemory {
    fn read_u16(&self, addr: u32) -> (r: u16) {
        (self.read_byte(addr) as u16) | ((self.read_byte(addr.wrapping_add(1)) as u16) << 8)
    }

    fn write_u16(&mut self, addr: u32, data: u16) {
        assert((data & 0xFF) as u8 == byte_of(data as u32, 0) && ((data & 0xFF00) >> 8) as u8
            == byte_of(data as u32, 1)) by (bit_vector);
        self.write_byte(addr, (data & 0x00FF) as u8);
        self.write_byte(addr.wrapping_add(1), ((data & 0xFF00) >> 8) as u8);
    }
}

impl MemoryAccess32 for MotherboardMemory {
    fn read_u32(&self, addr: u32) -> (r: u32) {
        (self.read_byte(addr) as u32) | ((self.read_byte(addr.wrapping_add(1)) as u32) << 8) | ((
        self.read_byte(addr.wrapping_add(2)) as u32) << 16) | ((self.read_byte(
            addr.wrapping_add(3),
        ) as u32) << 24)
    }

    fn write_u32(&mut self, addr: u32, data: u32) {
        assert((data & 0xFF) as u8 == byte_of(data, 0) && ((data & 0xFF00) >> 8) as u8 == byte_of(
            data,
            1,
        ) && ((data & 0xFF_0000) >> 16) as u8 == byte_of(data, 2) && ((data & 0xFF00_0000) >> 24)
            as u8 == byte_of(data, 3)) by (bit_vector);
        self.write_byte(addr, (data & 0x0000_00FF) as u8);
        self.write_byte(addr.wrapping_add(1), ((data & 0x0000_FF00) >> 8) as u8);
        self.write_byte(addr.wrapping_add(2), ((data & 0x00FF_0000) >> 16) as u8);
        self.write_byte(addr.wrapping_add(3), ((data & 0xFF00_0000) >> 24) as u8);
    }
}

} // verus!
