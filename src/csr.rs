use vstd::prelude::*;

verus! {

/// Number of control and status registers.
pub const CSR_COUNT: usize = 4096;

/// Address of the machine trap-vector register.
pub const MTVEC_ADDRESS: u32 = 0x305;

/// Addresses of the control and status registers the processor uses by name.
pub enum CsrAddresses {
    Mtvec,
}

impl CsrAddresses {
    /// The numeric address of this register.
    pub fn address(&self) -> (r: u32)
        ensures
            r == MTVEC_ADDRESS,
            r < CSR_COUNT,
    {
        match self {
            CsrAddresses::Mtvec => MTVEC_ADDRESS,
        }
    }
}

/// The control and status registers: 4096 words, addressed by number.
pub struct CsrHandler {
    data: Vec<u32>,
}

impl View for CsrHandler {
    type V = Seq<u32>;

    closed spec fn view(&self) -> Seq<u32> {
        self.data@
    }
}

impl CsrHandler {
    /// Holds one word per address.
    pub closed spec fn wf(&self) -> bool {
        self.data@.len() == CSR_COUNT
    }

    /// A well-formed CSR store holds 4096 registers.
    pub proof fn lemma_size(&self)
        requires
            self.wf(),
        ensures
            self@.len() == CSR_COUNT,
    {
    }

    /// Generate a new CsrHandler with every register at zero.
    pub fn new() -> (r: Self)
        ensures
            r.wf(),
            r@ == Seq::new(CSR_COUNT as nat, |i: int| 0u32),
    {
        let mut data: Vec<u32> = Vec::new();
        let mut i: usize = 0;
        while i < CSR_COUNT
            invariant
                i <= CSR_COUNT,
                data@ == Seq::new(i as nat, |j: int| 0u32),
            decreases CSR_COUNT - i,
        {
            data.push(0);
            i = i + 1;
            assert(data@ =~= Seq::new(i as nat, |j: int| 0u32));
        }
        Self { data }
    }

    /// Read the register at `addr`.
    pub fn read_csr(&mut self, addr: u32) -> (r: u32)
        requires
            old(self).wf(),
            addr < CSR_COUNT,
        ensures
            final(self).wf(),
            final(self)@ == old(self)@,
            r == old(self)@[addr as int],
    {
        self.data[addr as usize]
    }

    /// Write `data` to the register at `addr`.
    pub fn write_csr(&mut self, addr: u32, data: u32)
        requires
            old(self).wf(),
            addr < CSR_COUNT,
        ensures
            final(self).wf(),
            final(self)@ == old(self)@.update(addr as int, data),
    {
        self.data[addr as usize] = data;
    }
}

} // verus!
