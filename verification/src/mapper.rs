use vstd::prelude::*;

verus! {

/// Size of the 16-bit address space the CPU sees.
pub const ADDRESS_SPACE_SIZE: usize = 0x10000;

/// Something the CPU can read bytes from and write bytes to, over the 16-bit address space.
///
/// An implementation is described by the bytes every address reads (`mem`) and by whether
/// a write is kept (`retains_writes`); a space that drops writes reads the same after them.
pub trait AddressSpace {
    /// The space can serve every 16-bit address.
    spec fn valid(&self) -> bool;

    /// What each address reads, indexed by the address.
    spec fn mem(&self) -> Seq<u8>;

    /// Whether a write changes what its address reads.
    spec fn retains_writes(&self) -> bool;

    /// A valid space reads one byte for each 16-bit address.
    proof fn lemma_valid_size(&self)
        requires
            self.valid(),
        ensures
            self.mem().len() == ADDRESS_SPACE_SIZE,
    ;

    /// Whether the space can serve every 16-bit address.
    fn is_valid(&self) -> (b: bool)
        ensures
            b == self.valid(),
    ;

    fn peek(&self, ptr: u16) -> (v: u8)
        requires
            self.valid(),
        ensures
            v == self.mem()[ptr as int],
    ;

    fn poke(&mut self, ptr: u16, v: u8)
        requires
            old(self).valid(),
        ensures
            final(self).valid(),
            final(self).retains_writes() == old(self).retains_writes(),
            final(self).mem() == (if old(self).retains_writes() {
                old(self).mem().update(ptr as int, v)
            } else {
                old(self).mem()
            }),
    ;
}

/// An address space with nothing behind it: every read gives 0 and writes are dropped.
pub struct NullAddressSpace {}

impl NullAddressSpace {
    pub fn new() -> (r: NullAddressSpace)
        ensures
            r.valid(),
    {
        NullAddressSpace {}
    }
}

impl AddressSpace for NullAddressSpace {
    open spec fn valid(&self) -> bool {
        true
    }

    open spec fn mem(&self) -> Seq<u8> {
        Seq::new(ADDRESS_SPACE_SIZE as nat, |i: int| 0u8)
    }

    open spec fn retains_writes(&self) -> bool {
        false
    }

    proof fn lemma_valid_size(&self) {
    }

    fn is_valid(&self) -> (b: bool) {
        true
    }

    fn peek(&self, ptr: u16) -> (v: u8) {
        0
    }

    fn poke(&mut self, ptr: u16, v: u8) {
    }
}

/// Plain read/write memory of a given number of bytes, all zero at first.
///
/// It serves the whole address space when it holds at least `ADDRESS_SPACE_SIZE` bytes.
pub struct Ram {
    bytes: Vec<u8>,
}

impl View for Ram {
    type V = Seq<u8>;

    closed spec fn view(&self) -> Seq<u8> {
        self.bytes@
    }
}

impl Ram {
    pub fn new(size: usize) -> (r: Ram)
        ensures
            r@ == Seq::new(size as nat, |i: int| 0u8),
    {
        let mut bytes: Vec<u8> = Vec::new();
        let mut i: usize = 0;
        while i < size
            invariant
                i <= size,
                bytes@ == Seq::new(i as nat, |j: int| 0u8),
            decreases size - i,
        {
            bytes.push(0);
            i = i + 1;
            assert(bytes@ =~= Seq::new(i as nat, |j: int| 0u8));
        }
        Ram { bytes }
    }
}

impl AddressSpace for Ram {
    open spec fn valid(&self) -> bool {
        self@.len() >= ADDRESS_SPACE_SIZE
    }

    open spec fn mem(&self) -> Seq<u8> {
        self@.subrange(0, ADDRESS_SPACE_SIZE as int)
    }

    open spec fn retains_writes(&self) -> bool {
        true
    }

    proof fn lemma_valid_size(&self) {
    }

    fn is_valid(&self) -> (b: bool) {
        self.bytes.len() >= ADDRESS_SPACE_SIZE
    }

    fn peek(&self, ptr: u16) -> (v: u8) {
        self.bytes[ptr as usize]
    }

    fn poke(&mut self, ptr: u16, v: u8) {
        let ghost before = self@;
        self.bytes.set(ptr as usize, v);
        assert(self@.subrange(0, ADDRESS_SPACE_SIZE as int) =~= before.subrange(
            0,
            ADDRESS_SPACE_SIZE as int,
        ).update(ptr as int, v));
    }
}

} // verus!
