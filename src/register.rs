use vstd::prelude::*;

verus! {

/// Width in bytes of every register handled by this library (32-bit registers).
pub const REGISTER_BYTES: u32 = 4;

/// A contiguous range of peripheral address space, `[base, base + size)`.
#[derive(Clone, Copy, Debug, PartialEq, Eq, Structural)]
pub struct PeripheralWindow {
    pub base: u32,
    pub size: u32,
}

impl PeripheralWindow {
    /// The whole register at `address` lies inside this window.
    pub open spec fn holds(self, address: u32) -> bool {
        self.base <= address && address + REGISTER_BYTES <= self.base + self.size
    }

    pub fn contains(&self, address: u32) -> (r: bool)
        ensures
            r == self.holds(address),
    {
        (self.base as u64) <= (address as u64) && (address as u64) + (REGISTER_BYTES as u64)
            <= (self.base as u64) + (self.size as u64)
    }
}

/// Some window of `windows` holds the register at `address`.
pub open spec fn covers(windows: Seq<PeripheralWindow>, address: u32) -> bool {
    exists|i: int| 0 <= i < windows.len() && #[trigger] windows[i].holds(address)
}

/// The peripheral windows of a chip: the addresses at which registers may be issued.
pub struct MemoryMap {
    windows: Vec<PeripheralWindow>,
}

impl View for MemoryMap {
    type V = Seq<PeripheralWindow>;

    closed spec fn view(&self) -> Seq<PeripheralWindow> {
        self.windows@
    }
}

impl MemoryMap {
    pub fn new() -> (m: MemoryMap)
        ensures
            m@ == Seq::<PeripheralWindow>::empty(),
    {
        MemoryMap { windows: Vec::new() }
    }

    pub fn add_window(&mut self, window: PeripheralWindow)
        ensures
            final(self)@ == old(self)@.push(window),
    {
        self.windows.push(window);
    }

    pub fn contains(&self, address: u32) -> (r: bool)
        ensures
            r == covers(self@, address),
    {
        let mut i: usize = 0;
        while i < self.windows.len()
            invariant
                i <= self.windows@.len(),
                forall|j: int| 0 <= j < i ==> !(#[trigger] self.windows@[j]).holds(address),
            decreases self.windows@.len() - i,
        {
            if self.windows[i].contains(address) {
                assert(self@[i as int].holds(address));
                return true;
            }
            i = i + 1;
        }
        false
    }
}

#[derive(Clone, Copy, Debug, PartialEq, Eq, Structural)]
pub enum RegisterError {
    /// The address is not a multiple of the register width.
    MisalignedAddress,
    /// No peripheral window holds the register.
    OutOfRange,
}

/// `current` with the bits under `mask` replaced by those of `value`.
pub open spec fn masked_update(current: u32, mask: u32, value: u32) -> u32 {
    (current & !mask) | (value & mask)
}

/// The handle to one 32-bit register. It carries the register's address, which is
/// aligned and lies in a peripheral window, and the register's current contents:
/// every read and write of the register goes through the handle that owns it.
#[derive(Debug)]
pub struct RegisterAccess {
    address: u32,
    value: u32,
}

impl RegisterAccess {
    #[verifier::type_invariant]
    spec fn aligned(self) -> bool {
        self.address % REGISTER_BYTES == 0
    }

    pub closed spec fn addr(self) -> u32 {
        self.address
    }

    pub closed spec fn contents(self) -> u32 {
        self.value
    }

    /// Issues the handle to the register at `address`, whose contents start at the
    /// reset value zero.
    pub fn new(address: u32, map: &MemoryMap) -> (r: Result<RegisterAccess, RegisterError>)
        ensures
            r == Err::<RegisterAccess, RegisterError>(RegisterError::MisalignedAddress) <==> address
                % REGISTER_BYTES != 0,
            r == Err::<RegisterAccess, RegisterError>(RegisterError::OutOfRange) <==> (address
                % REGISTER_BYTES == 0 && !covers(map@, address)),
            r is Ok <==> (address % REGISTER_BYTES == 0 && covers(map@, address)),
            r matches Ok(reg) ==> reg.addr() == address && reg.contents() == 0,
    {
        if address % REGISTER_BYTES != 0 {
            Err(RegisterError::MisalignedAddress)
        } else if !map.contains(address) {
            Err(RegisterError::OutOfRange)
        } else {
            Ok(RegisterAccess { address, value: 0 })
        }
    }

    pub fn address(&self) -> (r: u32)
        ensures
            r == self.addr(),
            r % REGISTER_BYTES == 0,
    {
        proof {
            use_type_invariant(self);
        }
        self.address
    }

    pub fn read(&self) -> (r: u32)
        ensures
            r == self.contents(),
    {
        self.value
    }

    pub fn write(&mut self, value: u32)
        ensures
            final(self).addr() == old(self).addr(),
            final(self).contents() == value,
        no_unwind
    {
        proof {
            use_type_invariant(&*self);
        }
        self.value = value;
    }

    /// Clears the bits under `mask` and sets those of `value & mask`, in one
    /// read-modify-write; the caller must own the register for its whole duration.
    pub fn modify(&mut self, mask: u32, value: u32)
        ensures
            final(self).addr() == old(self).addr(),
            final(self).contents() == masked_update(old(self).contents(), mask, value),
    {
        let current = self.read();
        self.write((current & !mask) | (value & mask));
    }
}

} // verus!
