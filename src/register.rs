use vstd::prelude::*;

verus! {

/// Number of cells in the I/O space: register addresses are one byte wide.
pub const IO_SPACE_SIZE: usize = 256;

/// One access to a register, as the device sees it.
#[derive(Clone, Copy, Debug, PartialEq, Eq, Structural)]
pub enum Access {
    Read { address: u8, value: u8 },
    Write { address: u8, value: u8 },
}

/// What a register bank holds: the value of each cell, the values the device
/// side has lined up for the coming reads of each address, and every access so
/// far, oldest first.
pub ghost struct BankState {
    pub cells: Seq<u8>,
    pub feeds: Seq<Seq<u8>>,
    pub log: Seq<Access>,
}

impl BankState {
    /// Every address has a cell and a queue.
    pub open spec fn wf(self) -> bool {
        &&& self.cells.len() == IO_SPACE_SIZE
        &&& self.feeds.len() == IO_SPACE_SIZE
    }

    /// What the next read of `address` returns: the first value lined up for
    /// it, or else what its cell holds.
    pub open spec fn next_value(self, address: u8) -> u8 {
        if self.feeds[address as int].len() > 0 {
            self.feeds[address as int][0]
        } else {
            self.cells[address as int]
        }
    }

    /// The state after one read of `address`: the value read is consumed from
    /// the queue, stays in the cell, and the access is recorded.
    pub open spec fn after_read(self, address: u8) -> BankState {
        let value = self.next_value(address);
        BankState {
            cells: self.cells.update(address as int, value),
            feeds: if self.feeds[address as int].len() > 0 {
                self.feeds.update(address as int, self.feeds[address as int].drop_first())
            } else {
                self.feeds
            },
            log: self.log.push(Access::Read { address, value }),
        }
    }

    /// The state after one write of `value` to `address`.
    pub open spec fn after_write(self, address: u8, value: u8) -> BankState {
        BankState {
            cells: self.cells.update(address as int, value),
            feeds: self.feeds,
            log: self.log.push(Access::Write { address, value }),
        }
    }
}

/// The I/O space that the registers live in, with a record of every access.
///
/// A cell changes through a write, through a read that consumes a value the
/// device side lined up (`device_feeds`), or when the device side sets it
/// (`device_sets`). Once its queue is empty, a read returns the cell unchanged.
pub struct RegisterBank {
    cells: Vec<u8>,
    feeds: Vec<Vec<u8>>,
    log: Vec<Access>,
}

impl View for RegisterBank {
    type V = BankState;

    closed spec fn view(&self) -> BankState {
        BankState {
            cells: self.cells@,
            feeds: self.feeds@.map_values(|q: Vec<u8>| q@),
            log: self.log@,
        }
    }
}

impl RegisterBank {
    /// Every address has a cell and a queue.
    pub open spec fn wf(&self) -> bool {
        self@.wf()
    }

    /// A bank whose cells all hold zero, with nothing lined up and no access
    /// seen.
    pub fn new() -> (r: RegisterBank)
        ensures
            r.wf(),
            r@.cells == Seq::new(IO_SPACE_SIZE as nat, |i: int| 0u8),
            r@.feeds == Seq::new(IO_SPACE_SIZE as nat, |i: int| Seq::<u8>::empty()),
            r@.log == Seq::<Access>::empty(),
    {
        let mut cells: Vec<u8> = Vec::new();
        let mut feeds: Vec<Vec<u8>> = Vec::new();
        let mut i: usize = 0;
        while i < IO_SPACE_SIZE
            invariant
                i <= IO_SPACE_SIZE,
                cells@ == Seq::new(i as nat, |j: int| 0u8),
                feeds@.len() == i,
                forall|j: int| 0 <= j < i ==> (#[trigger] feeds@[j])@ == Seq::<u8>::empty(),
            decreases IO_SPACE_SIZE - i,
        {
            cells.push(0u8);
            feeds.push(Vec::new());
            i = i + 1;
            assert(cells@ =~= Seq::new(i as nat, |j: int| 0u8));
        }
        let r = RegisterBank { cells, feeds, log: Vec::new() };
        assert(r@.feeds =~= Seq::new(IO_SPACE_SIZE as nat, |i: int| Seq::<u8>::empty()));
        r
    }

    /// The device side changes a cell (a status flag, say); this is no access.
    pub fn device_sets(&mut self, address: u8, value: u8)
        requires
            old(self).wf(),
        ensures
            final(self).wf(),
            final(self)@.cells == old(self)@.cells.update(address as int, value),
            final(self)@.feeds == old(self)@.feeds,
            final(self)@.log == old(self)@.log,
    {
        self.cells.set(address as usize, value);
    }

    /// The device side lines up `value` for a coming read of `address`, after
    /// the values already lined up; this is no access.
    pub fn device_feeds(&mut self, address: u8, value: u8)
        requires
            old(self).wf(),
        ensures
            final(self).wf(),
            final(self)@.cells == old(self)@.cells,
            final(self)@.feeds == old(self)@.feeds.update(
                address as int,
                old(self)@.feeds[address as int].push(value),
            ),
            final(self)@.log == old(self)@.log,
    {
        let a = address as usize;
        let mut queue = self.feeds.remove(a);
        queue.push(value);
        self.feeds.insert(a, queue);
        assert(self@.feeds =~= old(self)@.feeds.update(
            address as int,
            old(self)@.feeds[address as int].push(value),
        ));
    }

    /// The value a cell holds, without an access.
    pub fn peek(&self, address: u8) -> (r: u8)
        requires
            self.wf(),
        ensures
            r == self@.cells[address as int],
    {
        self.cells[address as usize]
    }

    /// Every access so far, oldest first.
    pub fn log(&self) -> (r: Vec<Access>)
        ensures
            r@ == self@.log,
    {
        self.log.clone()
    }

    /// Reads `address`: the next value lined up for it, or else its cell.
    pub fn read(&mut self, address: u8) -> (r: u8)
        requires
            old(self).wf(),
        ensures
            final(self).wf(),
            r == old(self)@.next_value(address),
            final(self)@ == old(self)@.after_read(address),
    {
        let a = address as usize;
        let value = if self.feeds[a].len() > 0 {
            let mut queue = self.feeds.remove(a);
            let first = queue.remove(0);
            self.feeds.insert(a, queue);
            assert(self@.feeds =~= old(self)@.feeds.update(
                address as int,
                old(self)@.feeds[address as int].drop_first(),
            ));
            self.cells.set(a, first);
            first
        } else {
            self.cells[a]
        };
        self.log.push(Access::Read { address, value });
        proof {
            assert(self@.cells =~= old(self)@.after_read(address).cells);
        }
        value
    }

    /// Writes a cell, and records the access.
    pub fn write(&mut self, address: u8, value: u8)
        requires
            old(self).wf(),
        ensures
            final(self).wf(),
            final(self)@ == old(self)@.after_write(address, value),
    {
        self.cells.set(address as usize, value);
        self.log.push(Access::Write { address, value });
    }
}

/// One hardware register: a fixed address in the I/O space.
pub struct Register {
    address: u8,
}

impl Register {
    /// The register's address.
    pub closed spec fn spec_address(&self) -> u8 {
        self.address
    }

    /// The register at `address`.
    pub fn from(address: u8) -> (r: Register)
        ensures
            r.spec_address() == address,
    {
        Register { address }
    }

    /// The register's address.
    #[verifier::when_used_as_spec(spec_address)]
    pub fn address(&self) -> (r: u8)
        ensures
            r == self.spec_address(),
    {
        self.address
    }

    /// One access that loads the register's current value.
    pub fn read(&self, io: &mut RegisterBank) -> (r: u8)
        requires
            old(io).wf(),
        ensures
            final(io).wf(),
            r == old(io)@.next_value(self.spec_address()),
            final(io)@ == old(io)@.after_read(self.spec_address()),
    {
        io.read(self.address)
    }

    /// One access that stores `byte` in the register.
    pub fn write(&self, io: &mut RegisterBank, byte: u8)
        requires
            old(io).wf(),
        ensures
            final(io).wf(),
            final(io)@ == old(io)@.after_write(self.spec_address(), byte),
    {
        io.write(self.address, byte)
    }
}

} // verus!
