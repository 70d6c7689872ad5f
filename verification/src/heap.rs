//! The bulk allocator: regions of addresses taken from the process heap,
//! handed out from the bottom up and never taken back.
//!
//! Every request is served from the current region by advancing a single
//! offset, so that no two blocks ever share an address. When the current
//! region cannot serve a request the arena continues in a further region
//! from the system; only the system's refusal to give one is a failure, and
//! the fault policy makes that failure fatal. Giving a block back does
//! nothing: everything goes back to the system when the process ends.

use vstd::arithmetic::div_mod::{lemma_fundamental_div_mod, lemma_mod_multiples_basic};
use vstd::prelude::*;

verus! {

/// The least number of bytes the program takes from the process heap at a time.
pub const DEFAULT_CAPACITY: usize = 0x10_0000;

/// A block of memory: the addresses from `addr` up to, not including,
/// `addr + size`.
#[derive(Clone, Copy, Debug, PartialEq, Eq, Structural)]
pub struct Block {
    /// The first address of the block.
    pub addr: usize,
    /// The number of bytes in the block.
    pub size: usize,
}

impl Block {
    /// The address just past the block.
    pub open spec fn end(self) -> int {
        self.addr + self.size
    }

    /// Whether `address` belongs to the block.
    pub open spec fn contains(self, address: int) -> bool {
        self.addr <= address < self.end()
    }

    /// Whether the two blocks lie apart: one ends where or before the other
    /// begins, so that they share no address.
    pub open spec fn apart(self, other: Block) -> bool {
        self.end() <= other.addr || other.end() <= self.addr
    }

    /// Whether the block lies inside the region of `capacity` bytes at `base`.
    pub open spec fn within(self, base: usize, capacity: usize) -> bool {
        base <= self.addr && self.end() <= base + capacity
    }

    /// Whether `inner` lies inside this block.
    pub open spec fn holds(self, inner: Block) -> bool {
        self.addr <= inner.addr && inner.end() <= self.end()
    }
}

/// The least multiple of `align` that is not below `address`.
pub open spec fn aligned_up(address: int, align: int) -> int {
    if address % align == 0 {
        address
    } else {
        address + align - address % align
    }
}

/// `aligned_up` is a multiple of the alignment, not below the address and
/// less than one alignment above it.
pub proof fn lemma_aligned_up(address: int, align: int)
    requires
        0 <= address,
        0 < align,
    ensures
        aligned_up(address, align) % align == 0,
        address <= aligned_up(address, align) < address + align,
{
    let r = address % align;
    if r != 0 {
        let q = address / align;
        lemma_fundamental_div_mod(address, align);
        assert(address + align - r == (q + 1) * align) by (nonlinear_arith)
            requires
                address == align * q + r,
        ;
        lemma_mod_multiples_basic(q + 1, align);
    }
}

/// What an [`Arena`] holds.
pub struct ArenaView {
    /// The first address of the current region.
    pub base: usize,
    /// The number of bytes in the current region.
    pub capacity: usize,
    /// The number of bytes of the current region, counted from `base`, that
    /// are no longer free.
    pub used: usize,
    /// Every region the arena was given, in the order it took them.
    pub regions: Seq<Block>,
    /// Every block handed out so far, in the order of the requests.
    pub blocks: Seq<Block>,
}

/// Whether `block` lies inside one of `regions`.
pub open spec fn housed(block: Block, regions: Seq<Block>) -> bool {
    exists|k: int| 0 <= k < regions.len() && (#[trigger] regions[k]).holds(block)
}

/// The block that serves a request for `size` bytes aligned to `align` from
/// the current region: it starts at the first aligned address that is still
/// free, if `size` bytes fit between there and the end of the region. An
/// alignment of 0 is served by no block.
pub open spec fn placement(view: ArenaView, size: usize, align: usize) -> Option<Block> {
    if align == 0 {
        None
    } else {
        let start = aligned_up(view.base + view.used, align as int);
        if start + size <= view.base + view.capacity {
            Some(Block { addr: start as usize, size })
        } else {
            None
        }
    }
}

/// The size of a further region that is sure to serve a request for `size`
/// bytes aligned to `align` wherever the region lies: room for the block and
/// for the padding in front of it, and at least [`DEFAULT_CAPACITY`]. No
/// region serves an alignment of 0 or a request that does not fit the
/// address space.
pub open spec fn spec_region_for(size: usize, align: usize) -> Option<usize> {
    if align == 0 || size + align > usize::MAX {
        None
    } else if size + align < DEFAULT_CAPACITY {
        Some(DEFAULT_CAPACITY)
    } else {
        Some((size + align) as usize)
    }
}

/// Whether the arena accepts the region of `capacity` bytes at `base` as a
/// further region: the system gave one (`base` is not 0), it ends within the
/// address space, and it lies apart from every region the arena took
/// before. Where it lies among them does not matter.
pub open spec fn acceptable(view: ArenaView, base: usize, capacity: usize) -> bool {
    &&& base != 0
    &&& base + capacity <= usize::MAX
    &&& forall|k: int|
        0 <= k < view.regions.len() ==> (#[trigger] view.regions[k]).apart(
            Block { addr: base, size: capacity },
        )
}

/// The arena after it has taken the region of `capacity` bytes at `base` as
/// its current region: all of the new region is free, and every block handed
/// out before stays where it is.
pub open spec fn grown(view: ArenaView, base: usize, capacity: usize) -> ArenaView {
    ArenaView {
        base,
        capacity,
        used: 0,
        regions: view.regions.push(Block { addr: base, size: capacity }),
        blocks: view.blocks,
    }
}

/// What holds of every arena. The regions it took lie apart from each
/// other, none starts at address 0 or reaches past the address space, and the
/// current region is one of them. The used part lies in the current region.
/// Every block handed out lies inside one of the regions and clear of the
/// free part of the current one, and no two blocks share an address.
pub open spec fn well_formed(view: ArenaView) -> bool {
    &&& exists|c: int|
        0 <= c < view.regions.len() && #[trigger] view.regions[c] == (Block {
            addr: view.base,
            size: view.capacity,
        })
    &&& view.used <= view.capacity
    &&& forall|k: int|
        0 <= k < view.regions.len() ==> (#[trigger] view.regions[k]).addr != 0
            && view.regions[k].end() <= usize::MAX
    &&& forall|k: int, l: int|
        0 <= k < l < view.regions.len() ==> (#[trigger] view.regions[k]).apart(
            #[trigger] view.regions[l],
        )
    &&& forall|i: int|
        0 <= i < view.blocks.len() ==> housed(#[trigger] view.blocks[i], view.regions)
    &&& forall|i: int|
        0 <= i < view.blocks.len() ==> (#[trigger] view.blocks[i]).end() <= view.base + view.used
            || view.base + view.capacity <= view.blocks[i].addr
    &&& forall|i: int, j: int|
        0 <= i < j < view.blocks.len() ==> (#[trigger] view.blocks[i]).apart(
            #[trigger] view.blocks[j],
        )
}

/// How the arena answers a request.
#[derive(Clone, Copy, Debug, PartialEq, Eq, Structural)]
pub enum Service {
    /// The request is served by `block`.
    Served { block: Block },
    /// The current region cannot serve the request: ask the system for a
    /// further region of `capacity` bytes, hand it to [`Arena::grow`], and
    /// ask again.
    Grow { capacity: usize },
    /// No region can serve the request.
    Refused,
}

/// The region that requests are served from, and how much of it is used.
#[derive(Clone, Copy, Debug, PartialEq, Eq, Structural)]
struct Current {
    base: usize,
    capacity: usize,
    used: usize,
}

/// A bump allocator over regions of the process heap.
pub struct Arena {
    current: Current,
    regions: Vec<Block>,
    blocks: Ghost<Seq<Block>>,
}

impl View for Arena {
    type V = ArenaView;

    closed spec fn view(&self) -> ArenaView {
        ArenaView {
            base: self.current.base,
            capacity: self.current.capacity,
            used: self.current.used,
            regions: self.regions@,
            blocks: self.blocks@,
        }
    }
}

/// The size of a further region that is sure to serve a request.
pub fn region_for(size: usize, align: usize) -> (capacity: Option<usize>)
    ensures
        capacity == spec_region_for(size, align),
{
    if align == 0 || size > usize::MAX - align {
        None
    } else if size + align < DEFAULT_CAPACITY {
        Some(DEFAULT_CAPACITY)
    } else {
        Some(size + align)
    }
}

impl Arena {
    #[verifier::type_invariant]
    spec fn inv(self) -> bool {
        well_formed(self@)
    }

    /// Takes over the region of `capacity` bytes at `base`, all of it free.
    /// `None` if `base` is 0, which is what a failed request to the system
    /// returns, or if the region would reach past the address space.
    pub fn new(base: usize, capacity: usize) -> (arena: Option<Self>)
        ensures
            arena is Some <==> base != 0 && base + capacity <= usize::MAX,
            arena matches Some(a) ==> a@ == (ArenaView {
                base,
                capacity,
                used: 0,
                regions: Seq::<Block>::empty().push(Block { addr: base, size: capacity }),
                blocks: Seq::<Block>::empty(),
            }) && well_formed(a@),
    {
        if base == 0 || capacity > usize::MAX - base {
            None
        } else {
            let mut regions: Vec<Block> = Vec::new();
            regions.push(Block { addr: base, size: capacity });
            proof {
                let view = ArenaView {
                    base,
                    capacity,
                    used: 0,
                    regions: regions@,
                    blocks: Seq::<Block>::empty(),
                };
                assert(view.regions[0] == Block { addr: base, size: capacity });
                assert(well_formed(view));
            }
            Some(
                Arena {
                    current: Current { base, capacity, used: 0 },
                    regions,
                    blocks: Ghost(Seq::empty()),
                },
            )
        }
    }

    /// The first address of the current region.
    pub fn base(&self) -> (base: usize)
        ensures
            base == self@.base,
    {
        self.current.base
    }

    /// The number of bytes in the current region.
    pub fn capacity(&self) -> (capacity: usize)
        ensures
            capacity == self@.capacity,
    {
        self.current.capacity
    }

    /// The number of bytes of the current region that are no longer free.
    pub fn used(&self) -> (used: usize)
        ensures
            used == self@.used,
            used <= self@.capacity,
    {
        proof {
            use_type_invariant(self);
        }
        self.current.used
    }

    /// The regions the arena has taken, in the order it took them.
    pub fn regions(&self) -> (regions: &Vec<Block>)
        ensures
            regions@ == self@.regions,
    {
        &self.regions
    }

    /// Hands out a block of `size` bytes whose address is a multiple of
    /// `align` from the current region. The block is the one that
    /// [`placement`] names; `None` if there is none, and then the arena is
    /// unchanged. A block handed out lies inside the current region, so each
    /// of its bytes can be written, and apart from every block handed out
    /// before.
    pub fn allocate(&mut self, size: usize, align: usize) -> (block: Option<Block>)
        ensures
            block == placement(old(self)@, size, align),
            well_formed(final(self)@),
            match block {
                Some(b) => {
                    &&& b.size == size
                    &&& b.addr != 0
                    &&& b.addr % align == 0
                    &&& b.within(old(self)@.base, old(self)@.capacity)
                    &&& forall|i: int|
                        0 <= i < old(self)@.blocks.len() ==> (#[trigger] old(
                            self,
                        )@.blocks[i]).apart(b)
                    &&& final(self)@ == (ArenaView {
                        used: (b.end() - old(self)@.base) as usize,
                        blocks: old(self)@.blocks.push(b),
                        ..old(self)@
                    })
                },
                None => final(self)@ == old(self)@,
            },
    {
        proof {
            use_type_invariant(&*self);
        }
        if align == 0 {
            return None;
        }
        let ghost before = self@;
        let ghost home = choose|c: int|
            0 <= c < before.regions.len() && #[trigger] before.regions[c] == (Block {
                addr: before.base,
                size: before.capacity,
            });
        let current = self.current;
        let cursor = current.base + current.used;
        let limit = current.base + current.capacity;
        let rest = cursor % align;
        let padding = if rest == 0 {
            0
        } else {
            align - rest
        };
        proof {
            lemma_aligned_up(cursor as int, align as int);
        }
        if padding > limit - cursor {
            return None;
        }
        let start = cursor + padding;
        if size > limit - start {
            return None;
        }
        let block = Block { addr: start, size };
        proof {
            assert(before.regions[home].holds(block));
            assert(housed(block, before.regions));
            let moved = ArenaView { used: (start + size - current.base) as usize, ..before };
            assert(moved.regions[home] == before.regions[home]);
            assert(well_formed(moved));
            let served = ArenaView { blocks: before.blocks.push(block), ..moved };
            assert(served.regions[home] == before.regions[home]);
            assert forall|i: int| 0 <= i < served.blocks.len() implies housed(
                #[trigger] served.blocks[i],
                served.regions,
            ) by {
                if i < before.blocks.len() {
                    assert(served.blocks[i] == before.blocks[i]);
                }
            }
            assert(well_formed(served));
        }
        self.current = Current { used: start + size - current.base, ..current };
        proof {
            self.blocks@ = self.blocks@.push(block);
        }
        Some(block)
    }

    /// Takes the region of `capacity` bytes at `base`, which the system has
    /// just given, as the current region, if it is [`acceptable`]. The result
    /// is the arena, grown or as it was, and whether the region was taken.
    pub fn grow(self, base: usize, capacity: usize) -> (outcome: (Self, bool))
        ensures
            outcome.1 == acceptable(self@, base, capacity),
            outcome.0@ == if outcome.1 {
                grown(self@, base, capacity)
            } else {
                self@
            },
            well_formed(outcome.0@),
    {
        proof {
            use_type_invariant(&self);
        }
        if base == 0 || capacity > usize::MAX - base {
            return (self, false);
        }
        let end = base + capacity;
        let region = Block { addr: base, size: capacity };
        let ghost before = self@;
        let mut k: usize = 0;
        while k < self.regions.len()
            invariant
                self@ == before,
                well_formed(before),
                region == (Block { addr: base, size: capacity }),
                end == base + capacity,
                0 <= k <= before.regions.len(),
                forall|l: int| 0 <= l < k ==> (#[trigger] before.regions[l]).apart(region),
            decreases before.regions.len() - k,
        {
            let taken = self.regions[k];
            if !(taken.addr + taken.size <= base || end <= taken.addr) {
                assert(!before.regions[k as int].apart(region));
                return (self, false);
            }
            k += 1;
        }
        proof {
            let after = grown(before, base, capacity);
            assert(after.regions[before.regions.len() as int] == region);
            assert forall|i: int| 0 <= i < after.blocks.len() implies housed(
                #[trigger] after.blocks[i],
                after.regions,
            ) && (after.blocks[i].end() <= after.base + after.used || after.base
                + after.capacity <= after.blocks[i].addr) by {
                assert(housed(before.blocks[i], before.regions));
                let h = choose|h: int|
                    0 <= h < before.regions.len() && (#[trigger] before.regions[h]).holds(
                        before.blocks[i],
                    );
                assert(after.regions[h] == before.regions[h]);
                assert(after.regions[h].holds(after.blocks[i]));
                assert(before.regions[h].apart(region));
            }
            assert forall|m: int, l: int| 0 <= m < l < after.regions.len() implies (
            #[trigger] after.regions[m]).apart(#[trigger] after.regions[l]) by {
                assert(after.regions[m] == before.regions[m]);
                if l < before.regions.len() {
                    assert(after.regions[l] == before.regions[l]);
                }
            }
            assert forall|m: int| 0 <= m < after.regions.len() implies (
            #[trigger] after.regions[m]).addr != 0 && after.regions[m].end() <= usize::MAX by {
                if m < before.regions.len() {
                    assert(after.regions[m] == before.regions[m]);
                }
            }
            assert(well_formed(after));
        }
        let blocks = self.blocks;
        let mut regions = self.regions;
        regions.push(region);
        (Arena { current: Current { base, capacity, used: 0 }, regions, blocks }, true)
    }

    /// Answers a request for `size` bytes aligned to `align`. If the current
    /// region can serve it the block is handed out as by
    /// [`allocate`](Arena::allocate). If not, the arena is unchanged and the
    /// answer names the size of a further region that will serve it, or says
    /// that none can.
    pub fn serve(&mut self, size: usize, align: usize) -> (service: Service)
        ensures
            service == match placement(old(self)@, size, align) {
                Some(block) => Service::Served { block },
                None => match spec_region_for(size, align) {
                    Some(capacity) => Service::Grow { capacity },
                    None => Service::Refused,
                },
            },
            well_formed(final(self)@),
            match service {
                Service::Served { block } => {
                    &&& block.size == size
                    &&& block.addr != 0
                    &&& forall|i: int|
                        0 <= i < old(self)@.blocks.len() ==> (#[trigger] old(
                            self,
                        )@.blocks[i]).apart(block)
                    &&& final(self)@ == (ArenaView {
                        used: (block.end() - old(self)@.base) as usize,
                        blocks: old(self)@.blocks.push(block),
                        ..old(self)@
                    })
                },
                _ => final(self)@ == old(self)@,
            },
    {
        match self.allocate(size, align) {
            Some(block) => Service::Served { block },
            None => match region_for(size, align) {
                Some(capacity) => Service::Grow { capacity },
                None => Service::Refused,
            },
        }
    }

    /// Takes a block back. Nothing is reclaimed: the arena stays exactly as
    /// it was, and every block handed out remains as usable as before.
    pub fn dealloc(&mut self, block: Block)
        ensures
            final(self)@ == old(self)@,
            well_formed(final(self)@),
    {
        proof {
            use_type_invariant(&*self);
        }
    }
}

/// No two blocks that an arena has handed out share an address, and each
/// lies inside one of the regions that the arena took, however many regions
/// it has gone through and wherever they lie.
pub proof fn lemma_blocks_never_overlap(view: ArenaView, i: int, j: int)
    requires
        well_formed(view),
        0 <= i < view.blocks.len(),
        0 <= j < view.blocks.len(),
        i != j,
    ensures
        view.blocks[i].apart(view.blocks[j]),
        forall|address: int|
            !(view.blocks[i].contains(address) && view.blocks[j].contains(address)),
        housed(view.blocks[i], view.regions),
{
    if i < j {
        assert(view.blocks[i].apart(view.blocks[j]));
    } else {
        assert(view.blocks[j].apart(view.blocks[i]));
    }
}

/// Every region that the system gives is taken, wherever it lies, so long
/// as it is a region at all and shares no address with one taken before;
/// and a region taken with the capacity that [`spec_region_for`] names, or
/// more, serves the request it was sized for. A request therefore fails only
/// where the system gives no region.
pub proof fn lemma_grown_region_serves(
    view: ArenaView,
    base: usize,
    capacity: usize,
    size: usize,
    align: usize,
)
    requires
        acceptable(view, base, capacity),
        spec_region_for(size, align) matches Some(needed) && needed <= capacity,
    ensures
        placement(grown(view, base, capacity), size, align) matches Some(block) && block.size
            == size && block.addr != 0 && block.within(base, capacity),
{
    lemma_aligned_up(base as int, align as int);
}

} // verus!
