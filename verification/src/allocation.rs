//! The ledger of what the device owns.

use crate::effect::Effect;
use vstd::prelude::*;

verus! {

/// Something that the device owns until it is released.
#[derive(Clone, Copy, Debug, PartialEq, Eq, Structural)]
pub enum Allocation {
    /// A buffer, its memory, and whether the memory is mapped.
    Buffer(u64, u64, bool),
    Memory(u64),
    Image(u64),
    View(u64),
    Pipeline(u64),
    Semaphore(u64),
    /// A command pool and its query pool, which may be null.
    Commands(u64, u64),
}

impl Allocation {
    /// The calls that destroy the allocation.
    pub open spec fn destruction(self) -> Seq<Effect> {
        match self {
            Allocation::Buffer(buffer, memory, mapped) => if mapped {
                seq![
                    Effect::UnmapMemory(memory),
                    Effect::DestroyBuffer(buffer),
                    Effect::FreeMemory(memory),
                ]
            } else {
                seq![Effect::DestroyBuffer(buffer), Effect::FreeMemory(memory)]
            },
            Allocation::Memory(memory) => seq![Effect::FreeMemory(memory)],
            Allocation::Image(image) => seq![Effect::DestroyImage(image)],
            Allocation::View(view) => seq![Effect::DestroyImageView(view)],
            Allocation::Pipeline(pipeline) => seq![Effect::DestroyPipeline(pipeline)],
            Allocation::Semaphore(semaphore) => seq![Effect::DestroySemaphore(semaphore)],
            Allocation::Commands(pool, queries) => if queries != 0 {
                seq![Effect::DestroyQueryPool(queries), Effect::DestroyCommandPool(pool)]
            } else {
                seq![Effect::DestroyCommandPool(pool)]
            },
        }
    }

    /// Appends the calls that destroy the allocation.
    pub fn destroy(self, effects: &mut Vec<Effect>)
        ensures
            final(effects)@ == old(effects)@ + self.destruction(),
    {
        match self {
            Allocation::Buffer(buffer, memory, mapped) => {
                if mapped {
                    effects.push(Effect::UnmapMemory(memory));
                }
                effects.push(Effect::DestroyBuffer(buffer));
                effects.push(Effect::FreeMemory(memory));
            },
            Allocation::Memory(memory) => effects.push(Effect::FreeMemory(memory)),
            Allocation::Image(image) => effects.push(Effect::DestroyImage(image)),
            Allocation::View(view) => effects.push(Effect::DestroyImageView(view)),
            Allocation::Pipeline(pipeline) => effects.push(Effect::DestroyPipeline(pipeline)),
            Allocation::Semaphore(semaphore) => effects.push(Effect::DestroySemaphore(semaphore)),
            Allocation::Commands(pool, queries) => {
                if queries != 0 {
                    effects.push(Effect::DestroyQueryPool(queries));
                }
                effects.push(Effect::DestroyCommandPool(pool));
            },
        }
    }
}

/// `index` is the first place of `allocation` in `ledger`.
pub open spec fn is_first(ledger: Seq<Allocation>, index: int, allocation: Allocation) -> bool {
    &&& 0 <= index < ledger.len()
    &&& ledger[index] == allocation
    &&& forall|j: int| 0 <= j < index ==> ledger[j] != allocation
}

/// The ledger after the release of `allocation`: without its first entry.
pub open spec fn released(ledger: Seq<Allocation>, allocation: Allocation) -> Seq<Allocation> {
    ledger.remove(choose|i: int| is_first(ledger, i, allocation))
}

/// The calls that destroy everything in the ledger, the latest entry first.
pub open spec fn teardown(ledger: Seq<Allocation>) -> Seq<Effect>
    decreases ledger.len(),
{
    if ledger.len() == 0 {
        seq![]
    } else {
        ledger.last().destruction() + teardown(ledger.drop_last())
    }
}

/// What the device owns, in the order of creation.
#[derive(Debug)]
pub struct Allocations {
    entries: Vec<Allocation>,
}

impl View for Allocations {
    type V = Seq<Allocation>;

    closed spec fn view(&self) -> Seq<Allocation> {
        self.entries@
    }
}

impl Allocations {
    /// An empty ledger.
    pub fn new() -> (r: Self)
        ensures
            r@ == Seq::<Allocation>::empty(),
    {
        Allocations { entries: Vec::new() }
    }

    /// The number of entries.
    pub fn count(&self) -> (r: usize)
        ensures
            r == self@.len(),
    {
        self.entries.len()
    }

    /// Whether the ledger holds the allocation.
    pub fn owns(&self, allocation: Allocation) -> (r: bool)
        ensures
            r == self@.contains(allocation),
    {
        let mut i: usize = 0;
        while i < self.entries.len()
            invariant
                i <= self.entries@.len(),
                forall|j: int| 0 <= j < i ==> self.entries@[j] != allocation,
            decreases self.entries@.len() - i,
        {
            if self.entries[i] == allocation {
                assert(self@[i as int] == allocation);
                return true;
            }
            i += 1;
        }
        false
    }

    /// Enters a new allocation.
    pub fn record(&mut self, allocation: Allocation)
        ensures
            final(self)@ == old(self)@.push(allocation),
    {
        self.entries.push(allocation);
    }

    /// Takes the allocation out of the ledger and appends the calls that destroy it.
    pub fn release(&mut self, allocation: Allocation, effects: &mut Vec<Effect>)
        requires
            old(self)@.contains(allocation),
        ensures
            final(self)@ == released(old(self)@, allocation),
            final(effects)@ == old(effects)@ + allocation.destruction(),
    {
        let count = self.entries.len();
        let mut index: usize = 0;
        while self.entries[index] != allocation
            invariant
                self@ == old(self)@,
                self@.contains(allocation),
                count == self.entries@.len(),
                index < count,
                forall|j: int| 0 <= j < index ==> self.entries@[j] != allocation,
            decreases count - index,
        {
            assert(index + 1 < count);
            index += 1;
        }
        assert(is_first(self@, index as int, allocation));
        let entry = self.entries.remove(index);
        entry.destroy(effects);
    }

    /// Takes everything out of the ledger and appends the calls that destroy it, the latest entry
    /// first.
    pub fn release_all(&mut self, effects: &mut Vec<Effect>)
        ensures
            final(self)@ == Seq::<Allocation>::empty(),
            final(effects)@ == old(effects)@ + teardown(old(self)@),
    {
        while self.entries.len() > 0
            invariant
                effects@ + teardown(self@) == old(effects)@ + teardown(old(self)@),
            decreases self.entries@.len(),
        {
            let ghost before = self@;
            let last = self.entries.len() - 1;
            let entry = self.entries.remove(last);
            assert(self@ =~= before.drop_last());
            entry.destroy(effects);
        }
        assert(effects@ + teardown(self@) =~= effects@);
    }
}

/// Releasing what was just entered for the first time restores the ledger.
pub proof fn release_undoes_record(ledger: Seq<Allocation>, allocation: Allocation)
    requires
        !ledger.contains(allocation),
    ensures
        released(ledger.push(allocation), allocation) == ledger,
{
    let entered = ledger.push(allocation);
    assert(is_first(entered, ledger.len() as int, allocation)) by {
        assert forall|j: int| 0 <= j < ledger.len() implies entered[j] != allocation by {
            assert(ledger.contains(ledger[j]));
        }
    }
    let i = choose|i: int| is_first(entered, i, allocation);
    assert(entered[i] == allocation);
    if i < ledger.len() {
        assert(ledger.contains(ledger[i]));
    }
    assert(entered.remove(i) =~= ledger);
}

/// A release takes out one entry of the allocation and nothing else.
pub proof fn release_takes_one(ledger: Seq<Allocation>, allocation: Allocation)
    requires
        ledger.contains(allocation),
    ensures
        released(ledger, allocation).to_multiset() == ledger.to_multiset().remove(allocation),
        released(ledger, allocation).len() == ledger.len() - 1,
{
    let w = choose|i: int| 0 <= i < ledger.len() && ledger[i] == allocation;
    first_exists(ledger, allocation, w);
    let i = choose|i: int| is_first(ledger, i, allocation);
    assert(is_first(ledger, i, allocation));
    ledger.to_multiset_ensures();
}

proof fn first_exists(ledger: Seq<Allocation>, allocation: Allocation, w: int)
    requires
        0 <= w < ledger.len(),
        ledger[w] == allocation,
    ensures
        exists|i: int| is_first(ledger, i, allocation),
    decreases w,
{
    if exists|j: int| 0 <= j < w && ledger[j] == allocation {
        let j = choose|j: int| 0 <= j < w && ledger[j] == allocation;
        first_exists(ledger, allocation, j);
    } else {
        assert(is_first(ledger, w, allocation));
    }
}

/// Everything that was entered later is destroyed before anything that was entered earlier: views
/// before their images, images before their heaps.
pub proof fn teardown_is_reverse(earlier: Seq<Allocation>, later: Seq<Allocation>)
    ensures
        teardown(earlier + later) == teardown(later) + teardown(earlier),
    decreases later.len(),
{
    if later.len() == 0 {
        assert(earlier + later =~= earlier);
        assert(teardown(later) + teardown(earlier) =~= teardown(earlier));
    } else {
        let all = earlier + later;
        assert(all.drop_last() =~= earlier + later.drop_last());
        assert(all.last() == later.last());
        teardown_is_reverse(earlier, later.drop_last());
        assert(teardown(all) =~= teardown(later) + teardown(earlier));
    }
}

/// The teardown destroys every entry of the ledger.
pub proof fn teardown_is_complete(ledger: Seq<Allocation>, allocation: Allocation, effect: Effect)
    requires
        ledger.contains(allocation),
        allocation.destruction().contains(effect),
    ensures
        teardown(ledger).contains(effect),
    decreases ledger.len(),
{
    let rest = teardown(ledger.drop_last());
    let first = ledger.last().destruction();
    let i = choose|i: int| 0 <= i < ledger.len() && ledger[i] == allocation;
    if i == ledger.len() - 1 {
        let k = choose|k: int| 0 <= k < first.len() && first[k] == effect;
        assert((first + rest)[k] == effect);
    } else {
        assert(ledger.drop_last()[i] == allocation);
        teardown_is_complete(ledger.drop_last(), allocation, effect);
        let k = choose|k: int| 0 <= k < rest.len() && rest[k] == effect;
        assert((first + rest)[first.len() + k] == effect);
    }
}

/// An allocation is destroyed whole and in order: memory is unmapped before its buffer goes and
/// freed after it, and queries go before the pool of their commands.
pub proof fn allocations_are_destroyed_whole(a: u64, b: u64)
    ensures
        Allocation::Buffer(a, b, true).destruction() =~= seq![Effect::UnmapMemory(b)]
            + Allocation::Buffer(a, b, false).destruction(),
        Allocation::Buffer(a, b, false).destruction() =~= seq![Effect::DestroyBuffer(a)]
            + Allocation::Memory(b).destruction(),
        Allocation::Memory(a).destruction() =~= seq![Effect::FreeMemory(a)],
        Allocation::Image(a).destruction() =~= seq![Effect::DestroyImage(a)],
        Allocation::View(a).destruction() =~= seq![Effect::DestroyImageView(a)],
        Allocation::Pipeline(a).destruction() =~= seq![Effect::DestroyPipeline(a)],
        Allocation::Semaphore(a).destruction() =~= seq![Effect::DestroySemaphore(a)],
        Allocation::Commands(a, 0).destruction() =~= seq![Effect::DestroyCommandPool(a)],
        b != 0 ==> Allocation::Commands(a, b).destruction() =~= seq![Effect::DestroyQueryPool(b)]
            + Allocation::Commands(a, 0).destruction(),
{
}

} // verus!
