//! Swapchain images whose destruction waits for submitted work.

use crate::effect::Effect;
use std::collections::VecDeque;
use vstd::prelude::*;

verus! {

/// A view of a swapchain image that is destroyed once work has come as far as `retire_value`.
#[derive(Clone, Copy, Debug, PartialEq, Eq, Structural)]
pub struct DeferredSwapchainImage {
    pub retire_value: u64,
    pub swapchain: u64,
    pub view: u64,
}

/// The values never fall.
pub open spec fn sorted(entries: Seq<DeferredSwapchainImage>) -> bool {
    forall|i: int, j: int|
        0 <= i <= j < entries.len() ==> (#[trigger] entries[i]).retire_value <= (
        #[trigger] entries[j]).retire_value
}

/// The images of a swapchain stand together.
pub open spec fn grouped(entries: Seq<DeferredSwapchainImage>) -> bool {
    forall|i: int, j: int, k: int|
        0 <= i <= j <= k < entries.len() && (#[trigger] entries[i]).swapchain == (
        #[trigger] entries[k]).swapchain ==> (#[trigger] entries[j]).swapchain
            == entries[i].swapchain
}

/// The queue holds an image of the swapchain.
pub open spec fn holds(entries: Seq<DeferredSwapchainImage>, swapchain: u64) -> bool {
    exists|i: int| 0 <= i < entries.len() && (#[trigger] entries[i]).swapchain == swapchain
}

/// How many images at the front have come to their value.
pub open spec fn due(entries: Seq<DeferredSwapchainImage>, completed: u64) -> nat
    decreases entries.len(),
{
    if entries.len() == 0 || entries[0].retire_value > completed {
        0
    } else {
        1 + due(entries.drop_first(), completed)
    }
}

/// The swapchain of the first entry goes with it: no image of the swapchain follows.
pub open spec fn is_last_of_swapchain(entries: Seq<DeferredSwapchainImage>) -> bool {
    entries.len() == 1 || entries[1].swapchain != entries[0].swapchain
}

/// The calls that destroy the images which have come to their value, each swapchain after its last
/// image.
pub open spec fn collected(entries: Seq<DeferredSwapchainImage>, completed: u64) -> Seq<Effect>
    decreases entries.len(),
{
    if entries.len() == 0 || entries[0].retire_value > completed {
        seq![]
    } else {
        seq![Effect::DestroyImageView(entries[0].view)] + (if is_last_of_swapchain(entries) {
            seq![Effect::DestroySwapchain(entries[0].swapchain)]
        } else {
            seq![]
        }) + collected(entries.drop_first(), completed)
    }
}

/// The entries that remain.
pub open spec fn remaining(
    entries: Seq<DeferredSwapchainImage>,
    completed: u64,
) -> Seq<DeferredSwapchainImage> {
    entries.skip(due(entries, completed) as int)
}

/// Swapchain images that wait to be destroyed, by the value that they wait for.
#[derive(Debug)]
pub struct SwapchainDeleteQueue {
    entries: VecDeque<DeferredSwapchainImage>,
}

impl View for SwapchainDeleteQueue {
    type V = Seq<DeferredSwapchainImage>;

    closed spec fn view(&self) -> Seq<DeferredSwapchainImage> {
        self.entries@
    }
}

impl SwapchainDeleteQueue {
    /// An empty queue.
    pub fn new() -> (r: Self)
        ensures
            r@ == Seq::<DeferredSwapchainImage>::empty(),
    {
        SwapchainDeleteQueue { entries: VecDeque::new() }
    }

    /// The number of images.
    pub fn count(&self) -> (r: usize)
        ensures
            r == self@.len(),
    {
        self.entries.len()
    }

    /// Whether an image of the swapchain waits to be destroyed.
    pub fn holds_swapchain(&self, swapchain: u64) -> (r: bool)
        ensures
            r == holds(self@, swapchain),
    {
        let mut i: usize = 0;
        while i < self.entries.len()
            invariant
                i <= self.entries@.len(),
                forall|j: int| 0 <= j < i ==> (#[trigger] self.entries@[j]).swapchain != swapchain,
            decreases self.entries@.len() - i,
        {
            if self.entries[i].swapchain == swapchain {
                assert(self@[i as int].swapchain == swapchain);
                return true;
            }
            i += 1;
        }
        false
    }

    /// Appends an image. It waits no shorter than those before it.
    pub fn push(&mut self, retire_value: u64, swapchain: u64, view: u64)
        requires
            swapchain != 0,
            view != 0,
            old(self)@.len() > 0 ==> old(self)@.last().retire_value <= retire_value,
        ensures
            final(self)@ == old(self)@.push(
                (DeferredSwapchainImage { retire_value, swapchain, view }),
            ),
            sorted(old(self)@) ==> sorted(final(self)@),
    {
        self.entries.push_back(DeferredSwapchainImage { retire_value, swapchain, view });
    }

    /// Takes out the images that have come to their value and appends the calls that destroy them.
    pub fn collect(&mut self, completed: u64, effects: &mut Vec<Effect>)
        ensures
            final(self)@ == remaining(old(self)@, completed),
            final(effects)@ == old(effects)@ + collected(old(self)@, completed),
    {
        loop
            invariant
                remaining(self@, completed) == remaining(old(self)@, completed),
                effects@ + collected(self@, completed) == old(effects)@ + collected(
                    old(self)@,
                    completed,
                ),
            ensures
                self@.len() == 0 || self@[0].retire_value > completed,
            decreases self@.len(),
        {
            if self.entries.len() == 0 || self.entries[0].retire_value > completed {
                break;
            }
            let ghost before = self@;
            let ghost made = effects@;
            match self.entries.pop_front() {
                Some(entry) => {
                    assert(entry == before[0]);
                    assert(self@ =~= before.drop_first());
                    effects.push(Effect::DestroyImageView(entry.view));
                    if self.entries.len() == 0 || self.entries[0].swapchain != entry.swapchain {
                        effects.push(Effect::DestroySwapchain(entry.swapchain));
                    }
                    assert(effects@ + collected(self@, completed) =~= made + collected(
                        before,
                        completed,
                    ));
                    proof {
                        due_at_most(self@, completed);
                    }
                    assert(remaining(before, completed) =~= remaining(self@, completed));
                },
                None => {},
            }
        }
        assert(remaining(self@, completed) =~= self@);
        assert(effects@ + collected(self@, completed) =~= effects@);
    }
}

proof fn due_at_most(entries: Seq<DeferredSwapchainImage>, completed: u64)
    ensures
        due(entries, completed) <= entries.len(),
    decreases entries.len(),
{
    if !(entries.len() == 0 || entries[0].retire_value > completed) {
        due_at_most(entries.drop_first(), completed);
    }
}

/// In a sorted queue, what is taken out has come to its value, and what remains has not.
pub proof fn due_is_exact(entries: Seq<DeferredSwapchainImage>, completed: u64)
    requires
        sorted(entries),
    ensures
        due(entries, completed) <= entries.len(),
        forall|i: int|
            0 <= i < due(entries, completed) ==> (#[trigger] entries[i]).retire_value <= completed,
        forall|i: int|
            due(entries, completed) <= i < entries.len() ==> (#[trigger] entries[i]).retire_value
                > completed,
    decreases entries.len(),
{
    if !(entries.len() == 0 || entries[0].retire_value > completed) {
        let rest = entries.drop_first();
        assert(sorted(rest)) by {
            assert forall|i: int, j: int| 0 <= i <= j < rest.len() implies (
            #[trigger] rest[i]).retire_value <= (#[trigger] rest[j]).retire_value by {
                assert(rest[i] == entries[i + 1] && rest[j] == entries[j + 1]);
            }
        }
        due_is_exact(rest, completed);
        assert forall|i: int| 0 <= i < due(entries, completed) implies (
        #[trigger] entries[i]).retire_value <= completed by {
            if i > 0 {
                assert(rest[i - 1] == entries[i]);
            }
        }
        assert forall|i: int| due(entries, completed) <= i < entries.len() implies (
        #[trigger] entries[i]).retire_value > completed by {
            assert(rest[i - 1] == entries[i]);
        }
    } else if entries.len() > 0 {
        assert forall|i: int| 0 <= i < entries.len() implies (#[trigger] entries[i]).retire_value
            > completed by {
            assert(entries[0].retire_value <= entries[i].retire_value);
        }
    }
}

/// Collecting keeps the queue sorted, and the images of each swapchain together.
pub proof fn remaining_keeps_order(entries: Seq<DeferredSwapchainImage>, completed: u64)
    requires
        sorted(entries),
        grouped(entries),
    ensures
        sorted(remaining(entries, completed)),
        grouped(remaining(entries, completed)),
{
    due_at_most(entries, completed);
    let n = due(entries, completed) as int;
    let rest = remaining(entries, completed);
    assert forall|i: int, j: int| 0 <= i <= j < rest.len() implies (#[trigger] rest[i]).retire_value
        <= (#[trigger] rest[j]).retire_value by {
        assert(rest[i] == entries[n + i] && rest[j] == entries[n + j]);
    }
    assert forall|i: int, j: int, k: int|
        0 <= i <= j <= k < rest.len() && (#[trigger] rest[i]).swapchain == (
        #[trigger] rest[k]).swapchain implies (#[trigger] rest[j]).swapchain
        == rest[i].swapchain by {
        assert(rest[i] == entries[n + i] && rest[j] == entries[n + j] && rest[k] == entries[n + k]);
    }
}

/// Once work has come as far as the last value, nothing remains.
pub proof fn all_due(entries: Seq<DeferredSwapchainImage>, completed: u64)
    requires
        sorted(entries),
        entries.len() > 0 ==> entries.last().retire_value <= completed,
    ensures
        remaining(entries, completed) == Seq::<DeferredSwapchainImage>::empty(),
{
    due_is_exact(entries, completed);
    if due(entries, completed) < entries.len() {
        assert(entries[entries.len() - 1].retire_value > completed);
    }
    assert(remaining(entries, completed) =~= Seq::empty());
}

/// Collecting early makes no difference: what two collections destroy, the later one would have
/// destroyed alone, in the same order.
pub proof fn collecting_twice(entries: Seq<DeferredSwapchainImage>, early: u64, late: u64)
    requires
        early <= late,
    ensures
        collected(entries, early) + collected(remaining(entries, early), late) == collected(
            entries,
            late,
        ),
        remaining(remaining(entries, early), late) == remaining(entries, late),
    decreases entries.len(),
{
    due_at_most(entries, early);
    due_at_most(entries, late);
    if entries.len() == 0 || entries[0].retire_value > early {
        assert(remaining(entries, early) =~= entries);
        assert(collected(entries, early) + collected(entries, late) =~= collected(entries, late));
    } else {
        let rest = entries.drop_first();
        collecting_twice(rest, early, late);
        due_at_most(rest, early);
        due_at_most(rest, late);
        assert(remaining(entries, early) =~= remaining(rest, early));
        assert(remaining(entries, late) =~= remaining(rest, late));
        assert(collected(entries, early) + collected(remaining(entries, early), late)
            =~= collected(entries, late));
    }
}

/// Every image that has come to its value is destroyed.
pub proof fn due_images_go(entries: Seq<DeferredSwapchainImage>, completed: u64, place: int)
    requires
        0 <= place < due(entries, completed),
    ensures
        collected(entries, completed).contains(Effect::DestroyImageView(entries[place].view)),
    decreases entries.len(),
{
    let goal = Effect::DestroyImageView(entries[place].view);
    let rest = entries.drop_first();
    due_at_most(entries, completed);
    if place == 0 {
        assert(collected(entries, completed)[0] == goal);
    } else {
        due_images_go(rest, completed, place - 1);
        assert(rest[place - 1] == entries[place]);
        let tail = collected(rest, completed);
        let k = choose|k: int| 0 <= k < tail.len() && tail[k] == goal;
        let head = collected(entries, completed).len() - tail.len();
        assert(collected(entries, completed)[head + k] == goal);
    }
}

/// A swapchain is destroyed only when the queue holds none of its images any more.
pub proof fn destroyed_swapchains_are_done(
    entries: Seq<DeferredSwapchainImage>,
    completed: u64,
    swapchain: u64,
)
    requires
        grouped(entries),
        collected(entries, completed).contains(Effect::DestroySwapchain(swapchain)),
    ensures
        !holds(remaining(entries, completed), swapchain),
        holds(entries, swapchain),
    decreases entries.len(),
{
    let goal = Effect::DestroySwapchain(swapchain);
    let all = collected(entries, completed);
    let at = choose|i: int| 0 <= i < all.len() && all[i] == goal;
    assert(!(entries.len() == 0 || entries[0].retire_value > completed));
    let rest = entries.drop_first();
    let tail = collected(rest, completed);
    due_at_most(entries, completed);
    due_at_most(rest, completed);
    assert(remaining(entries, completed) =~= remaining(rest, completed));
    assert forall|i: int, j: int, k: int|
        0 <= i <= j <= k < rest.len() && (#[trigger] rest[i]).swapchain == (
        #[trigger] rest[k]).swapchain implies (#[trigger] rest[j]).swapchain
        == rest[i].swapchain by {
        assert(rest[i] == entries[i + 1] && rest[j] == entries[j + 1] && rest[k] == entries[k + 1]);
    }
    let head = all.len() - tail.len();
    if at >= head {
        assert(tail[at - head] == goal);
        destroyed_swapchains_are_done(rest, completed, swapchain);
        let w = choose|i: int| 0 <= i < rest.len() && (#[trigger] rest[i]).swapchain == swapchain;
        assert(entries[w + 1].swapchain == swapchain);
    } else {
        assert(is_last_of_swapchain(entries) && entries[0].swapchain == swapchain);
        let left = remaining(entries, completed);
        let n = due(entries, completed) as int;
        assert forall|i: int| 0 <= i < left.len() implies (#[trigger] left[i]).swapchain
            != swapchain by {
            assert(left[i] == entries[n + i]);
            if left[i].swapchain == swapchain {
                assert(entries[0].swapchain == entries[n + i].swapchain);
                assert(entries[1].swapchain == entries[0].swapchain);
            }
        }
    }
}

/// A swapchain of which the queue lost its last image is destroyed.
pub proof fn finished_swapchains_go(
    entries: Seq<DeferredSwapchainImage>,
    completed: u64,
    swapchain: u64,
)
    requires
        holds(entries, swapchain),
        !holds(remaining(entries, completed), swapchain),
    ensures
        collected(entries, completed).contains(Effect::DestroySwapchain(swapchain)),
    decreases entries.len(),
{
    let goal = Effect::DestroySwapchain(swapchain);
    due_at_most(entries, completed);
    if entries.len() == 0 || entries[0].retire_value > completed {
        assert(remaining(entries, completed) =~= entries);
    } else {
        let rest = entries.drop_first();
        let all = collected(entries, completed);
        let tail = collected(rest, completed);
        let head = all.len() - tail.len();
        due_at_most(rest, completed);
        assert(remaining(entries, completed) =~= remaining(rest, completed));
        if holds(rest, swapchain) {
            finished_swapchains_go(rest, completed, swapchain);
            let k = choose|k: int| 0 <= k < tail.len() && tail[k] == goal;
            assert(all[head + k] == goal);
        } else {
            let w = choose|i: int|
                0 <= i < entries.len() && (#[trigger] entries[i]).swapchain == swapchain;
            if w > 0 {
                assert(rest[w - 1].swapchain == swapchain);
            }
            if entries.len() > 1 && entries[1].swapchain == entries[0].swapchain {
                assert(rest[0].swapchain == swapchain);
            }
            assert(all[1] == goal);
        }
    }
}

/// No swapchain is destroyed twice.
pub proof fn swapchains_go_once(
    entries: Seq<DeferredSwapchainImage>,
    completed: u64,
    swapchain: u64,
    i: int,
    j: int,
)
    requires
        grouped(entries),
        0 <= i < j < collected(entries, completed).len(),
        collected(entries, completed)[i] == Effect::DestroySwapchain(swapchain),
    ensures
        collected(entries, completed)[j] != Effect::DestroySwapchain(swapchain),
    decreases entries.len(),
{
    let goal = Effect::DestroySwapchain(swapchain);
    let all = collected(entries, completed);
    assert(!(entries.len() == 0 || entries[0].retire_value > completed));
    let rest = entries.drop_first();
    let tail = collected(rest, completed);
    let head = all.len() - tail.len();
    assert forall|a: int, b: int, c: int|
        0 <= a <= b <= c < rest.len() && (#[trigger] rest[a]).swapchain == (
        #[trigger] rest[c]).swapchain implies (#[trigger] rest[b]).swapchain
        == rest[a].swapchain by {
        assert(rest[a] == entries[a + 1] && rest[b] == entries[b + 1] && rest[c] == entries[c + 1]);
    }
    if i >= head {
        swapchains_go_once(rest, completed, swapchain, i - head, j - head);
    } else if all[j] == goal {
        assert(is_last_of_swapchain(entries) && entries[0].swapchain == swapchain);
        assert(tail[j - head] == goal);
        destroyed_swapchains_are_done(rest, completed, swapchain);
        let w = choose|k: int| 0 <= k < rest.len() && (#[trigger] rest[k]).swapchain == swapchain;
        assert(entries[w + 1].swapchain == entries[0].swapchain);
        assert(entries[1].swapchain == entries[0].swapchain);
    }
}

} // verus!
