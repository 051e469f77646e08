//! Presents under way, and the swapchains that were replaced while they were.

use crate::commands::{resets, CommandBuffer, Timeline, TimelineState};
use crate::deferred::{
    all_due, collected, destroyed_swapchains_are_done, grouped, holds, remaining,
    remaining_keeps_order, sorted, DeferredSwapchainImage,
};
use crate::effect::Effect;
use crate::error::{failure_of, Failure};
use vstd::prelude::*;

verus! {

/// The most images of a swapchain, presents under way and replaced swapchains.
pub const MAX_SWAPCHAIN_IMAGES: usize = 8;

/// The synchronization of one present.
#[derive(Clone, Copy, Debug, PartialEq, Eq, Structural)]
pub struct PresentContext {
    /// Set when the image can be rendered to.
    pub acquired: u64,
    /// Set when the image was rendered to.
    pub rendered: u64,
    /// Set when the present no longer needs its resources.
    pub presented: u64,
    /// The swapchain that is being presented, or null.
    pub swapchain: u64,
    pub present_pending: bool,
}

impl Default for PresentContext {
    fn default() -> (r: Self)
        ensures
            r == PresentContext::empty(),
    {
        PresentContext {
            acquired: 0,
            rendered: 0,
            presented: 0,
            swapchain: 0,
            present_pending: false,
        }
    }
}

/// A part of a present context.
#[derive(Clone, Copy, Debug, PartialEq, Eq, Structural)]
pub enum PresentPart {
    Acquired,
    Rendered,
    Presented,
}

impl PresentContext {
    /// A context with nothing in it.
    pub open spec fn empty() -> Self {
        PresentContext {
            acquired: 0,
            rendered: 0,
            presented: 0,
            swapchain: 0,
            present_pending: false,
        }
    }

    /// The context with one part replaced.
    pub open spec fn with_part(self, part: PresentPart, handle: u64) -> Self {
        match part {
            PresentPart::Acquired => PresentContext { acquired: handle, ..self },
            PresentPart::Rendered => PresentContext { rendered: handle, ..self },
            PresentPart::Presented => PresentContext { presented: handle, ..self },
        }
    }

    /// The context with no present under way.
    pub open spec fn freed(self) -> Self {
        PresentContext { present_pending: false, swapchain: 0, ..self }
    }

    /// The calls that destroy the parts that were created.
    pub open spec fn destruction(self) -> Seq<Effect> {
        (if self.acquired != 0 {
            seq![Effect::DestroySemaphore(self.acquired)]
        } else {
            seq![]
        }) + (if self.rendered != 0 {
            seq![Effect::DestroySemaphore(self.rendered)]
        } else {
            seq![]
        }) + (if self.presented != 0 {
            seq![Effect::DestroyFence(self.presented)]
        } else {
            seq![]
        })
    }
}

/// A swapchain that was replaced while presents of it were under way.
#[derive(Debug)]
pub struct RetiredSwapchain {
    pub handle: u64,
    pub views: Vec<u64>,
}

/// A replaced swapchain as a value.
#[verifier::ext_equal]
pub struct RetiredState {
    pub handle: u64,
    pub views: Seq<u64>,
}

impl View for RetiredSwapchain {
    type V = RetiredState;

    open spec fn view(&self) -> RetiredState {
        RetiredState { handle: self.handle, views: self.views@ }
    }
}

impl RetiredState {
    /// A swapchain with images.
    pub open spec fn wf(self) -> bool {
        &&& self.handle != 0
        &&& 0 < self.views.len() <= MAX_SWAPCHAIN_IMAGES
        &&& forall|i: int| 0 <= i < self.views.len() ==> #[trigger] self.views[i] != 0
    }

    /// The images of the swapchain, to be destroyed once work has come as far as `value`.
    pub open spec fn images(self, value: u64) -> Seq<DeferredSwapchainImage> {
        self.views.map_values(
            |view: u64|
                DeferredSwapchainImage { retire_value: value, swapchain: self.handle, view },
        )
    }
}

impl TimelineState {
    /// The images of a swapchain join those that wait for submitted work.
    pub open spec fn joined(self, retired: RetiredState) -> Seq<DeferredSwapchainImage> {
        self.deferred + retired.images(self.submitted)
    }

    /// The timeline after the images of a swapchain were put off until all submitted work has
    /// completed.
    pub open spec fn defer(self, retired: RetiredState) -> Self {
        TimelineState { deferred: remaining(self.joined(retired), self.completed), ..self }
    }

    /// The calls of that.
    pub open spec fn deferring(self, retired: RetiredState) -> Seq<Effect> {
        collected(self.joined(retired), self.completed)
    }
}

/// Presents, replaced swapchains and the timeline, as one value.
#[verifier::ext_equal]
pub struct Window {
    pub contexts: Seq<PresentContext>,
    pub retired: Seq<RetiredState>,
    pub timeline: TimelineState,
}

/// A present of the swapchain is under way.
pub open spec fn waits_on(contexts: Seq<PresentContext>, swapchain: u64) -> bool {
    exists|i: int|
        0 <= i < contexts.len() && (#[trigger] contexts[i]).present_pending && contexts[i].swapchain
            == swapchain
}

/// The swapchain is among the replaced ones.
pub open spec fn is_slot(retired: Seq<RetiredState>, place: int, swapchain: u64) -> bool {
    0 <= place < retired.len() && retired[place].handle == swapchain
}

impl Window {
    /// What holds between operations. A present is under way exactly for a context that names a
    /// swapchain. A replaced swapchain is kept while a present of it is under way, and its images
    /// do not wait for destruction yet: nor do those of any swapchain that is being presented.
    pub open spec fn wf(self) -> bool {
        &&& self.timeline.wf()
        &&& self.contexts.len() <= MAX_SWAPCHAIN_IMAGES
        &&& self.retired.len() <= MAX_SWAPCHAIN_IMAGES
        &&& forall|i: int|
            0 <= i < self.contexts.len() ==> ((#[trigger] self.contexts[i]).present_pending
                <==> self.contexts[i].swapchain != 0)
        &&& forall|k: int| 0 <= k < self.retired.len() ==> (#[trigger] self.retired[k]).wf()
        &&& forall|k: int|
            0 <= k < self.retired.len() ==> waits_on(
                self.contexts,
                (#[trigger] self.retired[k]).handle,
            )
        &&& forall|k: int, l: int|
            0 <= k < l < self.retired.len() ==> (#[trigger] self.retired[k]).handle != (
            #[trigger] self.retired[l]).handle
        &&& grouped(self.timeline.deferred)
        &&& forall|i: int|
            0 <= i < self.contexts.len() && (#[trigger] self.contexts[i]).present_pending
                ==> !holds(self.timeline.deferred, self.contexts[i].swapchain)
    }

    /// The swapchain was not given away: it is neither kept as a replaced one nor waits for
    /// destruction.
    pub open spec fn is_fresh(self, swapchain: u64) -> bool {
        &&& swapchain != 0
        &&& forall|k: int|
            0 <= k < self.retired.len() ==> (#[trigger] self.retired[k]).handle != swapchain
        &&& !holds(self.timeline.deferred, swapchain)
    }

    /// A replaced swapchain goes once no present of it is under way.
    pub open spec fn goes(self, swapchain: u64) -> bool {
        &&& exists|k: int| is_slot(self.retired, k, swapchain)
        &&& !waits_on(self.contexts, swapchain)
    }

    /// Where the swapchain is among the replaced ones.
    pub open spec fn slot(self, swapchain: u64) -> int {
        choose|k: int| is_slot(self.retired, k, swapchain)
    }

    /// The state after a replaced swapchain went, if it could.
    pub open spec fn release(self, swapchain: u64) -> Self {
        if self.goes(swapchain) {
            let k = self.slot(swapchain);
            Window {
                retired: self.retired.remove(k),
                timeline: self.timeline.defer(self.retired[k]),
                ..self
            }
        } else {
            self
        }
    }

    /// The calls of that.
    pub open spec fn releasing(self, swapchain: u64) -> Seq<Effect> {
        if self.goes(swapchain) {
            self.timeline.deferring(self.retired[self.slot(swapchain)])
        } else {
            seq![]
        }
    }

    /// The state in which a present is over.
    pub open spec fn freed(self, index: int) -> Self {
        Window { contexts: self.contexts.update(index, self.contexts[index].freed()), ..self }
    }

    /// The state after a present came to its end.
    pub open spec fn complete(self, index: int) -> Self {
        self.freed(index).release(self.contexts[index].swapchain)
    }

    /// The calls of that.
    pub open spec fn completing(self, index: int) -> Seq<Effect> {
        self.freed(index).releasing(self.contexts[index].swapchain)
    }

    /// The state after a wait for the present of a context.
    pub open spec fn wait(self, index: int) -> Self {
        if self.contexts[index].present_pending {
            self.complete(index)
        } else {
            self
        }
    }

    /// The calls of that.
    pub open spec fn waiting(self, index: int) -> Seq<Effect> {
        if self.contexts[index].present_pending {
            seq![Effect::WaitFence(self.contexts[index].presented)] + self.completing(index)
        } else {
            seq![]
        }
    }

    /// The state after the fences of the first `count` contexts were looked at.
    pub open spec fn polled(self, count: nat, signaled: Seq<bool>) -> Self
        decreases count,
    {
        if count == 0 {
            self
        } else {
            let before = self.polled((count - 1) as nat, signaled);
            if before.contexts[count - 1].present_pending && signaled[count - 1] {
                before.complete(count - 1)
            } else {
                before
            }
        }
    }

    /// The calls of that.
    pub open spec fn polling(self, count: nat, signaled: Seq<bool>) -> Seq<Effect>
        decreases count,
    {
        if count == 0 {
            seq![]
        } else {
            let before = self.polled((count - 1) as nat, signaled);
            self.polling((count - 1) as nat, signaled) + if before.contexts[count
                - 1].present_pending && signaled[count - 1] {
                before.completing(count - 1)
            } else {
                seq![]
            }
        }
    }

    /// The context takes part in a wait for presents: of the swapchain, or of any where it is null.
    pub open spec fn concerns(self, index: int, swapchain: u64) -> bool {
        swapchain == 0 || self.contexts[index].swapchain == swapchain
    }

    /// The state after a wait for those of the first `count` contexts that present the swapchain,
    /// or for all of them where it is null.
    pub open spec fn waited(self, count: nat, swapchain: u64) -> Self
        decreases count,
    {
        if count == 0 {
            self
        } else {
            let before = self.waited((count - 1) as nat, swapchain);
            if before.concerns(count - 1, swapchain) {
                before.wait(count - 1)
            } else {
                before
            }
        }
    }

    /// The calls of that.
    pub open spec fn waiting_for(self, count: nat, swapchain: u64) -> Seq<Effect>
        decreases count,
    {
        if count == 0 {
            seq![]
        } else {
            let before = self.waited((count - 1) as nat, swapchain);
            self.waiting_for((count - 1) as nat, swapchain) + if before.concerns(
                count - 1,
                swapchain,
            ) {
                before.waiting(count - 1)
            } else {
                seq![]
            }
        }
    }

    /// The state after a swapchain was given up. It goes at once unless a present of it is under
    /// way. Else it is kept until then, or waited for where too many are kept.
    pub open spec fn retire(self, retired: RetiredState, signaled: Seq<bool>) -> Self {
        let polled = self.polled(self.contexts.len(), signaled);
        if !waits_on(polled.contexts, retired.handle) {
            Window { timeline: polled.timeline.defer(retired), ..polled }
        } else if polled.retired.len() < MAX_SWAPCHAIN_IMAGES {
            Window { retired: polled.retired.push(retired), ..polled }
        } else {
            let waited = polled.waited(polled.contexts.len(), retired.handle);
            Window { timeline: waited.timeline.defer(retired), ..waited }
        }
    }

    /// The calls of that.
    pub open spec fn retiring(self, retired: RetiredState, signaled: Seq<bool>) -> Seq<Effect> {
        let polled = self.polled(self.contexts.len(), signaled);
        self.polling(self.contexts.len(), signaled) + if !waits_on(
            polled.contexts,
            retired.handle,
        ) {
            polled.timeline.deferring(retired)
        } else if polled.retired.len() < MAX_SWAPCHAIN_IMAGES {
            seq![]
        } else {
            let waited = polled.waited(polled.contexts.len(), retired.handle);
            polled.waiting_for(polled.contexts.len(), retired.handle) + waited.timeline.deferring(
                retired,
            )
        }
    }

    /// The state with the timeline waited for.
    pub open spec fn retired_work(self) -> Self {
        Window { timeline: self.timeline.waited(self.timeline.submitted), ..self }
    }

    /// The state after a wait for everything that was submitted and every present.
    pub open spec fn drain(self) -> Self {
        let waited = self.retired_work().waited(self.contexts.len(), 0);
        Window {
            timeline: TimelineState {
                deferred: remaining(waited.timeline.deferred, waited.timeline.completed),
                ..waited.timeline
            },
            ..waited
        }
    }

    /// The calls of that.
    pub open spec fn draining(self) -> Seq<Effect> {
        let waited = self.retired_work().waited(self.contexts.len(), 0);
        self.timeline.waiting(self.timeline.submitted) + self.retired_work().waiting_for(
            self.contexts.len(),
            0,
        ) + collected(waited.timeline.deferred, waited.timeline.completed)
    }
}

proof fn joined_is_grouped(timeline: TimelineState, retired: RetiredState)
    requires
        grouped(timeline.deferred),
        !holds(timeline.deferred, retired.handle),
    ensures
        grouped(timeline.joined(retired)),
{
    let all = timeline.joined(retired);
    let n = timeline.deferred.len() as int;
    assert forall|i: int| 0 <= i < all.len() implies (i < n ==> (#[trigger] all[i])
        == timeline.deferred[i]) && (i >= n ==> all[i].swapchain == retired.handle) by {}
    assert forall|i: int, j: int, k: int|
        0 <= i <= j <= k < all.len() && (#[trigger] all[i]).swapchain == (
        #[trigger] all[k]).swapchain implies (#[trigger] all[j]).swapchain == all[i].swapchain by {
        if k >= n && i < n {
            assert(timeline.deferred[i].swapchain == retired.handle);
        }
    }
}

/// The images of a swapchain that was not in the queue can join it, and the queue stays in order.
proof fn defer_is_wf(timeline: TimelineState, retired: RetiredState)
    requires
        timeline.wf(),
        grouped(timeline.deferred),
        !holds(timeline.deferred, retired.handle),
    ensures
        timeline.defer(retired).wf(),
        grouped(timeline.defer(retired).deferred),
        forall|handle: u64|
            holds(timeline.defer(retired).deferred, handle) ==> handle == retired.handle || holds(
                timeline.deferred,
                handle,
            ),
{
    let all = timeline.joined(retired);
    let n = timeline.deferred.len() as int;
    assert forall|i: int| 0 <= i < all.len() implies (#[trigger] all[i]).retire_value
        <= timeline.submitted && (i < n ==> all[i] == timeline.deferred[i]) && (i >= n
        ==> all[i].swapchain == retired.handle && all[i].retire_value == timeline.submitted) by {}
    assert(sorted(all));
    joined_is_grouped(timeline, retired);
    remaining_keeps_order(all, timeline.completed);
    crate::deferred::due_is_exact(all, timeline.completed);
    let d = crate::deferred::due(all, timeline.completed) as int;
    let rest = remaining(all, timeline.completed);
    assert forall|i: int| 0 <= i < rest.len() implies (#[trigger] rest[i]).retire_value
        <= timeline.submitted by {
        assert(rest[i] == all[d + i]);
    }
    assert forall|handle: u64| holds(rest, handle) implies handle == retired.handle || holds(
        timeline.deferred,
        handle,
    ) by {
        let i = choose|i: int| 0 <= i < rest.len() && (#[trigger] rest[i]).swapchain == handle;
        assert(rest[i] == all[d + i]);
        if d + i < n {
            assert(timeline.deferred[d + i].swapchain == handle);
        }
    }
}

proof fn deferring_destroys(timeline: TimelineState, retired: RetiredState, swapchain: u64)
    requires
        grouped(timeline.deferred),
        !holds(timeline.deferred, retired.handle),
        timeline.deferring(retired).contains(Effect::DestroySwapchain(swapchain)),
    ensures
        swapchain == retired.handle || holds(timeline.deferred, swapchain),
{
    let all = timeline.joined(retired);
    joined_is_grouped(timeline, retired);
    destroyed_swapchains_are_done(all, timeline.completed, swapchain);
    let i = choose|i: int| 0 <= i < all.len() && (#[trigger] all[i]).swapchain == swapchain;
    if i < timeline.deferred.len() {
        assert(timeline.deferred[i].swapchain == swapchain);
    }
}

proof fn resets_destroy_nothing(contexts: Seq<CommandBuffer>, completed: u64, swapchain: u64)
    ensures
        !resets(contexts, completed).contains(Effect::DestroySwapchain(swapchain)),
    decreases contexts.len(),
{
    if contexts.len() > 0 {
        resets_destroy_nothing(contexts.drop_last(), completed, swapchain);
        let earlier = resets(contexts.drop_last(), completed);
        let all = resets(contexts, completed);
        assert forall|i: int| 0 <= i < all.len() implies all[i] != Effect::DestroySwapchain(
            swapchain,
        ) by {
            if i < earlier.len() {
                assert(all[i] == earlier[i]);
            }
        }
    }
}

proof fn settling_destroys(timeline: TimelineState, swapchain: u64)
    requires
        grouped(timeline.deferred),
        timeline.settling().contains(Effect::DestroySwapchain(swapchain)),
    ensures
        holds(timeline.deferred, swapchain),
{
    let goal = Effect::DestroySwapchain(swapchain);
    let first = resets(timeline.contexts, timeline.completed);
    let second = collected(timeline.deferred, timeline.completed);
    resets_destroy_nothing(timeline.contexts, timeline.completed, swapchain);
    let all = timeline.settling();
    let at = choose|i: int| 0 <= i < all.len() && all[i] == goal;
    if at < first.len() {
        assert(first[at] == goal);
    }
    assert(second[at - first.len()] == goal);
    destroyed_swapchains_are_done(timeline.deferred, timeline.completed, swapchain);
}

proof fn remaining_holds_less(entries: Seq<DeferredSwapchainImage>, completed: u64)
    requires
        sorted(entries),
    ensures
        forall|handle: u64|
            holds(remaining(entries, completed), handle) ==> holds(entries, handle),
{
    crate::deferred::due_is_exact(entries, completed);
    let d = crate::deferred::due(entries, completed) as int;
    let rest = remaining(entries, completed);
    assert forall|handle: u64| holds(rest, handle) implies holds(entries, handle) by {
        let i = choose|i: int| 0 <= i < rest.len() && (#[trigger] rest[i]).swapchain == handle;
        assert(rest[i] == entries[d + i]);
    }
}

impl Window {
    proof fn complete_is_wf(self, index: int)
        requires
            self.wf(),
            0 <= index < self.contexts.len(),
            self.contexts[index].present_pending,
        ensures
            self.complete(index).wf(),
            self.complete(index).contexts == self.freed(index).contexts,
            self.complete(index).timeline.retirement == self.timeline.retirement,
            self.complete(index).timeline.submitted == self.timeline.submitted,
            self.complete(index).timeline.completed == self.timeline.completed,
            self.complete(index).timeline.active == self.timeline.active,
            forall|handle: u64|
                self.is_fresh(handle) ==> #[trigger] self.complete(index).is_fresh(handle),
    {
        let gone = self.contexts[index].swapchain;
        let freed = self.freed(index);
        let after = self.complete(index);
        assert forall|handle: u64| handle != gone && waits_on(self.contexts, handle) implies waits_on(
            freed.contexts,
            handle,
        ) by {
            let i = choose|i: int|
                0 <= i < self.contexts.len() && (#[trigger] self.contexts[i]).present_pending
                    && self.contexts[i].swapchain == handle;
            assert(freed.contexts[i].present_pending);
        }
        if freed.goes(gone) {
            let k = freed.slot(gone);
            assert(is_slot(freed.retired, k, gone));
            let retired = freed.retired[k];
            assert(retired == self.retired[k]);
            defer_is_wf(self.timeline, retired);
            assert forall|l: int| 0 <= l < after.retired.len() implies waits_on(
                after.contexts,
                (#[trigger] after.retired[l]).handle,
            ) by {
                let m = if l < k {
                    l
                } else {
                    l + 1
                };
                assert(after.retired[l] == self.retired[m]);
            }
            assert forall|i: int|
                0 <= i < after.contexts.len() && (
                #[trigger] after.contexts[i]).present_pending implies !holds(
                after.timeline.deferred,
                after.contexts[i].swapchain,
            ) by {
                assert(i != index);
                assert(freed.contexts[i].present_pending);
                assert(self.contexts[i].present_pending);
            }
        } else {
            assert forall|l: int| 0 <= l < after.retired.len() implies waits_on(
                after.contexts,
                (#[trigger] after.retired[l]).handle,
            ) by {
                assert(is_slot(freed.retired, l, after.retired[l].handle));
            }
        }
        assert forall|handle: u64| self.is_fresh(handle) implies #[trigger] after.is_fresh(
            handle,
        ) by {
            if freed.goes(gone) {
                let k = freed.slot(gone);
                assert(is_slot(freed.retired, k, gone));
                assert(self.retired[k].handle != handle);
                assert forall|l: int| 0 <= l < after.retired.len() implies (
                #[trigger] after.retired[l]).handle != handle by {
                    let m = if l < k {
                        l
                    } else {
                        l + 1
                    };
                    assert(after.retired[l] == self.retired[m]);
                }
            }
        }
    }

    /// The end of a present keeps what was not given away.
    pub proof fn fresh_through(self, index: int)
        requires
            self.wf(),
            0 <= index < self.contexts.len(),
            self.contexts[index].present_pending,
        ensures
            forall|handle: u64|
                self.is_fresh(handle) ==> #[trigger] self.complete(index).is_fresh(handle),
            self.complete(index).contexts == self.contexts.update(
                index,
                self.contexts[index].freed(),
            ),
            self.complete(index).timeline.active == self.timeline.active,
    {
        self.complete_is_wf(index);
    }

    proof fn polled_is_wf(self, count: nat, signaled: Seq<bool>)
        requires
            self.wf(),
            count <= self.contexts.len(),
        ensures
            self.polled(count, signaled).wf(),
            self.polled(count, signaled).contexts.len() == self.contexts.len(),
            self.polled(count, signaled).timeline.submitted == self.timeline.submitted,
            self.polled(count, signaled).timeline.completed == self.timeline.completed,
            self.polled(count, signaled).timeline.active == self.timeline.active,
            forall|handle: u64|
                self.is_fresh(handle) ==> #[trigger] self.polled(count, signaled).is_fresh(handle),
        decreases count,
    {
        if count > 0 {
            self.polled_is_wf((count - 1) as nat, signaled);
            let before = self.polled((count - 1) as nat, signaled);
            if before.contexts[count - 1].present_pending {
                before.complete_is_wf(count - 1);
            }
            assert forall|handle: u64| self.is_fresh(handle) implies #[trigger] self.polled(
                count,
                signaled,
            ).is_fresh(handle) by {
                assert(before.is_fresh(handle));
            }
        }
    }

    proof fn waited_is_wf(self, count: nat, swapchain: u64)
        requires
            self.wf(),
            count <= self.contexts.len(),
        ensures
            self.waited(count, swapchain).wf(),
            self.waited(count, swapchain).contexts.len() == self.contexts.len(),
            self.waited(count, swapchain).timeline.retirement == self.timeline.retirement,
            self.waited(count, swapchain).timeline.submitted == self.timeline.submitted,
            self.waited(count, swapchain).timeline.completed == self.timeline.completed,
            self.waited(count, swapchain).timeline.active == self.timeline.active,
            forall|handle: u64|
                self.is_fresh(handle) ==> #[trigger] self.waited(count, swapchain).is_fresh(
                    handle,
                ),
            forall|i: int|
                0 <= i < count && self.waited(count, swapchain).concerns(i, swapchain) ==> !(
                #[trigger] self.waited(count, swapchain).contexts[i]).present_pending,
        decreases count,
    {
        if count > 0 {
            self.waited_is_wf((count - 1) as nat, swapchain);
            let before = self.waited((count - 1) as nat, swapchain);
            let after = self.waited(count, swapchain);
            if before.contexts[count - 1].present_pending {
                before.complete_is_wf(count - 1);
            }
            assert forall|handle: u64| self.is_fresh(handle) implies #[trigger] after.is_fresh(
                handle,
            ) by {
                assert(before.is_fresh(handle));
            }
            assert forall|i: int|
                0 <= i < count && after.concerns(i, swapchain) implies !(
            #[trigger] after.contexts[i]).present_pending by {
                if i < count - 1 {
                    assert(after.contexts[i] == before.contexts[i]);
                }
            }
        }
    }

    /// Giving up a swapchain keeps the state in order, and other swapchains as they are.
    pub proof fn retire_is_wf(self, retired: RetiredState, signaled: Seq<bool>)
        requires
            self.wf(),
            retired.wf(),
            self.is_fresh(retired.handle),
        ensures
            self.retire(retired, signaled).wf(),
            self.retire(retired, signaled).contexts.len() == self.contexts.len(),
            self.retire(retired, signaled).timeline.submitted == self.timeline.submitted,
            self.retire(retired, signaled).timeline.completed == self.timeline.completed,
            self.retire(retired, signaled).timeline.active == self.timeline.active,
            forall|handle: u64|
                self.is_fresh(handle) && handle != retired.handle ==> #[trigger] self.retire(
                    retired,
                    signaled,
                ).is_fresh(handle),
    {
        let polled = self.polled(self.contexts.len(), signaled);
        self.polled_is_wf(self.contexts.len(), signaled);
        assert(polled.is_fresh(retired.handle));
        let after = self.retire(retired, signaled);
        if !waits_on(polled.contexts, retired.handle) {
            defer_is_wf(polled.timeline, retired);
        } else if polled.retired.len() < MAX_SWAPCHAIN_IMAGES {
            assert forall|k: int| 0 <= k < after.retired.len() implies waits_on(
                after.contexts,
                (#[trigger] after.retired[k]).handle,
            ) by {
                if k < polled.retired.len() {
                    assert(after.retired[k] == polled.retired[k]);
                }
            }
        } else {
            let waited = polled.waited(polled.contexts.len(), retired.handle);
            polled.waited_is_wf(polled.contexts.len(), retired.handle);
            assert(waited.is_fresh(retired.handle));
            defer_is_wf(waited.timeline, retired);
            assert forall|i: int|
                0 <= i < after.contexts.len() && (
                #[trigger] after.contexts[i]).present_pending implies !holds(
                after.timeline.deferred,
                after.contexts[i].swapchain,
            ) by {
                assert(waited.contexts[i].present_pending);
                assert(!waited.concerns(i, retired.handle));
            }
        }
        assert forall|handle: u64|
            self.is_fresh(handle) && handle != retired.handle implies #[trigger] after.is_fresh(
            handle,
        ) by {
            assert(polled.is_fresh(handle));
            if waits_on(polled.contexts, retired.handle) && polled.retired.len()
                >= MAX_SWAPCHAIN_IMAGES {
                let waited = polled.waited(polled.contexts.len(), retired.handle);
                assert(waited.is_fresh(handle));
            }
        }
    }

    /// A look at the semaphore keeps the state in order, and other swapchains as they are.
    pub proof fn polled_timeline_is_wf(self, counter: Option<u64>)
        requires
            self.wf(),
            self.timeline.polled(counter).wf(),
        ensures
            (Window { timeline: self.timeline.polled(counter), ..self }).wf(),
            forall|handle: u64|
                self.is_fresh(handle) ==> #[trigger] (Window {
                    timeline: self.timeline.polled(counter),
                    ..self
                }).is_fresh(handle),
    {
        if counter is Some {
            remaining_holds_less(self.timeline.deferred, counter->0);
            remaining_keeps_order(self.timeline.deferred, counter->0);
        }
    }

    /// Anything that only takes images out of the queue keeps the state in order, and other
    /// swapchains as they are.
    proof fn less_deferred_is_wf(self, timeline: TimelineState, completed: u64)
        requires
            self.wf(),
            timeline.wf(),
            timeline.deferred == remaining(self.timeline.deferred, completed),
        ensures
            (Window { timeline, ..self }).wf(),
            forall|handle: u64|
                self.is_fresh(handle) ==> #[trigger] (Window { timeline, ..self }).is_fresh(handle),
    {
        remaining_holds_less(self.timeline.deferred, completed);
        remaining_keeps_order(self.timeline.deferred, completed);
    }

    /// A submission keeps the state in order, and other swapchains as they are.
    pub proof fn submitted_is_wf(
        self,
        commands: Seq<CommandBuffer>,
        counter: Option<u64>,
    )
        requires
            self.wf(),
            crate::frame::submitted_timeline(self.timeline, commands, counter).wf(),
        ensures
            ({
                let timeline = crate::frame::submitted_timeline(self.timeline, commands, counter);
                &&& (Window { timeline, ..self }).wf()
                &&& forall|handle: u64|
                    self.is_fresh(handle) ==> #[trigger] (Window { timeline, ..self }).is_fresh(
                        handle,
                    )
            }),
    {
        let before = self.timeline;
        let after = crate::frame::submitted_timeline(before, commands, counter);
        let polled = before.polled(counter);
        let value = (before.submitted + 1 - before.max_difference) as u64;
        if before.is_full() {
            if counter is Some && counter->0 != before.completed {
                if polled.is_full() {
                    let reached = polled.reached(value).completed;
                    if counter->0 <= reached {
                        crate::deferred::collecting_twice(before.deferred, counter->0, reached);
                    }
                    self.less_deferred_is_wf(after, reached);
                } else {
                    self.less_deferred_is_wf(after, counter->0);
                }
            } else if polled.is_full() {
                self.less_deferred_is_wf(after, before.reached(value).completed);
            } else {
                self.nothing_less(after);
            }
        } else {
            self.nothing_less(after);
        }
    }

    proof fn nothing_less(self, timeline: TimelineState)
        requires
            self.wf(),
            timeline.wf(),
            timeline.deferred == self.timeline.deferred,
        ensures
            (Window { timeline, ..self }).wf(),
            forall|handle: u64|
                self.is_fresh(handle) ==> #[trigger] (Window { timeline, ..self }).is_fresh(handle),
    {
    }

    proof fn retired_work_is_wf(self)
        requires
            self.wf(),
        ensures
            self.retired_work().wf(),
            self.retired_work().timeline.submitted == self.timeline.submitted,
            self.retired_work().timeline.completed == self.timeline.submitted,
            self.retired_work().timeline.active == self.timeline.active,
            self.retired_work().timeline.deferred == Seq::<DeferredSwapchainImage>::empty(),
    {
        crate::commands::waiting_for_all(self.timeline);
        let after = self.timeline.waited(self.timeline.submitted);
        assert forall|i: int| 0 <= i < after.contexts.len() implies (
        #[trigger] after.contexts[i]).retire_value <= after.submitted by {}
    }

    proof fn waited_leaves_none(self, count: nat)
        requires
            self.wf(),
            count <= self.contexts.len(),
            self.timeline.completed == self.timeline.submitted,
            self.timeline.deferred == Seq::<DeferredSwapchainImage>::empty(),
        ensures
            self.waited(count, 0).timeline.deferred == Seq::<DeferredSwapchainImage>::empty(),
        decreases count,
    {
        if count > 0 {
            self.waited_leaves_none((count - 1) as nat);
            self.waited_is_wf((count - 1) as nat, 0);
            let before = self.waited((count - 1) as nat, 0);
            let index = count - 1;
            let freed = before.freed(index);
            let gone = before.contexts[index].swapchain;
            if before.contexts[index].present_pending && freed.goes(gone) {
                let k = freed.slot(gone);
                assert(is_slot(freed.retired, k, gone));
                let timeline = before.timeline;
                let all = timeline.joined(before.retired[k]);
                assert(forall|i: int|
                    0 <= i < all.len() ==> (#[trigger] all[i]).retire_value == timeline.submitted);
                all_due(all, timeline.completed);
            }
        }
    }

    /// After a wait for everything, no present is under way, no replaced swapchain is kept, no
    /// swapchain image waits for destruction, and no command context is in use.
    pub proof fn drain_empties(self)
        requires
            self.wf(),
        ensures
            ({
                let after = self.drain();
                &&& after.wf()
                &&& after.contexts.len() == self.contexts.len()
                &&& after.retired.len() == 0
                &&& after.timeline.deferred == Seq::<DeferredSwapchainImage>::empty()
                &&& after.timeline.completed == after.timeline.submitted
                    == self.timeline.submitted
                &&& after.timeline.active == self.timeline.active
                &&& after.timeline.retirement == self.timeline.retirement
                &&& forall|i: int|
                    0 <= i < after.contexts.len() ==> !(
                    #[trigger] after.contexts[i]).present_pending
                &&& forall|handle: u64| handle != 0 ==> #[trigger] after.is_fresh(handle)
            }),
    {
        let start = self.retired_work();
        self.retired_work_is_wf();
        let count = self.contexts.len();
        start.waited_is_wf(count, 0);
        start.waited_leaves_none(count);
        let waited = start.waited(count, 0);
        assert(remaining(waited.timeline.deferred, waited.timeline.completed)
            =~= waited.timeline.deferred);
        let after = self.drain();
        assert(after =~= waited);
        assert forall|i: int| 0 <= i < after.contexts.len() implies !(
        #[trigger] after.contexts[i]).present_pending by {
            assert(waited.concerns(i, 0));
        }
        if after.retired.len() > 0 {
            assert(waits_on(after.contexts, after.retired[0].handle));
        }
    }

    /// The end of a present destroys no swapchain of which another present is under way.
    pub proof fn completing_spares_presented(self, index: int, swapchain: u64)
        requires
            self.wf(),
            0 <= index < self.contexts.len(),
            self.contexts[index].present_pending,
            self.completing(index).contains(Effect::DestroySwapchain(swapchain)),
        ensures
            !waits_on(self.complete(index).contexts, swapchain),
    {
        let gone = self.contexts[index].swapchain;
        let freed = self.freed(index);
        self.complete_is_wf(index);
        assert(freed.goes(gone));
        let k = freed.slot(gone);
        assert(is_slot(freed.retired, k, gone));
        assert(freed.retired[k] == self.retired[k]);
        deferring_destroys(self.timeline, self.retired[k], swapchain);
        if waits_on(freed.contexts, swapchain) {
            let i = choose|i: int|
                0 <= i < freed.contexts.len() && (#[trigger] freed.contexts[i]).present_pending
                    && freed.contexts[i].swapchain == swapchain;
            assert(self.contexts[i].present_pending);
        }
    }

    proof fn polled_ends_presents(self, count: nat, signaled: Seq<bool>, swapchain: u64)
        requires
            self.wf(),
            count <= self.contexts.len(),
            self.polling(count, signaled).contains(Effect::DestroySwapchain(swapchain)),
        ensures
            !waits_on(self.polled(count, signaled).contexts, swapchain),
        decreases count,
    {
        let goal = Effect::DestroySwapchain(swapchain);
        assert(count > 0);
        self.polled_is_wf((count - 1) as nat, signaled);
        let before = self.polled((count - 1) as nat, signaled);
        let earlier = self.polling((count - 1) as nat, signaled);
        let all = self.polling(count, signaled);
        let at = choose|i: int| 0 <= i < all.len() && all[i] == goal;
        let ends = before.contexts[count - 1].present_pending && signaled[count - 1];
        if at < earlier.len() {
            assert(earlier[at] == goal);
            self.polled_ends_presents((count - 1) as nat, signaled, swapchain);
            if ends {
                before.complete_is_wf(count - 1);
                before.freed_waits_less(count - 1, swapchain);
            }
        } else {
            assert(ends);
            assert(before.completing(count - 1)[at - earlier.len()] == goal);
            before.completing_spares_presented(count - 1, swapchain);
        }
    }

    proof fn freed_waits_less(self, index: int, swapchain: u64)
        requires
            0 <= index < self.contexts.len(),
        ensures
            waits_on(self.freed(index).contexts, swapchain) ==> waits_on(self.contexts, swapchain),
    {
        let freed = self.freed(index);
        if waits_on(freed.contexts, swapchain) {
            let i = choose|i: int|
                0 <= i < freed.contexts.len() && (#[trigger] freed.contexts[i]).present_pending
                    && freed.contexts[i].swapchain == swapchain;
            assert(self.contexts[i].present_pending && self.contexts[i].swapchain == swapchain);
        }
    }

    proof fn waited_waits_less(self, count: nat, waited_for: u64, swapchain: u64)
        requires
            self.wf(),
            count <= self.contexts.len(),
        ensures
            waits_on(self.waited(count, waited_for).contexts, swapchain) ==> waits_on(
                self.contexts,
                swapchain,
            ),
        decreases count,
    {
        if count > 0 {
            self.waited_waits_less((count - 1) as nat, waited_for, swapchain);
            self.waited_is_wf((count - 1) as nat, waited_for);
            let before = self.waited((count - 1) as nat, waited_for);
            if before.contexts[count - 1].present_pending {
                before.complete_is_wf(count - 1);
                before.freed_waits_less(count - 1, swapchain);
            }
        }
    }

    proof fn waited_ends_presents(self, count: nat, waited_for: u64, swapchain: u64)
        requires
            self.wf(),
            count <= self.contexts.len(),
            self.waiting_for(count, waited_for).contains(Effect::DestroySwapchain(swapchain)),
        ensures
            !waits_on(self.waited(count, waited_for).contexts, swapchain),
        decreases count,
    {
        let goal = Effect::DestroySwapchain(swapchain);
        assert(count > 0);
        self.waited_is_wf((count - 1) as nat, waited_for);
        let before = self.waited((count - 1) as nat, waited_for);
        let earlier = self.waiting_for((count - 1) as nat, waited_for);
        let all = self.waiting_for(count, waited_for);
        let at = choose|i: int| 0 <= i < all.len() && all[i] == goal;
        if at < earlier.len() {
            assert(earlier[at] == goal);
            self.waited_ends_presents((count - 1) as nat, waited_for, swapchain);
            if before.contexts[count - 1].present_pending {
                before.complete_is_wf(count - 1);
                before.freed_waits_less(count - 1, swapchain);
            }
        } else {
            assert(before.contexts[count - 1].present_pending);
            assert(before.waiting(count - 1)[at - earlier.len()] == goal);
            assert(before.completing(count - 1)[at - earlier.len() - 1] == goal);
            before.completing_spares_presented(count - 1, swapchain);
        }
    }

    /// Giving up a swapchain destroys no swapchain of which a present is under way, neither the one
    /// that is given up nor one that was before.
    pub proof fn retiring_spares_presented(
        self,
        retired: RetiredState,
        signaled: Seq<bool>,
        swapchain: u64,
    )
        requires
            self.wf(),
            retired.wf(),
            self.is_fresh(retired.handle),
            self.retiring(retired, signaled).contains(Effect::DestroySwapchain(swapchain)),
        ensures
            !waits_on(self.retire(retired, signaled).contexts, swapchain),
    {
        let goal = Effect::DestroySwapchain(swapchain);
        let count = self.contexts.len();
        let polled = self.polled(count, signaled);
        self.polled_is_wf(count, signaled);
        assert(polled.is_fresh(retired.handle));
        let waited = polled.waited(count, retired.handle);
        polled.waited_is_wf(count, retired.handle);
        assert(waited.is_fresh(retired.handle));
        let first = self.polling(count, signaled);
        let second = polled.waiting_for(count, retired.handle);
        let all = self.retiring(retired, signaled);
        let at = choose|i: int| 0 <= i < all.len() && all[i] == goal;
        if at < first.len() {
            assert(first[at] == goal);
            self.polled_ends_presents(count, signaled, swapchain);
            polled.waited_waits_less(count, retired.handle, swapchain);
        } else if !waits_on(polled.contexts, retired.handle) {
            assert(polled.timeline.deferring(retired)[at - first.len()] == goal);
            deferring_destroys(polled.timeline, retired, swapchain);
        } else if at < first.len() + second.len() {
            assert(polled.retired.len() >= MAX_SWAPCHAIN_IMAGES);
            assert(second[at - first.len()] == goal);
            polled.waited_ends_presents(count, retired.handle, swapchain);
        } else {
            assert(waited.timeline.deferring(retired)[at - first.len() - second.len()] == goal);
            deferring_destroys(waited.timeline, retired, swapchain);
            if waits_on(waited.contexts, retired.handle) {
                let i = choose|i: int|
                    0 <= i < waited.contexts.len() && (
                    #[trigger] waited.contexts[i]).present_pending && waited.contexts[i].swapchain
                        == retired.handle;
                assert(waited.concerns(i, retired.handle));
            }
        }
    }

    /// A look at the semaphore destroys no swapchain of which a present is under way.
    pub proof fn polling_spares_presented(self, counter: Option<u64>, swapchain: u64)
        requires
            self.wf(),
            self.timeline.polling(counter).contains(Effect::DestroySwapchain(swapchain)),
        ensures
            !waits_on(self.contexts, swapchain),
    {
        let timeline = self.timeline;
        let reached = TimelineState { completed: counter->0, ..timeline };
        settling_destroys(reached, swapchain);
    }

    /// A submission destroys no swapchain of which a present is under way.
    pub proof fn submitting_spares_presented(self, counter: Option<u64>, swapchain: u64)
        requires
            self.wf(),
            self.timeline.making_room(counter).contains(Effect::DestroySwapchain(swapchain)),
        ensures
            !waits_on(self.contexts, swapchain),
    {
        let goal = Effect::DestroySwapchain(swapchain);
        let timeline = self.timeline;
        let polled = timeline.polled(counter);
        let first = timeline.polling(counter);
        let all = timeline.making_room(counter);
        let at = choose|i: int| 0 <= i < all.len() && all[i] == goal;
        if at < first.len() {
            assert(first[at] == goal);
            self.polling_spares_presented(counter, swapchain);
        } else {
            let value = (timeline.submitted + 1 - timeline.max_difference) as u64;
            let second = polled.waiting(value);
            assert(second[at - first.len()] == goal);
            let settling = polled.reached(value).settling();
            let skipped = second.len() - settling.len();
            assert(settling[at - first.len() - skipped] == goal);
            if counter is Some {
                remaining_holds_less(timeline.deferred, counter->0);
                remaining_keeps_order(timeline.deferred, counter->0);
            }
            settling_destroys(polled.reached(value), swapchain);
        }
    }

    /// A swapchain that is being presented is not destroyed: none of its images waits for
    /// destruction.
    pub proof fn presented_is_kept(self, index: int)
        requires
            self.wf(),
            0 <= index < self.contexts.len(),
            self.contexts[index].present_pending,
        ensures
            !holds(self.timeline.deferred, self.contexts[index].swapchain),
    {
    }
}

/// The presents of a window, and the swapchains that were replaced while they were under way.
#[derive(Debug)]
pub struct Presentation {
    pub contexts: Vec<PresentContext>,
    pub retired: Vec<RetiredSwapchain>,
    /// The context of the next present.
    pub next: usize,
}

impl Presentation {
    /// The replaced swapchains.
    pub open spec fn retired_states(&self) -> Seq<RetiredState> {
        self.retired@.map_values(|r: RetiredSwapchain| r@)
    }

    /// The presents together with the timeline.
    pub open spec fn window(&self, timeline: &Timeline) -> Window {
        Window {
            contexts: self.contexts@,
            retired: self.retired_states(),
            timeline: timeline@,
        }
    }

    /// `count` contexts with nothing in them.
    pub fn new(count: usize) -> (r: Self)
        requires
            count <= MAX_SWAPCHAIN_IMAGES,
        ensures
            r.contexts@.len() == count,
            forall|i: int|
                0 <= i < count ==> (#[trigger] r.contexts@[i]) == PresentContext::empty(),
            r.retired@.len() == 0,
            r.next == 0,
    {
        let mut contexts: Vec<PresentContext> = Vec::new();
        let mut i: usize = 0;
        while i < count
            invariant
                i <= count,
                contexts@.len() == i,
                forall|j: int|
                    0 <= j < i ==> (#[trigger] contexts@[j]) == PresentContext::empty(),
            decreases count - i,
        {
            contexts.push(PresentContext::default());
            i += 1;
        }
        Presentation { contexts, retired: Vec::new(), next: 0 }
    }

    /// Takes a part of a context that was created, or the code with which the creation failed.
    pub fn create_present_context(
        &mut self,
        index: usize,
        part: PresentPart,
        result: Result<u64, i32>,
    ) -> (r: Result<(), Failure>)
        requires
            index < old(self).contexts@.len(),
        ensures
            final(self).retired == old(self).retired,
            final(self).next == old(self).next,
            match result {
                Ok(handle) => r is Ok && final(self).contexts@ == old(self).contexts@.update(
                    index as int,
                    old(self).contexts@[index as int].with_part(part, handle),
                ),
                Err(code) => r == Err::<(), Failure>(failure_of(code)) && final(self).contexts
                    == old(self).contexts,
            },
    {
        match result {
            Ok(handle) => {
                let context = self.contexts[index];
                self.contexts[index] = match part {
                    PresentPart::Acquired => PresentContext { acquired: handle, ..context },
                    PresentPart::Rendered => PresentContext { rendered: handle, ..context },
                    PresentPart::Presented => PresentContext { presented: handle, ..context },
                };
                Ok(())
            },
            Err(code) => Err(Failure::from_code(code)),
        }
    }

    /// Empties a context and destroys the parts that were created.
    pub fn destroy_present_context(&mut self, index: usize, effects: &mut Vec<Effect>)
        requires
            index < old(self).contexts@.len(),
            !old(self).contexts@[index as int].present_pending,
        ensures
            final(self).retired == old(self).retired,
            final(self).next == old(self).next,
            final(self).contexts@ == old(self).contexts@.update(
                index as int,
                PresentContext::empty(),
            ),
            final(effects)@ == old(effects)@ + old(self).contexts@[index as int].destruction(),
    {
        let context = self.contexts[index];
        self.contexts[index] = PresentContext::default();
        if context.acquired != 0 {
            effects.push(Effect::DestroySemaphore(context.acquired));
        }
        if context.rendered != 0 {
            effects.push(Effect::DestroySemaphore(context.rendered));
        }
        if context.presented != 0 {
            effects.push(Effect::DestroyFence(context.presented));
        }
        assert(effects@ =~= old(effects)@ + context.destruction());
    }

    fn is_waited_on(&self, swapchain: u64) -> (r: bool)
        ensures
            r == waits_on(self.contexts@, swapchain),
    {
        let mut i: usize = 0;
        while i < self.contexts.len()
            invariant
                i <= self.contexts@.len(),
                forall|j: int|
                    0 <= j < i ==> !((#[trigger] self.contexts@[j]).present_pending
                        && self.contexts@[j].swapchain == swapchain),
            decreases self.contexts@.len() - i,
        {
            if self.contexts[i].present_pending && self.contexts[i].swapchain == swapchain {
                return true;
            }
            i += 1;
        }
        false
    }

    /// The fences to look at: that of each context with a present under way.
    pub fn pending_fences(&self) -> (r: Vec<Option<u64>>)
        ensures
            r@ == self.contexts@.map_values(
                |c: PresentContext|
                    if c.present_pending {
                        Some(c.presented)
                    } else {
                        None
                    },
            ),
    {
        let mut fences: Vec<Option<u64>> = Vec::new();
        let mut i: usize = 0;
        while i < self.contexts.len()
            invariant
                i <= self.contexts@.len(),
                fences@.len() == i,
                forall|j: int|
                    0 <= j < i ==> (#[trigger] fences@[j]) == (
                    if self.contexts@[j].present_pending {
                        Some(self.contexts@[j].presented)
                    } else {
                        None
                    }),
            decreases self.contexts@.len() - i,
        {
            let fence = if self.contexts[i].present_pending {
                Some(self.contexts[i].presented)
            } else {
                None
            };
            fences.push(fence);
            i += 1;
        }
        fences
    }

    fn finish_present_context(
        &mut self,
        index: usize,
        timeline: &mut Timeline,
        effects: &mut Vec<Effect>,
    )
        requires
            old(self).window(old(timeline)).wf(),
            old(timeline)@.active == 0,
            index < old(self).contexts@.len(),
            old(self).contexts@[index as int].present_pending,
        ensures
            final(self).window(final(timeline)).wf(),
            final(self).window(final(timeline)) == old(self).window(old(timeline)).complete(
                index as int,
            ),
            final(self).next == old(self).next,
            final(effects)@ == old(effects)@ + old(self).window(old(timeline)).completing(
                index as int,
            ),
    {
        let ghost start = self.window(timeline);
        let ghost made = effects@;
        proof {
            start.complete_is_wf(index as int);
        }
        let completed = self.contexts[index].swapchain;
        let context = self.contexts[index];
        self.contexts[index] = PresentContext { present_pending: false, swapchain: 0, ..context };
        let ghost freed = start.freed(index as int);
        assert(self.window(timeline) =~= freed);
        let mut slot: usize = 0;
        while slot < self.retired.len() && self.retired[slot].handle != completed
            invariant
                slot <= self.retired@.len(),
                self.window(timeline) == freed,
                forall|k: int| 0 <= k < slot ==> !is_slot(freed.retired, k, completed),
            decreases self.retired@.len() - slot,
        {
            assert(freed.retired[slot as int].handle == self.retired@[slot as int].handle);
            slot += 1;
        }
        if slot == self.retired.len() {
            assert(!freed.goes(completed));
            assert(effects@ =~= made + freed.releasing(completed));
            return;
        }
        assert(is_slot(freed.retired, slot as int, completed)) by {
            assert(freed.retired[slot as int].handle == self.retired@[slot as int].handle);
        }
        if self.is_waited_on(completed) {
            assert(effects@ =~= made + freed.releasing(completed));
            return;
        }
        proof {
            let k = freed.slot(completed);
            assert(is_slot(freed.retired, k, completed));
            if k < slot {
                assert(start.retired[k].handle != start.retired[slot as int].handle);
            } else if slot < k {
                assert(start.retired[slot as int].handle != start.retired[k].handle);
            }
            assert(start.retired[k].wf());
        }
        let retired = self.retired.remove(slot);
        assert(retired@ == freed.retired[slot as int]);
        queue_retired_swapchain(timeline, retired, effects);
        assert(self.retired_states() =~= freed.retired.remove(slot as int));
        assert(self.window(timeline) =~= freed.release(completed));
    }

    /// Waits for the present of a context, if one is under way.
    pub fn wait_present_context(
        &mut self,
        index: usize,
        timeline: &mut Timeline,
        effects: &mut Vec<Effect>,
    )
        requires
            old(self).window(old(timeline)).wf(),
            old(timeline)@.active == 0,
            index < old(self).contexts@.len(),
        ensures
            final(self).window(final(timeline)).wf(),
            final(self).window(final(timeline)) == old(self).window(old(timeline)).wait(
                index as int,
            ),
            final(self).next == old(self).next,
            final(effects)@ == old(effects)@ + old(self).window(old(timeline)).waiting(
                index as int,
            ),
    {
        let ghost start = self.window(timeline);
        let ghost made = effects@;
        if self.contexts[index].present_pending {
            effects.push(Effect::WaitFence(self.contexts[index].presented));
            self.finish_present_context(index, timeline, effects);
        }
        assert(effects@ =~= made + start.waiting(index as int));
    }

    /// Takes the states of the fences: a signaled fence ends the present of its context.
    pub fn poll_present_contexts(
        &mut self,
        signaled: &Vec<bool>,
        timeline: &mut Timeline,
        effects: &mut Vec<Effect>,
    )
        requires
            old(self).window(old(timeline)).wf(),
            old(timeline)@.active == 0,
            signaled@.len() == old(self).contexts@.len(),
        ensures
            final(self).window(final(timeline)).wf(),
            final(self).window(final(timeline)) == old(self).window(old(timeline)).polled(
                old(self).contexts@.len(),
                signaled@,
            ),
            final(self).next == old(self).next,
            final(effects)@ == old(effects)@ + old(self).window(old(timeline)).polling(
                old(self).contexts@.len(),
                signaled@,
            ),
    {
        let ghost start = self.window(timeline);
        let ghost made = effects@;
        let count = self.contexts.len();
        let mut index: usize = 0;
        assert(effects@ =~= made + start.polling(0, signaled@));
        while index < count
            invariant
                index <= count == start.contexts.len() == signaled@.len(),
                start.wf(),
                start.timeline.active == 0,
                self.window(timeline) == start.polled(index as nat, signaled@),
                self.window(timeline).wf(),
                self.next == old(self).next,
                effects@ == made + start.polling(index as nat, signaled@),
            decreases count - index,
        {
            proof {
                start.polled_is_wf(index as nat, signaled@);
            }
            let ghost before = effects@;
            if self.contexts[index].present_pending && signaled[index] {
                self.finish_present_context(index, timeline, effects);
            }
            index += 1;
            assert(effects@ =~= made + start.polling(index as nat, signaled@));
        }
    }

    fn wait_present_contexts(
        &mut self,
        swapchain: u64,
        timeline: &mut Timeline,
        effects: &mut Vec<Effect>,
    )
        requires
            old(self).window(old(timeline)).wf(),
            old(timeline)@.active == 0,
        ensures
            final(self).window(final(timeline)).wf(),
            final(self).window(final(timeline)) == old(self).window(old(timeline)).waited(
                old(self).contexts@.len(),
                swapchain,
            ),
            final(self).next == old(self).next,
            final(effects)@ == old(effects)@ + old(self).window(old(timeline)).waiting_for(
                old(self).contexts@.len(),
                swapchain,
            ),
    {
        let ghost start = self.window(timeline);
        let ghost made = effects@;
        let count = self.contexts.len();
        let mut index: usize = 0;
        assert(effects@ =~= made + start.waiting_for(0, swapchain));
        while index < count
            invariant
                index <= count == start.contexts.len(),
                start.wf(),
                start.timeline.active == 0,
                self.window(timeline) == start.waited(index as nat, swapchain),
                self.window(timeline).wf(),
                self.next == old(self).next,
                effects@ == made + start.waiting_for(index as nat, swapchain),
            decreases count - index,
        {
            proof {
                start.waited_is_wf(index as nat, swapchain);
            }
            if swapchain == 0 || self.contexts[index].swapchain == swapchain {
                self.wait_present_context(index, timeline, effects);
            }
            index += 1;
            assert(effects@ =~= made + start.waiting_for(index as nat, swapchain));
        }
    }

    /// Gives up a swapchain. `signaled` holds the states of the fences.
    pub fn retire(
        &mut self,
        retired: RetiredSwapchain,
        signaled: &Vec<bool>,
        timeline: &mut Timeline,
        effects: &mut Vec<Effect>,
    )
        requires
            old(self).window(old(timeline)).wf(),
            old(timeline)@.active == 0,
            signaled@.len() == old(self).contexts@.len(),
            retired@.wf(),
            old(self).window(old(timeline)).is_fresh(retired@.handle),
        ensures
            final(self).window(final(timeline)).wf(),
            final(self).window(final(timeline)) == old(self).window(old(timeline)).retire(
                retired@,
                signaled@,
            ),
            final(self).next == old(self).next,
            final(effects)@ == old(effects)@ + old(self).window(old(timeline)).retiring(
                retired@,
                signaled@,
            ),
    {
        let ghost start = self.window(timeline);
        let ghost made = effects@;
        proof {
            start.retire_is_wf(retired@, signaled@);
            start.polled_is_wf(start.contexts.len(), signaled@);
        }
        self.poll_present_contexts(signaled, timeline, effects);
        let ghost polled = self.window(timeline);
        assert(polled.is_fresh(retired@.handle));
        if !self.is_waited_on(retired.handle) {
            queue_retired_swapchain(timeline, retired, effects);
            assert(effects@ =~= made + start.retiring(retired@, signaled@));
            assert(self.window(timeline) =~= start.retire(retired@, signaled@));
            return;
        }
        if self.retired.len() < MAX_SWAPCHAIN_IMAGES {
            self.retired.push(retired);
            assert(self.retired_states() =~= polled.retired.push(retired@));
            assert(effects@ =~= made + start.retiring(retired@, signaled@));
            assert(self.window(timeline) =~= start.retire(retired@, signaled@));
            return;
        }
        proof {
            polled.waited_is_wf(polled.contexts.len(), retired@.handle);
        }
        self.wait_present_contexts(retired.handle, timeline, effects);
        assert(self.window(timeline).is_fresh(retired@.handle));
        queue_retired_swapchain(timeline, retired, effects);
        assert(effects@ =~= made + start.retiring(retired@, signaled@));
        assert(self.window(timeline) =~= start.retire(retired@, signaled@));
    }

    /// Waits for everything that was submitted and for every present.
    pub fn drain_contexts(&mut self, timeline: &mut Timeline, effects: &mut Vec<Effect>)
        requires
            old(self).window(old(timeline)).wf(),
            old(timeline)@.active == 0,
        ensures
            final(self).window(final(timeline)).wf(),
            final(self).window(final(timeline)) == old(self).window(old(timeline)).drain(),
            final(self).next == old(self).next,
            final(effects)@ == old(effects)@ + old(self).window(old(timeline)).draining(),
    {
        let ghost start = self.window(timeline);
        let ghost made = effects@;
        proof {
            start.retired_work_is_wf();
            start.drain_empties();
        }
        let submitted = timeline.submitted;
        timeline.wait_command_retirement(submitted, effects);
        assert(self.window(timeline) =~= start.retired_work());
        self.wait_present_contexts(0, timeline, effects);
        timeline.collect_swapchains(effects);
        assert(effects@ =~= made + start.draining());
        assert(self.window(timeline) =~= start.drain());
    }
}

fn queue_retired_swapchain(
    timeline: &mut Timeline,
    retired: RetiredSwapchain,
    effects: &mut Vec<Effect>,
)
    requires
        old(timeline)@.wf(),
        old(timeline)@.active == 0,
        grouped(old(timeline)@.deferred),
        !holds(old(timeline)@.deferred, retired@.handle),
        retired@.wf(),
    ensures
        final(timeline)@.wf(),
        final(timeline)@ == old(timeline)@.defer(retired@),
        final(effects)@ == old(effects)@ + old(timeline)@.deferring(retired@),
{
    let ghost start = timeline@;
    let value = timeline.submitted;
    let mut i: usize = 0;
    assert(timeline@.deferred =~= start.deferred + retired@.images(value).take(0));
    while i < retired.views.len()
        invariant
            i <= retired.views@.len(),
            retired@.wf(),
            value == start.submitted,
            start.wf(),
            timeline@.wf(),
            timeline@ == (TimelineState {
                deferred: start.deferred + retired@.images(value).take(i as int),
                ..start
            }),
        decreases retired.views@.len() - i,
    {
        let ghost before = timeline@;
        assert(retired@.views[i as int] != 0);
        timeline.deferred.push(value, retired.handle, retired.views[i]);
        i += 1;
        assert(timeline@.deferred =~= start.deferred + retired@.images(value).take(i as int));
        assert forall|j: int| 0 <= j < timeline@.deferred.len() implies (
        #[trigger] timeline@.deferred[j]).retire_value <= timeline@.submitted by {
            if j < before.deferred.len() {
                assert(timeline@.deferred[j] == before.deferred[j]);
            }
        }
    }
    assert(retired@.images(value).take(i as int) =~= retired@.images(value));
    assert(timeline@.deferred =~= start.joined(retired@));
    timeline.collect_swapchains(effects);
}

/// Of a present context, one part is replaced at a time, and the end of a present leaves its parts
/// as they are.
pub proof fn parts_are_replaced_one_at_a_time(
    context: PresentContext,
    part: PresentPart,
    handle: u64,
)
    ensures
        ({
            let after = context.with_part(part, handle);
            &&& after.acquired == if part is Acquired {
                handle
            } else {
                context.acquired
            }
            &&& after.rendered == if part is Rendered {
                handle
            } else {
                context.rendered
            }
            &&& after.presented == if part is Presented {
                handle
            } else {
                context.presented
            }
            &&& after.swapchain == context.swapchain
            &&& after.present_pending == context.present_pending
            &&& context.freed() == PresentContext {
                acquired: context.acquired,
                rendered: context.rendered,
                presented: context.presented,
                ..PresentContext::empty()
            }
            &&& !context.freed().present_pending
            &&& context.freed().swapchain == 0
        }),
{
}

/// Every part of a present context that was created is destroyed, as what it is, and nothing else.
pub proof fn created_parts_are_destroyed(context: PresentContext, effect: Effect)
    ensures
        context.destruction().contains(effect) <==> {
            ||| context.acquired != 0 && effect == Effect::DestroySemaphore(context.acquired)
            ||| context.rendered != 0 && effect == Effect::DestroySemaphore(context.rendered)
            ||| context.presented != 0 && effect == Effect::DestroyFence(context.presented)
        },
        context.destruction().len() == (if context.acquired != 0 {
            1int
        } else {
            0
        }) + (if context.rendered != 0 {
            1int
        } else {
            0
        }) + (if context.presented != 0 {
            1int
        } else {
            0
        }),
{
    let calls = context.destruction();
    let a: int = if context.acquired != 0 {
        1
    } else {
        0
    };
    let b: int = if context.rendered != 0 {
        a + 1
    } else {
        a
    };
    if context.acquired != 0 {
        assert(calls[0] == Effect::DestroySemaphore(context.acquired));
    }
    if context.rendered != 0 {
        assert(calls[a] == Effect::DestroySemaphore(context.rendered));
    }
    if context.presented != 0 {
        assert(calls[b] == Effect::DestroyFence(context.presented));
    }
}

/// Every image of a replaced swapchain waits for all that was submitted, under the name of its
/// swapchain.
pub proof fn replaced_images_wait_for_submitted_work(
    timeline: TimelineState,
    retired: RetiredState,
    place: int,
)
    requires
        0 <= place < retired.views.len(),
    ensures
        ({
            let queue = timeline.joined(retired);
            let entry = queue[timeline.deferred.len() + place];
            &&& queue.len() == timeline.deferred.len() + retired.views.len()
            &&& queue.take(timeline.deferred.len() as int) =~= timeline.deferred
            &&& entry.view == retired.views[place]
            &&& entry.swapchain == retired.handle
            &&& entry.retire_value == timeline.submitted
        }),
{
}

/// The end of a present frees its context alone, and what was submitted or completed stays so.
pub proof fn completing_frees_one_context(window: Window, index: int, other: int)
    requires
        0 <= index < window.contexts.len(),
        0 <= other < window.contexts.len(),
    ensures
        ({
            let after = window.complete(index);
            &&& after.contexts.len() == window.contexts.len()
            &&& !after.contexts[index].present_pending
            &&& after.contexts[index].swapchain == 0
            &&& after.contexts[index].acquired == window.contexts[index].acquired
            &&& after.contexts[index].rendered == window.contexts[index].rendered
            &&& after.contexts[index].presented == window.contexts[index].presented
            &&& other != index ==> after.contexts[other] == window.contexts[other]
            &&& after.timeline.submitted == window.timeline.submitted
            &&& after.timeline.completed == window.timeline.completed
            &&& after.timeline.contexts == window.timeline.contexts
        }),
{
}

/// A present is waited for by its own fence, exactly if it is under way.
pub proof fn presents_are_waited_for_by_their_fence(window: Window, index: int)
    requires
        0 <= index < window.contexts.len(),
    ensures
        ({
            let calls = window.waiting(index);
            &&& !window.contexts[index].present_pending ==> calls.len() == 0 && window.wait(index)
                == window
            &&& window.contexts[index].present_pending ==> calls.len() > 0 && calls[0]
                == Effect::WaitFence(window.contexts[index].presented)
            &&& !window.wait(index).contexts[index].present_pending
        }),
{
}

/// A swapchain that is given up while no present of it is under way is put off until submitted work
/// has completed. Else it is kept as it is while there is room, and after that waited for.
pub proof fn given_up_swapchains_wait_for_their_presents(
    window: Window,
    retired: RetiredState,
    signaled: Seq<bool>,
)
    ensures
        ({
            let polled = window.polled(window.contexts.len(), signaled);
            let after = window.retire(retired, signaled);
            let shown = waits_on(polled.contexts, retired.handle);
            &&& !shown ==> after.retired == polled.retired && after.timeline
                == polled.timeline.defer(retired)
            &&& shown && polled.retired.len() < 8 ==> {
                &&& after.retired.len() == polled.retired.len() + 1
                &&& after.retired.last() == retired
                &&& after.timeline == polled.timeline
                &&& after.contexts == polled.contexts
            }
            &&& !shown ==> after.contexts == polled.contexts
        }),
{
}

/// A replaced swapchain stays while a present of it is under way, and goes with the last one.
pub proof fn replaced_swapchains_go_with_their_last_present(window: Window, swapchain: u64)
    ensures
        waits_on(window.contexts, swapchain) ==> window.release(swapchain) == window
            && window.releasing(swapchain).len() == 0,
        (forall|k: int|
            0 <= k < window.retired.len() ==> (#[trigger] window.retired[k]).handle != swapchain)
            ==> window.release(swapchain) == window && window.releasing(swapchain).len() == 0,
        (exists|k: int| is_slot(window.retired, k, swapchain)) && !waits_on(
            window.contexts,
            swapchain,
        ) ==> window.release(swapchain).retired.len() == window.retired.len() - 1,
{
    if exists|k: int| is_slot(window.retired, k, swapchain) {
        let k = choose|k: int| is_slot(window.retired, k, swapchain);
        assert(window.retired[k].handle == swapchain);
    }
}

/// Only signaled fences end presents that are looked at, and looking at none changes nothing.
pub proof fn signaled_presents_end(window: Window, count: nat, signaled: Seq<bool>)
    ensures
        window.polled(0, signaled) == window,
        window.polling(0, signaled).len() == 0,
        ({
            let before = window.polled(count, signaled);
            let after = window.polled(count + 1, signaled);
            &&& !signaled[count as int] ==> after == before
            &&& !before.contexts[count as int].present_pending ==> after == before
            &&& signaled[count as int] && before.contexts[count as int].present_pending ==> after
                == before.complete(count as int)
        }),
{
}

} // verus!
