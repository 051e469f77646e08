//! The end of a device.

use crate::allocation::teardown;
use crate::commands::TimelineState;
use crate::deferred::DeferredSwapchainImage;
use crate::device::Device;
use crate::effect::Effect;
use crate::present::{waits_on, PresentContext, Window};
use crate::swapchain::SwapchainState;
use vstd::prelude::*;

verus! {

/// The calls that destroy present contexts.
pub open spec fn contexts_destruction(contexts: Seq<PresentContext>) -> Seq<Effect>
    decreases contexts.len(),
{
    if contexts.len() == 0 {
        seq![]
    } else {
        contexts_destruction(contexts.drop_last()) + contexts.last().destruction()
    }
}

/// The call that destroys a semaphore, unless it is null.
pub open spec fn semaphore_destruction(semaphore: u64) -> Seq<Effect> {
    if semaphore == 0 {
        seq![]
    } else {
        seq![Effect::DestroySemaphore(semaphore)]
    }
}

/// An acquired image is let go.
pub open spec fn let_go(swapchain: SwapchainState) -> SwapchainState {
    SwapchainState {
        present_context: None,
        transition_commands: None,
        acquired: false,
        ..swapchain
    }
}

/// No fence is signaled.
pub open spec fn no_signals(count: nat) -> Seq<bool> {
    Seq::new(count, |i: int| false)
}

impl Window {
    /// An idle device has completed all that was submitted, also what a failed submission reserved.
    pub open spec fn with_idle(self, idle: bool) -> Self {
        if idle {
            Window {
                timeline: TimelineState {
                    completed: self.timeline.submitted,
                    ..self.timeline
                },
                ..self
            }
        } else {
            self
        }
    }

    proof fn nothing_to_poll(self, count: nat, signaled: Seq<bool>)
        requires
            forall|i: int|
                0 <= i < self.contexts.len() ==> !(#[trigger] self.contexts[i]).present_pending,
            count <= self.contexts.len(),
        ensures
            self.polled(count, signaled) == self,
            self.polling(count, signaled) == Seq::<Effect>::empty(),
        decreases count,
    {
        if count > 0 {
            self.nothing_to_poll((count - 1) as nat, signaled);
            assert(self.polling(count, signaled) =~= Seq::<Effect>::empty());
        }
    }

    /// A swapchain that is given up when nothing is under way is destroyed at once.
    proof fn quiet_retirement(
        self,
        retired: crate::present::RetiredState,
        signaled: Seq<bool>,
    )
        requires
            self.wf(),
            retired.wf(),
            self.is_fresh(retired.handle),
            self.timeline.completed == self.timeline.submitted,
            self.timeline.deferred == Seq::<DeferredSwapchainImage>::empty(),
            forall|i: int|
                0 <= i < self.contexts.len() ==> !(#[trigger] self.contexts[i]).present_pending,
        ensures
            self.retire(retired, signaled) == self,
    {
        self.nothing_to_poll(self.contexts.len(), signaled);
        assert(!waits_on(self.contexts, retired.handle));
        let all = self.timeline.joined(retired);
        assert(forall|i: int|
            0 <= i < all.len() ==> (#[trigger] all[i]).retire_value == self.timeline.submitted);
        crate::deferred::all_due(all, self.timeline.completed);
        assert(self.retire(retired, signaled) =~= self);
    }
}

impl Device {
    /// What shutting down does to the presents first: all of them are waited for.
    pub open spec fn drained(&self, idle: bool) -> Window {
        self.window().with_idle(idle).drain()
    }

    /// The calls that give up the swapchain once all presents are over.
    pub open spec fn last_retirement(&self, idle: bool) -> Seq<Effect> {
        match self.swapchain {
            Some(swapchain) => let_go(swapchain@).retiring_from(
                self.drained(idle),
                no_signals(self.presentation.contexts@.len()),
            ),
            None => seq![],
        }
    }

    /// Shutting down, first step: recordings that were not submitted are given up. Gives the
    /// semaphore of an acquired image that was not submitted: its signal must be consumed.
    pub fn abandon_recordings(&mut self) -> (r: Option<u64>)
        requires
            old(self).wf(),
        ensures
            final(self).wf(),
            final(self).timeline@ == (TimelineState { active: 0, ..old(self).timeline@ }),
            *final(self) == (Device { timeline: final(self).timeline, ..*old(self) }),
            r == (if old(self).has_frame() {
                let context = old(self).chain().present_context->0;
                Some(old(self).presentation.contexts@[context as int].acquired)
            } else {
                None
            }),
    {
        let ghost before = self.window();
        self.timeline.active = 0;
        proof {
            let after = self.window();
            assert(after =~= (Window {
                timeline: TimelineState { active: 0, ..before.timeline },
                ..before
            }));
            assert(after.wf());
        }
        match &self.swapchain {
            Some(swapchain) => if swapchain.acquired {
                Some(self.presentation.contexts[swapchain.present_context.unwrap()].acquired)
            } else {
                None
            },
            None => None,
        }
    }

    /// Shutting down, second step: waits for everything, then destroys all that the device owns.
    /// `idle` says whether the device has become idle.
    pub fn shut_down(&mut self, idle: bool) -> (r: Vec<Effect>)
        requires
            old(self).wf(),
            old(self).timeline@.active == 0,
        ensures
            final(self).allocations@.len() == 0,
            final(self).timeline@.contexts.len() == 0,
            final(self).timeline@.deferred.len() == 0,
            final(self).timeline@.retirement == 0,
            final(self).presentation.retired@.len() == 0,
            final(self).swapchain is None,
            forall|i: int|
                0 <= i < final(self).presentation.contexts@.len() ==> (
                #[trigger] final(self).presentation.contexts@[i]) == PresentContext::empty(),
            r@ == old(self).window().with_idle(idle).draining() + old(self).last_retirement(idle)
                + semaphore_destruction(old(self).timeline@.retirement) + contexts_destruction(
                old(self).drained(idle).contexts,
            ) + teardown(old(self).allocations@),
    {
        let ghost start = *self;
        let ghost before = self.window();
        let mut effects: Vec<Effect> = Vec::new();
        if idle {
            self.timeline.completed = self.timeline.submitted;
        }
        let ghost resting = before.with_idle(idle);
        assert(self.window() =~= resting);
        assert(resting.wf());
        proof {
            resting.drain_empties();
        }
        self.presentation.drain_contexts(&mut self.timeline, &mut effects);
        let ghost drained = self.window();
        let ghost made = effects@;
        if let Some(mut swapchain) = self.swapchain.take() {
            swapchain.acquired = false;
            swapchain.present_context = None;
            swapchain.transition_commands = None;
            let mut signaled: Vec<bool> = Vec::new();
            let count = self.presentation.contexts.len();
            let mut i: usize = 0;
            while i < count
                invariant
                    i <= count,
                    signaled@ == no_signals(i as nat),
                decreases count - i,
            {
                signaled.push(false);
                i += 1;
                assert(signaled@ =~= no_signals(i as nat));
            }
            proof {
                let chain = let_go(start.chain());
                assert(swapchain@ =~= chain);
                assert(chain.wf());
                if chain.handle != 0 {
                    assert(chain.as_retired().wf()) by {
                        assert forall|k: int|
                            0 <= k < chain.as_retired().views.len() implies #[trigger]
                        chain.as_retired().views[k] != 0 by {
                            assert(chain.render_views[k].view != 0);
                        }
                    }
                    drained.quiet_retirement(chain.as_retired(), signaled@);
                }
            }
            swapchain.retire_swapchain_handle(
                &signaled,
                &mut self.presentation,
                &mut self.timeline,
                &mut effects,
            );
        }
        assert(effects@ =~= resting.draining() + start.last_retirement(idle));
        assert(self.window() == drained);
        let ghost retired = effects@;
        self.timeline.collect_swapchains(&mut effects);
        assert(effects@ =~= retired);
        self.timeline.contexts = Vec::new();
        if self.timeline.retirement != 0 {
            effects.push(Effect::DestroySemaphore(self.timeline.retirement));
        }
        self.timeline.retirement = 0;
        let ghost quiet = effects@;
        assert(quiet =~= retired + semaphore_destruction(start.timeline@.retirement));
        let count = self.presentation.contexts.len();
        let mut index: usize = 0;
        assert(drained.contexts.take(0) =~= Seq::empty());
        assert(effects@ =~= quiet + contexts_destruction(drained.contexts.take(0)));
        while index < count
            invariant
                index <= count == self.presentation.contexts@.len() == drained.contexts.len(),
                self.allocations@ == start.allocations@,
                self.timeline@.contexts.len() == 0,
                self.timeline@.deferred.len() == 0,
                self.timeline@.retirement == 0,
                self.presentation.retired@.len() == 0,
                self.swapchain is None,
                forall|i: int|
                    0 <= i < drained.contexts.len() ==> !(
                    #[trigger] drained.contexts[i]).present_pending,
                forall|i: int|
                    index <= i < count ==> (#[trigger] self.presentation.contexts@[i])
                        == drained.contexts[i],
                forall|i: int|
                    0 <= i < index ==> (#[trigger] self.presentation.contexts@[i]) == PresentContext::empty(),
                effects@ == quiet + contexts_destruction(drained.contexts.take(index as int)),
            decreases count - index,
        {
            proof {
                assert(drained.contexts.take(index + 1).drop_last() =~= drained.contexts.take(
                    index as int,
                ));
                assert(!drained.contexts[index as int].present_pending);
            }
            self.presentation.destroy_present_context(index, &mut effects);
            index += 1;
            assert(effects@ =~= quiet + contexts_destruction(
                drained.contexts.take(index as int),
            ));
        }
        assert(drained.contexts.take(index as int) =~= drained.contexts);
        self.allocations.release_all(&mut effects);
        assert(effects@ =~= resting.draining() + start.last_retirement(idle)
            + semaphore_destruction(start.timeline@.retirement) + contexts_destruction(
            drained.contexts,
        ) + teardown(start.allocations@));
        effects
    }
}

/// Shutting down destroys the parts of every present context.
pub proof fn all_contexts_are_destroyed(
    contexts: Seq<PresentContext>,
    place: int,
    effect: Effect,
)
    requires
        0 <= place < contexts.len(),
        contexts[place].destruction().contains(effect),
    ensures
        contexts_destruction(contexts).contains(effect),
    decreases contexts.len(),
{
    let rest = contexts_destruction(contexts.drop_last());
    let last = contexts.last().destruction();
    let all = contexts_destruction(contexts);
    if place == contexts.len() - 1 {
        let i = choose|i: int| 0 <= i < last.len() && last[i] == effect;
        assert(all[rest.len() + i] == effect);
    } else {
        all_contexts_are_destroyed(contexts.drop_last(), place, effect);
        let i = choose|i: int| 0 <= i < rest.len() && rest[i] == effect;
        assert(all[i] == effect);
    }
}

/// An idle device has completed what was submitted, and one that is not is taken as it is. A frame
/// that is let go leaves the swapchain as it was before.
pub proof fn idle_devices_have_completed_all(window: Window, swapchain: SwapchainState)
    ensures
        window.with_idle(true).timeline.completed == window.timeline.submitted,
        window.with_idle(true).timeline.submitted == window.timeline.submitted,
        window.with_idle(true).contexts == window.contexts,
        window.with_idle(true).retired == window.retired,
        window.with_idle(false) == window,
        !let_go(swapchain).acquired,
        let_go(swapchain).present_context is None,
        let_go(swapchain).transition_commands is None,
        let_go(swapchain).handle == swapchain.handle,
        let_go(swapchain).render_views == swapchain.render_views,
        let_go(swapchain).images == swapchain.images,
        semaphore_destruction(0).len() == 0,
{
}

} // verus!
