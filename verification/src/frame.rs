//! Operations of the device that record, submit and present.

use crate::commands::{
    initialization_batches, is_batching, is_submission, retiring, CommandBuffer, Signal,
    Submission, TimelinePoint, TimelineState,
};
use crate::deferred::remaining;
use crate::device::{BegunCommands, Device, PresentSubmission, Presented};
use crate::effect::Effect;
use crate::error::{failure_of, Error, Failure};
use crate::flags::has_all_u32;
use crate::format::Uint32x2;
use crate::present::{waits_on, PresentContext, Window};
use crate::record::Command;
use crate::replace::{has_area, is_image_count, Replacement};
use crate::swapchain::{
    composite_alpha, destroy_views, has_composite_alpha, AcquireAction, AcquireEvent, Acquisition,
    SurfaceCapabilities, SurfaceFormat, SwapchainPlan, SwapchainState,
};
use crate::vulkan::{
    LAYOUT_GENERAL, LAYOUT_PRESENT_SRC, LAYOUT_UNDEFINED, USAGE_COLOR_ATTACHMENT,
};
use vstd::prelude::*;

verus! {

impl Device {
    /// The swapchain of the device, as a value.
    pub open spec fn chain(&self) -> SwapchainState {
        self.swapchain->0@
    }

    /// Whether the next recording needs a look at the retirement semaphore.
    pub fn wants_counter_to_begin(&self) -> (r: bool)
        ensures
            r == (self.timeline@.active == 0 && self.timeline@.counts()),
    {
        self.timeline.wants_counter_to_begin()
    }

    /// Whether the next submission needs a look at the retirement semaphore.
    pub fn wants_counter_to_submit(&self) -> (r: bool)
        requires
            self.wf(),
            self.timeline@.submitted < u64::MAX,
        ensures
            r == (self.timeline@.is_full() && self.timeline@.counts()),
    {
        self.timeline.wants_counter_to_submit()
    }

    /// Takes out a context that can be recorded, if there is one; else one must be created.
    pub fn acquire_command_context(&mut self, counter: Option<u64>) -> (r: (
        Option<CommandBuffer>,
        Vec<Effect>,
    ))
        requires
            old(self).wf(),
            old(self).timeline@.is_reading(counter, old(self).timeline@.active == 0),
        ensures
            final(self).wf(),
            *final(self) == (Device { timeline: final(self).timeline, ..*old(self) }),
            r.0 matches Some(context) ==> context.is_clean(),
            match r.0 {
                Some(context) => exists|place: int|
                    #![trigger old(self).timeline@.polled(counter).is_available(place)]
                    {
                        let polled = old(self).timeline@.polled(counter);
                        &&& polled.is_available(place)
                        &&& context == polled.handed_out(place)
                        &&& final(self).timeline@ == polled.without(place)
                        &&& r.1@ == old(self).timeline@.polling(counter) + polled.late_reset(place)
                    },
                None => {
                    let polled = old(self).timeline@.polled(counter);
                    &&& final(self).timeline@ == polled
                    &&& forall|i: int|
                        0 <= i < polled.contexts.len() ==> (#[trigger] polled.contexts[i]).retire_value
                            > polled.completed
                    &&& r.1@ == old(self).timeline@.polling(counter)
                },
            },
    {
        let ghost before = self.window();
        let ghost polled = self.timeline@.polled(counter);
        let mut effects: Vec<Effect> = Vec::new();
        let context = self.timeline.acquire_command_context(counter, &mut effects);
        proof {
            let polling = before.timeline.polling(counter);
            assert(Seq::<Effect>::empty() + polling =~= polling);
            polled_is_wf(before.timeline, counter);
            before.polled_timeline_is_wf(counter);
            let middle = Window { timeline: polled, ..before };
            assert(middle.wf());
            assert(self.window() =~= (Window { timeline: self.timeline@, ..middle }));
            assert(self.window().wf());
            if self.swapchain is Some && self.chain().handle != 0 {
                assert(middle.is_fresh(self.chain().handle));
            }
        }
        (context, effects)
    }

    /// Begins a recording in a context. The first recording that is begun initializes pending
    /// textures and the acquired swapchain image; it must be first in the next submission.
    pub fn begin_commands(&mut self, context: CommandBuffer) -> (r: BegunCommands)
        requires
            old(self).wf(),
            old(self).timeline@.active < usize::MAX,
            context.is_clean(),
        ensures
            final(self).wf(),
            r.commands.wf(),
            r.commands == (CommandBuffer {
                timestamp_count: 0,
                swapchain: r.transition is Some,
                ..context
            }),
            old(self).swapchain is Some ==> begins_on(
                old(self).chain(),
                context,
                r,
                final(self).chain(),
            ),
            r.reset == (if context.timestamp_pool == 0 {
                None
            } else {
                Some(
                    Command::ResetQueries {
                        pool: context.timestamp_pool,
                        count: old(self).timestamp_query_count,
                    },
                )
            }),
            is_batching(r.initializations@, old(self).pending_textures@),
            final(self).pending_textures@.len() == 0,
            r.transition == (if old(self).swapchain is Some {
                old(self).chain().first_transition()
            } else {
                None
            }),
            final(self).timeline@ == (TimelineState {
                active: (old(self).timeline@.active + 1) as usize,
                ..old(self).timeline@
            }),
            final(self).swapchain is Some <==> old(self).swapchain is Some,
            final(self).swapchain is Some ==> final(self).chain() == old(self).chain().begun(
                context.command_buffer,
            ),
            *final(self) == (Device {
                timeline: final(self).timeline,
                swapchain: final(self).swapchain,
                pending_textures: final(self).pending_textures,
                ..*old(self)
            }),
    {
        let ghost start = *self;
        let mut commands = context;
        commands.timestamp_count = 0;
        let reset = if commands.timestamp_pool != 0 {
            Some(
                Command::ResetQueries {
                    pool: commands.timestamp_pool,
                    count: self.timestamp_query_count,
                },
            )
        } else {
            None
        };
        let initializations = initialization_batches(&self.pending_textures);
        self.pending_textures = Vec::new();
        let mut transition = None;
        if let Some(mut swapchain) = self.swapchain.take() {
            if swapchain.acquired && swapchain.transition_commands.is_none() {
                transition = Some(swapchain.make_drawing_barrier());
                commands.swapchain = true;
                swapchain.transition_commands = Some(commands.command_buffer);
            }
            self.swapchain = Some(swapchain);
        }
        self.timeline.active = self.timeline.active + 1;
        proof {
            let before = start.window();
            assert(self.window() =~= (Window {
                timeline: TimelineState { active: self.timeline@.active, ..before.timeline },
                ..before
            }));
            assert(self.window().wf());
        }
        BegunCommands { commands, reset, initializations, transition }
    }

    /// Submits recordings: every one that was begun, the first begun first, with no frame acquired.
    pub fn submit(
        &mut self,
        commands: Vec<CommandBuffer>,
        completion: &TimelinePoint,
        counter: Option<u64>,
    ) -> (r: (Submission, Vec<Effect>))
        requires
            old(self).wf(),
            !old(self).has_frame(),
            old(self).pending_textures@.len() == 0,
            commands@.len() > 0,
            old(self).timeline@.active == commands@.len(),
            forall|i: int|
                0 <= i < commands@.len() ==> (#[trigger] commands@[i]).wf()
                    && !commands@[i].swapchain,
            old(self).timeline@.submitted < u64::MAX,
            old(self).timeline@.is_reading(counter, old(self).timeline@.is_full()),
        ensures
            final(self).wf(),
            final(self).is_quiet(),
            *final(self) == (Device { timeline: final(self).timeline, ..*old(self) }),
            final(self).timeline@ == submitted_timeline(old(self).timeline@, commands@, counter),
            r.1@ == old(self).timeline@.making_room(counter),
            is_submission(
                r.0,
                commands@,
                Signal { semaphore: completion.semaphore.semaphore, value: completion.value },
                0,
                0,
                Signal {
                    semaphore: old(self).timeline@.retirement,
                    value: final(self).timeline@.submitted,
                },
                old(self).ext,
            ),
    {
        let ghost before = self.window();
        let mut effects: Vec<Effect> = Vec::new();
        let ext = self.ext;
        let submission = self.timeline.submit_commands(
            commands,
            completion,
            0,
            0,
            counter,
            ext,
            &mut effects,
        );
        proof {
            before.submitted_is_wf(commands@, counter);
            assert(effects@ =~= before.timeline.making_room(counter));
        }
        (submission, effects)
    }

    /// Submits recordings and presents the acquired image: every recording that was begun, the one
    /// that starts with the transition of the image first.
    pub fn submit_and_present(
        &mut self,
        commands: Vec<CommandBuffer>,
        completion: &TimelinePoint,
        counter: Option<u64>,
    ) -> (r: (PresentSubmission, Vec<Effect>))
        requires
            old(self).wf(),
            old(self).has_frame(),
            old(self).pending_textures@.len() == 0,
            commands@.len() > 0,
            old(self).timeline@.active == commands@.len(),
            commands@[0].swapchain,
            old(self).chain().transition_commands == Some(commands@[0].command_buffer),
            forall|i: int| 0 <= i < commands@.len() ==> (#[trigger] commands@[i]).wf(),
            forall|i: int| 1 <= i < commands@.len() ==> !(#[trigger] commands@[i]).swapchain,
            old(self).timeline@.submitted < u64::MAX,
            old(self).timeline@.is_reading(counter, old(self).timeline@.is_full()),
        ensures
            final(self).wf(),
            final(self).has_frame(),
            final(self).timeline@ == submitted_timeline(old(self).timeline@, commands@, counter),
            final(self).chain() == (SwapchainState {
                transition_commands: None,
                initialized: old(self).chain().initialized.update(
                    old(self).chain().image_index as int,
                    true,
                ),
                ..old(self).chain()
            }),
            *final(self) == (Device {
                timeline: final(self).timeline,
                swapchain: final(self).swapchain,
                ..*old(self)
            }),
            r.1@ == old(self).timeline@.making_room(counter),
            ({
                let context = old(self).presentation.contexts@[old(
                    self,
                ).chain().present_context->0 as int];
                &&& r.0.last_commands == commands@.last().command_buffer
                &&& r.0.barrier == old(self).chain().presenting_barrier()
                &&& r.0.fence == context.presented
                &&& r.0.swapchain == old(self).chain().handle
                &&& r.0.image_index == old(self).chain().image_index
                &&& r.0.rendered == context.rendered
                &&& is_submission(
                    r.0.submission,
                    commands@,
                    Signal { semaphore: completion.semaphore.semaphore, value: completion.value },
                    context.acquired,
                    context.rendered,
                    Signal {
                        semaphore: old(self).timeline@.retirement,
                        value: final(self).timeline@.submitted,
                    },
                    old(self).ext,
                )
            }),
    {
        let ghost start = *self;
        let ghost before = self.window();
        let last = commands.len() - 1;
        let last_commands = commands[last].command_buffer;
        let mut effects: Vec<Effect> = Vec::new();
        let ext = self.ext;
        let mut swapchain = self.swapchain.take().unwrap();
        let context = self.presentation.contexts[swapchain.present_context.unwrap()];
        let barrier = swapchain.make_presenting_barrier();
        swapchain.transition_commands = None;
        let submission = self.timeline.submit_commands(
            commands,
            completion,
            context.acquired,
            context.rendered,
            counter,
            ext,
            &mut effects,
        );
        let image_index = swapchain.image_index;
        swapchain.initialized[image_index as usize] = true;
        let handle = swapchain.handle;
        self.swapchain = Some(swapchain);
        proof {
            before.submitted_is_wf(commands@, counter);
            assert(effects@ =~= before.timeline.making_room(counter));
            assert(self.chain() =~= SwapchainState {
                transition_commands: None,
                initialized: start.chain().initialized.update(
                    start.chain().image_index as int,
                    true,
                ),
                ..start.chain()
            });
        }
        (
            PresentSubmission {
                last_commands,
                barrier,
                fence: context.presented,
                submission,
                swapchain: handle,
                image_index,
                rendered: context.rendered,
            },
            effects,
        )
    }

    /// Takes how a present went: it is under way now, and the next present uses the next context.
    pub fn on_presented(&mut self, presented: Presented, window: Uint32x2)
        requires
            old(self).wf(),
            old(self).has_frame(),
            old(self).chain().transition_commands is None,
            presented matches Presented::Suboptimal(capabilities) ==> old(
                self,
            ).chain().is_comparable(capabilities, window),
        ensures
            final(self).wf(),
            !final(self).has_frame(),
            final(self).swapchain is Some,
            final(self).chain() == (SwapchainState {
                present_context: None,
                acquired: false,
                recreate_required: old(self).chain().recreate_required || match presented {
                    Presented::Optimal => false,
                    Presented::Suboptimal(capabilities) => old(self).chain().is_outdated(
                        capabilities,
                        window,
                    ),
                    Presented::OutOfDate => true,
                },
                ..old(self).chain()
            }),
            final(self).chain() == old(self).chain().after_present(presented, window),
            final(self).presentation.contexts@ == ({
                let index = old(self).chain().present_context->0 as int;
                old(self).presentation.contexts@.update(
                    index,
                    PresentContext {
                        present_pending: true,
                        swapchain: old(self).chain().handle,
                        ..old(self).presentation.contexts@[index]
                    },
                )
            }),
            final(self).presentation.retired == old(self).presentation.retired,
            final(self).presentation.next == (old(self).presentation.next + 1) as int % old(
                self,
            ).presentation.contexts@.len() as int,
            *final(self) == (Device {
                presentation: final(self).presentation,
                swapchain: final(self).swapchain,
                ..*old(self)
            }),
    {
        let ghost start = *self;
        let ghost before = self.window();
        let mut swapchain = self.swapchain.take().unwrap();
        let index = swapchain.present_context.unwrap();
        let context = self.presentation.contexts[index];
        self.presentation.contexts[index] = PresentContext {
            present_pending: true,
            swapchain: swapchain.handle,
            ..context
        };
        swapchain.present_context = None;
        swapchain.acquired = false;
        let count = self.presentation.contexts.len();
        let next = self.presentation.next + 1;
        self.presentation.next = if next == count {
            0
        } else {
            next
        };
        match presented {
            Presented::OutOfDate => {
                swapchain.recreate_required = true;
            },
            Presented::Suboptimal(capabilities) => {
                if swapchain.surface_configuration_changed(&capabilities, window) {
                    swapchain.recreate_required = true;
                }
            },
            Presented::Optimal => {},
        }
        self.swapchain = Some(swapchain);
        proof {
            let after = self.window();
            assert forall|handle: u64|
                waits_on(before.contexts, handle) implies waits_on(
                after.contexts,
                handle,
            ) by {
                let i = choose|i: int|
                    0 <= i < before.contexts.len() && (#[trigger] before.contexts[i]).present_pending
                        && before.contexts[i].swapchain == handle;
                assert(after.contexts[i].present_pending && after.contexts[i].swapchain == handle);
            }
            assert(after.wf());
            if next == count {
                vstd::arithmetic::div_mod::lemma_mod_self_0(count as int);
            } else {
                vstd::arithmetic::div_mod::lemma_small_mod(next as nat, count as nat);
            }
        }
    }

    /// Takes an event on the way to a frame and says what to do next. There is no frame while the
    /// extent to draw to has no area: that is told when a frame is asked for and when the swapchain
    /// is replaced, so no image is taken for nothing.
    pub fn acquire(
        &mut self,
        acquisition: &mut Acquisition,
        event: AcquireEvent,
        window: Uint32x2,
    ) -> (r: (AcquireAction, Vec<Effect>))
        requires
            old(self).wf(),
            old(self).is_quiet(),
            old(self).swapchain is Some,
            old(acquisition).context matches Some(index) ==> {
                &&& index < old(self).presentation.contexts@.len()
                &&& !old(self).presentation.contexts@[index as int].present_pending
            },
            event matches AcquireEvent::Asked(capabilities) ==> capabilities.has_extent(window),
            event matches AcquireEvent::Handed(_) ==> old(acquisition).context is Some,
            event matches AcquireEvent::Handed(Ok(image)) ==> old(self).chain().can_hand(
                image,
                window,
            ),
        ensures
            final(self).wf(),
            final(self).swapchain is Some,
            final(self).chain() == old(self).chain().after_event(
                event,
                old(acquisition).context,
                window,
            ),
            final(self).presentation.next == old(self).presentation.next,
            *final(self) == (Device {
                timeline: final(self).timeline,
                presentation: final(self).presentation,
                swapchain: final(self).swapchain,
                ..*old(self)
            }),
            ({
                let before = old(self).window();
                let next = old(self).presentation.next;
                let step = old(self).chain().next_step(event, window);
                let waits = step is AskImage && old(acquisition).context is None;
                let used = final(acquisition).context->0 as int;
                let shown = final(self).chain().image_index as int;
                &&& final(acquisition).context == (if waits {
                    Some(next)
                } else {
                    old(acquisition).context
                })
                &&& final(self).window() == (if waits {
                    before.wait(next as int)
                } else {
                    before
                })
                &&& r.1@ == (if waits {
                    before.waiting(next as int)
                } else {
                    seq![]
                })
                &&& match r.0 {
                    AcquireAction::Replace => step is Replace,
                    AcquireAction::NoFrame => step is NoFrame,
                    AcquireAction::AskImage { swapchain, semaphore } => {
                        &&& step is AskImage
                        &&& swapchain == old(self).chain().handle
                        &&& semaphore == final(self).presentation.contexts@[used].acquired
                    },
                    AcquireAction::Frame(frame) => {
                        &&& step is Frame
                        &&& *frame.render_view == old(self).chain().render_views[shown]
                        &&& frame.extent == (Uint32x2 {
                            x: old(self).chain().width,
                            y: old(self).chain().height,
                        })
                    },
                    AcquireAction::Fatal(code) => {
                        &&& step is Fatal
                        &&& event matches AcquireEvent::Handed(Err(given)) && given == code
                    },
                }
            }),
    {
        let mut effects: Vec<Effect> = Vec::new();
        let mut swapchain = self.swapchain.take().unwrap();
        let action = swapchain.acquire(
            acquisition,
            event,
            window,
            &mut self.presentation,
            &mut self.timeline,
            &mut effects,
        );
        self.swapchain = Some(swapchain);
        (action, effects)
    }

    /// The extent to draw to, by what the surface can do; nothing without a window. A swapchain of
    /// another size is to be replaced.
    pub fn get_drawable_extent(
        &mut self,
        capabilities: &SurfaceCapabilities,
        window: Uint32x2,
    ) -> (r: Uint32x2)
        requires
            old(self).wf(),
            old(self).is_quiet(),
            old(self).swapchain is Some ==> capabilities.has_extent(window),
        ensures
            final(self).wf(),
            *final(self) == (Device { swapchain: final(self).swapchain, ..*old(self) }),
            final(self).swapchain is Some <==> old(self).swapchain is Some,
            match old(self).swapchain {
                None => r == (Uint32x2 { x: 0, y: 0 }),
                Some(swapchain) => {
                    &&& r == capabilities.extent(window)
                    &&& final(self).chain() == swapchain@.measured(r)
                },
            },
    {
        match self.swapchain.take() {
            None => Uint32x2 { x: 0, y: 0 },
            Some(swapchain) => {
                let mut swapchain = swapchain;
                let extent = capabilities.drawable_extent(window);
                if swapchain.handle != 0 && (swapchain.width != extent.x || swapchain.height
                    != extent.y) {
                    swapchain.recreate_required = true;
                }
                self.swapchain = Some(swapchain);
                extent
            },
        }
    }

    /// Replacing the swapchain, first step: takes what the surface can do.
    pub fn replace_swapchain(
        &mut self,
        capabilities: Result<SurfaceCapabilities, i32>,
        window: Uint32x2,
    ) -> (r: Replacement)
        requires
            old(self).wf(),
            old(self).is_quiet(),
            old(self).swapchain is Some,
            capabilities matches Ok(c) ==> c.has_extent(window),
        ensures
            final(self).wf(),
            final(self).is_quiet(),
            *final(self) == (Device { swapchain: final(self).swapchain, ..*old(self) }),
            final(self).swapchain is Some,
            r.wf(),
            match capabilities {
                Err(code) => {
                    &&& r == Replacement::Failed(failure_of(code))
                    &&& final(self).chain() == old(self).chain()
                },
                Ok(capabilities) => {
                    let extent = capabilities.extent(window);
                    if extent.x == 0 || extent.y == 0 {
                        &&& r == Replacement::Hidden
                        &&& final(self).chain() == old(self).chain().hidden()
                    } else if !has_all_u32(
                        capabilities.supported_usage,
                        USAGE_COLOR_ATTACHMENT,
                    ) {
                        &&& r == Replacement::Failed(Failure::Reported(Error::Unsupported))
                        &&& final(self).chain() == old(self).chain()
                    } else {
                        &&& r == (Replacement::Formats { capabilities, extent })
                        &&& final(self).chain() == old(self).chain()
                    }
                },
            },
    {
        let mut swapchain = self.swapchain.take().unwrap();
        let r = swapchain.on_capabilities(capabilities, window);
        self.swapchain = Some(swapchain);
        r
    }

    /// A new swapchain can be planned, or is refused. A composite alpha mode is needed only where
    /// nothing else is amiss.
    pub open spec fn is_plannable(
        &self,
        capabilities: SurfaceCapabilities,
        formats: Result<Vec<SurfaceFormat>, i32>,
    ) -> bool {
        formats matches Ok(list) && !self.chain().is_refused(
            capabilities,
            list@,
            self.presentation.contexts@.len() as u32,
        ) ==> composite_alpha(capabilities.supported_composite_alpha) is Some
    }

    /// Whether a new swapchain can be planned, or is refused.
    pub fn can_plan_swapchain(
        &self,
        capabilities: &SurfaceCapabilities,
        formats: &Result<Vec<SurfaceFormat>, i32>,
    ) -> (r: bool)
        requires
            self.wf(),
            self.swapchain is Some,
        ensures
            r == self.is_plannable(*capabilities, *formats),
    {
        match formats {
            Ok(list) => {
                let contexts = self.presentation.contexts.len() as u32;
                self.swapchain.as_ref().unwrap().refuses(capabilities, list, contexts)
                    || has_composite_alpha(capabilities.supported_composite_alpha)
            },
            Err(_) => true,
        }
    }

    /// Replacing the swapchain, second step: takes the formats of the surface.
    pub fn plan_swapchain(
        &self,
        capabilities: &SurfaceCapabilities,
        extent: Uint32x2,
        formats: &Result<Vec<SurfaceFormat>, i32>,
    ) -> (r: Replacement)
        requires
            self.wf(),
            self.swapchain is Some,
            has_area(extent),
            self.is_plannable(*capabilities, *formats),
        ensures
            r.wf(),
            ({
                let contexts = self.presentation.contexts@.len() as u32;
                match *formats {
                    Err(code) => r == Replacement::Failed(failure_of(code)),
                    Ok(list) => if self.chain().is_refused(*capabilities, list@, contexts) {
                        r == Replacement::Failed(Failure::Reported(Error::Unsupported))
                    } else {
                        r == (Replacement::Create {
                            plan: self.chain().plan(*capabilities, extent, contexts),
                        })
                    },
                }
            }),
    {
        let contexts = self.presentation.contexts.len() as u32;
        self.swapchain.as_ref().unwrap().on_formats(capabilities, extent, formats, contexts)
    }

    /// Replacing the swapchain failed after it was planned: what was made is destroyed, and the old
    /// swapchain is given up. `signaled` holds the states of the present fences.
    pub fn abandon_swapchain(
        &mut self,
        made: Option<u64>,
        views: &Vec<u64>,
        signaled: &Vec<bool>,
    ) -> (r: Vec<Effect>)
        requires
            old(self).wf(),
            old(self).is_quiet(),
            old(self).swapchain is Some,
            signaled@.len() == old(self).presentation.contexts@.len(),
        ensures
            final(self).wf(),
            final(self).is_quiet(),
            final(self).swapchain is Some,
            final(self).chain() == old(self).chain().emptied(),
            final(self).window() == old(self).chain().retired_from(old(self).window(), signaled@),
            final(self).presentation.next == old(self).presentation.next,
            *final(self) == (Device {
                timeline: final(self).timeline,
                presentation: final(self).presentation,
                swapchain: final(self).swapchain,
                ..*old(self)
            }),
            r@ == destroy_views(views@) + (match made {
                Some(handle) => seq![Effect::DestroySwapchain(handle)],
                None => seq![],
            }) + old(self).chain().retiring_from(old(self).window(), signaled@),
    {
        let ghost start = *self;
        let mut effects: Vec<Effect> = Vec::new();
        let mut swapchain = self.swapchain.take().unwrap();
        proof {
            start.chain().retired_keeps_count(start.window(), signaled@);
        }
        swapchain.abandon(
            made,
            views,
            signaled,
            &mut self.presentation,
            &mut self.timeline,
            &mut effects,
        );
        self.swapchain = Some(swapchain);
        proof {
            let views_gone = destroy_views(views@);
            assert(Seq::<Effect>::empty() + views_gone =~= views_gone);
        }
        effects
    }

    /// Whether the handle is that of no swapchain that the device still knows.
    pub fn is_new_swapchain(&self, handle: u64) -> (r: bool)
        requires
            self.swapchain is Some,
        ensures
            r == (self.window().is_fresh(handle) && handle != self.chain().handle),
    {
        if handle == 0 || handle == self.swapchain.as_ref().unwrap().handle {
            return false;
        }
        let mut i: usize = 0;
        while i < self.presentation.retired.len()
            invariant
                i <= self.presentation.retired@.len(),
                forall|j: int|
                    0 <= j < i ==> (#[trigger] self.window().retired[j]).handle != handle,
            decreases self.presentation.retired@.len() - i,
        {
            assert(self.window().retired[i as int] == self.presentation.retired@[i as int]@);
            if self.presentation.retired[i].handle == handle {
                return false;
            }
            i += 1;
        }
        !self.timeline.deferred.holds_swapchain(handle)
    }

    /// Replacing the swapchain, last step: puts the new swapchain in place of the old one, which is
    /// given up. `signaled` holds the states of the present fences.
    pub fn install_swapchain(
        &mut self,
        handle: u64,
        images: Vec<u64>,
        views: &Vec<u64>,
        plan: SwapchainPlan,
        signaled: &Vec<bool>,
    ) -> (r: Vec<Effect>)
        requires
            old(self).wf(),
            old(self).is_quiet(),
            old(self).swapchain is Some,
            signaled@.len() == old(self).presentation.contexts@.len(),
            old(self).window().is_fresh(handle),
            handle != old(self).chain().handle,
            is_image_count(images@.len()),
            views@.len() == images@.len(),
            forall|i: int| 0 <= i < views@.len() ==> #[trigger] views@[i] != 0,
            has_area(plan.extent),
        ensures
            final(self).wf(),
            final(self).is_quiet(),
            final(self).swapchain is Some,
            final(self).chain() == old(self).chain().installed(handle, images@, views@, plan),
            final(self).window() == old(self).chain().retired_from(old(self).window(), signaled@),
            final(self).presentation.next == old(self).presentation.next,
            *final(self) == (Device {
                timeline: final(self).timeline,
                presentation: final(self).presentation,
                swapchain: final(self).swapchain,
                ..*old(self)
            }),
            r@ == old(self).chain().retiring_from(old(self).window(), signaled@),
    {
        let ghost start = *self;
        let mut effects: Vec<Effect> = Vec::new();
        let mut swapchain = self.swapchain.take().unwrap();
        proof {
            start.chain().retired_keeps_count(start.window(), signaled@);
        }
        swapchain.install(
            handle,
            images,
            views,
            plan,
            signaled,
            &mut self.presentation,
            &mut self.timeline,
            &mut effects,
        );
        self.swapchain = Some(swapchain);
        assert(effects@ =~= start.chain().retiring_from(start.window(), signaled@));
        effects
    }
}

/// What a recording takes from the swapchain: the first one after an image was acquired makes it
/// drawable and is marked for it.
pub open spec fn begins_on(
    before: SwapchainState,
    context: CommandBuffer,
    begun: BegunCommands,
    after: SwapchainState,
) -> bool {
    &&& begun.transition == before.first_transition()
    &&& begun.commands.swapchain == (begun.transition is Some)
    &&& begun.commands.command_buffer == context.command_buffer
    &&& after == before.begun(context.command_buffer)
}

/// Of the recordings that are begun after an image was acquired, the first one alone is marked and
/// makes the image drawable: from the layout in which it was presented if it was presented before,
/// and from no layout else. `chains` holds the swapchain before each recording and after the last.
pub proof fn first_recording_makes_drawable(
    chains: Seq<SwapchainState>,
    contexts: Seq<CommandBuffer>,
    begun: Seq<BegunCommands>,
    place: int,
)
    requires
        chains.len() == begun.len() + 1,
        contexts.len() == begun.len(),
        forall|i: int|
            0 <= i < begun.len() ==> begins_on(
                chains[i],
                contexts[i],
                #[trigger] begun[i],
                chains[i + 1],
            ),
        chains[0].wf(),
        chains[0].acquired,
        chains[0].transition_commands is None,
        0 <= place < begun.len(),
    ensures
        begun[place].commands.swapchain <==> place == 0,
        place > 0 ==> begun[place].transition is None,
        place == 0 ==> {
            &&& begun[0].transition matches Some(barrier)
            &&& barrier == chains[0].drawing_barrier()
            &&& barrier.image == chains[0].images[chains[0].image_index as int]
            &&& barrier.new_layout == LAYOUT_GENERAL
            &&& barrier.old_layout == if chains[0].initialized[chains[0].image_index as int] {
                LAYOUT_PRESENT_SRC
            } else {
                LAYOUT_UNDEFINED
            }
        },
        chains[begun.len() as int].transition_commands == Some(begun[0].commands.command_buffer),
{
    transition_is_kept(chains, contexts, begun, place);
    transition_is_kept(chains, contexts, begun, begun.len() as int);
}

proof fn transition_is_kept(
    chains: Seq<SwapchainState>,
    contexts: Seq<CommandBuffer>,
    begun: Seq<BegunCommands>,
    place: int,
)
    requires
        chains.len() == begun.len() + 1,
        contexts.len() == begun.len(),
        forall|i: int|
            0 <= i < begun.len() ==> begins_on(
                chains[i],
                contexts[i],
                #[trigger] begun[i],
                chains[i + 1],
            ),
        chains[0].acquired,
        chains[0].transition_commands is None,
        0 <= place <= begun.len(),
    ensures
        chains[place].acquired,
        place == 0 ==> chains[place] == chains[0],
        place > 0 ==> chains[place].transition_commands == Some(begun[0].commands.command_buffer),
    decreases place,
{
    if place > 0 {
        transition_is_kept(chains, contexts, begun, place - 1);
        assert(begins_on(
            chains[place - 1],
            contexts[place - 1],
            begun[place - 1],
            chains[place - 1 + 1],
        ));
    }
}

/// The timeline after recordings were submitted.
pub open spec fn submitted_timeline(
    timeline: TimelineState,
    commands: Seq<CommandBuffer>,
    counter: Option<u64>,
) -> TimelineState {
    let advanced = timeline.advanced(counter);
    TimelineState {
        contexts: advanced.contexts + retiring(commands, advanced.submitted),
        active: 0,
        ..advanced
    }
}

proof fn polled_is_wf(timeline: TimelineState, counter: Option<u64>)
    requires
        timeline.wf(),
        counter matches Some(value) ==> timeline.completed <= value <= timeline.submitted,
    ensures
        timeline.polled(counter).wf(),
{
    if counter is Some {
        let value = counter->0;
        crate::deferred::due_is_exact(timeline.deferred, value);
        let d = crate::deferred::due(timeline.deferred, value) as int;
        let rest = remaining(timeline.deferred, value);
        assert forall|i: int, j: int| 0 <= i <= j < rest.len() implies (
        #[trigger] rest[i]).retire_value <= (#[trigger] rest[j]).retire_value by {
            assert(rest[i] == timeline.deferred[d + i] && rest[j] == timeline.deferred[d + j]);
        }
        assert forall|i: int| 0 <= i < rest.len() implies (#[trigger] rest[i]).retire_value
            <= timeline.submitted by {
            assert(rest[i] == timeline.deferred[d + i]);
        }
        let after = timeline.polled(counter);
        assert forall|i: int| 0 <= i < after.contexts.len() implies (
        #[trigger] after.contexts[i]).retire_value <= after.submitted by {
            assert(timeline.contexts[i].retire_value <= timeline.submitted);
        }
    }
}

/// A present is under way once it was made: its context names the swapchain that is shown, no other
/// context changes, the next context is the one after, and the frame is over.
pub proof fn presents_take_contexts_in_turn(
    device: &mut Device,
    presented: Presented,
    window: Uint32x2,
    other: int,
)
    requires
        device.wf(),
        device.has_frame(),
        call_ensures(Device::on_presented, (device, presented, window), ()),
        0 <= other < device.presentation.contexts@.len(),
    ensures
        ({
            let (before, after) = (*old(device), *final(device));
            let index = before.chain().present_context->0 as int;
            let (was, is) = (before.presentation.contexts@, after.presentation.contexts@);
            &&& is.len() == was.len()
            &&& is[index].present_pending
            &&& is[index].swapchain == before.chain().handle
            &&& is[index].acquired == was[index].acquired
            &&& is[index].rendered == was[index].rendered
            &&& is[index].presented == was[index].presented
            &&& other != index ==> is[other] == was[other]
            &&& before.presentation.next + 1 < was.len() ==> after.presentation.next
                == before.presentation.next + 1
            &&& before.presentation.next + 1 == was.len() ==> after.presentation.next == 0
            &&& !after.has_frame()
            &&& after.timeline == before.timeline
            &&& after.allocations == before.allocations
            &&& presented is OutOfDate ==> after.chain().recreate_required
            &&& presented matches Presented::Suboptimal(seen) ==> {
                let extent = seen.extent(window);
                &&& extent.x != before.chain().width ==> after.chain().recreate_required
                &&& extent.y != before.chain().height ==> after.chain().recreate_required
            }
        }),
{
    let count = device.presentation.contexts@.len() as int;
    let next = device.presentation.next + 1;
    if next == count {
        vstd::arithmetic::div_mod::lemma_mod_self_0(count);
    } else {
        vstd::arithmetic::div_mod::lemma_small_mod(next as nat, count as nat);
    }
}

/// A frame is submitted with the synchronization of its own context: the work waits until the image
/// can be drawn to, the present waits until the work is done and sets the fence, and the image that
/// is shown is the one that was acquired, which alone counts as presented from then on.
pub proof fn frames_are_submitted_with_their_context(
    device: &mut Device,
    commands: Vec<CommandBuffer>,
    completion: &TimelinePoint,
    counter: Option<u64>,
    r: (PresentSubmission, Vec<Effect>),
    other: int,
)
    requires
        device.wf(),
        device.has_frame(),
        device.timeline@.submitted < u64::MAX,
        commands@.len() > 0,
        device.presentation.contexts@[device.chain().present_context->0 as int].acquired != 0,
        device.presentation.contexts@[device.chain().present_context->0 as int].rendered != 0,
        call_ensures(Device::submit_and_present, (device, commands, completion, counter), r),
        0 <= other < device.chain().images.len(),
    ensures
        ({
            let (before, after) = (*old(device), *final(device));
            let context = before.presentation.contexts@[before.chain().present_context->0 as int];
            let shown = before.chain().image_index;
            let work = r.0.submission;
            &&& r.0.image_index == shown
            &&& r.0.swapchain == before.chain().handle
            &&& r.0.fence == context.presented
            &&& r.0.rendered == context.rendered
            &&& r.0.barrier.image == before.chain().images[shown as int]
            &&& r.0.barrier.new_layout == LAYOUT_PRESENT_SRC
            &&& r.0.last_commands == commands@[commands@.len() - 1].command_buffer
            &&& work.wait == Some(context.acquired)
            &&& work.signals@.len() == 2
            &&& work.signals@[0].semaphore == completion.semaphore.semaphore
            &&& work.signals@[0].value == completion.value
            &&& work.signals@[1].semaphore == context.rendered
            &&& work.retirement.semaphore == before.timeline@.retirement
            &&& work.retirement.value == after.timeline@.submitted
            &&& after.timeline@.submitted == before.timeline@.submitted + 1
            &&& after.chain().initialized[shown as int]
            &&& other != shown ==> after.chain().initialized[other]
                == before.chain().initialized[other]
            &&& after.chain().transition_commands is None
            &&& after.has_frame()
        }),
{
}

/// Work without a frame waits for nothing and sets the caller's value alone, then the number at which
/// its contexts retire.
pub proof fn work_is_submitted_alone(
    device: &mut Device,
    commands: Vec<CommandBuffer>,
    completion: &TimelinePoint,
    counter: Option<u64>,
    r: (Submission, Vec<Effect>),
    place: int,
)
    requires
        device.wf(),
        device.timeline@.submitted < u64::MAX,
        0 <= place < commands@.len(),
        call_ensures(Device::submit, (device, commands, completion, counter), r),
    ensures
        r.0.wait is None,
        r.0.signals@.len() == 1,
        r.0.signals@[0].semaphore == completion.semaphore.semaphore,
        r.0.signals@[0].value == completion.value,
        r.0.command_buffers@.len() == commands@.len(),
        r.0.command_buffers@[place] == commands@[place].command_buffer,
        r.0.retirement.semaphore == old(device).timeline@.retirement,
        r.0.retirement.value == final(device).timeline@.submitted == old(
            device,
        ).timeline@.submitted + 1,
        final(device).timeline@.active == 0,
        final(device).timeline@.contexts.len() == old(device).timeline@.contexts.len()
            + commands@.len(),
{
}

/// A recording begins afresh: its timestamps are counted from the start, its queries are reset where
/// it has some, and no texture is left to be made usable.
pub proof fn recordings_begin_afresh(
    device: &mut Device,
    context: CommandBuffer,
    r: BegunCommands,
)
    requires
        device.timeline@.active < usize::MAX,
        call_ensures(Device::begin_commands, (device, context), r),
    ensures
        r.commands.timestamp_count == 0,
        r.commands.command_buffer == context.command_buffer,
        r.commands.command_pool == context.command_pool,
        r.commands.swapchain == (r.transition is Some),
        r.reset is Some <==> context.timestamp_pool != 0,
        r.reset matches Some(Command::ResetQueries { pool, count }) ==> pool
            == context.timestamp_pool && count == old(device).timestamp_query_count,
        r.reset matches Some(command) ==> command is ResetQueries,
        final(device).pending_textures@.len() == 0,
        final(device).timeline@.active == old(device).timeline@.active + 1,
        r.transition is Some ==> old(device).has_frame(),
{
}

/// The extent to draw to is told as the surface says, and is nothing without a window. A swapchain of
/// another size is marked for replacement, and one of the same size is left as it is.
pub proof fn drawable_extents_are_told(
    device: &mut Device,
    capabilities: SurfaceCapabilities,
    window: Uint32x2,
    r: Uint32x2,
)
    requires
        call_ensures(Device::get_drawable_extent, (device, &capabilities, window), r),
    ensures
        old(device).swapchain is None ==> r.x == 0 && r.y == 0,
        old(device).swapchain is Some ==> {
            let (before, after) = (old(device).chain(), final(device).chain());
            &&& r == capabilities.extent(window)
            &&& before.handle != 0 && before.width != r.x ==> after.recreate_required
            &&& before.handle != 0 && before.height != r.y ==> after.recreate_required
            &&& before.width == r.x && before.height == r.y ==> after == before
            &&& after.width == before.width && after.height == before.height
        },
{
}

} // verus!
