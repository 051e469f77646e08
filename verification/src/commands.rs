//! Command buffers and the timeline on which they retire.

use crate::deferred::{
    collected, remaining, sorted, DeferredSwapchainImage, SwapchainDeleteQueue,
};
use crate::effect::Effect;
use crate::error::{failure_of, Failure};
use crate::flags::{encoded, stage_table, Access, Stage};
use crate::record::{barrier, barrier_command, Command, ImageBarrier};
use crate::texture::TextureInitialization;
use crate::vulkan::{
    ExtensionBits, ACCESS_MEMORY_READ, ACCESS_MEMORY_WRITE, LAYOUT_GENERAL, LAYOUT_UNDEFINED,
    RESULT_SUCCESS, STAGE_ALL_COMMANDS,
};
use std::sync::Arc;
use vstd::prelude::*;

verus! {

/// The most image barriers that are recorded at once.
pub const IMAGE_BARRIER_BATCH_SIZE: usize = 64;

/// How many command contexts a device starts with.
pub const INITIAL_COMMAND_CONTEXT_COUNT: usize = 2;

/// A semaphore with a value that only grows.
#[derive(Debug, PartialEq, Eq, Structural)]
pub struct TimelineSemaphore {
    pub semaphore: u64,
}

/// A timeline semaphore to create.
#[derive(Clone, Copy, Debug, PartialEq, Eq, Structural)]
pub struct SemaphoreRequest {
    /// The value that the semaphore starts with.
    pub initial_value: u64,
}

/// A value of a timeline semaphore.
#[derive(Clone, Debug)]
pub struct TimelinePoint {
    pub semaphore: Arc<TimelineSemaphore>,
    pub value: u64,
}

/// A recording, consumed by submission.
#[must_use]
#[derive(Debug)]
pub struct CommandBuffer {
    pub command_pool: u64,
    pub command_buffer: u64,
    /// The pool of the timestamp queries, or null.
    pub timestamp_pool: u64,
    /// Where the result of each query goes.
    pub timestamp_destinations: Vec<u64>,
    /// How many timestamps were written.
    pub timestamp_count: u32,
    /// The value at which the last submission retires, or 0.
    pub retire_value: u64,
    /// Whether the recording starts with the transition of the acquired swapchain image.
    pub swapchain: bool,
}

/// A context as it is right after its creation.
pub open spec fn is_new_context(
    context: CommandBuffer,
    pool: u64,
    buffer: u64,
    queries: u64,
    query_count: u32,
) -> bool {
    &&& context.command_pool == pool
    &&& context.command_buffer == buffer
    &&& context.timestamp_pool == queries
    &&& context.timestamp_destinations@ == Seq::new(query_count as nat, |i: int| 0u64)
    &&& context.timestamp_count == 0
    &&& context.retire_value == 0
    &&& !context.swapchain
}

impl CommandBuffer {
    /// No more timestamps were written than there is room for.
    pub open spec fn wf(self) -> bool {
        self.timestamp_count <= self.timestamp_destinations@.len() <= u32::MAX
    }

    /// A context that is not being recorded: nothing of the last frame is left on it.
    pub open spec fn is_clean(self) -> bool {
        self.wf() && !self.swapchain
    }

    /// A context with nothing in it.
    pub fn new() -> (r: Self)
        ensures
            is_new_context(r, 0, 0, 0, 0),
    {
        let context = CommandBuffer {
            command_pool: 0,
            command_buffer: 0,
            timestamp_pool: 0,
            timestamp_destinations: Vec::new(),
            timestamp_count: 0,
            retire_value: 0,
            swapchain: false,
        };
        assert(context.timestamp_destinations@ =~= Seq::new(0, |i: int| 0u64));
        context
    }

    /// Writes the time at which a stage has finished, for a destination in memory.
    pub fn write_timestamp(&mut self, gpu_destination: u64, stage: Stage) -> (r: Command<'static>)
        requires
            old(self).wf(),
            old(self).timestamp_count < old(self).timestamp_destinations@.len(),
        ensures
            final(self).wf(),
            r == (Command::WriteTimestamp {
                stage: encoded(stage.0, stage_table()),
                pool: old(self).timestamp_pool,
                query: old(self).timestamp_count,
            }),
            final(self).timestamp_destinations@ == old(self).timestamp_destinations@.update(
                old(self).timestamp_count as int,
                gpu_destination,
            ),
            final(self).timestamp_count == old(self).timestamp_count + 1,
            *final(self) == (CommandBuffer {
                timestamp_destinations: final(self).timestamp_destinations,
                timestamp_count: final(self).timestamp_count,
                ..*old(self)
            }),
    {
        let query = self.timestamp_count;
        self.timestamp_destinations[query as usize] = gpu_destination;
        self.timestamp_count = query + 1;
        Command::WriteTimestamp { stage: stage.vk(), pool: self.timestamp_pool, query }
    }

    /// The copies of the first `count` query results to their destinations.
    pub open spec fn query_copies(self, count: nat) -> Seq<Command<'static>> {
        Seq::new(
            count,
            |i: int|
                Command::CopyQueryResult {
                    pool: self.timestamp_pool,
                    query: i as u32,
                    address: self.timestamp_destinations@[i],
                },
        )
    }

    /// What ends a recording: the timestamps are copied and made visible to the host.
    pub open spec fn ending(self, ext: ExtensionBits) -> Seq<Command<'static>> {
        self.query_copies(self.timestamp_count as nat) + if self.timestamp_count == 0 {
            seq![]
        } else {
            seq![
                barrier_command(
                    Stage::transfer(),
                    Access::transfer_write(),
                    Stage::host(),
                    Access::host_read(),
                    ext,
                ),
            ]
        }
    }

    /// What ends a recording.
    pub fn end(&self, ext: ExtensionBits) -> (r: Vec<Command<'static>>)
        requires
            self.wf(),
        ensures
            r@ == self.ending(ext),
    {
        let mut commands: Vec<Command<'static>> = Vec::new();
        let mut query: u32 = 0;
        while query < self.timestamp_count
            invariant
                self.wf(),
                query <= self.timestamp_count,
                commands@ == self.query_copies(query as nat),
            decreases self.timestamp_count - query,
        {
            commands.push(
                Command::CopyQueryResult {
                    pool: self.timestamp_pool,
                    query,
                    address: self.timestamp_destinations[query as usize],
                },
            );
            query += 1;
            assert(commands@ =~= self.query_copies(query as nat));
        }
        if self.timestamp_count != 0 {
            commands.push(
                barrier(
                    Stage::transfer(),
                    Access::transfer_write(),
                    Stage::host(),
                    Access::host_read(),
                    ext,
                ),
            );
        }
        assert(commands@ =~= self.ending(ext));
        commands
    }
}

/// What the creation of a command context needs next, or how it ended.
#[derive(Debug)]
pub enum ContextStep {
    /// Allocate a primary command buffer from the pool.
    AllocateBuffer { pool: u64 },
    /// Create a pool of timestamp queries.
    CreateQueries { pool: u64, buffer: u64, count: u32 },
    /// The context is there.
    Done(CommandBuffer),
    /// Release the pool that is left over, then fail.
    Failed { left_pool: Option<u64>, failure: Failure },
}

/// The command pool was created, or the creation failed with a code.
pub fn on_command_pool(result: Result<u64, i32>) -> (r: ContextStep)
    ensures
        r == (match result {
            Ok(pool) => ContextStep::AllocateBuffer { pool },
            Err(code) => ContextStep::Failed { left_pool: None, failure: failure_of(code) },
        }),
{
    match result {
        Ok(pool) => ContextStep::AllocateBuffer { pool },
        Err(code) => ContextStep::Failed { left_pool: None, failure: Failure::from_code(code) },
    }
}

/// The allocation of the command buffer ended with a code. Timestamps need a query pool too.
pub fn on_command_buffer(pool: u64, code: i32, buffer: u64, query_count: u32) -> (r: ContextStep)
    ensures
        if code != RESULT_SUCCESS {
            r == (ContextStep::Failed { left_pool: Some(pool), failure: failure_of(code) })
        } else if query_count != 0 {
            r == (ContextStep::CreateQueries { pool, buffer, count: query_count })
        } else {
            r matches ContextStep::Done(context) && is_new_context(context, pool, buffer, 0, 0)
        },
{
    if code != RESULT_SUCCESS {
        return ContextStep::Failed { left_pool: Some(pool), failure: Failure::from_code(code) };
    }
    if query_count != 0 {
        return ContextStep::CreateQueries { pool, buffer, count: query_count };
    }
    let mut context = CommandBuffer::new();
    context.command_pool = pool;
    context.command_buffer = buffer;
    ContextStep::Done(context)
}

/// The query pool was created, or the creation failed with a code.
pub fn on_query_pool(
    pool: u64,
    buffer: u64,
    query_count: u32,
    result: Result<u64, i32>,
) -> (r: ContextStep)
    ensures
        match result {
            Ok(queries) => r matches ContextStep::Done(context) && is_new_context(
                context,
                pool,
                buffer,
                queries,
                query_count,
            ),
            Err(code) => r == (ContextStep::Failed {
                left_pool: Some(pool),
                failure: failure_of(code),
            }),
        },
{
    match result {
        Ok(queries) => {
            let mut context = CommandBuffer::new();
            context.command_pool = pool;
            context.command_buffer = buffer;
            context.timestamp_pool = queries;
            let mut count: u32 = 0;
            while count < query_count
                invariant
                    count <= query_count,
                    is_new_context(context, pool, buffer, queries, count),
                decreases query_count - count,
            {
                context.timestamp_destinations.push(0);
                count += 1;
                assert(context.timestamp_destinations@ =~= Seq::new(
                    count as nat,
                    |i: int| 0u64,
                ));
            }
            ContextStep::Done(context)
        },
        Err(code) => ContextStep::Failed {
            left_pool: Some(pool),
            failure: Failure::from_code(code),
        },
    }
}

/// The transition of an image that has not been used yet to the general layout.
pub open spec fn initialization_barrier(texture: TextureInitialization) -> ImageBarrier {
    ImageBarrier {
        source_stage: 0,
        source_access: 0,
        destination_stage: STAGE_ALL_COMMANDS,
        destination_access: ACCESS_MEMORY_READ | ACCESS_MEMORY_WRITE,
        old_layout: LAYOUT_UNDEFINED,
        new_layout: LAYOUT_GENERAL,
        image: texture.image,
        aspect_mask: texture.aspect_mask,
        level_count: texture.mip_levels,
        layer_count: texture.array_layers,
    }
}

/// The transitions of the textures from `start` up to `end`.
pub open spec fn initialization_barriers(
    textures: Seq<TextureInitialization>,
    start: int,
    end: int,
) -> Seq<ImageBarrier> {
    textures.subrange(start, end).map_values(
        |texture: TextureInitialization| initialization_barrier(texture),
    )
}

/// `batches` are the transitions of the textures, in order and cut into batches: every batch but
/// the last is full, and the last is not empty.
pub open spec fn is_batching(
    batches: Seq<Vec<ImageBarrier>>,
    textures: Seq<TextureInitialization>,
) -> bool {
    let size = IMAGE_BARRIER_BATCH_SIZE as int;
    &&& batches.len() == (textures.len() + size - 1) / size
    &&& forall|k: int|
        0 <= k < batches.len() ==> (#[trigger] batches[k])@ == initialization_barriers(
            textures,
            k * size,
            if (k + 1) * size <= textures.len() {
                (k + 1) * size
            } else {
                textures.len() as int
            },
        )
}

/// The transitions of the textures, in batches that are recorded at once.
pub fn initialization_batches(textures: &Vec<TextureInitialization>) -> (r: Vec<Vec<ImageBarrier>>)
    ensures
        is_batching(r@, textures@),
{
    let size = IMAGE_BARRIER_BATCH_SIZE;
    let mut batches: Vec<Vec<ImageBarrier>> = Vec::new();
    let mut barriers: Vec<ImageBarrier> = Vec::new();
    let mut i: usize = 0;
    while i < textures.len()
        invariant
            size == IMAGE_BARRIER_BATCH_SIZE,
            i <= textures@.len(),
            barriers@.len() < size,
            i == batches@.len() * size + barriers@.len(),
            barriers@ == initialization_barriers(
                textures@,
                batches@.len() * size as int,
                i as int,
            ),
            forall|k: int|
                0 <= k < batches@.len() ==> (#[trigger] batches@[k])@ == initialization_barriers(
                    textures@,
                    k * size as int,
                    (k + 1) * size as int,
                ),
        decreases textures@.len() - i,
    {
        let texture = textures[i];
        barriers.push(
            ImageBarrier {
                source_stage: 0,
                source_access: 0,
                destination_stage: STAGE_ALL_COMMANDS,
                destination_access: ACCESS_MEMORY_READ | ACCESS_MEMORY_WRITE,
                old_layout: LAYOUT_UNDEFINED,
                new_layout: LAYOUT_GENERAL,
                image: texture.image,
                aspect_mask: texture.aspect_mask,
                level_count: texture.mip_levels,
                layer_count: texture.array_layers,
            },
        );
        i += 1;
        assert(barriers@ =~= initialization_barriers(
            textures@,
            batches@.len() * size as int,
            i as int,
        ));
        if barriers.len() == size {
            batches.push(barriers);
            barriers = Vec::new();
            assert(barriers@ =~= initialization_barriers(
                textures@,
                batches@.len() * size as int,
                i as int,
            ));
        }
    }
    if barriers.len() != 0 {
        batches.push(barriers);
    }
    batches
}

/// The context has come to the value at which it retires.
pub open spec fn is_retired(context: CommandBuffer, completed: u64) -> bool {
    context.retire_value != 0 && context.retire_value <= completed
}

/// The context, reset if it has retired.
pub open spec fn settled(context: CommandBuffer, completed: u64) -> CommandBuffer {
    if is_retired(context, completed) {
        CommandBuffer { retire_value: 0, ..context }
    } else {
        context
    }
}

/// The calls that reset the retired contexts.
pub open spec fn resets(contexts: Seq<CommandBuffer>, completed: u64) -> Seq<Effect>
    decreases contexts.len(),
{
    if contexts.len() == 0 {
        seq![]
    } else {
        resets(contexts.drop_last(), completed) + if is_retired(contexts.last(), completed) {
            seq![Effect::ResetCommandPool(contexts.last().command_pool)]
        } else {
            seq![]
        }
    }
}

/// A value that a semaphore is set to.
#[derive(Clone, Copy, Debug, PartialEq, Eq, Structural)]
pub struct Signal {
    pub semaphore: u64,
    /// The value of a timeline semaphore; 0 for a binary one.
    pub value: u64,
}

/// What a submission does. The recordings are ended first. Then one batch runs the command
/// buffers, and a second one, after it, sets the value at which they retire.
#[derive(Debug)]
pub struct Submission {
    /// What ends each recording, in the order of the command buffers.
    pub endings: Vec<Vec<Command<'static>>>,
    pub command_buffers: Vec<u64>,
    /// The semaphore that the batch waits for, if any.
    pub wait: Option<u64>,
    pub signals: Vec<Signal>,
    pub retirement: Signal,
}

/// What submitted work holds: contexts to be reused and swapchain images to be destroyed once it
/// has completed. Work is numbered along a timeline semaphore.
#[derive(Debug)]
pub struct Timeline {
    /// The contexts that are not being recorded.
    pub contexts: Vec<CommandBuffer>,
    pub deferred: SwapchainDeleteQueue,
    /// The semaphore, or null where there is none.
    pub retirement: u64,
    /// The number of the last submission.
    pub submitted: u64,
    /// The number of the last submission that is known to have completed.
    pub completed: u64,
    /// How far the two may be apart.
    pub max_difference: u64,
    /// The number of recordings that were begun and not submitted.
    pub active: usize,
}

/// The timeline as a value.
#[verifier::ext_equal]
pub struct TimelineState {
    pub contexts: Seq<CommandBuffer>,
    pub deferred: Seq<DeferredSwapchainImage>,
    pub retirement: u64,
    pub submitted: u64,
    pub completed: u64,
    pub max_difference: u64,
    pub active: usize,
}

impl View for Timeline {
    type V = TimelineState;

    open spec fn view(&self) -> TimelineState {
        TimelineState {
            contexts: self.contexts@,
            deferred: self.deferred@,
            retirement: self.retirement,
            submitted: self.submitted,
            completed: self.completed,
            max_difference: self.max_difference,
            active: self.active,
        }
    }
}

impl TimelineState {
    /// Nothing completes before it is submitted, nothing waits for what was not submitted, the
    /// timeline is within its limit, and the contexts are clean.
    pub open spec fn wf(self) -> bool {
        &&& self.completed <= self.submitted
        &&& self.submitted - self.completed <= self.max_difference
        &&& self.max_difference >= 1
        &&& forall|i: int|
            0 <= i < self.contexts.len() ==> (#[trigger] self.contexts[i]).retire_value
                <= self.submitted
        &&& forall|i: int|
            0 <= i < self.contexts.len() ==> (#[trigger] self.contexts[i]).is_clean()
        &&& sorted(self.deferred)
        &&& forall|i: int|
            0 <= i < self.deferred.len() ==> (#[trigger] self.deferred[i]).retire_value
                <= self.submitted
    }

    /// What has retired is reset or destroyed.
    pub open spec fn settle(self) -> Self {
        TimelineState {
            contexts: self.contexts.map_values(|c: CommandBuffer| settled(c, self.completed)),
            deferred: remaining(self.deferred, self.completed),
            ..self
        }
    }

    /// The calls that reset or destroy what has retired.
    pub open spec fn settling(self) -> Seq<Effect> {
        resets(self.contexts, self.completed) + collected(self.deferred, self.completed)
    }

    /// The value of the semaphore can say something new.
    pub open spec fn counts(self) -> bool {
        self.retirement != 0 && self.completed != self.submitted
    }

    /// `counter` is the value of the semaphore, read where `wanted`.
    pub open spec fn is_reading(self, counter: Option<u64>, wanted: bool) -> bool {
        &&& counter is Some <==> wanted && self.counts()
        &&& counter matches Some(value) ==> self.completed <= value <= self.submitted
    }

    /// The timeline after a look at the semaphore.
    pub open spec fn polled(self, counter: Option<u64>) -> Self {
        match counter {
            Some(value) => if value != self.completed {
                TimelineState { completed: value, ..self }.settle()
            } else {
                self
            },
            None => self,
        }
    }

    /// The calls that follow a look at the semaphore.
    pub open spec fn polling(self, counter: Option<u64>) -> Seq<Effect> {
        match counter {
            Some(value) => if value != self.completed {
                TimelineState { completed: value, ..self }.settling()
            } else {
                seq![]
            },
            None => seq![],
        }
    }

    /// Completed as far as `value`.
    pub open spec fn reached(self, value: u64) -> Self {
        if value > self.completed {
            TimelineState { completed: value, ..self }
        } else {
            self
        }
    }

    /// The timeline after a wait for `value`.
    pub open spec fn waited(self, value: u64) -> Self {
        self.reached(value).settle()
    }

    /// The calls of a wait for `value`.
    pub open spec fn waiting(self, value: u64) -> Seq<Effect> {
        (if value > self.completed {
            seq![Effect::WaitSemaphore { semaphore: self.retirement, value }]
        } else {
            seq![]
        }) + self.reached(value).settling()
    }

    /// One more submission would take the timeline over its limit.
    pub open spec fn is_full(self) -> bool {
        self.submitted + 1 - self.completed > self.max_difference
    }

    /// The timeline with room for one more submission.
    pub open spec fn with_room(self, counter: Option<u64>) -> Self {
        if self.is_full() {
            let polled = self.polled(counter);
            if polled.is_full() {
                polled.waited((self.submitted + 1 - self.max_difference) as u64)
            } else {
                polled
            }
        } else {
            self
        }
    }

    /// The calls that make room for one more submission.
    pub open spec fn making_room(self, counter: Option<u64>) -> Seq<Effect> {
        if self.is_full() {
            let polled = self.polled(counter);
            self.polling(counter) + if polled.is_full() {
                polled.waiting((self.submitted + 1 - self.max_difference) as u64)
            } else {
                seq![]
            }
        } else {
            seq![]
        }
    }

    /// The timeline after the number of the next submission was taken.
    pub open spec fn advanced(self, counter: Option<u64>) -> Self {
        TimelineState { submitted: (self.submitted + 1) as u64, ..self.with_room(counter) }
    }

    /// `place` is the first context that can be recorded.
    pub open spec fn is_available(self, place: int) -> bool {
        &&& 0 <= place < self.contexts.len()
        &&& self.contexts[place].retire_value <= self.completed
        &&& forall|i: int|
            0 <= i < place ==> (#[trigger] self.contexts[i]).retire_value > self.completed
    }

    /// The context at `place` as it is handed out: reset.
    pub open spec fn handed_out(self, place: int) -> CommandBuffer {
        CommandBuffer { retire_value: 0, ..self.contexts[place] }
    }

    /// The timeline without the context at `place`.
    pub open spec fn without(self, place: int) -> Self {
        TimelineState { contexts: self.contexts.remove(place), ..self }
    }

    /// The call that resets the context at `place`, where that has not been done.
    pub open spec fn late_reset(self, place: int) -> Seq<Effect> {
        if self.contexts[place].retire_value != 0 {
            seq![Effect::ResetCommandPool(self.contexts[place].command_pool)]
        } else {
            seq![]
        }
    }
}

impl Timeline {
    /// A timeline on which nothing was submitted.
    pub fn new(max_difference: u64) -> (r: Self)
        requires
            max_difference >= 1,
        ensures
            r@.wf(),
            r@ == (TimelineState {
                contexts: Seq::empty(),
                deferred: Seq::empty(),
                retirement: 0,
                submitted: 0,
                completed: 0,
                max_difference,
                active: 0,
            }),
    {
        Timeline {
            contexts: Vec::new(),
            deferred: SwapchainDeleteQueue::new(),
            retirement: 0,
            submitted: 0,
            completed: 0,
            max_difference,
            active: 0,
        }
    }

    /// Adds a context that was created.
    pub fn grow_command_context_pool(&mut self, context: CommandBuffer)
        requires
            old(self)@.wf(),
            context.retire_value == 0,
            context.is_clean(),
        ensures
            final(self)@.wf(),
            final(self)@ == (TimelineState {
                contexts: old(self)@.contexts.push(context),
                ..old(self)@
            }),
    {
        self.contexts.push(context);
    }

    fn reset_retired_command_contexts(&mut self, effects: &mut Vec<Effect>)
        ensures
            final(self)@ == (TimelineState {
                contexts: old(self)@.contexts.map_values(
                    |c: CommandBuffer| settled(c, old(self)@.completed),
                ),
                ..old(self)@
            }),
            final(effects)@ == old(effects)@ + resets(old(self)@.contexts, old(self)@.completed),
    {
        let ghost start = self@;
        let mut i: usize = 0;
        assert(start.contexts.take(0) =~= Seq::empty());
        while i < self.contexts.len()
            invariant
                i <= self.contexts@.len() == start.contexts.len(),
                start == old(self)@,
                self@ == (TimelineState { contexts: self@.contexts, ..start }),
                forall|j: int|
                    0 <= j < i ==> (#[trigger] self.contexts@[j]) == settled(
                        start.contexts[j],
                        start.completed,
                    ),
                forall|j: int|
                    i <= j < self.contexts@.len() ==> (#[trigger] self.contexts@[j])
                        == start.contexts[j],
                effects@ == old(effects)@ + resets(start.contexts.take(i as int), start.completed),
            decreases self.contexts@.len() - i,
        {
            proof {
                assert(start.contexts.take(i + 1).drop_last() =~= start.contexts.take(i as int));
            }
            let retire_value = self.contexts[i].retire_value;
            if retire_value != 0 && retire_value <= self.completed {
                effects.push(Effect::ResetCommandPool(self.contexts[i].command_pool));
                self.contexts[i].retire_value = 0;
            }
            i += 1;
            assert(effects@ =~= old(effects)@ + resets(
                start.contexts.take(i as int),
                start.completed,
            ));
        }
        assert(start.contexts.take(i as int) =~= start.contexts);
        assert(self@.contexts =~= start.contexts.map_values(
            |c: CommandBuffer| settled(c, start.completed),
        ));
    }

    /// Destroys the swapchain images that have retired.
    pub fn collect_swapchains(&mut self, effects: &mut Vec<Effect>)
        requires
            old(self)@.wf(),
        ensures
            final(self)@.wf(),
            final(self)@ == (TimelineState {
                deferred: remaining(old(self)@.deferred, old(self)@.completed),
                ..old(self)@
            }),
            final(effects)@ == old(effects)@ + collected(
                old(self)@.deferred,
                old(self)@.completed,
            ),
    {
        proof {
            remaining_is_wf(self@.deferred, self@.completed, self@.submitted);
        }
        self.deferred.collect(self.completed, effects);
    }

    fn settle(&mut self, effects: &mut Vec<Effect>)
        requires
            old(self)@.wf(),
        ensures
            final(self)@.wf(),
            final(self)@ == old(self)@.settle(),
            final(effects)@ == old(effects)@ + old(self)@.settling(),
    {
        let ghost start = self@;
        let ghost before = effects@;
        self.reset_retired_command_contexts(effects);
        proof {
            assert forall|i: int| 0 <= i < self@.contexts.len() implies (
            #[trigger] self@.contexts[i]).retire_value <= self@.submitted by {
                assert(start.contexts[i].retire_value <= start.submitted);
            }
        }
        self.collect_swapchains(effects);
        assert(effects@ =~= before + start.settling());
    }

    /// Whether the value of the semaphore can say something new.
    pub fn wants_counter(&self) -> (r: bool)
        ensures
            r == self@.counts(),
    {
        self.retirement != 0 && self.completed != self.submitted
    }

    /// Takes the value of the semaphore, where it can say something new.
    pub fn poll_command_retirement(&mut self, counter: Option<u64>, effects: &mut Vec<Effect>)
        requires
            old(self)@.wf(),
            old(self)@.is_reading(counter, true),
        ensures
            final(self)@.wf(),
            final(self)@ == old(self)@.polled(counter),
            final(effects)@ == old(effects)@ + old(self)@.polling(counter),
    {
        let ghost before = effects@;
        match counter {
            Some(value) => {
                if value != self.completed {
                    self.completed = value;
                    self.settle(effects);
                } else {
                    assert(effects@ =~= before + self@.polling(counter));
                }
            },
            None => {
                assert(effects@ =~= before + self@.polling(counter));
            },
        }
    }

    /// Waits until the submission with the number `value` has completed.
    pub fn wait_command_retirement(&mut self, value: u64, effects: &mut Vec<Effect>)
        requires
            old(self)@.wf(),
            value <= old(self)@.submitted,
        ensures
            final(self)@.wf(),
            final(self)@ == old(self)@.waited(value),
            final(effects)@ == old(effects)@ + old(self)@.waiting(value),
    {
        let ghost start = self@;
        let ghost before = effects@;
        if value > self.completed {
            effects.push(Effect::WaitSemaphore { semaphore: self.retirement, value });
            self.completed = value;
        }
        self.settle(effects);
        assert(effects@ =~= before + start.waiting(value));
    }

    /// Whether the next submission needs a look at the semaphore.
    pub fn wants_counter_to_submit(&self) -> (r: bool)
        requires
            self@.wf(),
            self@.submitted < u64::MAX,
        ensures
            r == (self@.is_full() && self@.counts()),
    {
        self.submitted + 1 - self.completed > self.max_difference && self.wants_counter()
    }

    /// Takes the number of the next submission, and waits where the timeline has no room for it.
    pub fn next_command_retirement(
        &mut self,
        counter: Option<u64>,
        effects: &mut Vec<Effect>,
    ) -> (r: u64)
        requires
            old(self)@.wf(),
            old(self)@.submitted < u64::MAX,
            old(self)@.is_reading(counter, old(self)@.is_full()),
        ensures
            final(self)@.wf(),
            final(self)@ == old(self)@.advanced(counter),
            final(effects)@ == old(effects)@ + old(self)@.making_room(counter),
            r == old(self)@.submitted + 1,
    {
        let ghost start = self@;
        let ghost before = effects@;
        let next = self.submitted + 1;
        if next - self.completed > self.max_difference {
            self.poll_command_retirement(counter, effects);
            if next - self.completed > self.max_difference {
                self.wait_command_retirement(next - self.max_difference, effects);
            }
        }
        let ghost ready = self@;
        self.submitted = next;
        assert(forall|i: int|
            0 <= i < ready.contexts.len() ==> (#[trigger] ready.contexts[i]).retire_value
                <= ready.submitted);
        assert(effects@ =~= before + start.making_room(counter));
        next
    }

    /// Whether the next recording needs a look at the semaphore.
    pub fn wants_counter_to_begin(&self) -> (r: bool)
        ensures
            r == (self@.active == 0 && self@.counts()),
    {
        self.active == 0 && self.wants_counter()
    }

    /// Takes out the first context that can be recorded, if there is one, and resets it where that
    /// has not been done. The semaphore is looked at unless a recording is under way.
    pub fn acquire_command_context(
        &mut self,
        counter: Option<u64>,
        effects: &mut Vec<Effect>,
    ) -> (r: Option<CommandBuffer>)
        requires
            old(self)@.wf(),
            old(self)@.is_reading(counter, old(self)@.active == 0),
        ensures
            final(self)@.wf(),
            r matches Some(context) ==> context.is_clean(),
            match r {
                Some(context) => exists|place: int|
                    #![trigger old(self)@.polled(counter).is_available(place)]
                    {
                        &&& old(self)@.polled(counter).is_available(place)
                        &&& context == old(self)@.polled(counter).handed_out(place)
                        &&& final(self)@ == old(self)@.polled(counter).without(place)
                        &&& final(effects)@ == old(effects)@ + old(self)@.polling(counter) + old(
                            self,
                        )@.polled(counter).late_reset(place)
                    },
                None => {
                    &&& final(self)@ == old(self)@.polled(counter)
                    &&& forall|i: int|
                        0 <= i < final(self)@.contexts.len() ==> (
                        #[trigger] final(self)@.contexts[i]).retire_value > final(self)@.completed
                    &&& final(effects)@ == old(effects)@ + old(self)@.polling(counter)
                },
            },
    {
        let ghost before = effects@;
        let ghost polled = self@.polled(counter);
        if self.active == 0 {
            self.poll_command_retirement(counter, effects);
        } else {
            assert(effects@ =~= before + self@.polling(counter));
        }
        let ghost made = effects@;
        let mut place: usize = 0;
        while place < self.contexts.len() && self.contexts[place].retire_value > self.completed
            invariant
                self@ == polled,
                place <= self.contexts@.len(),
                forall|i: int|
                    0 <= i < place ==> (#[trigger] self@.contexts[i]).retire_value
                        > self@.completed,
            decreases self.contexts@.len() - place,
        {
            place += 1;
        }
        if place == self.contexts.len() {
            return None;
        }
        assert(polled.is_available(place as int));
        let mut context = self.contexts.remove(place);
        if context.retire_value != 0 {
            effects.push(Effect::ResetCommandPool(context.command_pool));
            context.retire_value = 0;
        }
        assert(effects@ =~= made + polled.late_reset(place as int));
        Some(context)
    }

    /// Submits recordings: all that were begun. The first batch waits for `wait` and sets `signal`
    /// where they are not null, and sets `completion`.
    pub fn submit_commands(
        &mut self,
        commands: Vec<CommandBuffer>,
        completion: &TimelinePoint,
        wait: u64,
        signal: u64,
        counter: Option<u64>,
        ext: ExtensionBits,
        effects: &mut Vec<Effect>,
    ) -> (r: Submission)
        requires
            old(self)@.wf(),
            old(self)@.submitted < u64::MAX,
            old(self)@.is_reading(counter, old(self)@.is_full()),
            commands@.len() > 0,
            old(self)@.active == commands@.len(),
            forall|i: int| 0 <= i < commands@.len() ==> (#[trigger] commands@[i]).wf(),
        ensures
            final(self)@.wf(),
            final(self)@ == (TimelineState {
                contexts: old(self)@.advanced(counter).contexts + retiring(
                    commands@,
                    final(self)@.submitted,
                ),
                active: 0,
                ..old(self)@.advanced(counter)
            }),
            final(effects)@ == old(effects)@ + old(self)@.making_room(counter),
            is_submission(
                r,
                commands@,
                Signal { semaphore: completion.semaphore.semaphore, value: completion.value },
                wait,
                signal,
                Signal { semaphore: old(self)@.retirement, value: final(self)@.submitted },
                ext,
            ),
    {
        let mut endings: Vec<Vec<Command<'static>>> = Vec::new();
        let mut command_buffers: Vec<u64> = Vec::new();
        let mut i: usize = 0;
        while i < commands.len()
            invariant
                i <= commands@.len(),
                forall|j: int| 0 <= j < commands@.len() ==> (#[trigger] commands@[j]).wf(),
                endings@.len() == i,
                command_buffers@.len() == i,
                forall|j: int| 0 <= j < i ==> (#[trigger] endings@[j])@ == commands@[j].ending(ext),
                forall|j: int|
                    0 <= j < i ==> (#[trigger] command_buffers@[j]) == commands@[j].command_buffer,
            decreases commands@.len() - i,
        {
            endings.push(commands[i].end(ext));
            command_buffers.push(commands[i].command_buffer);
            i += 1;
        }
        self.active = 0;
        let retirement = self.next_command_retirement(counter, effects);
        let wait = if wait == 0 {
            None
        } else {
            Some(wait)
        };
        let mut signals: Vec<Signal> = Vec::new();
        signals.push(
            Signal { semaphore: completion.semaphore.semaphore, value: completion.value },
        );
        if signal != 0 {
            signals.push(Signal { semaphore: signal, value: 0 });
        }
        assert(command_buffers@ =~= commands@.map_values(|c: CommandBuffer| c.command_buffer));
        assert(signals@ =~= seq![
            Signal { semaphore: completion.semaphore.semaphore, value: completion.value },
        ] + if signal == 0 {
            seq![]
        } else {
            seq![Signal { semaphore: signal, value: 0 }]
        });
        self.keep(commands, retirement);
        Submission {
            endings,
            command_buffers,
            wait,
            signals,
            retirement: Signal { semaphore: self.retirement, value: retirement },
        }
    }

    fn keep(&mut self, commands: Vec<CommandBuffer>, retirement: u64)
        requires
            old(self)@.wf(),
            retirement == old(self)@.submitted,
            forall|i: int| 0 <= i < commands@.len() ==> (#[trigger] commands@[i]).wf(),
        ensures
            final(self)@.wf(),
            final(self)@ == (TimelineState {
                contexts: old(self)@.contexts + retiring(commands@, retirement),
                ..old(self)@
            }),
    {
        let ghost all = commands@;
        let ghost start = self@;
        let count = commands.len();
        let mut rest = commands;
        assert(all.take(0) =~= Seq::empty());
        assert(self@.contexts =~= start.contexts + retiring(all.take(0), retirement));
        let mut done: usize = 0;
        while rest.len() > 0
            invariant
                retirement == start.submitted,
                forall|i: int| 0 <= i < all.len() ==> (#[trigger] all[i]).wf(),
                self@.wf(),
                count == all.len(),
                done + rest@.len() == count,
                rest@ == all.skip(done as int),
                self@ == (TimelineState {
                    contexts: start.contexts + retiring(all.take(done as int), retirement),
                    ..start
                }),
            decreases rest@.len(),
        {
            let ghost before = self@.contexts;
            assert(all[done as int].wf());
            let mut current = rest.remove(0);
            current.retire_value = retirement;
            current.swapchain = false;
            self.contexts.push(current);
            done += 1;
            assert(self@.contexts =~= start.contexts + retiring(
                all.take(done as int),
                retirement,
            ));
            assert forall|i: int| 0 <= i < self@.contexts.len() implies (
            #[trigger] self@.contexts[i]).is_clean() && self@.contexts[i].retire_value
                <= self@.submitted by {
                if i < before.len() {
                    assert(before[i].is_clean() && before[i].retire_value <= self@.submitted);
                }
            }
        }
        assert(all.take(done as int) =~= all);
    }
}

/// The contexts of a submission with the number `retirement`.
pub open spec fn retiring(commands: Seq<CommandBuffer>, retirement: u64) -> Seq<CommandBuffer> {
    commands.map_values(
        |c: CommandBuffer| CommandBuffer { retire_value: retirement, swapchain: false, ..c },
    )
}

/// `submission` runs the recordings as described.
pub open spec fn is_submission(
    submission: Submission,
    commands: Seq<CommandBuffer>,
    completion: Signal,
    wait: u64,
    signal: u64,
    retirement: Signal,
    ext: ExtensionBits,
) -> bool {
    &&& submission.endings@.len() == commands.len()
    &&& forall|i: int|
        0 <= i < commands.len() ==> (#[trigger] submission.endings@[i])@ == commands[i].ending(ext)
    &&& submission.command_buffers@ == commands.map_values(|c: CommandBuffer| c.command_buffer)
    &&& submission.wait == (if wait == 0 {
        None
    } else {
        Some(wait)
    })
    &&& submission.signals@ == seq![completion] + if signal == 0 {
        seq![]
    } else {
        seq![Signal { semaphore: signal, value: 0 }]
    }
    &&& submission.retirement == retirement
}

proof fn remaining_is_wf(entries: Seq<DeferredSwapchainImage>, completed: u64, submitted: u64)
    requires
        sorted(entries),
        forall|i: int|
            0 <= i < entries.len() ==> (#[trigger] entries[i]).retire_value <= submitted,
    ensures
        sorted(remaining(entries, completed)),
        forall|i: int|
            0 <= i < remaining(entries, completed).len() ==> (#[trigger] remaining(
                entries,
                completed,
            )[i]).retire_value <= submitted,
{
    crate::deferred::due_is_exact(entries, completed);
    let n = crate::deferred::due(entries, completed) as int;
    let rest = remaining(entries, completed);
    assert forall|i: int, j: int| 0 <= i <= j < rest.len() implies (#[trigger] rest[i]).retire_value
        <= (#[trigger] rest[j]).retire_value by {
        assert(rest[i] == entries[n + i] && rest[j] == entries[n + j]);
    }
    assert forall|i: int| 0 <= i < rest.len() implies (#[trigger] rest[i]).retire_value
        <= submitted by {
        assert(rest[i] == entries[n + i]);
    }
}

/// Waiting for the last submission retires everything: no context is left in use, and no swapchain
/// image waits.
pub proof fn waiting_for_all(timeline: TimelineState)
    requires
        timeline.wf(),
    ensures
        ({
            let after = timeline.waited(timeline.submitted);
            &&& after.completed == after.submitted
            &&& forall|i: int|
                0 <= i < after.contexts.len() ==> (#[trigger] after.contexts[i]).retire_value == 0
            &&& after.deferred == Seq::<DeferredSwapchainImage>::empty()
        }),
{
    crate::deferred::all_due(timeline.deferred, timeline.submitted);
}

/// A context that is handed out is not in use: the submission that it was last part of is known
/// to have completed, and nothing of it is left on the context.
pub proof fn handed_out_is_retired(timeline: TimelineState, place: int)
    requires
        timeline.wf(),
        timeline.is_available(place),
    ensures
        timeline.contexts[place].retire_value <= timeline.completed,
        timeline.handed_out(place).retire_value == 0,
        timeline.handed_out(place).is_clean(),
{
}

/// Taking numbers for submissions never exceeds the limit of the timeline, and numbers only grow.
pub proof fn numbers_grow_within_limit(timeline: TimelineState, counter: Option<u64>)
    requires
        timeline.wf(),
        timeline.submitted < u64::MAX,
        timeline.is_reading(counter, timeline.is_full()),
    ensures
        ({
            let after = timeline.advanced(counter);
            &&& after.submitted == timeline.submitted + 1
            &&& timeline.completed <= after.completed <= timeline.submitted
            &&& after.submitted - after.completed <= after.max_difference
        }),
{
}

/// No context is lost: a submission keeps every recording, at the number of the submission.
pub proof fn submitted_contexts_return(commands: Seq<CommandBuffer>, retirement: u64)
    ensures
        retiring(commands, retirement).len() == commands.len(),
        forall|i: int|
            0 <= i < commands.len() ==> {
                &&& (#[trigger] retiring(commands, retirement)[i]).command_pool
                    == commands[i].command_pool
                &&& retiring(commands, retirement)[i].retire_value == retirement
            },
{
}

/// A context that was just created is clean.
pub proof fn new_contexts_are_clean(
    context: CommandBuffer,
    pool: u64,
    buffer: u64,
    queries: u64,
    query_count: u32,
)
    requires
        is_new_context(context, pool, buffer, queries, query_count),
    ensures
        context.is_clean(),
        context.retire_value == 0,
{
}

/// Where no texture is pending, a recording initializes none.
pub proof fn nothing_pending_nothing_initialized(
    batches: Seq<Vec<ImageBarrier>>,
    textures: Seq<TextureInitialization>,
)
    requires
        is_batching(batches, textures),
        textures.len() == 0,
    ensures
        batches.len() == 0,
{
}

/// Every pending texture is initialized, once and in order: the batches hold all the transitions.
pub proof fn batches_cover(
    batches: Seq<Vec<ImageBarrier>>,
    textures: Seq<TextureInitialization>,
    place: int,
)
    requires
        is_batching(batches, textures),
        0 <= place < textures.len(),
    ensures
        ({
            let size = IMAGE_BARRIER_BATCH_SIZE as int;
            &&& 0 <= place / size < batches.len()
            &&& 0 <= place % size < batches[place / size]@.len() <= size
            &&& batches[place / size]@[place % size] == initialization_barrier(textures[place])
        }),
{
    let k = place / (IMAGE_BARRIER_BATCH_SIZE as int);
    assert(batches[k]@.len() > 0);
}

/// A recording ends with one copy for each timestamp that was written, to the destination that was
/// given for it and in order. Then the copies are made visible to the host, unless there are none.
pub proof fn endings_copy_each_timestamp(context: CommandBuffer, ext: ExtensionBits, query: int)
    requires
        context.wf(),
    ensures
        ({
            let ending = context.ending(ext);
            let count = context.timestamp_count;
            &&& count == 0 ==> ending.len() == 0
            &&& count > 0 ==> ending.len() == count + 1
            &&& 0 <= query < count ==> ending[query] == (Command::CopyQueryResult {
                pool: context.timestamp_pool,
                query: query as u32,
                address: context.timestamp_destinations@[query],
            })
            &&& count > 0 ==> (ending[count as int] matches Command::MemoryBarrier {
                source_stage,
                source_access,
                destination_stage,
                destination_access,
            } && source_stage == encoded(0x1, stage_table()) && source_access == encoded(
                0x2,
                crate::flags::access_table(ext),
            ) && destination_stage == encoded(0x20, stage_table()) && destination_access
                == encoded(0x400, crate::flags::access_table(ext)))
        }),
{
}

/// A context is reset exactly if it was submitted and its number has completed. Nothing else about
/// it changes.
pub proof fn contexts_settle_when_completed(context: CommandBuffer, completed: u64)
    ensures
        ({
            let after = settled(context, completed);
            &&& context.retire_value <= completed ==> after.retire_value == 0
            &&& context.retire_value > completed ==> after == context
            &&& after == CommandBuffer { retire_value: after.retire_value, ..context }
        }),
{
}

/// The pool of a context is reset exactly if the context was submitted and has completed.
pub proof fn completed_pools_are_reset(contexts: Seq<CommandBuffer>, completed: u64, pool: u64)
    ensures
        resets(contexts, completed).contains(Effect::ResetCommandPool(pool)) <==> exists|i: int|
            0 <= i < contexts.len() && (#[trigger] contexts[i]).command_pool == pool && 0
                < contexts[i].retire_value <= completed,
        resets(contexts, completed).len() <= contexts.len(),
    decreases contexts.len(),
{
    let reset = Effect::ResetCommandPool(pool);
    if contexts.len() > 0 {
        let rest = contexts.drop_last();
        let last = contexts.last();
        let before = resets(rest, completed);
        let after = resets(contexts, completed);
        completed_pools_are_reset(rest, completed, pool);
        if before.contains(reset) {
            let i = choose|i: int| 0 <= i < before.len() && before[i] == reset;
            assert(after[i] == reset);
            let k = choose|k: int|
                0 <= k < rest.len() && (#[trigger] rest[k]).command_pool == pool && 0
                    < rest[k].retire_value <= completed;
            assert(contexts[k] == rest[k]);
        }
        if is_retired(last, completed) && last.command_pool == pool {
            assert(after[before.len() as int] == reset);
            assert(contexts[contexts.len() - 1] == last);
        }
        if after.contains(reset) {
            let i = choose|i: int| 0 <= i < after.len() && after[i] == reset;
            if i < before.len() {
                assert(before[i] == reset);
            } else {
                assert(contexts[contexts.len() - 1] == last);
            }
        }
        if exists|i: int|
            0 <= i < contexts.len() && (#[trigger] contexts[i]).command_pool == pool && 0
                < contexts[i].retire_value <= completed {
            let i = choose|i: int|
                0 <= i < contexts.len() && (#[trigger] contexts[i]).command_pool == pool && 0
                    < contexts[i].retire_value <= completed;
            if i < rest.len() {
                assert(rest[i] == contexts[i]);
            }
        }
    }
}

/// A look at the semaphore that says something new completes what it says: contexts up to there can
/// be recorded again, and those beyond stay in use. Nothing is submitted by it.
pub proof fn polling_completes(timeline: TimelineState, value: u64, place: int)
    requires
        timeline.wf(),
        timeline.completed <= value <= timeline.submitted,
        0 <= place < timeline.contexts.len(),
    ensures
        ({
            let after = timeline.polled(Some(value));
            &&& after.completed == value
            &&& after.submitted == timeline.submitted
            &&& after.active == timeline.active
            &&& after.retirement == timeline.retirement
            &&& after.max_difference == timeline.max_difference
            &&& after.contexts.len() == timeline.contexts.len()
            &&& timeline.contexts[place].retire_value > value ==> after.contexts[place]
                == timeline.contexts[place]
            &&& value > timeline.completed && timeline.contexts[place].retire_value <= value
                ==> after.contexts[place].retire_value == 0
            &&& after.contexts[place].command_buffer == timeline.contexts[place].command_buffer
            &&& timeline.polled(None) == timeline
            &&& timeline.polling(None).len() == 0
        }),
{
}

/// A wait for a number blocks on the retirement semaphore exactly if the number is not known to have
/// completed, and has completed it afterwards.
pub proof fn waits_reach_their_number(timeline: TimelineState, value: u64)
    ensures
        ({
            let (after, calls) = (timeline.waited(value), timeline.waiting(value));
            let wait = Effect::WaitSemaphore { semaphore: timeline.retirement, value };
            &&& value <= after.completed
            &&& timeline.completed <= after.completed
            &&& after.completed == value || after.completed == timeline.completed
            &&& value > timeline.completed ==> calls.len() > 0 && calls[0] == wait
            &&& value <= timeline.completed ==> calls =~= timeline.settling()
            &&& after.submitted == timeline.submitted
        }),
{
}

/// Room for a submission is made only where there is none, and no wait is longer than needed: for
/// the newest submission that must have completed.
pub proof fn room_is_made_when_needed(timeline: TimelineState, counter: Option<u64>)
    requires
        timeline.wf(),
        timeline.submitted < u64::MAX,
        timeline.is_reading(counter, timeline.is_full()),
    ensures
        ({
            let after = timeline.with_room(counter);
            let distance = timeline.submitted - timeline.completed;
            &&& distance < timeline.max_difference ==> after == timeline && timeline.making_room(
                counter,
            ).len() == 0
            &&& distance == timeline.max_difference ==> {
                let least = timeline.submitted + 1 - timeline.max_difference;
                &&& after.completed >= least
                &&& counter is None || counter->0 < least ==> after.completed == least
                &&& counter is Some && counter->0 >= least ==> after.completed == counter->0
            }
            &&& after.submitted == timeline.submitted
        }),
{
}

/// A context that is handed out is the first that can be, keeps its handles, and is gone from the
/// pool, while the others stay in order.
pub proof fn contexts_are_handed_out_whole(timeline: TimelineState, place: int, other: int)
    requires
        timeline.is_available(place),
        0 <= other < timeline.contexts.len(),
        other != place,
    ensures
        ({
            let (context, handed) = (timeline.contexts[place], timeline.handed_out(place));
            let left = timeline.without(place).contexts;
            &&& other < place ==> timeline.contexts[other].retire_value > timeline.completed
            &&& handed.command_pool == context.command_pool
            &&& handed.command_buffer == context.command_buffer
            &&& handed.timestamp_pool == context.timestamp_pool
            &&& handed.timestamp_destinations == context.timestamp_destinations
            &&& left.len() == timeline.contexts.len() - 1
            &&& left[if other < place {
                other
            } else {
                other - 1
            }] == timeline.contexts[other]
            &&& context.retire_value == 0 ==> timeline.late_reset(place).len() == 0
            &&& context.retire_value > 0 ==> timeline.late_reset(place) == seq![
                Effect::ResetCommandPool(context.command_pool),
            ]
        }),
{
}

/// A submission runs every recording in the order in which it was handed over, waits and signals for
/// the frame exactly where there is one, always sets the caller's value, and then the number at
/// which its contexts retire.
pub proof fn submissions_run_everything(
    submission: Submission,
    commands: Seq<CommandBuffer>,
    completion: Signal,
    wait: u64,
    signal: u64,
    retirement: Signal,
    ext: ExtensionBits,
    place: int,
)
    requires
        is_submission(submission, commands, completion, wait, signal, retirement, ext),
        0 <= place < commands.len(),
    ensures
        submission.command_buffers@.len() == submission.endings@.len() == commands.len(),
        submission.command_buffers@[place] == commands[place].command_buffer,
        submission.endings@[place]@ == commands[place].ending(ext),
        submission.wait is Some <==> wait != 0,
        submission.wait matches Some(semaphore) ==> semaphore == wait,
        submission.signals@[0] == completion,
        signal == 0 ==> submission.signals@.len() == 1,
        signal != 0 ==> submission.signals@.len() == 2 && submission.signals@[1] == (Signal {
            semaphore: signal,
            value: 0,
        }),
        submission.retirement == retirement,
{
}

/// A texture is made usable as a whole, once: from no layout to the general one, with everything
/// after it held back until then.
pub proof fn textures_become_usable(texture: TextureInitialization)
    ensures
        ({
            let barrier = initialization_barrier(texture);
            &&& barrier.image == texture.image
            &&& barrier.aspect_mask == texture.aspect_mask
            &&& barrier.level_count == texture.mip_levels
            &&& barrier.layer_count == texture.array_layers
            &&& barrier.old_layout == LAYOUT_UNDEFINED
            &&& barrier.new_layout == LAYOUT_GENERAL
            &&& barrier.destination_stage == STAGE_ALL_COMMANDS
            &&& barrier.destination_access == ACCESS_MEMORY_READ | ACCESS_MEMORY_WRITE
            &&& barrier.source_stage == 0
            &&& barrier.source_access == 0
        }),
{
}

/// What the semaphore says is asked for only where something is outstanding, and only where it is
/// wanted. What it says lies between what is known and what was submitted.
pub proof fn counters_are_read_when_they_tell(
    timeline: TimelineState,
    counter: Option<u64>,
    wanted: bool,
)
    requires
        timeline.is_reading(counter, wanted),
    ensures
        counter is Some <==> wanted && timeline.retirement != 0 && timeline.completed
            != timeline.submitted,
        counter matches Some(value) ==> timeline.completed <= value <= timeline.submitted,
        timeline.is_full() <==> timeline.submitted - timeline.completed >= timeline.max_difference,
{
}

/// A submitted recording keeps its handles and its queries, and bears no mark of a frame any more.
pub proof fn submitted_contexts_are_unmarked(
    commands: Seq<CommandBuffer>,
    retirement: u64,
    place: int,
)
    requires
        0 <= place < commands.len(),
    ensures
        ({
            let (before, after) = (commands[place], retiring(commands, retirement)[place]);
            &&& after.retire_value == retirement
            &&& !after.swapchain
            &&& after.command_pool == before.command_pool
            &&& after.command_buffer == before.command_buffer
            &&& after.timestamp_pool == before.timestamp_pool
            &&& after.timestamp_destinations == before.timestamp_destinations
        }),
{
}

/// Timestamps take the queries in order: each goes to the destination that is given for it, and
/// those before it keep theirs.
pub proof fn timestamps_take_queries_in_order(
    context: &mut CommandBuffer,
    destination: u64,
    stage: Stage,
    r: Command<'static>,
    other: int,
)
    requires
        context.wf(),
        context.timestamp_count < context.timestamp_destinations@.len(),
        call_ensures(CommandBuffer::write_timestamp, (context, destination, stage), r),
        0 <= other < context.timestamp_destinations@.len(),
    ensures
        ({
            let (before, after) = (*old(context), *final(context));
            let query = before.timestamp_count;
            &&& r matches Command::WriteTimestamp { stage: at, pool, query: taken } && {
                &&& at == encoded(stage.0, stage_table())
                &&& pool == before.timestamp_pool
                &&& taken == query
            }
            &&& after.timestamp_count == query + 1
            &&& after.timestamp_destinations@.len() == before.timestamp_destinations@.len()
            &&& after.timestamp_destinations@[query as int] == destination
            &&& other != query ==> after.timestamp_destinations@[other]
                == before.timestamp_destinations@[other]
            &&& after.command_buffer == before.command_buffer
        }),
{
}

/// A command context comes whole or not at all: a pool that was made is handed back with every
/// failure after it, and queries are made exactly if some are asked for.
pub proof fn command_contexts_come_whole_or_not(
    pool: u64,
    buffer: u64,
    count: u32,
    code: i32,
    queries: Result<u64, i32>,
    made: Result<u64, i32>,
    first: ContextStep,
    second: ContextStep,
    third: ContextStep,
)
    requires
        call_ensures(on_command_pool, (made,), first),
        call_ensures(on_command_buffer, (pool, code, buffer, count), second),
        call_ensures(on_query_pool, (pool, buffer, count, queries), third),
    ensures
        match first {
            ContextStep::AllocateBuffer { pool: given } => made is Ok && given == made->Ok_0,
            ContextStep::Failed { left_pool, failure } => made is Err && left_pool is None && failure
                == failure_of(made->Err_0),
            _ => false,
        },
        match second {
            ContextStep::CreateQueries { pool: p, buffer: b, count: c } => code == 0 && count > 0
                && (p, b, c) == (pool, buffer, count),
            ContextStep::Done(context) => {
                &&& code == 0 && count == 0
                &&& context.command_pool == pool && context.command_buffer == buffer
                &&& context.timestamp_pool == 0 && context.timestamp_destinations@.len() == 0
            },
            ContextStep::Failed { left_pool, failure } => code != 0 && left_pool == Some(pool)
                && failure == failure_of(code),
            _ => false,
        },
        match third {
            ContextStep::Done(context) => {
                &&& queries is Ok
                &&& context.command_pool == pool && context.command_buffer == buffer
                &&& context.timestamp_pool == queries->Ok_0
                &&& context.timestamp_destinations@.len() == count
                &&& context.timestamp_count == 0 && context.retire_value == 0 && !context.swapchain
            },
            ContextStep::Failed { left_pool, failure } => queries is Err && left_pool == Some(pool)
                && failure == failure_of(queries->Err_0),
            _ => false,
        },
{
}

} // verus!
