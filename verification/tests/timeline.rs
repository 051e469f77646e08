use no_graphics::commands::{
    initialization_batches, on_command_buffer, on_command_pool, on_query_pool, ContextStep, Signal,
    Timeline, IMAGE_BARRIER_BATCH_SIZE,
};
use no_graphics::deferred::SwapchainDeleteQueue;
use no_graphics::texture::TextureInitialization;
use no_graphics::vulkan::{
    ExtensionBits, ERROR_DEVICE_LOST, ERROR_OUT_OF_HOST_MEMORY, LAYOUT_GENERAL, LAYOUT_UNDEFINED,
};
use no_graphics::{
    Command, CommandBuffer, Effect, Error, Failure, Stage, TimelinePoint, TimelineSemaphore,
};
use std::sync::Arc;

const EXT: ExtensionBits = ExtensionBits {
    sampler_heap_read: 0,
    resource_heap_read: 0,
    descriptor_heap_buffer: 0,
    tile_memory_heap: 0,
};

fn context(pool: u64) -> CommandBuffer {
    match on_query_pool(pool, pool + 1, 4, Ok(pool + 2)) {
        ContextStep::Done(context) => context,
        _ => panic!(),
    }
}

fn point(value: u64) -> TimelinePoint {
    TimelinePoint { semaphore: Arc::new(TimelineSemaphore { semaphore: 99 }), value }
}

fn begun(timeline: &mut Timeline, counter: Option<u64>) -> CommandBuffer {
    let mut effects = Vec::new();
    let context = timeline.acquire_command_context(counter, &mut effects).unwrap();
    timeline.active += 1;
    context
}

#[test]
fn contexts_come_step_by_step() {
    assert!(matches!(on_command_pool(Ok(5)), ContextStep::AllocateBuffer { pool: 5 }));
    assert!(matches!(
        on_command_pool(Err(ERROR_DEVICE_LOST)),
        ContextStep::Failed { left_pool: None, failure: Failure::Reported(Error::DeviceLost) }
    ));
    assert!(matches!(
        on_command_buffer(5, ERROR_OUT_OF_HOST_MEMORY, 0, 4),
        ContextStep::Failed { left_pool: Some(5), failure: Failure::Exhausted }
    ));
    assert!(matches!(
        on_command_buffer(5, 0, 6, 4),
        ContextStep::CreateQueries { pool: 5, buffer: 6, count: 4 }
    ));
    let ContextStep::Done(plain) = on_command_buffer(5, 0, 6, 0) else { panic!() };
    assert_eq!((plain.command_pool, plain.command_buffer, plain.timestamp_pool), (5, 6, 0));
    assert!(plain.timestamp_destinations.is_empty());
    assert!(matches!(
        on_query_pool(5, 6, 4, Err(-3)),
        ContextStep::Failed { left_pool: Some(5), .. }
    ));
    let timed = context(5);
    assert_eq!(timed.timestamp_destinations, vec![0; 4]);
    assert_eq!((timed.timestamp_pool, timed.retire_value, timed.swapchain), (7, 0, false));
    let empty = CommandBuffer::new();
    assert_eq!((empty.command_pool, empty.timestamp_count), (0, 0));
}

#[test]
fn timestamps_are_copied_when_a_recording_ends() {
    let mut commands = context(5);
    assert!(commands.end(EXT).is_empty());
    let first = commands.write_timestamp(0x100, Stage::all_commands());
    assert!(matches!(
        first,
        Command::WriteTimestamp { stage: 0x10000, pool: 7, query: 0 }
    ));
    commands.write_timestamp(0x200, Stage::transfer());
    assert_eq!(commands.timestamp_count, 2);
    let ending = commands.end(EXT);
    assert_eq!(ending.len(), 3);
    assert!(matches!(
        ending[0],
        Command::CopyQueryResult { pool: 7, query: 0, address: 0x100 }
    ));
    assert!(matches!(
        ending[1],
        Command::CopyQueryResult { pool: 7, query: 1, address: 0x200 }
    ));
    assert!(matches!(
        ending[2],
        Command::MemoryBarrier {
            source_stage: 0x1_0000_0000,
            source_access: 0x1000,
            destination_stage: 0x4000,
            destination_access: 0x2000,
        }
    ));
}

#[test]
fn a_submission_keeps_its_contexts_until_it_completes() {
    let mut timeline = Timeline::new(10);
    timeline.retirement = 50;
    timeline.grow_command_context_pool(context(10));
    timeline.grow_command_context_pool(context(20));
    assert!(!timeline.wants_counter());
    let mut effects = Vec::new();
    let first = begun(&mut timeline, None);
    assert_eq!(first.command_pool, 10);
    let second = begun(&mut timeline, None);
    assert_eq!(second.command_pool, 20);
    assert!(timeline.acquire_command_context(None, &mut effects).is_none());
    let submission = timeline.submit_commands(
        vec![first, second],
        &point(7),
        0,
        0,
        None,
        EXT,
        &mut effects,
    );
    assert!(effects.is_empty());
    assert_eq!(submission.command_buffers, vec![11, 21]);
    assert_eq!(submission.endings.len(), 2);
    assert_eq!(submission.wait, None);
    assert_eq!(submission.signals, vec![Signal { semaphore: 99, value: 7 }]);
    assert_eq!(submission.retirement, Signal { semaphore: 50, value: 1 });
    assert_eq!((timeline.active, timeline.submitted, timeline.completed), (0, 1, 0));
    assert!(timeline.contexts.iter().all(|c| c.retire_value == 1 && !c.swapchain));
    // Not completed yet: no context is free.
    assert!(timeline.wants_counter_to_begin());
    assert!(timeline.acquire_command_context(Some(0), &mut effects).is_none());
    assert!(effects.is_empty());
    // Completed: both are reset, and the first is handed out.
    let again = timeline.acquire_command_context(Some(1), &mut effects).unwrap();
    assert_eq!((again.command_pool, again.retire_value), (10, 0));
    assert_eq!(effects, vec![Effect::ResetCommandPool(10), Effect::ResetCommandPool(20)]);
    assert_eq!(timeline.contexts.len(), 1);
}

#[test]
fn submissions_wait_for_and_signal_what_they_are_given() {
    let mut timeline = Timeline::new(10);
    timeline.grow_command_context_pool(context(10));
    let commands = begun(&mut timeline, None);
    let submission =
        timeline.submit_commands(vec![commands], &point(1), 61, 62, None, EXT, &mut Vec::new());
    assert_eq!(submission.wait, Some(61));
    assert_eq!(
        submission.signals,
        vec![Signal { semaphore: 99, value: 1 }, Signal { semaphore: 62, value: 0 }]
    );
}

#[test]
fn the_timeline_stays_within_its_limit() {
    let mut timeline = Timeline::new(2);
    timeline.retirement = 50;
    let mut effects = Vec::new();
    assert!(!timeline.wants_counter_to_submit());
    assert_eq!(timeline.next_command_retirement(None, &mut effects), 1);
    assert_eq!(timeline.next_command_retirement(None, &mut effects), 2);
    assert!(effects.is_empty());
    // Full: the semaphore is looked at, and says nothing new, so it is waited for.
    assert!(timeline.wants_counter_to_submit());
    assert_eq!(timeline.next_command_retirement(Some(0), &mut effects), 3);
    assert_eq!(effects, vec![Effect::WaitSemaphore { semaphore: 50, value: 1 }]);
    assert_eq!((timeline.submitted, timeline.completed), (3, 1));
    // Full again, and a look suffices.
    effects.clear();
    assert_eq!(timeline.next_command_retirement(Some(3), &mut effects), 4);
    assert!(effects.is_empty());
    assert_eq!(timeline.completed, 3);
}

#[test]
fn waiting_for_the_last_submission_retires_everything() {
    let mut timeline = Timeline::new(10);
    timeline.retirement = 50;
    timeline.grow_command_context_pool(context(10));
    let commands = begun(&mut timeline, None);
    timeline.submit_commands(vec![commands], &point(1), 0, 0, None, EXT, &mut Vec::new());
    timeline.deferred.push(1, 70, 71);
    let mut effects = Vec::new();
    timeline.wait_command_retirement(1, &mut effects);
    assert_eq!(
        effects,
        vec![
            Effect::WaitSemaphore { semaphore: 50, value: 1 },
            Effect::ResetCommandPool(10),
            Effect::DestroyImageView(71),
            Effect::DestroySwapchain(70),
        ]
    );
    assert!(timeline.contexts.iter().all(|c| c.retire_value == 0));
    assert_eq!(timeline.deferred.count(), 0);
    effects.clear();
    timeline.wait_command_retirement(1, &mut effects);
    timeline.poll_command_retirement(None, &mut effects);
    assert!(effects.is_empty());
}

#[test]
fn swapchains_go_after_their_last_image() {
    let fill = || {
        let mut queue = SwapchainDeleteQueue::new();
        queue.push(1, 10, 11);
        queue.push(1, 10, 12);
        queue.push(2, 20, 21);
        queue.push(3, 20, 22);
        queue
    };
    let all = vec![
        Effect::DestroyImageView(11),
        Effect::DestroyImageView(12),
        Effect::DestroySwapchain(10),
        Effect::DestroyImageView(21),
        Effect::DestroyImageView(22),
        Effect::DestroySwapchain(20),
    ];
    let mut queue = fill();
    let mut effects = Vec::new();
    queue.collect(0, &mut effects);
    assert!(effects.is_empty());
    queue.collect(2, &mut effects);
    assert_eq!(effects, all[..4].to_vec());
    assert_eq!(queue.count(), 1);
    assert!(queue.holds_swapchain(20));
    assert!(!queue.holds_swapchain(10));
    queue.collect(3, &mut effects);
    assert_eq!(effects, all);
    assert_eq!(queue.count(), 0);
    // At once comes to the same.
    let mut at_once = Vec::new();
    fill().collect(3, &mut at_once);
    assert_eq!(at_once, all);
}

#[test]
fn textures_are_initialized_in_batches() {
    let textures: Vec<TextureInitialization> = (0..130)
        .map(|image| TextureInitialization {
            image,
            aspect_mask: 1,
            mip_levels: 3,
            array_layers: 2,
        })
        .collect();
    let batches = initialization_batches(&textures);
    let sizes: Vec<usize> = batches.iter().map(|batch| batch.len()).collect();
    assert_eq!(sizes, vec![IMAGE_BARRIER_BATCH_SIZE, IMAGE_BARRIER_BATCH_SIZE, 2]);
    let images: Vec<u64> = batches.iter().flatten().map(|barrier| barrier.image).collect();
    assert_eq!(images, (0..130).collect::<Vec<u64>>());
    let barrier = batches[2][1];
    assert_eq!((barrier.source_stage, barrier.source_access), (0, 0));
    assert_eq!((barrier.destination_stage, barrier.destination_access), (0x10000, 0x18000));
    assert_eq!((barrier.old_layout, barrier.new_layout), (LAYOUT_UNDEFINED, LAYOUT_GENERAL));
    assert_eq!((barrier.aspect_mask, barrier.level_count, barrier.layer_count), (1, 3, 2));
    assert!(initialization_batches(&Vec::new()).is_empty());
    assert_eq!(initialization_batches(&textures[..64].to_vec()).len(), 1);
}
