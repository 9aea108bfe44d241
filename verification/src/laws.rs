use crate::engine::{
    answer, lemma_step_preserves_wf, outstanding, run, Action, EngineView, Event, FrameOutcome,
    InFlightFrame, Phase, RebuildStep, Resume,
};
use crate::surface::{Capabilities, Extent};
use vstd::prelude::*;

verus! {

/// The rebuild has begun and has not yet built its chain.
pub open spec fn before_build(phase: Phase) -> bool {
    phase matches Phase::Rebuilding(step, _) && (step is Draining || step is Negotiating || step
        is BuildingChain)
}

/// The rebuild has built its chain and is making what hangs on it.
pub open spec fn after_build(phase: Phase) -> bool {
    phase matches Phase::Rebuilding(step, _) && (step is BuildingTargets || step is Recording)
}

/// The chain of generation `generation` has been found stale, and no image
/// has been asked for since: either that chain still stands and its rebuild
/// is due or in its first steps, or the chain of the next generation has
/// been built and nothing has been acquired from it yet, or the engine has ended.
pub open spec fn rebuild_pending(state: EngineView, generation: nat) -> bool {
    ||| {
        &&& state.chain.generation == generation
        &&& !state.phase.live() || (state.needs_rebuild && (state.phase is Idle || before_build(
            state.phase,
        )))
    }
    ||| {
        &&& state.chain.generation == generation + 1
        &&& !state.phase.live() || after_build(state.phase) || (!state.needs_rebuild && (
        state.phase is Idle || state.phase is Waiting))
    }
}

/// The steps of one whole rebuild, from the state in which the engine has
/// asked for the device to be drained: the device goes idle, the surface
/// reports, the platform builds the chain, and the targets and the
/// sequences are made. The result is the state after the last step and the
/// engine's answer to it.
pub open spec fn rebuild(
    state: EngineView,
    capabilities: Capabilities,
    drawable: Extent,
    images: Vec<u64>,
) -> (EngineView, Action) {
    state.step(Event::DeviceIdle).0.step(
        Event::CapabilitiesReported { capabilities, drawable },
    ).0.step(Event::ChainBuilt { images }).0.step(Event::TargetsBuilt).0.step(
        Event::SequencesRecorded,
    )
}

/// In every state the render targets and the command sequences are as many
/// as the images of the chain, and they are aligned with it: the target at
/// a position is that of the image at this position, and the sequence at a
/// position renders into the target at this position.
pub proof fn lemma_sets_match_chain(state: EngineView)
    requires
        state.wf(),
    ensures
        state.render_targets().len() == state.chain.images.len(),
        state.command_sequences().len() == state.chain.images.len(),
        forall|index: int|
            0 <= index < state.chain.images.len() ==> {
                &&& (#[trigger] state.render_targets()[index]).index == index
                &&& state.render_targets()[index].image == state.chain.images[index]
                &&& state.render_targets()[index].extent == state.chain.extent
                &&& state.render_targets()[index].extent == state.configuration.extent
            },
        forall|index: int|
            0 <= index < state.chain.images.len() ==> (#[trigger] state.command_sequences()[index]).target
                == index,
{
}

/// After every rebuild the chain is of the next generation, it is built
/// with what the negotiation gave, and the render targets and the command
/// sequences are as many as its images. A rebuild that a request for a
/// frame began goes on with the frame's acquire; one that a stale chain
/// began within a frame ends that frame.
pub proof fn lemma_rebuild_completes(
    state: EngineView,
    resume: Resume,
    capabilities: Capabilities,
    drawable: Extent,
    images: Vec<u64>,
)
    requires
        state.wf(),
        state.phase == Phase::Rebuilding(RebuildStep::Draining, resume),
        capabilities.usable(),
        !capabilities.negotiated(drawable).extent.degenerate(),
    ensures
        ({
            let (after, last) = rebuild(state, capabilities, drawable, images);
            &&& after.wf()
            &&& !after.needs_rebuild
            &&& after.frame_counter == state.frame_counter
            &&& after.configuration == capabilities.negotiated(drawable)
            &&& after.chain.generation == state.chain.generation + 1
            &&& after.chain.images == images@
            &&& after.chain.matches(after.configuration)
            &&& after.render_targets().len() == images@.len()
            &&& after.command_sequences().len() == images@.len()
            &&& after.drained()
            &&& match resume {
                Resume::Frame => after.phase is Acquiring && last == (Action::Acquire {
                    slot: after.slot() as usize,
                    timeout: after.acquire_timeout,
                }),
                Resume::FrameOver(outcome) => after.phase is Idle && last == Action::FrameComplete(
                    outcome,
                ),
            }
        }),
{
    let s1 = state.step(Event::DeviceIdle).0;
    lemma_step_preserves_wf(state, Event::DeviceIdle);
    let s2 = s1.step(Event::CapabilitiesReported { capabilities, drawable }).0;
    lemma_step_preserves_wf(s1, Event::CapabilitiesReported { capabilities, drawable });
    let s3 = s2.step(Event::ChainBuilt { images }).0;
    lemma_step_preserves_wf(s2, Event::ChainBuilt { images });
    let s4 = s3.step(Event::TargetsBuilt).0;
    lemma_step_preserves_wf(s3, Event::TargetsBuilt);
    lemma_step_preserves_wf(s4, Event::SequencesRecorded);
    assert(s4.drained());
    assert(s4.ring[s4.slot()].submitted is None);
}

/// Two rebuilds in direct succession, the second caused by a stale chain
/// at the acquire that follows the first: while the surface reports the
/// same formats and present modes, both chains have the same format,
/// colour space and present mode, and while the extent inputs are unchanged
/// too, the same extent.
pub proof fn lemma_rebuild_twice(
    state: EngineView,
    first: Capabilities,
    second: Capabilities,
    first_drawable: Extent,
    second_drawable: Extent,
    first_images: Vec<u64>,
    second_images: Vec<u64>,
)
    requires
        state.wf(),
        state.phase == Phase::Rebuilding(RebuildStep::Draining, Resume::Frame),
        state.chain.generation + 1 < u64::MAX,
        first.usable(),
        second.usable(),
        !first.negotiated(first_drawable).extent.degenerate(),
        !second.negotiated(second_drawable).extent.degenerate(),
        first.supported_formats@ == second.supported_formats@,
        first.present_modes == second.present_modes,
    ensures
        ({
            let once = rebuild(state, first, first_drawable, first_images).0;
            let stale = once.step(Event::AcquireStale);
            let twice = rebuild(stale.0, second, second_drawable, second_images).0;
            &&& stale.1 == Action::WaitIdle
            &&& once.configuration.format == twice.configuration.format
            &&& once.configuration.present_mode == twice.configuration.present_mode
            &&& (first.current_extent == second.current_extent && first.min_image_extent
                == second.min_image_extent && first.max_image_extent == second.max_image_extent
                && first_drawable == second_drawable) ==> once.configuration.extent
                == twice.configuration.extent
            &&& once.chain.generation == state.chain.generation + 1
            &&& twice.chain.generation == state.chain.generation + 2
        }),
{
    lemma_rebuild_completes(state, Resume::Frame, first, first_drawable, first_images);
    let once = rebuild(state, first, first_drawable, first_images).0;
    lemma_step_preserves_wf(once, Event::AcquireStale);
    lemma_rebuild_completes(
        once.step(Event::AcquireStale).0,
        Resume::FrameOver(FrameOutcome::Abandoned),
        second,
        second_drawable,
        second_images,
    );
}

/// Every run leads from a well-formed state to a well-formed state.
pub proof fn lemma_run_keeps_wf(state: EngineView, events: Seq<Event>)
    requires
        state.wf(),
    ensures
        run(state, events).wf(),
    decreases events.len(),
{
    if events.len() > 0 {
        lemma_run_keeps_wf(state, events.drop_last());
        lemma_step_preserves_wf(run(state, events.drop_last()), events.last());
    }
}

/// The number of slots with a submission outstanding never exceeds the size of the ring.
pub proof fn lemma_outstanding_bounded(ring: Seq<InFlightFrame>)
    ensures
        outstanding(ring) <= ring.len(),
    decreases ring.len(),
{
    if ring.len() > 0 {
        lemma_outstanding_bounded(ring.drop_last());
    }
}

/// At most as many frames are in flight as the ring has slots, and each of
/// them is one of the last frames: none lies further back than the size of
/// the ring.
pub proof fn lemma_frames_in_flight_bounded(state: EngineView, frame: nat)
    requires
        state.wf(),
    ensures
        outstanding(state.ring) <= state.frames_in_flight(),
        state.in_flight(frame) ==> frame <= state.frame_counter <= frame
            + state.frames_in_flight(),
{
    lemma_outstanding_bounded(state.ring);
    if state.in_flight(frame) {
        let slot = choose|slot: int|
            0 <= slot < state.ring.len() && (#[trigger] state.ring[slot]).submitted == Some(
                frame as u64,
            ) && frame <= u64::MAX;
        assert(state.slot_wf(slot));
    }
}

/// An image is asked for only on a slot that has nothing outstanding: when
/// the engine answers with `Acquire` for frame `k + F`, frame `k` is no
/// longer in flight, nor any frame before it.
pub proof fn lemma_acquire_follows_completion(state: EngineView, event: Event, frame: nat)
    requires
        state.wf(),
        state.step(event).1 is Acquire,
    ensures
        ({
            let after = state.step(event).0;
            &&& after.phase is Acquiring
            &&& state.step(event).1 == (Action::Acquire {
                slot: after.slot() as usize,
                timeout: after.acquire_timeout,
            })
            &&& after.ring[after.slot()].submitted is None
            &&& after.in_flight(frame) ==> after.frame_counter < frame + after.frames_in_flight()
        }),
{
    let after = state.step(event).0;
    lemma_step_preserves_wf(state, event);
    if after.in_flight(frame) {
        let slot = choose|slot: int|
            0 <= slot < after.ring.len() && (#[trigger] after.ring[slot]).submitted == Some(
                frame as u64,
            ) && frame <= u64::MAX;
        let size = after.ring.len() as int;
        assert(after.slot_wf(slot));
        assert((frame + size) % size == frame as int % size) by (nonlinear_arith)
            requires
                size >= 1,
        ;
    }
}

/// A slot is waited on only while it has a submission outstanding, and the
/// wait clears it: the same slot is not waited on again before a new
/// submission on it.
pub proof fn lemma_wait_needs_submission(state: EngineView, event: Event)
    requires
        state.wf(),
        state.step(event).1 is WaitForSlot,
    ensures
        ({
            let after = state.step(event).0;
            &&& after.phase is Waiting
            &&& state.step(event).1 == (Action::WaitForSlot { slot: after.slot() as usize })
            &&& after.ring[after.slot()].submitted is Some
            &&& after.step(Event::SlotReady).0.ring[after.slot()].submitted is None
            &&& after.step(Event::SlotReady).1 is Acquire
        }),
{
    lemma_step_preserves_wf(state, event);
}

/// What is fixed when the engine is made stays fixed: no step changes the
/// number of ring slots, the pipeline or the acquire timeout. The frame
/// counter never goes back: it goes up by one when the present of a
/// submitted frame is answered, and stays as it is otherwise.
pub proof fn lemma_step_keeps_setup(state: EngineView, event: Event)
    requires
        state.wf(),
    ensures
        state.step(event).0.frames_in_flight() == state.frames_in_flight(),
        state.step(event).0.pipeline == state.pipeline,
        state.step(event).0.acquire_timeout == state.acquire_timeout,
        state.step(event).0.frame_counter == state.frame_counter + if state.phase is Presenting && (
        event is Presented || event is PresentStale) {
            1nat
        } else {
            0nat
        },
{
}

/// The generation of the chain never goes back, and it goes up by one
/// exactly when a chain is built.
pub proof fn lemma_generation_grows(state: EngineView, event: Event)
    ensures
        state.step(event).0.chain.generation == state.chain.generation + if state.step(event).1
            is BuildTargets {
            1nat
        } else {
            0nat
        },
{
}

/// While a rebuild is pending the chain is not used: one step that is no
/// resize notification answers with neither a submit nor a present, it
/// answers with an acquire only when the chain of the next generation
/// stands, and otherwise the rebuild is still pending.
pub proof fn lemma_pending_rebuild_step(state: EngineView, generation: nat, event: Event)
    requires
        state.wf(),
        rebuild_pending(state, generation),
        !(event is Resized),
    ensures
        !(state.step(event).1 is Submit),
        !(state.step(event).1 is Present),
        state.step(event).1 is Acquire ==> state.step(event).0.chain.generation == generation + 1
            && !state.step(event).0.needs_rebuild,
        !(state.step(event).1 is Acquire) ==> rebuild_pending(state.step(event).0, generation),
{
}

/// From a state in which a rebuild is pending, whatever the driver reports
/// but a resize: as long as the engine has not asked for an image, the
/// rebuild is still pending, the next answer is no submit and no present,
/// and when it is an acquire, the chain is of the next generation.
pub proof fn lemma_pending_rebuild_run(
    state: EngineView,
    generation: nat,
    events: Seq<Event>,
    index: int,
)
    requires
        state.wf(),
        rebuild_pending(state, generation),
        0 <= index < events.len(),
        forall|at: int| 0 <= at <= index ==> !(#[trigger] events[at] is Resized),
        forall|earlier: int| 0 <= earlier < index ==> !(#[trigger] answer(state, events, earlier)
            is Acquire),
    ensures
        run(state, events.take(index)).wf(),
        rebuild_pending(run(state, events.take(index)), generation),
        !(answer(state, events, index) is Submit),
        !(answer(state, events, index) is Present),
        answer(state, events, index) is Acquire ==> run(
            state,
            events.take(index + 1),
        ).chain.generation == generation + 1,
    decreases index,
{
    let before = events.take(index);
    if index > 0 {
        assert forall|earlier: int| 0 <= earlier < index - 1 implies !(#[trigger] answer(
            state,
            events,
            earlier,
        ) is Acquire) by {}
        lemma_pending_rebuild_run(state, generation, events, index - 1);
        assert(before.drop_last() =~= events.take(index - 1));
        assert(before.last() == events[index - 1]);
        let earlier_state = run(state, events.take(index - 1));
        assert(run(state, before) == earlier_state.step(events[index - 1]).0);
        assert(!(answer(state, events, index - 1) is Acquire));
        lemma_step_preserves_wf(earlier_state, events[index - 1]);
        lemma_pending_rebuild_step(earlier_state, generation, events[index - 1]);
    } else {
        assert(before =~= Seq::<Event>::empty());
    }
    let current = run(state, before);
    lemma_pending_rebuild_step(current, generation, events[index]);
    assert(events.take(index + 1).drop_last() =~= before);
    assert(events.take(index + 1).last() == events[index]);
}

/// A stale chain at the acquire of a frame: nothing of the frame is
/// submitted or presented, the frame counter, the ring and the chain stay
/// as they are, and the rebuild begins at once. Whatever the driver reports
/// after that, but a resize, the engine answers with no submit and no
/// present until it has asked for an image again, and when it does, the
/// chain is of the next generation: exactly one chain has been built in
/// between.
pub proof fn lemma_stale_acquire(state: EngineView, events: Seq<Event>, index: int)
    requires
        state.wf(),
        state.phase is Acquiring,
        0 <= index < events.len(),
        forall|at: int| 0 <= at <= index ==> !(#[trigger] events[at] is Resized),
        forall|earlier: int|
            0 <= earlier < index ==> !(#[trigger] answer(
                state.step(Event::AcquireStale).0,
                events,
                earlier,
            ) is Acquire),
    ensures
        ({
            let (stale, first) = state.step(Event::AcquireStale);
            &&& first == if state.chain.generation < u64::MAX {
                Action::WaitIdle
            } else {
                Action::FrameComplete(FrameOutcome::Abandoned)
            }
            &&& stale.needs_rebuild
            &&& stale.frame_counter == state.frame_counter
            &&& stale.ring == state.ring
            &&& stale.chain == state.chain
            &&& !(answer(stale, events, index) is Submit)
            &&& !(answer(stale, events, index) is Present)
            &&& answer(stale, events, index) is Acquire ==> run(
                stale,
                events.take(index + 1),
            ).chain.generation == state.chain.generation + 1
        }),
{
    let stale = state.step(Event::AcquireStale).0;
    lemma_step_preserves_wf(state, Event::AcquireStale);
    lemma_pending_rebuild_run(stale, state.chain.generation, events, index);
}

/// The frame in which the acquire finds the chain stale: when the rebuild
/// is through, the frame is over and abandoned, the engine is idle on the
/// chain of the next generation, and the frame counter is where it was.
pub proof fn lemma_stale_acquire_rebuilds(
    state: EngineView,
    capabilities: Capabilities,
    drawable: Extent,
    images: Vec<u64>,
)
    requires
        state.wf(),
        state.phase is Acquiring,
        state.chain.generation < u64::MAX,
        capabilities.usable(),
        !capabilities.negotiated(drawable).extent.degenerate(),
    ensures
        ({
            let (after, last) = rebuild(
                state.step(Event::AcquireStale).0,
                capabilities,
                drawable,
                images,
            );
            &&& state.step(Event::AcquireStale).1 == Action::WaitIdle
            &&& last == Action::FrameComplete(FrameOutcome::Abandoned)
            &&& after.wf()
            &&& after.phase is Idle
            &&& !after.needs_rebuild
            &&& after.frame_counter == state.frame_counter
            &&& after.chain.generation == state.chain.generation + 1
            &&& after.configuration == capabilities.negotiated(drawable)
            &&& after.render_targets().len() == after.chain.images.len()
            &&& after.command_sequences().len() == after.chain.images.len()
        }),
{
    lemma_step_preserves_wf(state, Event::AcquireStale);
    lemma_rebuild_completes(
        state.step(Event::AcquireStale).0,
        Resume::FrameOver(FrameOutcome::Abandoned),
        capabilities,
        drawable,
        images,
    );
}

/// A stale chain at the present of a frame: the frame counts as submitted,
/// the rebuild begins at once, and nothing more is presented on this chain
/// generation.
pub proof fn lemma_stale_present(state: EngineView, events: Seq<Event>, index: int)
    requires
        state.wf(),
        state.phase is Presenting,
        0 <= index < events.len(),
        forall|at: int| 0 <= at <= index ==> !(#[trigger] events[at] is Resized),
        forall|earlier: int|
            0 <= earlier < index ==> !(#[trigger] answer(
                state.step(Event::PresentStale).0,
                events,
                earlier,
            ) is Acquire),
    ensures
        ({
            let (stale, first) = state.step(Event::PresentStale);
            &&& first is WaitIdle || first is FrameComplete
            &&& stale.needs_rebuild
            &&& stale.frame_counter == state.frame_counter + 1
            &&& stale.chain == state.chain
            &&& stale.in_flight(state.frame_counter)
            &&& !(answer(stale, events, index) is Submit)
            &&& !(answer(stale, events, index) is Present)
            &&& answer(stale, events, index) is Acquire ==> run(
                stale,
                events.take(index + 1),
            ).chain.generation == state.chain.generation + 1
        }),
{
    let stale = state.step(Event::PresentStale).0;
    lemma_step_preserves_wf(state, Event::PresentStale);
    lemma_pending_rebuild_run(stale, state.chain.generation, events, index);
    assert(stale.ring[state.slot()].submitted == Some(state.frame_counter as u64));
}

/// A frame's image is the one that the chain handed out: the submit and
/// the present that follow an acquire carry the acquired index, whatever
/// the frame counter is.
pub proof fn lemma_frame_uses_acquired_image(state: EngineView, image: usize)
    requires
        state.wf(),
        state.phase is Acquiring,
        image < state.chain.images.len(),
    ensures
        ({
            let submitting = state.step(Event::Acquired { image });
            let presenting = submitting.0.step(Event::Submitted);
            let done = presenting.0.step(Event::Presented);
            &&& submitting.1 == (Action::Submit { image, slot: state.slot() as usize })
            &&& presenting.1 == (Action::Present { image, slot: state.slot() as usize })
            &&& done.1 == Action::FrameComplete(FrameOutcome::Presented { image })
            &&& done.0.frame_counter == state.frame_counter + 1
            &&& done.0.in_flight(state.frame_counter)
        }),
{
    let submitting = state.step(Event::Acquired { image });
    let presenting = submitting.0.step(Event::Submitted);
    let done = presenting.0.step(Event::Presented);
    assert(done.0.ring[state.slot()].submitted == Some(state.frame_counter as u64));
}

} // verus!
