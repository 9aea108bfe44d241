use crate::chain::{
    create_command_buffers, create_framebuffers, CommandSequence, CommandSequenceSet, ImageChain,
    ImageChainView, PipelineDescription, RenderTarget, RenderTargetSet,
};
use crate::surface::{negotiate, Capabilities, Extent, SurfaceConfiguration};
use vstd::prelude::*;

verus! {

/// The failures that end an engine: they are handed to the caller, never retried.
#[derive(Clone, Copy, Debug, PartialEq, Eq, Structural)]
pub enum FatalError {
    /// The surface could not report its capabilities.
    CapabilityQueryError,
    /// The queue refused the frame's work.
    SubmissionError,
}

/// How far a rebuild has come.
#[derive(Clone, Copy, Debug, PartialEq, Eq, Structural)]
pub enum RebuildStep {
    /// Waiting for the device to go idle.
    Draining,
    /// Waiting for the surface's capabilities.
    Negotiating,
    /// Waiting for the platform to build the chain for the negotiated configuration.
    BuildingChain { configuration: SurfaceConfiguration },
    /// Waiting for the render targets of the new chain.
    BuildingTargets,
    /// Waiting for the command sequences of the new chain.
    Recording,
}

/// What follows a rebuild.
#[derive(Clone, Copy, Debug, PartialEq, Eq, Structural)]
pub enum Resume {
    /// The rebuild was begun by a request for a frame: the frame goes on
    /// with its first step.
    Frame,
    /// The rebuild was begun by a stale chain within a frame: that frame is
    /// over, and ends as given.
    FrameOver(FrameOutcome),
}

/// Where the engine stands.
#[derive(Clone, Copy, Debug, PartialEq, Eq, Structural)]
pub enum Phase {
    /// Between frames.
    Idle,
    /// Waiting for the ring slot's earlier submission to complete.
    Waiting,
    /// Waiting for the chain to hand out an image.
    Acquiring,
    /// Waiting for the queue to take the frame's work.
    Submitting { image: usize },
    /// Waiting for the presentation of the frame's image to be queued.
    Presenting { image: usize },
    /// Replacing the chain and what hangs on it.
    Rebuilding(RebuildStep, Resume),
    /// Ended by a fatal error; only a shutdown is accepted.
    Failed(FatalError),
    /// Waiting for the device to go idle before resources are released.
    ShuttingDown,
    /// Drained; resources may be released.
    Terminated,
}

/// How a frame ended.
#[derive(Clone, Copy, Debug, PartialEq, Eq, Structural)]
pub enum FrameOutcome {
    /// Submitted and presented.
    Presented { image: usize },
    /// Submitted, but the chain was stale when the image was presented.
    PresentedStale { image: usize },
    /// The chain was stale when an image was asked for: nothing was
    /// submitted or presented.
    Abandoned,
    /// No image became available within the timeout: nothing was submitted
    /// or presented.
    Skipped,
}

/// What the driver reports to the engine.
#[derive(Clone, Debug)]
pub enum Event {
    /// The driver wants a frame rendered.
    FrameRequested,
    /// The window was resized. The chain is rebuilt at the next request for
    /// a frame; a resize that a rebuild under way has missed shows as a stale
    /// chain later.
    Resized,
    /// The driver wants to stop.
    ShutdownRequested,
    /// The awaited ring slot's submission has completed and its signal was reset.
    SlotReady,
    /// The chain handed out the image at this index.
    Acquired { image: usize },
    /// The chain is stale and hands out no image. The rebuild begins at
    /// once; the frame is over when the rebuild is.
    AcquireStale,
    /// No image became available within the timeout.
    AcquireTimedOut,
    /// The queue took the frame's work.
    Submitted,
    /// The queue refused the frame's work.
    SubmitFailed,
    /// The presentation was queued.
    Presented,
    /// The chain was stale when the image was presented. The frame counts
    /// as submitted, and the rebuild begins at once.
    PresentStale,
    /// The device has gone idle.
    DeviceIdle,
    /// The surface reported its capabilities, and the window its drawable size.
    CapabilitiesReported { capabilities: Capabilities, drawable: Extent },
    /// The surface could not report its capabilities.
    CapabilityQueryFailed,
    /// The platform built the chain; these are its images.
    ChainBuilt { images: Vec<u64> },
    /// The render targets of the new chain exist.
    TargetsBuilt,
    /// The command sequences of the new chain are recorded.
    SequencesRecorded,
}

/// What the engine asks the driver to do next.
#[derive(Clone, Copy, Debug, PartialEq, Eq, Structural)]
pub enum Action {
    /// Wait on the submission-complete signal of this ring slot, reset it,
    /// and report `SlotReady`.
    WaitForSlot { slot: usize },
    /// Ask the chain for an image, to be announced on the slot's
    /// image-acquired signal; `None` waits without limit.
    Acquire { slot: usize, timeout: Option<u64> },
    /// Submit the command sequence of the image: it waits on the slot's
    /// image-acquired signal and signals the slot's render-finished and
    /// submission-complete signals. Data that changes from frame to frame is
    /// written into the image's buffers before the sequence is submitted:
    /// the sequences themselves stay as they are until the next rebuild.
    Submit { image: usize, slot: usize },
    /// Present the image once the slot's render-finished signal is given.
    Present { image: usize, slot: usize },
    /// Wait for the device to go idle and report `DeviceIdle`.
    WaitIdle,
    /// Query the surface and report its capabilities.
    QueryCapabilities,
    /// Build a chain for the configuration, handing the chain of generation
    /// `retire` to the platform as the one it replaces.
    BuildChain { configuration: SurfaceConfiguration, retire: u64 },
    /// Build the render targets that the engine now describes.
    BuildTargets { generation: u64, count: usize },
    /// Record the command sequences that the engine now describes.
    RecordSequences { generation: u64, count: usize },
    /// The frame is over; the engine is idle.
    FrameComplete(FrameOutcome),
    /// The surface has no pixels: wait for window events before asking again.
    Yield,
    /// The engine has failed; shut it down.
    Fatal(FatalError),
    /// The device is drained: resources may be released.
    Release,
    /// Taken note of; nothing to do.
    Noted,
    /// The event cannot be taken in this state; nothing changed.
    Rejected,
}

/// One slot of the ring of frames in flight. The slot's three signals are
/// the driver's; the engine keeps track of what the slot has outstanding.
#[derive(Clone, Copy, Debug, PartialEq, Eq, Structural)]
pub struct InFlightFrame {
    /// The frame whose submission was made on this slot and has not been
    /// seen to complete.
    pub submitted: Option<u64>,
}

/// The mathematical state of the engine.
pub struct EngineView {
    pub phase: Phase,
    /// Number of frames submitted so far.
    pub frame_counter: nat,
    /// The ring of frames in flight, by slot.
    pub ring: Seq<InFlightFrame>,
    pub needs_rebuild: bool,
    pub acquire_timeout: Option<u64>,
    pub pipeline: PipelineDescription,
    pub configuration: SurfaceConfiguration,
    pub chain: ImageChainView,
}

impl Phase {
    /// The engine can still render.
    pub open spec fn live(self) -> bool {
        !(self is Failed || self is ShuttingDown || self is Terminated)
    }
}

/// A ring of the given size with nothing outstanding.
pub open spec fn drained_ring(size: nat) -> Seq<InFlightFrame> {
    Seq::new(size, |slot: int| InFlightFrame { submitted: None })
}

impl EngineView {
    /// The number of frames that may be in flight at once.
    pub open spec fn frames_in_flight(self) -> nat {
        self.ring.len()
    }

    /// The ring slot of the current frame.
    pub open spec fn slot(self) -> int {
        (self.frame_counter % self.ring.len()) as int
    }

    /// No slot has a submission outstanding.
    pub open spec fn drained(self) -> bool {
        forall|slot: int| 0 <= slot < self.ring.len() ==> (#[trigger] self.ring[slot]).submitted is None
    }

    /// Frame `frame` has been submitted and not been seen to complete.
    pub open spec fn in_flight(self, frame: nat) -> bool {
        exists|slot: int|
            0 <= slot < self.ring.len() && (#[trigger] self.ring[slot]).submitted == Some(
                frame as u64,
            ) && frame <= u64::MAX
    }

    /// The render targets that belong to the current chain.
    pub open spec fn render_targets(self) -> Seq<RenderTarget> {
        self.chain.targets(self.pipeline.layout)
    }

    /// The command sequences that belong to the current chain.
    pub open spec fn command_sequences(self) -> Seq<CommandSequence> {
        self.chain.sequences(self.pipeline)
    }

    /// What a slot may hold: a frame of this slot that is at most one ring
    /// behind the current frame, and the current frame only while it is
    /// being presented.
    pub open spec fn slot_wf(self, slot: int) -> bool {
        self.ring[slot].submitted matches Some(frame) ==> {
            &&& frame as int % self.ring.len() as int == slot
            &&& frame <= self.frame_counter <= frame + self.ring.len()
            &&& frame == self.frame_counter ==> self.phase is Presenting
        }
    }

    /// What the phase demands of the rest of the state.
    pub open spec fn phase_wf(self) -> bool {
        match self.phase {
            Phase::Idle => true,
            Phase::Waiting => self.frame_counter < u64::MAX && self.ring[self.slot()].submitted
                is Some,
            Phase::Acquiring => self.frame_counter < u64::MAX && self.ring[self.slot()].submitted
                is None,
            Phase::Submitting { image } => {
                &&& self.frame_counter < u64::MAX
                &&& self.ring[self.slot()].submitted is None
                &&& image < self.chain.images.len()
            },
            Phase::Presenting { image } => {
                &&& self.frame_counter < u64::MAX
                &&& self.ring[self.slot()].submitted == Some(self.frame_counter as u64)
                &&& image < self.chain.images.len()
            },
            Phase::Rebuilding(step, resume) => {
                &&& self.needs_rebuild
                &&& resume is Frame ==> self.frame_counter < u64::MAX
                &&& match step {
                    RebuildStep::Draining => self.chain.generation < u64::MAX,
                    RebuildStep::Negotiating => self.chain.generation < u64::MAX && self.drained(),
                    RebuildStep::BuildingChain { configuration } => self.chain.generation
                        < u64::MAX && self.drained(),
                    RebuildStep::BuildingTargets => self.drained(),
                    RebuildStep::Recording => self.drained(),
                }
            },
            Phase::Failed(_) => true,
            Phase::ShuttingDown => true,
            Phase::Terminated => true,
        }
    }

    /// The state is one that the engine can be in.
    pub open spec fn wf(self) -> bool {
        &&& self.ring.len() >= 1
        &&& self.ring.len() <= usize::MAX
        &&& self.frame_counter <= u64::MAX
        &&& self.chain.generation <= u64::MAX
        &&& self.chain.images.len() <= usize::MAX
        &&& self.chain.matches(self.configuration)
        &&& forall|slot: int| 0 <= slot < self.ring.len() ==> self.slot_wf(slot)
        &&& self.phase_wf()
    }

    /// The event changes nothing and is refused.
    pub open spec fn refuse(self) -> (EngineView, Action) {
        (self, Action::Rejected)
    }

    /// The first step of a frame: wait for the slot if it has a submission
    /// outstanding, else ask for an image.
    pub open spec fn begin_frame(self) -> (EngineView, Action) {
        if self.ring[self.slot()].submitted is Some {
            (
                EngineView { phase: Phase::Waiting, ..self },
                Action::WaitForSlot { slot: self.slot() as usize },
            )
        } else {
            (
                EngineView { phase: Phase::Acquiring, ..self },
                Action::Acquire { slot: self.slot() as usize, timeout: self.acquire_timeout },
            )
        }
    }

    /// A stale chain within a frame: the rebuild begins at once, and the
    /// frame is over when the rebuild is. Where the chain's generations are
    /// used up the frame ends at once, with the rebuild left due.
    pub open spec fn rebuild_within_frame(self, outcome: FrameOutcome) -> (EngineView, Action) {
        if self.chain.generation >= u64::MAX {
            (
                EngineView { phase: Phase::Idle, needs_rebuild: true, ..self },
                Action::FrameComplete(outcome),
            )
        } else {
            (
                EngineView {
                    phase: Phase::Rebuilding(RebuildStep::Draining, Resume::FrameOver(outcome)),
                    needs_rebuild: true,
                    ..self
                },
                Action::WaitIdle,
            )
        }
    }

    /// The step out of `Idle`.
    pub open spec fn step_idle(self, event: Event) -> (EngineView, Action) {
        match event {
            Event::FrameRequested => if self.frame_counter >= u64::MAX {
                self.refuse()
            } else if self.needs_rebuild {
                if self.chain.generation >= u64::MAX {
                    self.refuse()
                } else {
                    (
                        EngineView {
                            phase: Phase::Rebuilding(RebuildStep::Draining, Resume::Frame),
                            ..self
                        },
                        Action::WaitIdle,
                    )
                }
            } else {
                self.begin_frame()
            },
            Event::ShutdownRequested => (
                EngineView { phase: Phase::ShuttingDown, ..self },
                Action::WaitIdle,
            ),
            _ => self.refuse(),
        }
    }

    /// The step out of `Waiting`.
    pub open spec fn step_waiting(self, event: Event) -> (EngineView, Action) {
        match event {
            Event::SlotReady => (
                EngineView {
                    phase: Phase::Acquiring,
                    ring: self.ring.update(self.slot(), InFlightFrame { submitted: None }),
                    ..self
                },
                Action::Acquire { slot: self.slot() as usize, timeout: self.acquire_timeout },
            ),
            _ => self.refuse(),
        }
    }

    /// The step out of `Acquiring`.
    pub open spec fn step_acquiring(self, event: Event) -> (EngineView, Action) {
        match event {
            Event::Acquired { image } => if image < self.chain.images.len() {
                (
                    EngineView { phase: Phase::Submitting { image }, ..self },
                    Action::Submit { image, slot: self.slot() as usize },
                )
            } else {
                self.refuse()
            },
            Event::AcquireStale => self.rebuild_within_frame(FrameOutcome::Abandoned),
            Event::AcquireTimedOut => if self.acquire_timeout is Some {
                (
                    EngineView { phase: Phase::Idle, ..self },
                    Action::FrameComplete(FrameOutcome::Skipped),
                )
            } else {
                self.refuse()
            },
            _ => self.refuse(),
        }
    }

    /// The step out of `Submitting`.
    pub open spec fn step_submitting(self, image: usize, event: Event) -> (EngineView, Action) {
        match event {
            Event::Submitted => (
                EngineView {
                    phase: Phase::Presenting { image },
                    ring: self.ring.update(
                        self.slot(),
                        InFlightFrame { submitted: Some(self.frame_counter as u64) },
                    ),
                    ..self
                },
                Action::Present { image, slot: self.slot() as usize },
            ),
            Event::SubmitFailed => (
                EngineView { phase: Phase::Failed(FatalError::SubmissionError), ..self },
                Action::Fatal(FatalError::SubmissionError),
            ),
            _ => self.refuse(),
        }
    }

    /// The step out of `Presenting`.
    pub open spec fn step_presenting(self, image: usize, event: Event) -> (EngineView, Action) {
        match event {
            Event::Presented => (
                EngineView { phase: Phase::Idle, frame_counter: self.frame_counter + 1, ..self },
                Action::FrameComplete(FrameOutcome::Presented { image }),
            ),
            Event::PresentStale => EngineView {
                frame_counter: self.frame_counter + 1,
                ..self
            }.rebuild_within_frame(FrameOutcome::PresentedStale { image }),
            _ => self.refuse(),
        }
    }

    /// The step of a rebuild that has the surface's capabilities.
    pub open spec fn step_negotiating(
        self,
        resume: Resume,
        capabilities: Capabilities,
        drawable: Extent,
    ) -> (EngineView, Action) {
        let configuration = capabilities.negotiated(drawable);
        if !capabilities.usable() {
            self.refuse()
        } else if configuration.extent.degenerate() {
            (EngineView { phase: Phase::Idle, ..self }, Action::Yield)
        } else {
            (
                EngineView {
                    phase: Phase::Rebuilding(RebuildStep::BuildingChain { configuration }, resume),
                    ..self
                },
                Action::BuildChain { configuration, retire: self.chain.generation as u64 },
            )
        }
    }

    /// The step of a rebuild that has the new chain's images.
    pub open spec fn step_chain_built(
        self,
        resume: Resume,
        configuration: SurfaceConfiguration,
        images: Seq<u64>,
    ) -> (EngineView, Action) {
        (
            EngineView {
                phase: Phase::Rebuilding(RebuildStep::BuildingTargets, resume),
                configuration: configuration,
                chain: ImageChainView {
                    images: images,
                    generation: self.chain.generation + 1,
                    extent: configuration.extent,
                    format: configuration.format,
                },
                ..self
            },
            Action::BuildTargets {
                generation: (self.chain.generation + 1) as u64,
                count: images.len() as usize,
            },
        )
    }

    /// The step out of `Rebuilding`.
    pub open spec fn step_rebuilding(self, step: RebuildStep, resume: Resume, event: Event) -> (
        EngineView,
        Action,
    ) {
        match step {
            RebuildStep::Draining => match event {
                Event::DeviceIdle => (
                    EngineView {
                        phase: Phase::Rebuilding(RebuildStep::Negotiating, resume),
                        ring: drained_ring(self.ring.len()),
                        ..self
                    },
                    Action::QueryCapabilities,
                ),
                _ => self.refuse(),
            },
            RebuildStep::Negotiating => match event {
                Event::CapabilitiesReported { capabilities, drawable } => self.step_negotiating(
                    resume,
                    capabilities,
                    drawable,
                ),
                Event::CapabilityQueryFailed => (
                    EngineView { phase: Phase::Failed(FatalError::CapabilityQueryError), ..self },
                    Action::Fatal(FatalError::CapabilityQueryError),
                ),
                _ => self.refuse(),
            },
            RebuildStep::BuildingChain { configuration } => match event {
                Event::ChainBuilt { images } => self.step_chain_built(
                    resume,
                    configuration,
                    images@,
                ),
                _ => self.refuse(),
            },
            RebuildStep::BuildingTargets => match event {
                Event::TargetsBuilt => (
                    EngineView { phase: Phase::Rebuilding(RebuildStep::Recording, resume), ..self },
                    Action::RecordSequences {
                        generation: self.chain.generation as u64,
                        count: self.chain.images.len() as usize,
                    },
                ),
                _ => self.refuse(),
            },
            RebuildStep::Recording => match event {
                Event::SequencesRecorded => match resume {
                    Resume::Frame => EngineView { needs_rebuild: false, ..self }.begin_frame(),
                    Resume::FrameOver(outcome) => (
                        EngineView { phase: Phase::Idle, needs_rebuild: false, ..self },
                        Action::FrameComplete(outcome),
                    ),
                },
                _ => self.refuse(),
            },
        }
    }

    /// The step that an event causes: the state after it and the action
    /// that the engine asks for. An event that the state cannot take changes
    /// nothing and is answered by `Rejected`.
    pub open spec fn step(self, event: Event) -> (EngineView, Action) {
        if event is Resized {
            if self.phase.live() {
                (EngineView { needs_rebuild: true, ..self }, Action::Noted)
            } else {
                self.refuse()
            }
        } else {
            match self.phase {
                Phase::Idle => self.step_idle(event),
                Phase::Waiting => self.step_waiting(event),
                Phase::Acquiring => self.step_acquiring(event),
                Phase::Submitting { image } => self.step_submitting(image, event),
                Phase::Presenting { image } => self.step_presenting(image, event),
                Phase::Rebuilding(step, resume) => self.step_rebuilding(step, resume, event),
                Phase::Failed(_) => match event {
                    Event::ShutdownRequested => (
                        EngineView { phase: Phase::ShuttingDown, ..self },
                        Action::WaitIdle,
                    ),
                    _ => self.refuse(),
                },
                Phase::ShuttingDown => match event {
                    Event::DeviceIdle => (
                        EngineView {
                            phase: Phase::Terminated,
                            ring: drained_ring(self.ring.len()),
                            ..self
                        },
                        Action::Release,
                    ),
                    _ => self.refuse(),
                },
                Phase::Terminated => self.refuse(),
            }
        }
    }
}

/// The state after the engine has taken the events in order.
pub open spec fn run(state: EngineView, events: Seq<Event>) -> EngineView
    decreases events.len(),
{
    if events.len() == 0 {
        state
    } else {
        run(state, events.drop_last()).step(events.last()).0
    }
}

/// What the engine answers to the event at `index`, having taken the events before it.
pub open spec fn answer(state: EngineView, events: Seq<Event>, index: int) -> Action {
    run(state, events.take(index)).step(events[index]).1
}

/// Every step leads from a well-formed state to a well-formed state.
pub proof fn lemma_step_preserves_wf(state: EngineView, event: Event)
    requires
        state.wf(),
    ensures
        state.step(event).0.wf(),
{
    let after = state.step(event).0;
    if let Event::ChainBuilt { images } = event {
        assert(images@.len() == images.len());
    }
    let size = state.ring.len() as int;
    let slot = state.slot();
    assert(0 <= slot < size);
    assert(after.ring.len() == state.ring.len());
    assert forall|other: int| 0 <= other < size implies after.slot_wf(other) by {
        assert(state.slot_wf(other));
        assert(state.slot_wf(slot));
        if state.phase is Presenting && (event is Presented || event is PresentStale) {
            if let Some(frame) = state.ring[other].submitted {
                if other != slot {
                    assert((frame + size) % size == frame as int % size) by (nonlinear_arith)
                        requires
                            size >= 1,
                    ;
                }
            }
        }
    }
    if after.phase is Acquiring || after.phase is Waiting {
        assert(after.slot() == slot);
    }
}

/// The presentation and frame-synchronisation engine. It decides; the
/// driver acts: every call of [`HelloTriangleApplication::step`] takes what
/// the driver reports and returns what the driver is to do next.
pub struct HelloTriangleApplication {
    phase: Phase,
    frame_counter: u64,
    ring: Vec<InFlightFrame>,
    needs_rebuild: bool,
    acquire_timeout: Option<u64>,
    pipeline: PipelineDescription,
    configuration: SurfaceConfiguration,
    chain: ImageChain,
    render_targets: RenderTargetSet,
    command_sequences: CommandSequenceSet,
}

impl View for HelloTriangleApplication {
    type V = EngineView;

    closed spec fn view(&self) -> EngineView {
        EngineView {
            phase: self.phase,
            frame_counter: self.frame_counter as nat,
            ring: self.ring@,
            needs_rebuild: self.needs_rebuild,
            acquire_timeout: self.acquire_timeout,
            pipeline: self.pipeline,
            configuration: self.configuration,
            chain: self.chain@,
        }
    }
}

impl HelloTriangleApplication {
    /// The render targets and the command sequences are those of the
    /// current chain, and carry its generation.
    pub closed spec fn resources_aligned(&self) -> bool {
        &&& self.render_targets.generation == self.chain.generation
        &&& self.command_sequences.generation == self.chain.generation
        &&& self.render_targets.targets@ == self@.render_targets()
        &&& self.command_sequences.sequences@ == self@.command_sequences()
    }

    /// The engine is in a state that it can be in.
    pub open spec fn wf(&self) -> bool {
        self@.wf() && self.resources_aligned()
    }

    /// Makes the engine for a chain that the platform has built: `images`
    /// are the chain's images, `configuration` is what it was built with.
    /// The engine starts idle, at frame 0 and chain generation 0, with
    /// `frames_in_flight` ring slots that have nothing outstanding.
    pub fn initialize(
        frames_in_flight: usize,
        acquire_timeout: Option<u64>,
        pipeline: PipelineDescription,
        configuration: SurfaceConfiguration,
        images: Vec<u64>,
    ) -> (engine: Self)
        requires
            frames_in_flight >= 1,
        ensures
            engine.wf(),
            engine@ == (EngineView {
                phase: Phase::Idle,
                frame_counter: 0,
                ring: drained_ring(frames_in_flight as nat),
                needs_rebuild: false,
                acquire_timeout: acquire_timeout,
                pipeline: pipeline,
                configuration: configuration,
                chain: ImageChainView {
                    images: images@,
                    generation: 0,
                    extent: configuration.extent,
                    format: configuration.format,
                },
            }),
    {
        let ring = new_ring(frames_in_flight);
        let chain = ImageChain::build(&configuration, images, 0);
        let render_targets = create_framebuffers(&chain, pipeline.layout);
        let command_sequences = create_command_buffers(&render_targets, &pipeline);
        let count = chain.len();
        let engine = HelloTriangleApplication {
            phase: Phase::Idle,
            frame_counter: 0,
            ring,
            needs_rebuild: false,
            acquire_timeout,
            pipeline,
            configuration,
            chain,
            render_targets,
            command_sequences,
        };
        assert(engine@.chain.images.len() == count);
        assert(forall|slot: int| 0 <= slot < engine@.ring.len() ==> engine@.slot_wf(slot));
        engine
    }

    /// Takes what the driver reports and returns what the driver is to do
    /// next. An event that the engine cannot take in its state changes
    /// nothing and is answered by `Rejected`.
    pub fn step(&mut self, event: Event) -> (action: Action)
        requires
            old(self).wf(),
        ensures
            final(self).wf(),
            (final(self)@, action) == old(self)@.step(event),
    {
        proof {
            lemma_step_preserves_wf(self@, event);
        }
        let slot = self.ring_slot();
        match event {
            Event::Resized => {
                match self.phase {
                    Phase::Failed(_) | Phase::ShuttingDown | Phase::Terminated => Action::Rejected,
                    _ => {
                        self.needs_rebuild = true;
                        Action::Noted
                    },
                }
            },
            Event::FrameRequested => {
                match self.phase {
                    Phase::Idle => {
                        if self.frame_counter == u64::MAX {
                            Action::Rejected
                        } else if self.needs_rebuild {
                            if self.chain.generation == u64::MAX {
                                Action::Rejected
                            } else {
                                self.phase = Phase::Rebuilding(
                                    RebuildStep::Draining,
                                    Resume::Frame,
                                );
                                Action::WaitIdle
                            }
                        } else {
                            self.begin_frame(slot)
                        }
                    },
                    _ => Action::Rejected,
                }
            },
            Event::ShutdownRequested => {
                match self.phase {
                    Phase::Idle | Phase::Failed(_) => {
                        self.phase = Phase::ShuttingDown;
                        Action::WaitIdle
                    },
                    _ => Action::Rejected,
                }
            },
            Event::SlotReady => {
                match self.phase {
                    Phase::Waiting => {
                        self.ring.set(slot, InFlightFrame { submitted: None });
                        self.phase = Phase::Acquiring;
                        Action::Acquire { slot, timeout: self.acquire_timeout }
                    },
                    _ => Action::Rejected,
                }
            },
            Event::Acquired { image } => {
                match self.phase {
                    Phase::Acquiring => {
                        if image < self.chain.len() {
                            self.phase = Phase::Submitting { image };
                            Action::Submit { image, slot }
                        } else {
                            Action::Rejected
                        }
                    },
                    _ => Action::Rejected,
                }
            },
            Event::AcquireStale => {
                match self.phase {
                    Phase::Acquiring => self.rebuild_within_frame(FrameOutcome::Abandoned),
                    _ => Action::Rejected,
                }
            },
            Event::AcquireTimedOut => {
                match self.phase {
                    Phase::Acquiring => {
                        if self.acquire_timeout.is_some() {
                            self.phase = Phase::Idle;
                            Action::FrameComplete(FrameOutcome::Skipped)
                        } else {
                            Action::Rejected
                        }
                    },
                    _ => Action::Rejected,
                }
            },
            Event::Submitted => {
                match self.phase {
                    Phase::Submitting { image } => {
                        self.ring.set(slot, InFlightFrame { submitted: Some(self.frame_counter) });
                        self.phase = Phase::Presenting { image };
                        Action::Present { image, slot }
                    },
                    _ => Action::Rejected,
                }
            },
            Event::SubmitFailed => {
                match self.phase {
                    Phase::Submitting { image } => {
                        self.phase = Phase::Failed(FatalError::SubmissionError);
                        Action::Fatal(FatalError::SubmissionError)
                    },
                    _ => Action::Rejected,
                }
            },
            Event::Presented => {
                match self.phase {
                    Phase::Presenting { image } => {
                        self.frame_counter = self.frame_counter + 1;
                        self.phase = Phase::Idle;
                        Action::FrameComplete(FrameOutcome::Presented { image })
                    },
                    _ => Action::Rejected,
                }
            },
            Event::PresentStale => {
                match self.phase {
                    Phase::Presenting { image } => {
                        self.frame_counter = self.frame_counter + 1;
                        self.rebuild_within_frame(FrameOutcome::PresentedStale { image })
                    },
                    _ => Action::Rejected,
                }
            },
            Event::DeviceIdle => {
                match self.phase {
                    Phase::Rebuilding(RebuildStep::Draining, resume) => {
                        self.ring = new_ring(self.ring.len());
                        self.phase = Phase::Rebuilding(RebuildStep::Negotiating, resume);
                        Action::QueryCapabilities
                    },
                    Phase::ShuttingDown => {
                        self.ring = new_ring(self.ring.len());
                        self.phase = Phase::Terminated;
                        Action::Release
                    },
                    _ => Action::Rejected,
                }
            },
            Event::CapabilitiesReported { capabilities, drawable } => {
                match self.phase {
                    Phase::Rebuilding(RebuildStep::Negotiating, resume) => {
                        if !capabilities.is_usable() {
                            Action::Rejected
                        } else {
                            let configuration = negotiate(&capabilities, drawable);
                            if configuration.extent.is_degenerate() {
                                self.phase = Phase::Idle;
                                Action::Yield
                            } else {
                                self.phase = Phase::Rebuilding(
                                    RebuildStep::BuildingChain { configuration },
                                    resume,
                                );
                                Action::BuildChain { configuration, retire: self.chain.generation }
                            }
                        }
                    },
                    _ => Action::Rejected,
                }
            },
            Event::CapabilityQueryFailed => {
                match self.phase {
                    Phase::Rebuilding(RebuildStep::Negotiating, _) => {
                        self.phase = Phase::Failed(FatalError::CapabilityQueryError);
                        Action::Fatal(FatalError::CapabilityQueryError)
                    },
                    _ => Action::Rejected,
                }
            },
            Event::ChainBuilt { images } => {
                match self.phase {
                    Phase::Rebuilding(RebuildStep::BuildingChain { configuration }, resume) => {
                        let generation = self.chain.generation + 1;
                        let count = images.len();
                        self.configuration = configuration;
                        self.chain = ImageChain::build(&configuration, images, generation);
                        self.render_targets = create_framebuffers(&self.chain, self.pipeline.layout);
                        self.command_sequences = create_command_buffers(
                            &self.render_targets,
                            &self.pipeline,
                        );
                        self.phase = Phase::Rebuilding(RebuildStep::BuildingTargets, resume);
                        Action::BuildTargets { generation, count }
                    },
                    _ => Action::Rejected,
                }
            },
            Event::TargetsBuilt => {
                match self.phase {
                    Phase::Rebuilding(RebuildStep::BuildingTargets, resume) => {
                        self.phase = Phase::Rebuilding(RebuildStep::Recording, resume);
                        Action::RecordSequences {
                            generation: self.chain.generation,
                            count: self.chain.len(),
                        }
                    },
                    _ => Action::Rejected,
                }
            },
            Event::SequencesRecorded => {
                match self.phase {
                    Phase::Rebuilding(RebuildStep::Recording, resume) => {
                        self.needs_rebuild = false;
                        match resume {
                            Resume::Frame => self.begin_frame(slot),
                            Resume::FrameOver(outcome) => {
                                self.phase = Phase::Idle;
                                Action::FrameComplete(outcome)
                            },
                        }
                    },
                    _ => Action::Rejected,
                }
            },
        }
    }

    /// Takes the driver's reports in order and returns the engine's answers
    /// to them, one for each report.
    pub fn run(&mut self, events: Vec<Event>) -> (answers: Vec<Action>)
        requires
            old(self).wf(),
        ensures
            final(self).wf(),
            final(self)@ == run(old(self)@, events@),
            answers@.len() == events@.len(),
            forall|index: int|
                0 <= index < events@.len() ==> #[trigger] answers@[index] == answer(
                    old(self)@,
                    events@,
                    index,
                ),
    {
        let mut answers: Vec<Action> = Vec::new();
        let ghost start = self@;
        assert(events@.take(0) =~= Seq::<Event>::empty());
        for event in reports: events
            invariant
                self.wf(),
                reports.seq() == events@,
                self@ == run(start, events@.take(reports.index() as int)),
                answers@.len() == reports.index(),
                forall|index: int|
                    0 <= index < reports.index() ==> #[trigger] answers@[index] == answer(
                        start,
                        events@,
                        index,
                    ),
        {
            proof {
                let taken = reports.index() as int;
                assert(events@.take(taken + 1).drop_last() =~= events@.take(taken));
                assert(events@.take(taken + 1).last() == events@[taken]);
            }
            let action = self.step(event);
            answers.push(action);
        }
        assert(events@.take(events@.len() as int) =~= events@);
        answers
    }

    /// Begins the rebuild that a stale chain within a frame asks for.
    fn rebuild_within_frame(&mut self, outcome: FrameOutcome) -> (action: Action)
        ensures
            (final(self)@, action) == old(self)@.rebuild_within_frame(outcome),
            old(self).resources_aligned() ==> final(self).resources_aligned(),
    {
        self.needs_rebuild = true;
        if self.chain.generation == u64::MAX {
            self.phase = Phase::Idle;
            Action::FrameComplete(outcome)
        } else {
            self.phase = Phase::Rebuilding(RebuildStep::Draining, Resume::FrameOver(outcome));
            Action::WaitIdle
        }
    }

    /// Enters the first step of a frame on the given slot.
    fn begin_frame(&mut self, slot: usize) -> (action: Action)
        requires
            old(self)@.ring.len() >= 1,
            slot == old(self)@.slot(),
        ensures
            (final(self)@, action) == old(self)@.begin_frame(),
            old(self).resources_aligned() ==> final(self).resources_aligned(),
    {
        if self.ring[slot].submitted.is_some() {
            self.phase = Phase::Waiting;
            Action::WaitForSlot { slot }
        } else {
            self.phase = Phase::Acquiring;
            Action::Acquire { slot, timeout: self.acquire_timeout }
        }
    }

    /// Asks for a frame: the engine rebuilds the chain first where that is
    /// due, and then starts the frame's acquire, submit and present.
    pub fn render_frame(&mut self) -> (action: Action)
        requires
            old(self).wf(),
        ensures
            final(self).wf(),
            (final(self)@, action) == old(self)@.step(Event::FrameRequested),
    {
        self.step(Event::FrameRequested)
    }

    /// Tells the engine that the window was resized: the chain is rebuilt
    /// before the next frame.
    pub fn notify_resize(&mut self) -> (action: Action)
        requires
            old(self).wf(),
        ensures
            final(self).wf(),
            (final(self)@, action) == old(self)@.step(Event::Resized),
    {
        self.step(Event::Resized)
    }

    /// Asks the engine to stop: it has the device drained before anything
    /// is released.
    pub fn shutdown(&mut self) -> (action: Action)
        requires
            old(self).wf(),
        ensures
            final(self).wf(),
            (final(self)@, action) == old(self)@.step(Event::ShutdownRequested),
    {
        self.step(Event::ShutdownRequested)
    }

    /// Where the engine stands.
    pub fn phase(&self) -> (phase: Phase)
        ensures
            phase == self@.phase,
    {
        self.phase
    }

    /// Number of frames submitted so far.
    pub fn frame_counter(&self) -> (count: u64)
        ensures
            count == self@.frame_counter,
    {
        self.frame_counter
    }

    /// Number of ring slots: the most frames that are in flight at once.
    pub fn frames_in_flight(&self) -> (count: usize)
        ensures
            count == self@.frames_in_flight(),
    {
        self.ring.len()
    }

    /// The ring slot of the current frame.
    pub fn ring_slot(&self) -> (slot: usize)
        requires
            self.wf(),
        ensures
            slot == self@.slot(),
            slot < self@.frames_in_flight(),
    {
        (self.frame_counter % (self.ring.len() as u64)) as usize
    }

    /// Whether the chain is to be rebuilt before the next frame.
    pub fn needs_rebuild(&self) -> (needed: bool)
        ensures
            needed == self@.needs_rebuild,
    {
        self.needs_rebuild
    }

    /// Generation of the current chain.
    pub fn generation(&self) -> (generation: u64)
        ensures
            generation == self@.chain.generation,
    {
        self.chain.generation
    }

    /// The configuration that the current chain was built with.
    pub fn configuration(&self) -> (configuration: SurfaceConfiguration)
        ensures
            configuration == self@.configuration,
    {
        self.configuration
    }

    /// The current chain.
    pub fn chain(&self) -> (chain: &ImageChain)
        ensures
            chain@ == self@.chain,
    {
        &self.chain
    }

    /// The render targets of the current chain.
    pub fn render_targets(&self) -> (set: &RenderTargetSet)
        requires
            self.wf(),
        ensures
            set.generation == self@.chain.generation,
            set.targets@ == self@.render_targets(),
            set.targets@.len() == self@.chain.images.len(),
    {
        &self.render_targets
    }

    /// The command sequences of the current chain.
    pub fn command_sequences(&self) -> (set: &CommandSequenceSet)
        requires
            self.wf(),
        ensures
            set.generation == self@.chain.generation,
            set.sequences@ == self@.command_sequences(),
            set.sequences@.len() == self@.chain.images.len(),
    {
        &self.command_sequences
    }

    /// Number of ring slots with a submission outstanding.
    pub fn in_flight_count(&self) -> (count: usize)
        ensures
            count == outstanding(self@.ring),
            count <= self@.frames_in_flight(),
    {
        let mut count: usize = 0;
        let mut i: usize = 0;
        while i < self.ring.len()
            invariant
                i <= self.ring@.len(),
                count == outstanding(self.ring@.take(i as int)),
                count <= i,
            decreases self.ring@.len() - i,
        {
            proof {
                assert(self.ring@.take(i + 1).drop_last() =~= self.ring@.take(i as int));
            }
            if self.ring[i].submitted.is_some() {
                count += 1;
            }
            i += 1;
        }
        assert(self.ring@.take(self.ring@.len() as int) =~= self.ring@);
        count
    }
}

/// A ring of `size` slots with nothing outstanding.
fn new_ring(size: usize) -> (ring: Vec<InFlightFrame>)
    ensures
        ring@ == drained_ring(size as nat),
{
    let mut ring: Vec<InFlightFrame> = Vec::new();
    let mut i: usize = 0;
    while i < size
        invariant
            i <= size,
            ring@.len() == i,
            forall|slot: int| 0 <= slot < i ==> ring@[slot] == (InFlightFrame { submitted: None }),
        decreases size - i,
    {
        ring.push(InFlightFrame { submitted: None });
        i += 1;
    }
    assert(ring@ =~= drained_ring(size as nat));
    ring
}

/// Number of slots of a ring that have a submission outstanding.
pub open spec fn outstanding(ring: Seq<InFlightFrame>) -> nat
    decreases ring.len(),
{
    if ring.len() == 0 {
        0
    } else {
        outstanding(ring.drop_last()) + if ring.last().submitted is Some {
            1nat
        } else {
            0nat
        }
    }
}

} // verus!
