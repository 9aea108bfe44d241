use frame_engine::chain::{AttachmentLayout, Geometry, PipelineDescription};
use frame_engine::engine::{
    Action, Event, FatalError, FrameOutcome, HelloTriangleApplication, Phase, RebuildStep, Resume,
};
use frame_engine::surface::{
    Capabilities, Extent, PresentMode, SupportedPresentModes, SurfaceConfiguration, SurfaceFormat,
};

fn pipeline() -> PipelineDescription {
    PipelineDescription {
        layout: AttachmentLayout::SingleColor,
        geometry: Geometry::Vertices,
        descriptors_per_image: false,
    }
}

fn configuration() -> SurfaceConfiguration {
    SurfaceConfiguration {
        format: SurfaceFormat { format: 44, color_space: 0 },
        present_mode: PresentMode::Fifo,
        extent: Extent { width: 800, height: 600 },
        image_count: 3,
    }
}

fn capabilities(width: u32, height: u32) -> Capabilities {
    Capabilities {
        min_image_count: 2,
        max_image_count: None,
        current_extent: Some(Extent { width, height }),
        min_image_extent: Extent { width, height },
        max_image_extent: Extent { width, height },
        supported_formats: vec![
            SurfaceFormat { format: 50, color_space: 0 },
            SurfaceFormat { format: 44, color_space: 0 },
        ],
        present_modes: SupportedPresentModes {
            immediate: false,
            mailbox: true,
            fifo: true,
            relaxed: false,
        },
    }
}

fn engine(frames_in_flight: usize, timeout: Option<u64>) -> HelloTriangleApplication {
    HelloTriangleApplication::initialize(
        frames_in_flight,
        timeout,
        pipeline(),
        configuration(),
        vec![100, 101, 102],
    )
}

/// What a synthetic driver has done, in order.
#[derive(Debug, Clone, Copy, PartialEq, Eq)]
enum Done {
    Waited { slot: usize },
    Acquired { slot: usize, image: usize, generation: u64 },
    Submitted { slot: usize, image: usize },
    Presented { slot: usize, image: usize, generation: u64 },
    Drained,
    Queried,
    Built { generation: u64 },
    TargetsBuilt { count: usize },
    SequencesRecorded { count: usize },
    Yielded,
}

/// A driver without a device: it answers every action at once and keeps a log.
struct Driver {
    log: Vec<Done>,
    /// Whether a slot's completion signal is armed by a submission.
    armed: Vec<bool>,
    /// Images handed out so far; the next index is not the frame's number.
    handed_out: usize,
    /// Requests, counted from 1, at which the acquire finds the chain stale.
    stale_acquire_at: Option<usize>,
    /// Requests, counted from 1, at which the present finds the chain stale.
    stale_present_at: Option<usize>,
    surface: (u32, u32),
    new_images: usize,
}

impl Driver {
    fn new(frames_in_flight: usize) -> Driver {
        Driver {
            log: vec![],
            armed: vec![false; frames_in_flight],
            handed_out: 0,
            stale_acquire_at: None,
            stale_present_at: None,
            surface: (1024, 768),
            new_images: 4,
        }
    }

    /// Drives one frame request to its end and returns the last answer.
    fn frame(&mut self, engine: &mut HelloTriangleApplication, request: usize) -> Action {
        let mut action = engine.render_frame();
        loop {
            let event = match action {
                Action::WaitForSlot { slot } => {
                    assert!(self.armed[slot], "waited on a slot with nothing submitted");
                    self.armed[slot] = false;
                    self.log.push(Done::Waited { slot });
                    Event::SlotReady
                }
                Action::Acquire { slot, .. } => {
                    assert!(!self.armed[slot], "acquired on a slot that is still in flight");
                    if self.stale_acquire_at == Some(request) {
                        Event::AcquireStale
                    } else {
                        let image = (self.handed_out * 2 + 1) % engine.chain().len();
                        self.handed_out += 1;
                        self.log.push(Done::Acquired {
                            slot,
                            image,
                            generation: engine.generation(),
                        });
                        Event::Acquired { image }
                    }
                }
                Action::Submit { image, slot } => {
                    assert_eq!(engine.command_sequences().sequences[image].target, image);
                    self.armed[slot] = true;
                    self.log.push(Done::Submitted { slot, image });
                    Event::Submitted
                }
                Action::Present { image, slot } => {
                    if self.stale_present_at == Some(request) {
                        Event::PresentStale
                    } else {
                        self.log.push(Done::Presented {
                            slot,
                            image,
                            generation: engine.generation(),
                        });
                        Event::Presented
                    }
                }
                Action::WaitIdle => {
                    for armed in self.armed.iter_mut() {
                        *armed = false;
                    }
                    self.log.push(Done::Drained);
                    Event::DeviceIdle
                }
                Action::QueryCapabilities => {
                    self.log.push(Done::Queried);
                    Event::CapabilitiesReported {
                        capabilities: capabilities(self.surface.0, self.surface.1),
                        drawable: Extent { width: self.surface.0, height: self.surface.1 },
                    }
                }
                Action::BuildChain { retire, .. } => {
                    assert_eq!(retire, engine.generation());
                    self.log.push(Done::Built { generation: retire + 1 });
                    Event::ChainBuilt { images: (0..self.new_images as u64).collect() }
                }
                Action::BuildTargets { generation, count } => {
                    assert_eq!(generation, engine.render_targets().generation);
                    assert_eq!(count, engine.render_targets().len());
                    self.log.push(Done::TargetsBuilt { count });
                    Event::TargetsBuilt
                }
                Action::RecordSequences { generation, count } => {
                    assert_eq!(generation, engine.command_sequences().generation);
                    assert_eq!(count, engine.command_sequences().len());
                    self.log.push(Done::SequencesRecorded { count });
                    Event::SequencesRecorded
                }
                Action::Yield => {
                    self.log.push(Done::Yielded);
                    return action;
                }
                Action::FrameComplete(_) | Action::Fatal(_) | Action::Rejected => return action,
                Action::Release | Action::Noted => panic!("unexpected answer {:?}", action),
            };
            action = engine.step(event);
        }
    }

    fn count(&self, wanted: fn(&Done) -> bool) -> usize {
        self.log.iter().filter(|done| wanted(done)).count()
    }
}

fn is_acquire(done: &Done) -> bool {
    matches!(done, Done::Acquired { .. })
}

fn is_submit(done: &Done) -> bool {
    matches!(done, Done::Submitted { .. })
}

fn is_present(done: &Done) -> bool {
    matches!(done, Done::Presented { .. })
}

fn is_build(done: &Done) -> bool {
    matches!(done, Done::Built { .. })
}

#[test]
fn initialized_engine_is_idle_and_aligned() {
    let engine = engine(2, None);
    assert_eq!(engine.phase(), Phase::Idle);
    assert_eq!(engine.frame_counter(), 0);
    assert_eq!(engine.frames_in_flight(), 2);
    assert_eq!(engine.ring_slot(), 0);
    assert_eq!(engine.generation(), 0);
    assert!(!engine.needs_rebuild());
    assert_eq!(engine.configuration(), configuration());
    assert_eq!(engine.chain().images, vec![100, 101, 102]);
    assert_eq!(engine.chain().extent, Extent { width: 800, height: 600 });
    assert_eq!(engine.render_targets().len(), 3);
    assert_eq!(engine.command_sequences().len(), 3);
    assert_eq!(engine.render_targets().generation, 0);
    assert_eq!(engine.command_sequences().generation, 0);
    assert_eq!(engine.render_targets().targets[1].image, 101);
    assert_eq!(engine.in_flight_count(), 0);
}

#[test]
fn one_frame_goes_through_acquire_submit_present() {
    let mut engine = engine(2, Some(5_000_000));
    assert_eq!(engine.render_frame(), Action::Acquire { slot: 0, timeout: Some(5_000_000) });
    assert_eq!(engine.phase(), Phase::Acquiring);
    assert_eq!(engine.step(Event::Acquired { image: 2 }), Action::Submit { image: 2, slot: 0 });
    assert_eq!(engine.phase(), Phase::Submitting { image: 2 });
    assert_eq!(engine.in_flight_count(), 0);
    assert_eq!(engine.step(Event::Submitted), Action::Present { image: 2, slot: 0 });
    assert_eq!(engine.phase(), Phase::Presenting { image: 2 });
    assert_eq!(engine.in_flight_count(), 1);
    assert_eq!(
        engine.step(Event::Presented),
        Action::FrameComplete(FrameOutcome::Presented { image: 2 })
    );
    assert_eq!(engine.phase(), Phase::Idle);
    assert_eq!(engine.frame_counter(), 1);
    assert_eq!(engine.ring_slot(), 1);
    assert_eq!(engine.in_flight_count(), 1);
}

#[test]
fn ten_frames_make_ten_triples() {
    let mut engine = engine(2, None);
    let mut driver = Driver::new(2);
    for request in 1..=10 {
        let answer = driver.frame(&mut engine, request);
        assert!(matches!(answer, Action::FrameComplete(FrameOutcome::Presented { .. })));
        assert!(engine.in_flight_count() <= 2);
    }
    assert_eq!(driver.count(is_acquire), 10);
    assert_eq!(driver.count(is_submit), 10);
    assert_eq!(driver.count(is_present), 10);
    assert_eq!(driver.count(is_build), 0);
    assert_eq!(engine.frame_counter(), 10);
    let triples: Vec<&Done> = driver
        .log
        .iter()
        .filter(|done| is_acquire(done) || is_submit(done) || is_present(done))
        .collect();
    for (frame, triple) in triples.chunks(3).enumerate() {
        let slot = frame % 2;
        let image = (frame * 2 + 1) % 3;
        assert_eq!(*triple[0], Done::Acquired { slot, image, generation: 0 });
        assert_eq!(*triple[1], Done::Submitted { slot, image });
        assert_eq!(*triple[2], Done::Presented { slot, image, generation: 0 });
    }
    // Each slot is waited on once for every reuse: frames 2 to 9 wait, frames 0 and 1 do not.
    let waits: Vec<Done> =
        driver.log.iter().filter(|done| matches!(done, Done::Waited { .. })).cloned().collect();
    assert_eq!(waits.len(), 8);
    for (reuse, wait) in waits.iter().enumerate() {
        assert_eq!(*wait, Done::Waited { slot: reuse % 2 });
    }
}

#[test]
fn acquired_index_is_not_inferred_from_the_frame_counter() {
    let mut engine = engine(2, None);
    for image in [2usize, 2, 0, 1, 1] {
        let mut action = engine.render_frame();
        if let Action::WaitForSlot { .. } = action {
            action = engine.step(Event::SlotReady);
        }
        assert!(matches!(action, Action::Acquire { .. }));
        let slot = engine.ring_slot();
        assert_eq!(engine.step(Event::Acquired { image }), Action::Submit { image, slot });
        assert_eq!(engine.step(Event::Submitted), Action::Present { image, slot });
        assert_eq!(
            engine.step(Event::Presented),
            Action::FrameComplete(FrameOutcome::Presented { image })
        );
    }
}

/// A device model with a clock: a submission made at time `t` completes at
/// `t + 5`, and the driver's own steps take one tick each.
#[test]
fn acquire_of_a_frame_waits_for_the_frame_two_before_it() {
    let mut engine = engine(2, None);
    let mut clock: u64 = 0;
    let mut completes_at: Vec<Option<u64>> = vec![None, None];
    let mut submitted_frame: Vec<Option<u64>> = vec![None, None];
    let mut completion_seen_at: Vec<u64> = vec![];
    let mut acquired_at: Vec<u64> = vec![];
    for frame in 0..8u64 {
        let mut action = engine.render_frame();
        loop {
            clock += 1;
            let event = match action {
                Action::WaitForSlot { slot } => {
                    let fires = completes_at[slot].expect("a wait needs a submission");
                    assert_eq!(submitted_frame[slot], Some(frame - 2));
                    if clock < fires {
                        clock = fires;
                    }
                    completion_seen_at.push(clock);
                    completes_at[slot] = None;
                    Event::SlotReady
                }
                Action::Acquire { slot, .. } => {
                    assert_eq!(slot as u64, frame % 2);
                    assert_eq!(completes_at[slot], None);
                    acquired_at.push(clock);
                    Event::Acquired { image: (frame % 3) as usize }
                }
                Action::Submit { slot, .. } => {
                    completes_at[slot] = Some(clock + 5);
                    submitted_frame[slot] = Some(frame);
                    Event::Submitted
                }
                Action::Present { .. } => Event::Presented,
                Action::FrameComplete(_) => break,
                other => panic!("unexpected answer {:?}", other),
            };
            action = engine.step(event);
            assert!(engine.in_flight_count() <= 2);
        }
    }
    assert_eq!(acquired_at.len(), 8);
    assert_eq!(completion_seen_at.len(), 6);
    for frame in 2..8usize {
        // Frame `frame - 2` was submitted one tick after its acquire and completes five ticks later.
        let completion = acquired_at[frame - 2] + 1 + 5;
        assert!(acquired_at[frame] > completion);
        assert!(completion_seen_at[frame - 2] >= completion);
        assert!(acquired_at[frame] > completion_seen_at[frame - 2]);
    }
}

#[test]
fn one_frame_in_flight_waits_before_every_later_frame() {
    let mut engine = engine(1, None);
    let mut driver = Driver::new(1);
    for request in 1..=4 {
        driver.frame(&mut engine, request);
        assert_eq!(engine.in_flight_count(), 1);
    }
    assert_eq!(driver.count(|done| matches!(done, Done::Waited { slot: 0 })), 3);
}

#[test]
fn stale_acquire_abandons_the_frame_and_rebuilds_once() {
    let mut engine = engine(2, None);
    let mut driver = Driver::new(2);
    driver.stale_acquire_at = Some(5);
    let mut presents_before = 0;
    for request in 1..=10 {
        if request == 5 {
            presents_before = driver.count(is_present);
        }
        let answer = driver.frame(&mut engine, request);
        if request == 5 {
            assert_eq!(answer, Action::FrameComplete(FrameOutcome::Abandoned));
            assert_eq!(driver.count(is_present), presents_before);
            assert_eq!(driver.count(is_submit), presents_before);
            assert_eq!(driver.count(is_build), 1);
            assert_eq!(engine.frame_counter(), 4);
            assert_eq!(engine.phase(), Phase::Idle);
            assert_eq!(engine.in_flight_count(), 0);
        } else {
            assert!(matches!(answer, Action::FrameComplete(FrameOutcome::Presented { .. })));
        }
        assert!(!engine.needs_rebuild());
        assert_eq!(engine.generation(), if request < 5 { 0 } else { 1 });
    }
    assert_eq!(presents_before, 4);
    assert_eq!(driver.count(is_acquire), 9);
    assert_eq!(driver.count(is_submit), 9);
    assert_eq!(driver.count(is_present), 9);
    assert_eq!(driver.count(is_build), 1);
    assert_eq!(engine.frame_counter(), 9);
    assert_eq!(engine.generation(), 1);
    // The rebuild stands between the last present on the old chain and the first acquire on the new.
    let rebuild: Vec<Done> = driver
        .log
        .iter()
        .skip_while(|done| !matches!(done, Done::Drained))
        .take(6)
        .cloned()
        .collect();
    assert_eq!(
        rebuild,
        vec![
            Done::Drained,
            Done::Queried,
            Done::Built { generation: 1 },
            Done::TargetsBuilt { count: 4 },
            Done::SequencesRecorded { count: 4 },
            Done::Acquired { slot: 0, image: 1, generation: 1 },
        ]
    );
    for done in driver.log.iter() {
        if let Done::Presented { generation, .. } = done {
            let position = driver.log.iter().position(|other| other == done).unwrap();
            let built = driver.log.iter().position(|other| is_build(other)).unwrap();
            assert_eq!(*generation, if position < built { 0 } else { 1 });
        }
    }
    assert_eq!(engine.configuration().extent, Extent { width: 1024, height: 768 });
    assert_eq!(engine.configuration().present_mode, PresentMode::Mailbox);
    assert_eq!(engine.configuration().format, SurfaceFormat { format: 44, color_space: 0 });
    assert_eq!(engine.configuration().image_count, 3);
    assert_eq!(engine.chain().len(), 4);
    assert_eq!(engine.render_targets().len(), 4);
    assert_eq!(engine.command_sequences().len(), 4);
    assert_eq!(engine.render_targets().generation, 1);
    assert_eq!(engine.command_sequences().generation, 1);
}

#[test]
fn stale_present_counts_the_frame_and_rebuilds() {
    let mut engine = engine(2, None);
    let mut driver = Driver::new(2);
    driver.stale_present_at = Some(2);
    assert!(matches!(
        driver.frame(&mut engine, 1),
        Action::FrameComplete(FrameOutcome::Presented { .. })
    ));
    let answer = driver.frame(&mut engine, 2);
    assert_eq!(answer, Action::FrameComplete(FrameOutcome::PresentedStale { image: 0 }));
    assert_eq!(engine.frame_counter(), 2);
    assert!(!engine.needs_rebuild());
    assert_eq!(driver.count(is_submit), 2);
    assert_eq!(driver.count(is_present), 1);
    assert_eq!(driver.count(is_build), 1);
    assert_eq!(engine.generation(), 1);
    assert_eq!(driver.log.last(), Some(&Done::SequencesRecorded { count: 4 }));
    assert!(matches!(
        driver.frame(&mut engine, 3),
        Action::FrameComplete(FrameOutcome::Presented { .. })
    ));
    assert_eq!(engine.generation(), 1);
    assert_eq!(driver.count(is_build), 1);
    assert_eq!(driver.log.last(), Some(&Done::Presented { slot: 0, image: 1, generation: 1 }));
}

#[test]
fn rebuild_twice_gives_the_same_configuration() {
    let mut engine = engine(2, None);
    let mut driver = Driver::new(2);
    driver.stale_acquire_at = Some(1);
    assert_eq!(driver.frame(&mut engine, 1), Action::FrameComplete(FrameOutcome::Abandoned));
    let first = engine.configuration();
    assert_eq!(engine.generation(), 1);
    driver.stale_acquire_at = Some(2);
    assert_eq!(driver.frame(&mut engine, 2), Action::FrameComplete(FrameOutcome::Abandoned));
    let second = engine.configuration();
    assert_eq!(engine.generation(), 2);
    assert_eq!(first, second);
    assert_ne!(first, configuration());
    assert_eq!(driver.count(is_build), 2);
    assert_eq!(driver.count(is_acquire), 0);
    driver.stale_acquire_at = None;
    assert!(matches!(
        driver.frame(&mut engine, 3),
        Action::FrameComplete(FrameOutcome::Presented { .. })
    ));
    assert_eq!(engine.generation(), 2);
    assert_eq!(engine.configuration(), first);
}

#[test]
fn resize_notification_rebuilds_before_the_next_frame() {
    let mut engine = engine(2, None);
    let mut driver = Driver::new(2);
    driver.frame(&mut engine, 1);
    assert_eq!(engine.notify_resize(), Action::Noted);
    assert!(engine.needs_rebuild());
    driver.surface = (640, 480);
    assert_eq!(engine.render_frame(), Action::WaitIdle);
    assert_eq!(engine.phase(), Phase::Rebuilding(RebuildStep::Draining, Resume::Frame));
    assert_eq!(engine.step(Event::DeviceIdle), Action::QueryCapabilities);
    assert_eq!(engine.in_flight_count(), 0);
    let negotiated = SurfaceConfiguration {
        format: SurfaceFormat { format: 44, color_space: 0 },
        present_mode: PresentMode::Mailbox,
        extent: Extent { width: 640, height: 480 },
        image_count: 3,
    };
    assert_eq!(
        engine.step(Event::CapabilitiesReported {
            capabilities: capabilities(640, 480),
            drawable: Extent { width: 640, height: 480 },
        }),
        Action::BuildChain { configuration: negotiated, retire: 0 }
    );
    assert_eq!(
        engine.phase(),
        Phase::Rebuilding(RebuildStep::BuildingChain { configuration: negotiated }, Resume::Frame)
    );
    assert_eq!(engine.configuration(), configuration());
    assert_eq!(
        engine.step(Event::ChainBuilt { images: vec![7, 8] }),
        Action::BuildTargets { generation: 1, count: 2 }
    );
    assert_eq!(engine.configuration(), negotiated);
    assert_eq!(engine.chain().images, vec![7, 8]);
    assert_eq!(engine.render_targets().len(), 2);
    assert_eq!(engine.command_sequences().len(), 2);
    assert_eq!(
        engine.step(Event::TargetsBuilt),
        Action::RecordSequences { generation: 1, count: 2 }
    );
    assert!(engine.needs_rebuild());
    assert_eq!(engine.step(Event::SequencesRecorded), Action::Acquire { slot: 1, timeout: None });
    assert!(!engine.needs_rebuild());
    assert_eq!(engine.phase(), Phase::Acquiring);
    assert_eq!(engine.step(Event::Acquired { image: 2 }), Action::Rejected);
    assert_eq!(engine.step(Event::Acquired { image: 1 }), Action::Submit { image: 1, slot: 1 });
}

#[test]
fn minimised_window_yields_and_asks_again() {
    let mut engine = engine(2, None);
    let mut driver = Driver::new(2);
    driver.surface = (0, 0);
    engine.notify_resize();
    for request in 1..=3 {
        assert_eq!(driver.frame(&mut engine, request), Action::Yield);
        assert_eq!(engine.phase(), Phase::Idle);
        assert!(engine.needs_rebuild());
        assert_eq!(engine.generation(), 0);
    }
    assert_eq!(driver.count(is_build), 0);
    assert_eq!(driver.count(is_acquire), 0);
    driver.surface = (300, 0);
    assert_eq!(driver.frame(&mut engine, 4), Action::Yield);
    driver.surface = (300, 200);
    assert!(matches!(
        driver.frame(&mut engine, 5),
        Action::FrameComplete(FrameOutcome::Presented { .. })
    ));
    assert_eq!(engine.generation(), 1);
    assert_eq!(engine.configuration().extent, Extent { width: 300, height: 200 });
}

#[test]
fn timeout_skips_the_frame() {
    let mut engine = engine(2, Some(1000));
    assert_eq!(engine.render_frame(), Action::Acquire { slot: 0, timeout: Some(1000) });
    assert_eq!(
        engine.step(Event::AcquireTimedOut),
        Action::FrameComplete(FrameOutcome::Skipped)
    );
    assert_eq!(engine.phase(), Phase::Idle);
    assert_eq!(engine.frame_counter(), 0);
    assert!(!engine.needs_rebuild());
    assert_eq!(engine.render_frame(), Action::Acquire { slot: 0, timeout: Some(1000) });
}

#[test]
fn timeout_is_refused_where_none_was_asked_for() {
    let mut engine = engine(2, None);
    assert_eq!(engine.render_frame(), Action::Acquire { slot: 0, timeout: None });
    assert_eq!(engine.step(Event::AcquireTimedOut), Action::Rejected);
    assert_eq!(engine.phase(), Phase::Acquiring);
}

#[test]
fn refused_submission_is_fatal() {
    let mut engine = engine(2, None);
    engine.render_frame();
    engine.step(Event::Acquired { image: 0 });
    assert_eq!(engine.step(Event::SubmitFailed), Action::Fatal(FatalError::SubmissionError));
    assert_eq!(engine.phase(), Phase::Failed(FatalError::SubmissionError));
    assert_eq!(engine.render_frame(), Action::Rejected);
    assert_eq!(engine.notify_resize(), Action::Rejected);
    assert_eq!(engine.step(Event::Submitted), Action::Rejected);
    assert_eq!(engine.frame_counter(), 0);
    assert_eq!(engine.shutdown(), Action::WaitIdle);
    assert_eq!(engine.step(Event::DeviceIdle), Action::Release);
    assert_eq!(engine.phase(), Phase::Terminated);
}

#[test]
fn failed_capability_query_is_fatal() {
    let mut engine = engine(2, None);
    engine.notify_resize();
    assert_eq!(engine.render_frame(), Action::WaitIdle);
    assert_eq!(engine.step(Event::DeviceIdle), Action::QueryCapabilities);
    assert_eq!(
        engine.step(Event::CapabilityQueryFailed),
        Action::Fatal(FatalError::CapabilityQueryError)
    );
    assert_eq!(engine.phase(), Phase::Failed(FatalError::CapabilityQueryError));
    assert_eq!(engine.generation(), 0);
    assert_eq!(engine.step(Event::DeviceIdle), Action::Rejected);
    assert_eq!(engine.render_frame(), Action::Rejected);
}

#[test]
fn unusable_capabilities_are_refused() {
    let mut engine = engine(2, None);
    engine.notify_resize();
    engine.render_frame();
    engine.step(Event::DeviceIdle);
    let mut unusable = capabilities(640, 480);
    unusable.supported_formats = vec![];
    assert_eq!(
        engine.step(Event::CapabilitiesReported {
            capabilities: unusable,
            drawable: Extent { width: 640, height: 480 },
        }),
        Action::Rejected
    );
    assert_eq!(engine.phase(), Phase::Rebuilding(RebuildStep::Negotiating, Resume::Frame));
}

#[test]
fn events_out_of_turn_change_nothing() {
    let mut engine = engine(2, None);
    for event in [
        Event::SlotReady,
        Event::Acquired { image: 0 },
        Event::AcquireStale,
        Event::Submitted,
        Event::Presented,
        Event::PresentStale,
        Event::DeviceIdle,
        Event::CapabilityQueryFailed,
        Event::ChainBuilt { images: vec![1] },
        Event::TargetsBuilt,
        Event::SequencesRecorded,
    ] {
        assert_eq!(engine.step(event), Action::Rejected);
        assert_eq!(engine.phase(), Phase::Idle);
        assert_eq!(engine.frame_counter(), 0);
        assert_eq!(engine.generation(), 0);
        assert_eq!(engine.chain().len(), 3);
        assert!(!engine.needs_rebuild());
    }
    assert_eq!(engine.render_frame(), Action::Acquire { slot: 0, timeout: None });
    assert_eq!(engine.render_frame(), Action::Rejected);
    assert_eq!(engine.shutdown(), Action::Rejected);
    assert_eq!(engine.step(Event::Acquired { image: 3 }), Action::Rejected);
    assert_eq!(engine.phase(), Phase::Acquiring);
}

#[test]
fn shutdown_drains_before_release() {
    let mut engine = engine(2, None);
    let mut driver = Driver::new(2);
    driver.frame(&mut engine, 1);
    driver.frame(&mut engine, 2);
    assert_eq!(engine.in_flight_count(), 2);
    assert_eq!(engine.shutdown(), Action::WaitIdle);
    assert_eq!(engine.phase(), Phase::ShuttingDown);
    assert_eq!(engine.render_frame(), Action::Rejected);
    assert_eq!(engine.step(Event::DeviceIdle), Action::Release);
    assert_eq!(engine.phase(), Phase::Terminated);
    assert_eq!(engine.in_flight_count(), 0);
    assert_eq!(engine.shutdown(), Action::Rejected);
    assert_eq!(engine.render_frame(), Action::Rejected);
}

#[test]
fn run_answers_each_report_in_order() {
    let mut engine = engine(2, None);
    let answers = engine.run(vec![
        Event::FrameRequested,
        Event::Acquired { image: 1 },
        Event::Submitted,
        Event::Presented,
        Event::Presented,
        Event::FrameRequested,
        Event::AcquireStale,
        Event::FrameRequested,
    ]);
    assert_eq!(
        answers,
        vec![
            Action::Acquire { slot: 0, timeout: None },
            Action::Submit { image: 1, slot: 0 },
            Action::Present { image: 1, slot: 0 },
            Action::FrameComplete(FrameOutcome::Presented { image: 1 }),
            Action::Rejected,
            Action::Acquire { slot: 1, timeout: None },
            Action::WaitIdle,
            Action::Rejected,
        ]
    );
    let draining =
        Phase::Rebuilding(RebuildStep::Draining, Resume::FrameOver(FrameOutcome::Abandoned));
    assert_eq!(engine.phase(), draining);
    assert_eq!(engine.frame_counter(), 1);
    assert_eq!(engine.run(vec![]), vec![]);
    assert_eq!(engine.phase(), draining);
}

#[test]
fn stale_acquire_begins_the_rebuild_at_once() {
    let mut engine = engine(2, None);
    let mut driver = Driver::new(2);
    driver.frame(&mut engine, 1);
    assert_eq!(engine.in_flight_count(), 1);
    assert_eq!(engine.render_frame(), Action::Acquire { slot: 1, timeout: None });
    assert_eq!(engine.step(Event::AcquireStale), Action::WaitIdle);
    assert!(engine.needs_rebuild());
    assert_eq!(engine.frame_counter(), 1);
    assert_eq!(engine.generation(), 0);
    let abandoned = Resume::FrameOver(FrameOutcome::Abandoned);
    assert_eq!(engine.phase(), Phase::Rebuilding(RebuildStep::Draining, abandoned));
    assert_eq!(engine.step(Event::Submitted), Action::Rejected);
    assert_eq!(engine.step(Event::DeviceIdle), Action::QueryCapabilities);
    assert_eq!(engine.in_flight_count(), 0);
    assert!(matches!(
        engine.step(Event::CapabilitiesReported {
            capabilities: capabilities(640, 480),
            drawable: Extent { width: 1, height: 1 },
        }),
        Action::BuildChain { retire: 0, .. }
    ));
    assert_eq!(
        engine.step(Event::ChainBuilt { images: vec![1, 2, 3, 4, 5] }),
        Action::BuildTargets { generation: 1, count: 5 }
    );
    assert_eq!(engine.phase(), Phase::Rebuilding(RebuildStep::BuildingTargets, abandoned));
    assert_eq!(
        engine.step(Event::TargetsBuilt),
        Action::RecordSequences { generation: 1, count: 5 }
    );
    assert_eq!(
        engine.step(Event::SequencesRecorded),
        Action::FrameComplete(FrameOutcome::Abandoned)
    );
    assert_eq!(engine.phase(), Phase::Idle);
    assert!(!engine.needs_rebuild());
    assert_eq!(engine.frame_counter(), 1);
    assert_eq!(engine.generation(), 1);
    assert_eq!(engine.render_frame(), Action::Acquire { slot: 1, timeout: None });
    assert_eq!(engine.step(Event::Acquired { image: 4 }), Action::Submit { image: 4, slot: 1 });
}

#[test]
fn minimised_window_during_a_stale_rebuild_leaves_the_rebuild_due() {
    let mut engine = engine(2, None);
    engine.render_frame();
    assert_eq!(engine.step(Event::AcquireStale), Action::WaitIdle);
    assert_eq!(engine.step(Event::DeviceIdle), Action::QueryCapabilities);
    assert_eq!(
        engine.step(Event::CapabilitiesReported {
            capabilities: capabilities(0, 0),
            drawable: Extent { width: 0, height: 0 },
        }),
        Action::Yield
    );
    assert_eq!(engine.phase(), Phase::Idle);
    assert!(engine.needs_rebuild());
    assert_eq!(engine.generation(), 0);
    assert_eq!(engine.render_frame(), Action::WaitIdle);
    assert_eq!(engine.phase(), Phase::Rebuilding(RebuildStep::Draining, Resume::Frame));
}
