use crate::pipeline::PipelineStage;
use crate::swapchain::Extent2D;
use vstd::prelude::*;

verus! {

/// The number of frames that can be prepared while others are drawn.
pub const MAX_FRAMES_IN_FLIGHT: usize = 2;

/// The exit code of an orderly end.
pub const EXIT_SUCCESS: i32 = 0;

/// The exit code after a fatal error.
pub const EXIT_FAILURE: i32 = 1;

/// Where the current frame slot stands in its iteration.
#[derive(Clone, Copy, Debug, PartialEq, Eq, Structural)]
pub enum Phase {
    /// Between two iterations.
    Idle,
    /// The fence was waited for and an image asked for.
    Acquiring,
    /// The fence is reset and the commands for `image` are being recorded.
    Recording { image: u32 },
    /// The commands for `image` are with the graphics queue.
    Submitted { image: u32 },
    /// `image` is with the present queue.
    Presenting { image: u32 },
    /// The loop has ended; nothing more is done.
    Closed,
}

/// What is known of the fence of a frame slot.
#[derive(Clone, Copy, Debug, PartialEq, Eq, Structural)]
pub enum FenceState {
    /// No work of the slot is outstanding.
    Signaled,
    /// Reset, and no work submitted with it yet.
    Reset,
    /// Work was submitted that signals it when done.
    InFlight,
}

/// What the window or the device reports to the orchestrator.
#[derive(Clone, Copy, Debug, PartialEq, Eq, Structural)]
pub enum Event {
    /// All window events are handled: time for a frame.
    EventsCleared { window_size: Extent2D },
    /// The window has a new size.
    Resized { window_size: Extent2D },
    /// The user asked to close the window.
    CloseRequested,
    /// The swapchain, which has `image_count` images, gave the image `image`.
    ImageAcquired { image: u32, image_count: u32 },
    /// The swapchain no longer fits the surface; it gave no image.
    AcquireOutOfDate,
    /// The commands are recorded.
    Recorded,
    /// The commands are with the graphics queue.
    Submitted,
    /// The image is presented; `suboptimal` when the swapchain no longer
    /// fits the surface exactly.
    Presented { suboptimal: bool },
    /// The swapchain no longer fits the surface; it could not present.
    PresentOutOfDate,
    /// Any other error of a graphics call.
    Failed,
}

/// What the orchestrator asks to be done, one graphics call or group of
/// them each.
#[derive(Clone, Copy, Debug, PartialEq, Eq, Structural)]
pub enum Command {
    /// Wait until the device has no work left.
    WaitDeviceIdle,
    /// Replace the swapchain, and all that hangs on it, for a window of this size.
    RecreateSwapchain { window_size: Extent2D },
    /// Wait until the fence of the slot is signaled.
    WaitForFence { slot: usize },
    /// Ask the swapchain for its next image, to signal the slot's
    /// image-available semaphore.
    AcquireImage { slot: usize },
    /// Reset the fence of the slot.
    ResetFence { slot: usize },
    /// Write the transforms of this moment into the uniform buffer of the image.
    UpdateUniforms { image: u32 },
    /// Reset the slot's command buffer and record the drawing into the
    /// framebuffer of the image.
    RecordCommands { slot: usize, image: u32 },
    /// Submit the slot's command buffer: it waits for the image-available
    /// semaphore and signals the render-finished semaphore and the fence.
    Submit { slot: usize },
    /// Present the image once the slot's render-finished semaphore is signaled.
    Present { slot: usize, image: u32 },
    /// Destroy every graphics object, the youngest first.
    Teardown,
    /// End the process with this code.
    Exit { code: i32 },
}

/// A semaphore of a frame slot.
#[derive(Clone, Copy, Debug, PartialEq, Eq, Structural)]
pub enum Semaphore {
    /// Signaled when the image that the slot asked for can be drawn to.
    ImageAvailable { slot: usize },
    /// Signaled when the slot's drawing is done.
    RenderFinished { slot: usize },
}

impl Command {
    /// The semaphore that the command has the device wait for.
    pub open spec fn spec_wait_semaphore(self) -> Option<Semaphore> {
        match self {
            Command::Submit { slot } => Some(Semaphore::ImageAvailable { slot }),
            Command::Present { slot, .. } => Some(Semaphore::RenderFinished { slot }),
            _ => None,
        }
    }

    /// The semaphore that the command has the device signal.
    pub open spec fn spec_signal_semaphore(self) -> Option<Semaphore> {
        match self {
            Command::AcquireImage { slot } => Some(Semaphore::ImageAvailable { slot }),
            Command::Submit { slot } => Some(Semaphore::RenderFinished { slot }),
            _ => None,
        }
    }

    /// The slot whose fence the device signals when the command's work is done.
    pub open spec fn spec_signal_fence(self) -> Option<usize> {
        match self {
            Command::Submit { slot } => Some(slot),
            _ => None,
        }
    }

    /// The stage at which the command's work waits for its semaphore.
    pub open spec fn spec_wait_stage(self) -> Option<PipelineStage> {
        match self {
            Command::Submit { .. } => Some(PipelineStage::ColorAttachmentOutput),
            _ => None,
        }
    }

    /// The semaphore that the command has the device wait for: a
    /// submission waits for the image, a presentation for the drawing.
    #[verifier::when_used_as_spec(spec_wait_semaphore)]
    pub fn wait_semaphore(self) -> (r: Option<Semaphore>)
        ensures
            r == self.spec_wait_semaphore(),
    {
        match self {
            Command::Submit { slot } => Some(Semaphore::ImageAvailable { slot }),
            Command::Present { slot, .. } => Some(Semaphore::RenderFinished { slot }),
            _ => None,
        }
    }

    /// The semaphore that the command has the device signal: asking for
    /// an image signals that it is there, a submission that it is drawn.
    #[verifier::when_used_as_spec(spec_signal_semaphore)]
    pub fn signal_semaphore(self) -> (r: Option<Semaphore>)
        ensures
            r == self.spec_signal_semaphore(),
    {
        match self {
            Command::AcquireImage { slot } => Some(Semaphore::ImageAvailable { slot }),
            Command::Submit { slot } => Some(Semaphore::RenderFinished { slot }),
            _ => None,
        }
    }

    /// The slot whose fence the device signals when the command's work
    /// is done: that of a submission.
    #[verifier::when_used_as_spec(spec_signal_fence)]
    pub fn signal_fence(self) -> (r: Option<usize>)
        ensures
            r == self.spec_signal_fence(),
    {
        match self {
            Command::Submit { slot } => Some(slot),
            _ => None,
        }
    }

    /// The stage at which the command's work waits for its semaphore: a
    /// submission may run up to the writing of the color attachment.
    #[verifier::when_used_as_spec(spec_wait_stage)]
    pub fn wait_stage(self) -> (r: Option<PipelineStage>)
        ensures
            r == self.spec_wait_stage(),
    {
        match self {
            Command::Submit { .. } => Some(PipelineStage::ColorAttachmentOutput),
            _ => None,
        }
    }
}

/// Every semaphore that one of the commands waits for is signaled by a
/// command before it.
pub open spec fn waits_follow_signals(commands: Seq<Command>) -> bool {
    forall|i: int|
        0 <= i < commands.len() && (#[trigger] commands[i]).wait_semaphore() is Some ==> exists|
            j: int,
        |
            0 <= j < i && (#[trigger] commands[j]).signal_semaphore()
                == commands[i].wait_semaphore()
}

/// The orchestrator's state, as the contracts speak of it.
pub struct OrchestratorState {
    /// The slot of the current frame.
    pub current_frame: int,
    pub phase: Phase,
    /// The swapchain must be replaced before the next image is asked for.
    pub recreate_swapchain: bool,
    /// The fence of each slot.
    pub fences: Seq<FenceState>,
}

impl OrchestratorState {
    /// The state before the first frame: every fence signaled.
    pub open spec fn initial() -> OrchestratorState {
        OrchestratorState {
            current_frame: 0,
            phase: Phase::Idle,
            recreate_swapchain: false,
            fences: Seq::new(MAX_FRAMES_IN_FLIGHT as nat, |i: int| FenceState::Signaled),
        }
    }

    /// The slot is one of the slots, each slot has a fence, and a fence is
    /// reset only while its slot records: it is signaled whenever an
    /// image is asked for, and in flight from submission on.
    pub open spec fn well_formed(self) -> bool {
        &&& 0 <= self.current_frame < MAX_FRAMES_IN_FLIGHT
        &&& self.fences.len() == MAX_FRAMES_IN_FLIGHT
        &&& self.phase !is Closed ==> {
            &&& forall|i: int|
                0 <= i < self.fences.len() && i != self.current_frame ==> self.fences[i]
                    != FenceState::Reset
            &&& match self.phase {
                Phase::Idle => self.fences[self.current_frame] != FenceState::Reset,
                Phase::Acquiring => self.fences[self.current_frame] == FenceState::Signaled,
                Phase::Recording { .. } => self.fences[self.current_frame] == FenceState::Reset,
                Phase::Submitted { .. } => self.fences[self.current_frame]
                    == FenceState::InFlight,
                Phase::Presenting { .. } => self.fences[self.current_frame]
                    == FenceState::InFlight,
                Phase::Closed => true,
            }
        }
    }

    /// The slot that follows the current one.
    pub open spec fn next_frame(self) -> int {
        (self.current_frame + 1) % (MAX_FRAMES_IN_FLIGHT as int)
    }

    /// The state with another fence state for the current slot.
    pub open spec fn with_fence(self, fence: FenceState) -> OrchestratorState {
        OrchestratorState { fences: self.fences.update(self.current_frame, fence), ..self }
    }

    /// The end after a fatal error: wait, tear down, exit with a failure.
    pub open spec fn abort(self) -> (OrchestratorState, Seq<Command>) {
        (
            OrchestratorState { phase: Phase::Closed, ..self },
            seq![Command::WaitDeviceIdle, Command::Teardown, Command::Exit { code: EXIT_FAILURE }],
        )
    }

    /// The orderly end: wait, tear down, exit with success.
    pub open spec fn close(self) -> (OrchestratorState, Seq<Command>) {
        (
            OrchestratorState { phase: Phase::Closed, ..self },
            seq![Command::WaitDeviceIdle, Command::Teardown, Command::Exit { code: EXIT_SUCCESS }],
        )
    }

    /// The start of an iteration, once all window events are handled.
    ///
    /// With a replacement of the swapchain pending, a window without area
    /// puts everything off; any other window has the swapchain replaced
    /// first. Then the slot's fence is waited for and an image asked for.
    pub open spec fn begin_frame(self, window_size: Extent2D) -> (OrchestratorState, Seq<Command>) {
        let slot = self.current_frame as usize;
        if self.recreate_swapchain && window_size.is_empty() {
            (self, Seq::empty())
        } else if self.recreate_swapchain {
            (
                OrchestratorState {
                    phase: Phase::Acquiring,
                    recreate_swapchain: false,
                    ..self.with_fence(FenceState::Signaled)
                },
                seq![
                    Command::WaitDeviceIdle,
                    Command::RecreateSwapchain { window_size },
                    Command::WaitForFence { slot },
                    Command::AcquireImage { slot },
                ],
            )
        } else {
            (
                OrchestratorState {
                    phase: Phase::Acquiring,
                    ..self.with_fence(FenceState::Signaled)
                },
                seq![Command::WaitForFence { slot }, Command::AcquireImage { slot }],
            )
        }
    }

    /// A new window size between two iterations: a window without area
    /// puts the replacement of the swapchain off, any other has it
    /// replaced at once.
    pub open spec fn resize(self, window_size: Extent2D) -> (OrchestratorState, Seq<Command>) {
        if window_size.is_empty() {
            (OrchestratorState { recreate_swapchain: true, ..self }, Seq::empty())
        } else {
            (
                OrchestratorState { recreate_swapchain: false, ..self },
                seq![Command::WaitDeviceIdle, Command::RecreateSwapchain { window_size }],
            )
        }
    }

    /// The end of an iteration after presenting: the next slot's turn.
    pub open spec fn end_frame(self, recreate: bool) -> (OrchestratorState, Seq<Command>) {
        (
            OrchestratorState {
                phase: Phase::Idle,
                recreate_swapchain: self.recreate_swapchain || recreate,
                current_frame: self.next_frame(),
                ..self
            },
            Seq::empty(),
        )
    }

    /// The state after an event, and the commands to perform, in order.
    /// The outcome of the last command is the next event; the failure of
    /// any is `Event::Failed`.
    ///
    /// An event that the phase does not expect is fatal, as every
    /// failure is. After the end nothing is done.
    pub open spec fn step(self, event: Event) -> (OrchestratorState, Seq<Command>) {
        let slot = self.current_frame as usize;
        match (self.phase, event) {
            (Phase::Closed, _) => (self, Seq::empty()),
            (_, Event::CloseRequested) => self.close(),
            (Phase::Idle, Event::EventsCleared { window_size }) => self.begin_frame(window_size),
            (Phase::Idle, Event::Resized { window_size }) => self.resize(window_size),
            (Phase::Acquiring, Event::ImageAcquired { image, image_count }) => if image
                < image_count {
                (
                    OrchestratorState {
                        phase: Phase::Recording { image },
                        ..self.with_fence(FenceState::Reset)
                    },
                    seq![
                        Command::ResetFence { slot },
                        Command::UpdateUniforms { image },
                        Command::RecordCommands { slot, image },
                    ],
                )
            } else {
                self.abort()
            },
            (Phase::Acquiring, Event::AcquireOutOfDate) => (
                OrchestratorState { phase: Phase::Idle, recreate_swapchain: true, ..self },
                Seq::empty(),
            ),
            (Phase::Recording { image }, Event::Recorded) => (
                OrchestratorState {
                    phase: Phase::Submitted { image },
                    ..self.with_fence(FenceState::InFlight)
                },
                seq![Command::Submit { slot }],
            ),
            (Phase::Submitted { image }, Event::Submitted) => (
                OrchestratorState { phase: Phase::Presenting { image }, ..self },
                seq![Command::Present { slot, image }],
            ),
            (Phase::Presenting { .. }, Event::Presented { suboptimal }) => self.end_frame(
                suboptimal,
            ),
            (Phase::Presenting { .. }, Event::PresentOutOfDate) => self.end_frame(true),
            _ => self.abort(),
        }
    }

    /// One iteration in which nothing goes wrong, for the image `image`:
    /// the state after it, and all its commands in order.
    pub open spec fn frame(self, window_size: Extent2D, image: u32, image_count: u32) -> (
        OrchestratorState,
        Seq<Command>,
    ) {
        let a = self.step(Event::EventsCleared { window_size });
        let b = a.0.step(Event::ImageAcquired { image, image_count });
        let c = b.0.step(Event::Recorded);
        let d = c.0.step(Event::Submitted);
        let e = d.0.step(Event::Presented { suboptimal: false });
        (e.0, a.1 + b.1 + c.1 + d.1 + e.1)
    }

    /// As many iterations in which nothing goes wrong as there are
    /// images in `images`, one after the other.
    pub open spec fn frames(self, window_size: Extent2D, images: Seq<u32>, image_count: u32) -> (
        OrchestratorState,
        Seq<Command>,
    )
        decreases images.len(),
    {
        if images.len() == 0 {
            (self, Seq::empty())
        } else {
            let before = self.frames(window_size, images.drop_last(), image_count);
            let last = before.0.frame(window_size, images.last(), image_count);
            (last.0, before.1 + last.1)
        }
    }
}

/// What is counted among commands.
pub enum Counted {
    /// The waits for a fence.
    FenceWaits,
    /// The resets of a fence.
    FenceResets,
    /// The submissions to the graphics queue.
    Submissions,
    /// The presentations of an image.
    Presentations,
}

/// The command is one of those that are counted.
pub open spec fn counts_as(command: Command, counted: Counted) -> bool {
    match counted {
        Counted::FenceWaits => command is WaitForFence,
        Counted::FenceResets => command is ResetFence,
        Counted::Submissions => command is Submit,
        Counted::Presentations => command is Present,
    }
}

/// How many of the commands are of the kind that is counted.
pub open spec fn count(commands: Seq<Command>, counted: Counted) -> nat
    decreases commands.len(),
{
    if commands.len() == 0 {
        0
    } else {
        count(commands.drop_last(), counted) + if counts_as(commands.last(), counted) {
            1nat
        } else {
            0nat
        }
    }
}

/// How many of the commands wait for a fence.
pub open spec fn fence_waits(commands: Seq<Command>) -> nat {
    count(commands, Counted::FenceWaits)
}

/// How many of the commands reset a fence.
pub open spec fn fence_resets(commands: Seq<Command>) -> nat {
    count(commands, Counted::FenceResets)
}

/// How many of the commands submit to the graphics queue.
pub open spec fn submissions(commands: Seq<Command>) -> nat {
    count(commands, Counted::Submissions)
}

/// How many of the commands present an image.
pub open spec fn presentations(commands: Seq<Command>) -> nat {
    count(commands, Counted::Presentations)
}

/// One if the condition holds, else zero.
pub open spec fn one_if(condition: bool) -> nat {
    if condition {
        1
    } else {
        0
    }
}

impl OrchestratorState {
    /// The state after the events, one after the other, and all the
    /// commands on the way, in order.
    pub open spec fn run(self, events: Seq<Event>) -> (OrchestratorState, Seq<Command>)
        decreases events.len(),
    {
        if events.len() == 0 {
            (self, Seq::empty())
        } else {
            let before = self.run(events.drop_last());
            let last = before.0.step(events.last());
            (last.0, before.1 + last.1)
        }
    }
}

/// The per-frame state machine. It decides; its caller performs the
/// commands and reports what came of them.
#[derive(Debug)]
pub struct FrameOrchestrator {
    current_frame: usize,
    phase: Phase,
    recreate_swapchain: bool,
    fences: Vec<FenceState>,
}

impl View for FrameOrchestrator {
    type V = OrchestratorState;

    closed spec fn view(&self) -> OrchestratorState {
        OrchestratorState {
            current_frame: self.current_frame as int,
            phase: self.phase,
            recreate_swapchain: self.recreate_swapchain,
            fences: self.fences@,
        }
    }
}

impl FrameOrchestrator {
    /// The orchestrator before the first frame.
    pub fn new() -> (r: Self)
        ensures
            r@ == OrchestratorState::initial(),
            r@.well_formed(),
    {
        let mut fences: Vec<FenceState> = Vec::new();
        let mut i: usize = 0;
        while i < MAX_FRAMES_IN_FLIGHT
            invariant
                i <= MAX_FRAMES_IN_FLIGHT,
                fences@.len() == i,
                forall|j: int| 0 <= j < i ==> fences@[j] == FenceState::Signaled,
            decreases MAX_FRAMES_IN_FLIGHT - i,
        {
            fences.push(FenceState::Signaled);
            i += 1;
        }
        let r = Self { current_frame: 0, phase: Phase::Idle, recreate_swapchain: false, fences };
        assert(r@.fences =~= OrchestratorState::initial().fences);
        r
    }

    /// The slot of the current frame.
    pub fn current_frame(&self) -> (r: usize)
        ensures
            r == self@.current_frame,
    {
        self.current_frame
    }

    /// Where the current slot stands in its iteration.
    pub fn phase(&self) -> (r: Phase)
        ensures
            r == self@.phase,
    {
        self.phase
    }

    /// Whether the swapchain must be replaced before the next image.
    pub fn recreate_pending(&self) -> (r: bool)
        ensures
            r == self@.recreate_swapchain,
    {
        self.recreate_swapchain
    }

    /// What is known of the fence of `slot`; nothing for a slot that is none.
    pub fn fence_state(&self, slot: usize) -> (r: Option<FenceState>)
        ensures
            r == if slot < self@.fences.len() {
                Some(self@.fences[slot as int])
            } else {
                None
            },
    {
        if slot < self.fences.len() {
            Some(self.fences[slot])
        } else {
            None
        }
    }

    /// Whether the state is well-formed, as every state is that came
    /// about by `new` and `step`.
    pub fn is_well_formed(&self) -> (r: bool)
        ensures
            r == self@.well_formed(),
    {
        if self.current_frame >= MAX_FRAMES_IN_FLIGHT || self.fences.len()
            != MAX_FRAMES_IN_FLIGHT {
            return false;
        }
        if self.phase == Phase::Closed {
            return true;
        }
        let mut i: usize = 0;
        while i < self.fences.len()
            invariant
                i <= self.fences@.len() == MAX_FRAMES_IN_FLIGHT,
                self.current_frame < MAX_FRAMES_IN_FLIGHT,
                self.phase !is Closed,
                forall|j: int|
                    0 <= j < i && j != self.current_frame ==> self.fences@[j] != FenceState::Reset,
            decreases self.fences@.len() - i,
        {
            if i != self.current_frame && self.fences[i] == FenceState::Reset {
                return false;
            }
            i += 1;
        }
        let fence = self.fences[self.current_frame];
        match self.phase {
            Phase::Idle => fence != FenceState::Reset,
            Phase::Acquiring => fence == FenceState::Signaled,
            Phase::Recording { .. } => fence == FenceState::Reset,
            Phase::Submitted { .. } => fence == FenceState::InFlight,
            Phase::Presenting { .. } => fence == FenceState::InFlight,
            Phase::Closed => true,
        }
    }

    fn abort(&mut self) -> (r: Vec<Command>)
        ensures
            (final(self)@, r@) == old(self)@.abort(),
    {
        self.phase = Phase::Closed;
        let mut commands: Vec<Command> = Vec::new();
        commands.push(Command::WaitDeviceIdle);
        commands.push(Command::Teardown);
        commands.push(Command::Exit { code: EXIT_FAILURE });
        commands
    }

    fn close(&mut self) -> (r: Vec<Command>)
        ensures
            (final(self)@, r@) == old(self)@.close(),
    {
        self.phase = Phase::Closed;
        let mut commands: Vec<Command> = Vec::new();
        commands.push(Command::WaitDeviceIdle);
        commands.push(Command::Teardown);
        commands.push(Command::Exit { code: EXIT_SUCCESS });
        commands
    }

    fn begin_frame(&mut self, window_size: Extent2D) -> (r: Vec<Command>)
        requires
            old(self)@.well_formed(),
        ensures
            (final(self)@, r@) == old(self)@.begin_frame(window_size),
    {
        let slot = self.current_frame;
        let mut commands: Vec<Command> = Vec::new();
        if self.recreate_swapchain {
            if window_size.is_empty() {
                return commands;
            }
            commands.push(Command::WaitDeviceIdle);
            commands.push(Command::RecreateSwapchain { window_size });
            self.recreate_swapchain = false;
        }
        commands.push(Command::WaitForFence { slot });
        commands.push(Command::AcquireImage { slot });
        self.fences.set(slot, FenceState::Signaled);
        self.phase = Phase::Acquiring;
        commands
    }

    fn resize(&mut self, window_size: Extent2D) -> (r: Vec<Command>)
        ensures
            (final(self)@, r@) == old(self)@.resize(window_size),
    {
        let mut commands: Vec<Command> = Vec::new();
        if window_size.is_empty() {
            self.recreate_swapchain = true;
        } else {
            commands.push(Command::WaitDeviceIdle);
            commands.push(Command::RecreateSwapchain { window_size });
            self.recreate_swapchain = false;
        }
        commands
    }

    fn end_frame(&mut self, recreate: bool) -> (r: Vec<Command>)
        requires
            old(self)@.well_formed(),
        ensures
            (final(self)@, r@) == old(self)@.end_frame(recreate),
    {
        if recreate {
            self.recreate_swapchain = true;
        }
        self.current_frame = (self.current_frame + 1) % MAX_FRAMES_IN_FLIGHT;
        self.phase = Phase::Idle;
        let commands: Vec<Command> = Vec::new();
        commands
    }

    /// Takes an event and says what to do next: the commands to perform,
    /// in order. The outcome of the last one is the next event to hand
    /// in; the failure of any is `Event::Failed`, and what follows the
    /// failed command is left undone. Only the commands that end the loop
    /// are performed each whatever became of the one before.
    pub fn step(&mut self, event: Event) -> (r: Vec<Command>)
        requires
            old(self)@.well_formed(),
        ensures
            (final(self)@, r@) == old(self)@.step(event),
            final(self)@.well_formed(),
    {
        let slot = self.current_frame;
        match (self.phase, event) {
            (Phase::Closed, _) => {
                let commands: Vec<Command> = Vec::new();
                commands
            },
            (_, Event::CloseRequested) => self.close(),
            (Phase::Idle, Event::EventsCleared { window_size }) => self.begin_frame(window_size),
            (Phase::Idle, Event::Resized { window_size }) => self.resize(window_size),
            (Phase::Acquiring, Event::ImageAcquired { image, image_count }) => {
                if image < image_count {
                    let mut commands: Vec<Command> = Vec::new();
                    commands.push(Command::ResetFence { slot });
                    commands.push(Command::UpdateUniforms { image });
                    commands.push(Command::RecordCommands { slot, image });
                    self.fences.set(slot, FenceState::Reset);
                    self.phase = Phase::Recording { image };
                    commands
                } else {
                    self.abort()
                }
            },
            (Phase::Acquiring, Event::AcquireOutOfDate) => {
                self.phase = Phase::Idle;
                self.recreate_swapchain = true;
                let commands: Vec<Command> = Vec::new();
                commands
            },
            (Phase::Recording { image }, Event::Recorded) => {
                let mut commands: Vec<Command> = Vec::new();
                commands.push(Command::Submit { slot });
                self.fences.set(slot, FenceState::InFlight);
                self.phase = Phase::Submitted { image };
                commands
            },
            (Phase::Submitted { image }, Event::Submitted) => {
                let mut commands: Vec<Command> = Vec::new();
                commands.push(Command::Present { slot, image });
                self.phase = Phase::Presenting { image };
                commands
            },
            (Phase::Presenting { .. }, Event::Presented { suboptimal }) => self.end_frame(
                suboptimal,
            ),
            (Phase::Presenting { .. }, Event::PresentOutOfDate) => self.end_frame(true),
            _ => self.abort(),
        }
    }
}

/// The counts of two runs of commands, one behind the other, add up.
pub proof fn lemma_count_add(first: Seq<Command>, second: Seq<Command>, counted: Counted)
    ensures
        count(first + second, counted) == count(first, counted) + count(second, counted),
    decreases second.len(),
{
    if second.len() > 0 {
        lemma_count_add(first, second.drop_last(), counted);
        assert((first + second).drop_last() =~= first + second.drop_last());
    }
}

/// What one step adds to the counts: a fence is waited for when an
/// iteration begins, reset when the image is there, submitted with when
/// the commands are recorded, and the image presented when they are
/// submitted. No other step waits, resets, submits or presents.
pub proof fn lemma_step_counts(state: OrchestratorState, event: Event)
    requires
        state.well_formed(),
    ensures
        ({
            let next = state.step(event);
            &&& next.0.well_formed()
            &&& fence_waits(next.1) == one_if(next.0.phase is Acquiring && state.phase is Idle)
            &&& fence_resets(next.1) == one_if(next.0.phase is Recording)
            &&& submissions(next.1) == one_if(next.0.phase is Submitted)
            &&& presentations(next.1) == one_if(next.0.phase is Presenting)
            &&& next.0.phase is Recording ==> state.phase is Acquiring
            &&& next.0.phase is Submitted ==> state.phase is Recording
            &&& next.0.phase is Presenting ==> state.phase is Submitted
            &&& next.0.phase is Acquiring ==> state.phase is Idle
        }),
{
    reveal_with_fuel(count, 6);
}

/// Whatever happens, as long as the loop has not ended: every fence that
/// was reset was submitted with, but for the one of the slot that records;
/// every submission was followed by its presentation, but for the one
/// that was just made; and no fence was reset that was not waited for.
pub proof fn lemma_run_balanced(state: OrchestratorState, events: Seq<Event>)
    requires
        state.well_formed(),
        state.phase is Idle,
    ensures
        ({
            let run = state.run(events);
            &&& run.0.well_formed()
            &&& run.0.phase !is Closed ==> {
                &&& fence_resets(run.1) == submissions(run.1) + one_if(run.0.phase is Recording)
                &&& submissions(run.1) == presentations(run.1) + one_if(
                    run.0.phase is Submitted,
                )
                &&& fence_waits(run.1) >= fence_resets(run.1) + one_if(run.0.phase is Acquiring)
            }
        }),
    decreases events.len(),
{
    if events.len() > 0 {
        let before = state.run(events.drop_last());
        lemma_run_balanced(state, events.drop_last());
        lemma_step_counts(before.0, events.last());
        let last = before.0.step(events.last());
        lemma_count_add(before.1, last.1, Counted::FenceWaits);
        lemma_count_add(before.1, last.1, Counted::FenceResets);
        lemma_count_add(before.1, last.1, Counted::Submissions);
        lemma_count_add(before.1, last.1, Counted::Presentations);
    }
}

/// Every step keeps a well-formed state well-formed.
pub proof fn lemma_step_well_formed(state: OrchestratorState, event: Event)
    requires
        state.well_formed(),
    ensures
        state.step(event).0.well_formed(),
{
}

/// An iteration in which nothing goes wrong waits for one fence and
/// resets one, ends between two iterations with nothing pending, and
/// hands the turn to the next slot.
pub proof fn lemma_frame(
    state: OrchestratorState,
    window_size: Extent2D,
    image: u32,
    image_count: u32,
)
    requires
        state.well_formed(),
        state.phase is Idle,
        state.recreate_swapchain ==> !window_size.is_empty(),
        image < image_count,
    ensures
        ({
            let run = state.frame(window_size, image, image_count);
            &&& run.0.well_formed()
            &&& run.0.phase is Idle
            &&& !run.0.recreate_swapchain
            &&& run.0.current_frame == state.next_frame()
            &&& fence_waits(run.1) == 1
            &&& fence_resets(run.1) == 1
        }),
{
    let a = state.step(Event::EventsCleared { window_size });
    let b = a.0.step(Event::ImageAcquired { image, image_count });
    let c = b.0.step(Event::Recorded);
    let d = c.0.step(Event::Submitted);
    let e = d.0.step(Event::Presented { suboptimal: false });
    lemma_step_counts(state, Event::EventsCleared { window_size });
    lemma_step_counts(a.0, Event::ImageAcquired { image, image_count });
    lemma_step_counts(b.0, Event::Recorded);
    lemma_step_counts(c.0, Event::Submitted);
    lemma_step_counts(d.0, Event::Presented { suboptimal: false });
    lemma_count_add(a.1, b.1, Counted::FenceWaits);
    lemma_count_add(a.1 + b.1, c.1, Counted::FenceWaits);
    lemma_count_add(a.1 + b.1 + c.1, d.1, Counted::FenceWaits);
    lemma_count_add(a.1 + b.1 + c.1 + d.1, e.1, Counted::FenceWaits);
    lemma_count_add(a.1, b.1, Counted::FenceResets);
    lemma_count_add(a.1 + b.1, c.1, Counted::FenceResets);
    lemma_count_add(a.1 + b.1 + c.1, d.1, Counted::FenceResets);
    lemma_count_add(a.1 + b.1 + c.1 + d.1, e.1, Counted::FenceResets);
}

/// After any number of iterations in which nothing goes wrong, as many
/// fences have been waited for, and as many reset, as there were
/// iterations, and the turn has moved on by as many slots.
pub proof fn lemma_frames(
    state: OrchestratorState,
    window_size: Extent2D,
    images: Seq<u32>,
    image_count: u32,
)
    requires
        state.well_formed(),
        state.phase is Idle,
        state.recreate_swapchain ==> !window_size.is_empty(),
        forall|i: int| 0 <= i < images.len() ==> images[i] < image_count,
    ensures
        ({
            let run = state.frames(window_size, images, image_count);
            &&& run.0.well_formed()
            &&& run.0.phase is Idle
            &&& run.0.recreate_swapchain ==> images.len() == 0 && state.recreate_swapchain
            &&& run.0.current_frame == (state.current_frame + images.len())
                % MAX_FRAMES_IN_FLIGHT as int
            &&& fence_waits(run.1) == images.len()
            &&& fence_resets(run.1) == images.len()
        }),
    decreases images.len(),
{
    if images.len() > 0 {
        let front = images.drop_last();
        lemma_frames(state, window_size, front, image_count);
        let before = state.frames(window_size, front, image_count);
        lemma_frame(before.0, window_size, images.last(), image_count);
        let last = before.0.frame(window_size, images.last(), image_count);
        lemma_count_add(before.1, last.1, Counted::FenceWaits);
        lemma_count_add(before.1, last.1, Counted::FenceResets);
    }
}

/// After as many iterations in which nothing goes wrong as there are
/// frame slots, begun at slot 0, exactly that many fences have been
/// waited for and that many reset, and the turn is back at slot 0.
pub proof fn lemma_frames_cycle(
    state: OrchestratorState,
    window_size: Extent2D,
    images: Seq<u32>,
    image_count: u32,
)
    requires
        state.well_formed(),
        state.phase is Idle,
        state.current_frame == 0,
        state.recreate_swapchain ==> !window_size.is_empty(),
        images.len() == MAX_FRAMES_IN_FLIGHT,
        forall|i: int| 0 <= i < images.len() ==> images[i] < image_count,
    ensures
        ({
            let run = state.frames(window_size, images, image_count);
            &&& run.0.current_frame == 0
            &&& fence_waits(run.1) == MAX_FRAMES_IN_FLIGHT
            &&& fence_resets(run.1) == MAX_FRAMES_IN_FLIGHT
        }),
{
    lemma_frames(state, window_size, images, image_count);
}

/// A window without area has nothing replaced and nothing drawn: the
/// replacement of the swapchain waits, and every turn is passed over,
/// until a size with area is reported.
pub proof fn lemma_minimized_defers(
    state: OrchestratorState,
    minimized: Extent2D,
    restored: Extent2D,
)
    requires
        state.well_formed(),
        state.phase is Idle,
        minimized.is_empty(),
        !restored.is_empty(),
    ensures
        ({
            let resized = state.step(Event::Resized { window_size: minimized });
            let passed = resized.0.step(Event::EventsCleared { window_size: minimized });
            let back = resized.0.step(Event::Resized { window_size: restored });
            let drawn = resized.0.step(Event::EventsCleared { window_size: restored });
            let slot = state.current_frame as usize;
            &&& resized.1.len() == 0
            &&& resized.0.recreate_swapchain
            &&& resized.0.phase is Idle
            &&& passed.1.len() == 0
            &&& passed.0 == resized.0
            &&& back.1 == seq![
                Command::WaitDeviceIdle,
                Command::RecreateSwapchain { window_size: restored },
            ]
            &&& !back.0.recreate_swapchain
            &&& drawn.1 == seq![
                Command::WaitDeviceIdle,
                Command::RecreateSwapchain { window_size: restored },
                Command::WaitForFence { slot },
                Command::AcquireImage { slot },
            ]
        }),
{
}

/// Where no image can be had because the swapchain is out of date, the
/// iteration ends there: nothing is submitted nor presented, the slot's
/// fence stays signaled, the slot keeps its turn, and the swapchain is
/// replaced before an image is asked for again.
pub proof fn lemma_out_of_date_acquire(state: OrchestratorState, window_size: Extent2D)
    requires
        state.well_formed(),
        state.phase is Acquiring,
    ensures
        ({
            let ended = state.step(Event::AcquireOutOfDate);
            let next = ended.0.step(Event::EventsCleared { window_size });
            let slot = state.current_frame as usize;
            &&& ended.1.len() == 0
            &&& ended.0.fences == state.fences
            &&& ended.0.fences[state.current_frame] == FenceState::Signaled
            &&& ended.0.current_frame == state.current_frame
            &&& ended.0.phase is Idle
            &&& ended.0.recreate_swapchain
            &&& if window_size.is_empty() {
                next.1.len() == 0 && next.0 == ended.0
            } else {
                next.1 == seq![
                    Command::WaitDeviceIdle,
                    Command::RecreateSwapchain { window_size },
                    Command::WaitForFence { slot },
                    Command::AcquireImage { slot },
                ]
            }
        }),
{
}

/// A fence is reset only when an image was had, and submitted with at
/// the very next step: between two iterations no fence is left reset.
pub proof fn lemma_no_fence_left_reset(state: OrchestratorState, slot: int)
    requires
        state.well_formed(),
        state.phase is Idle || state.phase is Acquiring,
        0 <= slot < MAX_FRAMES_IN_FLIGHT,
    ensures
        state.fences[slot] != FenceState::Reset,
{
}

/// In an iteration in which nothing goes wrong, nothing is drawn to an
/// image before it is there, and nothing is presented before it is
/// drawn: every semaphore that is waited for was signaled before, and
/// the submission signals the fence of the slot that was waited for and reset.
pub proof fn lemma_frame_synchronized(
    state: OrchestratorState,
    window_size: Extent2D,
    image: u32,
    image_count: u32,
)
    requires
        state.well_formed(),
        state.phase is Idle,
        state.recreate_swapchain ==> !window_size.is_empty(),
        image < image_count,
    ensures
        ({
            let commands = state.frame(window_size, image, image_count).1;
            let slot = state.current_frame as usize;
            &&& waits_follow_signals(commands)
            &&& forall|i: int|
                0 <= i < commands.len() && (#[trigger] commands[i]).signal_fence() is Some
                    ==> commands[i].signal_fence() == Some(slot) && exists|j: int, k: int|
                    0 <= j < k < i && commands[j] == (Command::WaitForFence { slot })
                        && commands[k] == (Command::ResetFence { slot })
        }),
{
    let commands = state.frame(window_size, image, image_count).1;
    let slot = state.current_frame as usize;
    let n = commands.len() as int;
    let tail = seq![
        Command::WaitForFence { slot },
        Command::AcquireImage { slot },
        Command::ResetFence { slot },
        Command::UpdateUniforms { image },
        Command::RecordCommands { slot, image },
        Command::Submit { slot },
        Command::Present { slot, image },
    ];
    assert(commands.subrange(n - 7, n) =~= tail);
    assert forall|i: int| 0 <= i < n implies #[trigger] commands[i] == if i < n - 7 {
        commands[i]
    } else {
        tail[i - (n - 7)]
    } by {
        if i >= n - 7 {
            assert(commands.subrange(n - 7, n)[i - (n - 7)] == commands[i]);
        }
    }
    assert forall|i: int|
        0 <= i < n && (#[trigger] commands[i]).wait_semaphore() is Some implies exists|j: int|
        0 <= j < i && (#[trigger] commands[j]).signal_semaphore()
            == commands[i].wait_semaphore() by {
        if i == n - 2 {
            assert(commands[n - 6].signal_semaphore() == commands[i].wait_semaphore());
        } else if i == n - 1 {
            assert(commands[n - 2].signal_semaphore() == commands[i].wait_semaphore());
        } else if i < n - 7 {
            assert(n == 9);
            assert(commands[0] == Command::WaitDeviceIdle);
            assert(commands[1] == (Command::RecreateSwapchain { window_size }));
        }
    }
    assert forall|i: int|
        0 <= i < n && (#[trigger] commands[i]).signal_fence() is Some implies {
        &&& commands[i].signal_fence() == Some(slot)
        &&& exists|j: int, k: int|
            0 <= j < k < i && commands[j] == (Command::WaitForFence { slot }) && commands[k]
                == (Command::ResetFence { slot })
    } by {
        if i == n - 2 {
            assert(commands[n - 7] == (Command::WaitForFence { slot }));
            assert(commands[n - 5] == (Command::ResetFence { slot }));
        } else if i < n - 7 {
            assert(n == 9);
            assert(commands[0] == Command::WaitDeviceIdle);
            assert(commands[1] == (Command::RecreateSwapchain { window_size }));
        }
    }
}

} // verus!
