//! The frame protocol of the render thread.
//!
//! Drawing one frame takes four pieces of work on the display's side: acquire
//! a back buffer, draw into it, present it, and wait for the fence that says
//! the draw is over. What is decided in between stands here, as a machine that
//! is told what happened and answers with what to do next: when to wait for
//! samples, which vertices make up the frame, and when to stop.
use vstd::prelude::*;
use crate::pipeline::{lines, quads, Vertex, Vertices};

verus! {

/// How long the wait for the fence of a frame may take before it counts as
/// lost.
pub const FENCE_TIMEOUT: u64 = 1_000_000;

/// Index number `i` of the index buffer. Six indices in a row draw one quad as
/// two triangles over its corners 0, 1, 2 and 1, 2, 3.
pub open spec fn quad_index(i: int) -> int {
    4 * (i / 6) + i % 3 + (i % 6) / 3
}

/// The index buffer for frames of `samples_per_frame` quads.
pub open spec fn index_buffer(samples_per_frame: nat) -> Seq<u32> {
    Seq::new(4 * samples_per_frame, |i: int| quad_index(i) as u32)
}

/// The index buffer holds four indices for each quad of a frame, and each of
/// them names a vertex of the frame.
pub proof fn lemma_index_buffer_in_frame(samples_per_frame: nat, i: int)
    requires
        0 <= i < 4 * samples_per_frame,
    ensures
        index_buffer(samples_per_frame).len() == 4 * samples_per_frame,
        0 <= quad_index(i) < 4 * samples_per_frame,
        4 * samples_per_frame <= u32::MAX ==> index_buffer(samples_per_frame)[i] == quad_index(i),
{
    assert(6 * (i / 6) <= i);
}

/// Position `j` of the six indices of quad `q` names corner 0, 1, 2, 1, 2, 3
/// of that quad, in this order.
pub proof fn lemma_index_triangles(q: int, j: int)
    requires
        0 <= q,
        0 <= j < 6,
    ensures
        quad_index(6 * q + j) == 4 * q + (if j < 3 {
            j
        } else {
            j - 2
        }),
{
    assert((6 * q + j) / 6 == q);
    assert((6 * q + j) % 6 == j);
    assert((6 * q + j) % 3 == j % 3);
}

/// Computes the index buffer for frames of `samples_per_frame` quads, or
/// `None` where its indices would not fit in 32 bits.
pub fn quad_indices(samples_per_frame: usize) -> (r: Option<Vec<u32>>)
    ensures
        r.is_some() <==> 4 * samples_per_frame <= u32::MAX,
        r matches Some(indices) ==> indices@ == index_buffer(samples_per_frame as nat),
{
    if samples_per_frame > 0x3fff_ffff {
        return None;
    }
    let num_verts: u32 = (samples_per_frame * 4) as u32;
    let mut indices: Vec<u32> = Vec::new();
    let mut i: u32 = 0;
    while i < num_verts
        invariant
            i <= num_verts,
            num_verts == 4 * samples_per_frame,
            indices@ == index_buffer(samples_per_frame as nat).take(i as int),
        decreases num_verts - i,
    {
        proof {
            lemma_index_buffer_in_frame(samples_per_frame as nat, i as int);
        }
        let index: u32 = 4 * (i / 6) + (i % 3) + (i % 6) / 3;
        indices.push(index);
        i += 1;
        assert(index_buffer(samples_per_frame as nat).take(i as int) =~= index_buffer(
            samples_per_frame as nat,
        ).take(i - 1).push(index));
    }
    assert(index_buffer(samples_per_frame as nat).take(i as int) =~= index_buffer(
        samples_per_frame as nat,
    ));
    Some(indices)
}

/// Where the render loop stands between two pieces of work on the display.
#[derive(Clone, Copy, Debug, PartialEq, Eq)]
pub enum Phase {
    /// No frame is in hand. The loop checks for shutdown and acquires the next
    /// back buffer; only here may it block on the display without bound.
    Idle,
    /// Back buffer `image` is in hand. While `drawing` is false the frame's
    /// geometry is still being gathered; once it is true the draw is under way.
    FrameAcquired { image: usize, drawing: bool },
    /// The frame is drawn into back buffer `image` and has yet to be shown.
    Encoded { image: usize },
    /// The frame is handed to the display; its fence is awaited.
    Presented,
    /// The loop is over. Nothing leads out of here.
    Exit,
}

/// What ends the render loop for good.
#[derive(Clone, Copy, Debug, PartialEq, Eq)]
pub enum Fault {
    /// The vertex buffer could not be updated.
    BufferUpdate,
    /// The encoder could not be flushed to the queue.
    EncoderFlush,
    /// The fence of a frame was not signaled within `FENCE_TIMEOUT`.
    FenceTimeout,
    /// The renderer was told of something that it had not asked for.
    Protocol,
}

/// The piece of work whose outcome the renderer waits to be told.
#[derive(Clone, Copy, Debug, PartialEq, Eq)]
pub enum Work {
    /// Checking for shutdown and acquiring a back buffer.
    Acquire,
    /// Receiving a batch of points.
    Receive,
    /// Drawing a frame.
    Draw,
    /// Presenting the frame.
    Present,
    /// Waiting for the fence of the frame.
    Fence,
    /// None: the loop is over.
    Nothing,
}

/// What the driver of the loop reports back.
#[derive(Debug, PartialEq)]
pub enum Event<T> {
    /// The window was closed or the process was asked to end.
    ShutdownRequested,
    /// The display handed out the back buffer of this number.
    FrameReady(usize),
    /// A batch of points came from the audio side.
    Samples(Vec<(T, T)>),
    /// The audio side is gone: no batch will come any more.
    EndOfStream,
    /// The frame was uploaded, drawn and flushed.
    Drawn,
    /// The vertex buffer could not be updated.
    UpdateFailed,
    /// The encoder could not be flushed.
    FlushFailed,
    /// The frame was handed to the display.
    Shown,
    /// The fence of the frame was signaled.
    FenceSignaled,
    /// The fence of the frame was not signaled in time.
    FenceTimedOut,
}

/// What the driver of the loop is to do next.
#[derive(Debug, PartialEq)]
pub enum Action<T> {
    /// Check for shutdown; if none is asked for, wait for the next back buffer.
    AcquireFrame,
    /// Wait for the next batch of points.
    Receive,
    /// Upload `vertices`, clear back buffer `image`, draw over the index
    /// buffer, and signal the end of the draw.
    Draw { image: usize, vertices: Vec<Vertex<T>> },
    /// Hand back buffer `image` to the display once the draw is signaled.
    Present { image: usize },
    /// Wait for the fence of the frame, `timeout` at most, then reset what the
    /// frame used.
    WaitFence { timeout: u64 },
    /// Leave the loop and release the display: the end was asked for.
    Stop,
    /// Leave the loop with a diagnostic.
    Abort(Fault),
}

/// An `Action`, with the vertices of a frame as a sequence.
pub enum Request<T> {
    AcquireFrame,
    Receive,
    Draw { image: usize, vertices: Seq<Vertex<T>> },
    Present { image: usize },
    WaitFence { timeout: u64 },
    Stop,
    Abort(Fault),
}

impl<T> View for Action<T> {
    type V = Request<T>;

    open spec fn view(&self) -> Request<T> {
        match *self {
            Action::AcquireFrame => Request::AcquireFrame,
            Action::Receive => Request::Receive,
            Action::Draw { image, vertices } => Request::Draw { image, vertices: vertices@ },
            Action::Present { image } => Request::Present { image },
            Action::WaitFence { timeout } => Request::WaitFence { timeout },
            Action::Stop => Request::Stop,
            Action::Abort(fault) => Request::Abort(fault),
        }
    }
}

impl<T> Request<T> {
    /// The piece of work that this asks for.
    pub open spec fn work(self) -> Work {
        match self {
            Request::AcquireFrame => Work::Acquire,
            Request::Receive => Work::Receive,
            Request::Draw { .. } => Work::Draw,
            Request::Present { .. } => Work::Present,
            Request::WaitFence { .. } => Work::Fence,
            Request::Stop => Work::Nothing,
            Request::Abort(_) => Work::Nothing,
        }
    }
}

/// The piece of work that is under way in phase `phase`.
pub open spec fn awaited(phase: Phase) -> Work {
    match phase {
        Phase::Idle => Work::Acquire,
        Phase::FrameAcquired { drawing: false, .. } => Work::Receive,
        Phase::FrameAcquired { drawing: true, .. } => Work::Draw,
        Phase::Encoded { .. } => Work::Present,
        Phase::Presented => Work::Fence,
        Phase::Exit => Work::Nothing,
    }
}

/// The state of the render loop as the contracts see it.
pub struct RenderModel<T> {
    /// Where the loop stands.
    pub phase: Phase,
    /// Number of quads in a frame.
    pub samples_per_frame: nat,
    /// Every point received so far.
    pub points: Seq<(T, T)>,
    /// Number of vertices that have gone into frames so far.
    pub emitted: nat,
}

impl<T> RenderModel<T> {
    /// Number of vertices in a frame.
    pub open spec fn frame_len(self) -> nat {
        4 * self.samples_per_frame
    }

    /// Whether the points received so far give the whole next frame.
    pub open spec fn frame_ready(self) -> bool {
        self.emitted + self.frame_len() <= quads(self.points).len()
    }

    /// The vertices of the next frame: those of the trace that follow the
    /// ones drawn before.
    pub open spec fn frame_vertices(self) -> Seq<Vertex<T>> {
        quads(self.points).subrange(self.emitted as int, (self.emitted + self.frame_len()) as int)
    }

    /// The same state in another phase.
    pub open spec fn at(self, phase: Phase) -> Self {
        RenderModel { phase, ..self }
    }

    /// With back buffer `image` in hand: draw the next frame if its geometry
    /// is there, and wait for more samples if it is not.
    pub open spec fn gather(self, image: usize) -> (Self, Request<T>) {
        if self.frame_ready() {
            (
                RenderModel {
                    phase: Phase::FrameAcquired { image, drawing: true },
                    emitted: self.emitted + self.frame_len(),
                    ..self
                },
                Request::Draw { image, vertices: self.frame_vertices() },
            )
        } else {
            (self.at(Phase::FrameAcquired { image, drawing: false }), Request::Receive)
        }
    }

    /// The state that follows on `event`, and what is asked of the driver.
    pub open spec fn step(self, event: Event<T>) -> (Self, Request<T>) {
        match (self.phase, event) {
            (Phase::Exit, _) => (self, Request::Stop),
            (Phase::Idle, Event::ShutdownRequested) => (self.at(Phase::Exit), Request::Stop),
            (Phase::Idle, Event::FrameReady(image)) => self.gather(image),
            (Phase::FrameAcquired { image, drawing: false }, Event::Samples(batch)) => {
                let fed = RenderModel { points: self.points + batch@, ..self };
                fed.gather(image)
            },
            (Phase::FrameAcquired { image, drawing: false }, Event::EndOfStream) => (
                self.at(Phase::Exit),
                Request::Stop,
            ),
            (Phase::FrameAcquired { image, drawing: true }, Event::Drawn) => (
                self.at(Phase::Encoded { image }),
                Request::Present { image },
            ),
            (Phase::FrameAcquired { image, drawing: true }, Event::UpdateFailed) => (
                self.at(Phase::Exit),
                Request::Abort(Fault::BufferUpdate),
            ),
            (Phase::FrameAcquired { image, drawing: true }, Event::FlushFailed) => (
                self.at(Phase::Exit),
                Request::Abort(Fault::EncoderFlush),
            ),
            (Phase::Encoded { image }, Event::Shown) => (
                self.at(Phase::Presented),
                Request::WaitFence { timeout: FENCE_TIMEOUT },
            ),
            (Phase::Presented, Event::FenceSignaled) => (
                self.at(Phase::Idle),
                Request::AcquireFrame,
            ),
            (Phase::Presented, Event::FenceTimedOut) => (
                self.at(Phase::Exit),
                Request::Abort(Fault::FenceTimeout),
            ),
            _ => (self.at(Phase::Exit), Request::Abort(Fault::Protocol)),
        }
    }
}

impl<T> RenderModel<T> {
    /// What holds of every state that a renderer can be in: a frame has at
    /// least one quad, and what has gone into frames is a whole number of
    /// frames out of the trace through the points received.
    pub open spec fn valid(self) -> bool {
        &&& self.samples_per_frame > 0
        &&& self.emitted <= quads(self.points).len()
        &&& self.emitted % self.frame_len() == 0
    }

    /// Whether the loop may go from phase `from` to phase `to` in one step:
    /// once round from idle through acquired, encoded and presented, staying
    /// put while samples are gathered, or out.
    pub open spec fn follows(from: Phase, to: Phase) -> bool {
        ||| to == Phase::Exit
        ||| from == Phase::Idle && to is FrameAcquired
        ||| from is FrameAcquired && to is FrameAcquired && to->FrameAcquired_image
            == from->FrameAcquired_image && !from->FrameAcquired_drawing
        ||| from is FrameAcquired && to is Encoded && to->Encoded_image
            == from->FrameAcquired_image && from->FrameAcquired_drawing
        ||| from is Encoded && to == Phase::Presented
        ||| from == Phase::Presented && to == Phase::Idle
    }
}

/// Every step keeps a valid state valid, leaves the frame size alone, and
/// takes away none of the points received.
pub proof fn lemma_step_keeps_valid<T>(state: RenderModel<T>, event: Event<T>)
    requires
        state.valid(),
    ensures
        state.step(event).0.valid(),
        state.step(event).0.samples_per_frame == state.samples_per_frame,
        state.points.is_prefix_of(state.step(event).0.points),
{
    let next = state.step(event).0;
    let len = state.frame_len() as int;
    if let Event::Samples(batch) = event {
        crate::pipeline::lemma_trace_grows(state.points, batch@);
        assert(state.points.is_prefix_of(state.points + batch@));
    }
    assert(state.points.is_prefix_of(state.points));
    if next.emitted != state.emitted {
        let before = state.emitted as int;
        assert(next.emitted == before + len);
        assert((before + len) % len == 0) by (nonlinear_arith)
            requires
                len > 0,
                before % len == 0,
        ;
    }
}

/// A batch that arrives while a frame is gathered goes behind the points
/// received before, whole and as it is; nothing else changes the points.
pub proof fn lemma_batches_are_kept_in_order<T>(state: RenderModel<T>, event: Event<T>)
    ensures
        state.step(event).0.points == (match (state.phase, event) {
            (Phase::FrameAcquired { drawing: false, .. }, Event::Samples(batch)) => state.points
                + batch@,
            _ => state.points,
        }),
{
}

/// What a step asks for is the work that is under way in the phase it leads
/// to: the driver is never asked for one thing while the renderer waits for
/// another.
pub proof fn lemma_answer_is_awaited<T>(state: RenderModel<T>, event: Event<T>)
    ensures
        state.step(event).1.work() == awaited(state.step(event).0.phase),
{
}

/// The loop goes round in order: from any phase a step leads to the phase
/// that follows it, or out.
pub proof fn lemma_phase_cycle<T>(state: RenderModel<T>, event: Event<T>)
    ensures
        RenderModel::<T>::follows(state.phase, state.step(event).0.phase) || (state.phase
            == Phase::Exit && state.step(event).0.phase == Phase::Exit),
{
}

/// Once the loop is over it stays over: whatever is reported, the state is
/// kept and the driver is told to stop.
pub proof fn lemma_exit_is_final<T>(state: RenderModel<T>, event: Event<T>)
    requires
        state.phase == Phase::Exit,
    ensures
        state.step(event) == (state, Request::<T>::Stop),
{
}

/// The loop ends on a shutdown while idle and on the end of the samples while
/// a frame waits for them, and neither draws nor acquires anything then.
pub proof fn lemma_shutdown_stops<T>(state: RenderModel<T>)
    ensures
        state.phase == Phase::Idle ==> state.step(Event::ShutdownRequested) == (
            state.at(Phase::Exit),
            Request::<T>::Stop,
        ),
        state.phase matches Phase::FrameAcquired { drawing: false, .. } ==> state.step(
            Event::EndOfStream,
        ) == (state.at(Phase::Exit), Request::<T>::Stop),
{
}

/// A frame is acquired only after the fence of the one before was signaled:
/// no other step asks for it, and none that leads out of the loop.
pub proof fn lemma_acquire_only_after_fence<T>(state: RenderModel<T>, event: Event<T>)
    requires
        state.step(event).1 == Request::<T>::AcquireFrame,
    ensures
        state.phase == Phase::Presented,
        event == Event::<T>::FenceSignaled,
        state.step(event).0.phase == Phase::Idle,
{
}

/// A draw is asked for only when a back buffer has just been acquired or
/// samples have just come for one. It carries a whole frame and nothing else:
/// `4 * samples_per_frame` vertices, those of the trace that follow the
/// frames drawn before. No other step takes vertices out of the trace.
pub proof fn lemma_draw_is_whole_frame<T>(state: RenderModel<T>, event: Event<T>)
    ensures
        match state.step(event).1 {
            Request::Draw { image, vertices } => {
                let next = state.step(event).0;
                &&& event == Event::<T>::FrameReady(image) || event is Samples
                &&& next.phase == (Phase::FrameAcquired { image, drawing: true })
                &&& vertices.len() == 4 * state.samples_per_frame
                &&& next.emitted == state.emitted + vertices.len()
                &&& next.emitted <= quads(next.points).len()
                &&& vertices == quads(next.points).subrange(
                    state.emitted as int,
                    next.emitted as int,
                )
            },
            _ => state.step(event).0.emitted == state.emitted,
        },
{
}

/// A frame is the trace through its own points: the `samples_per_frame + 1`
/// points from the one where the frame before ended. So each frame after the
/// first takes up `samples_per_frame` new points.
pub proof fn lemma_frame_is_its_own_trace<T>(state: RenderModel<T>)
    requires
        state.valid(),
        state.frame_ready(),
    ensures
        state.emitted / 4 + state.samples_per_frame + 1 <= state.points.len(),
        state.frame_vertices() == quads(
            state.points.subrange(
                state.emitted as int / 4,
                state.emitted as int / 4 + state.samples_per_frame + 1,
            ),
        ),
{
    let first = state.emitted as int / 4;
    let spf = state.samples_per_frame as int;
    let done = state.emitted as int;
    let frames = done / (4 * spf);
    vstd::arithmetic::div_mod::lemma_fundamental_div_mod(done, 4 * spf);
    assert(done == 4 * (spf * frames)) by (nonlinear_arith)
        requires
            done == (4 * spf) * frames,
    ;
    assert(done == 4 * first);
    assert(done + 4 * spf <= 4 * (state.points.len() - 1));
    let own = state.points.subrange(first, first + spf + 1);
    assert forall|i: int| 0 <= i < 4 * spf implies state.frame_vertices()[i] == quads(own)[i] by {
        assert((4 * first + i) / 4 == first + i / 4);
        assert((4 * first + i) % 4 == i % 4);
    }
    assert(state.frame_vertices() =~= quads(own));
}

/// While the points received give less than a whole frame, a back buffer in
/// hand waits: whether it has just been acquired or more samples have come,
/// the answer is to receive, and nothing is drawn.
pub proof fn lemma_short_input_waits<T>(state: RenderModel<T>, event: Event<T>)
    requires
        state.phase == Phase::Idle && event is FrameReady || (awaited(state.phase)
            == Work::Receive && event is Samples),
        quads(state.step(event).0.points).len() < state.emitted + state.frame_len(),
    ensures
        state.step(event).1 == Request::<T>::Receive,
        awaited(state.step(event).0.phase) == Work::Receive,
        state.step(event).0.emitted == state.emitted,
{
}

/// The render loop's decisions, for frames of a fixed number of quads.
///
/// A new renderer is idle: it waits to be told how acquiring the first frame
/// went. From then on the driver does what `step` answered and reports the
/// outcome to the next `step`.
pub struct Renderer<T> {
    phase: Phase,
    samples_per_frame: usize,
    vertices: Vertices<T>,
}

impl<T> View for Renderer<T> {
    type V = RenderModel<T>;

    closed spec fn view(&self) -> RenderModel<T> {
        RenderModel {
            phase: self.phase,
            samples_per_frame: self.samples_per_frame as nat,
            points: self.vertices.points(),
            emitted: self.vertices.emitted(),
        }
    }
}

impl<T: Copy> Renderer<T> {
    /// An idle renderer for frames of `samples_per_frame` quads, which has
    /// received no point yet; `None` for frames of no quad at all.
    pub fn new(samples_per_frame: usize) -> (r: Option<Self>)
        ensures
            r.is_some() <==> samples_per_frame > 0,
            r matches Some(renderer) ==> renderer@.valid() && renderer@ == (RenderModel::<T> {
                phase: Phase::Idle,
                samples_per_frame: samples_per_frame as nat,
                points: Seq::empty(),
                emitted: 0,
            }),
    {
        if samples_per_frame == 0 {
            None
        } else {
            assert(0nat % (4 * samples_per_frame) as nat == 0) by (nonlinear_arith)
                requires
                    samples_per_frame > 0,
            ;
            Some(Renderer { phase: Phase::Idle, samples_per_frame, vertices: lines(Vec::new()) })
        }
    }

    /// Where the loop stands.
    pub fn phase(&self) -> (r: Phase)
        ensures
            r == self@.phase,
    {
        self.phase
    }

    /// The piece of work whose outcome the next `step` is to be told. For a
    /// new renderer that is to acquire a frame.
    pub fn awaits(&self) -> (r: Work)
        ensures
            r == awaited(self@.phase),
    {
        match self.phase {
            Phase::Idle => Work::Acquire,
            Phase::FrameAcquired { image: _, drawing: false } => Work::Receive,
            Phase::FrameAcquired { image: _, drawing: true } => Work::Draw,
            Phase::Encoded { image: _ } => Work::Present,
            Phase::Presented => Work::Fence,
            Phase::Exit => Work::Nothing,
        }
    }

    /// Number of quads in a frame.
    pub fn samples_per_frame(&self) -> (r: usize)
        ensures
            r == self@.samples_per_frame,
    {
        self.samples_per_frame
    }

    /// Takes note of `event` and answers with what the driver is to do next.
    pub fn step(&mut self, event: Event<T>) -> (action: Action<T>)
        ensures
            final(self)@ == old(self)@.step(event).0,
            action@ == old(self)@.step(event).1,
            old(self)@.valid() ==> final(self)@.valid(),
    {
        proof {
            if self@.valid() {
                lemma_step_keeps_valid(self@, event);
            }
        }
        match (self.phase, event) {
            (Phase::Exit, _) => Action::Stop,
            (Phase::Idle, Event::ShutdownRequested) => {
                self.phase = Phase::Exit;
                Action::Stop
            },
            (Phase::Idle, Event::FrameReady(image)) => self.gather(image),
            (Phase::FrameAcquired { image, drawing: false }, Event::Samples(batch)) => {
                self.vertices.feed(batch);
                self.gather(image)
            },
            (Phase::FrameAcquired { image: _, drawing: false }, Event::EndOfStream) => {
                self.phase = Phase::Exit;
                Action::Stop
            },
            (Phase::FrameAcquired { image, drawing: true }, Event::Drawn) => {
                self.phase = Phase::Encoded { image };
                Action::Present { image }
            },
            (Phase::FrameAcquired { image: _, drawing: true }, Event::UpdateFailed) => {
                self.phase = Phase::Exit;
                Action::Abort(Fault::BufferUpdate)
            },
            (Phase::FrameAcquired { image: _, drawing: true }, Event::FlushFailed) => {
                self.phase = Phase::Exit;
                Action::Abort(Fault::EncoderFlush)
            },
            (Phase::Encoded { image: _ }, Event::Shown) => {
                self.phase = Phase::Presented;
                Action::WaitFence { timeout: FENCE_TIMEOUT }
            },
            (Phase::Presented, Event::FenceSignaled) => {
                self.phase = Phase::Idle;
                Action::AcquireFrame
            },
            (Phase::Presented, Event::FenceTimedOut) => {
                self.phase = Phase::Exit;
                Action::Abort(Fault::FenceTimeout)
            },
            _ => {
                self.phase = Phase::Exit;
                Action::Abort(Fault::Protocol)
            },
        }
    }

    fn gather(&mut self, image: usize) -> (action: Action<T>)
        ensures
            final(self)@ == old(self)@.gather(image).0,
            action@ == old(self)@.gather(image).1,
    {
        let ghost before = self@;
        match self.vertices.frame(self.samples_per_frame) {
            Some(vertices) => {
                assert(vertices@ =~= before.frame_vertices());
                self.phase = Phase::FrameAcquired { image, drawing: true };
                Action::Draw { image, vertices }
            },
            None => {
                self.phase = Phase::FrameAcquired { image, drawing: false };
                Action::Receive
            },
        }
    }
}

} // verus!
