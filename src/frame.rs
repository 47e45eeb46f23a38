//! The ring of in-flight frame slots, their command buffers and their
//! deferred-release queues, as an explicit state machine.
//!
//! Every operation on a [`FrameRing`] is described by one spec transition,
//! [`step`], over the ring's mathematical model [`RingView`].
use vstd::prelude::*;

verus! {

/// Number of frame slots rotated by the ring.
pub const FRAME_COUNT: usize = 2;

/// Lifecycle of one command buffer.
#[derive(Clone, Copy, Debug, PartialEq, Eq, Structural)]
pub enum CbState {
    /// Not recorded since its last completion; its fence is signaled.
    Idle,
    /// Commands are being recorded into it.
    Recording,
    /// Handed to the GPU; its fence is reset until the GPU finishes.
    Submitted,
    /// The GPU finished it, as observed through its fence.
    Complete,
}

/// Which of a frame's two command buffers an operation addresses.
#[derive(Clone, Copy, Debug, PartialEq, Eq, Structural)]
pub enum CbKind {
    Main,
    Presentation,
}

/// Where the current slot is in its frame cycle.
#[derive(Clone, Copy, Debug, PartialEq, Eq, Structural)]
pub enum SlotPhase {
    /// In the ring, held by nobody.
    Resident,
    /// `begin_frame` started; the caller waits on the slot's fences.
    AwaitingFences,
    /// Lent out to the frame being recorded.
    Lent,
}

/// Why a frame-ring operation was refused.
#[derive(Clone, Copy, Debug, PartialEq, Eq, Structural)]
pub enum FrameError {
    /// No fence wait is outstanding for the current slot.
    NotAwaitingFences,
    /// The current slot is not lent out to a frame.
    FrameNotLent,
    /// The command buffer is not in a state that allows the operation.
    InvalidCommandBufferState,
}

/// One recordable unit of GPU work, paired with the fence that tracks it.
#[derive(Clone, Copy, Debug)]
pub struct CommandBuffer {
    pub raw: u64,
    pub submit_done_fence: u64,
    pub state: CbState,
}

impl CommandBuffer {
    /// A fresh command buffer, created with its fence signaled.
    pub fn new(raw: u64, submit_done_fence: u64) -> (r: CommandBuffer)
        ensures
            r == (CommandBuffer { raw, submit_done_fence, state: CbState::Idle }),
    {
        CommandBuffer { raw, submit_done_fence, state: CbState::Idle }
    }
}

/// GPU objects whose destruction waits for their slot's fences.
pub struct PendingResourceReleases {
    pub descriptor_pools: Vec<u64>,
}

impl View for PendingResourceReleases {
    type V = Seq<u64>;

    open spec fn view(&self) -> Seq<u64> {
        self.descriptor_pools@
    }
}

impl PendingResourceReleases {
    pub fn new() -> (r: PendingResourceReleases)
        ensures
            r@ == Seq::<u64>::empty(),
    {
        PendingResourceReleases { descriptor_pools: Vec::new() }
    }

    /// Empties the queue and hands back everything that was in it, in order.
    pub fn release_all(&mut self) -> (r: Vec<u64>)
        ensures
            r@ == old(self)@,
            final(self)@ == Seq::<u64>::empty(),
    {
        let mut released: Vec<u64> = Vec::new();
        std::mem::swap(&mut released, &mut self.descriptor_pools);
        released
    }
}

/// A GPU resource that can be queued for deferred destruction.
pub trait DeferredRelease: Copy {
    /// The raw handle that is queued.
    spec fn release_handle(&self) -> u64;

    fn enqueue_release(self, pending: &mut PendingResourceReleases)
        ensures
            final(pending)@ == old(pending)@.push(self.release_handle()),
    ;
}

/// A descriptor pool, by its raw handle.
#[derive(Clone, Copy, Debug, PartialEq, Eq, Structural)]
pub struct DescriptorPool(pub u64);

impl DeferredRelease for DescriptorPool {
    open spec fn release_handle(&self) -> u64 {
        self.0
    }

    fn enqueue_release(self, pending: &mut PendingResourceReleases) {
        pending.descriptor_pools.push(self.0);
    }
}

/// The model of one frame slot.
pub struct FrameView {
    pub main: CommandBuffer,
    pub presentation: CommandBuffer,
    pub pending: Seq<u64>,
}

/// The per-slot bundle of command buffers and deferred releases.
pub struct DeviceFrame {
    pub swapchain_acquired_semaphore: Option<u64>,
    pub rendering_complete_semaphore: Option<u64>,
    pub main_command_buffer: CommandBuffer,
    pub presentation_command_buffer: CommandBuffer,
    pub pending_resource_releases: PendingResourceReleases,
}

impl View for DeviceFrame {
    type V = FrameView;

    open spec fn view(&self) -> FrameView {
        FrameView {
            main: self.main_command_buffer,
            presentation: self.presentation_command_buffer,
            pending: self.pending_resource_releases@,
        }
    }
}

impl DeviceFrame {
    /// A frame slot with two idle command buffers and nothing pending.
    pub fn new(main: CommandBuffer, presentation: CommandBuffer) -> (r: DeviceFrame)
        requires
            main.state == CbState::Idle,
            presentation.state == CbState::Idle,
        ensures
            r@ == (FrameView { main, presentation, pending: Seq::<u64>::empty() }),
            r.swapchain_acquired_semaphore is None,
            r.rendering_complete_semaphore is None,
    {
        DeviceFrame {
            swapchain_acquired_semaphore: None,
            rendering_complete_semaphore: None,
            main_command_buffer: main,
            presentation_command_buffer: presentation,
            pending_resource_releases: PendingResourceReleases::new(),
        }
    }

    fn observe_fences(&mut self) -> (r: Vec<u64>)
        ensures
            r@ == old(self)@.pending,
            final(self)@ == (FrameView {
                main: observe_fence(old(self)@.main),
                presentation: observe_fence(old(self)@.presentation),
                pending: Seq::<u64>::empty(),
            }),
    {
        if self.main_command_buffer.state == CbState::Submitted {
            self.main_command_buffer.state = CbState::Complete;
        }
        if self.presentation_command_buffer.state == CbState::Submitted {
            self.presentation_command_buffer.state = CbState::Complete;
        }
        self.pending_resource_releases.release_all()
    }

    fn command_buffer(&self, kind: CbKind) -> (r: CommandBuffer)
        ensures
            r == cb_of(self@, kind),
    {
        match kind {
            CbKind::Main => self.main_command_buffer,
            CbKind::Presentation => self.presentation_command_buffer,
        }
    }

    fn set_state(&mut self, kind: CbKind, state: CbState)
        ensures
            final(self)@ == with_state(old(self)@, kind, state),
    {
        match kind {
            CbKind::Main => self.main_command_buffer.state = state,
            CbKind::Presentation => self.presentation_command_buffer.state = state,
        }
    }
}

/// The model of the whole ring.
pub struct RingView {
    pub current: int,
    pub phase: SlotPhase,
    pub frames: Seq<FrameView>,
}

/// The operations of the ring, as seen by its model.
pub enum RingOp {
    BeginFrame,
    FencesSignaled,
    FinishFrame,
    DeferRelease(u64),
    BeginRecording(CbKind),
    Submit(CbKind),
}

/// The outcome of one operation: the next model, what was handed out for
/// destruction, and whether the operation was accepted.
pub struct Step {
    pub next: RingView,
    pub released: Seq<u64>,
    pub ok: bool,
}

pub open spec fn ring_wf(v: RingView) -> bool {
    &&& v.frames.len() == FRAME_COUNT
    &&& 0 <= v.current < FRAME_COUNT
}

pub open spec fn next_slot(i: int) -> int {
    if i + 1 == FRAME_COUNT {
        0
    } else {
        i + 1
    }
}

/// A fence wait observes every submitted buffer as complete.
pub open spec fn observe_fence(cb: CommandBuffer) -> CommandBuffer {
    if cb.state == CbState::Submitted {
        CommandBuffer { state: CbState::Complete, ..cb }
    } else {
        cb
    }
}

pub open spec fn can_record(s: CbState) -> bool {
    s == CbState::Idle || s == CbState::Complete
}

pub open spec fn cb_of(f: FrameView, k: CbKind) -> CommandBuffer {
    match k {
        CbKind::Main => f.main,
        CbKind::Presentation => f.presentation,
    }
}

pub open spec fn with_cb(f: FrameView, k: CbKind, cb: CommandBuffer) -> FrameView {
    match k {
        CbKind::Main => FrameView { main: cb, ..f },
        CbKind::Presentation => FrameView { presentation: cb, ..f },
    }
}

pub open spec fn with_state(f: FrameView, k: CbKind, s: CbState) -> FrameView {
    with_cb(f, k, CommandBuffer { state: s, ..cb_of(f, k) })
}

pub open spec fn refused(v: RingView) -> Step {
    Step { next: v, released: Seq::empty(), ok: false }
}

pub open spec fn accepted(v: RingView) -> Step {
    Step { next: v, released: Seq::empty(), ok: true }
}

pub open spec fn with_frame(v: RingView, f: FrameView) -> RingView {
    RingView { frames: v.frames.update(v.current, f), ..v }
}

/// The transition of every ring operation.
pub open spec fn step(v: RingView, op: RingOp) -> Step {
    let cur = v.frames[v.current];
    match op {
        RingOp::BeginFrame => if v.phase == SlotPhase::Resident {
            accepted(RingView { phase: SlotPhase::AwaitingFences, ..v })
        } else {
            refused(v)
        },
        RingOp::FencesSignaled => if v.phase == SlotPhase::AwaitingFences {
            Step {
                next: RingView {
                    phase: SlotPhase::Lent,
                    ..with_frame(
                        v,
                        FrameView {
                            main: observe_fence(cur.main),
                            presentation: observe_fence(cur.presentation),
                            pending: Seq::empty(),
                        },
                    )
                },
                released: cur.pending,
                ok: true,
            }
        } else {
            refused(v)
        },
        RingOp::FinishFrame => if v.phase == SlotPhase::Lent {
            accepted(RingView { current: next_slot(v.current), phase: SlotPhase::Resident, ..v })
        } else {
            refused(v)
        },
        RingOp::DeferRelease(h) => accepted(
            with_frame(v, FrameView { pending: cur.pending.push(h), ..cur }),
        ),
        RingOp::BeginRecording(k) => if v.phase == SlotPhase::Lent && can_record(
            cb_of(cur, k).state,
        ) {
            accepted(with_frame(v, with_state(cur, k, CbState::Recording)))
        } else {
            refused(v)
        },
        RingOp::Submit(k) => if v.phase == SlotPhase::Lent && cb_of(cur, k).state
            == CbState::Recording {
            accepted(with_frame(v, with_state(cur, k, CbState::Submitted)))
        } else {
            refused(v)
        },
    }
}

/// A fence wait that the caller must perform before the slot can be used.
#[derive(Clone, Copy, Debug, PartialEq, Eq, Structural)]
pub struct FenceWait {
    pub slot: usize,
    pub main_fence: u64,
    pub presentation_fence: u64,
}

/// The caller's exclusive claim on the slot of the frame in progress; only
/// the ring hands one out.
#[derive(Debug, PartialEq, Eq, Structural)]
pub struct FrameHandle {
    slot: usize,
}

impl View for FrameHandle {
    type V = usize;

    closed spec fn view(&self) -> usize {
        self.slot
    }
}

impl FrameHandle {
    /// The slot that the handle claims.
    pub fn slot(&self) -> (r: usize)
        ensures
            r == self@,
    {
        self.slot
    }
}

/// What the caller receives once the slot's fences are signaled.
pub struct BegunFrame {
    pub handle: FrameHandle,
    /// Resources that are now safe to destroy.
    pub released: Vec<u64>,
}

/// The fixed ring of frame slots with one explicit checked-out flag.
pub struct FrameRing {
    frame0: DeviceFrame,
    frame1: DeviceFrame,
    current: usize,
    phase: SlotPhase,
}

impl View for FrameRing {
    type V = RingView;

    closed spec fn view(&self) -> RingView {
        RingView {
            current: self.current as int,
            phase: self.phase,
            frames: seq![self.frame0@, self.frame1@],
        }
    }
}

impl FrameRing {
    pub open spec fn wf(&self) -> bool {
        ring_wf(self@)
    }

    /// A ring over two fresh slots; slot 0 comes first.
    pub fn new(frame0: DeviceFrame, frame1: DeviceFrame) -> (r: FrameRing)
        ensures
            r.wf(),
            r@ == (RingView {
                current: 0,
                phase: SlotPhase::Resident,
                frames: seq![frame0@, frame1@],
            }),
    {
        FrameRing { frame0, frame1, current: 0, phase: SlotPhase::Resident }
    }

    /// The slot that the next (or running) frame uses.
    pub fn current_slot(&self) -> (r: usize)
        requires
            self.wf(),
        ensures
            r == self@.current,
    {
        self.current
    }

    /// The phase of the current slot.
    pub fn phase(&self) -> (r: SlotPhase)
        ensures
            r == self@.phase,
    {
        self.phase
    }

    /// Read access to one slot.
    pub fn frame(&self, slot: usize) -> (r: &DeviceFrame)
        requires
            slot < FRAME_COUNT,
        ensures
            r@ == self@.frames[slot as int],
    {
        if slot == 0 {
            &self.frame0
        } else {
            &self.frame1
        }
    }

    fn current_frame(&self) -> (r: &DeviceFrame)
        requires
            self.wf(),
        ensures
            r@ == self@.frames[self@.current],
    {
        if self.current == 0 {
            &self.frame0
        } else {
            &self.frame1
        }
    }

    /// Whether a frame holds the current slot (or is acquiring it); a new
    /// frame may begin only when it does not.
    pub fn frame_held(&self) -> (r: bool)
        ensures
            r == (self@.phase != SlotPhase::Resident),
    {
        self.phase != SlotPhase::Resident
    }

    /// Starts a frame on the current slot, which no frame may hold, and names
    /// the two fences that must be waited on.
    pub fn begin_frame(&mut self) -> (r: FenceWait)
        requires
            old(self).wf(),
            old(self)@.phase == SlotPhase::Resident,
        ensures
            final(self).wf(),
            final(self)@ == step(old(self)@, RingOp::BeginFrame).next,
            r.slot == old(self)@.current,
            r.main_fence == old(self)@.frames[old(self)@.current].main.submit_done_fence,
            r.presentation_fence == old(self)@.frames[old(self)@.current].presentation.submit_done_fence,
    {
        self.phase = SlotPhase::AwaitingFences;
        let f = self.current_frame();
        FenceWait {
            slot: self.current,
            main_fence: f.main_command_buffer.submit_done_fence,
            presentation_fence: f.presentation_command_buffer.submit_done_fence,
        }
    }

    /// Completes `begin_frame` once the caller has seen both fences signaled:
    /// lends the slot out and hands back its deferred releases for destruction.
    pub fn fences_signaled(&mut self) -> (r: Result<BegunFrame, FrameError>)
        requires
            old(self).wf(),
        ensures
            final(self).wf(),
            final(self)@ == step(old(self)@, RingOp::FencesSignaled).next,
            r is Ok <==> old(self)@.phase == SlotPhase::AwaitingFences,
            r matches Err(e) ==> e == FrameError::NotAwaitingFences,
            r matches Ok(b) ==> b.handle@ == old(self)@.current && b.released@ == step(
                old(self)@,
                RingOp::FencesSignaled,
            ).released,
    {
        if self.phase != SlotPhase::AwaitingFences {
            return Err(FrameError::NotAwaitingFences);
        }
        let released = if self.current == 0 {
            self.frame0.observe_fences()
        } else {
            self.frame1.observe_fences()
        };
        self.phase = SlotPhase::Lent;
        proof {
            assert(self@.frames =~= step(old(self)@, RingOp::FencesSignaled).next.frames);
        }
        Ok(BegunFrame { handle: FrameHandle { slot: self.current }, released })
    }

    /// Ends the frame that holds `frame`, which must be the lent-out slot,
    /// and rotates the ring to the next slot.
    pub fn finish_frame(&mut self, frame: FrameHandle)
        requires
            old(self).wf(),
            old(self)@.phase == SlotPhase::Lent,
            frame@ == old(self)@.current,
        ensures
            final(self).wf(),
            final(self)@ == step(old(self)@, RingOp::FinishFrame).next,
    {
        self.current = if self.current + 1 == FRAME_COUNT {
            0
        } else {
            self.current + 1
        };
        self.phase = SlotPhase::Resident;
    }

    /// Whether `frame` may be finished now: it names the lent-out slot.
    pub fn can_finish(&self, frame: &FrameHandle) -> (r: bool)
        requires
            self.wf(),
        ensures
            r == (self@.phase == SlotPhase::Lent && frame@ == self@.current),
    {
        self.phase == SlotPhase::Lent && frame.slot == self.current
    }

    /// Queues `resource` for destruction when the current slot next passes
    /// its fence wait.
    pub fn defer_release<R: DeferredRelease>(&mut self, resource: R)
        requires
            old(self).wf(),
        ensures
            final(self).wf(),
            final(self)@ == step(old(self)@, RingOp::DeferRelease(resource.release_handle())).next,
    {
        if self.current == 0 {
            resource.enqueue_release(&mut self.frame0.pending_resource_releases);
        } else {
            resource.enqueue_release(&mut self.frame1.pending_resource_releases);
        }
        proof {
            assert(self@.frames =~= step(
                old(self)@,
                RingOp::DeferRelease(resource.release_handle()),
            ).next.frames);
        }
    }

    /// Starts recording into one command buffer of the lent slot; returns its raw handle.
    pub fn begin_recording(&mut self, kind: CbKind) -> (r: Result<u64, FrameError>)
        requires
            old(self).wf(),
        ensures
            final(self).wf(),
            final(self)@ == step(old(self)@, RingOp::BeginRecording(kind)).next,
            r is Ok <==> step(old(self)@, RingOp::BeginRecording(kind)).ok,
            r matches Ok(raw) ==> raw == cb_of(old(self)@.frames[old(self)@.current], kind).raw,
            r matches Err(e) ==> (e == FrameError::FrameNotLent <==> old(self)@.phase
                != SlotPhase::Lent) && (e == FrameError::FrameNotLent || e
                == FrameError::InvalidCommandBufferState),
    {
        if self.phase != SlotPhase::Lent {
            return Err(FrameError::FrameNotLent);
        }
        let cb = self.current_frame().command_buffer(kind);
        if !(cb.state == CbState::Idle || cb.state == CbState::Complete) {
            return Err(FrameError::InvalidCommandBufferState);
        }
        if self.current == 0 {
            self.frame0.set_state(kind, CbState::Recording);
        } else {
            self.frame1.set_state(kind, CbState::Recording);
        }
        proof {
            assert(self@.frames =~= step(old(self)@, RingOp::BeginRecording(kind)).next.frames);
        }
        Ok(cb.raw)
    }

    /// Marks a recorded command buffer of the lent slot as submitted; returns
    /// the fence that the submission must signal.
    pub fn submit(&mut self, kind: CbKind) -> (r: Result<u64, FrameError>)
        requires
            old(self).wf(),
        ensures
            final(self).wf(),
            final(self)@ == step(old(self)@, RingOp::Submit(kind)).next,
            r is Ok <==> step(old(self)@, RingOp::Submit(kind)).ok,
            r matches Ok(fence) ==> fence == cb_of(
                old(self)@.frames[old(self)@.current],
                kind,
            ).submit_done_fence,
            r matches Err(e) ==> (e == FrameError::FrameNotLent <==> old(self)@.phase
                != SlotPhase::Lent) && (e == FrameError::FrameNotLent || e
                == FrameError::InvalidCommandBufferState),
    {
        if self.phase != SlotPhase::Lent {
            return Err(FrameError::FrameNotLent);
        }
        let cb = self.current_frame().command_buffer(kind);
        if cb.state != CbState::Recording {
            return Err(FrameError::InvalidCommandBufferState);
        }
        if self.current == 0 {
            self.frame0.set_state(kind, CbState::Submitted);
        } else {
            self.frame1.set_state(kind, CbState::Submitted);
        }
        proof {
            assert(self@.frames =~= step(old(self)@, RingOp::Submit(kind)).next.frames);
        }
        Ok(cb.submit_done_fence)
    }
}

} // verus!

verus! {

/// The model after a sequence of operations.
pub open spec fn run(v: RingView, ops: Seq<RingOp>) -> RingView
    decreases ops.len(),
{
    if ops.len() == 0 {
        v
    } else {
        run(step(v, ops[0]).next, ops.drop_first())
    }
}

/// Whether, along `ops`, slot `k` passes an accepted fence wait.
pub open spec fn waits_on(v: RingView, ops: Seq<RingOp>, k: int) -> bool
    decreases ops.len(),
{
    if ops.len() == 0 {
        false
    } else {
        (ops[0] == RingOp::FencesSignaled && v.phase == SlotPhase::AwaitingFences && v.current
            == k) || waits_on(step(v, ops[0]).next, ops.drop_first(), k)
    }
}

/// Whether a slot still has work on the GPU that no fence wait has observed.
pub open spec fn busy(f: FrameView) -> bool {
    f.main.state == CbState::Submitted || f.presentation.state == CbState::Submitted
}

/// Number of slots with unobserved GPU work.
pub open spec fn outstanding(v: RingView) -> nat {
    (if busy(v.frames[0]) { 1nat } else { 0nat }) + (if busy(v.frames[1]) { 1nat } else { 0nat })
}

/// One complete frame: begin, wait, record and submit both command buffers, finish.
pub open spec fn frame_cycle(v: RingView) -> RingView {
    let a = step(v, RingOp::BeginFrame).next;
    let b = step(a, RingOp::FencesSignaled).next;
    let c = step(b, RingOp::BeginRecording(CbKind::Main)).next;
    let d = step(c, RingOp::Submit(CbKind::Main)).next;
    let e = step(d, RingOp::BeginRecording(CbKind::Presentation)).next;
    let f = step(e, RingOp::Submit(CbKind::Presentation)).next;
    step(f, RingOp::FinishFrame).next
}

pub open spec fn run_cycles(v: RingView, n: nat) -> RingView
    decreases n,
{
    if n == 0 {
        v
    } else {
        run_cycles(frame_cycle(v), (n - 1) as nat)
    }
}

/// Every operation keeps the ring well formed.
pub proof fn lemma_step_wf(v: RingView, op: RingOp)
    requires
        ring_wf(v),
    ensures
        ring_wf(step(v, op).next),
{
}

/// A complete frame leaves the ring unheld and moves it on by one slot.
pub proof fn lemma_frame_cycle(v: RingView)
    requires
        ring_wf(v),
        v.phase == SlotPhase::Resident,
    ensures
        ring_wf(frame_cycle(v)),
        frame_cycle(v).phase == SlotPhase::Resident,
        frame_cycle(v).current == next_slot(v.current),
{
}

/// Frame pacing: after any number of complete frames, `begin_frame` is
/// accepted and waits on the fences of the current slot alone; once that wait
/// is over, at most one slot (N - 1 frames) still has work on the GPU.
pub proof fn lemma_bounded_frames_in_flight(v: RingView, n: nat)
    requires
        ring_wf(v),
        v.phase == SlotPhase::Resident,
    ensures
        ring_wf(run_cycles(v, n)),
        run_cycles(v, n).phase == SlotPhase::Resident,
        step(run_cycles(v, n), RingOp::BeginFrame).ok,
        outstanding(
            step(step(run_cycles(v, n), RingOp::BeginFrame).next, RingOp::FencesSignaled).next,
        ) <= 1,
    decreases n,
{
    if n > 0 {
        lemma_frame_cycle(v);
        lemma_bounded_frames_in_flight(frame_cycle(v), (n - 1) as nat);
    }
}

/// Deferred releases wait for the fence: along any operations in which slot
/// `k` passes no fence wait, its release queue only grows; what it held stays
/// queued, in order.
pub proof fn lemma_release_waits_for_fence(v: RingView, ops: Seq<RingOp>, k: int)
    requires
        ring_wf(v),
        0 <= k < FRAME_COUNT,
        !waits_on(v, ops, k),
    ensures
        ring_wf(run(v, ops)),
        v.frames[k].pending.is_prefix_of(run(v, ops).frames[k].pending),
    decreases ops.len(),
{
    if ops.len() > 0 {
        let w = step(v, ops[0]).next;
        assert(v.frames[k].pending.is_prefix_of(w.frames[k].pending));
        lemma_release_waits_for_fence(w, ops.drop_first(), k);
    }
}

/// A resource deferred while a slot is current stays queued on that slot
/// through any operations in which the slot passes no fence wait.
pub proof fn lemma_deferred_resource_held(v: RingView, h: u64, ops: Seq<RingOp>)
    requires
        ring_wf(v),
        !waits_on(step(v, RingOp::DeferRelease(h)).next, ops, v.current),
    ensures
        run(step(v, RingOp::DeferRelease(h)).next, ops).frames[v.current].pending.contains(h),
{
    let w = step(v, RingOp::DeferRelease(h)).next;
    let q = w.frames[v.current].pending;
    assert(q[q.len() - 1] == h);
    lemma_release_waits_for_fence(w, ops, v.current);
    let r = run(w, ops).frames[v.current].pending;
    assert(r[q.len() - 1] == h);
}

/// A submitted command buffer is never recorded again before a fence wait
/// has observed it complete.
pub proof fn lemma_no_recording_while_submitted(v: RingView, k: CbKind)
    requires
        ring_wf(v),
        cb_of(v.frames[v.current], k).state == CbState::Submitted,
    ensures
        !step(v, RingOp::BeginRecording(k)).ok,
        step(v, RingOp::BeginRecording(k)).next == v,
{
}

/// Deferred releases are handed out at the fence wait: the accepted wait of
/// a slot hands out exactly its queue and empties it, and nothing else
/// hands anything out.
pub proof fn lemma_release_at_fence_wait(v: RingView, op: RingOp)
    requires
        ring_wf(v),
    ensures
        step(v, op).released.len() > 0 ==> op == RingOp::FencesSignaled && v.phase
            == SlotPhase::AwaitingFences,
        op == RingOp::FencesSignaled && v.phase == SlotPhase::AwaitingFences ==> step(
            v,
            op,
        ).released == v.frames[v.current].pending && step(v, op).next.frames[v.current].pending
            == Seq::<u64>::empty(),
{
}

/// A frame slot cannot be begun twice: after `begin_frame`, and until
/// `finish_frame`, the slot is held, both while its fences are awaited and
/// once it is lent out, so `begin_frame`'s precondition (slot not held) is
/// false and the step is refused.
pub proof fn lemma_begin_twice_refused(v: RingView)
    requires
        ring_wf(v),
        v.phase == SlotPhase::Resident,
    ensures
        step(v, RingOp::BeginFrame).ok,
        step(v, RingOp::BeginFrame).next.phase != SlotPhase::Resident,
        !step(step(v, RingOp::BeginFrame).next, RingOp::BeginFrame).ok,
        step(step(v, RingOp::BeginFrame).next, RingOp::FencesSignaled).ok,
        step(step(v, RingOp::BeginFrame).next, RingOp::FencesSignaled).next.phase
            != SlotPhase::Resident,
        !step(
            step(step(v, RingOp::BeginFrame).next, RingOp::FencesSignaled).next,
            RingOp::BeginFrame,
        ).ok,
{
}

/// Ring rotation: starting on slot 0, two complete frames use slot 0, then
/// slot 1, and the third begins on slot 0 again.
pub proof fn lemma_ring_rotation(v: RingView)
    requires
        ring_wf(v),
        v.current == 0,
        v.phase == SlotPhase::Resident,
    ensures
        frame_cycle(v).current == 1,
        frame_cycle(frame_cycle(v)).current == 0,
        frame_cycle(frame_cycle(v)).phase == SlotPhase::Resident,
{
    lemma_frame_cycle(v);
    lemma_frame_cycle(frame_cycle(v));
}

} // verus!
