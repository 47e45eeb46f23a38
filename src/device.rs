//! The device: capability planning, queue selection, and the frame ring,
//! sampler cache and setup command buffer that it owns.
use vstd::prelude::*;

use crate::features::{
    bundle_available, device_feature_table, device_table, enabled_extension_names,
    enabled_extensions, first_missing_mandatory, flags_satisfied, mandatory_satisfied,
    missing_mandatory, names, negotiate_features, table_view, unset_feature_flag, BundleView,
    DeviceCreateError, FeatureBundle, FeatureFlag, RAY_TRACING_BUNDLE,
};
use crate::frame::{
    outstanding, ring_wf, step, BegunFrame, CbKind, CbState, CommandBuffer, DeferredRelease,
    DeviceFrame, FenceWait, FrameError, FrameHandle, FrameRing, RingOp, RingView, SlotPhase,
};
use crate::sampler::{cache_wf, desc_index, SamplerCache, SamplerDesc};
use crate::RESERVED_DESCRIPTOR_COUNT;

verus! {

/// Upper bound on the bindless descriptor count, whatever the device allows.
pub const MAX_BINDLESS_DESCRIPTORS: u32 = 512 * 1024;

/// The graphics bit of a queue family's capability flags.
pub open spec fn graphics_capable(flags: u32) -> bool {
    flags & 1u32 == 1u32
}

/// Relies on ash's `vk::QueueFlags::contains` with `vk::QueueFlags::GRAPHICS`
/// (the bit `0b1`): true when every bit of the second set is in the first.
#[verifier::external_body]
fn supports_graphics(flags: u32) -> (r: bool)
    ensures
        r == graphics_capable(flags),
{
    ash::vk::QueueFlags::from_raw(flags).contains(ash::vk::QueueFlags::GRAPHICS)
}

/// The first queue family that advertises graphics capability.
pub fn select_universal_queue(queue_family_flags: &Vec<u32>) -> (r: Result<usize, DeviceCreateError>)
    ensures
        r is Ok <==> exists|i: int| 0 <= i < queue_family_flags@.len() && graphics_capable(
            #[trigger] queue_family_flags@[i],
        ),
        r matches Ok(i) ==> i < queue_family_flags@.len() && graphics_capable(queue_family_flags@[i as int])
            && forall|k: int| 0 <= k < i ==> !graphics_capable(#[trigger] queue_family_flags@[k]),
        r matches Err(e) ==> e == DeviceCreateError::NoSuitableQueue,
{
    let mut i: usize = 0;
    while i < queue_family_flags.len()
        invariant
            i <= queue_family_flags@.len(),
            forall|k: int| 0 <= k < i ==> !graphics_capable(#[trigger] queue_family_flags@[k]),
        decreases queue_family_flags.len() - i,
    {
        if supports_graphics(queue_family_flags[i]) {
            return Ok(i);
        }
        i += 1;
    }
    Err(DeviceCreateError::NoSuitableQueue)
}

/// What device creation settled on before any device object exists. Only
/// [`plan_device`] makes one, so every plan is [`planned`] from the inputs
/// it records.
pub struct DevicePlan {
    table: Vec<FeatureBundle>,
    enabled: Vec<bool>,
    extensions: Vec<String>,
    ray_tracing_enabled: bool,
    queue_family_index: usize,
    presentation_requested: bool,
    supported: Ghost<Seq<Seq<char>>>,
    queue_family_flags: Ghost<Seq<u32>>,
}

/// `i` is the first graphics-capable family of `flags`.
pub open spec fn first_graphics(flags: Seq<u32>, i: int) -> bool {
    &&& 0 <= i < flags.len()
    &&& graphics_capable(flags[i])
    &&& forall|k: int| 0 <= k < i ==> !graphics_capable(#[trigger] flags[k])
}

/// The plan is the one that steps one to four of device creation give for
/// its recorded inputs: every mandatory extension is supported, each bundle
/// is enabled exactly when all of its members are, the extension list is
/// that of the enabled bundles in table order, and the queue family is the
/// first graphics-capable one.
pub open spec fn planned(p: &DevicePlan) -> bool {
    let t = device_table(p.presenting());
    &&& mandatory_satisfied(t, p.supported_names())
    &&& p.bundles() == t
    &&& p.enabled_bundles() == availability(t, p.supported_names())
    &&& p.rt_planned() == bundle_available(t[RAY_TRACING_BUNDLE as int], p.supported_names())
    &&& p.extension_names() == enabled_extensions(t, p.enabled_bundles())
    &&& first_graphics(p.family_flags(), p.planned_queue() as int)
}

impl DevicePlan {
    /// The supported extensions the plan was made from.
    pub closed spec fn supported_names(&self) -> Seq<Seq<char>> {
        self.supported@
    }

    pub closed spec fn presenting(&self) -> bool {
        self.presentation_requested
    }

    /// The queue families' capability flags the plan was made from.
    pub closed spec fn family_flags(&self) -> Seq<u32> {
        self.queue_family_flags@
    }

    pub closed spec fn bundles(&self) -> Seq<BundleView> {
        table_view(self.table@)
    }

    pub closed spec fn enabled_bundles(&self) -> Seq<bool> {
        self.enabled@
    }

    pub closed spec fn extension_names(&self) -> Seq<Seq<char>> {
        names(self.extensions@)
    }

    pub closed spec fn rt_planned(&self) -> bool {
        self.ray_tracing_enabled
    }

    pub closed spec fn planned_queue(&self) -> usize {
        self.queue_family_index
    }

    /// The negotiation table.
    pub fn table(&self) -> (r: &Vec<FeatureBundle>)
        ensures
            table_view(r@) == self.bundles(),
    {
        &self.table
    }

    /// The device extensions to enable.
    pub fn extensions(&self) -> (r: &Vec<String>)
        ensures
            names(r@) == self.extension_names(),
    {
        &self.extensions
    }

    pub fn ray_tracing_enabled(&self) -> (r: bool)
        ensures
            r == self.rt_planned(),
    {
        self.ray_tracing_enabled
    }

    pub fn queue_family_index(&self) -> (r: usize)
        ensures
            r == self.planned_queue(),
    {
        self.queue_family_index
    }

    /// Whether presentation was requested.
    pub fn presentation_requested(&self) -> (r: bool)
        ensures
            r == self.presenting(),
    {
        self.presentation_requested
    }
}

/// Which bundles of `t` are fully supported, bundle by bundle.
pub open spec fn availability(t: Seq<BundleView>, supported: Seq<Seq<char>>) -> Seq<bool> {
    Seq::new(t.len(), |i: int| bundle_available(t[i], supported))
}

/// A mandatory device extension that `supported` lacks, if any: device
/// creation must not go on when there is one.
pub fn missing_device_extension(supported: &Vec<String>, presentation_requested: bool) -> (r: Option<String>)
    ensures
        r is None <==> mandatory_satisfied(device_table(presentation_requested), names(supported@)),
        r matches Some(name) ==> missing_mandatory(
            device_table(presentation_requested),
            names(supported@),
            name@,
        ),
{
    first_missing_mandatory(&device_feature_table(presentation_requested), supported)
}

/// Decides the extension set and the queue family. Every mandatory extension
/// must be supported; the lack of a graphics queue is the one recoverable
/// failure. The ray-tracing bundle is enabled exactly when all of its members
/// are supported.
pub fn plan_device(
    supported: &Vec<String>,
    presentation_requested: bool,
    queue_family_flags: &Vec<u32>,
) -> (r: Result<DevicePlan, DeviceCreateError>)
    requires
        mandatory_satisfied(device_table(presentation_requested), names(supported@)),
    ensures
        r is Ok <==> exists|i: int| 0 <= i < queue_family_flags@.len() && graphics_capable(
            #[trigger] queue_family_flags@[i],
        ),
        r matches Err(e) ==> e == DeviceCreateError::NoSuitableQueue,
        r matches Ok(p) ==> {
            &&& planned(&p)
            &&& p.supported_names() == names(supported@)
            &&& p.presenting() == presentation_requested
            &&& p.family_flags() == queue_family_flags@
        },
{
    let table = device_feature_table(presentation_requested);
    let enabled = negotiate_features(&table, supported);
    let extensions = enabled_extension_names(&table, &enabled);
    let queue_family_index = match select_universal_queue(queue_family_flags) {
        Ok(i) => i,
        Err(e) => return Err(e),
    };
    proof {
        assert(table_view(table@).len() == table@.len());
        assert(device_table(presentation_requested).len() >= 2);
    }
    let ray_tracing_enabled = enabled[RAY_TRACING_BUNDLE];
    proof {
        assert(table_view(table@)[RAY_TRACING_BUNDLE as int] == table@[RAY_TRACING_BUNDLE as int]@);
        assert forall|i: int| 0 <= i < table@.len() implies enabled@[i] == availability(
            device_table(presentation_requested),
            names(supported@),
        )[i] by {
            assert(table_view(table@)[i] == table@[i]@);
        }
        assert(enabled@ =~= availability(device_table(presentation_requested), names(supported@)));
    }
    Ok(
        DevicePlan {
            table,
            enabled,
            extensions,
            ray_tracing_enabled,
            queue_family_index,
            presentation_requested,
            supported: Ghost(names(supported@)),
            queue_family_flags: Ghost(queue_family_flags@),
        },
    )
}

impl DevicePlan {
    /// A feature flag that an enabled bundle needs and the device reports
    /// off, if any: device creation must not go on when there is one.
    pub fn unset_feature(&self, reported: &Vec<FeatureFlag>) -> (r: Option<FeatureFlag>)
        requires
            planned(self),
        ensures
            r is None <==> flags_satisfied(self.bundles(), self.enabled_bundles(), reported@),
            r matches Some(f) ==> !reported@.contains(f) && exists|i: int, j: int|
                0 <= i < self.bundles().len() && self.enabled_bundles()[i] && 0 <= j
                    < self.bundles()[i].feature_flags.len() && #[trigger] self.bundles()[i].feature_flags[j]
                    == f,
    {
        proof {
            assert(table_view(self.table@).len() == self.table@.len());
        }
        let r = unset_feature_flag(&self.table, &self.enabled, reported);
        proof {
            if let Some(f) = r {
                let (i, j) = choose|i: int, j: int|
                    0 <= i < self.table@.len() && self.enabled@[i] && 0 <= j
                        < self.table@[i].feature_flags@.len() && #[trigger] self.table@[i].feature_flags@[j]
                        == f;
                assert(self.bundles()[i] == self.table@[i]@);
                assert(self.bundles()[i].feature_flags[j] == f);
            }
        }
        r
    }
}

/// A missing mandatory extension stops creation: with one of the core
/// extensions (or, when presentation is requested, the swapchain extension)
/// absent, `missing_device_extension` names a missing one and `plan_device`'s
/// precondition is false, so no plan, hence no device, comes into being.
pub proof fn lemma_missing_mandatory_fails(
    supported: Seq<Seq<char>>,
    presentation_requested: bool,
    name: Seq<char>,
)
    requires
        !supported.contains(name),
        crate::features::core_extensions().contains(name) || (presentation_requested && name
            == "VK_KHR_swapchain"@),
    ensures
        !mandatory_satisfied(device_table(presentation_requested), supported),
        missing_mandatory(device_table(presentation_requested), supported, name),
{
    let t = device_table(presentation_requested);
    if crate::features::core_extensions().contains(name) {
        let j = choose|j: int|
            0 <= j < crate::features::core_extensions().len()
                && crate::features::core_extensions()[j] == name;
        assert(t[0].extensions[j] == name);
        assert(!bundle_available(t[0], supported));
        assert(t[0].mandatory);
    } else {
        assert(t[2].extensions[0] == name);
        assert(!bundle_available(t[2], supported));
        assert(t[2].mandatory);
    }
}

/// No plan, hence no device, exists without the mandatory extensions: every
/// plan (the only input `Device::create` accepts) was made from a supported
/// set that holds each core extension, and the swapchain extension when
/// presentation was requested.
pub proof fn lemma_plan_has_mandatory(p: &DevicePlan, name: Seq<char>)
    requires
        planned(p),
        crate::features::core_extensions().contains(name) || (p.presenting() && name
            == "VK_KHR_swapchain"@),
    ensures
        p.supported_names().contains(name),
{
    if !p.supported_names().contains(name) {
        lemma_missing_mandatory_fails(p.supported_names(), p.presenting(), name);
    }
}

/// An incomplete ray-tracing bundle is no failure. With every mandatory
/// extension present, some ray-tracing member absent and the core feature
/// flags on, the bundle is disabled and the flags satisfy every enabled
/// bundle. So, by the contracts: `plan_device` may be called and returns
/// `Ok` (given a graphics queue) with a plan whose ray tracing is off;
/// `unset_feature` finds nothing on that plan; and `Device::create` on that
/// plan (the only kind there is) returns `Ok` (given eight distinct non-null
/// samplers) with ray tracing off.
pub proof fn lemma_partial_ray_tracing_disabled(
    supported: Seq<Seq<char>>,
    presentation_requested: bool,
    absent: Seq<char>,
    reported: Seq<FeatureFlag>,
)
    requires
        mandatory_satisfied(device_table(presentation_requested), supported),
        crate::features::ray_tracing_extensions().contains(absent),
        !supported.contains(absent),
        forall|j: int| 0 <= j < crate::features::core_flags().len() ==> reported.contains(
            #[trigger] crate::features::core_flags()[j],
        ),
    ensures
        !bundle_available(device_table(presentation_requested)[RAY_TRACING_BUNDLE as int], supported),
        !availability(device_table(presentation_requested), supported)[RAY_TRACING_BUNDLE as int],
        flags_satisfied(
            device_table(presentation_requested),
            availability(device_table(presentation_requested), supported),
            reported,
        ),
{
    let t = device_table(presentation_requested);
    let j = choose|j: int|
        0 <= j < crate::features::ray_tracing_extensions().len()
            && crate::features::ray_tracing_extensions()[j] == absent;
    assert(t[1].extensions[j] == absent);
    let en = availability(t, supported);
    assert forall|a: int, b: int|
        0 <= a < t.len() && a < en.len() && en[a] && 0 <= b < t[a].feature_flags.len()
            implies reported.contains(#[trigger] t[a].feature_flags[b]) by {
        assert(a != 1);
        if a == 0 {
            assert(t[0].feature_flags[b] == crate::features::core_flags()[b]);
        } else {
            assert(t[2].feature_flags.len() == 0);
        }
    }
}

/// The device's own state: the frame ring, the immutable samplers, the
/// setup command buffer and the capabilities fixed at creation.
pub struct Device {
    frames: FrameRing,
    immutable_samplers: SamplerCache,
    setup_cb: CommandBuffer,
    features: Vec<FeatureFlag>,
    extensions: Vec<String>,
    ray_tracing_enabled: bool,
    queue_family_index: usize,
    max_per_stage_descriptor_sampled_images: u32,
}

impl Device {
    pub closed spec fn ring(&self) -> RingView {
        self.frames@
    }

    pub closed spec fn samplers(&self) -> Seq<u64> {
        self.immutable_samplers@
    }

    /// The setup command buffer, with its state.
    pub closed spec fn setup_cb(&self) -> CommandBuffer {
        self.setup_cb
    }

    pub open spec fn setup_state(&self) -> CbState {
        self.setup_cb().state
    }

    pub closed spec fn features(&self) -> Seq<FeatureFlag> {
        self.features@
    }

    /// The device extensions enabled at creation.
    pub closed spec fn enabled_extension_names(&self) -> Seq<Seq<char>> {
        names(self.extensions@)
    }

    pub closed spec fn rt_enabled(&self) -> bool {
        self.ray_tracing_enabled
    }

    pub closed spec fn queue_family(&self) -> usize {
        self.queue_family_index
    }

    pub closed spec fn sampled_image_limit(&self) -> u32 {
        self.max_per_stage_descriptor_sampled_images
    }

    pub open spec fn wf(&self) -> bool {
        ring_wf(self.ring()) && cache_wf(self.samplers())
    }

    /// What is fixed at creation is the same in `self` and `other`.
    pub open spec fn same_config(&self, other: &Device) -> bool {
        &&& self.samplers() == other.samplers()
        &&& self.features() == other.features()
        &&& self.enabled_extension_names() == other.enabled_extension_names()
        &&& self.rt_enabled() == other.rt_enabled()
        &&& self.queue_family() == other.queue_family()
        &&& self.sampled_image_limit() == other.sampled_image_limit()
    }

    /// The setup command buffer with only its state changed.
    pub open spec fn setup_moved_to(&self, before: &Device, state: CbState) -> bool {
        self.setup_cb() == (CommandBuffer { state, ..before.setup_cb() })
    }

    /// Assembles the device from the plan and the objects made for it: two
    /// fresh frame slots, the samplers for `sampler_descs` in order, the
    /// setup command buffer, and the feature flags enabled on the device,
    /// which must include every flag that an enabled bundle needs. Refuses
    /// samplers that are not eight distinct, non-null handles.
    ///
    /// The plan carries the supported extensions, whether presentation was
    /// requested, and the queue families' flags, and the result is stated
    /// over them.
    pub fn create(
        plan: DevicePlan,
        features: Vec<FeatureFlag>,
        frame0: DeviceFrame,
        frame1: DeviceFrame,
        samplers: Vec<u64>,
        setup_cb: CommandBuffer,
        max_per_stage_descriptor_sampled_images: u32,
    ) -> (r: Result<Device, DeviceCreateError>)
        requires
            planned(&plan),
            flags_satisfied(
                device_table(plan.presenting()),
                availability(device_table(plan.presenting()), plan.supported_names()),
                features@,
            ),
            frame0@.main.state == CbState::Idle,
            frame0@.presentation.state == CbState::Idle,
            frame0@.pending.len() == 0,
            frame1@.main.state == CbState::Idle,
            frame1@.presentation.state == CbState::Idle,
            frame1@.pending.len() == 0,
            setup_cb.state == CbState::Idle,
        ensures
            r is Ok <==> cache_wf(samplers@),
            r matches Err(e) ==> e == DeviceCreateError::InvalidSamplers,
            r matches Ok(d) ==> {
                let t = device_table(plan.presenting());
                let supported = plan.supported_names();
                &&& d.wf()
                &&& d.ring() == (RingView {
                    current: 0,
                    phase: SlotPhase::Resident,
                    frames: seq![frame0@, frame1@],
                })
                &&& d.ring().frames[0].pending.len() == 0
                &&& d.ring().frames[1].pending.len() == 0
                &&& outstanding(d.ring()) == 0
                &&& d.samplers() == samplers@
                &&& d.setup_cb() == setup_cb
                &&& d.features() == features@
                &&& flags_satisfied(t, availability(t, supported), d.features())
                &&& d.rt_enabled() == bundle_available(t[RAY_TRACING_BUNDLE as int], supported)
                &&& d.enabled_extension_names() == enabled_extensions(t, availability(t, supported))
                &&& first_graphics(plan.family_flags(), d.queue_family() as int)
                &&& d.sampled_image_limit() == max_per_stage_descriptor_sampled_images
            },
    {
        let immutable_samplers = match SamplerCache::new(samplers) {
            Ok(c) => c,
            Err(e) => return Err(e),
        };
        let frames = FrameRing::new(frame0, frame1);
        Ok(
            Device {
                frames,
                immutable_samplers,
                setup_cb,
                features,
                extensions: plan.extensions,
                ray_tracing_enabled: plan.ray_tracing_enabled,
                queue_family_index: plan.queue_family_index,
                max_per_stage_descriptor_sampled_images,
            },
        )
    }

    /// The device extensions enabled at creation.
    pub fn extensions(&self) -> (r: &Vec<String>)
        ensures
            names(r@) == self.enabled_extension_names(),
    {
        &self.extensions
    }

    /// The cached sampler for `desc`.
    pub fn get_sampler(&self, desc: SamplerDesc) -> (r: u64)
        requires
            self.wf(),
        ensures
            r == self.samplers()[desc_index(desc)],
    {
        self.immutable_samplers.get_sampler(desc)
    }

    /// See [`FrameRing::begin_frame`]: the current slot must not be held.
    pub fn begin_frame(&mut self) -> (r: FenceWait)
        requires
            old(self).wf(),
            old(self).ring().phase == SlotPhase::Resident,
        ensures
            final(self).wf(),
            final(self).ring() == step(old(self).ring(), RingOp::BeginFrame).next,
            final(self).same_config(old(self)),
            final(self).setup_cb() == old(self).setup_cb(),
            r.slot == old(self).ring().current,
            r.main_fence == old(self).ring().frames[old(self).ring().current].main.submit_done_fence,
            r.presentation_fence == old(self).ring().frames[old(
                self,
            ).ring().current].presentation.submit_done_fence,
    {
        self.frames.begin_frame()
    }

    /// See [`FrameRing::fences_signaled`].
    pub fn fences_signaled(&mut self) -> (r: Result<BegunFrame, FrameError>)
        requires
            old(self).wf(),
        ensures
            final(self).wf(),
            final(self).ring() == step(old(self).ring(), RingOp::FencesSignaled).next,
            final(self).same_config(old(self)),
            final(self).setup_cb() == old(self).setup_cb(),
            r is Ok <==> old(self).ring().phase == SlotPhase::AwaitingFences,
            r matches Err(e) ==> e == FrameError::NotAwaitingFences,
            r matches Ok(b) ==> b.handle@ == old(self).ring().current && b.released@ == step(
                old(self).ring(),
                RingOp::FencesSignaled,
            ).released,
    {
        self.frames.fences_signaled()
    }

    /// See [`FrameRing::finish_frame`]: `frame` must name the lent-out slot.
    pub fn finish_frame(&mut self, frame: FrameHandle)
        requires
            old(self).wf(),
            old(self).ring().phase == SlotPhase::Lent,
            frame@ == old(self).ring().current,
        ensures
            final(self).wf(),
            final(self).ring() == step(old(self).ring(), RingOp::FinishFrame).next,
            final(self).same_config(old(self)),
            final(self).setup_cb() == old(self).setup_cb(),
    {
        self.frames.finish_frame(frame)
    }

    /// See [`FrameRing::defer_release`].
    pub fn defer_release<R: DeferredRelease>(&mut self, resource: R)
        requires
            old(self).wf(),
        ensures
            final(self).wf(),
            final(self).ring() == step(
                old(self).ring(),
                RingOp::DeferRelease(resource.release_handle()),
            ).next,
            final(self).same_config(old(self)),
            final(self).setup_cb() == old(self).setup_cb(),
    {
        self.frames.defer_release(resource)
    }

    /// See [`FrameRing::begin_recording`].
    pub fn begin_recording(&mut self, kind: CbKind) -> (r: Result<u64, FrameError>)
        requires
            old(self).wf(),
        ensures
            final(self).wf(),
            final(self).ring() == step(old(self).ring(), RingOp::BeginRecording(kind)).next,
            final(self).same_config(old(self)),
            final(self).setup_cb() == old(self).setup_cb(),
            r is Ok <==> step(old(self).ring(), RingOp::BeginRecording(kind)).ok,
            r matches Ok(raw) ==> raw == crate::frame::cb_of(
                old(self).ring().frames[old(self).ring().current],
                kind,
            ).raw,
    {
        self.frames.begin_recording(kind)
    }

    /// See [`FrameRing::submit`].
    pub fn submit(&mut self, kind: CbKind) -> (r: Result<u64, FrameError>)
        requires
            old(self).wf(),
        ensures
            final(self).wf(),
            final(self).ring() == step(old(self).ring(), RingOp::Submit(kind)).next,
            final(self).same_config(old(self)),
            final(self).setup_cb() == old(self).setup_cb(),
            r is Ok <==> step(old(self).ring(), RingOp::Submit(kind)).ok,
            r matches Ok(fence) ==> fence == crate::frame::cb_of(
                old(self).ring().frames[old(self).ring().current],
                kind,
            ).submit_done_fence,
    {
        self.frames.submit(kind)
    }

    /// The frame ring, for reading slot state between frames.
    pub fn frame_ring(&self) -> (r: &FrameRing)
        ensures
            r@ == self.ring(),
    {
        &self.frames
    }

    /// Starts recording the setup command buffer and returns its handle;
    /// refused unless it is idle.
    pub fn begin_setup_cb(&mut self) -> (r: Result<u64, FrameError>)
        requires
            old(self).wf(),
        ensures
            final(self).wf(),
            final(self).ring() == old(self).ring(),
            final(self).same_config(old(self)),
            r is Ok <==> old(self).setup_state() == CbState::Idle,
            r matches Ok(raw) ==> raw == old(self).setup_cb().raw && final(self).setup_moved_to(
                old(self),
                CbState::Recording,
            ),
            r matches Err(e) ==> e == FrameError::InvalidCommandBufferState && final(self).setup_cb()
                == old(self).setup_cb(),
    {
        if self.setup_cb.state != CbState::Idle {
            return Err(FrameError::InvalidCommandBufferState);
        }
        self.setup_cb.state = CbState::Recording;
        Ok(self.setup_cb.raw)
    }

    /// Marks the recorded setup command buffer as submitted and returns its
    /// handle.
    pub fn submit_setup_cb(&mut self) -> (r: Result<u64, FrameError>)
        requires
            old(self).wf(),
        ensures
            final(self).wf(),
            final(self).ring() == old(self).ring(),
            final(self).same_config(old(self)),
            r is Ok <==> old(self).setup_state() == CbState::Recording,
            r matches Ok(raw) ==> raw == old(self).setup_cb().raw && final(self).setup_moved_to(
                old(self),
                CbState::Submitted,
            ),
            r matches Err(e) ==> e == FrameError::InvalidCommandBufferState && final(self).setup_cb()
                == old(self).setup_cb(),
    {
        if self.setup_cb.state != CbState::Recording {
            return Err(FrameError::InvalidCommandBufferState);
        }
        self.setup_cb.state = CbState::Submitted;
        Ok(self.setup_cb.raw)
    }

    /// Records that the device went fully idle: submitted setup work is
    /// complete and the setup command buffer is free again. A recording
    /// that was abandoned (its begin or end failed) is dropped as well.
    pub fn device_idle(&mut self)
        requires
            old(self).wf(),
        ensures
            final(self).wf(),
            final(self).ring() == old(self).ring(),
            final(self).same_config(old(self)),
            final(self).setup_moved_to(old(self), CbState::Idle),
    {
        self.setup_cb.state = CbState::Idle;
    }

    /// Whether tearing the device down must wait for the GPU: only when some
    /// submitted work has not been observed complete.
    pub fn needs_idle_wait(&self) -> (r: bool)
        requires
            self.wf(),
        ensures
            r == (outstanding(self.ring()) > 0 || self.setup_state() == CbState::Submitted),
    {
        let f0 = self.frames.frame(0);
        let f1 = self.frames.frame(1);
        f0.main_command_buffer.state == CbState::Submitted
            || f0.presentation_command_buffer.state == CbState::Submitted
            || f1.main_command_buffer.state == CbState::Submitted
            || f1.presentation_command_buffer.state == CbState::Submitted
            || self.setup_cb.state == CbState::Submitted
    }

    /// The setup command buffer, with its state.
    pub fn setup_command_buffer(&self) -> (r: CommandBuffer)
        ensures
            r == self.setup_cb(),
    {
        self.setup_cb
    }

    /// Whether `flag` was enabled on the device.
    pub fn has_feature(&self, flag: FeatureFlag) -> (r: bool)
        ensures
            r == self.features().contains(flag),
    {
        let mut i: usize = 0;
        while i < self.features.len()
            invariant
                i <= self.features@.len(),
                forall|k: int| 0 <= k < i ==> self.features@[k] != flag,
            decreases self.features.len() - i,
        {
            if self.features[i] == flag {
                return true;
            }
            i += 1;
        }
        false
    }

    pub fn ray_tracing_enabled(&self) -> (r: bool)
        ensures
            r == self.rt_enabled(),
    {
        self.ray_tracing_enabled
    }

    /// The queue family that the device's universal queue belongs to.
    pub fn queue_family_index(&self) -> (r: usize)
        ensures
            r == self.queue_family(),
    {
        self.queue_family_index
    }

    pub fn max_per_stage_descriptor_sampled_images(&self) -> (r: u32)
        ensures
            r == self.sampled_image_limit(),
    {
        self.max_per_stage_descriptor_sampled_images
    }

    /// The per-stage limit less the reserved descriptors, capped at
    /// `MAX_BINDLESS_DESCRIPTORS`.
    pub fn max_bindless_descriptor_count(&self) -> (r: u32)
        requires
            self.sampled_image_limit() >= RESERVED_DESCRIPTOR_COUNT,
        ensures
            r as int == if MAX_BINDLESS_DESCRIPTORS < self.sampled_image_limit()
                - RESERVED_DESCRIPTOR_COUNT {
                MAX_BINDLESS_DESCRIPTORS as int
            } else {
                self.sampled_image_limit() - RESERVED_DESCRIPTOR_COUNT
            },
    {
        let available = self.max_per_stage_descriptor_sampled_images - RESERVED_DESCRIPTOR_COUNT;
        if MAX_BINDLESS_DESCRIPTORS < available {
            MAX_BINDLESS_DESCRIPTORS
        } else {
            available
        }
    }
}

} // verus!
