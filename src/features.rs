//! Capability negotiation: a declarative table of extension bundles, each
//! enabled all-or-nothing, with the feature flags each one needs.
use vstd::prelude::*;

verus! {

/// A boolean device feature that an enabled bundle requires to be on.
#[derive(Clone, Copy, Debug, PartialEq, Eq, Structural)]
pub enum FeatureFlag {
    ScalarBlockLayout,
    ShaderUniformTexelBufferArrayDynamicIndexing,
    ShaderStorageTexelBufferArrayDynamicIndexing,
    ShaderSampledImageArrayNonUniformIndexing,
    ShaderStorageImageArrayNonUniformIndexing,
    ShaderUniformTexelBufferArrayNonUniformIndexing,
    ShaderStorageTexelBufferArrayNonUniformIndexing,
    DescriptorBindingSampledImageUpdateAfterBind,
    DescriptorBindingUpdateUnusedWhilePending,
    DescriptorBindingPartiallyBound,
    DescriptorBindingVariableDescriptorCount,
    RuntimeDescriptorArray,
    ImagelessFramebuffer,
    ShaderInt8,
    ShaderUniformBufferArrayNonUniformIndexing,
    ShaderStorageBufferArrayNonUniformIndexing,
    VulkanMemoryModel,
    AccelerationStructure,
    DescriptorBindingAccelerationStructureUpdateAfterBind,
    RayTracingPipeline,
    RayTracingPipelineTraceRaysIndirect,
    BufferDeviceAddress,
}

/// Why device creation could not go on, where the caller can recover.
#[derive(Debug, PartialEq, Eq)]
pub enum DeviceCreateError {
    /// No queue family advertises graphics capability.
    NoSuitableQueue,
    /// The immutable samplers are not eight distinct, non-null handles.
    InvalidSamplers,
}

/// A named group of extensions, enabled only if every member is supported.
pub struct FeatureBundle {
    pub name: String,
    pub extensions: Vec<String>,
    pub feature_flags: Vec<FeatureFlag>,
    pub mandatory: bool,
}

/// The model of a [`FeatureBundle`].
pub struct BundleView {
    pub name: Seq<char>,
    pub extensions: Seq<Seq<char>>,
    pub feature_flags: Seq<FeatureFlag>,
    pub mandatory: bool,
}

pub open spec fn names(v: Seq<String>) -> Seq<Seq<char>> {
    v.map_values(|s: String| s@)
}

impl View for FeatureBundle {
    type V = BundleView;

    open spec fn view(&self) -> BundleView {
        BundleView {
            name: self.name@,
            extensions: names(self.extensions@),
            feature_flags: self.feature_flags@,
            mandatory: self.mandatory,
        }
    }
}

pub open spec fn table_view(t: Seq<FeatureBundle>) -> Seq<BundleView> {
    t.map_values(|b: FeatureBundle| b@)
}

/// Every member extension of `b` is among `supported`.
pub open spec fn bundle_available(b: BundleView, supported: Seq<Seq<char>>) -> bool {
    forall|i: int| 0 <= i < b.extensions.len() ==> supported.contains(#[trigger] b.extensions[i])
}

/// Every mandatory bundle of `t` is available.
pub open spec fn mandatory_satisfied(t: Seq<BundleView>, supported: Seq<Seq<char>>) -> bool {
    forall|i: int| 0 <= i < t.len() && #[trigger] t[i].mandatory ==> bundle_available(t[i], supported)
}

/// `name` is a mandatory extension of `t` that `supported` lacks.
pub open spec fn missing_mandatory(t: Seq<BundleView>, supported: Seq<Seq<char>>, name: Seq<char>) -> bool {
    &&& !supported.contains(name)
    &&& exists|i: int, j: int|
        0 <= i < t.len() && t[i].mandatory && 0 <= j < t[i].extensions.len() && #[trigger] t[i].extensions[j]
            == name
}

/// The extensions of the enabled bundles, bundle by bundle, in table order.
pub open spec fn enabled_extensions(t: Seq<BundleView>, enabled: Seq<bool>) -> Seq<Seq<char>>
    decreases t.len(),
{
    if t.len() == 0 || enabled.len() == 0 {
        Seq::empty()
    } else {
        enabled_extensions(t.drop_last(), enabled.drop_last()) + if enabled.last() {
            t.last().extensions
        } else {
            Seq::<Seq<char>>::empty()
        }
    }
}

/// Every flag that an enabled bundle needs is reported on.
pub open spec fn flags_satisfied(t: Seq<BundleView>, enabled: Seq<bool>, reported: Seq<FeatureFlag>) -> bool {
    forall|i: int, j: int|
        0 <= i < t.len() && i < enabled.len() && enabled[i] && 0 <= j < t[i].feature_flags.len()
            ==> reported.contains(#[trigger] t[i].feature_flags[j])
}

/// Whether `name` is among `list`.
pub fn contains_name(list: &Vec<String>, name: &String) -> (r: bool)
    ensures
        r == names(list@).contains(name@),
{
    let mut i: usize = 0;
    while i < list.len()
        invariant
            i <= list.len(),
            forall|k: int| 0 <= k < i ==> list@[k]@ != name@,
        decreases list.len() - i,
    {
        if list[i] == *name {
            assert(names(list@)[i as int] == name@);
            return true;
        }
        i += 1;
    }
    proof {
        if names(list@).contains(name@) {
            let k = choose|k: int| 0 <= k < names(list@).len() && names(list@)[k] == name@;
            assert(list@[k]@ == name@);
        }
    }
    false
}

/// Whether every member extension of `bundle` is among `supported`.
pub fn bundle_supported(bundle: &FeatureBundle, supported: &Vec<String>) -> (r: bool)
    ensures
        r == bundle_available(bundle@, names(supported@)),
{
    let mut j: usize = 0;
    while j < bundle.extensions.len()
        invariant
            j <= bundle.extensions.len(),
            forall|k: int| 0 <= k < j ==> names(supported@).contains(#[trigger] names(bundle.extensions@)[k]),
        decreases bundle.extensions.len() - j,
    {
        if !contains_name(supported, &bundle.extensions[j]) {
            assert(!names(supported@).contains(bundle@.extensions[j as int]));
            return false;
        }
        j += 1;
    }
    true
}

/// The first missing member of the first mandatory bundle that is not fully
/// supported, if there is one.
pub fn first_missing_mandatory(table: &Vec<FeatureBundle>, supported: &Vec<String>) -> (r: Option<String>)
    ensures
        r is None <==> mandatory_satisfied(table_view(table@), names(supported@)),
        r matches Some(name) ==> missing_mandatory(table_view(table@), names(supported@), name@),
{
    let mut i: usize = 0;
    while i < table.len()
        invariant
            i <= table.len(),
            forall|k: int| 0 <= k < i && table@[k].mandatory ==> bundle_available(#[trigger] table@[k]@, names(supported@)),
        decreases table.len() - i,
    {
        let bundle = &table[i];
        let available = bundle_supported(bundle, supported);
        if !available && bundle.mandatory {
            let mut j: usize = 0;
            while j < bundle.extensions.len()
                invariant
                    j <= bundle.extensions.len(),
                    i < table.len(),
                    bundle.mandatory,
                    bundle == &table@[i as int],
                    !bundle_available(bundle@, names(supported@)),
                    forall|k: int| 0 <= k < j ==> names(supported@).contains(#[trigger] bundle@.extensions[k]),
                decreases bundle.extensions.len() - j,
            {
                if !contains_name(supported, &bundle.extensions[j]) {
                    let name = bundle.extensions[j].clone();
                    proof {
                        let tv = table_view(table@);
                        assert(tv[i as int] == bundle@);
                        assert(tv[i as int].extensions[j as int] == name@);
                        assert(!names(supported@).contains(name@));
                        assert(tv[i as int].mandatory);
                        assert(!bundle_available(tv[i as int], names(supported@)));
                        assert(missing_mandatory(tv, names(supported@), name@));
                        assert(!mandatory_satisfied(tv, names(supported@)));
                    }
                    return Some(name);
                }
                j += 1;
            }
            assert(false);
        }
        i += 1;
    }
    proof {
        let tv = table_view(table@);
        assert forall|k: int| 0 <= k < tv.len() && #[trigger] tv[k].mandatory implies bundle_available(tv[k], names(supported@)) by {
            assert(tv[k] == table@[k]@);
        }
    }
    None
}

/// Decides which bundles to enable: every fully supported bundle is, and
/// none other. Every mandatory bundle must be fully supported.
pub fn negotiate_features(table: &Vec<FeatureBundle>, supported: &Vec<String>) -> (r: Vec<bool>)
    requires
        mandatory_satisfied(table_view(table@), names(supported@)),
    ensures
        r@.len() == table@.len(),
        forall|i: int|
            0 <= i < table@.len() ==> r@[i] == bundle_available(#[trigger] table@[i]@, names(supported@)),
{
    let mut enabled: Vec<bool> = Vec::new();
    let mut i: usize = 0;
    while i < table.len()
        invariant
            i <= table.len(),
            enabled@.len() == i,
            forall|k: int| 0 <= k < i ==> enabled@[k] == bundle_available(#[trigger] table@[k]@, names(supported@)),
        decreases table.len() - i,
    {
        let available = bundle_supported(&table[i], supported);
        enabled.push(available);
        i += 1;
    }
    enabled
}

/// The extension names to enable: those of every enabled bundle, in table order.
pub fn enabled_extension_names(table: &Vec<FeatureBundle>, enabled: &Vec<bool>) -> (r: Vec<String>)
    requires
        enabled@.len() == table@.len(),
    ensures
        names(r@) == enabled_extensions(table_view(table@), enabled@),
{
    let mut out: Vec<String> = Vec::new();
    let mut i: usize = 0;
    while i < table.len()
        invariant
            i <= table.len(),
            enabled@.len() == table@.len(),
            names(out@) == enabled_extensions(table_view(table@).take(i as int), enabled@.take(i as int)),
        decreases table.len() - i,
    {
        let ghost before = names(out@);
        proof {
            let t = table_view(table@).take(i as int + 1);
            let e = enabled@.take(i as int + 1);
            assert(t.drop_last() =~= table_view(table@).take(i as int));
            assert(e.drop_last() =~= enabled@.take(i as int));
        }
        if enabled[i] {
            let exts = &table[i].extensions;
            let mut j: usize = 0;
            while j < exts.len()
                invariant
                    j <= exts.len(),
                    names(out@) == before + names(exts@).take(j as int),
                decreases exts.len() - j,
            {
                let ghost prev = out@;
                out.push(exts[j].clone());
                proof {
                    assert(names(out@) =~= names(prev).push(exts@[j as int]@));
                    assert(names(exts@).take(j as int + 1) =~= names(exts@).take(j as int).push(
                        exts@[j as int]@,
                    ));
                    assert(names(out@) =~= before + names(exts@).take(j as int + 1));
                }
                j += 1;
            }
            proof {
                assert(names(exts@).take(j as int) =~= names(exts@));
                assert(table_view(table@)[i as int] == table@[i as int]@);
            }
        } else {
            assert(names(out@) =~= before + Seq::<Seq<char>>::empty());
        }
        i += 1;
    }
    proof {
        assert(table_view(table@).take(i as int) =~= table_view(table@));
        assert(enabled@.take(i as int) =~= enabled@);
    }
    out
}

/// A feature flag that an enabled bundle needs and that is not reported on,
/// if there is one.
pub fn unset_feature_flag(
    table: &Vec<FeatureBundle>,
    enabled: &Vec<bool>,
    reported: &Vec<FeatureFlag>,
) -> (r: Option<FeatureFlag>)
    requires
        enabled@.len() == table@.len(),
    ensures
        r is None <==> flags_satisfied(table_view(table@), enabled@, reported@),
        r matches Some(f) ==> !reported@.contains(f) && exists|i: int, j: int|
            0 <= i < table@.len() && enabled@[i] && 0 <= j < table@[i].feature_flags@.len()
                && #[trigger] table@[i].feature_flags@[j] == f,
{
    let mut i: usize = 0;
    while i < table.len()
        invariant
            i <= table.len(),
            enabled@.len() == table@.len(),
            forall|a: int, b: int|
                0 <= a < i && enabled@[a] && 0 <= b < table@[a].feature_flags@.len()
                    ==> reported@.contains(#[trigger] table@[a].feature_flags@[b]),
        decreases table.len() - i,
    {
        if enabled[i] {
            let flags = &table[i].feature_flags;
            let mut j: usize = 0;
            while j < flags.len()
                invariant
                    i < table.len(),
                    enabled@.len() == table@.len(),
                    enabled@[i as int],
                    flags == &table@[i as int].feature_flags,
                    j <= flags.len(),
                    forall|b: int| 0 <= b < j ==> reported@.contains(#[trigger] flags@[b]),
                decreases flags.len() - j,
            {
                let f = flags[j];
                let mut found = false;
                let mut k: usize = 0;
                while k < reported.len()
                    invariant
                        k <= reported.len(),
                        found ==> reported@.contains(f),
                        !found ==> forall|c: int| 0 <= c < k ==> reported@[c] != f,
                    decreases reported.len() - k,
                {
                    if reported[k] == f {
                        found = true;
                    }
                    k += 1;
                }
                if !found {
                    proof {
                        assert(!reported@.contains(f));
                        assert(table@[i as int].feature_flags@[j as int] == f);
                        let tv = table_view(table@);
                        assert(tv[i as int] == table@[i as int]@);
                        assert(tv[i as int].feature_flags[j as int] == f);
                        assert(!flags_satisfied(tv, enabled@, reported@));
                    }
                    return Some(f);
                }
                j += 1;
            }
        }
        i += 1;
    }
    proof {
        let tv = table_view(table@);
        assert forall|a: int, b: int|
            0 <= a < tv.len() && a < enabled@.len() && enabled@[a] && 0 <= b < tv[a].feature_flags.len()
                implies reported@.contains(#[trigger] tv[a].feature_flags[b]) by {
            assert(tv[a] == table@[a]@);
            assert(tv[a].feature_flags[b] == table@[a].feature_flags@[b]);
        }
    }
    None
}

/// Position of the ray-tracing bundle in [`device_feature_table`].
pub const RAY_TRACING_BUNDLE: usize = 1;

pub open spec fn core_extensions() -> Seq<Seq<char>> {
    seq![
        "VK_EXT_descriptor_indexing"@,
        "VK_EXT_scalar_block_layout"@,
        "VK_KHR_maintenance1"@,
        "VK_KHR_maintenance2"@,
        "VK_KHR_maintenance3"@,
        "VK_KHR_get_memory_requirements2"@,
        "VK_KHR_imageless_framebuffer"@,
        "VK_KHR_image_format_list"@,
        "VK_KHR_descriptor_update_template"@,
        "VK_KHR_shader_float16_int8"@,
    ]
}

pub open spec fn core_flags() -> Seq<FeatureFlag> {
    seq![
        FeatureFlag::ScalarBlockLayout,
        FeatureFlag::ShaderUniformTexelBufferArrayDynamicIndexing,
        FeatureFlag::ShaderStorageTexelBufferArrayDynamicIndexing,
        FeatureFlag::ShaderSampledImageArrayNonUniformIndexing,
        FeatureFlag::ShaderStorageImageArrayNonUniformIndexing,
        FeatureFlag::ShaderUniformTexelBufferArrayNonUniformIndexing,
        FeatureFlag::ShaderStorageTexelBufferArrayNonUniformIndexing,
        FeatureFlag::DescriptorBindingSampledImageUpdateAfterBind,
        FeatureFlag::DescriptorBindingUpdateUnusedWhilePending,
        FeatureFlag::DescriptorBindingPartiallyBound,
        FeatureFlag::DescriptorBindingVariableDescriptorCount,
        FeatureFlag::RuntimeDescriptorArray,
        FeatureFlag::ImagelessFramebuffer,
        FeatureFlag::ShaderInt8,
    ]
}

pub open spec fn ray_tracing_extensions() -> Seq<Seq<char>> {
    seq![
        "VK_KHR_vulkan_memory_model"@,
        "VK_KHR_pipeline_library"@,
        "VK_KHR_deferred_host_operations"@,
        "VK_EXT_buffer_device_address"@,
        "VK_KHR_acceleration_structure"@,
        "VK_KHR_ray_tracing_pipeline"@,
    ]
}

pub open spec fn ray_tracing_flags() -> Seq<FeatureFlag> {
    seq![
        FeatureFlag::ShaderUniformBufferArrayNonUniformIndexing,
        FeatureFlag::ShaderStorageBufferArrayNonUniformIndexing,
        FeatureFlag::VulkanMemoryModel,
        FeatureFlag::AccelerationStructure,
        FeatureFlag::DescriptorBindingAccelerationStructureUpdateAfterBind,
        FeatureFlag::RayTracingPipeline,
        FeatureFlag::RayTracingPipelineTraceRaysIndirect,
        FeatureFlag::BufferDeviceAddress,
    ]
}

/// The bundles that device creation negotiates: the mandatory core set, the
/// optional ray-tracing set and, when a swapchain is wanted, presentation.
pub open spec fn device_table(presentation_requested: bool) -> Seq<BundleView> {
    let core = BundleView {
        name: "core"@,
        extensions: core_extensions(),
        feature_flags: core_flags(),
        mandatory: true,
    };
    let ray_tracing = BundleView {
        name: "ray tracing"@,
        extensions: ray_tracing_extensions(),
        feature_flags: ray_tracing_flags(),
        mandatory: false,
    };
    let presentation = BundleView {
        name: "presentation"@,
        extensions: seq!["VK_KHR_swapchain"@],
        feature_flags: Seq::empty(),
        mandatory: true,
    };
    if presentation_requested {
        seq![core, ray_tracing, presentation]
    } else {
        seq![core, ray_tracing]
    }
}

/// Builds the negotiation table of [`device_table`].
pub fn device_feature_table(presentation_requested: bool) -> (r: Vec<FeatureBundle>)
    ensures
        table_view(r@) == device_table(presentation_requested),
{
    let core_ext = vec![
            "VK_EXT_descriptor_indexing".to_owned(),
            "VK_EXT_scalar_block_layout".to_owned(),
            "VK_KHR_maintenance1".to_owned(),
            "VK_KHR_maintenance2".to_owned(),
            "VK_KHR_maintenance3".to_owned(),
            "VK_KHR_get_memory_requirements2".to_owned(),
            "VK_KHR_imageless_framebuffer".to_owned(),
            "VK_KHR_image_format_list".to_owned(),
            "VK_KHR_descriptor_update_template".to_owned(),
            "VK_KHR_shader_float16_int8".to_owned(),
        ];
    let rt_ext = vec![
            "VK_KHR_vulkan_memory_model".to_owned(),
            "VK_KHR_pipeline_library".to_owned(),
            "VK_KHR_deferred_host_operations".to_owned(),
            "VK_EXT_buffer_device_address".to_owned(),
            "VK_KHR_acceleration_structure".to_owned(),
            "VK_KHR_ray_tracing_pipeline".to_owned(),
        ];
    let core = FeatureBundle {
        name: "core".to_owned(),
        extensions: core_ext,
        feature_flags: vec![
            FeatureFlag::ScalarBlockLayout,
            FeatureFlag::ShaderUniformTexelBufferArrayDynamicIndexing,
            FeatureFlag::ShaderStorageTexelBufferArrayDynamicIndexing,
            FeatureFlag::ShaderSampledImageArrayNonUniformIndexing,
            FeatureFlag::ShaderStorageImageArrayNonUniformIndexing,
            FeatureFlag::ShaderUniformTexelBufferArrayNonUniformIndexing,
            FeatureFlag::ShaderStorageTexelBufferArrayNonUniformIndexing,
            FeatureFlag::DescriptorBindingSampledImageUpdateAfterBind,
            FeatureFlag::DescriptorBindingUpdateUnusedWhilePending,
            FeatureFlag::DescriptorBindingPartiallyBound,
            FeatureFlag::DescriptorBindingVariableDescriptorCount,
            FeatureFlag::RuntimeDescriptorArray,
            FeatureFlag::ImagelessFramebuffer,
            FeatureFlag::ShaderInt8,
        ],
        mandatory: true,
    };
    let ray_tracing = FeatureBundle {
        name: "ray tracing".to_owned(),
        extensions: rt_ext,
        feature_flags: vec![
            FeatureFlag::ShaderUniformBufferArrayNonUniformIndexing,
            FeatureFlag::ShaderStorageBufferArrayNonUniformIndexing,
            FeatureFlag::VulkanMemoryModel,
            FeatureFlag::AccelerationStructure,
            FeatureFlag::DescriptorBindingAccelerationStructureUpdateAfterBind,
            FeatureFlag::RayTracingPipeline,
            FeatureFlag::RayTracingPipelineTraceRaysIndirect,
            FeatureFlag::BufferDeviceAddress,
        ],
        mandatory: false,
    };
    proof {
        assert(names(core.extensions@) =~= core_extensions());
        assert(core.feature_flags@ =~= core_flags());
        assert(names(ray_tracing.extensions@) =~= ray_tracing_extensions());
        assert(ray_tracing.feature_flags@ =~= ray_tracing_flags());
    }
    let mut table = vec![core, ray_tracing];
    if presentation_requested {
        let presentation = FeatureBundle {
            name: "presentation".to_owned(),
            extensions: vec!["VK_KHR_swapchain".to_owned()],
            feature_flags: Vec::new(),
            mandatory: true,
        };
        proof {
            assert(names(presentation.extensions@) =~= seq!["VK_KHR_swapchain"@]);
            assert(presentation.feature_flags@ =~= Seq::<FeatureFlag>::empty());
        }
        table.push(presentation);
    }
    proof {
        assert(table_view(table@) =~= device_table(presentation_requested));
    }
    table
}

} // verus!
