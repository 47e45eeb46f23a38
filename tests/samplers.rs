use kajiya_backend::device::{plan_device, Device};
use kajiya_backend::frame::{CommandBuffer, DeviceFrame};
use kajiya_backend::sampler::{
    sampler_descs, AddressMode, MipmapMode, SamplerCache, SamplerDesc, TexelFilter,
};

fn frame(base: u64) -> DeviceFrame {
    DeviceFrame::new(CommandBuffer::new(base, base + 1), CommandBuffer::new(base + 2, base + 3))
}

#[test]
fn all_eight_descriptors_in_slot_order() {
    let descs = sampler_descs();
    assert_eq!(descs.len(), 8);
    for (i, d) in descs.iter().enumerate() {
        assert_eq!(d.index(), i);
    }
    assert_eq!(
        descs[0],
        SamplerDesc {
            texel_filter: TexelFilter::Nearest,
            mipmap_mode: MipmapMode::Nearest,
            address_modes: AddressMode::Repeat
        }
    );
    assert_eq!(
        descs[7],
        SamplerDesc {
            texel_filter: TexelFilter::Linear,
            mipmap_mode: MipmapMode::Linear,
            address_modes: AddressMode::ClampToEdge
        }
    );
}

#[test]
fn every_combination_gets_a_distinct_valid_sampler() {
    let handles: Vec<u64> = vec![11, 12, 13, 14, 15, 16, 17, 18];
    let cache = SamplerCache::new(handles.clone()).unwrap();
    let mut seen = Vec::new();
    for f in [TexelFilter::Nearest, TexelFilter::Linear] {
        for m in [MipmapMode::Nearest, MipmapMode::Linear] {
            for a in [AddressMode::Repeat, AddressMode::ClampToEdge] {
                let d = SamplerDesc { texel_filter: f, mipmap_mode: m, address_modes: a };
                let s = cache.get_sampler(d);
                assert_ne!(s, 0);
                assert!(!seen.contains(&s));
                seen.push(s);
            }
        }
    }
    assert_eq!(seen.len(), 8);
}

#[test]
fn device_sampler_lookup() {
    let plan = plan_device(
        &[
            "VK_EXT_descriptor_indexing",
            "VK_EXT_scalar_block_layout",
            "VK_KHR_maintenance1",
            "VK_KHR_maintenance2",
            "VK_KHR_maintenance3",
            "VK_KHR_get_memory_requirements2",
            "VK_KHR_imageless_framebuffer",
            "VK_KHR_image_format_list",
            "VK_KHR_descriptor_update_template",
            "VK_KHR_shader_float16_int8",
        ]
        .iter()
        .map(|s| s.to_string())
        .collect(),
        false,
        &vec![1],
    )
    .unwrap();
    let flags = plan.table()[0].feature_flags.clone();
    let d = Device::create(plan, flags, frame(1), frame(5), (100..108).collect(), CommandBuffer::new(9, 10), 64)
        .unwrap();
    let desc = SamplerDesc {
        texel_filter: TexelFilter::Linear,
        mipmap_mode: MipmapMode::Nearest,
        address_modes: AddressMode::ClampToEdge,
    };
    assert_eq!(d.get_sampler(desc), 105);
}

#[test]
fn anisotropy_follows_the_texel_filter() {
    for d in sampler_descs() {
        assert_eq!(d.anisotropy_enable(), d.texel_filter == TexelFilter::Linear);
    }
}
