//! The immutable sampler cache: one sampler per combination of texel
//! filter, mipmap mode and address mode.
use vstd::prelude::*;

verus! {

/// Number of cached samplers: 2 filters x 2 mipmap modes x 2 address modes.
pub const SAMPLER_COUNT: usize = 8;

#[derive(Clone, Copy, Debug, PartialEq, Eq, Hash, Structural)]
pub enum TexelFilter {
    Nearest,
    Linear,
}

#[derive(Clone, Copy, Debug, PartialEq, Eq, Hash, Structural)]
pub enum MipmapMode {
    Nearest,
    Linear,
}

#[derive(Clone, Copy, Debug, PartialEq, Eq, Hash, Structural)]
pub enum AddressMode {
    Repeat,
    ClampToEdge,
}

#[derive(Clone, Copy, Debug, PartialEq, Eq, Hash, Structural)]
pub struct SamplerDesc {
    pub texel_filter: TexelFilter,
    pub mipmap_mode: MipmapMode,
    pub address_modes: AddressMode,
}

/// The slot of a descriptor in the cache.
pub open spec fn desc_index(d: SamplerDesc) -> int {
    (if d.texel_filter == TexelFilter::Linear { 4int } else { 0int }) + (if d.mipmap_mode
        == MipmapMode::Linear {
        2int
    } else {
        0int
    }) + (if d.address_modes == AddressMode::ClampToEdge { 1int } else { 0int })
}

/// Eight non-null, pairwise distinct sampler handles.
pub open spec fn cache_wf(s: Seq<u64>) -> bool {
    &&& s.len() == SAMPLER_COUNT
    &&& forall|i: int| 0 <= i < s.len() ==> s[i] != 0
    &&& forall|i: int, j: int| 0 <= i < j < s.len() ==> s[i] != s[j]
}

impl SamplerDesc {
    /// The descriptor's slot in the cache.
    pub fn index(&self) -> (r: usize)
        ensures
            r == desc_index(*self),
            r < SAMPLER_COUNT,
    {
        let f: usize = match self.texel_filter {
            TexelFilter::Nearest => 0,
            TexelFilter::Linear => 4,
        };
        let m: usize = match self.mipmap_mode {
            MipmapMode::Nearest => 0,
            MipmapMode::Linear => 2,
        };
        let a: usize = match self.address_modes {
            AddressMode::Repeat => 0,
            AddressMode::ClampToEdge => 1,
        };
        f + m + a
    }

    /// Anisotropic filtering is on exactly for linear texel filtering.
    pub fn anisotropy_enable(&self) -> (r: bool)
        ensures
            r == (self.texel_filter == TexelFilter::Linear),
    {
        self.texel_filter == TexelFilter::Linear
    }
}

/// Distinct descriptors have distinct slots.
pub proof fn lemma_desc_index_injective(a: SamplerDesc, b: SamplerDesc)
    ensures
        0 <= desc_index(a) < SAMPLER_COUNT,
        desc_index(a) == desc_index(b) ==> a == b,
{
}

/// Every combination, in slot order: entry `i` has slot `i`.
pub fn sampler_descs() -> (r: Vec<SamplerDesc>)
    ensures
        r@.len() == SAMPLER_COUNT,
        forall|i: int| 0 <= i < SAMPLER_COUNT ==> desc_index(#[trigger] r@[i]) == i,
{
    let filters = [TexelFilter::Nearest, TexelFilter::Linear];
    let mips = [MipmapMode::Nearest, MipmapMode::Linear];
    let addrs = [AddressMode::Repeat, AddressMode::ClampToEdge];
    let mut r: Vec<SamplerDesc> = Vec::new();
    let mut f: usize = 0;
    while f < 2
        invariant
            f <= 2,
            r@.len() == 4 * f,
            filters@ == seq![TexelFilter::Nearest, TexelFilter::Linear],
            mips@ == seq![MipmapMode::Nearest, MipmapMode::Linear],
            addrs@ == seq![AddressMode::Repeat, AddressMode::ClampToEdge],
            forall|i: int| 0 <= i < r@.len() ==> desc_index(#[trigger] r@[i]) == i,
        decreases 2 - f,
    {
        let mut m: usize = 0;
        while m < 2
            invariant
                f < 2,
                m <= 2,
                r@.len() == 4 * f + 2 * m,
                filters@ == seq![TexelFilter::Nearest, TexelFilter::Linear],
                mips@ == seq![MipmapMode::Nearest, MipmapMode::Linear],
                addrs@ == seq![AddressMode::Repeat, AddressMode::ClampToEdge],
                forall|i: int| 0 <= i < r@.len() ==> desc_index(#[trigger] r@[i]) == i,
            decreases 2 - m,
        {
            let mut a: usize = 0;
            while a < 2
                invariant
                    f < 2,
                    m < 2,
                    a <= 2,
                    r@.len() == 4 * f + 2 * m + a,
                    filters@ == seq![TexelFilter::Nearest, TexelFilter::Linear],
                    mips@ == seq![MipmapMode::Nearest, MipmapMode::Linear],
                    addrs@ == seq![AddressMode::Repeat, AddressMode::ClampToEdge],
                    forall|i: int| 0 <= i < r@.len() ==> desc_index(#[trigger] r@[i]) == i,
                decreases 2 - a,
            {
                let d = SamplerDesc { texel_filter: filters[f], mipmap_mode: mips[m], address_modes: addrs[a] };
                r.push(d);
                a += 1;
            }
            m += 1;
        }
        f += 1;
    }
    r
}

/// The cache of immutable samplers, indexed by descriptor.
pub struct SamplerCache {
    samplers: Vec<u64>,
}

impl View for SamplerCache {
    type V = Seq<u64>;

    closed spec fn view(&self) -> Seq<u64> {
        self.samplers@
    }
}

impl SamplerCache {
    pub open spec fn wf(&self) -> bool {
        cache_wf(self@)
    }

    /// Takes the samplers created for [`sampler_descs`], in that order;
    /// refuses any list that is not eight distinct non-null handles.
    pub fn new(samplers: Vec<u64>) -> (r: Result<SamplerCache, super::features::DeviceCreateError>)
        ensures
            r is Ok <==> cache_wf(samplers@),
            r matches Ok(c) ==> c@ == samplers@,
            r matches Err(e) ==> e == super::features::DeviceCreateError::InvalidSamplers,
    {
        if samplers.len() != SAMPLER_COUNT {
            return Err(super::features::DeviceCreateError::InvalidSamplers);
        }
        let mut i: usize = 0;
        while i < samplers.len()
            invariant
                samplers@.len() == SAMPLER_COUNT,
                i <= samplers.len(),
                forall|a: int| 0 <= a < i ==> samplers@[a] != 0,
                forall|a: int, b: int| 0 <= a < b < samplers@.len() && a < i ==> samplers@[a] != samplers@[b],
            decreases samplers.len() - i,
        {
            if samplers[i] == 0 {
                return Err(super::features::DeviceCreateError::InvalidSamplers);
            }
            let mut j: usize = i + 1;
            while j < samplers.len()
                invariant
                    samplers@.len() == SAMPLER_COUNT,
                    i < j <= samplers.len(),
                    forall|b: int| i < b < j ==> samplers@[i as int] != samplers@[b],
                decreases samplers.len() - j,
            {
                if samplers[i] == samplers[j] {
                    return Err(super::features::DeviceCreateError::InvalidSamplers);
                }
                j += 1;
            }
            i += 1;
        }
        Ok(SamplerCache { samplers })
    }

    /// Exact lookup; every descriptor has its sampler.
    pub fn get_sampler(&self, desc: SamplerDesc) -> (r: u64)
        requires
            self.wf(),
        ensures
            r == self@[desc_index(desc)],
    {
        self.samplers[desc.index()]
    }
}

/// Every one of the eight descriptors gets a valid sampler, and no two
/// descriptors share one.
pub proof fn lemma_samplers_distinct(cache: Seq<u64>, a: SamplerDesc, b: SamplerDesc)
    requires
        cache_wf(cache),
    ensures
        cache[desc_index(a)] != 0,
        a != b ==> cache[desc_index(a)] != cache[desc_index(b)],
{
    lemma_desc_index_injective(a, b);
    lemma_desc_index_injective(b, a);
    if desc_index(a) < desc_index(b) {
    } else if desc_index(b) < desc_index(a) {
    }
}

} // verus!
