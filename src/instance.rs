//! Instance configuration: which instance extensions and layers to ask for.
use vstd::prelude::*;

use crate::features::names;

verus! {

/// Options for creating the instance.
pub struct DeviceBuilder {
    pub required_extensions: Vec<String>,
    pub graphics_debugging: bool,
}

/// The instance extensions that the renderer itself adds.
pub open spec fn own_instance_extensions(graphics_debugging: bool) -> Seq<Seq<char>> {
    if graphics_debugging {
        seq![
            "VK_KHR_get_physical_device_properties2"@,
            "VK_EXT_debug_report"@,
            "VK_EXT_debug_utils"@,
        ]
    } else {
        seq!["VK_KHR_get_physical_device_properties2"@]
    }
}

/// The layers enabled for the instance.
pub open spec fn instance_layers(graphics_debugging: bool) -> Seq<Seq<char>> {
    if graphics_debugging {
        seq!["VK_LAYER_KHRONOS_validation"@]
    } else {
        Seq::empty()
    }
}

impl DeviceBuilder {
    /// No extra extensions, no debugging.
    pub fn new() -> (r: DeviceBuilder)
        ensures
            r.required_extensions@ == Seq::<String>::empty(),
            !r.graphics_debugging,
    {
        DeviceBuilder { required_extensions: Vec::new(), graphics_debugging: false }
    }

    /// Replaces the extensions that the windowing layer needs.
    pub fn required_extensions(self, required_extensions: Vec<String>) -> (r: DeviceBuilder)
        ensures
            r.required_extensions@ == required_extensions@,
            r.graphics_debugging == self.graphics_debugging,
    {
        let mut s = self;
        s.required_extensions = required_extensions;
        s
    }

    /// Turns validation and debug messaging on or off.
    pub fn graphics_debugging(self, graphics_debugging: bool) -> (r: DeviceBuilder)
        ensures
            r.required_extensions@ == self.required_extensions@,
            r.graphics_debugging == graphics_debugging,
    {
        let mut s = self;
        s.graphics_debugging = graphics_debugging;
        s
    }

    /// The instance extensions that the renderer adds to the required ones.
    pub fn extension_names(&self) -> (r: Vec<String>)
        ensures
            names(r@) == own_instance_extensions(self.graphics_debugging),
    {
        let mut r = vec!["VK_KHR_get_physical_device_properties2".to_owned()];
        if self.graphics_debugging {
            r.push("VK_EXT_debug_report".to_owned());
            r.push("VK_EXT_debug_utils".to_owned());
        }
        proof {
            assert(names(r@) =~= own_instance_extensions(self.graphics_debugging));
        }
        r
    }

    /// The instance layers to enable.
    pub fn layer_names(&self) -> (r: Vec<String>)
        ensures
            names(r@) == instance_layers(self.graphics_debugging),
    {
        let mut r: Vec<String> = Vec::new();
        if self.graphics_debugging {
            r.push("VK_LAYER_KHRONOS_validation".to_owned());
        }
        proof {
            assert(names(r@) =~= instance_layers(self.graphics_debugging));
        }
        r
    }

    /// All instance extensions: the required ones, then the renderer's own.
    pub fn instance_extensions(&self) -> (r: Vec<String>)
        ensures
            names(r@) == names(self.required_extensions@) + own_instance_extensions(
                self.graphics_debugging,
            ),
    {
        let own = self.extension_names();
        let mut r: Vec<String> = Vec::new();
        let mut i: usize = 0;
        while i < self.required_extensions.len()
            invariant
                i <= self.required_extensions@.len(),
                names(r@) == names(self.required_extensions@).take(i as int),
            decreases self.required_extensions.len() - i,
        {
            let ghost prev = r@;
            r.push(self.required_extensions[i].clone());
            proof {
                assert(names(r@) =~= names(prev).push(self.required_extensions@[i as int]@));
                assert(names(self.required_extensions@).take(i as int + 1) =~= names(
                    self.required_extensions@,
                ).take(i as int).push(self.required_extensions@[i as int]@));
            }
            i += 1;
        }
        let ghost base = r@;
        let mut j: usize = 0;
        while j < own.len()
            invariant
                j <= own@.len(),
                names(r@) == names(base) + names(own@).take(j as int),
            decreases own.len() - j,
        {
            let ghost prev = r@;
            r.push(own[j].clone());
            proof {
                assert(names(r@) =~= names(prev).push(own@[j as int]@));
                assert(names(own@).take(j as int + 1) =~= names(own@).take(j as int).push(
                    own@[j as int]@,
                ));
            }
            j += 1;
        }
        proof {
            assert(names(self.required_extensions@).take(i as int) =~= names(self.required_extensions@));
            assert(names(own@).take(j as int) =~= names(own@));
        }
        r
    }
}

impl Default for DeviceBuilder {
    fn default() -> (r: DeviceBuilder)
        ensures
            r.required_extensions@ == Seq::<String>::empty(),
            !r.graphics_debugging,
    {
        DeviceBuilder::new()
    }
}

} // verus!
