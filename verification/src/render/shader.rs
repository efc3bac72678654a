use vstd::prelude::*;
use vstd::string::StringExecFns;

verus! {

/// The shader inputs, grouped by descriptor set.
#[derive(Clone, Copy, PartialEq, Eq, Structural, Debug)]
pub enum DescriptorSetFamiliy {
    CameraData,
    Lights,
    MaterialTextures,
    MaterialData,
    PostProgressData,
    MultisampledColorAndDepth,
}

/// The names of the shader sets the engine ships with.
pub open spec fn default_shader_set_names() -> Seq<Seq<char>> {
    seq!["Pbr"@, "Shadow"@, "Wireframe"@, "PpBlur"@, "PpExposure"@, "PpResolveHdr"@]
}

/// The library of the default shader sets: "Pbr", "Shadow", "Wireframe", "PpBlur",
/// "PpExposure" and "PpResolveHdr".
#[derive(Clone, Copy, PartialEq, Eq, Structural, Debug)]
pub struct DefaultShaderSets {}

impl DefaultShaderSets {
    pub fn new() -> (s: Self)
        ensures
            s == (DefaultShaderSets {}),
    {
        DefaultShaderSets {}
    }

    /// Returns true if the library has a shader set with this name.
    pub fn has_shader_set(&self, name: &str) -> (r: bool)
        ensures
            r == default_shader_set_names().contains(name@),
    {
        let n = String::from_str(name);
        let names = ["Pbr", "Shadow", "Wireframe", "PpBlur", "PpExposure", "PpResolveHdr"];
        let ghost all = default_shader_set_names();
        let mut i: usize = 0;
        while i < 6
            invariant
                0 <= i <= 6,
                n@ == name@,
                all == default_shader_set_names(),
                forall|j: int| 0 <= j < 6 ==> #[trigger] names@[j]@ == all[j],
                forall|j: int| 0 <= j < i ==> all[j] != name@,
            decreases 6 - i,
        {
            if n == String::from_str(names[i]) {
                assert(all[i as int] == name@);
                assert(all.contains(name@));
                return true;
            }
            i = i + 1;
        }
        assert(!all.contains(name@)) by {
            if all.contains(name@) {
                let j = choose|j: int| 0 <= j < all.len() && all[j] == name@;
                assert(all[j] != name@);
            }
        }
        false
    }
}

} // verus!
