use vstd::prelude::*;

verus! {

/// Which textures of a material are used.
#[derive(Clone, Copy, PartialEq, Eq, Structural, Debug)]
pub struct TextureUsageFlags {
    pub albedo: bool,
    pub normal: bool,
    pub metal: bool,
    pub roughness: bool,
    pub occlusion: bool,
    pub emissive: bool,
    pub is_masked: bool,
}

/// The texture usage as the shader reads it: `1` for a used texture, `0` otherwise.
#[derive(Clone, Copy, PartialEq, Eq, Structural, Debug)]
pub struct TextureUsageInfo {
    pub b_albedo: i32,
    pub b_normal: i32,
    pub b_metal: i32,
    pub b_roughness: i32,
    pub b_occlusion: i32,
    pub b_emissive: i32,
    pub b_is_masked: i32,
}

/// `1` for true, `0` for false.
pub open spec fn flag(b: bool) -> i32 {
    if b {
        1
    } else {
        0
    }
}

fn flag_of(b: bool) -> (v: i32)
    ensures
        v == flag(b),
{
    if b {
        1
    } else {
        0
    }
}

impl TextureUsageFlags {
    /// No texture is used.
    pub fn new() -> (f: Self)
        ensures
            f == (TextureUsageFlags {
                albedo: false,
                normal: false,
                metal: false,
                roughness: false,
                occlusion: false,
                emissive: false,
                is_masked: false,
            }),
    {
        TextureUsageFlags {
            albedo: false,
            normal: false,
            metal: false,
            roughness: false,
            occlusion: false,
            emissive: false,
            is_masked: false,
        }
    }

    /// The flags of a material built from the given texture slots: a slot that holds
    /// a texture marks it as used; the metallic-roughness texture marks both metal and
    /// roughness. The material is not masked.
    pub fn for_texture_slots<T>(
        albedo: &Option<T>,
        normal: &Option<T>,
        metallic_roughness: &Option<T>,
        occlusion: &Option<T>,
        emissive: &Option<T>,
    ) -> (f: Self)
        ensures
            f == (TextureUsageFlags {
                albedo: albedo is Some,
                normal: normal is Some,
                metal: metallic_roughness is Some,
                roughness: metallic_roughness is Some,
                occlusion: occlusion is Some,
                emissive: emissive is Some,
                is_masked: false,
            }),
    {
        let mut flags = TextureUsageFlags::new();
        flags.albedo = albedo.is_some();
        flags.normal = normal.is_some();
        flags.roughness = metallic_roughness.is_some();
        flags.metal = metallic_roughness.is_some();
        flags.occlusion = occlusion.is_some();
        flags.emissive = emissive.is_some();
        flags
    }

    /// Sets the albedo flag.
    pub fn with_albedo(self) -> (f: Self)
        ensures
            f == (TextureUsageFlags { albedo: true, ..self }),
    {
        TextureUsageFlags { albedo: true, ..self }
    }

    /// Sets the normal flag.
    pub fn with_normal(self) -> (f: Self)
        ensures
            f == (TextureUsageFlags { normal: true, ..self }),
    {
        TextureUsageFlags { normal: true, ..self }
    }

    /// Sets the metal flag.
    pub fn with_metal(self) -> (f: Self)
        ensures
            f == (TextureUsageFlags { metal: true, ..self }),
    {
        TextureUsageFlags { metal: true, ..self }
    }

    /// Sets the roughness flag.
    pub fn with_roughness(self) -> (f: Self)
        ensures
            f == (TextureUsageFlags { roughness: true, ..self }),
    {
        TextureUsageFlags { roughness: true, ..self }
    }

    /// Sets the occlusion flag.
    pub fn with_occlusion(self) -> (f: Self)
        ensures
            f == (TextureUsageFlags { occlusion: true, ..self }),
    {
        TextureUsageFlags { occlusion: true, ..self }
    }

    /// Sets the emissive flag.
    pub fn with_emissive(self) -> (f: Self)
        ensures
            f == (TextureUsageFlags { emissive: true, ..self }),
    {
        TextureUsageFlags { emissive: true, ..self }
    }

    /// Marks the material as masked.
    pub fn is_masked(self) -> (f: Self)
        ensures
            f == (TextureUsageFlags { is_masked: true, ..self }),
    {
        TextureUsageFlags { is_masked: true, ..self }
    }

    /// The flags as the shader reads them.
    pub fn to_shader_flags(self) -> (info: TextureUsageInfo)
        ensures
            info == (TextureUsageInfo {
                b_albedo: flag(self.albedo),
                b_normal: flag(self.normal),
                b_metal: flag(self.metal),
                b_roughness: flag(self.roughness),
                b_occlusion: flag(self.occlusion),
                b_emissive: flag(self.emissive),
                b_is_masked: flag(self.is_masked),
            }),
    {
        TextureUsageInfo {
            b_albedo: flag_of(self.albedo),
            b_normal: flag_of(self.normal),
            b_metal: flag_of(self.metal),
            b_roughness: flag_of(self.roughness),
            b_occlusion: flag_of(self.occlusion),
            b_emissive: flag_of(self.emissive),
            b_is_masked: flag_of(self.is_masked),
        }
    }
}

/// Picks the texture of a slot, or the fallback texture when the slot is empty.
pub fn texture_or_fallback<T>(slot: Option<T>, fallback: T) -> (t: T)
    ensures
        t == match slot {
            Some(x) => x,
            None => fallback,
        },
{
    match slot {
        Some(x) => x,
        None => fallback,
    }
}

/// Bit pattern of the `f32` value `1.0`.
pub const FACTOR_ONE_BITS: u32 = 0x3f80_0000;

/// Bit pattern of the `f32` value `0.5`, the default alpha cut off.
pub const DEFAULT_ALPHA_CUTOFF_BITS: u32 = 0x3f00_0000;

/// The factors a material multiplies its textures with, used where no texture is
/// given as well. Every value is the bit pattern of its `f32`.
#[derive(Clone, Copy, Debug)]
pub struct MaterialFactors {
    /// The albedo factor per channel.
    pub albedo_factor_bits: [u32; 4],
    /// The normal factor.
    pub normal_factor_bits: u32,
    /// The emissive factor per channel.
    pub emissive_factor_bits: [u32; 3],
    /// The largest emission.
    pub max_emission_bits: u32,
    /// The metal factor.
    pub metal_factor_bits: u32,
    /// The roughness factor.
    pub roughness_factor_bits: u32,
    /// The occlusion factor.
    pub occlusion_factor_bits: u32,
    /// Up to which alpha a masked material is see through.
    pub alpha_cutoff_bits: u32,
}

impl MaterialFactors {
    /// The default factors: every factor `1.0`, the alpha cut off `0.5`.
    pub fn new() -> (f: Self)
        ensures
            f == Self::new_spec(),
    {
        MaterialFactors {
            albedo_factor_bits: [FACTOR_ONE_BITS, FACTOR_ONE_BITS, FACTOR_ONE_BITS, FACTOR_ONE_BITS],
            normal_factor_bits: FACTOR_ONE_BITS,
            emissive_factor_bits: [FACTOR_ONE_BITS, FACTOR_ONE_BITS, FACTOR_ONE_BITS],
            max_emission_bits: FACTOR_ONE_BITS,
            metal_factor_bits: FACTOR_ONE_BITS,
            roughness_factor_bits: FACTOR_ONE_BITS,
            occlusion_factor_bits: FACTOR_ONE_BITS,
            alpha_cutoff_bits: DEFAULT_ALPHA_CUTOFF_BITS,
        }
    }

    /// Sets the albedo factor.
    pub fn with_factor_albedo(self, factor: [u32; 4]) -> (f: Self)
        ensures
            f == (MaterialFactors { albedo_factor_bits: factor, ..self }),
    {
        MaterialFactors { albedo_factor_bits: factor, ..self }
    }

    /// Sets the normal factor.
    pub fn with_factor_normal(self, factor: u32) -> (f: Self)
        ensures
            f == (MaterialFactors { normal_factor_bits: factor, ..self }),
    {
        MaterialFactors { normal_factor_bits: factor, ..self }
    }

    /// Sets the metal factor.
    pub fn with_factor_metal(self, factor: u32) -> (f: Self)
        ensures
            f == (MaterialFactors { metal_factor_bits: factor, ..self }),
    {
        MaterialFactors { metal_factor_bits: factor, ..self }
    }

    /// Sets the roughness factor.
    pub fn with_factor_roughness(self, factor: u32) -> (f: Self)
        ensures
            f == (MaterialFactors { roughness_factor_bits: factor, ..self }),
    {
        MaterialFactors { roughness_factor_bits: factor, ..self }
    }

    /// Sets the occlusion factor.
    pub fn with_factor_occlusion(self, factor: u32) -> (f: Self)
        ensures
            f == (MaterialFactors { occlusion_factor_bits: factor, ..self }),
    {
        MaterialFactors { occlusion_factor_bits: factor, ..self }
    }

    /// Sets the emissive factor.
    pub fn with_factor_emissive(self, factor: [u32; 3]) -> (f: Self)
        ensures
            f == (MaterialFactors { emissive_factor_bits: factor, ..self }),
    {
        MaterialFactors { emissive_factor_bits: factor, ..self }
    }

    /// Sets the largest emission, to highlight something.
    pub fn with_max_emmision(self, factor: u32) -> (f: Self)
        ensures
            f == (MaterialFactors { max_emission_bits: factor, ..self }),
    {
        MaterialFactors { max_emission_bits: factor, ..self }
    }

    /// Sets up to which alpha a masked material is see through.
    pub fn with_alpha_cutoff(self, factor: u32) -> (f: Self)
        ensures
            f == (MaterialFactors { alpha_cutoff_bits: factor, ..self }),
    {
        MaterialFactors { alpha_cutoff_bits: factor, ..self }
    }
}

/// Collects the textures and factors of a material before it is built. A slot
/// without a texture uses `fallback_texture`.
pub struct MaterialBuilder<T> {
    pub albedo: Option<T>,
    pub normal: Option<T>,
    pub metallic_roughness: Option<T>,
    pub occlusion: Option<T>,
    pub emissive: Option<T>,
    pub fallback_texture: T,
    pub texture_usage_info: TextureUsageFlags,
    pub material_factors: MaterialFactors,
}

impl<T> MaterialBuilder<T> {
    /// A builder for these textures with default factors; the usage flags follow
    /// from which slots hold a texture.
    pub fn new(
        albedo: Option<T>,
        normal: Option<T>,
        metallic_roughness: Option<T>,
        occlusion: Option<T>,
        emissive: Option<T>,
        fallback_texture: T,
    ) -> (b: Self)
        ensures
            b.albedo == albedo,
            b.normal == normal,
            b.metallic_roughness == metallic_roughness,
            b.occlusion == occlusion,
            b.emissive == emissive,
            b.fallback_texture == fallback_texture,
            b.texture_usage_info == (TextureUsageFlags {
                albedo: albedo is Some,
                normal: normal is Some,
                metal: metallic_roughness is Some,
                roughness: metallic_roughness is Some,
                occlusion: occlusion is Some,
                emissive: emissive is Some,
                is_masked: false,
            }),
            b.material_factors == MaterialFactors::new_spec(),
    {
        let flags = TextureUsageFlags::for_texture_slots(
            &albedo,
            &normal,
            &metallic_roughness,
            &occlusion,
            &emissive,
        );
        MaterialBuilder {
            albedo,
            normal,
            metallic_roughness,
            occlusion,
            emissive,
            fallback_texture,
            texture_usage_info: flags,
            material_factors: MaterialFactors::new(),
        }
    }

    /// Replaces the usage flags.
    pub fn with_usage_flags(self, new_flags: TextureUsageFlags) -> (b: Self)
        ensures
            b == (MaterialBuilder { texture_usage_info: new_flags, ..self }),
    {
        MaterialBuilder { texture_usage_info: new_flags, ..self }
    }

    /// Replaces the factors.
    pub fn with_factors(self, new_factors: MaterialFactors) -> (b: Self)
        ensures
            b == (MaterialBuilder { material_factors: new_factors, ..self }),
    {
        MaterialBuilder { material_factors: new_factors, ..self }
    }

    /// Marks the material as masked.
    pub fn mat_is_masked(&mut self)
        ensures
            *final(self) == (MaterialBuilder {
                texture_usage_info: TextureUsageFlags { is_masked: true, ..old(self).texture_usage_info },
                ..*old(self)
            }),
    {
        self.texture_usage_info.is_masked = true;
    }

    /// Whether the material is masked.
    pub fn is_masked(&self) -> (r: bool)
        ensures
            r == self.texture_usage_info.is_masked,
    {
        self.texture_usage_info.is_masked
    }

    /// The textures the material is built with, in the order albedo, normal,
    /// metallic-roughness, occlusion, emissive: each slot's texture, or the fallback.
    pub fn slot_textures(&self) -> (t: [&T; 5])
        ensures
            *t[0] == slot_or(self.albedo, self.fallback_texture),
            *t[1] == slot_or(self.normal, self.fallback_texture),
            *t[2] == slot_or(self.metallic_roughness, self.fallback_texture),
            *t[3] == slot_or(self.occlusion, self.fallback_texture),
            *t[4] == slot_or(self.emissive, self.fallback_texture),
    {
        [
            slot_ref(&self.albedo, &self.fallback_texture),
            slot_ref(&self.normal, &self.fallback_texture),
            slot_ref(&self.metallic_roughness, &self.fallback_texture),
            slot_ref(&self.occlusion, &self.fallback_texture),
            slot_ref(&self.emissive, &self.fallback_texture),
        ]
    }
}

/// The texture of a slot, or the fallback.
pub open spec fn slot_or<T>(slot: Option<T>, fallback: T) -> T {
    match slot {
        Some(t) => t,
        None => fallback,
    }
}

fn slot_ref<'a, T>(slot: &'a Option<T>, fallback: &'a T) -> (t: &'a T)
    ensures
        *t == slot_or(*slot, *fallback),
{
    match slot {
        Some(t) => t,
        None => fallback,
    }
}

impl MaterialFactors {
    /// The value `new` returns.
    pub open spec fn new_spec() -> MaterialFactors {
        MaterialFactors {
            albedo_factor_bits: [FACTOR_ONE_BITS, FACTOR_ONE_BITS, FACTOR_ONE_BITS, FACTOR_ONE_BITS],
            normal_factor_bits: FACTOR_ONE_BITS,
            emissive_factor_bits: [FACTOR_ONE_BITS, FACTOR_ONE_BITS, FACTOR_ONE_BITS],
            max_emission_bits: FACTOR_ONE_BITS,
            metal_factor_bits: FACTOR_ONE_BITS,
            roughness_factor_bits: FACTOR_ONE_BITS,
            occlusion_factor_bits: FACTOR_ONE_BITS,
            alpha_cutoff_bits: DEFAULT_ALPHA_CUTOFF_BITS,
        }
    }
}

} // verus!
