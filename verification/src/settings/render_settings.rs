use vstd::prelude::*;
use vstd::arithmetic::power2::pow2;

verus! {

/// Can be used to change between various debug views. They are applied in the
/// post progress stage.
#[derive(Clone, Copy, PartialEq, Eq, Structural, Debug)]
pub enum DebugView {
    MainDepth,
    HdrFragments,
    ScaledLdr,
    DirectionalDepth,
    Shaded,
}

/// The integer the post progress shader uses for a debug view.
pub open spec fn debug_view_code(view: DebugView) -> i32 {
    match view {
        DebugView::MainDepth => 0,
        DebugView::HdrFragments => 1,
        DebugView::ScaledLdr => 2,
        DebugView::DirectionalDepth => 3,
        DebugView::Shaded => 4,
    }
}

impl DebugView {
    pub fn as_shader_int(&self) -> (code: i32)
        ensures
            code == debug_view_code(*self),
            0 <= code <= 4,
    {
        match self {
            DebugView::MainDepth => 0,
            DebugView::HdrFragments => 1,
            DebugView::ScaledLdr => 2,
            DebugView::DirectionalDepth => 3,
            DebugView::Shaded => 4,
        }
    }
}

/// `n` is a power of two.
pub open spec fn is_power_of_two(n: int) -> bool {
    exists|k: nat| pow2(k) == n
}

proof fn lemma_pow2_shape(k: nat)
    ensures
        pow2(k) >= 1,
        k >= 1 ==> pow2(k) % 2 == 0 && pow2(k) / 2 == pow2((k - 1) as nat),
        k == 0 ==> pow2(k) == 1,
{
    vstd::arithmetic::power2::lemma_pow2_pos(k);
    vstd::arithmetic::power2::lemma2_to64();
    if k >= 1 {
        vstd::arithmetic::power2::lemma_pow2_unfold(k);
    } else {
        vstd::arithmetic::power2::lemma_pow2(k);
        reveal(vstd::arithmetic::power::pow);
    }
}

/// For an even `n > 1`, `n` is a power of two exactly when `n / 2` is one.
proof fn lemma_power_of_two_half(n: int)
    requires
        n > 1,
        n % 2 == 0,
    ensures
        is_power_of_two(n) <==> is_power_of_two(n / 2),
{
    if is_power_of_two(n) {
        let k = choose|k: nat| pow2(k) == n;
        lemma_pow2_shape(k);
        if k == 0 {
            assert(false);
        }
        assert(pow2((k - 1) as nat) == n / 2);
    }
    if is_power_of_two(n / 2) {
        let j = choose|j: nat| pow2(j) == n / 2;
        lemma_pow2_shape(j + 1);
        assert(pow2(j + 1) == n);
    }
}

/// An odd `n > 1` is no power of two, `1` is one and nothing below `1` is one.
proof fn lemma_power_of_two_base(n: int)
    requires
        n <= 1 || n % 2 == 1,
    ensures
        is_power_of_two(n) <==> n == 1,
{
    if n == 1 {
        lemma_pow2_shape(0);
        assert(pow2(0) == 1);
    }
    if is_power_of_two(n) {
        let k = choose|k: nat| pow2(k) == n;
        lemma_pow2_shape(k);
    }
}

/// Tests whether `num` is a power of two.
pub fn test_for_power_of_two(num: u32) -> (r: bool)
    ensures
        r == is_power_of_two(num as int),
{
    let mut walker: u32 = num;
    while walker > 1 && walker % 2 == 0
        invariant
            0 <= walker <= num,
            is_power_of_two(walker as int) == is_power_of_two(num as int),
        decreases walker,
    {
        proof {
            lemma_power_of_two_half(walker as int);
        }
        walker = walker / 2;
    }
    proof {
        lemma_power_of_two_base(walker as int);
    }
    walker == 1
}

/// Several settings used while debugging.
#[derive(Clone, Copy, PartialEq, Eq, Structural, Debug)]
pub struct DebugSettings {
    /// Switches between debug views.
    pub debug_view: DebugView,
    /// Which level of the scaled LDR image is shown in the `ScaledLdr` view.
    pub ldr_debug_view_level: u32,
    /// True if the engine draws the bounds of the objects.
    pub draw_bounds: bool,
}

/// Blur settings. Floating point values are kept as the bit patterns of their `f32`.
#[derive(Clone, Copy, PartialEq, Eq, Structural, Debug)]
pub struct BlurSettings {
    pub strength_bits: u32,
    pub scale_bits: u32,
}

impl BlurSettings {
    pub fn new(scale_bits: u32, strength_bits: u32) -> (b: Self)
        ensures
            b == (BlurSettings { strength_bits, scale_bits }),
    {
        BlurSettings { strength_bits, scale_bits }
    }
}

/// The settings of the automatic exposure. Floating point values are kept as the bit
/// patterns of their `f32`. Without automatic exposure the minimal exposure is used.
#[derive(Clone, Copy, PartialEq, Eq, Structural, Debug)]
pub struct ExposureSettings {
    /// The lower cap for the exposure.
    pub min_exposure_bits: u32,
    /// The upper cap for the exposure.
    pub max_exposure_bits: u32,
    /// The speed at which a too dark image is corrected.
    pub scale_up_speed_bits: u32,
    /// The speed at which a too bright image is corrected.
    pub scale_down_speed_bits: u32,
    /// The luminosity a frame should have.
    pub target_lumiosity_bits: u32,
    /// If false, the minimal exposure is used as a fixed value.
    pub use_auto_exposure: bool,
}

impl ExposureSettings {
    pub fn new(
        min_bits: u32,
        max_bits: u32,
        up_speed_bits: u32,
        down_speed_bits: u32,
        target_lumiosity_bits: u32,
        use_auto: bool,
    ) -> (e: Self)
        ensures
            e == (ExposureSettings {
                min_exposure_bits: min_bits,
                max_exposure_bits: max_bits,
                scale_up_speed_bits: up_speed_bits,
                scale_down_speed_bits: down_speed_bits,
                target_lumiosity_bits,
                use_auto_exposure: use_auto,
            }),
    {
        ExposureSettings {
            min_exposure_bits: min_bits,
            max_exposure_bits: max_bits,
            scale_up_speed_bits: up_speed_bits,
            scale_down_speed_bits: down_speed_bits,
            target_lumiosity_bits,
            use_auto_exposure: use_auto,
        }
    }
}

/// Bit pattern of the `f32` 0.95, the default cascade lambda.
pub const DEFAULT_CASCADE_LAMBDA_BITS: u32 = 0x3f73_3333;

/// The settings of directional lights. A directional light always has four cascades.
#[derive(Clone, Copy, PartialEq, Eq, Structural, Debug)]
pub struct DirectionalLightSettings {
    /// How many samples are taken in each direction when computing the shadow.
    pub pcf_samples: u32,
    /// The resolution of a single cascade in the directional shadow map.
    pub shadow_map_resolution: u32,
    /// The number of cascades.
    pub num_cascades: u32,
    /// Bit pattern of the `f32` that controls how strongly cascades overlap.
    pub cascade_lambda_bits: u32,
}

impl DirectionalLightSettings {
    /// Custom settings with four cascades.
    pub fn new(pcf_samples: u32, resolution: u32, cascade_lambda_bits: u32) -> (d: Self)
        ensures
            d == (DirectionalLightSettings {
                pcf_samples,
                shadow_map_resolution: resolution,
                num_cascades: 4,
                cascade_lambda_bits,
            }),
    {
        DirectionalLightSettings {
            pcf_samples,
            shadow_map_resolution: resolution,
            num_cascades: 4,
            cascade_lambda_bits,
        }
    }

    /// The default settings: 9 PCF samples, a resolution of 1024 per cascade, four
    /// cascades and a lambda of 0.95.
    pub fn default() -> (d: Self)
        ensures
            d == (DirectionalLightSettings {
                pcf_samples: 9,
                shadow_map_resolution: 1024,
                num_cascades: 4,
                cascade_lambda_bits: DEFAULT_CASCADE_LAMBDA_BITS,
            }),
    {
        DirectionalLightSettings {
            pcf_samples: 9,
            shadow_map_resolution: 1024,
            num_cascades: 4,
            cascade_lambda_bits: DEFAULT_CASCADE_LAMBDA_BITS,
        }
    }

    pub fn get_num_cascades(&self) -> (n: u32)
        ensures
            n == self.num_cascades,
    {
        self.num_cascades
    }

    pub fn get_shadow_map_resolution(&self) -> (r: u32)
        ensures
            r == self.shadow_map_resolution,
    {
        self.shadow_map_resolution
    }

    pub fn get_pcf_samples(&self) -> (p: u32)
        ensures
            p == self.pcf_samples,
    {
        self.pcf_samples
    }

    pub fn get_cascade_lambda_bits(&self) -> (l: u32)
        ensures
            l == self.cascade_lambda_bits,
    {
        self.cascade_lambda_bits
    }

    pub fn set_shadow_map_resolution(&mut self, new: u32)
        ensures
            *final(self) == (DirectionalLightSettings { shadow_map_resolution: new, ..*old(self) }),
    {
        self.shadow_map_resolution = new;
    }

    pub fn set_pcf_samples(&mut self, new: u32)
        ensures
            *final(self) == (DirectionalLightSettings { pcf_samples: new, ..*old(self) }),
    {
        self.pcf_samples = new;
    }

    pub fn set_cascade_lambda_bits(&mut self, new: u32)
        ensures
            *final(self) == (DirectionalLightSettings { cascade_lambda_bits: new, ..*old(self) }),
    {
        self.cascade_lambda_bits = new;
    }
}

/// How lights and their shadows are rendered.
#[derive(Clone, Copy, PartialEq, Eq, Structural, Debug)]
pub struct LightSettings {
    pub directional_settings: DirectionalLightSettings,
}

impl LightSettings {
    pub fn new(directional_light: DirectionalLightSettings) -> (l: Self)
        ensures
            l.directional_settings == directional_light,
    {
        LightSettings { directional_settings: directional_light }
    }

    /// The default settings of every light type.
    pub fn default() -> (l: Self)
        ensures
            l.directional_settings == DirectionalLightSettings::spec_default_settings(),
    {
        LightSettings { directional_settings: DirectionalLightSettings::default() }
    }
}

impl DirectionalLightSettings {
    /// The value `default` returns.
    pub open spec fn spec_default_settings() -> DirectionalLightSettings {
        DirectionalLightSettings {
            pcf_samples: 9,
            shadow_map_resolution: 1024,
            num_cascades: 4,
            cascade_lambda_bits: DEFAULT_CASCADE_LAMBDA_BITS,
        }
    }
}

/// Bit pattern of the `f32` 2.2, the default gamma.
pub const DEFAULT_GAMMA_BITS: u32 = 0x400c_cccd;

/// The filter factors and sample counts a renderer accepts: powers of two up to 16.
pub open spec fn accepted_factor(n: u32) -> bool {
    n <= 16 && is_power_of_two(n as int)
}

/// The settings of the renderer. Most values cannot be changed once the engine has
/// started. Floating point values are kept as the bit patterns of their `f32`.
#[derive(Clone, Copy, PartialEq, Eq, Structural, Debug)]
pub struct RenderSettings {
    /// True while a change has not been resolved by the renderer.
    pub has_changed: bool,
    /// The anisotropic filtering factor: a power of two between 1 and 16.
    pub anisotropic_filtering: u32,
    /// Samples per pixel: a power of two between 1 and 16.
    pub msaa: u32,
    /// True if the "fifo" present mode of the swapchain is forced.
    pub v_sync: bool,
    /// Bit pattern of the gamma correction of the output.
    pub gamma_bits: u32,
    /// The exposure used to map the HDR image to LDR.
    pub exposure: ExposureSettings,
    /// Light and shadow settings.
    pub light_settings: LightSettings,
    /// Strength and scale of the blur.
    pub blur: BlurSettings,
    /// The debug settings.
    pub debug_settings: DebugSettings,
}

impl RenderSettings {
    /// The default settings: filtering 1, msaa 1, no v-sync, gamma 2.2, automatic
    /// exposure between 0.2 and 4.0, default light settings, blur strength 1.5 at
    /// scale 1.0, and the shaded view without debugging.
    pub open spec fn spec_default() -> RenderSettings {
        RenderSettings {
            has_changed: false,
            anisotropic_filtering: 1,
            msaa: 1,
            v_sync: false,
            gamma_bits: DEFAULT_GAMMA_BITS,
            exposure: ExposureSettings {
                min_exposure_bits: 0x3e4c_cccd,
                max_exposure_bits: 0x4080_0000,
                scale_up_speed_bits: 0x3b03_126f,
                scale_down_speed_bits: 0x3b44_9ba6,
                target_lumiosity_bits: 0x3f80_0000,
                use_auto_exposure: true,
            },
            light_settings: LightSettings {
                directional_settings: DirectionalLightSettings::spec_default_settings(),
            },
            blur: BlurSettings { strength_bits: 0x3fc0_0000, scale_bits: 0x3f80_0000 },
            debug_settings: DebugSettings {
                debug_view: DebugView::Shaded,
                ldr_debug_view_level: 0,
                draw_bounds: false,
            },
        }
    }

    /// The default settings (see `spec_default`).
    pub fn default() -> (r: Self)
        ensures
            r == Self::spec_default(),
    {
        RenderSettings {
            has_changed: false,
            anisotropic_filtering: 1,
            msaa: 1,
            v_sync: false,
            gamma_bits: DEFAULT_GAMMA_BITS,
            exposure: ExposureSettings::new(
                0x3e4c_cccd,
                0x4080_0000,
                0x3b03_126f,
                0x3b44_9ba6,
                0x3f80_0000,
                true,
            ),
            light_settings: LightSettings::default(),
            blur: BlurSettings { strength_bits: 0x3fc0_0000, scale_bits: 0x3f80_0000 },
            debug_settings: DebugSettings {
                draw_bounds: false,
                debug_view: DebugView::Shaded,
                ldr_debug_view_level: 0,
            },
        }
    }

    /// True if the settings changed and the renderer has not resolved the change yet.
    pub fn render_settings_changed(&self) -> (r: bool)
        ensures
            r == self.has_changed,
    {
        self.has_changed
    }

    /// Marks the changes as resolved.
    pub fn resolved_settings(&mut self)
        ensures
            *final(self) == (RenderSettings { has_changed: false, ..*old(self) }),
    {
        self.has_changed = false;
    }

    /// Sets the anisotropic filtering factor; a factor that is not a power of two up
    /// to 16 leaves the settings as they are.
    pub fn with_anisotropical_filtering(self, af_factor: u32) -> (r: Self)
        ensures
            r == if accepted_factor(af_factor) {
                RenderSettings { anisotropic_filtering: af_factor, ..self }
            } else {
                self
            },
    {
        if !test_for_power_of_two(af_factor) || af_factor > 16 {
            return self;
        }
        RenderSettings { anisotropic_filtering: af_factor, ..self }
    }

    /// The current filter factor.
    pub fn get_anisotropical_filtering(&self) -> (f: u32)
        ensures
            f == self.anisotropic_filtering,
    {
        self.anisotropic_filtering
    }

    /// The current debug settings, to be changed in place.
    pub fn get_debug_settings(&mut self) -> (d: &mut DebugSettings)
        ensures
            *d == old(self).debug_settings,
            *final(self) == (RenderSettings { debug_settings: *final(d), ..*old(self) }),
    {
        &mut self.debug_settings
    }

    /// Sets the debug settings used for the following frames.
    pub fn set_debug_settings(&mut self, new: DebugSettings)
        ensures
            *final(self) == (RenderSettings { debug_settings: new, ..*old(self) }),
    {
        self.debug_settings = new;
    }

    /// Sets the msaa factor; a factor that is not a power of two up to 16 leaves the
    /// settings as they are.
    pub fn with_msaa_factor(self, msaa_factor: u32) -> (r: Self)
        ensures
            r == if accepted_factor(msaa_factor) {
                RenderSettings { msaa: msaa_factor, ..self }
            } else {
                self
            },
    {
        if !test_for_power_of_two(msaa_factor) || msaa_factor > 16 {
            return self;
        }
        RenderSettings { msaa: msaa_factor, ..self }
    }

    /// The current msaa factor.
    pub fn get_msaa_factor(&self) -> (m: u32)
        ensures
            m == self.msaa,
    {
        self.msaa
    }

    /// Sets v-sync on or off.
    pub fn with_vsync(self, value: bool) -> (r: Self)
        ensures
            r == (RenderSettings { v_sync: value, ..self }),
    {
        RenderSettings { v_sync: value, ..self }
    }

    /// Sets v-sync at runtime; it has no effect once the renderer runs.
    pub fn set_vsync(&mut self, value: bool)
        ensures
            *final(self) == (RenderSettings { v_sync: value, ..*old(self) }),
    {
        self.v_sync = value;
    }

    /// The current v-sync setting.
    pub fn get_vsync(&self) -> (v: bool)
        ensures
            v == self.v_sync,
    {
        self.v_sync
    }

    /// Sets a custom gamma value.
    pub fn with_gamma_bits(self, gamma_bits: u32) -> (r: Self)
        ensures
            r == (RenderSettings { gamma_bits, ..self }),
    {
        RenderSettings { gamma_bits, ..self }
    }

    /// The current gamma value.
    pub fn get_gamma_bits(&self) -> (g: u32)
        ensures
            g == self.gamma_bits,
    {
        self.gamma_bits
    }

    /// Sets the gamma value and marks the settings as changed.
    pub fn set_gamma_bits(&mut self, new: u32)
        ensures
            *final(self) == (RenderSettings { gamma_bits: new, has_changed: true, ..*old(self) }),
    {
        self.gamma_bits = new;
        self.has_changed = true;
    }

    /// Sets custom exposure settings.
    pub fn with_exposure(self, exposure: ExposureSettings) -> (r: Self)
        ensures
            r == (RenderSettings { exposure, ..self }),
    {
        RenderSettings { exposure, ..self }
    }

    /// The current exposure settings.
    pub fn get_exposure(&self) -> (e: ExposureSettings)
        ensures
            e == self.exposure,
    {
        self.exposure
    }

    /// The current exposure settings, to be changed in place.
    pub fn get_exposure_mut(&mut self) -> (e: &mut ExposureSettings)
        ensures
            *e == old(self).exposure,
            *final(self) == (RenderSettings { exposure: *final(e), ..*old(self) }),
    {
        &mut self.exposure
    }

    /// The current light settings.
    pub fn get_light_settings(&self) -> (l: LightSettings)
        ensures
            l == self.light_settings,
    {
        self.light_settings
    }

    /// The current light settings, to be changed in place.
    pub fn get_light_settings_mut(&mut self) -> (l: &mut LightSettings)
        ensures
            *l == old(self).light_settings,
            *final(self) == (RenderSettings { light_settings: *final(l), ..*old(self) }),
    {
        &mut self.light_settings
    }

    /// Sets the light settings.
    pub fn set_light_settings(&mut self, new: LightSettings)
        ensures
            *final(self) == (RenderSettings { light_settings: new, ..*old(self) }),
    {
        self.light_settings = new;
    }

    /// Sets the light settings while building the settings.
    pub fn with_light_settings(self, new: LightSettings) -> (r: Self)
        ensures
            r == (RenderSettings { light_settings: new, ..self }),
    {
        RenderSettings { light_settings: new, ..self }
    }

    /// Sets the blur settings while building the settings.
    pub fn with_blur(self, scale_bits: u32, strength_bits: u32) -> (r: Self)
        ensures
            r == (RenderSettings { blur: BlurSettings { strength_bits, scale_bits }, ..self }),
    {
        RenderSettings { blur: BlurSettings::new(scale_bits, strength_bits), ..self }
    }

    /// Sets the blur settings.
    pub fn set_blur(&mut self, scale_bits: u32, strength_bits: u32)
        ensures
            *final(self) == (RenderSettings {
                blur: BlurSettings { strength_bits, scale_bits },
                ..*old(self)
            }),
    {
        self.blur = BlurSettings::new(scale_bits, strength_bits);
    }

    /// The current blur settings.
    pub fn get_blur(&self) -> (b: BlurSettings)
        ensures
            b == self.blur,
    {
        self.blur
    }
}


/// The filter factor and the sample count of the settings stay accepted (powers of
/// two up to 16) whatever factor the builders are asked for, and the default
/// settings start with accepted values.
pub proof fn law_factors_stay_accepted(s: RenderSettings, f: u32)
    requires
        accepted_factor(s.anisotropic_filtering),
        accepted_factor(s.msaa),
    ensures
        accepted_factor(
            (if accepted_factor(f) {
                RenderSettings { anisotropic_filtering: f, ..s }
            } else {
                s
            }).anisotropic_filtering,
        ),
        accepted_factor(
            (if accepted_factor(f) {
                RenderSettings { msaa: f, ..s }
            } else {
                s
            }).msaa,
        ),
        accepted_factor(1),
{
    lemma_power_of_two_base(1);
}

} // verus!
