use vstd::prelude::*;
use crate::settings::engine_settings::BuildType;

verus! {

/// Describes how the debug layers are loaded.
#[derive(Clone, Debug)]
pub enum LayerLoading {
    /// Try to load all available layers.
    All,
    /// Load no layer at all.
    NoLayer,
    /// Try to load the layers with these names.
    Load(Vec<String>),
}

/// The Vulkan message types that are reported.
#[derive(Clone, Copy, PartialEq, Eq, Structural, Debug)]
pub struct MessageTypes {
    pub error: bool,
    pub warning: bool,
    pub performance_warning: bool,
    pub information: bool,
    pub debug: bool,
}

impl MessageTypes {
    /// Only errors.
    pub fn errors() -> (m: Self)
        ensures
            m == (MessageTypes {
                error: true,
                warning: false,
                performance_warning: false,
                information: false,
                debug: false,
            }),
    {
        MessageTypes {
            error: true,
            warning: false,
            performance_warning: false,
            information: false,
            debug: false,
        }
    }

    /// Errors and warnings.
    pub fn errors_and_warnings() -> (m: Self)
        ensures
            m == (MessageTypes {
                error: true,
                warning: true,
                performance_warning: false,
                information: false,
                debug: false,
            }),
    {
        MessageTypes {
            error: true,
            warning: true,
            performance_warning: false,
            information: false,
            debug: false,
        }
    }

    /// No message at all.
    pub fn none() -> (m: Self)
        ensures
            m == (MessageTypes {
                error: false,
                warning: false,
                performance_warning: false,
                information: false,
                debug: false,
            }),
    {
        MessageTypes {
            error: false,
            warning: false,
            performance_warning: false,
            information: false,
            debug: false,
        }
    }
}

/// The layer loading and the reported messages the engine sets up for a build mode:
/// debug builds load all layers and report errors and warnings, release builds with
/// debug messages load all layers and report errors, release builds load no layer
/// and report nothing.
pub fn debug_configuration(build_mode: BuildType) -> (r: (LayerLoading, MessageTypes))
    ensures
        match build_mode {
            BuildType::Debug => r.0 is All && r.1 == MessageTypes {
                error: true,
                warning: true,
                performance_warning: false,
                information: false,
                debug: false,
            },
            BuildType::ReleaseWithDebugMessages => r.0 is All && r.1 == MessageTypes {
                error: true,
                warning: false,
                performance_warning: false,
                information: false,
                debug: false,
            },
            BuildType::Release => r.0 is NoLayer && r.1 == MessageTypes {
                error: false,
                warning: false,
                performance_warning: false,
                information: false,
                debug: false,
            },
        },
{
    match build_mode {
        BuildType::Debug => (LayerLoading::All, MessageTypes::errors_and_warnings()),
        BuildType::ReleaseWithDebugMessages => (LayerLoading::All, MessageTypes::errors()),
        BuildType::Release => (LayerLoading::NoLayer, MessageTypes::none()),
    }
}

/// The name under which a debug message of these types is printed: the most severe
/// type that is set.
pub fn message_type_name(ty: MessageTypes) -> (name: &'static str)
    requires
        ty.error || ty.warning || ty.performance_warning || ty.information || ty.debug,
    ensures
        name@ == if ty.error {
            "error"@
        } else if ty.warning {
            "warning"@
        } else if ty.performance_warning {
            "performance_warning"@
        } else if ty.information {
            "information"@
        } else {
            "debug"@
        },
{
    if ty.error {
        "error"
    } else if ty.warning {
        "warning"
    } else if ty.performance_warning {
        "performance_warning"
    } else if ty.information {
        "information"
    } else {
        "debug"
    }
}

/// The layer that captures frames for RenderDoc.
pub open spec fn renderdoc_layer() -> Seq<char> {
    "VK_LAYER_RENDERDOC_Capture"@
}

/// The standard validation layer.
pub open spec fn validation_layer() -> Seq<char> {
    "VK_LAYER_LUNARG_standard_validation"@
}

/// The layers loaded for `LayerLoading::All`: the available RenderDoc and validation
/// layers, in the order they are available.
pub open spec fn all_debug_layers(available: Seq<Seq<char>>) -> Seq<Seq<char>> {
    available.filter(|n: Seq<char>| n == renderdoc_layer() || n == validation_layer())
}

/// The entries of `wanted` that name `layer`.
pub open spec fn copies_of(wanted: Seq<Seq<char>>, layer: Seq<char>) -> Seq<Seq<char>>
    decreases wanted.len(),
{
    if wanted.len() == 0 {
        Seq::empty()
    } else if wanted.last() == layer {
        copies_of(wanted.drop_last(), layer).push(layer)
    } else {
        copies_of(wanted.drop_last(), layer)
    }
}

proof fn lemma_all_debug_layers_push(s: Seq<Seq<char>>, x: Seq<char>)
    ensures
        all_debug_layers(s.push(x)) == if x == renderdoc_layer() || x == validation_layer() {
            all_debug_layers(s).push(x)
        } else {
            all_debug_layers(s)
        },
{
    s.lemma_filter_push(x, |n: Seq<char>| n == renderdoc_layer() || n == validation_layer());
}

proof fn lemma_copies_of_push(s: Seq<Seq<char>>, x: Seq<char>, layer: Seq<char>)
    ensures
        copies_of(s.push(x), layer) == if x == layer {
            copies_of(s, layer).push(x)
        } else {
            copies_of(s, layer)
        },
{
    assert(s.push(x).drop_last() =~= s);
}

/// The layers loaded for `LayerLoading::Load(wanted)`: each available layer, once for
/// every time it is named in `wanted`, in the order they are available.
pub open spec fn wanted_layers(available: Seq<Seq<char>>, wanted: Seq<Seq<char>>) -> Seq<Seq<char>>
    decreases available.len(),
{
    if available.len() == 0 {
        Seq::empty()
    } else {
        wanted_layers(available.drop_last(), wanted) + copies_of(wanted, available.last())
    }
}

/// The views of a list of strings.
pub open spec fn views(v: Seq<String>) -> Seq<Seq<char>> {
    v.map_values(|s: String| s@)
}

/// The debug layers to load, from the layers the system makes available: none in
/// release mode, otherwise as `layer_loading` says.
pub fn select_debug_layers(build_mode: BuildType, layer_loading: &LayerLoading, available: &Vec<String>) -> (layers: Vec<String>)
    ensures
        views(layers@) == if build_mode == BuildType::Release {
            Seq::empty()
        } else {
            match layer_loading {
                LayerLoading::All => all_debug_layers(views(available@)),
                LayerLoading::NoLayer => Seq::empty(),
                LayerLoading::Load(wanted) => wanted_layers(views(available@), views(wanted@)),
            }
        },
{
    let mut layers: Vec<String> = Vec::new();
    if build_mode == BuildType::Release {
        assert(views(layers@) =~= Seq::empty());
        return layers;
    }
    match layer_loading {
        LayerLoading::All => {
            let renderdoc = String::from_str("VK_LAYER_RENDERDOC_Capture");
            let validation = String::from_str("VK_LAYER_LUNARG_standard_validation");
            let n = available.len();
            for i in 0..n
                invariant
                    n == available@.len(),
                    renderdoc@ == renderdoc_layer(),
                    validation@ == validation_layer(),
                    views(layers@) =~= all_debug_layers(views(available@).take(i as int)),
            {
                let ghost prev = views(layers@);
                let ghost x = available@[i as int]@;
                proof {
                    let a = views(available@);
                    assert(a.take(i + 1) =~= a.take(i as int).push(x));
                    lemma_all_debug_layers_push(a.take(i as int), x);
                }
                // a name is at most one of the two layers
                let is_renderdoc = available[i] == renderdoc;
                assert(is_renderdoc == (x == renderdoc@));
                let is_validation = available[i] == validation;
                assert(is_validation == (x == validation@));
                if is_renderdoc || is_validation {
                    let c = available[i].clone();
                    layers.push(c);
                    assert(views(layers@) =~= prev.push(x));
                }
            }
            assert(views(available@).take(n as int) =~= views(available@));
        },
        LayerLoading::NoLayer => {
            assert(views(layers@) =~= Seq::empty());
        },
        LayerLoading::Load(wanted) => {
            let n = available.len();
            let m = wanted.len();
            for i in 0..n
                invariant
                    n == available@.len(),
                    m == wanted@.len(),
                    views(layers@) =~= wanted_layers(views(available@).take(i as int), views(wanted@)),
            {
                let ghost before = views(layers@);
                let ghost item = available@[i as int]@;
                for j in 0..m
                    invariant
                        n == available@.len(),
                        m == wanted@.len(),
                        i < n,
                        item == available@[i as int]@,
                        views(layers@) =~= before + copies_of(views(wanted@).take(j as int), item),
                {
                    let ghost prev = views(layers@);
                    proof {
                        let w = views(wanted@);
                        assert(w.take(j + 1) =~= w.take(j as int).push(w[j as int]));
                        lemma_copies_of_push(w.take(j as int), w[j as int], item);
                    }
                    if wanted[j] == available[i] {
                        let c = available[i].clone();
                        layers.push(c);
                        assert(views(layers@) =~= prev.push(wanted@[j as int]@));
                    }
                }
                proof {
                    assert(views(wanted@).take(m as int) =~= views(wanted@));
                    let pre = views(available@).take(i + 1);
                    assert(pre.drop_last() =~= views(available@).take(i as int));
                    assert(pre.last() == item);
                }
            }
            assert(views(available@).take(n as int) =~= views(available@));
        },
    }
    layers
}

/// The kinds of physical devices.
#[derive(Clone, Copy, PartialEq, Eq, Structural, Debug)]
pub enum PhysicalDeviceType {
    IntegratedGpu,
    DiscreteGpu,
    VirtualGpu,
    Cpu,
    Other,
}

/// The score a device of this type gets when the best device is picked.
pub open spec fn device_score(t: PhysicalDeviceType) -> int {
    match t {
        PhysicalDeviceType::IntegratedGpu => 10,
        PhysicalDeviceType::DiscreteGpu => 50,
        PhysicalDeviceType::VirtualGpu => 20,
        PhysicalDeviceType::Cpu => 5,
        PhysicalDeviceType::Other => 0,
    }
}

fn score_of(t: PhysicalDeviceType) -> (s: u32)
    ensures
        s == device_score(t),
{
    match t {
        PhysicalDeviceType::IntegratedGpu => 10,
        PhysicalDeviceType::DiscreteGpu => 50,
        PhysicalDeviceType::VirtualGpu => 20,
        PhysicalDeviceType::Cpu => 5,
        PhysicalDeviceType::Other => 0,
    }
}

/// Picks the best of the available devices: the one with the highest score, and of
/// several with that score the last one. `None` if there is no device.
pub fn rank_devices(devices: &Vec<PhysicalDeviceType>) -> (best: Option<usize>)
    ensures
        match best {
            None => devices@.len() == 0,
            Some(b) => {
                &&& b < devices@.len()
                &&& forall|j: int|
                    0 <= j < devices@.len() ==> device_score(#[trigger] devices@[j])
                        <= device_score(devices@[b as int])
                &&& forall|j: int|
                    b < j < devices@.len() ==> device_score(#[trigger] devices@[j])
                        < device_score(devices@[b as int])
            },
        },
{
    let n = devices.len();
    if n == 0 {
        return None;
    }
    let mut best: usize = 0;
    let mut best_score = score_of(devices[0]);
    for i in 1..n
        invariant
            n == devices@.len(),
            best < i,
            best_score == device_score(devices@[best as int]),
            forall|j: int| 0 <= j < i ==> device_score(#[trigger] devices@[j]) <= best_score,
            forall|j: int| best < j < i ==> device_score(#[trigger] devices@[j]) < best_score,
    {
        let s = score_of(devices[i]);
        if s >= best_score {
            best = i;
            best_score = s;
        }
    }
    Some(best)
}

/// The present modes of a swapchain.
#[derive(Clone, Copy, PartialEq, Eq, Structural, Debug)]
pub enum PresentMode {
    Fifo,
    Immediate,
}

/// The present mode: with v-sync always `Fifo`; without it `Immediate` if the surface
/// supports it, otherwise `Fifo`.
pub fn choose_present_mode(v_sync: bool, immediate_supported: bool) -> (mode: PresentMode)
    ensures
        mode == if !v_sync && immediate_supported {
            PresentMode::Immediate
        } else {
            PresentMode::Fifo
        },
{
    if v_sync {
        PresentMode::Fifo
    } else if immediate_supported {
        PresentMode::Immediate
    } else {
        PresentMode::Fifo
    }
}

/// Device types rank discrete GPUs above virtual GPUs, virtual above integrated
/// GPUs, integrated GPUs above CPUs and CPUs above other devices. So whenever some
/// available device is a GPU, the device `rank_devices` picks is a GPU.
pub proof fn law_gpus_rank_first(devices: Seq<PhysicalDeviceType>, b: int)
    requires
        0 <= b < devices.len(),
        forall|j: int| 0 <= j < devices.len() ==> device_score(#[trigger] devices[j]) <= device_score(devices[b]),
    ensures
        device_score(PhysicalDeviceType::DiscreteGpu) > device_score(PhysicalDeviceType::VirtualGpu),
        device_score(PhysicalDeviceType::VirtualGpu) > device_score(PhysicalDeviceType::IntegratedGpu),
        device_score(PhysicalDeviceType::IntegratedGpu) > device_score(PhysicalDeviceType::Cpu),
        device_score(PhysicalDeviceType::Cpu) > device_score(PhysicalDeviceType::Other),
        (exists|j: int|
            0 <= j < devices.len() && (devices[j] == PhysicalDeviceType::DiscreteGpu || devices[j]
                == PhysicalDeviceType::VirtualGpu || devices[j] == PhysicalDeviceType::IntegratedGpu))
            ==> (devices[b] == PhysicalDeviceType::DiscreteGpu || devices[b]
            == PhysicalDeviceType::VirtualGpu || devices[b] == PhysicalDeviceType::IntegratedGpu),
        (exists|j: int| 0 <= j < devices.len() && devices[j] == PhysicalDeviceType::DiscreteGpu)
            ==> devices[b] == PhysicalDeviceType::DiscreteGpu,
{
    if exists|j: int|
        0 <= j < devices.len() && (devices[j] == PhysicalDeviceType::DiscreteGpu || devices[j]
            == PhysicalDeviceType::VirtualGpu || devices[j] == PhysicalDeviceType::IntegratedGpu) {
        let j = choose|j: int|
            0 <= j < devices.len() && (devices[j] == PhysicalDeviceType::DiscreteGpu || devices[j]
                == PhysicalDeviceType::VirtualGpu || devices[j] == PhysicalDeviceType::IntegratedGpu);
        assert(device_score(devices[j]) <= device_score(devices[b]));
    }
    if exists|j: int| 0 <= j < devices.len() && devices[j] == PhysicalDeviceType::DiscreteGpu {
        let j = choose|j: int| 0 <= j < devices.len() && devices[j] == PhysicalDeviceType::DiscreteGpu;
        assert(device_score(devices[j]) <= device_score(devices[b]));
    }
}

} // verus!
