use vstd::prelude::*;
use vstd::string::StringExecFns;
use crate::resources::naming::{NameRegistry, suffixed, suffixed_name};
use crate::resources::managers::chosen_name;
use crate::resources::name_order::sorted_names;
use super::passes::RenderPassConf;

verus! {

/// A logical operation applied to the framebuffer contents when blending.
#[derive(Clone, Copy, PartialEq, Eq, Structural, Debug)]
pub enum LogicOp {
    Clear,
    And,
    AndReverse,
    Copy,
    AndInverted,
    Noop,
    Xor,
    Or,
    Nor,
    Equivalent,
    Invert,
    OrReverse,
    CopyInverted,
    OrInverted,
    Nand,
    /// Every bit set (the operation Vulkan calls `SET`).
    SetAll,
}

/// How source and destination are combined when blending.
#[derive(Clone, Copy, PartialEq, Eq, Structural, Debug)]
pub enum BlendOp {
    Add,
    Subtract,
    ReverseSubtract,
    Min,
    Max,
}

/// A blend factor.
#[derive(Clone, Copy, PartialEq, Eq, Structural, Debug)]
pub enum BlendFactor {
    Zero,
    One,
    SrcColor,
    OneMinusSrcColor,
    DstColor,
    OneMinusDstColor,
    SrcAlpha,
    OneMinusSrcAlpha,
    DstAlpha,
    OneMinusDstAlpha,
    ConstantColor,
    OneMinusConstantColor,
    ConstantAlpha,
    OneMinusConstantAlpha,
    SrcAlphaSaturate,
    Src1Color,
    OneMinusSrc1Color,
    Src1Alpha,
    OneMinusSrc1Alpha,
}

/// The blending of one attachment.
#[derive(Clone, Copy, PartialEq, Eq, Structural, Debug)]
pub struct AttachmentBlend {
    pub enabled: bool,
    pub color_op: BlendOp,
    pub color_source: BlendFactor,
    pub color_destination: BlendFactor,
    pub alpha_op: BlendOp,
    pub alpha_source: BlendFactor,
    pub alpha_destination: BlendFactor,
    pub mask_red: bool,
    pub mask_green: bool,
    pub mask_blue: bool,
    pub mask_alpha: bool,
}

/// The kinds of blending a pipeline can do.
#[derive(Clone, Copy, PartialEq, Eq, Structural, Debug)]
pub enum BlendTypes {
    /// The same custom blending for all attachments.
    BlendCollective(AttachmentBlend),
    /// No blending.
    BlendPassThrough,
    /// Alpha blending.
    BlendAlphaBlending,
    /// Blending by a logical operation.
    BlendLogicOp(LogicOp),
}

/// Which faces of a polygon are discarded.
#[derive(Clone, Copy, PartialEq, Eq, Structural, Debug)]
pub enum CullMode {
    Disabled,
    Front,
    Back,
    FrontAndBack,
}

/// The requirements a material can have for a pipeline. Used to look for a pipeline
/// with these requirements or to create one.
#[derive(Clone, Debug)]
pub struct PipelineRequirements {
    /// How the blending should be done.
    pub blend_type: BlendTypes,
    /// Which side of a polygon should be discarded.
    pub culling: CullMode,
    /// The needed render pass.
    pub render_pass: RenderPassConf,
    /// The shader set that should be used.
    pub shader_set: String,
}

/// Two requirements ask for the same configuration.
pub open spec fn same_requirements(a: PipelineRequirements, b: PipelineRequirements) -> bool {
    &&& a.blend_type == b.blend_type
    &&& a.culling == b.culling
    &&& a.render_pass == b.render_pass
    &&& a.shader_set@ == b.shader_set@
}

impl PipelineRequirements {
    /// Returns true if `other` has the same configuration as `self`.
    pub fn compare(&self, other: &Self) -> (r: bool)
        ensures
            r == same_requirements(*self, *other),
    {
        if self.blend_type != other.blend_type {
            return false;
        }
        if self.culling != other.culling {
            return false;
        }
        if self.render_pass != other.render_pass {
            return false;
        }
        if self.shader_set != other.shader_set {
            return false;
        }
        true
    }
}

/// The part of a pipeline name that describes its blending.
pub open spec fn blend_type_name(b: BlendTypes) -> Seq<char> {
    match b {
        BlendTypes::BlendCollective(_) => "CustomBlending"@,
        BlendTypes::BlendPassThrough => "PassThrough"@,
        BlendTypes::BlendAlphaBlending => "AlphaBlending"@,
        BlendTypes::BlendLogicOp(_) => "LogicBlending"@,
    }
}

/// The part of a pipeline name that describes its culling.
pub open spec fn cull_mode_name(c: CullMode) -> Seq<char> {
    match c {
        CullMode::Disabled => "NoCulling"@,
        CullMode::Front => "FrontCulling"@,
        CullMode::Back => "BackCulling"@,
        CullMode::FrontAndBack => "FrontAndBackCulling"@,
    }
}

/// The name a pipeline with this blending and culling is stored under when it is free.
pub open spec fn pipeline_base_name(b: BlendTypes, c: CullMode) -> Seq<char> {
    "Pipeline_"@ + cull_mode_name(c) + "_"@ + blend_type_name(b)
}

/// `name` is the name a new pipeline gets in a manager holding the names `taken`:
/// `base` when it is free, otherwise `base_i` for the smallest free `i >= 1`.
pub open spec fn chosen_pipeline_name(taken: Set<Seq<char>>, base: Seq<char>, name: Seq<char>) -> bool {
    if !taken.contains(base) {
        name == base
    } else {
        exists|i: nat|
            1 <= i && name == suffixed(base, i) && forall|j: nat|
                1 <= j < i ==> #[trigger] taken.contains(suffixed(base, j))
    }
}

fn blend_type_str(b: &BlendTypes) -> (s: &'static str)
    ensures
        s@ == blend_type_name(*b),
{
    match b {
        BlendTypes::BlendCollective(_) => "CustomBlending",
        BlendTypes::BlendPassThrough => "PassThrough",
        BlendTypes::BlendAlphaBlending => "AlphaBlending",
        BlendTypes::BlendLogicOp(_) => "LogicBlending",
    }
}

fn cull_mode_str(c: &CullMode) -> (s: &'static str)
    ensures
        s@ == cull_mode_name(*c),
{
    match c {
        CullMode::Disabled => "NoCulling",
        CullMode::Front => "FrontCulling",
        CullMode::Back => "BackCulling",
        CullMode::FrontAndBack => "FrontAndBackCulling",
    }
}

/// A pipeline stored with the requirements it was built for.
pub struct PipelineEntry<P> {
    pub requirements: PipelineRequirements,
    pub pipeline: P,
}

/// Manages all available pipelines by name.
pub struct PipelineManager<P> {
    pipelines: NameRegistry<PipelineEntry<P>>,
}

impl<P> PipelineManager<P> {
    /// The invariant of the manager.
    pub closed spec fn wf(self) -> bool {
        self.pipelines.wf()
    }

    /// The pipelines by name.
    pub closed spec fn view(self) -> Map<Seq<char>, PipelineEntry<P>> {
        self.pipelines.view()
    }

    /// The names of the pipelines, in increasing order.
    pub closed spec fn names(self) -> Seq<Seq<char>> {
        self.pipelines.names()
    }

    /// A manager without any pipeline.
    pub fn new() -> (m: Self)
        ensures
            m.wf(),
            m.view() == Map::<Seq<char>, PipelineEntry<P>>::empty(),
            m.names() == Seq::<Seq<char>>::empty(),
            m.view().dom().finite(),
    {
        PipelineManager { pipelines: NameRegistry::new() }
    }

    /// Returns true if there is a pipeline with this name.
    pub fn has_pipeline(&self, name: &str) -> (r: bool)
        requires
            self.wf(),
        ensures
            r == self.view().contains_key(name@),
    {
        self.pipelines.contains(name)
    }

    /// Returns the pipeline with this name or, if there is none, the default pipeline
    /// `default`.
    pub fn get_pipeline_by_name<'a>(&'a self, name: &str, default: &'a P) -> (p: &'a P)
        requires
            self.wf(),
        ensures
            *p == if self.view().contains_key(name@) {
                self.view()[name@].pipeline
            } else {
                *default
            },
    {
        match self.pipelines.get(name) {
            Some(entry) => &entry.pipeline,
            None => default,
        }
    }

    /// Adds a pipeline under `name`, or under `name_i` for the smallest free `i` if
    /// `name` is taken. Returns the name it was added under.
    pub fn add_pipeline(&mut self, name: &str, requirements: PipelineRequirements, pipeline: P) -> (added: String)
        requires
            old(self).wf(),
            old(self).view().dom().len() < usize::MAX,
        ensures
            final(self).wf(),
            chosen_name(old(self).view().dom(), name@, added@),
            !old(self).view().contains_key(added@),
            final(self).view() == old(self).view().insert(
                added@,
                PipelineEntry { requirements, pipeline },
            ),
            exists|p: int|
                0 <= p <= old(self).names().len() && final(self).names() == old(
                    self,
                ).names().insert(p, added@),
            final(self).view().dom().finite(),
    {
        proof {
            self.pipelines.lemma_view();
        }
        let entry = PipelineEntry { requirements, pipeline };
        let added = if self.pipelines.contains(name) {
            let i = self.pipelines.free_suffix(name, 0);
            let unique = suffixed_name(name, i);
            assert(unique@ == suffixed(name@, i as nat));
            unique
        } else {
            String::from_str(name)
        };
        let ret = added.clone();
        let ghost before = self.pipelines.names();
        self.pipelines.insert_new(added, entry);
        proof {
            self.pipelines.lemma_view();
            let p = choose|p: int|
                0 <= p <= before.len() && self.pipelines.names() == before.insert(p, ret@);
            assert(self.names() == old(self).names().insert(p, ret@));
        }
        ret
    }

    /// The name for a new pipeline with this blending and culling:
    /// `Pipeline_<culling>_<blending>`, or that name followed by `_i` for the smallest
    /// free `i >= 1` when it is taken.
    pub fn create_pipeline_name(&self, blend_type: &BlendTypes, cull_mode: &CullMode) -> (name: String)
        requires
            self.wf(),
            self.view().dom().len() + 1 < usize::MAX,
        ensures
            !self.view().contains_key(name@),
            chosen_pipeline_name(self.view().dom(), pipeline_base_name(*blend_type, *cull_mode), name@),
    {
        proof {
            self.pipelines.lemma_view();
        }
        let mut base = String::from_str("Pipeline_");
        base.append(cull_mode_str(cull_mode));
        base.append("_");
        base.append(blend_type_str(blend_type));
        if self.pipelines.contains(base.as_str()) {
            let i = self.pipelines.free_suffix(base.as_str(), 1);
            let name = suffixed_name(base.as_str(), i);
            assert(name@ == suffixed(base@, i as nat));
            name
        } else {
            base
        }
    }

    /// The first pipeline, in the order of the names, built for the same requirements.
    pub fn find_by_requirements(&self, requirements: &PipelineRequirements) -> (r: Option<&P>)
        requires
            self.wf(),
        ensures
            match r {
                Some(p) => exists|i: int|
                    0 <= i < self.names().len() && self.first_match(*requirements, i) && *p
                        == self.view()[self.names()[i]].pipeline,
                None => !self.has_match(*requirements),
            },
            sorted_names(self.names()),
    {
        proof {
            self.pipelines.lemma_sorted();
        }
        match self.position_by_requirements(requirements) {
            Some(i) => {
                proof {
                    self.pipelines.lemma_view();
                }
                Some(&self.pipelines.get_at(i).pipeline)
            },
            None => None,
        }
    }

    /// The pipeline at position `i` is the first built for requirements equal to
    /// `requirements`.
    pub open spec fn first_match(self, requirements: PipelineRequirements, i: int) -> bool {
        &&& same_requirements(self.view()[self.names()[i]].requirements, requirements)
        &&& forall|j: int|
            0 <= j < i ==> !same_requirements(
                #[trigger] self.view()[self.names()[j]].requirements,
                requirements,
            )
    }

    /// Some pipeline is built for requirements equal to `requirements`.
    pub open spec fn has_match(self, requirements: PipelineRequirements) -> bool {
        exists|i: int|
            0 <= i < self.names().len() && same_requirements(
                #[trigger] self.view()[self.names()[i]].requirements,
                requirements,
            )
    }

    /// The position of the first pipeline built for the same requirements.
    fn position_by_requirements(&self, requirements: &PipelineRequirements) -> (r: Option<usize>)
        requires
            self.wf(),
        ensures
            match r {
                Some(i) => i < self.names().len() && self.first_match(*requirements, i as int),
                None => !self.has_match(*requirements),
            },
    {
        proof {
            self.pipelines.lemma_view();
        }
        let n = self.pipelines.len();
        for i in 0..n
            invariant
                n == self.names().len(),
                forall|j: int|
                    0 <= j < self.names().len() ==> #[trigger] self.view()[self.names()[j]]
                        == self.pipelines.value_at(j),
                forall|j: int|
                    0 <= j < i ==> !same_requirements(
                        #[trigger] self.view()[self.names()[j]].requirements,
                        *requirements,
                    ),
        {
            let entry = self.pipelines.get_at(i);
            if entry.requirements.compare(requirements) {
                proof {
                    let k = self.names()[i as int];
                    assert(self.view()[k] == self.pipelines.value_at(i as int));
                }
                return Some(i);
            }
        }
        None
    }

    /// The name of the pipeline for `requirements`: the first one built for the same
    /// requirements, or else a new one that `build` makes, stored under the name
    /// `create_pipeline_name` gives.
    pub fn get_pipeline_by_requirements<F: FnOnce(&PipelineRequirements) -> P>(
        &mut self,
        requirements: PipelineRequirements,
        build: F,
    ) -> (name: String)
        requires
            old(self).wf(),
            old(self).view().dom().len() + 1 < usize::MAX,
            call_requires(build, (&requirements,)),
        ensures
            final(self).wf(),
            old(self).has_match(requirements) ==> {
                &&& final(self).view() == old(self).view()
                &&& final(self).names() == old(self).names()
                &&& exists|i: int|
                    0 <= i < old(self).names().len() && old(self).first_match(requirements, i)
                        && name@ == old(self).names()[i]
            },
            !old(self).has_match(requirements) ==> {
                &&& !old(self).view().contains_key(name@)
                &&& chosen_pipeline_name(
                    old(self).view().dom(),
                    pipeline_base_name(requirements.blend_type, requirements.culling),
                    name@,
                )
                &&& final(self).view() == old(self).view().insert(
                    name@,
                    PipelineEntry { requirements, pipeline: final(self).view()[name@].pipeline },
                )
                &&& exists|p: int|
                    0 <= p <= old(self).names().len() && final(self).names() == old(
                        self,
                    ).names().insert(p, name@)
                &&& call_ensures(build, (&requirements,), final(self).view()[name@].pipeline)
            },
    {
        match self.position_by_requirements(&requirements) {
            Some(i) => self.pipelines.name_at(i).clone(),
            None => {
                let name = self.create_pipeline_name(&requirements.blend_type, &requirements.culling);
                let pipeline = build(&requirements);
                let ret = name.clone();
                self.pipelines.insert_new(name, PipelineEntry { requirements, pipeline });
                proof {
                    self.pipelines.lemma_view();
                }
                ret
            },
        }
    }
}

/// Once a pipeline is added for some requirements, a search by those requirements
/// finds a pipeline: the manager holds, at some position, an entry built for them.
pub proof fn law_added_requirements_are_found<P>(
    before: PipelineManager<P>,
    after: PipelineManager<P>,
    added: Seq<char>,
    requirements: PipelineRequirements,
    pipeline: P,
)
    requires
        before.wf(),
        after.wf(),
        !before.view().contains_key(added),
        after.view() == before.view().insert(added, PipelineEntry { requirements, pipeline }),
        exists|p: int|
            0 <= p <= before.names().len() && after.names() == before.names().insert(p, added),
    ensures
        exists|i: int|
            0 <= i < after.names().len() && same_requirements(
                #[trigger] after.view()[after.names()[i]].requirements,
                requirements,
            ),
{
    let p = choose|p: int|
        0 <= p <= before.names().len() && after.names() == before.names().insert(p, added);
    assert(after.names()[p] == added);
    assert(same_requirements(after.view()[after.names()[p]].requirements, requirements));
}

/// Requirements count as the same only when they ask for the same blending, the
/// same culling, the same render pass and the same shader set; so a pipeline found
/// by requirements was built for exactly the requested render pass, blending,
/// culling and shader set.
pub proof fn law_found_pipeline_fits_requirements<P>(
    m: PipelineManager<P>,
    requirements: PipelineRequirements,
    a: PipelineRequirements,
    i: int,
)
    requires
        0 <= i < m.names().len(),
        m.first_match(requirements, i),
    ensures
        same_requirements(a, requirements) ==> a.blend_type == requirements.blend_type
            && a.culling == requirements.culling && a.render_pass == requirements.render_pass
            && a.shader_set@ == requirements.shader_set@,
        m.view()[m.names()[i]].requirements.render_pass == requirements.render_pass,
        m.view()[m.names()[i]].requirements.blend_type == requirements.blend_type,
        m.view()[m.names()[i]].requirements.culling == requirements.culling,
        m.view()[m.names()[i]].requirements.shader_set@ == requirements.shader_set@,
{
}

} // verus!
