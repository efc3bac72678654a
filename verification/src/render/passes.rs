use vstd::prelude::*;

verus! {

/// Names the sub passes, mainly used in material creation to pick a sub pass id.
#[derive(Clone, Copy, PartialEq, Eq, Structural, Debug)]
pub enum SubPassType {
    LightCompute,
    Forward,
    PostProgress,
    Finished,
}

/// The id of a sub pass type within its render pass.
pub open spec fn sub_pass_id(t: SubPassType) -> u32 {
    match t {
        SubPassType::LightCompute => 0,
        SubPassType::Forward => 0,
        SubPassType::PostProgress => 1,
        SubPassType::Finished => 2,
    }
}

impl SubPassType {
    pub fn get_id(&self) -> (id: u32)
        ensures
            id == sub_pass_id(*self),
    {
        match self {
            // runs in its own compute queue
            SubPassType::LightCompute => 0,
            // the first pass in the rendering
            SubPassType::Forward => 0,
            // the second one
            SubPassType::PostProgress => 1,
            // no actual render pass at the moment
            SubPassType::Finished => 2,
        }
    }
}

/// The sub passes of the object pass.
#[derive(Clone, Copy, PartialEq, Eq, Structural, Debug)]
pub enum ObjectPassSubPasses {
    ForwardRenderingPass,
    HdrSortingPass,
}

/// The render passes pipelines are built against.
#[derive(Clone, Copy, PartialEq, Eq, Structural, Debug)]
pub enum RenderPassConf {
    ShadowPass,
    ObjectPass(ObjectPassSubPasses),
    BlurPass,
    AssemblePass,
}

/// The render pass objects that exist.
#[derive(Clone, Copy, PartialEq, Eq, Structural, Debug)]
pub enum RenderPassKind {
    Shadow,
    Object,
    Blur,
    Assemble,
}

/// The render pass and sub pass index a configuration stands for.
pub open spec fn conf_pass(conf: RenderPassConf) -> (RenderPassKind, u32) {
    match conf {
        RenderPassConf::ShadowPass => (RenderPassKind::Shadow, 0),
        RenderPassConf::ObjectPass(ObjectPassSubPasses::ForwardRenderingPass) => (
            RenderPassKind::Object,
            0,
        ),
        RenderPassConf::ObjectPass(ObjectPassSubPasses::HdrSortingPass) => (
            RenderPassKind::Object,
            1,
        ),
        RenderPassConf::BlurPass => (RenderPassKind::Blur, 0),
        RenderPassConf::AssemblePass => (RenderPassKind::Assemble, 0),
    }
}

impl RenderPassConf {
    /// Returns the render pass and its sub pass id for this configuration.
    pub fn conf_to_pass(&self) -> (r: (RenderPassKind, u32))
        ensures
            r == conf_pass(*self),
    {
        match self {
            RenderPassConf::ShadowPass => (RenderPassKind::Shadow, 0),
            RenderPassConf::ObjectPass(sub) => match sub {
                ObjectPassSubPasses::ForwardRenderingPass => (RenderPassKind::Object, 0),
                ObjectPassSubPasses::HdrSortingPass => (RenderPassKind::Object, 1),
            },
            RenderPassConf::BlurPass => (RenderPassKind::Blur, 0),
            RenderPassConf::AssemblePass => (RenderPassKind::Assemble, 0),
        }
    }
}

/// The stages a frame's command buffer goes through, in order.
#[derive(Clone, Copy, PartialEq, Eq, Structural, Debug)]
pub enum FrameStage {
    /// Light culling, between the first and the second render pass.
    LightCompute,
    /// Objects are added to the command buffer.
    Forward,
    /// An image with only the HDR fragments is created.
    HdrSorting,
    /// Horizontal blur.
    BlurH,
    /// Vertical blur.
    BlurV,
    /// The average luminosity is computed.
    ComputeAverageLumiosity,
    /// Tone mapping of the image of the first pass.
    Postprogress,
    /// Reached after the last pass.
    Finished,
}

/// The position of a stage in the order of a frame.
pub open spec fn stage_index(s: FrameStage) -> nat {
    match s {
        FrameStage::LightCompute => 0,
        FrameStage::Forward => 1,
        FrameStage::HdrSorting => 2,
        FrameStage::BlurH => 3,
        FrameStage::BlurV => 4,
        FrameStage::ComputeAverageLumiosity => 5,
        FrameStage::Postprogress => 6,
        FrameStage::Finished => 7,
    }
}

impl FrameStage {
    /// The stage after this one; `Finished` stays `Finished`.
    pub fn next_pass(&self) -> (n: FrameStage)
        ensures
            stage_index(n) == if stage_index(*self) < 7 {
                stage_index(*self) + 1
            } else {
                7
            },
    {
        match self {
            FrameStage::LightCompute => FrameStage::Forward,
            FrameStage::Forward => FrameStage::HdrSorting,
            FrameStage::HdrSorting => FrameStage::BlurH,
            FrameStage::BlurH => FrameStage::BlurV,
            FrameStage::BlurV => FrameStage::ComputeAverageLumiosity,
            FrameStage::ComputeAverageLumiosity => FrameStage::Postprogress,
            FrameStage::Postprogress => FrameStage::Finished,
            FrameStage::Finished => FrameStage::Finished,
        }
    }

    /// A frame can only be finished from the `Finished` stage.
    pub fn is_finished(&self) -> (r: bool)
        ensures
            r == (*self == FrameStage::Finished),
    {
        match self {
            FrameStage::Finished => true,
            _ => false,
        }
    }
}


/// Stages are told apart by their position, so `next_pass` names one stage, and
/// from every stage `Finished` is reached after `7 - stage_index` steps at most.
pub proof fn law_stage_order(a: FrameStage, b: FrameStage)
    ensures
        stage_index(a) == stage_index(b) ==> a == b,
        stage_index(a) <= 7,
        stage_index(a) == 7 <==> a == FrameStage::Finished,
{
}

} // verus!
