use jakar_engine::render::builder::{
    choose_present_mode, debug_configuration, message_type_name, rank_devices, select_debug_layers, LayerLoading,
    MessageTypes, PhysicalDeviceType, PresentMode,
};
use jakar_engine::render::debug::RenderDebug;
use jakar_engine::render::images::{bloom_level_dimensions, scaled_ldr_dimensions};
use jakar_engine::render::passes::{FrameStage, ObjectPassSubPasses, RenderPassConf, RenderPassKind, SubPassType};
use jakar_engine::render::pipeline::{BlendTypes, CullMode, LogicOp, PipelineManager, PipelineRequirements};
use jakar_engine::render::shader::DefaultShaderSets;
use jakar_engine::settings::engine_settings::BuildType;

fn requirements(shader: &str, culling: CullMode) -> PipelineRequirements {
    PipelineRequirements {
        blend_type: BlendTypes::BlendPassThrough,
        culling,
        render_pass: RenderPassConf::ObjectPass(ObjectPassSubPasses::ForwardRenderingPass),
        shader_set: shader.to_string(),
    }
}

#[test]
fn sub_pass_ids() {
    assert_eq!(SubPassType::LightCompute.get_id(), 0);
    assert_eq!(SubPassType::Forward.get_id(), 0);
    assert_eq!(SubPassType::PostProgress.get_id(), 1);
    assert_eq!(SubPassType::Finished.get_id(), 2);
}

#[test]
fn render_pass_configurations() {
    assert_eq!(RenderPassConf::ShadowPass.conf_to_pass(), (RenderPassKind::Shadow, 0));
    assert_eq!(RenderPassConf::ObjectPass(ObjectPassSubPasses::ForwardRenderingPass).conf_to_pass(), (RenderPassKind::Object, 0));
    assert_eq!(RenderPassConf::ObjectPass(ObjectPassSubPasses::HdrSortingPass).conf_to_pass(), (RenderPassKind::Object, 1));
    assert_eq!(RenderPassConf::BlurPass.conf_to_pass(), (RenderPassKind::Blur, 0));
    assert_eq!(RenderPassConf::AssemblePass.conf_to_pass(), (RenderPassKind::Assemble, 0));
}

#[test]
fn law_stage_order_on_values() {
    let mut stage = FrameStage::LightCompute;
    let mut seen = vec![stage];
    for _ in 0..7 {
        assert!(!stage.is_finished());
        stage = stage.next_pass();
        seen.push(stage);
    }
    assert!(stage.is_finished());
    assert_eq!(stage.next_pass(), FrameStage::Finished);
    assert_eq!(
        seen,
        vec![
            FrameStage::LightCompute,
            FrameStage::Forward,
            FrameStage::HdrSorting,
            FrameStage::BlurH,
            FrameStage::BlurV,
            FrameStage::ComputeAverageLumiosity,
            FrameStage::Postprogress,
            FrameStage::Finished,
        ]
    );
}

#[test]
fn debug_configurations() {
    let (l, m) = debug_configuration(BuildType::Debug);
    assert!(matches!(l, LayerLoading::All));
    assert_eq!(m, MessageTypes::errors_and_warnings());
    assert!(m.error && m.warning && !m.information);
    let (l, m) = debug_configuration(BuildType::ReleaseWithDebugMessages);
    assert!(matches!(l, LayerLoading::All));
    assert_eq!(m, MessageTypes::errors());
    let (l, m) = debug_configuration(BuildType::Release);
    assert!(matches!(l, LayerLoading::NoLayer));
    assert_eq!(m, MessageTypes::none());
}

#[test]
fn message_names_pick_most_severe() {
    let mut t = MessageTypes::none();
    t.debug = true;
    assert_eq!(message_type_name(t), "debug");
    t.information = true;
    assert_eq!(message_type_name(t), "information");
    t.performance_warning = true;
    assert_eq!(message_type_name(t), "performance_warning");
    assert_eq!(message_type_name(MessageTypes::errors_and_warnings()), "error");
}

#[test]
fn debug_layer_selection() {
    let available: Vec<String> = ["VK_LAYER_LUNARG_standard_validation", "VK_LAYER_other", "VK_LAYER_RENDERDOC_Capture"]
        .iter()
        .map(|s| s.to_string())
        .collect();
    let all = select_debug_layers(BuildType::Debug, &LayerLoading::All, &available);
    assert_eq!(all, vec!["VK_LAYER_LUNARG_standard_validation".to_string(), "VK_LAYER_RENDERDOC_Capture".to_string()]);
    assert!(select_debug_layers(BuildType::Release, &LayerLoading::All, &available).is_empty());
    assert!(select_debug_layers(BuildType::Debug, &LayerLoading::NoLayer, &available).is_empty());
    let wanted = LayerLoading::Load(vec!["VK_LAYER_other".to_string(), "VK_LAYER_missing".to_string()]);
    assert_eq!(select_debug_layers(BuildType::Debug, &wanted, &available), vec!["VK_LAYER_other".to_string()]);
}

#[test]
fn device_ranking() {
    let (cpu, integrated) = (PhysicalDeviceType::Cpu, PhysicalDeviceType::IntegratedGpu);
    let (discrete, virtual_gpu) = (PhysicalDeviceType::DiscreteGpu, PhysicalDeviceType::VirtualGpu);
    assert_eq!(rank_devices(&vec![]), None);
    assert_eq!(rank_devices(&vec![cpu, integrated, discrete, virtual_gpu]), Some(2));
    assert_eq!(rank_devices(&vec![integrated, integrated]), Some(1));
    assert_eq!(rank_devices(&vec![PhysicalDeviceType::Other, cpu]), Some(1));
}

#[test]
fn present_modes() {
    assert_eq!(choose_present_mode(true, true), PresentMode::Fifo);
    assert_eq!(choose_present_mode(false, true), PresentMode::Immediate);
    assert_eq!(choose_present_mode(false, false), PresentMode::Fifo);
}

#[test]
fn bloom_levels_halve() {
    assert_eq!(bloom_level_dimensions([1600, 900], 4, 2), vec![[800, 450], [400, 225], [200, 112], [100, 56]]);
    assert_eq!(bloom_level_dimensions([8, 8], 0, 1), vec![[8, 8]]);
    assert_eq!(bloom_level_dimensions([4, 64], 6, 1), vec![[4, 64], [2, 32], [1, 16]]);
}

#[test]
fn scaled_ldr_chain() {
    assert_eq!(scaled_ldr_dimensions([8, 2]), vec![[4, 1], [2, 1], [1, 1]]);
    assert_eq!(scaled_ldr_dimensions([1, 1]), vec![[0, 0]]);
}

#[test]
fn frame_counter_and_mesh_average() {
    let mut d = RenderDebug::new();
    assert_eq!(d.update(false), None);
    assert_eq!(d.update(false), None);
    assert_eq!(d.current_count(), 2);
    assert_eq!(d.update(true), Some(2));
    assert_eq!(d.current_count(), 1);
    d.update_avr_mesh(100);
    assert_eq!(d.average_mesh_time(), 100);
    d.update_avr_mesh(51);
    assert_eq!(d.average_mesh_time(), 75);
}

#[test]
fn shader_sets() {
    let s = DefaultShaderSets::new();
    for name in ["Pbr", "Shadow", "Wireframe", "PpBlur", "PpExposure", "PpResolveHdr"] {
        assert!(s.has_shader_set(name));
    }
    assert!(!s.has_shader_set("pbr"));
}

#[test]
fn requirements_compare() {
    let a = requirements("Pbr", CullMode::Back);
    assert!(a.compare(&requirements("Pbr", CullMode::Back)));
    assert!(!a.compare(&requirements("Pbr", CullMode::Front)));
    assert!(!a.compare(&requirements("Wireframe", CullMode::Back)));
    let mut b = requirements("Pbr", CullMode::Back);
    b.blend_type = BlendTypes::BlendLogicOp(LogicOp::SetAll);
    assert!(!a.compare(&b));
}

#[test]
fn pipeline_names_and_lookup() {
    let mut m = PipelineManager::new();
    let name = m.create_pipeline_name(&BlendTypes::BlendPassThrough, &CullMode::Back);
    assert_eq!(name, "Pipeline_BackCulling_PassThrough");
    assert_eq!(m.add_pipeline(&name, requirements("Pbr", CullMode::Back), 1), name);
    assert_eq!(m.create_pipeline_name(&BlendTypes::BlendPassThrough, &CullMode::Back), "Pipeline_BackCulling_PassThrough_1");
    assert!(m.has_pipeline(&name));
    assert_eq!(*m.get_pipeline_by_name(&name, &0), 1);
    assert_eq!(*m.get_pipeline_by_name("missing", &0), 0);
    assert_eq!(m.add_pipeline(&name, requirements("Shadow", CullMode::Back), 2), "Pipeline_BackCulling_PassThrough_0");
    assert_eq!(m.find_by_requirements(&requirements("Shadow", CullMode::Back)), Some(&2));
    assert_eq!(m.find_by_requirements(&requirements("Pbr", CullMode::Front)), None);
}

#[test]
fn law_added_requirements_are_found_on_values() {
    let mut m = PipelineManager::new();
    m.add_pipeline("p", requirements("Pbr", CullMode::Back), 'x');
    assert_eq!(m.find_by_requirements(&requirements("Pbr", CullMode::Back)), Some(&'x'));
    m.add_pipeline("p", requirements("Pbr", CullMode::Back), 'y');
    assert_eq!(m.find_by_requirements(&requirements("Pbr", CullMode::Back)), Some(&'x'));
}

#[test]
fn pipeline_get_or_create() {
    let mut m: PipelineManager<String> = PipelineManager::new();
    let mut built = 0;
    let name = m.get_pipeline_by_requirements(requirements("Pbr", CullMode::Back), |r: &PipelineRequirements| {
        built += 1;
        format!("pipeline for {}", r.shader_set)
    });
    assert_eq!(name, "Pipeline_BackCulling_PassThrough");
    assert_eq!(built, 1);
    let again = m.get_pipeline_by_requirements(requirements("Pbr", CullMode::Back), |_r: &PipelineRequirements| {
        String::from("never built")
    });
    assert_eq!(again, name);
    let default = String::from("default");
    assert_eq!(m.get_pipeline_by_name(&name, &default), "pipeline for Pbr");
    assert_eq!(m.get_pipeline_by_name("Pipeline_NoCulling_PassThrough", &default), "default");
    let other = m.get_pipeline_by_requirements(requirements("Shadow", CullMode::Back), |r: &PipelineRequirements| {
        format!("pipeline for {}", r.shader_set)
    });
    assert_eq!(other, "Pipeline_BackCulling_PassThrough_1");
    assert_eq!(m.get_pipeline_by_name(&other, &default), "pipeline for Shadow");
}
