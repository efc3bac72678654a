use jakar_engine::resources::managers::{MaterialManager, MeshManager, SceneManager};
use jakar_engine::resources::material::{texture_or_fallback, MaterialBuilder, MaterialFactors, TextureUsageFlags, TextureUsageInfo};
use jakar_engine::resources::naming::{suffixed_name, usize_to_decimal};

#[test]
fn decimal_and_suffixed_names() {
    assert_eq!(usize_to_decimal(0), "0");
    assert_eq!(usize_to_decimal(7), "7");
    assert_eq!(usize_to_decimal(1203), "1203");
    assert_eq!(suffixed_name("mesh", 2), "mesh_2");
    assert_eq!(suffixed_name("", 10), "_10");
}

#[test]
fn material_manager_fallback() {
    let mut m = MaterialManager::new("fallback material");
    assert!(m.is_available("fallback"));
    assert_eq!(*m.get_default_material(), "fallback material");
    assert_eq!(*m.get_material("missing"), "fallback material");
    assert!(m.get_material_by_name("missing").is_none());
    let added = m.add_material("stone", "stone material");
    assert_eq!(added, "stone");
    assert_eq!(*m.get_material("stone"), "stone material");
    assert_eq!(m.get_material_by_name("stone"), Some(&"stone material"));
    assert_eq!(m.len(), 2);
}

#[test]
fn material_manager_unique_names() {
    let mut m = MaterialManager::new(0u32);
    assert_eq!(m.add_material("wood", 1), "wood");
    assert_eq!(m.add_material("wood", 2), "wood_0");
    assert_eq!(m.add_material("wood", 3), "wood_1");
    assert_eq!(m.add_material("wood_0", 4), "wood_0_0");
    assert_eq!(m.add_material("fallback", 5), "fallback_0");
    assert_eq!(*m.get_material("wood"), 1);
    assert_eq!(*m.get_material("wood_0"), 2);
    assert_eq!(*m.get_material("wood_1"), 3);
    assert_eq!(*m.get_material("wood_0_0"), 4);
    assert_eq!(*m.get_default_material(), 0);
    let names: Vec<String> = (0..m.len()).map(|i| m.entry_at(i).0.clone()).collect();
    assert_eq!(names, vec!["fallback", "fallback_0", "wood", "wood_0", "wood_0_0", "wood_1"]);
    let (name, value) = m.entry_at(2);
    assert_eq!(name, "wood");
    assert_eq!(*value, 1);
}

#[test]
fn law_added_material_is_handed_out_on_values() {
    let mut m = MaterialManager::new(10u8);
    m.add_material("a", 1);
    let before_b = *m.get_material("b");
    let added = m.add_material("a", 2);
    assert_eq!(*m.get_material(&added), 2);
    assert_eq!(*m.get_material("a"), 1);
    assert_eq!(*m.get_material("b"), before_b);
    assert_eq!(m.len(), 3);
}

#[test]
fn law_chosen_name_is_unique_on_values() {
    let mut first = MeshManager::new();
    let mut second = MeshManager::new();
    for (n, v) in [("box", 1u8), ("box", 2), ("ball", 3)] {
        first.add_mesh(n, v);
        second.add_mesh(n, v + 10);
    }
    assert_eq!(first.add_mesh("box", 0), second.add_mesh("box", 0));
}

#[test]
fn mesh_manager_unique_name() {
    let mut m = MeshManager::new();
    assert_eq!(m.get_unique_name("cube"), "cube_0");
    assert_eq!(m.add_mesh("cube", 'a'), "cube");
    assert_eq!(m.get_unique_name("cube"), "cube_0");
    assert_eq!(m.add_mesh("cube", 'b'), "cube_0");
    assert_eq!(m.get_unique_name("cube"), "cube_1");
    assert_eq!(m.get_mesh("cube_0"), Some(&'b'));
    assert_eq!(m.get_mesh("cube_7"), None);
}

#[test]
fn scene_manager_lists_by_name() {
    let mut s = SceneManager::new();
    assert_eq!(s.add_scene("main", 1), "main");
    assert_eq!(s.add_scene("menu", 2), "menu");
    assert_eq!(s.add_scene("main", 3), "main_0");
    assert!(s.has_scene("main_0"));
    assert!(!s.has_scene("other"));
    assert_eq!(s.get_scene("menu"), Some(&2));
    let all: Vec<i32> = s.get_scenes_copy().into_iter().copied().collect();
    assert_eq!(all, vec![1, 3, 2]);
}

#[test]
fn texture_usage_flags_for_slots() {
    let some = Some(1u8);
    let none: Option<u8> = None;
    let f = TextureUsageFlags::for_texture_slots(&some, &none, &some, &none, &some);
    assert!(f.albedo && !f.normal && f.metal && f.roughness && !f.occlusion && f.emissive && !f.is_masked);
    let info = f.is_masked().to_shader_flags();
    assert_eq!(
        info,
        TextureUsageInfo { b_albedo: 1, b_normal: 0, b_metal: 1, b_roughness: 1, b_occlusion: 0, b_emissive: 1, b_is_masked: 1 }
    );
    let all = TextureUsageFlags::new().with_albedo().with_normal().with_metal().with_roughness().with_occlusion().with_emissive();
    assert!(all.albedo && all.normal && all.metal && all.roughness && all.occlusion && all.emissive && !all.is_masked);
}

#[test]
fn texture_slot_falls_back() {
    assert_eq!(texture_or_fallback(Some("albedo"), "none"), "albedo");
    assert_eq!(texture_or_fallback(None, "none"), "none");
}

#[test]
fn material_manager_update_keeps_names() {
    let mut m = MaterialManager::new(1u32);
    m.add_material("a", 2);
    m.add_material("a", 3);
    m.update(|v: u32| v * 10);
    assert_eq!(m.len(), 3);
    assert_eq!(*m.get_default_material(), 10);
    assert_eq!(*m.get_material("a"), 20);
    assert_eq!(*m.get_material("a_0"), 30);
    let (name, value) = m.entry_at(1);
    assert_eq!((name.as_str(), *value), ("a_0", 30));
    assert_eq!(m.entry_at(2).0, "fallback");
}

#[test]
fn law_fallback_is_present_on_values() {
    let mut m = MaterialManager::new("f");
    m.add_material("fallback", "other");
    m.add_material("x", "y");
    m.update(|v: &'static str| v);
    assert!(m.is_available("fallback"));
    assert_eq!(*m.get_default_material(), "f");
    assert_eq!(*m.get_material("nothing"), "f");
}

#[test]
fn material_factors_defaults_and_setters() {
    let f = MaterialFactors::new();
    assert_eq!(f.albedo_factor_bits.map(f32::from_bits), [1.0; 4]);
    assert_eq!(f32::from_bits(f.alpha_cutoff_bits), 0.5);
    assert_eq!(f32::from_bits(f.max_emission_bits), 1.0);
    let f = f
        .with_factor_albedo([1, 2, 3, 4])
        .with_factor_normal(5)
        .with_factor_metal(6)
        .with_factor_roughness(7)
        .with_factor_occlusion(8)
        .with_factor_emissive([9, 10, 11])
        .with_max_emmision(12)
        .with_alpha_cutoff(13);
    assert_eq!(f.albedo_factor_bits, [1, 2, 3, 4]);
    assert_eq!((f.normal_factor_bits, f.metal_factor_bits, f.roughness_factor_bits), (5, 6, 7));
    assert_eq!((f.occlusion_factor_bits, f.emissive_factor_bits, f.max_emission_bits, f.alpha_cutoff_bits), (8, [9, 10, 11], 12, 13));
}

#[test]
fn material_builder_slots_and_flags() {
    let mut b = MaterialBuilder::new(Some("albedo"), None, Some("mr"), None, None, "none");
    assert!(b.texture_usage_info.albedo && !b.texture_usage_info.normal);
    assert!(b.texture_usage_info.metal && b.texture_usage_info.roughness);
    assert!(!b.is_masked());
    b.mat_is_masked();
    assert!(b.is_masked());
    let t = b.slot_textures();
    assert_eq!(t.map(|x| *x), ["albedo", "none", "mr", "none", "none"]);
    let b = b.with_usage_flags(TextureUsageFlags::new()).with_factors(MaterialFactors::new().with_factor_metal(3));
    assert!(!b.is_masked());
    assert_eq!(b.material_factors.metal_factor_bits, 3);
}

#[test]
fn names_are_ordered_as_strings_compare() {
    let mut s = SceneManager::new();
    for (n, v) in [("b", 1), ("B", 2), ("a", 3), ("ä", 4), ("ab", 5), ("", 6)] {
        s.add_scene(n, v);
    }
    let all: Vec<i32> = s.get_scenes_copy().into_iter().copied().collect();
    let mut expected = vec![("b", 1), ("B", 2), ("a", 3), ("ä", 4), ("ab", 5), ("", 6)];
    expected.sort_by(|x, y| x.0.cmp(y.0));
    assert_eq!(all, expected.into_iter().map(|e| e.1).collect::<Vec<i32>>());
    assert_eq!(all, vec![6, 2, 3, 5, 1, 4]);
}
