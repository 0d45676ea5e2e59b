use three_d::atomic_counter_buffer::AtomicCounterBuffer;
use three_d::oit_resolve::{
    Blend, BlendEquationType, BlendMultiplierType, Cull, DepthTest, OitResolveEffect, WriteMask,
};
use three_d::particles::{CPUMesh, DrawCall, ParticleData, Particles, Vec3};

fn v(x: f32, y: f32, z: f32) -> Vec3<f32> {
    Vec3 { x, y, z }
}

fn triangle(indices: Option<Vec<u32>>) -> CPUMesh<f32> {
    CPUMesh {
        positions: vec![0.0, 0.0, 0.0, 1.0, 0.0, 0.0, 0.0, 1.0, 0.0],
        indices,
        uvs: None,
    }
}

#[test]
fn new_particles_draw_nothing() {
    let p = Particles::new(&triangle(None), &v(0.0, -9.8, 0.0));
    assert_eq!(p.acceleration.y, -9.8);
    assert_eq!(p.draw_call(), DrawCall::Arrays { vertex_count: 3, instance_count: 0 });
}

#[test]
fn update_sets_instances() {
    let mut p = Particles::new(&triangle(None), &v(0.0, 0.0, 0.0));
    let data = [
        ParticleData { start_position: v(1.0, 2.0, 3.0), start_velocity: v(4.0, 5.0, 6.0) },
        ParticleData { start_position: v(7.0, 8.0, 9.0), start_velocity: v(10.0, 11.0, 12.0) },
    ];
    p.update(&data);
    assert_eq!(p.start_position_data(), &[1.0, 2.0, 3.0, 7.0, 8.0, 9.0]);
    assert_eq!(p.start_velocity_data(), &[4.0, 5.0, 6.0, 10.0, 11.0, 12.0]);
    assert_eq!(p.draw_call(), DrawCall::Arrays { vertex_count: 3, instance_count: 2 });
    p.update(&[]);
    assert!(p.start_position_data().is_empty());
    assert_eq!(p.draw_call(), DrawCall::Arrays { vertex_count: 3, instance_count: 0 });
}

#[test]
fn indexed_mesh_draws_elements() {
    let mut p = Particles::new(&triangle(Some(vec![0, 1, 2])), &v(0.0, 0.0, 0.0));
    p.update(&[ParticleData { start_position: v(0.0, 0.0, 0.0), start_velocity: v(0.0, 0.0, 0.0) }]);
    assert_eq!(p.draw_call(), DrawCall::Elements { instance_count: 1 });
    assert_eq!(p.index_data(), Some(&[0u32, 1, 2][..]));
    assert_eq!(p.position_data().len(), 9);
    assert!(p.uv_data().is_none());
}

#[test]
fn vertex_count_rounds_down() {
    let mesh = CPUMesh { positions: vec![0.0f32; 10], indices: None, uvs: Some(vec![0.5, 0.5]) };
    let p = Particles::new(&mesh, &v(0.0, 0.0, 0.0));
    assert_eq!(p.draw_call(), DrawCall::Arrays { vertex_count: 3, instance_count: 0 });
    assert_eq!(p.uv_data(), Some(&[0.5f32, 0.5][..]));
}

#[test]
fn atomic_counters_start_at_zero() {
    let b = AtomicCounterBuffer::new(4);
    assert_eq!(b.length(), 4);
    assert_eq!(b.initial_counters(), vec![0, 0, 0, 0]);
    assert!(AtomicCounterBuffer::new(0).initial_counters().is_empty());
}

#[test]
fn oit_resolve_defaults_to_alpha_blending() {
    let e = OitResolveEffect::default();
    assert_eq!(
        e.blend,
        Blend::Enabled {
            source_rgb_multiplier: BlendMultiplierType::SrcAlpha,
            source_alpha_multiplier: BlendMultiplierType::SrcAlpha,
            destination_rgb_multiplier: BlendMultiplierType::OneMinusSrcAlpha,
            destination_alpha_multiplier: BlendMultiplierType::OneMinusSrcAlpha,
            rgb_equation: BlendEquationType::Add,
            alpha_equation: BlendEquationType::Add,
        }
    );
}

#[test]
fn oit_resolve_render_states() {
    let e = OitResolveEffect { blend: Blend::Disabled };
    let s = e.render_states();
    assert_eq!(s.depth_test, DepthTest::Always);
    assert_eq!(s.cull, Cull::Nothing);
    assert_eq!(s.write_mask, WriteMask { red: true, green: true, blue: true, alpha: true, depth: false });
    assert_eq!(s.blend, Blend::Disabled);
}

#[test]
fn oit_resolve_fragment_shader_source() {
    let e = OitResolveEffect::default();
    assert_eq!(e.fragment_shader_source(Some("color"), Some("depth"), "main"), "color\ndepth\nmain");
    assert_eq!(e.fragment_shader_source(None, Some("depth"), "main"), "\ndepth\nmain");
    assert_eq!(e.fragment_shader_source(None, None, "main"), "\n\nmain");
}
