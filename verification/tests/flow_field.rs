use flow_field::ComputeNode;
use flow_field::Dispatch;
use flow_field::Pass;
use flow_field::ShaderParams;
use flow_field::ENERGY_CELL_BYTES;
use flow_field::NR_PARTICLES;
use flow_field::SCREEN_HEIGHT;
use flow_field::SCREEN_WIDTH;
use flow_field::TEXEL_BYTES;
use flow_field::TILE_DIM;
use flow_field::WORKGROUP_SIZE;
use flow_field::dispatch_count;
use flow_field::energy_buffer_bytes;
use flow_field::image_dispatch;
use flow_field::initial_seeds;
use flow_field::ping_pong_indices;
use flow_field::pixel_count;
use flow_field::update_dispatch;
use flow_field::zero_texel;

#[test]
fn update_pass_covers_every_particle_exactly_once() {
    let groups = update_dispatch();
    assert_eq!(groups, 128);
    assert_eq!(groups * WORKGROUP_SIZE, NR_PARTICLES);
}

#[test]
fn image_passes_tile_the_screen_exactly() {
    let (cols, rows) = image_dispatch();
    assert_eq!((cols, rows), (80, 45));
    assert_eq!(cols * TILE_DIM, SCREEN_WIDTH);
    assert_eq!(rows * TILE_DIM, SCREEN_HEIGHT);
}

#[test]
fn dispatch_count_is_the_quotient() {
    assert_eq!(dispatch_count(0, 16), 0);
    assert_eq!(dispatch_count(15, 16), 0);
    assert_eq!(dispatch_count(16, 16), 1);
    assert_eq!(dispatch_count(1000, 256), 3);
    assert_eq!(dispatch_count(1024, 256), 4);
}

#[test]
fn energy_buffer_holds_one_cell_per_pixel() {
    assert_eq!(energy_buffer_bytes(), 3_686_400);
    assert_eq!(
        energy_buffer_bytes(),
        u64::from(ENERGY_CELL_BYTES) * u64::from(SCREEN_WIDTH) * u64::from(SCREEN_HEIGHT)
    );
}

#[test]
fn pixel_count_matches_the_screen() {
    assert_eq!(pixel_count(), 921_600);
    assert_eq!(pixel_count(), SCREEN_WIDTH * SCREEN_HEIGHT);
}

#[test]
fn shader_params_carry_the_demo_geometry() {
    let p = ShaderParams::new();
    assert_eq!(p.nr_particles, 32_768);
    assert_eq!(p.nr_pixels, 921_600);
    assert_eq!(p.screen_width, 1_280);
}

#[test]
fn ping_pong_alternates_by_frame_parity() {
    assert_eq!(ping_pong_indices(0), (0, 1));
    assert_eq!(ping_pong_indices(1), (1, 0));
    assert_eq!(ping_pong_indices(2), (0, 1));
    assert_eq!(ping_pong_indices(3), (1, 0));
    for frame in 0..64 {
        let (src, dst) = ping_pong_indices(frame);
        assert_ne!(src, dst);
        assert!(src < 2 && dst < 2);
    }
}

#[test]
fn node_becomes_ready_only_when_both_pipelines_are() {
    let mut node = ComputeNode::new();
    assert!(!node.ready);
    node.update(false, false);
    assert!(!node.ready);
    node.update(true, false);
    assert!(!node.ready);
    node.update(false, true);
    assert!(!node.ready);
    node.update(true, true);
    assert!(node.ready);
}

#[test]
fn node_stays_ready_forever() {
    let mut node = ComputeNode::default();
    node.update(true, true);
    node.update(false, false);
    assert!(node.ready);
}

#[test]
fn frame_plan_is_empty_before_readiness() {
    let node = ComputeNode::new();
    assert!(node.frame_plan().is_empty());
}

#[test]
fn frame_plan_runs_update_clear_draw() {
    let mut node = ComputeNode::new();
    node.update(true, true);
    let plan = node.frame_plan();
    assert_eq!(
        plan,
        vec![
            Dispatch { pass: Pass::Update, x: 128, y: 1, z: 1 },
            Dispatch { pass: Pass::Clear, x: 80, y: 45, z: 1 },
            Dispatch { pass: Pass::Draw, x: 80, y: 45, z: 1 },
        ]
    );
}

#[test]
fn each_particle_is_seeded_with_its_index() {
    assert_eq!(initial_seeds(5), vec![0, 1, 2, 3, 4]);
    assert!(initial_seeds(0).is_empty());
    let seeds = initial_seeds(NR_PARTICLES);
    assert_eq!(seeds.len(), NR_PARTICLES as usize);
    assert_eq!(seeds[32_767], 32_767);
}

#[test]
fn image_starts_as_transparent_black() {
    let texel = zero_texel();
    assert_eq!(texel.len(), TEXEL_BYTES as usize);
    assert!(texel.iter().all(|b| *b == 0));
}
