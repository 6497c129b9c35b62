use stl_thumb::bridge::{accept_rendered, validate_call, BridgeFault, PathArg};
use stl_thumb::context::{acquisition_plan, ContextAcquirer, Platform, Step, Strategy};
use stl_thumb::mesh::{order_key, BoundingBox, Face, Mesh, MeshError, ScaleRule, Vertex};
use stl_thumb::pixels::{image_byte_len, PixelBuffer, ReadbackError};
use stl_thumb::window::{WindowAction, WindowEvent, WindowSession};

fn v(x: f32, y: f32, z: f32) -> Vertex {
    Vertex { x: x.to_bits(), y: y.to_bits(), z: z.to_bits() }
}

fn up() -> Vertex {
    v(0.0, 0.0, 1.0)
}

// ---- pixel buffers ----

#[test]
fn readback_rows_are_flipped() {
    // 2x2 image: bottom row bytes 0..8, top row bytes 8..16
    let raw: Vec<u8> = (0u8..16).collect();
    let p = PixelBuffer::from_readback(raw, 2, 2).unwrap();
    assert_eq!(p.width(), 2);
    assert_eq!(p.height(), 2);
    let expected: Vec<u8> = (8u8..16).chain(0u8..8).collect();
    assert_eq!(p.data(), &expected);
    assert_eq!(p.into_bytes(), expected);
}

#[test]
fn readback_three_rows() {
    let raw: Vec<u8> = vec![1, 1, 1, 1, 2, 2, 2, 2, 3, 3, 3, 3];
    let p = PixelBuffer::from_readback(raw, 1, 3).unwrap();
    assert_eq!(p.data(), &vec![3, 3, 3, 3, 2, 2, 2, 2, 1, 1, 1, 1]);
}

#[test]
fn readback_length_is_width_height_four() {
    for (w, h) in [(1u32, 1u32), (3, 5), (256, 256), (17, 1)] {
        let raw = vec![7u8; (w * h * 4) as usize];
        let p = PixelBuffer::from_readback(raw, w, h).unwrap();
        assert_eq!(p.data().len(), (w * h * 4) as usize);
    }
}

#[test]
fn readback_is_deterministic() {
    let raw: Vec<u8> = (0..64u32).map(|i| (i * 7 % 251) as u8).collect();
    let a = PixelBuffer::from_readback(raw.clone(), 4, 4).unwrap().into_bytes();
    let b = PixelBuffer::from_readback(raw, 4, 4).unwrap().into_bytes();
    assert_eq!(a, b);
}

#[test]
fn readback_rejects_zero_size() {
    assert_eq!(PixelBuffer::from_readback(vec![], 0, 4).err(), Some(ReadbackError::EmptyImage));
    assert_eq!(PixelBuffer::from_readback(vec![], 4, 0).err(), Some(ReadbackError::EmptyImage));
}

#[test]
fn readback_rejects_wrong_length() {
    assert_eq!(
        PixelBuffer::from_readback(vec![0u8; 15], 2, 2).err(),
        Some(ReadbackError::LengthMismatch)
    );
    assert_eq!(
        PixelBuffer::from_readback(vec![0u8; 17], 2, 2).err(),
        Some(ReadbackError::LengthMismatch)
    );
}

#[test]
fn byte_length_of_images() {
    assert_eq!(image_byte_len(256, 256), Some(262144));
    assert_eq!(image_byte_len(1, 1), Some(4));
    assert_eq!(image_byte_len(0, 9), Some(0));
    assert_eq!(image_byte_len(u32::MAX, u32::MAX), None);
}

// ---- context acquisition ----

#[test]
fn plans_per_platform() {
    let (s, h, sw, w) = (Strategy::Surfaceless, Strategy::Headless, Strategy::Software, Strategy::HiddenWindow);
    assert_eq!(acquisition_plan(Platform::Linux, true), vec![s, h, sw, w]);
    assert_eq!(acquisition_plan(Platform::Linux, false), vec![sw, w]);
    assert_eq!(acquisition_plan(Platform::Other, true), vec![h, w]);
    assert_eq!(acquisition_plan(Platform::Other, false), vec![w]);
}

#[test]
fn software_after_surfaceless_and_headless_fail() {
    let mut a = ContextAcquirer::new(Platform::Linux, true);
    assert_eq!(a.step(), Step::Attempt(Strategy::Surfaceless));
    a.record(false);
    assert_eq!(a.step(), Step::Attempt(Strategy::Headless));
    a.record(false);
    assert_eq!(a.step(), Step::Attempt(Strategy::Software));
    a.record(true);
    assert_eq!(a.step(), Step::Acquired(Strategy::Software));
}

#[test]
fn no_display_server_goes_straight_to_software() {
    let mut a = ContextAcquirer::new(Platform::Linux, false);
    assert_eq!(a.step(), Step::Attempt(Strategy::Software));
    a.record(true);
    assert_eq!(a.step(), Step::Acquired(Strategy::Software));
}

#[test]
fn first_success_wins() {
    let mut a = ContextAcquirer::new(Platform::Linux, true);
    a.record(true);
    assert_eq!(a.step(), Step::Acquired(Strategy::Surfaceless));
}

#[test]
fn hidden_window_is_last_resort() {
    let mut a = ContextAcquirer::new(Platform::Other, true);
    assert_eq!(a.step(), Step::Attempt(Strategy::Headless));
    a.record(false);
    assert_eq!(a.step(), Step::Attempt(Strategy::HiddenWindow));
    a.record(false);
    assert_eq!(a.step(), Step::Exhausted);
}

// ---- window session ----

#[test]
fn window_renders_once_then_presents() {
    let mut s = WindowSession::new();
    assert!(!s.closed());
    assert_eq!(s.handle(WindowEvent::Other), WindowAction::Present);
    assert_eq!(s.handle(WindowEvent::FrameReady), WindowAction::RenderAndPresent);
    assert_eq!(s.handle(WindowEvent::FrameReady), WindowAction::Present);
    assert_eq!(s.handle(WindowEvent::Other), WindowAction::Present);
    assert!(!s.closed());
    assert_eq!(s.handle(WindowEvent::CloseRequested), WindowAction::Exit);
    assert!(s.closed());
}

// ---- mesh ----

#[test]
fn mesh_rejects_empty() {
    assert_eq!(Mesh::new(vec![], vec![]).err(), Some(MeshError::Empty));
    assert_eq!(Mesh::new(vec![], vec![up()]).err(), Some(MeshError::Empty));
}

#[test]
fn mesh_rejects_partial_triangle() {
    let vs = vec![v(0.0, 0.0, 0.0), v(1.0, 0.0, 0.0), v(0.0, 1.0, 0.0), v(0.0, 0.0, 1.0)];
    assert_eq!(Mesh::new(vs, vec![up(); 4]).err(), Some(MeshError::PartialTriangle));
}

#[test]
fn mesh_rejects_normal_count_mismatch() {
    let vs = vec![v(0.0, 0.0, 0.0), v(1.0, 0.0, 0.0), v(0.0, 1.0, 0.0)];
    assert_eq!(Mesh::new(vs, vec![up(), up()]).err(), Some(MeshError::NormalCountMismatch));
}

#[test]
fn order_key_follows_number_order() {
    let xs = [f32::NEG_INFINITY, -3.5, -1.0, -0.25, 0.0, 1e-30, 0.5, 2.0, f32::INFINITY];
    for w in xs.windows(2) {
        assert!(order_key(w[0].to_bits()) < order_key(w[1].to_bits()));
    }
    assert_eq!(order_key((-0.0f32).to_bits()), order_key(0.0f32.to_bits()));
}

#[test]
fn bounds_of_unit_cube_corners() {
    let vs = vec![
        v(0.0, 0.0, 0.0),
        v(1.0, 0.0, 0.0),
        v(0.0, 1.0, 0.0),
        v(1.0, 1.0, 1.0),
        v(0.0, 1.0, 1.0),
        v(1.0, 0.0, 1.0),
    ];
    let n = vec![up(); 6];
    let m = Mesh::new(vs.clone(), n.clone()).unwrap();
    assert_eq!(m.vertices(), &vs);
    assert_eq!(m.normals(), &n);
    let b = m.bounds();
    assert_eq!(b, BoundingBox { min: v(0.0, 0.0, 0.0), max: v(1.0, 1.0, 1.0) });
    assert_eq!(b.scale_rule(), ScaleRule::FitLongest);
}

#[test]
fn bounds_with_negative_coordinates() {
    let vs = vec![v(-2.0, 5.0, -0.5), v(3.0, -4.0, -7.0), v(-1.0, 0.0, 2.5)];
    let m = Mesh::new(vs, vec![up(); 3]).unwrap();
    let b = m.bounds();
    assert_eq!(b.min, v(-2.0, -4.0, -7.0));
    assert_eq!(b.max, v(3.0, 5.0, 2.5));
}

#[test]
fn single_point_mesh_gets_unit_scale() {
    let p = v(4.0, -2.0, 9.0);
    let m = Mesh::new(vec![p, p, p], vec![up(); 3]).unwrap();
    let b = m.bounds();
    assert_eq!(b, BoundingBox { min: p, max: p });
    assert_eq!(b.scale_rule(), ScaleRule::Unit);
}

#[test]
fn signed_zeros_are_one_point() {
    let vs = vec![v(0.0, 1.0, 1.0), v(-0.0, 1.0, 1.0), v(0.0, 1.0, 1.0)];
    let m = Mesh::new(vs, vec![up(); 3]).unwrap();
    assert_eq!(m.bounds().scale_rule(), ScaleRule::Unit);
}

#[test]
fn flat_mesh_is_not_degenerate() {
    let vs = vec![v(0.0, 0.0, 3.0), v(2.0, 0.0, 3.0), v(0.0, 1.0, 3.0)];
    let m = Mesh::new(vs, vec![up(); 3]).unwrap();
    assert_eq!(m.bounds().scale_rule(), ScaleRule::FitLongest);
}

#[test]
fn indexed_mesh_unfolds_to_soup() {
    let positions = vec![v(0.0, 0.0, 0.0), v(1.0, 0.0, 0.0), v(0.0, 1.0, 0.0), v(0.0, 0.0, 1.0)];
    let n1 = v(0.0, 0.0, -1.0);
    let n2 = v(-1.0, 0.0, 0.0);
    let faces = vec![Face { normal: n1, a: 0, b: 2, c: 1 }, Face { normal: n2, a: 0, b: 3, c: 2 }];
    let m = Mesh::from_indexed(&positions, &faces).unwrap();
    assert_eq!(
        m.vertices(),
        &vec![positions[0], positions[2], positions[1], positions[0], positions[3], positions[2]]
    );
    assert_eq!(m.normals(), &vec![n1, n1, n1, n2, n2, n2]);
    assert_eq!(m.bounds(), BoundingBox { min: v(0.0, 0.0, 0.0), max: v(1.0, 1.0, 1.0) });
}

#[test]
fn indexed_mesh_without_faces() {
    assert_eq!(Mesh::from_indexed(&vec![v(1.0, 2.0, 3.0)], &vec![]).err(), Some(MeshError::Empty));
}

#[test]
fn indexed_mesh_bad_corner() {
    let positions = vec![v(0.0, 0.0, 0.0), v(1.0, 0.0, 0.0), v(0.0, 1.0, 0.0)];
    let faces = vec![Face { normal: up(), a: 0, b: 1, c: 2 }, Face { normal: up(), a: 0, b: 3, c: 1 }];
    assert_eq!(Mesh::from_indexed(&positions, &faces).err(), Some(MeshError::CornerOutOfRange));
}

// ---- foreign buffer bridge ----

fn path() -> PathArg {
    PathArg::Text("model.stl".to_string())
}

#[test]
fn bridge_null_buffer() {
    assert_eq!(validate_call(true, path(), 4, 4).err(), Some(BridgeFault::NullBuffer));
}

#[test]
fn bridge_null_path() {
    assert_eq!(validate_call(false, PathArg::Missing, 4, 4).err(), Some(BridgeFault::NullPath));
}

#[test]
fn bridge_undecodable_path() {
    assert_eq!(validate_call(false, PathArg::Undecodable, 4, 4).err(), Some(BridgeFault::InvalidPath));
}

#[test]
fn bridge_zero_size() {
    assert_eq!(validate_call(false, path(), 0, 4).err(), Some(BridgeFault::EmptyImage));
}

#[test]
fn bridge_too_large() {
    assert_eq!(validate_call(false, path(), u32::MAX, u32::MAX).err(), Some(BridgeFault::TooLarge));
}

#[test]
fn bridge_accepts_valid_call() {
    let r = validate_call(false, path(), 256, 128).unwrap();
    assert_eq!(r.width, 256);
    assert_eq!(r.height, 128);
    assert_eq!(r.path, "model.stl");
    assert_eq!(r.buffer_len, 256 * 128 * 4);
}

#[test]
fn bridge_failed_render() {
    // a missing file makes the render fail
    let r = validate_call(false, PathArg::Text("no/such/file.stl".to_string()), 2, 2).unwrap();
    assert_eq!(accept_rendered(&r, None).err(), Some(BridgeFault::RenderFailed));
}

#[test]
fn bridge_size_mismatch() {
    let r = validate_call(false, path(), 2, 2).unwrap();
    let p = PixelBuffer::from_readback(vec![0u8; 4], 1, 1).unwrap();
    assert_eq!(accept_rendered(&r, Some(p)).err(), Some(BridgeFault::SizeMismatch));
}

#[test]
fn bridge_hands_back_pixels() {
    let r = validate_call(false, path(), 1, 2).unwrap();
    let p = PixelBuffer::from_readback(vec![1, 2, 3, 4, 5, 6, 7, 8], 1, 2).unwrap();
    assert_eq!(accept_rendered(&r, Some(p)).unwrap(), vec![5, 6, 7, 8, 1, 2, 3, 4]);
}
