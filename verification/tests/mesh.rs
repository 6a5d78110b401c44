use content_registry::mesh::{size_of, Mesh, ONE};
use content_registry::pipeline::Pipeline;

fn quad(mesh: &mut Mesh) {
    mesh.vertex(0, 0, 0);
    mesh.vertex(ONE, 0, 0);
    mesh.vertex(ONE, ONE, 0);
    mesh.vertex(0, ONE, 0);
}

#[test]
fn size_of_counts_the_elements() {
    assert_eq!(size_of(&Vec::<u8>::new()), 0);
    assert_eq!(size_of(&vec![1, 2, 3]), 3);
}

#[test]
fn vertex_adds_four_components() {
    let mut mesh = Mesh::new();
    mesh.vertex(7, 8, 9);
    assert_eq!(mesh.vertices, vec![7, 8, 9, ONE]);
    assert_eq!(ONE, 1.0f32.to_bits());
    assert!(mesh.elements.is_empty());
}

#[test]
fn triangulate_winds_each_quad_as_two_triangles() {
    let mut mesh = Mesh::new();
    quad(&mut mesh);
    quad(&mut mesh);
    assert_eq!(mesh.get_count(16), 12);
    mesh.triangulate(16);
    assert_eq!(mesh.elements, vec![0, 1, 2, 2, 3, 0, 4, 5, 6, 6, 7, 4]);
    assert_eq!(mesh.vertices.len(), 32);
}

#[test]
fn triangulate_passes_over_an_unfinished_quad() {
    let mut mesh = Mesh::new();
    quad(&mut mesh);
    mesh.vertex(5, 5, 5);
    mesh.triangulate(16);
    assert_eq!(mesh.elements, vec![0, 1, 2, 2, 3, 0]);
}

#[test]
fn negative_format_gives_no_quads() {
    let mut mesh = Mesh::new();
    quad(&mut mesh);
    mesh.triangulate(-16);
    assert!(mesh.elements.is_empty());
    assert_eq!(mesh.get_count(-16), -6);
    assert_eq!(mesh.get_count(-5), -18);
    assert_eq!(mesh.get_count(i32::MIN), 0);
}

#[test]
fn pipeline_draws_without_a_backend() {
    let pipeline = Pipeline::new();
    pipeline.draw();
}
