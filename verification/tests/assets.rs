use applier::error::MeshLoadError;
use applier::mesh::load_mesh;

const TRIANGLE_OBJ: &str = "\
v 0.0 0.0 0.0
v 1.0 0.0 0.0
v 0.0 1.0 0.0
vt 0.0 0.0
vt 1.0 0.0
vt 0.0 1.0
f 1/1 2/2 3/3
";

#[test]
fn triangle_obj_loads_with_exact_geometry() {
    let mesh = load_mesh(TRIANGLE_OBJ.as_bytes()).unwrap();
    assert_eq!(mesh.vertices.len(), 3);
    assert_eq!(mesh.indices, vec![0, 1, 2]);

    let zero = 0.0f32.to_bits();
    let one = 1.0f32.to_bits();
    assert_eq!(mesh.vertices[0].position, [zero, zero, zero]);
    assert_eq!(mesh.vertices[1].position, [one, zero, zero]);
    assert_eq!(mesh.vertices[2].position, [zero, one, zero]);
    assert_eq!(mesh.vertices[0].tex_coords, [zero, zero]);
    assert_eq!(mesh.vertices[1].tex_coords, [one, zero]);
    assert_eq!(mesh.vertices[2].tex_coords, [zero, one]);
}

#[test]
fn quad_obj_is_triangulated() {
    let quad = "\
v 0.0 0.0 0.0
v 1.0 0.0 0.0
v 1.0 1.0 0.0
v 0.0 1.0 0.0
f 1 2 3 4
";
    let mesh = load_mesh(quad.as_bytes()).unwrap();
    // Two triangles, six indices, and a vertex for each corner used.
    assert_eq!(mesh.indices.len(), 6);
    assert!(mesh.vertices.len() >= 4);
    // Texture coordinates default to zero bits when the file has none.
    assert_eq!(mesh.vertices[0].tex_coords, [0, 0]);
}

#[test]
fn mesh_without_geometry_fails_once_without_panic() {
    // Vertices but no faces: no usable sub-mesh geometry.
    let empty_geometry = "\
v 0.0 0.0 0.0
v 1.0 0.0 0.0
";
    assert_eq!(load_mesh(empty_geometry.as_bytes()), Err(MeshLoadError::Failed));
}

#[test]
fn empty_stream_fails_once_without_panic() {
    assert_eq!(load_mesh(b""), Err(MeshLoadError::Failed));
}

#[test]
fn unparsable_stream_fails_once_without_panic() {
    let garbage: &[u8] = b"f 1/2/ nonsense \xff\xfe";
    assert_eq!(load_mesh(garbage), Err(MeshLoadError::Failed));
}

#[test]
fn negative_texcoord_index_fails_without_panic() {
    // A relative texture-coordinate index reaching before the first
    // texcoord: the parser would wrap it to a huge offset.  The loader
    // must reject the stream, not abort.
    let crafted = "\
v 0 0 0
vt 0 0
f 1/-3 1/-3 1/-3
";
    assert_eq!(load_mesh(crafted.as_bytes()), Err(MeshLoadError::Failed));
}

#[test]
fn huge_negative_normal_index_fails_without_panic() {
    // A normal index crafted so the parser's wrapped offset arithmetic
    // lands back inside bounds: the loader must reject it up front.
    let crafted = "\
v 0 0 0
vn 0 0 0
f 1//-6148914691236517207 1//-6148914691236517207 1//-6148914691236517207
";
    assert_eq!(load_mesh(crafted.as_bytes()), Err(MeshLoadError::Failed));
}

#[test]
fn relative_indices_are_rejected() {
    // Valid OBJ relative indexing lies outside the loader's plain-index
    // subset and is rejected as malformed.
    let relative = "\
v 0 0 0
v 1 0 0
v 0 1 0
f -3 -2 -1
";
    assert_eq!(load_mesh(relative.as_bytes()), Err(MeshLoadError::Failed));
}

#[test]
fn oversized_face_index_is_rejected() {
    // Nineteen digits: beyond the subset's bound, so rejected before the
    // parser can overflow on it.
    let oversized = "\
v 0 0 0
f 1//9999999999999999999 1 1
";
    assert_eq!(load_mesh(oversized.as_bytes()), Err(MeshLoadError::Failed));
}

#[test]
fn exotic_whitespace_before_keyword_is_rejected() {
    // A non-ASCII byte before a line's first token could be whitespace
    // to the parser's tokenizer, hiding a face keyword from the scan, so
    // such a line is rejected rather than classified.
    let mut crafted: Vec<u8> = b"v 0 0 0\nvt 0 0\n".to_vec();
    crafted.extend_from_slice("\u{00A0}f 1/-3 1/-3 1/-3\n".as_bytes());
    assert_eq!(load_mesh(&crafted), Err(MeshLoadError::Failed));
}

#[test]
fn load_failure_describes_itself() {
    let err = load_mesh(b"").unwrap_err();
    assert_eq!(err.describe(), "could not load asset");
}
