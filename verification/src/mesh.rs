//! Mesh assets and their loading from a triangulated model stream.
//!
//! The loader boundary accepts a byte stream in the OBJ format, parses it
//! through the `tobj` crate into flat position, texture-coordinate and
//! index arrays, and converts the first sub-mesh found into this crate's
//! [`Mesh`].  Any parse error, an empty stream or missing geometry yields
//! the single load-failure result — there is no partial-success mode.
//!
//! Before the parser runs, a verified scan holds every face statement to
//! a plain-index subset of the format: each `f`/`l` index must be an
//! unsigned decimal number of at most eighteen digits.  The parser's
//! handling of negative (relative) and oversized indices goes through
//! wrapping integer casts whose arithmetic can abort on crafted streams,
//! so such streams — malformed or not — are rejected here with the same
//! load-failure result rather than handed across the trusted boundary.
//!
//! Scalar vertex data crosses the boundary as the bit patterns of the
//! parser's 32-bit floats; this crate never does arithmetic on them, it
//! only lays them out.

use vstd::prelude::*;

use crate::error::MeshLoadError;

verus! {

/// One vertex: a three-component position and a two-component texture
/// coordinate, each component the bit pattern of a 32-bit float.
#[derive(Clone, Copy, Debug, PartialEq, Eq)]
pub struct Vertex {
    pub position: [u32; 3],
    pub tex_coords: [u32; 2],
}

/// A mesh: its vertices in order, and a triangle index list into them.
/// Immutable once loaded.
#[derive(Debug, PartialEq)]
pub struct Mesh {
    pub vertices: Vec<Vertex>,
    pub indices: Vec<u32>,
}

/// One sub-mesh as the parser hands it over: flattened three-component
/// positions, flattened two-component texture coordinates and a triangle
/// index list, scalars as float bit patterns.
pub struct RawModel {
    pub positions: Vec<u32>,
    pub texcoords: Vec<u32>,
    pub indices: Vec<u32>,
}

impl View for RawModel {
    type V = (Seq<u32>, Seq<u32>, Seq<u32>);

    open spec fn view(&self) -> (Seq<u32>, Seq<u32>, Seq<u32>) {
        (self.positions@, self.texcoords@, self.indices@)
    }
}

/// What parsing an OBJ byte stream yields: `None` when the stream does
/// not parse, otherwise each sub-mesh's flattened positions, texture
/// coordinates and indices, in file order.  The result is a function of
/// the bytes alone.
pub uninterp spec fn obj_models(bytes: Seq<u8>) -> Option<Seq<(Seq<u32>, Seq<u32>, Seq<u32>)>>;

/// A byte that separates tokens within a line: the ASCII whitespace the
/// format uses, the line terminator aside.
pub open spec fn is_obj_space(b: u8) -> bool {
    b == 32 || b == 9 || b == 11 || b == 12 || b == 13
}

/// An ASCII decimal digit.
pub open spec fn is_obj_digit(b: u8) -> bool {
    48 <= b <= 57
}

/// Where the face-index scan stands after some prefix of the stream.
#[derive(Clone, Copy, Debug, PartialEq, Eq, Structural)]
pub enum ScanState {
    /// At the start of a line, before its first token.
    LineStart,
    /// The first token read so far is exactly a face-element keyword
    /// (`f` or `l`).
    Keyword,
    /// The line's first token is something else; the rest of the line
    /// carries no face indices.
    OtherLine,
    /// Inside a face-element statement, with this many digits read in the
    /// current index part.
    FaceLine { part_len: u8 },
    /// The stream steps outside the plain-index subset.
    Rejected,
}

/// One byte of the face-index scan.  In a face-element line only digits,
/// part separators (`/`), spacing and the line end may appear, and no
/// index part may exceed eighteen digits.  A non-ASCII byte before the
/// first token is classified conservatively: it could be the exotic
/// whitespace the parser's tokenizer also skips, hiding a face keyword,
/// so the scan rejects rather than guess.
pub open spec fn scan_step(s: ScanState, b: u8) -> ScanState {
    match s {
        ScanState::LineStart => {
            if b == 10 || is_obj_space(b) {
                ScanState::LineStart
            } else if b == 102 || b == 108 {
                ScanState::Keyword
            } else if b >= 128 {
                ScanState::Rejected
            } else {
                ScanState::OtherLine
            }
        },
        ScanState::Keyword => {
            if b == 10 {
                ScanState::LineStart
            } else if is_obj_space(b) {
                ScanState::FaceLine { part_len: 0 }
            } else if b >= 128 {
                ScanState::Rejected
            } else {
                ScanState::OtherLine
            }
        },
        ScanState::OtherLine => {
            if b == 10 {
                ScanState::LineStart
            } else {
                ScanState::OtherLine
            }
        },
        ScanState::FaceLine { part_len } => {
            if b == 10 {
                ScanState::LineStart
            } else if is_obj_space(b) || b == 47 {
                ScanState::FaceLine { part_len: 0 }
            } else if is_obj_digit(b) {
                if part_len >= 18 {
                    ScanState::Rejected
                } else {
                    ScanState::FaceLine { part_len: (part_len + 1) as u8 }
                }
            } else {
                ScanState::Rejected
            }
        },
        ScanState::Rejected => ScanState::Rejected,
    }
}

/// The face-index scan over a whole prefix of the stream.
pub open spec fn spec_scan(bytes: Seq<u8>) -> ScanState
    decreases bytes.len(),
{
    if bytes.len() == 0 {
        ScanState::LineStart
    } else {
        scan_step(spec_scan(bytes.drop_last()), bytes.last())
    }
}

/// Whether every face statement in the stream keeps to plain unsigned
/// decimal indices of at most eighteen digits.  Only such streams are
/// handed to the parser.
pub open spec fn spec_plain_face_indices(bytes: Seq<u8>) -> bool {
    spec_scan(bytes) != ScanState::Rejected
}

/// One byte of the face-index scan, executably.
fn scan_step_exec(s: ScanState, b: u8) -> (r: ScanState)
    ensures
        r == scan_step(s, b),
{
    match s {
        ScanState::LineStart => {
            if b == 10 || b == 32 || b == 9 || b == 11 || b == 12 || b == 13 {
                ScanState::LineStart
            } else if b == 102 || b == 108 {
                ScanState::Keyword
            } else if b >= 128 {
                ScanState::Rejected
            } else {
                ScanState::OtherLine
            }
        },
        ScanState::Keyword => {
            if b == 10 {
                ScanState::LineStart
            } else if b == 32 || b == 9 || b == 11 || b == 12 || b == 13 {
                ScanState::FaceLine { part_len: 0 }
            } else if b >= 128 {
                ScanState::Rejected
            } else {
                ScanState::OtherLine
            }
        },
        ScanState::OtherLine => {
            if b == 10 {
                ScanState::LineStart
            } else {
                ScanState::OtherLine
            }
        },
        ScanState::FaceLine { part_len } => {
            if b == 10 {
                ScanState::LineStart
            } else if b == 32 || b == 9 || b == 11 || b == 12 || b == 13 || b == 47 {
                ScanState::FaceLine { part_len: 0 }
            } else if 48 <= b && b <= 57 {
                if part_len >= 18 {
                    ScanState::Rejected
                } else {
                    ScanState::FaceLine { part_len: part_len + 1 }
                }
            } else {
                ScanState::Rejected
            }
        },
        ScanState::Rejected => ScanState::Rejected,
    }
}

/// Whether the stream keeps to the plain-index subset of the format.
fn scan_face_indices(bytes: &[u8]) -> (r: bool)
    ensures
        r == spec_plain_face_indices(bytes@),
{
    let mut state = ScanState::LineStart;
    let mut i: usize = 0;
    proof {
        assert(bytes@.subrange(0, 0) =~= Seq::<u8>::empty());
    }
    while i < bytes.len()
        invariant
            i <= bytes.len(),
            state == spec_scan(bytes@.subrange(0, i as int)),
        decreases bytes.len() - i,
    {
        state = scan_step_exec(state, bytes[i]);
        i = i + 1;
        proof {
            assert(bytes@.subrange(0, i as int).drop_last() =~= bytes@.subrange(0, i as int - 1));
            assert(bytes@.subrange(0, i as int).last() == bytes@[i - 1]);
        }
    }
    proof {
        assert(bytes@.subrange(0, bytes@.len() as int) =~= bytes@);
    }
    match state {
        ScanState::Rejected => false,
        _ => true,
    }
}

/// Relies on tobj::load_obj_buf with the GPU load options: it parses an
/// OBJ byte stream deterministically into triangulated, single-indexed
/// sub-meshes; materials are not loaded.  The face-index pre-scan is
/// required because the parser turns negative (relative) face indices
/// into offsets by a wrapping cast and multiplies them unchecked, which
/// can abort on indices outside the plain-index subset; within it, every
/// parse failure is an ordinary error return.  The eighteen-digit cap is
/// sized for a 64-bit `usize`; on a narrower target the parser's index
/// arithmetic would need a correspondingly smaller cap.
#[verifier::external_body]
fn parse_obj(bytes: &[u8]) -> (r: Option<Vec<RawModel>>)
    requires
        spec_plain_face_indices(bytes@),
    ensures
        r is Some <==> obj_models(bytes@) is Some,
        r is Some ==> {
            let ms = obj_models(bytes@)->0;
            &&& r->0@.len() == ms.len()
            &&& forall|i: int| 0 <= i < ms.len() ==> (#[trigger] r->0@[i])@ == ms[i]
        },
{
    let mut reader = std::io::BufReader::new(std::io::Cursor::new(bytes));
    let parsed =
        tobj::load_obj_buf(&mut reader, &tobj::GPU_LOAD_OPTIONS, |_| Err(tobj::LoadError::OpenFileFailed));
    parsed.ok().map(|(models, _)| models.into_iter().map(|m| RawModel {
        positions: m.mesh.positions.iter().map(|v| v.to_bits()).collect(),
        texcoords: m.mesh.texcoords.iter().map(|v| v.to_bits()).collect(),
        indices: m.mesh.indices,
    }).collect())
}

/// The file extension the loader accepts.
pub fn loader_extension() -> (s: String)
    ensures
        s@ =~= ".obj"@,
{
    ".obj".to_string()
}

/// Whether a parse result holds usable geometry: it parsed, a first
/// sub-mesh exists, and that sub-mesh has a non-empty, well-formed
/// position array.
pub open spec fn spec_mesh_usable(ms: Option<Seq<(Seq<u32>, Seq<u32>, Seq<u32>)>>) -> bool {
    &&& ms is Some
    &&& ms->0.len() > 0
    &&& ms->0[0].0.len() > 0
    &&& ms->0[0].0.len() % 3 == 0
}

/// The vertex at index `i` of a sub-mesh: its three position components,
/// and its two texture-coordinate components when the sub-mesh has them,
/// zero bits otherwise.
pub open spec fn spec_vertex_of(m: (Seq<u32>, Seq<u32>, Seq<u32>), i: int) -> Vertex {
    Vertex {
        position: [m.0[3 * i], m.0[3 * i + 1], m.0[3 * i + 2]],
        tex_coords: if 2 * i + 1 < m.1.len() {
            [m.1[2 * i], m.1[2 * i + 1]]
        } else {
            [0, 0]
        },
    }
}

/// Load a mesh from an OBJ byte stream: the first sub-mesh's positions
/// and texture coordinates zipped into vertex records, plus its index
/// list.  Fails with the single load-failure result if and only if a
/// face statement steps outside the plain-index subset, the stream does
/// not parse, it holds no sub-mesh, or its first sub-mesh has an empty
/// or malformed position array.
pub fn load_mesh(bytes: &[u8]) -> (r: Result<Mesh, MeshLoadError>)
    ensures
        r is Ok <==> spec_plain_face_indices(bytes@) && spec_mesh_usable(obj_models(bytes@)),
        r is Ok ==> {
            let m = obj_models(bytes@)->0[0];
            &&& r->Ok_0.vertices@.len() == m.0.len() / 3
            &&& forall|i: int|
                0 <= i < r->Ok_0.vertices@.len() ==> #[trigger] r->Ok_0.vertices@[i]
                    == spec_vertex_of(m, i)
            &&& r->Ok_0.indices@ == m.2
        },
        r is Err ==> r->Err_0 == MeshLoadError::Failed,
{
    if !scan_face_indices(bytes) {
        return Err(MeshLoadError::Failed);
    }
    let models = match parse_obj(bytes) {
        Some(models) => models,
        None => {
            return Err(MeshLoadError::Failed);
        },
    };
    if models.len() == 0 {
        return Err(MeshLoadError::Failed);
    }
    let model = &models[0];
    let n_pos = model.positions.len();
    if n_pos == 0 || n_pos % 3 != 0 {
        return Err(MeshLoadError::Failed);
    }
    let ghost m = obj_models(bytes@)->0[0];
    proof {
        assert(model@ == m);
    }
    let n_vertices = n_pos / 3;
    proof {
        vstd::arithmetic::div_mod::lemma_fundamental_div_mod(n_pos as int, 3);
    }
    let mut vertices: Vec<Vertex> = Vec::new();
    let mut i: usize = 0;
    while i < n_vertices
        invariant
            n_vertices == m.0.len() / 3,
            n_pos == m.0.len(),
            n_pos == model.positions.len(),
            model@ == m,
            i <= n_vertices,
            3 * n_vertices <= n_pos,
            vertices@.len() == i,
            forall|j: int| 0 <= j < i ==> #[trigger] vertices@[j] == spec_vertex_of(m, j),
        decreases n_vertices - i,
    {
        let p0 = model.positions[3 * i];
        let p1 = model.positions[3 * i + 1];
        let p2 = model.positions[3 * i + 2];
        let tex_base = 2 * i;
        let tex = if tex_base + 1 < model.texcoords.len() {
            [model.texcoords[tex_base], model.texcoords[tex_base + 1]]
        } else {
            [0, 0]
        };
        vertices.push(Vertex { position: [p0, p1, p2], tex_coords: tex });
        i = i + 1;
    }
    let mut indices: Vec<u32> = Vec::new();
    let mut k: usize = 0;
    while k < model.indices.len()
        invariant
            model@ == m,
            k <= model.indices.len(),
            indices@ == m.2.subrange(0, k as int),
        decreases model.indices.len() - k,
    {
        indices.push(model.indices[k]);
        k = k + 1;
    }
    proof {
        assert(indices@ == m.2);
    }
    Ok(Mesh { vertices, indices })
}

} // verus!
