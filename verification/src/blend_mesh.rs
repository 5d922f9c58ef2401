//! The binary geometry decoder.
//!
//! A mesh buffer is a fixed, offset-computed byte layout with no
//! self-describing framing beyond two leading counts:
//!
//! 1. `vertex_count: u16`, `face_count: u16`, little-endian.
//! 2. Fixed-stride arrays of 4-byte scalars, back to back: positions
//!    (3 per vertex), normals (3 per vertex), tangents (4 per vertex, only
//!    in layouts that carry them), texture coordinates (2 or 3 per vertex,
//!    by layout), then the face indices (3 per face).
//!
//! Which optional sections are present is a property of the format revision
//! (`MeshLayout`), chosen by the caller, never auto-detected. Every read is
//! bounds-checked: a buffer shorter than the computed total length is
//! rejected as truncated, and face indices are range-checked against the
//! vertex count. Nothing else is validated or normalized.

use crate::assets::{Handle, LoadRequest};
use crate::words::{lemma_word_at_prefix, lemma_word_at_written, push_word, spec_word_at, word_at};
use crate::world::{EntityRecord, World};
use vstd::bytes::{
    lemma_auto_spec_u16_to_from_le_bytes, spec_u16_from_le_bytes, spec_u16_to_le_bytes,
    u16_from_le_bytes, u16_to_le_bytes,
};
use vstd::bytes::spec_u32_to_le_bytes;
use vstd::prelude::*;
use vstd::slice::slice_subrange;

verus! {

/// The format revision of a mesh buffer: which optional sections it carries.
/// The caller must know the revision of the bytes it hands in; nothing in
/// the buffer itself says.
#[derive(Clone, Copy, PartialEq, Eq, Structural, Debug)]
pub struct MeshLayout {
    /// Whether a tangent section (4 scalars per vertex) follows the normals.
    pub has_tangents: bool,
    /// Scalars per texture coordinate: 2 or 3, by format revision.
    pub uv_dims: u8,
}

impl MeshLayout {
    /// A layout is meaningful only with 2- or 3-wide texture coordinates.
    pub open spec fn wf(self) -> bool {
        self.uv_dims == 2 || self.uv_dims == 3
    }

    /// Words in the tangent section for `v` vertices.
    pub open spec fn tangent_words(self, v: int) -> int {
        if self.has_tangents {
            4 * v
        } else {
            0
        }
    }

    /// Words in the texture-coordinate section for `v` vertices.
    pub open spec fn uv_words(self, v: int) -> int {
        self.uv_dims as int * v
    }

    /// All 4-byte words after the header, for `v` vertices and `f` faces.
    pub open spec fn total_words(self, v: int, f: int) -> int {
        6 * v + self.tangent_words(v) + self.uv_words(v) + 3 * f
    }

    /// The exact byte length a buffer with these counts must have.
    pub open spec fn required_len(self, v: int, f: int) -> int {
        4 + 4 * self.total_words(v, f)
    }
}

impl Default for MeshLayout {
    /// The layout this exporter writes today: tangents present, 2-wide uvs.
    fn default() -> (r: Self)
        ensures
            r == (MeshLayout { has_tangents: true, uv_dims: 2 }),
            r.wf(),
    {
        MeshLayout { has_tangents: true, uv_dims: 2 }
    }
}

/// Why a mesh buffer was rejected.
#[derive(Clone, Copy, PartialEq, Eq, Structural, Debug)]
pub enum DecodeError {
    /// The buffer is shorter than the length its own counts call for.
    Truncated,
    /// A face index points at a vertex the buffer does not have.
    IndexOutOfBounds,
}

/// The mathematical content of a decoded mesh: the two counts and the five
/// scalar sections, each scalar a 4-byte word (float bits or an index).
#[verifier::ext_equal]
pub ghost struct MeshModel {
    pub vertex_count: u16,
    pub face_count: u16,
    pub positions: Seq<u32>,
    pub normals: Seq<u32>,
    pub tangents: Seq<u32>,
    pub uvs: Seq<u32>,
    pub indices: Seq<u32>,
}

/// A decoded mesh: vertex attribute buffers plus the index list. Float-typed
/// attributes are carried as raw IEEE-754 bits; indices are plain `u32`.
#[derive(Clone, PartialEq, Eq, Debug)]
pub struct MeshBuffer {
    pub vertex_count: u16,
    pub face_count: u16,
    pub positions: Vec<u32>,
    pub normals: Vec<u32>,
    pub tangents: Vec<u32>,
    pub uvs: Vec<u32>,
    pub indices: Vec<u32>,
}

impl View for MeshBuffer {
    type V = MeshModel;

    open spec fn view(&self) -> MeshModel {
        MeshModel {
            vertex_count: self.vertex_count,
            face_count: self.face_count,
            positions: self.positions@,
            normals: self.normals@,
            tangents: self.tangents@,
            uvs: self.uvs@,
            indices: self.indices@,
        }
    }
}

/// The mesh-buffer invariant: every section has the length its counts call
/// for under `layout`, and every face index names an existing vertex.
pub open spec fn mesh_wf(m: MeshModel, layout: MeshLayout) -> bool {
    &&& m.positions.len() == 3 * m.vertex_count as int
    &&& m.normals.len() == 3 * m.vertex_count as int
    &&& m.tangents.len() == layout.tangent_words(m.vertex_count as int)
    &&& m.uvs.len() == layout.uv_words(m.vertex_count as int)
    &&& m.indices.len() == 3 * m.face_count as int
    &&& forall|k: int|
        0 <= k < m.indices.len() ==> (m.indices[k] as int) < m.vertex_count as int
}

impl MeshBuffer {
    pub open spec fn wf(self, layout: MeshLayout) -> bool {
        mesh_wf(self@, layout)
    }
}

/// The `k`-th 4-byte word after the header.
pub open spec fn spec_mesh_word(s: Seq<u8>, k: int) -> u32 {
    spec_word_at(s, 4 + 4 * k)
}

/// The vertex count in the first two header bytes.
pub open spec fn spec_vertex_count(s: Seq<u8>) -> u16 {
    spec_u16_from_le_bytes(s.subrange(0, 2))
}

/// The face count in the next two header bytes.
pub open spec fn spec_face_count(s: Seq<u8>) -> u16 {
    spec_u16_from_le_bytes(s.subrange(2, 4))
}

/// The mesh a long-enough buffer holds, section by section.
pub open spec fn spec_read_mesh(layout: MeshLayout, s: Seq<u8>) -> MeshModel {
    let v = spec_vertex_count(s) as int;
    let f = spec_face_count(s) as int;
    let tw = layout.tangent_words(v);
    let uw = layout.uv_words(v);
    MeshModel {
        vertex_count: spec_vertex_count(s),
        face_count: spec_face_count(s),
        positions: Seq::new((3 * v) as nat, |k: int| spec_mesh_word(s, k)),
        normals: Seq::new((3 * v) as nat, |k: int| spec_mesh_word(s, 3 * v + k)),
        tangents: Seq::new(tw as nat, |k: int| spec_mesh_word(s, 6 * v + k)),
        uvs: Seq::new(uw as nat, |k: int| spec_mesh_word(s, 6 * v + tw + k)),
        indices: Seq::new((3 * f) as nat, |k: int| spec_mesh_word(s, 6 * v + tw + uw + k)),
    }
}

/// What decoding a buffer yields: the mesh it holds, or the exact error.
/// Truncation is checked before anything else is read; face indices are
/// range-checked last.
pub open spec fn spec_decode(layout: MeshLayout, s: Seq<u8>) -> Result<MeshModel, DecodeError> {
    if s.len() < 4 {
        Err(DecodeError::Truncated)
    } else {
        let v = spec_vertex_count(s) as int;
        let f = spec_face_count(s) as int;
        if s.len() < layout.required_len(v, f) {
            Err(DecodeError::Truncated)
        } else {
            let m = spec_read_mesh(layout, s);
            if forall|k: int| 0 <= k < m.indices.len() ==> (m.indices[k] as int) < v {
                Ok(m)
            } else {
                Err(DecodeError::IndexOutOfBounds)
            }
        }
    }
}

/// Reads `count` consecutive 4-byte scalars starting at word `start_word`.
fn parse_scalar_array(data: &[u8], start_word: usize, count: usize) -> (r: Vec<u32>)
    requires
        4 + 4 * (start_word + count) <= data@.len(),
    ensures
        r@.len() == count,
        forall|k: int| 0 <= k < count ==> r@[k] == spec_mesh_word(data@, start_word + k),
{
    let n = data.len();
    let mut r: Vec<u32> = Vec::with_capacity(count);
    let mut i: usize = 0;
    while i < count
        invariant
            i <= count,
            n == data@.len(),
            4 + 4 * (start_word + count) <= data@.len(),
            r@.len() == i,
            forall|k: int| 0 <= k < i ==> r@[k] == spec_mesh_word(data@, start_word + k),
        decreases count - i,
    {
        let off: usize = 4 + 4 * (start_word + i);
        let w = word_at(data, off);
        r.push(w);
        i = i + 1;
    }
    r
}

/// Decodes a binary mesh buffer under the given format revision.
///
/// Succeeds exactly on buffers at least as long as their own counts call for
/// and whose face indices all name existing vertices; the result is then the
/// mesh the bytes spell out, word for word.
#[verifier::loop_isolation(false)]
pub fn load_mesh(layout: MeshLayout, data: &[u8]) -> (r: Result<MeshBuffer, DecodeError>)
    requires
        layout.wf(),
    ensures
        (match r {
            Ok(m) => spec_decode(layout, data@) == Ok::<MeshModel, DecodeError>(m@) && m.wf(
                layout,
            ),
            Err(e) => spec_decode(layout, data@) == Err::<MeshModel, DecodeError>(e),
        }),
{
    if data.len() < 4 {
        return Err(DecodeError::Truncated);
    }
    let vc = u16_from_le_bytes(slice_subrange(data, 0, 2));
    let fc = u16_from_le_bytes(slice_subrange(data, 2, 4));
    let v: usize = vc as usize;
    let f: usize = fc as usize;
    let tangent_words: usize = if layout.has_tangents {
        4 * v
    } else {
        0
    };
    let uv_words: usize = if layout.uv_dims == 2 {
        2 * v
    } else {
        3 * v
    };
    let total_words: usize = 6 * v + tangent_words + uv_words + 3 * f;
    let required: usize = 4 + 4 * total_words;
    proof {
        assert(total_words == layout.total_words(v as int, f as int));
    }
    if data.len() < required {
        return Err(DecodeError::Truncated);
    }
    let positions = parse_scalar_array(data, 0, 3 * v);
    let normals = parse_scalar_array(data, 3 * v, 3 * v);
    let tangents = parse_scalar_array(data, 6 * v, tangent_words);
    let uvs = parse_scalar_array(data, 6 * v + tangent_words, uv_words);
    let indices = parse_scalar_array(data, 6 * v + tangent_words + uv_words, 3 * f);
    let m = MeshBuffer { vertex_count: vc, face_count: fc, positions, normals, tangents, uvs, indices };
    proof {
        let mm = spec_read_mesh(layout, data@);
        assert(m@.positions =~= mm.positions);
        assert(m@.normals =~= mm.normals);
        assert(m@.tangents =~= mm.tangents);
        assert(m@.uvs =~= mm.uvs);
        assert(m@.indices =~= mm.indices);
        assert(m@ =~= mm);
    }
    let nidx = m.indices.len();
    let mut k: usize = 0;
    while k < nidx
        invariant
            k <= nidx,
            forall|j: int| 0 <= j < k ==> (m.indices@[j] as int) < m.vertex_count as int,
        decreases nidx - k,
    {
        if m.indices[k] >= (vc as u32) {
            return Err(DecodeError::IndexOutOfBounds);
        }
        k = k + 1;
    }
    Ok(m)
}

/// Appends every word of `src` to `dst`.
fn append_words(dst: &mut Vec<u32>, src: &Vec<u32>)
    ensures
        final(dst)@ == old(dst)@ + src@,
{
    let n = src.len();
    let mut i: usize = 0;
    while i < n
        invariant
            i <= n,
            n == src@.len(),
            dst@ == old(dst)@ + src@.take(i as int),
        decreases n - i,
    {
        let w = src[i];
        dst.push(w);
        proof {
            assert(old(dst)@ + src@.take((i + 1) as int) =~= (old(dst)@ + src@.take(
                i as int,
            )).push(src@[i as int]));
        }
        i = i + 1;
    }
    proof {
        assert(src@.take(n as int) =~= src@);
    }
}

/// Encodes a well-formed mesh into the byte layout that `load_mesh` reads:
/// header counts, then every section's words back to back, little-endian.
/// Decoding the result under the same layout gives the mesh back; this is
/// the encoder the round-trip tests drive.
#[verifier::loop_isolation(false)]
pub fn encode_mesh(layout: MeshLayout, m: &MeshBuffer) -> (r: Vec<u8>)
    requires
        layout.wf(),
        m.wf(layout),
    ensures
        r@.len() == layout.required_len(m.vertex_count as int, m.face_count as int),
        spec_decode(layout, r@) == Ok::<MeshModel, DecodeError>(m@),
{
    let mut ws: Vec<u32> = Vec::new();
    append_words(&mut ws, &m.positions);
    append_words(&mut ws, &m.normals);
    append_words(&mut ws, &m.tangents);
    append_words(&mut ws, &m.uvs);
    append_words(&mut ws, &m.indices);
    proof {
        assert(ws@ =~= m.positions@ + m.normals@ + m.tangents@ + m.uvs@ + m.indices@);
        lemma_auto_spec_u16_to_from_le_bytes();
        assert(spec_u16_to_le_bytes(m.vertex_count).len() == 2);
        assert(spec_u16_to_le_bytes(m.face_count).len() == 2);
    }
    let mut out: Vec<u8> = Vec::new();
    let mut vb = u16_to_le_bytes(m.vertex_count);
    out.append(&mut vb);
    let mut fb = u16_to_le_bytes(m.face_count);
    out.append(&mut fb);
    proof {
        assert(out@.subrange(0, 2) =~= spec_u16_to_le_bytes(m.vertex_count));
        assert(out@.subrange(2, 4) =~= spec_u16_to_le_bytes(m.face_count));
    }
    let total = ws.len();
    let mut i: usize = 0;
    while i < total
        invariant
            i <= total,
            out@.len() == 4 + 4 * i,
            out@.subrange(0, 2) == spec_u16_to_le_bytes(m.vertex_count),
            out@.subrange(2, 4) == spec_u16_to_le_bytes(m.face_count),
            forall|k: int| 0 <= k < i ==> spec_mesh_word(out@, k) == ws@[k],
        decreases total - i,
    {
        let ghost prev = out@;
        let w = ws[i];
        push_word(&mut out, w);
        proof {
            assert(prev =~= out@.subrange(0, prev.len() as int));
            assert(out@.subrange(0, 2) =~= prev.subrange(0, 2));
            assert(out@.subrange(2, 4) =~= prev.subrange(2, 4));
            assert forall|k: int| 0 <= k < i + 1 implies spec_mesh_word(out@, k) == ws@[k] by {
                if k < i {
                    lemma_word_at_prefix(prev, out@, 4 + 4 * k);
                } else {
                    assert(out@.subrange(4 + 4 * k, 8 + 4 * k) =~= spec_u32_to_le_bytes(
                        ws@[k],
                    ));
                    lemma_word_at_written(out@, 4 + 4 * k, ws@[k]);
                }
            }
        }
        i = i + 1;
    }
    proof {
        let s = out@;
        let v = m.vertex_count as int;
        let f = m.face_count as int;
        assert(spec_vertex_count(s) == m.vertex_count);
        assert(spec_face_count(s) == m.face_count);
        assert(s.len() == layout.required_len(v, f));
        let mm = spec_read_mesh(layout, s);
        let tw = layout.tangent_words(v);
        let uw = layout.uv_words(v);
        assert forall|k: int| 0 <= k < 3 * v implies mm.positions[k] == m.positions@[k] by {
            assert(ws@[k] == m.positions@[k]);
        }
        assert forall|k: int| 0 <= k < 3 * v implies mm.normals[k] == m.normals@[k] by {
            assert(ws@[3 * v + k] == m.normals@[k]);
        }
        assert forall|k: int| 0 <= k < tw implies mm.tangents[k] == m.tangents@[k] by {
            assert(ws@[6 * v + k] == m.tangents@[k]);
        }
        assert forall|k: int| 0 <= k < uw implies mm.uvs[k] == m.uvs@[k] by {
            assert(ws@[6 * v + tw + k] == m.uvs@[k]);
        }
        assert forall|k: int| 0 <= k < 3 * f implies mm.indices[k] == m.indices@[k] by {
            assert(ws@[6 * v + tw + uw + k] == m.indices@[k]);
        }
        assert(mm.positions =~= m.positions@);
        assert(mm.normals =~= m.normals@);
        assert(mm.tangents =~= m.tangents@);
        assert(mm.uvs =~= m.uvs@);
        assert(mm.indices =~= m.indices@);
        assert(mm =~= m@);
    }
    out
}

/// Transient component: a path to a mesh asset to load.
#[derive(PartialEq, Eq, Debug)]
pub struct BlendMeshLoader {
    pub path: String,
}

impl Default for BlendMeshLoader {
    fn default() -> (r: Self)
        ensures
            r.path@ == Seq::<char>::empty(),
    {
        BlendMeshLoader { path: String::new() }
    }
}

/// Decodes binary mesh buffers handed over by the asset collaborator.
#[derive(PartialEq, Eq, Structural, Debug)]
pub struct BlendMeshAssetLoader;

impl Default for BlendMeshAssetLoader {
    fn default() -> (r: Self)
        ensures
            r == BlendMeshAssetLoader,
    {
        BlendMeshAssetLoader
    }
}

impl BlendMeshAssetLoader {
    /// Decodes one asset's bytes; a failure fails that one asset only.
    pub fn load(&self, layout: MeshLayout, data: &[u8]) -> (r: Result<MeshBuffer, DecodeError>)
        requires
            layout.wf(),
        ensures
            (match r {
                Ok(m) => spec_decode(layout, data@) == Ok::<MeshModel, DecodeError>(m@) && m.wf(
                    layout,
                ),
                Err(e) => spec_decode(layout, data@) == Err::<MeshModel, DecodeError>(e),
            }),
    {
        load_mesh(layout, data)
    }

    /// The file extension this loader claims.
    pub fn extensions(&self) -> (r: String)
        ensures
            r@ == "mesh"@,
    {
        "mesh".to_owned()
    }
}

/// What the mesh loader pass does to one entity: the pending load, if any,
/// is removed and a forward reference under its path attached; everything
/// else is untouched.
pub open spec fn spec_mesh_loader_step(e: EntityRecord) -> EntityRecord {
    EntityRecord {
        mesh_loader: None,
        mesh_handle: (match e.mesh_loader {
            Some(l) => Some(Handle { path: l.path }),
            None => e.mesh_handle,
        }),
        ..e
    }
}

/// What the mesh loader pass does to the whole world.
pub open spec fn spec_mesh_loader_pass(es: Seq<EntityRecord>) -> Seq<EntityRecord> {
    Seq::new(es.len(), |i: int| spec_mesh_loader_step(es[i]))
}

/// The loads the mesh loader pass requests, scanning from entity `i` on:
/// one per pending mesh loader, in entity order, each under the loader's
/// path.
pub open spec fn spec_mesh_requests(es: Seq<EntityRecord>, i: int) -> Seq<LoadRequest>
    decreases es.len() - i,
{
    if 0 <= i < es.len() {
        let rest = spec_mesh_requests(es, i + 1);
        match es[i].mesh_loader {
            Some(l) => seq![LoadRequest { entity: i as usize, path: l.path }] + rest,
            None => rest,
        }
    } else {
        Seq::empty()
    }
}

/// The mesh loader pass. For every entity that carries a `BlendMeshLoader`,
/// the component is removed, an asynchronous load of its path is requested,
/// and the resulting forward reference attached at once — nothing waits for
/// the bytes. Entities without one, and every other component, are
/// untouched.
pub fn blend_mesh_loader(w: &mut World) -> (requests: Vec<LoadRequest>)
    ensures
        final(w).entities@ == spec_mesh_loader_pass(old(w).entities@),
        requests@ == spec_mesh_requests(old(w).entities@, 0),
{
    let ghost es0 = w.entities@;
    let n = w.entities.len();
    let mut out: Vec<EntityRecord> = Vec::with_capacity(n);
    let mut requests: Vec<LoadRequest> = Vec::new();
    let mut i: usize = 0;
    while i < n
        invariant
            i <= n,
            n == es0.len(),
            out@.len() == i,
            w.entities@ == es0.subrange(i as int, n as int),
            forall|j: int| 0 <= j < i ==> out@[j] == spec_mesh_loader_step(es0[j]),
            requests@ + spec_mesh_requests(es0, i as int) == spec_mesh_requests(es0, 0),
        decreases n - i,
    {
        let ghost reqs_before = requests@;
        let e = w.entities.remove(0);
        proof {
            assert(w.entities@ =~= es0.subrange((i + 1) as int, n as int));
        }
        let EntityRecord {
            transform,
            label,
            mesh_loader,
            material_loader,
            collection_loader,
            body_description,
            collider_description,
            mesh_handle,
            material_handle,
            body,
            collider,
        } = e;
        let new_handle: Option<Handle> = match mesh_loader {
            Some(l) => {
                let BlendMeshLoader { path } = l;
                requests.push(LoadRequest { entity: i, path: path.clone() });
                proof {
                    assert(reqs_before + spec_mesh_requests(es0, i as int) =~= requests@
                        + spec_mesh_requests(es0, i + 1));
                }
                Some(Handle { path })
            },
            None => mesh_handle,
        };
        out.push(
            EntityRecord {
                transform,
                label,
                mesh_loader: None,
                material_loader,
                collection_loader,
                body_description,
                collider_description,
                mesh_handle: new_handle,
                material_handle,
                body,
                collider,
            },
        );
        i = i + 1;
    }
    w.entities = out;
    proof {
        assert(final(w).entities@ =~= spec_mesh_loader_pass(es0));
        assert(requests@ + spec_mesh_requests(es0, n as int) =~= requests@);
    }
    requests
}

/// A world none of whose entities has a pending mesh load produces no mesh
/// load requests, from any starting index.
proof fn lemma_no_mesh_requests(es: Seq<EntityRecord>, i: int)
    requires
        forall|j: int| 0 <= j < es.len() ==> (#[trigger] es[j]).mesh_loader is None,
    ensures
        spec_mesh_requests(es, i) == Seq::<LoadRequest>::empty(),
    decreases es.len() - i,
{
    if 0 <= i < es.len() {
        lemma_no_mesh_requests(es, i + 1);
    }
}

/// The mesh loader pass consumes every pending mesh load, so a second pass
/// changes nothing and requests nothing.
pub proof fn lemma_mesh_loader_pass_idempotent(es: Seq<EntityRecord>)
    ensures
        forall|i: int|
            0 <= i < es.len() ==> (#[trigger] spec_mesh_loader_pass(es)[i]).mesh_loader is None,
        spec_mesh_loader_pass(spec_mesh_loader_pass(es)) == spec_mesh_loader_pass(es),
        spec_mesh_requests(spec_mesh_loader_pass(es), 0) == Seq::<LoadRequest>::empty(),
{
    assert(spec_mesh_loader_pass(spec_mesh_loader_pass(es)) =~= spec_mesh_loader_pass(es));
    lemma_no_mesh_requests(spec_mesh_loader_pass(es), 0);
}

/// Cutting a buffer anywhere short of the length its own counts call for
/// makes decoding fail with a truncation error, whatever the bytes hold.
pub proof fn lemma_truncated_decode_fails(layout: MeshLayout, s: Seq<u8>, n: int)
    requires
        layout.wf(),
        s.len() >= 4,
        0 <= n <= s.len(),
        n < layout.required_len(spec_vertex_count(s) as int, spec_face_count(s) as int),
    ensures
        spec_decode(layout, s.subrange(0, n)) == Err::<MeshModel, DecodeError>(
            DecodeError::Truncated,
        ),
{
    let t = s.subrange(0, n);
    if n >= 4 {
        assert(t.subrange(0, 2) =~= s.subrange(0, 2));
        assert(t.subrange(2, 4) =~= s.subrange(2, 4));
    }
}

} // verus!

