use vstd::prelude::*;

verus! {

/// What an entity needs to be drawn: the paths of its model, texture and shaders.
pub struct GraphicComponent {
    pub is_active: bool,
    pub model_path: Option<String>,
    pub texture_path: Option<String>,
    pub vertex_shader_path: Option<String>,
    pub fragment_shader_path: Option<String>,
}

impl GraphicComponent {
    /// An active component without a texture.
    pub fn new(
        model_path: Option<String>,
        vertex_shader_path: Option<String>,
        fragment_shader_path: Option<String>,
    ) -> (r: Self)
        ensures
            r.is_active,
            r.model_path == model_path,
            r.texture_path.is_none(),
            r.vertex_shader_path == vertex_shader_path,
            r.fragment_shader_path == fragment_shader_path,
    {
        GraphicComponent {
            is_active: true,
            model_path,
            texture_path: None,
            vertex_shader_path,
            fragment_shader_path,
        }
    }

    /// A component can be drawn once it has a model and both shaders.
    pub open spec fn spec_can_be_drawn(&self) -> bool {
        &&& self.model_path.is_some()
        &&& self.vertex_shader_path.is_some()
        &&& self.fragment_shader_path.is_some()
    }

    pub fn can_be_drawn(&self) -> (r: bool)
        ensures
            r == self.spec_can_be_drawn(),
    {
        self.model_path.is_some() && self.vertex_shader_path.is_some()
            && self.fragment_shader_path.is_some()
    }

    pub fn add_shaders(&mut self, vertex_shader: String, fragment_shader: String)
        ensures
            final(self).vertex_shader_path == Some(vertex_shader),
            final(self).fragment_shader_path == Some(fragment_shader),
            final(self).is_active == old(self).is_active,
            final(self).model_path == old(self).model_path,
            final(self).texture_path == old(self).texture_path,
    {
        self.vertex_shader_path = Some(vertex_shader);
        self.fragment_shader_path = Some(fragment_shader);
    }

    pub fn add_texture(&mut self, texture_path: String)
        ensures
            final(self).texture_path == Some(texture_path),
            final(self).is_active == old(self).is_active,
            final(self).model_path == old(self).model_path,
            final(self).vertex_shader_path == old(self).vertex_shader_path,
            final(self).fragment_shader_path == old(self).fragment_shader_path,
    {
        self.texture_path = Some(texture_path);
    }

    pub fn add_model(&mut self, model_path: String)
        ensures
            final(self).model_path == Some(model_path),
            final(self).is_active == old(self).is_active,
            final(self).texture_path == old(self).texture_path,
            final(self).vertex_shader_path == old(self).vertex_shader_path,
            final(self).fragment_shader_path == old(self).fragment_shader_path,
    {
        self.model_path = Some(model_path);
    }

    pub fn is_active(&self) -> (r: bool)
        ensures
            r == self.is_active,
    {
        self.is_active
    }

    /// The key under which the shader program of this component is cached:
    /// its vertex and fragment shader paths, when it has both.
    pub fn program_key(&self) -> (r: Option<(String, String)>)
        ensures
            r == (match (self.vertex_shader_path, self.fragment_shader_path) {
                (Some(v), Some(f)) => Some((v, f)),
                _ => None,
            }),
    {
        match (&self.vertex_shader_path, &self.fragment_shader_path) {
            (Some(v), Some(f)) => Some((v.clone(), f.clone())),
            _ => None,
        }
    }
}

/// One mesh vertex: position, normal and texture coordinate, over any scalar type.
#[derive(Debug)]
pub struct Vertex<T> {
    pub position: (T, T, T),
    pub normal: (T, T, T),
    pub tex_coord: (T, T),
}

/// Number of whole vertices that flat attribute arrays of these lengths hold:
/// three scalars per position and per normal, two per texture coordinate.
/// Without texture coordinates every vertex gets a zero one, so only positions
/// and normals count.
pub open spec fn vertex_count(n_positions: nat, n_normals: nat, n_tex_coords: nat) -> nat {
    let c = if n_positions / 3 <= n_normals / 3 {
        n_positions / 3
    } else {
        n_normals / 3
    };
    if n_tex_coords > 0 && n_tex_coords / 2 < c {
        n_tex_coords / 2
    } else {
        c
    }
}

/// The `i`-th vertex interleaved from flat attribute arrays.
pub open spec fn vertex_at<T>(
    positions: Seq<T>,
    normals: Seq<T>,
    tex_coords: Seq<T>,
    zero: T,
    i: int,
) -> Vertex<T> {
    Vertex {
        position: (positions[3 * i], positions[3 * i + 1], positions[3 * i + 2]),
        normal: (normals[3 * i], normals[3 * i + 1], normals[3 * i + 2]),
        tex_coord: if tex_coords.len() > 0 {
            (tex_coords[2 * i], tex_coords[2 * i + 1])
        } else {
            (zero, zero)
        },
    }
}

/// Interleaves a mesh's flat position, normal and texture-coordinate arrays
/// into vertices. Trailing scalars that do not make a whole vertex are dropped;
/// a mesh without texture coordinates gets `(zero, zero)` at every vertex.
pub fn assemble_vertices<T: Copy>(
    positions: &Vec<T>,
    normals: &Vec<T>,
    tex_coords: &Vec<T>,
    zero: T,
) -> (r: Vec<Vertex<T>>)
    ensures
        r@.len() == vertex_count(
            positions@.len(),
            normals@.len(),
            tex_coords@.len(),
        ),
        forall|i: int|
            0 <= i < r@.len() ==> #[trigger] r@[i] == vertex_at(
                positions@,
                normals@,
                tex_coords@,
                zero,
                i,
            ),
{
    let n_positions = positions.len();
    let n_normals = normals.len();
    let np = n_positions / 3;
    let nn = n_normals / 3;
    let mut count = if np <= nn {
        np
    } else {
        nn
    };
    if tex_coords.len() > 0 && tex_coords.len() / 2 < count {
        count = tex_coords.len() / 2;
    }
    let has_tex = tex_coords.len() > 0;
    let mut r: Vec<Vertex<T>> = Vec::new();
    let mut i: usize = 0;
    while i < count
        invariant
            i <= count,
            count == vertex_count(positions@.len(), normals@.len(), tex_coords@.len()),
            has_tex == (tex_coords@.len() > 0),
            n_positions == positions@.len(),
            n_normals == normals@.len(),
            r@.len() == i,
            forall|j: int|
                0 <= j < i ==> #[trigger] r@[j] == vertex_at(
                    positions@,
                    normals@,
                    tex_coords@,
                    zero,
                    j,
                ),
        decreases count - i,
    {
        assert(3 * i + 3 <= positions@.len()) by (nonlinear_arith)
            requires
                i < count,
                count <= positions@.len() / 3,
        ;
        assert(3 * i + 3 <= normals@.len()) by (nonlinear_arith)
            requires
                i < count,
                count <= normals@.len() / 3,
        ;
        let p = 3 * i;
        let tex_coord = if has_tex {
            assert(2 * i + 2 <= tex_coords@.len()) by (nonlinear_arith)
                requires
                    i < count,
                    count <= tex_coords@.len() / 2,
            ;
            (tex_coords[2 * i], tex_coords[2 * i + 1])
        } else {
            (zero, zero)
        };
        r.push(
            Vertex {
                position: (positions[p], positions[p + 1], positions[p + 2]),
                normal: (normals[p], normals[p + 1], normals[p + 2]),
                tex_coord,
            },
        );
        i = i + 1;
    }
    r
}

} // verus!
