//! Merging model geometry into one indexed triangle list.
use crate::geometry::{transform_point, LocalPoint, Point3, Transform};
use vstd::prelude::*;

verus! {

/// A color, each channel in thousandths (`0..=1000`).
#[derive(Clone, Copy, Debug, PartialEq, Eq, Structural)]
pub struct Rgb {
    pub r: u16,
    pub g: u16,
    pub b: u16,
}

/// A world-space vertex with its color.
#[derive(Clone, Copy, Debug, PartialEq, Eq, Structural)]
pub struct Vertex {
    pub position: Point3,
    pub color: Rgb,
}

/// Number of colors in the vertex palette.
pub const PALETTE_SIZE: usize = 8;

/// Largest number of vertices a scene can hold: every index must fit in a `u16`.
pub const MAX_VERTICES: usize = 65536;

/// Palette entry `i` (for `i < PALETTE_SIZE`).
pub open spec fn palette(i: int) -> Rgb {
    if i == 0 {
        Rgb { r: 1000, g: 0, b: 0 }
    } else if i == 1 {
        Rgb { r: 0, g: 1000, b: 0 }
    } else if i == 2 {
        Rgb { r: 0, g: 0, b: 1000 }
    } else if i == 3 {
        Rgb { r: 1000, g: 1000, b: 0 }
    } else if i == 4 {
        Rgb { r: 1000, g: 0, b: 1000 }
    } else if i == 5 {
        Rgb { r: 0, g: 1000, b: 1000 }
    } else if i == 6 {
        Rgb { r: 1000, g: 1000, b: 1000 }
    } else {
        Rgb { r: 500, g: 500, b: 500 }
    }
}

/// The color given to the vertex emitted `j`-th by its model.
pub fn palette_color(j: usize) -> (c: Rgb)
    ensures
        c == palette(j as int % PALETTE_SIZE as int),
{
    let i = j % PALETTE_SIZE;
    if i == 0 {
        Rgb { r: 1000, g: 0, b: 0 }
    } else if i == 1 {
        Rgb { r: 0, g: 1000, b: 0 }
    } else if i == 2 {
        Rgb { r: 0, g: 0, b: 1000 }
    } else if i == 3 {
        Rgb { r: 1000, g: 1000, b: 0 }
    } else if i == 4 {
        Rgb { r: 1000, g: 0, b: 1000 }
    } else if i == 5 {
        Rgb { r: 0, g: 1000, b: 1000 }
    } else if i == 6 {
        Rgb { r: 1000, g: 1000, b: 1000 }
    } else {
        Rgb { r: 500, g: 500, b: 500 }
    }
}

/// A source of model-space geometry: vertices and triangle-list indices.
pub trait Model {
    spec fn local_vertices(&self) -> Seq<LocalPoint>;

    spec fn local_indices(&self) -> Seq<u16>;

    fn vertices(&self) -> (r: Vec<LocalPoint>)
        ensures
            r@ == self.local_vertices(),
    ;

    fn indices(&self) -> (r: Vec<u16>)
        ensures
            r@ == self.local_indices(),
    ;
}

/// Every index refers to one of the model's own vertices.
pub open spec fn indices_in_range(vs: Seq<LocalPoint>, is: Seq<u16>) -> bool {
    forall|k: int| 0 <= k < is.len() ==> (#[trigger] is[k] as int) < vs.len()
}

/// The vertices a model contributes under `m`: each point transformed, colored
/// by its position in the model's own sequence.
pub open spec fn placed_vertices(vs: Seq<LocalPoint>, m: Transform) -> Seq<Vertex> {
    Seq::new(
        vs.len(),
        |j: int|
            Vertex {
                position: transform_point(m, vs[j]),
                color: palette(j % PALETTE_SIZE as int),
            },
    )
}

/// The model's indices rebased by `start`.
pub open spec fn offset_indices(is: Seq<u16>, start: int) -> Seq<u16> {
    Seq::new(is.len(), |k: int| (is[k] + start) as u16)
}

/// Every index refers to a vertex of `vertices`.
pub open spec fn indices_valid(vertices: Seq<Vertex>, indices: Seq<u16>) -> bool {
    forall|k: int| 0 <= k < indices.len() ==> (#[trigger] indices[k] as int) < vertices.len()
}

/// Merging never leaves a dangling index: if every index of a scene refers to
/// one of its vertices, the same holds after a model whose own indices are in
/// range is merged under any transform.
pub proof fn lemma_merge_keeps_indices_valid(
    vertices: Seq<Vertex>,
    indices: Seq<u16>,
    vs: Seq<LocalPoint>,
    is: Seq<u16>,
    m: Transform,
)
    requires
        indices_valid(vertices, indices),
        indices_in_range(vs, is),
        vertices.len() + vs.len() <= MAX_VERTICES,
    ensures
        indices_valid(
            vertices + placed_vertices(vs, m),
            indices + offset_indices(is, vertices.len() as int),
        ),
{
    let merged = indices + offset_indices(is, vertices.len() as int);
    assert forall|k: int| 0 <= k < merged.len() implies (#[trigger] merged[k] as int) < vertices.len()
        + vs.len() by {
        if k >= indices.len() {
            assert(is[k - indices.len()] < vs.len());
        }
    }
}

/// Combined geometry of every model merged so far.
pub struct Scene {
    pub vertex_buffer: Vec<Vertex>,
    pub index_buffer: Vec<u16>,
}

impl Scene {
    /// Every index refers to a vertex already in the buffer.
    pub open spec fn wf(&self) -> bool {
        &&& self.vertex_buffer@.len() <= MAX_VERTICES
        &&& indices_valid(self.vertex_buffer@, self.index_buffer@)
    }

    pub fn new() -> (s: Scene)
        ensures
            s.vertex_buffer@ == Seq::<Vertex>::empty(),
            s.index_buffer@ == Seq::<u16>::empty(),
            s.wf(),
    {
        Scene { vertex_buffer: Vec::new(), index_buffer: Vec::new() }
    }

    /// Appends the model's geometry transformed by `transformation`; its
    /// indices are rebased by the vertex count before the call.
    pub fn add_model<M: Model>(&mut self, model: &M, transformation: Transform)
        requires
            indices_in_range(model.local_vertices(), model.local_indices()),
            old(self).vertex_buffer@.len() + model.local_vertices().len() <= MAX_VERTICES,
        ensures
            final(self).index_buffer@ == old(self).index_buffer@ + offset_indices(
                model.local_indices(),
                old(self).vertex_buffer@.len() as int,
            ),
            final(self).vertex_buffer@ == old(self).vertex_buffer@ + placed_vertices(
                model.local_vertices(),
                transformation,
            ),
            old(self).wf() ==> final(self).wf(),
    {
        let index_start = #[verifier::truncate] (self.vertex_buffer.len() as u16);
        let ghost start = self.vertex_buffer@.len() as int;
        let ghost vs = model.local_vertices();
        let ghost is = model.local_indices();
        let ghost old_indices = self.index_buffer@;
        let ghost old_vertices = self.vertex_buffer@;
        let indices = model.indices();
        proof {
            if is.len() > 0 {
                assert(is[0] < vs.len());
            }
        }
        let mut k: usize = 0;
        while k < indices.len()
            invariant
                indices@ == is,
                k <= is.len(),
                indices_in_range(vs, is),
                start + vs.len() <= MAX_VERTICES,
                k < is.len() ==> index_start as int == start,
                self.vertex_buffer@ == old_vertices,
                self.index_buffer@ == old_indices + offset_indices(is, start).take(k as int),
            decreases is.len() - k,
        {
            assert(is[k as int] < vs.len());
            assert(index_start as int == start);
            self.index_buffer.push(indices[k] + index_start);
            k = k + 1;
            assert(self.index_buffer@ =~= old_indices + offset_indices(is, start).take(k as int));
        }
        assert(offset_indices(is, start).take(is.len() as int) =~= offset_indices(is, start));
        let vertices = model.vertices();
        let mut j: usize = 0;
        while j < vertices.len()
            invariant
                vertices@ == vs,
                j <= vs.len(),
                self.vertex_buffer@ == old_vertices + placed_vertices(vs, transformation).take(
                    j as int,
                ),
                self.index_buffer@ == old_indices + offset_indices(is, start),
            decreases vs.len() - j,
        {
            let position = transformation.apply(&vertices[j]);
            self.vertex_buffer.push(Vertex { position, color: palette_color(j) });
            j = j + 1;
            assert(self.vertex_buffer@ =~= old_vertices + placed_vertices(vs, transformation).take(
                j as int,
            ));
        }
        assert(placed_vertices(vs, transformation).take(vs.len() as int) =~= placed_vertices(
            vs,
            transformation,
        ));
        proof {
            if old(self).wf() {
                lemma_merge_keeps_indices_valid(
                    old_vertices,
                    old_indices,
                    vs,
                    is,
                    transformation,
                );
            }
        }
    }

    /// Removes all geometry.
    pub fn clear(&mut self)
        ensures
            final(self).vertex_buffer@ == Seq::<Vertex>::empty(),
            final(self).index_buffer@ == Seq::<u16>::empty(),
            final(self).wf(),
    {
        self.vertex_buffer.clear();
        self.index_buffer.clear();
    }
}

/// Corners of the unit cube centred at the origin, in emission order.
pub open spec fn cube_vertices() -> Seq<LocalPoint> {
    seq![
        LocalPoint { x: -500i16, y: 500i16, z: -500i16 },
        LocalPoint { x: 500i16, y: 500i16, z: -500i16 },
        LocalPoint { x: -500i16, y: 500i16, z: 500i16 },
        LocalPoint { x: 500i16, y: 500i16, z: 500i16 },
        LocalPoint { x: -500i16, y: -500i16, z: -500i16 },
        LocalPoint { x: 500i16, y: -500i16, z: -500i16 },
        LocalPoint { x: -500i16, y: -500i16, z: 500i16 },
        LocalPoint { x: 500i16, y: -500i16, z: 500i16 },
    ]
}

/// The cube's twelve triangles: two per face, top, front, right, back, left, bottom.
pub open spec fn cube_indices() -> Seq<u16> {
    seq![
        0u16, 1, 3, 0, 3, 2,
        4, 5, 1, 4, 1, 0,
        5, 7, 3, 5, 3, 1,
        7, 6, 2, 7, 2, 3,
        6, 4, 0, 6, 0, 2,
        7, 5, 4, 7, 4, 6,
    ]
}

/// A unit cube centred at the origin.
pub struct Cube {
    _blank: (),
}

impl Cube {
    pub fn new() -> (c: Cube)
        ensures
            c.local_vertices() == cube_vertices(),
            c.local_indices() == cube_indices(),
    {
        Cube { _blank: () }
    }
}

impl Model for Cube {
    open spec fn local_vertices(&self) -> Seq<LocalPoint> {
        cube_vertices()
    }

    open spec fn local_indices(&self) -> Seq<u16> {
        cube_indices()
    }

    fn vertices(&self) -> (r: Vec<LocalPoint>) {
        let r = vec![
            LocalPoint { x: -500, y: 500, z: -500 },
            LocalPoint { x: 500, y: 500, z: -500 },
            LocalPoint { x: -500, y: 500, z: 500 },
            LocalPoint { x: 500, y: 500, z: 500 },
            LocalPoint { x: -500, y: -500, z: -500 },
            LocalPoint { x: 500, y: -500, z: -500 },
            LocalPoint { x: -500, y: -500, z: 500 },
            LocalPoint { x: 500, y: -500, z: 500 },
        ];
        assert(r@ =~= cube_vertices());
        r
    }

    fn indices(&self) -> (r: Vec<u16>) {
        let r: Vec<u16> = vec![
            0, 1, 3, 0, 3, 2,
            4, 5, 1, 4, 1, 0,
            5, 7, 3, 5, 3, 1,
            7, 6, 2, 7, 2, 3,
            6, 4, 0, 6, 0, 2,
            7, 5, 4, 7, 4, 6,
        ];
        assert(r@ =~= cube_indices());
        r
    }
}

/// The cube's indices all refer to its eight vertices.
pub proof fn lemma_cube_indices_in_range()
    ensures
        indices_in_range(cube_vertices(), cube_indices()),
        cube_vertices().len() == 8,
        cube_indices().len() == 36,
{
    assert forall|k: int| 0 <= k < cube_indices().len() implies (#[trigger] cube_indices()[k]
        as int) < cube_vertices().len() by {
        assert(cube_indices()[k] < 8);
    }
}

/// Merging two cubes into an empty scene, under any two transforms, gives
/// sixteen vertices and seventy-two indices, the second block of indices being
/// the cube's own shifted by eight.
pub proof fn lemma_two_cubes(t1: Transform, t2: Transform)
    ensures
        ({
            let v1 = Seq::<Vertex>::empty() + placed_vertices(cube_vertices(), t1);
            let i1 = Seq::<u16>::empty() + offset_indices(cube_indices(), 0);
            let v2 = v1 + placed_vertices(cube_vertices(), t2);
            let i2 = i1 + offset_indices(cube_indices(), v1.len() as int);
            &&& v2.len() == 16
            &&& i2.len() == 72
            &&& forall|k: int| 0 <= k < 36 ==> i2[k] == cube_indices()[k]
            &&& forall|k: int| 0 <= k < 36 ==> i2[36 + k] as int == cube_indices()[k] + 8
        }),
{
    lemma_cube_indices_in_range();
    let v1 = Seq::<Vertex>::empty() + placed_vertices(cube_vertices(), t1);
    let i1 = Seq::<u16>::empty() + offset_indices(cube_indices(), 0);
    let i2 = i1 + offset_indices(cube_indices(), v1.len() as int);
    assert forall|k: int| 0 <= k < 36 implies i2[36 + k] as int == cube_indices()[k] + 8 by {
        assert(cube_indices()[k] < 8);
    }
}

} // verus!
