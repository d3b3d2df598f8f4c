use vstd::prelude::*;

use crate::world::render::render_cube_byte::RenderCubeByte;

pub mod mesh;
pub mod model;
pub mod render_cube_byte;

verus! {

/// Bound on the magnitude of a world coordinate, in blocks. Keeping
/// positions inside this range leaves ample headroom for the per-block
/// offsets and the squared-distance arithmetic of the visibility filter.
pub const POS_LIMIT: i64 = 0x4000_0000;

/// Bound on the magnitude of a facing-direction component, in milli-units.
/// A unit vector scaled by 1000 fits comfortably.
pub const DIR_LIMIT: i64 = 0x100000;

/// Bound on an atlas row index.
pub const ROW_LIMIT: usize = 0x40000000;

/// A world-space position or direction with integer components: positions in
/// whole block units, directions in milli-units.
#[derive(Debug, Default, PartialEq, Eq, Structural, Clone, Copy)]
pub struct WorldPos {
    pub x: i64,
    pub y: i64,
    pub z: i64,
}

impl WorldPos {
    /// All three components bounded by `b` in magnitude.
    pub open spec fn bounded(self, b: int) -> bool {
        &&& -b <= self.x <= b
        &&& -b <= self.y <= b
        &&& -b <= self.z <= b
    }

    /// A position inside the coordinate range the pipeline works over.
    pub open spec fn wf(self) -> bool {
        self.bounded(POS_LIMIT as int)
    }

    pub fn new(x: i64, y: i64, z: i64) -> (r: Self)
        ensures
            r == (WorldPos { x, y, z }),
    {
        WorldPos { x, y, z }
    }
}

/// One corner of an atlas cell, in centi-units of texture space: `u` is 0 at
/// the left edge and 100 one full atlas width to the right; `v` grows by 1
/// per atlas row.
#[derive(Debug, Default, PartialEq, Eq, Structural, Clone, Copy)]
pub struct UvPoint {
    pub u: i64,
    pub v: i64,
}

/// One atlas texture, addressed by its row in the texture atlas. Row `n`
/// covers texture-space rows `n` to `n + 1` in centi-units.
#[derive(Debug, PartialEq, Eq, Structural, Clone, Copy)]
pub struct UvTexture(pub usize);

impl View for UvTexture {
    type V = int;

    open spec fn view(&self) -> int {
        self.0 as int
    }
}

impl UvTexture {
    /// The atlas row index stays small enough for the corner arithmetic.
    pub open spec fn wf(self) -> bool {
        0 <= self@ <= ROW_LIMIT as int
    }

    /// The texture of atlas row `n`.
    pub fn from_n(n: usize) -> (r: UvTexture)
        requires
            n <= ROW_LIMIT,
        ensures
            r@ == n,
            r.wf(),
    {
        UvTexture(n)
    }

    pub fn dirt() -> (r: UvTexture)
        ensures
            r@ == 0,
            r.wf(),
    {
        UvTexture::from_n(0)
    }

    pub fn grass_side() -> (r: UvTexture)
        ensures
            r@ == 1,
            r.wf(),
    {
        UvTexture::from_n(1)
    }

    pub fn grass_top() -> (r: UvTexture)
        ensures
            r@ == 2,
            r.wf(),
    {
        UvTexture::from_n(2)
    }

    pub fn stone() -> (r: UvTexture)
        ensures
            r@ == 3,
            r.wf(),
    {
        UvTexture::from_n(3)
    }

    pub fn sand() -> (r: UvTexture)
        ensures
            r@ == 4,
            r.wf(),
    {
        UvTexture::from_n(4)
    }

    /// The upper-left corner of this texture's atlas cell.
    pub open spec fn spec_up_left(self) -> UvPoint {
        UvPoint { u: 0, v: self@ as i64 }
    }

    /// The upper-right corner of this texture's atlas cell.
    pub open spec fn spec_up_right(self) -> UvPoint {
        UvPoint { u: 100, v: self@ as i64 }
    }

    /// The lower-left corner of this texture's atlas cell.
    pub open spec fn spec_low_left(self) -> UvPoint {
        UvPoint { u: 0, v: (self@ + 1) as i64 }
    }

    /// The lower-right corner of this texture's atlas cell.
    pub open spec fn spec_low_right(self) -> UvPoint {
        UvPoint { u: 100, v: (self@ + 1) as i64 }
    }

    pub fn up_left(&self) -> (r: UvPoint)
        requires
            self.wf(),
        ensures
            r == self.spec_up_left(),
    {
        UvPoint { u: 0, v: self.0 as i64 }
    }

    pub fn up_right(&self) -> (r: UvPoint)
        requires
            self.wf(),
        ensures
            r == self.spec_up_right(),
    {
        UvPoint { u: 100, v: self.0 as i64 }
    }

    pub fn low_left(&self) -> (r: UvPoint)
        requires
            self.wf(),
        ensures
            r == self.spec_low_left(),
    {
        UvPoint { u: 0, v: self.0 as i64 + 1 }
    }

    pub fn low_right(&self) -> (r: UvPoint)
        requires
            self.wf(),
        ensures
            r == self.spec_low_right(),
    {
        UvPoint { u: 100, v: self.0 as i64 + 1 }
    }
}

/// The per-face texture assignment of one block kind, in face order
/// -Z, +Z, -X, +X, -Y, +Y. An absent entry means the face is never drawn.
#[derive(Debug, PartialEq, Eq, Clone, Copy)]
pub struct TextureSet {
    pub nz: Option<UvTexture>,
    pub pz: Option<UvTexture>,
    pub nx: Option<UvTexture>,
    pub px: Option<UvTexture>,
    pub ny: Option<UvTexture>,
    pub py: Option<UvTexture>,
}

impl TextureSet {
    /// The entry for face index `i`, in the bit order of `RenderCubeByte`.
    pub open spec fn spec_face(self, i: int) -> Option<UvTexture> {
        if i == 0 {
            self.nz
        } else if i == 1 {
            self.pz
        } else if i == 2 {
            self.nx
        } else if i == 3 {
            self.px
        } else if i == 4 {
            self.ny
        } else {
            self.py
        }
    }

    /// Every present entry has a well-formed row index.
    pub open spec fn wf(self) -> bool {
        forall|i: int| 0 <= i < 6 && self.spec_face(i) is Some ==> self.spec_face(i)->0.wf()
    }

    pub fn face(&self, i: usize) -> (r: Option<UvTexture>)
        requires
            i < 6,
        ensures
            r == self.spec_face(i as int),
    {
        match i {
            0 => self.nz,
            1 => self.pz,
            2 => self.nx,
            3 => self.px,
            4 => self.ny,
            _ => self.py,
        }
    }

    /// Every face mapped to the same texture.
    pub open spec fn spec_uniform(t: UvTexture) -> TextureSet {
        TextureSet { nz: Some(t), pz: Some(t), nx: Some(t), px: Some(t), ny: Some(t), py: Some(t) }
    }

    /// The all-absent set.
    pub open spec fn spec_none() -> TextureSet {
        TextureSet { nz: None, pz: None, nx: None, px: None, ny: None, py: None }
    }

    pub fn none_set() -> (r: TextureSet)
        ensures
            r == TextureSet::spec_none(),
    {
        TextureSet { nz: None, pz: None, nx: None, px: None, ny: None, py: None }
    }

    /// Every face mapped to the same texture.
    pub fn uniform(t: UvTexture) -> (r: TextureSet)
        ensures
            r == TextureSet::spec_uniform(t),
    {
        TextureSet { nz: Some(t), pz: Some(t), nx: Some(t), px: Some(t), ny: Some(t), py: Some(t) }
    }
}

/// One of the six axis-aligned faces of a block.
#[derive(Debug, PartialEq, Eq, Structural, Clone, Copy)]
pub enum BlockSide {
    Py,
    Ny,
    Px,
    Nx,
    Pz,
    Nz,
}

impl BlockSide {
    /// The side that face index `pos` (bit order of `RenderCubeByte`) names;
    /// indices outside the six faces fall back to -Z.
    pub open spec fn spec_from_position(pos: int) -> BlockSide {
        if pos == 5 {
            BlockSide::Py
        } else if pos == 4 {
            BlockSide::Ny
        } else if pos == 3 {
            BlockSide::Px
        } else if pos == 2 {
            BlockSide::Nx
        } else if pos == 1 {
            BlockSide::Pz
        } else {
            BlockSide::Nz
        }
    }

    pub fn from_position(pos: usize) -> (r: Self)
        ensures
            r == BlockSide::spec_from_position(pos as int),
    {
        match pos {
            5 => Self::Py,
            4 => Self::Ny,
            3 => Self::Px,
            2 => Self::Nx,
            1 => Self::Pz,
            _ => Self::Nz,
        }
    }
}

/// One mesh vertex: a world-space position in whole block units and an
/// atlas coordinate in centi-units.
#[derive(Debug, Default, PartialEq, Eq, Structural, Clone, Copy)]
pub struct Vertex {
    pub x: i64,
    pub y: i64,
    pub z: i64,
    pub u: i64,
    pub v: i64,
}

/// One textured block face: four vertices, drawn as the two triangles
/// (v0, v1, v2) and (v0, v3, v2) of the fixed index pattern.
#[derive(Debug, PartialEq, Eq, Structural, Clone, Copy)]
pub struct Quad {
    pub v0: Vertex,
    pub v1: Vertex,
    pub v2: Vertex,
    pub v3: Vertex,
}

/// The triangle index pattern shared by every quad.
pub fn plane_indices() -> (r: [u16; 6])
    ensures
        r@ == seq![0u16, 1u16, 2u16, 0u16, 3u16, 2u16],
{
    let r = [0u16, 1u16, 2u16, 0u16, 3u16, 2u16];
    proof {
        assert(r@ =~= seq![0u16, 1u16, 2u16, 0u16, 3u16, 2u16]);
    }
    r
}

/// One vertex of a face quad: the block position offset by a unit corner
/// displacement, carrying UV corner `uv`.
pub open spec fn spec_vertex(pos: WorldPos, dx: int, dy: int, dz: int, uv: UvPoint) -> Vertex {
    Vertex {
        x: (pos.x + dx) as i64,
        y: (pos.y + dy) as i64,
        z: (pos.z + dz) as i64,
        u: uv.u,
        v: uv.v,
    }
}

/// The quad that face `side` of the block at `pos` gets when textured with
/// `t`: corner offsets fixed per side, UV corners ordered per side to keep a
/// consistent winding.
pub open spec fn spec_face_quad(t: UvTexture, pos: WorldPos, side: BlockSide) -> Quad {
    match side {
        BlockSide::Py => Quad {
            v0: spec_vertex(pos, 0, 1, 0, t.spec_low_left()),
            v1: spec_vertex(pos, 1, 1, 0, t.spec_low_right()),
            v2: spec_vertex(pos, 1, 1, 1, t.spec_up_right()),
            v3: spec_vertex(pos, 0, 1, 1, t.spec_low_right()),
        },
        BlockSide::Ny => Quad {
            v0: spec_vertex(pos, 0, 0, 0, t.spec_low_left()),
            v1: spec_vertex(pos, 1, 0, 0, t.spec_low_right()),
            v2: spec_vertex(pos, 1, 0, 1, t.spec_up_right()),
            v3: spec_vertex(pos, 0, 0, 1, t.spec_low_right()),
        },
        BlockSide::Px => Quad {
            v0: spec_vertex(pos, 1, 0, 0, t.spec_low_left()),
            v1: spec_vertex(pos, 1, 0, 1, t.spec_low_right()),
            v2: spec_vertex(pos, 1, 1, 1, t.spec_up_right()),
            v3: spec_vertex(pos, 1, 1, 0, t.spec_up_left()),
        },
        BlockSide::Nx => Quad {
            v0: spec_vertex(pos, 0, 0, 0, t.spec_low_right()),
            v1: spec_vertex(pos, 0, 0, 1, t.spec_low_left()),
            v2: spec_vertex(pos, 0, 1, 1, t.spec_up_left()),
            v3: spec_vertex(pos, 0, 1, 0, t.spec_up_right()),
        },
        BlockSide::Pz => Quad {
            v0: spec_vertex(pos, 0, 0, 1, t.spec_low_right()),
            v1: spec_vertex(pos, 1, 0, 1, t.spec_low_left()),
            v2: spec_vertex(pos, 1, 1, 1, t.spec_up_left()),
            v3: spec_vertex(pos, 0, 1, 1, t.spec_up_right()),
        },
        BlockSide::Nz => Quad {
            v0: spec_vertex(pos, 0, 0, 0, t.spec_low_right()),
            v1: spec_vertex(pos, 1, 0, 0, t.spec_low_left()),
            v2: spec_vertex(pos, 1, 1, 0, t.spec_up_left()),
            v3: spec_vertex(pos, 0, 1, 0, t.spec_up_right()),
        },
    }
}

impl UvTexture {
    /// The four vertices of `side`'s face quad for the block at `pos`.
    pub fn get_vertices(&self, pos: WorldPos, side: BlockSide) -> (r: Quad)
        requires
            self.wf(),
            pos.bounded(POS_LIMIT as int + CHUNK_POS_MARGIN as int),
        ensures
            r == spec_face_quad(*self, pos, side),
    {
        let (x, y, z) = (pos.x, pos.y, pos.z);
        match side {
            BlockSide::Py => Quad {
                v0: vertex(x, y + 1, z, self.low_left()),
                v1: vertex(x + 1, y + 1, z, self.low_right()),
                v2: vertex(x + 1, y + 1, z + 1, self.up_right()),
                v3: vertex(x, y + 1, z + 1, self.low_right()),
            },
            BlockSide::Ny => Quad {
                v0: vertex(x, y, z, self.low_left()),
                v1: vertex(x + 1, y, z, self.low_right()),
                v2: vertex(x + 1, y, z + 1, self.up_right()),
                v3: vertex(x, y, z + 1, self.low_right()),
            },
            BlockSide::Px => Quad {
                v0: vertex(x + 1, y, z, self.low_left()),
                v1: vertex(x + 1, y, z + 1, self.low_right()),
                v2: vertex(x + 1, y + 1, z + 1, self.up_right()),
                v3: vertex(x + 1, y + 1, z, self.up_left()),
            },
            BlockSide::Nx => Quad {
                v0: vertex(x, y, z, self.low_right()),
                v1: vertex(x, y, z + 1, self.low_left()),
                v2: vertex(x, y + 1, z + 1, self.up_left()),
                v3: vertex(x, y + 1, z, self.up_right()),
            },
            BlockSide::Pz => Quad {
                v0: vertex(x, y, z + 1, self.low_right()),
                v1: vertex(x + 1, y, z + 1, self.low_left()),
                v2: vertex(x + 1, y + 1, z + 1, self.up_left()),
                v3: vertex(x, y + 1, z + 1, self.up_right()),
            },
            BlockSide::Nz => Quad {
                v0: vertex(x, y, z, self.low_right()),
                v1: vertex(x + 1, y, z, self.low_left()),
                v2: vertex(x + 1, y + 1, z, self.up_left()),
                v3: vertex(x, y + 1, z, self.up_right()),
            },
        }
    }
}

/// Headroom added to `POS_LIMIT` for positions that already carry a
/// block-in-chunk offset.
pub const CHUNK_POS_MARGIN: i64 = 32;

fn vertex(x: i64, y: i64, z: i64, uv: UvPoint) -> (r: Vertex)
    requires
        -POS_LIMIT as int - CHUNK_POS_MARGIN as int - 1 <= x <= POS_LIMIT as int
            + CHUNK_POS_MARGIN as int + 1,
        -POS_LIMIT as int - CHUNK_POS_MARGIN as int - 1 <= y <= POS_LIMIT as int
            + CHUNK_POS_MARGIN as int + 1,
        -POS_LIMIT as int - CHUNK_POS_MARGIN as int - 1 <= z <= POS_LIMIT as int
            + CHUNK_POS_MARGIN as int + 1,
    ensures
        r == (Vertex { x, y, z, u: uv.u, v: uv.v }),
{
    Vertex { x, y, z, u: uv.u, v: uv.v }
}

/// The derived per-cell state of the chunk model: the neighbor-occlusion
/// mask as built, the final render mask (neighbor occlusion AND camera
/// visibility), and the block's texture set.
#[derive(Debug, PartialEq, Eq, Clone, Copy)]
pub struct BlockModel {
    pub neighbor_byte: RenderCubeByte,
    pub render_byte: RenderCubeByte,
    pub textures: TextureSet,
}

impl BlockModel {
    /// The cell value of a block with nothing to draw.
    pub open spec fn spec_empty() -> BlockModel {
        BlockModel {
            neighbor_byte: render_cube_byte::from_value(0),
            render_byte: render_cube_byte::from_value(0),
            textures: TextureSet::spec_none(),
        }
    }

    pub fn empty_cell() -> (r: BlockModel)
        ensures
            r == BlockModel::spec_empty(),
    {
        let r = BlockModel {
            neighbor_byte: RenderCubeByte::nothing(),
            render_byte: RenderCubeByte::nothing(),
            textures: TextureSet::none_set(),
        };
        proof {
            render_cube_byte::lemma_from_value(0);
            render_cube_byte::lemma_rcb_eq(r.neighbor_byte, render_cube_byte::from_value(0));
            render_cube_byte::lemma_rcb_eq(r.render_byte, render_cube_byte::from_value(0));
        }
        r
    }

    /// Every present texture entry is well-formed.
    pub open spec fn wf(self) -> bool {
        self.textures.wf()
    }

    pub fn is_empty_cell(&self) -> (r: bool)
        ensures
            r == (*self == BlockModel::spec_empty()),
    {
        let r = self.neighbor_byte.is_nothing() && self.render_byte.is_nothing()
            && self.textures.nz.is_none() && self.textures.pz.is_none()
            && self.textures.nx.is_none() && self.textures.px.is_none()
            && self.textures.ny.is_none() && self.textures.py.is_none();
        proof {
            render_cube_byte::lemma_from_value(0);
            if r {
                render_cube_byte::lemma_rcb_eq(
                    self.neighbor_byte,
                    render_cube_byte::from_value(0),
                );
                render_cube_byte::lemma_rcb_eq(self.render_byte, render_cube_byte::from_value(0));
            }
        }
        r
    }
}

impl Default for BlockModel {
    fn default() -> (r: Self)
        ensures
            r == BlockModel::spec_empty(),
    {
        BlockModel::empty_cell()
    }
}

/// One horizontal 16 by 16 slice of a chunk model, stored row-major: the
/// cell at `(x, z)` sits at index `x * 16 + z`.
#[derive(Debug, PartialEq, Eq, Clone)]
pub struct ModelLayer(pub Vec<BlockModel>);

impl ModelLayer {
    pub open spec fn wf(self) -> bool {
        self.0@.len() == 256 && forall|j: int| 0 <= j < 256 ==> (#[trigger] self.0@[j]).wf()
    }

    /// The cell at `(x, z)`.
    pub open spec fn spec_at(self, x: int, z: int) -> BlockModel {
        self.0@[x * 16 + z]
    }

    pub fn new_empty() -> (r: ModelLayer)
        ensures
            r.wf(),
            forall|x: int, z: int|
                0 <= x < 16 && 0 <= z < 16 ==> r.spec_at(x, z) == BlockModel::spec_empty(),
    {
        let mut cells: Vec<BlockModel> = Vec::new();
        let mut i: usize = 0;
        while i < 256
            invariant
                i <= 256,
                cells@.len() == i,
                forall|j: int| 0 <= j < i ==> cells@[j] == BlockModel::spec_empty(),
            decreases 256 - i,
        {
            cells.push(BlockModel::empty_cell());
            i += 1;
        }
        let r = ModelLayer(cells);
        proof {
            assert forall|x: int, z: int| 0 <= x < 16 && 0 <= z < 16 implies r.spec_at(x, z)
                == BlockModel::spec_empty() by {
                assert(0 <= x * 16 + z < 256) by (nonlinear_arith)
                    requires
                        0 <= x < 16 && 0 <= z < 16,
                ;
            }
        }
        r
    }

    pub fn get(&self, x: usize, z: usize) -> (r: &BlockModel)
        requires
            self.wf(),
            x < 16,
            z < 16,
        ensures
            *r == self.spec_at(x as int, z as int),
            r.wf(),
    {
        proof {
            assert(0 <= x * 16 + z < 256) by (nonlinear_arith)
                requires
                    0 <= x < 16 && 0 <= z < 16,
            ;
        }
        &self.0[x * 16 + z]
    }

    pub fn set_cell(&mut self, x: usize, z: usize, cell: BlockModel)
        requires
            old(self).wf(),
            cell.wf(),
            x < 16,
            z < 16,
        ensures
            final(self).wf(),
            final(self).spec_at(x as int, z as int) == cell,
            forall|x2: int, z2: int|
                0 <= x2 < 16 && 0 <= z2 < 16 && !(x2 == x as int && z2 == z as int) ==> final(self).spec_at(x2, z2) == old(self).spec_at(x2, z2),
    {
        proof {
            assert(0 <= x * 16 + z < 256) by (nonlinear_arith)
                requires
                    0 <= x < 16 && 0 <= z < 16,
            ;
        }
        self.0.set(x * 16 + z, cell);
        proof {
            assert forall|x2: int, z2: int|
                0 <= x2 < 16 && 0 <= z2 < 16 && !(x2 == x as int && z2 == z as int) implies final(self).spec_at(x2, z2) == old(self).spec_at(x2, z2) by {
                assert(0 <= x2 * 16 + z2 < 256 && (x2 * 16 + z2 == x as int * 16 + z as int ==> x2
                    == x as int && z2 == z as int)) by (nonlinear_arith)
                    requires
                        0 <= x2 < 16 && 0 <= z2 < 16 && 0 <= x < 16 && 0 <= z < 16,
                ;
            }
        }
    }

    pub fn is_empty(&self) -> (r: bool)
        requires
            self.wf(),
        ensures
            r == (forall|x: int, z: int|
                0 <= x < 16 && 0 <= z < 16 ==> self.spec_at(x, z) == BlockModel::spec_empty()),
    {
        let mut i: usize = 0;
        let mut all_empty = true;
        while i < 256
            invariant
                self.wf(),
                i <= 256,
                all_empty == (forall|j: int| 0 <= j < i ==> self.0@[j] == BlockModel::spec_empty()),
            decreases 256 - i,
        {
            if !self.0[i].is_empty_cell() {
                all_empty = false;
            }
            i += 1;
        }
        proof {
            if all_empty {
                assert forall|x: int, z: int| 0 <= x < 16 && 0 <= z < 16 implies self.spec_at(x, z)
                    == BlockModel::spec_empty() by {
                    assert(0 <= x * 16 + z < 256) by (nonlinear_arith)
                        requires
                            0 <= x < 16 && 0 <= z < 16,
                    ;
                }
            } else {
                let j = choose|j: int| 0 <= j < 256 && self.0@[j] != BlockModel::spec_empty();
                assert(self.spec_at(j / 16, j % 16) == self.0@[j]) by (nonlinear_arith)
                    requires
                        0 <= j < 256,
                        self.spec_at(j / 16, j % 16) == self.0@[(j / 16) * 16 + j % 16],
                ;
                assert(0 <= j / 16 < 16 && 0 <= j % 16 < 16) by (nonlinear_arith)
                    requires
                        0 <= j < 256,
                ;
            }
        }
        all_empty
    }
}

/// The derived model of one chunk: per cell the reduced render mask and the
/// block's texture set. A chunk with nothing to draw may be represented by
/// the unallocated sentinel, which holds the same cells as an allocated grid
/// of all-empty cells.
#[derive(Debug, Default, PartialEq, Eq, Clone)]
pub struct ChunkModel(Option<Vec<ModelLayer>>);

impl ChunkModel {
    pub closed spec fn wf(self) -> bool {
        match self.0 {
            Option::None => true,
            Option::Some(layers) => layers@.len() == 16 && forall|y: int|
                0 <= y < 16 ==> (#[trigger] layers@[y]).wf(),
        }
    }

    /// The cell at `(x, y, z)`; the unallocated sentinel holds empty cells
    /// everywhere.
    pub closed spec fn spec_cell(self, x: int, y: int, z: int) -> BlockModel {
        match self.0 {
            Option::None => BlockModel::spec_empty(),
            Option::Some(layers) => layers@[y].spec_at(x, z),
        }
    }

    /// No cell has anything to draw.
    pub open spec fn spec_is_empty(self) -> bool {
        forall|x: int, y: int, z: int|
            0 <= x < 16 && 0 <= y < 16 && 0 <= z < 16 ==> self.spec_cell(x, y, z)
                == BlockModel::spec_empty()
    }

    /// The unallocated empty model.
    pub fn new_empty() -> (r: ChunkModel)
        ensures
            r.wf(),
            r.spec_is_empty(),
    {
        ChunkModel(None)
    }

    pub fn get_cell(&self, x: usize, y: usize, z: usize) -> (r: BlockModel)
        requires
            self.wf(),
            x < 16,
            y < 16,
            z < 16,
        ensures
            r == self.spec_cell(x as int, y as int, z as int),
            r.wf(),
    {
        match &self.0 {
            Option::None => BlockModel::empty_cell(),
            Option::Some(layers) => *layers[y].get(x, z),
        }
    }

    /// Stores `model` at `(x, y, z)`, allocating the grid when this model is
    /// still the unallocated sentinel.
    pub fn set(&mut self, x: usize, y: usize, z: usize, model: BlockModel)
        requires
            old(self).wf(),
            model.wf(),
            x < 16,
            y < 16,
            z < 16,
        ensures
            final(self).wf(),
            final(self).spec_cell(x as int, y as int, z as int) == model,
            forall|x2: int, y2: int, z2: int|
                0 <= x2 < 16 && 0 <= y2 < 16 && 0 <= z2 < 16 && !(x2 == x as int && y2 == y as int
                    && z2 == z as int) ==> final(self).spec_cell(x2, y2, z2) == old(self).spec_cell(x2, y2, z2),
    {
        if self.0.is_none() {
            let mut layers: Vec<ModelLayer> = Vec::new();
            let mut i: usize = 0;
            while i < 16
                invariant
                    i <= 16,
                    layers@.len() == i,
                    forall|j: int| 0 <= j < i ==> (#[trigger] layers@[j]).wf(),
                    forall|j: int, x2: int, z2: int|
                        0 <= j < i && 0 <= x2 < 16 && 0 <= z2 < 16 ==> #[trigger] layers@[j].spec_at(x2, z2) == BlockModel::spec_empty(),
                decreases 16 - i,
            {
                layers.push(ModelLayer::new_empty());
                i += 1;
            }
            self.0 = Some(layers);
        }
        match &mut self.0 {
            Option::None => {
            },
            Option::Some(layers) => {
                let layer = &mut layers[y];
                layer.set_cell(x, z, model);
            },
        }
    }

    pub fn is_empty(&self) -> (r: bool)
        requires
            self.wf(),
        ensures
            r == self.spec_is_empty(),
    {
        match &self.0 {
            Option::None => true,
            Option::Some(layers) => {
                let mut y: usize = 0;
                let mut all_empty = true;
                while y < 16
                    invariant
                        self.wf(),
                        self.0 is Some,
                        layers == self.0->0,
                        y <= 16,
                        all_empty == (forall|y2: int, x2: int, z2: int|
                            0 <= y2 < y && 0 <= x2 < 16 && 0 <= z2 < 16 ==> self.spec_cell(
                                x2,
                                y2,
                                z2,
                            ) == BlockModel::spec_empty()),
                    decreases 16 - y,
                {
                    if !layers[y].is_empty() {
                        all_empty = false;
                        proof {
                            let (x2, z2) = choose|x2: int, z2: int|
                                0 <= x2 < 16 && 0 <= z2 < 16 && layers@[y as int].spec_at(x2, z2)
                                    != BlockModel::spec_empty();
                            assert(self.spec_cell(x2, y as int, z2) != BlockModel::spec_empty());
                        }
                    }
                    y += 1;
                }
                all_empty
            },
        }
    }
}

} // verus!
