use vstd::prelude::*;

use crate::world::render::render_cube_byte::{spec_set_bit, RenderCubeByte};
use crate::world::render::{ChunkModel, TextureSet, UvTexture, WorldPos, DIR_LIMIT, POS_LIMIT};

pub mod render;

verus! {

/// Edge length of a cubic chunk, in blocks.
pub const CHUNK_SIZE_16: usize = 16;

/// Squared distance bound of the chunk-level visibility filter, in block
/// units: one chunk edge, squared.
pub const DIST_SQ_LIMIT: i64 = 256;

/// Numerator of the squared cosine of the 65-degree viewing-cone threshold.
pub const ANGLE_COS2_NUM: i64 = 17861;

/// Denominator of the squared cosine of the 65-degree viewing-cone
/// threshold.
pub const ANGLE_COS2_DEN: i64 = 100000;

/// The closed set of block kinds. `Air` is the one empty kind; every other
/// kind is an opaque solid.
#[derive(Debug, Default, PartialEq, Eq, Structural, Clone, Copy)]
pub enum BlockType {
    #[default]
    Air,
    Dirt,
    Grass,
    Stone,
    Sand,
    Tile,
}

/// The per-face texture assignment of each block kind, in face order
/// -Z, +Z, -X, +X, -Y, +Y.
pub open spec fn spec_texture_set(bt: BlockType) -> TextureSet {
    match bt {
        BlockType::Air => TextureSet::spec_none(),
        BlockType::Dirt => TextureSet::spec_uniform(UvTexture(0)),
        BlockType::Grass => TextureSet {
            nz: Some(UvTexture(1)),
            pz: Some(UvTexture(1)),
            nx: Some(UvTexture(1)),
            px: Some(UvTexture(1)),
            ny: Some(UvTexture(0)),
            py: Some(UvTexture(2)),
        },
        BlockType::Stone => TextureSet::spec_uniform(UvTexture(3)),
        BlockType::Sand => TextureSet::spec_uniform(UvTexture(4)),
        BlockType::Tile => TextureSet {
            nz: None,
            pz: None,
            nx: None,
            px: None,
            ny: None,
            py: Some(UvTexture(4)),
        },
    }
}

/// Every texture row a block kind names is small enough to be well-formed.
pub proof fn lemma_texture_set_wf(bt: BlockType)
    ensures
        spec_texture_set(bt).wf(),
{
    let ts = spec_texture_set(bt);
    assert forall|i: int| 0 <= i < 6 && ts.spec_face(i) is Some implies ts.spec_face(i)->0.wf() by {
        if i == 0 {
        } else if i == 1 {
        } else if i == 2 {
        } else if i == 3 {
        } else if i == 4 {
        } else {
        }
    }
}

impl BlockType {
    /// Whether this kind is the empty one.
    pub open spec fn spec_is_empty(&self) -> bool {
        *self == BlockType::Air
    }

    #[verifier::when_used_as_spec(spec_is_empty)]
    pub fn is_empty(&self) -> (r: bool)
        ensures
            r == self.spec_is_empty(),
    {
        matches!(self, BlockType::Air)
    }

    /// The texture of each face of this kind; all-absent for the empty kind.
    pub fn get_textures(&self) -> (r: TextureSet)
        ensures
            r == spec_texture_set(*self),
            r.wf(),
    {
        proof {
            lemma_texture_set_wf(*self);
        }
        match self {
            BlockType::Air => TextureSet::none_set(),
            BlockType::Dirt => TextureSet::uniform(UvTexture(0)),
            BlockType::Grass => TextureSet {
                nz: Some(UvTexture(1)),
                pz: Some(UvTexture(1)),
                nx: Some(UvTexture(1)),
                px: Some(UvTexture(1)),
                ny: Some(UvTexture(0)),
                py: Some(UvTexture(2)),
            },
            BlockType::Stone => TextureSet::uniform(UvTexture(3)),
            BlockType::Sand => TextureSet::uniform(UvTexture(4)),
            BlockType::Tile => TextureSet {
                nz: None,
                pz: None,
                nx: None,
                px: None,
                ny: None,
                py: Some(UvTexture(4)),
            },
        }
    }
}

/// One grid cell: a block holding its kind.
#[derive(Debug, Default, PartialEq, Eq, Structural, Clone, Copy)]
pub struct BlockState {
    pub block_type: BlockType,
}

impl BlockState {
    pub fn new(block_type: BlockType) -> (r: Self)
        ensures
            r.block_type == block_type,
    {
        Self { block_type }
    }

    /// Whether the block's kind is the empty one.
    pub open spec fn spec_is_empty(&self) -> bool {
        self.block_type.spec_is_empty()
    }

    #[verifier::when_used_as_spec(spec_is_empty)]
    pub fn is_empty(&self) -> (r: bool)
        ensures
            r == self.spec_is_empty(),
    {
        self.block_type.is_empty()
    }

    pub fn air() -> (r: Self)
        ensures
            r == (BlockState { block_type: BlockType::Air }),
    {
        Self::new(BlockType::Air)
    }

    pub fn empty() -> (r: Self)
        ensures
            r == (BlockState { block_type: BlockType::Air }),
    {
        Self::new(BlockType::Air)
    }

    pub fn stone() -> (r: Self)
        ensures
            r == (BlockState { block_type: BlockType::Stone }),
    {
        Self::new(BlockType::Stone)
    }

    pub fn dirt() -> (r: Self)
        ensures
            r == (BlockState { block_type: BlockType::Dirt }),
    {
        Self::new(BlockType::Dirt)
    }

    pub fn grass() -> (r: Self)
        ensures
            r == (BlockState { block_type: BlockType::Grass }),
    {
        Self::new(BlockType::Grass)
    }

    pub fn sand() -> (r: Self)
        ensures
            r == (BlockState { block_type: BlockType::Sand }),
    {
        Self::new(BlockType::Sand)
    }

    pub fn tile() -> (r: Self)
        ensures
            r == (BlockState { block_type: BlockType::Tile }),
    {
        Self::new(BlockType::Tile)
    }
}

/// The climate flavor of a chunk. It does not influence meshing; it is kept
/// with the chunk as plain data.
#[derive(Debug, Default, PartialEq, Eq, Structural, Clone, Copy)]
pub enum Biome {
    #[default]
    Plains,
    Desert,
    Forest,
    Jungle,
}

/// The cell at `(x, z)` of a 16 by 16 layer sits at flat index `x * 16 + z`.
pub proof fn lemma_layer_index(x: int, z: int)
    by (nonlinear_arith)
    requires
        0 <= x < 16,
        0 <= z < 16,
    ensures
        0 <= x * 16 + z < 256,
{
}

/// Distinct layer cells have distinct flat indices.
pub proof fn lemma_layer_index_inj(x1: int, z1: int, x2: int, z2: int)
    by (nonlinear_arith)
    requires
        0 <= x1 < 16,
        0 <= z1 < 16,
        0 <= x2 < 16,
        0 <= z2 < 16,
        x1 * 16 + z1 == x2 * 16 + z2,
    ensures
        x1 == x2,
        z1 == z2,
{
}

/// One horizontal 16 by 16 slice of a chunk, stored row-major: the block at
/// `(x, z)` sits at index `x * 16 + z`.
#[derive(Debug, Default, PartialEq, Eq, Clone)]
pub struct ChunkLayer(pub Vec<BlockState>);

impl ChunkLayer {
    pub open spec fn wf(self) -> bool {
        self.0@.len() == 256
    }

    /// The block at `(x, z)`.
    pub open spec fn spec_at(self, x: int, z: int) -> BlockState {
        self.0@[x * 16 + z]
    }

    pub fn new(inner: Vec<BlockState>) -> (r: Self)
        requires
            inner@.len() == 256,
        ensures
            r.wf(),
            r.0 == inner,
    {
        Self(inner)
    }

    /// A layer of nothing but empty blocks.
    pub fn empty() -> (r: Self)
        ensures
            r.wf(),
            forall|x: int, z: int|
                0 <= x < 16 && 0 <= z < 16 ==> #[trigger] r.spec_at(x, z) == (BlockState {
                    block_type: BlockType::Air,
                }),
    {
        let mut cells: Vec<BlockState> = Vec::new();
        let mut i: usize = 0;
        while i < 256
            invariant
                i <= 256,
                cells@.len() == i,
                forall|j: int|
                    0 <= j < i ==> cells@[j] == (BlockState { block_type: BlockType::Air }),
            decreases 256 - i,
        {
            cells.push(BlockState::air());
            i += 1;
        }
        let r = Self(cells);
        proof {
            assert forall|x: int, z: int| 0 <= x < 16 && 0 <= z < 16 implies #[trigger] r.spec_at(
                x,
                z,
            ) == (BlockState { block_type: BlockType::Air }) by {
                lemma_layer_index(x, z);
            }
        }
        r
    }

    /// A layer built cell by cell from `func`, called as `func(x, z)`.
    pub fn from_fn<F: Fn(usize, usize) -> BlockState>(func: F) -> (r: Self)
        requires
            forall|x: usize, z: usize| x < 16 && z < 16 ==> func.requires((x, z)),
        ensures
            r.wf(),
            forall|x: usize, z: usize|
                x < 16 && z < 16 ==> call_ensures(func, (x, z), #[trigger] r.spec_at(x as int, z as int)),
    {
        let mut cells: Vec<BlockState> = Vec::new();
        let mut x: usize = 0;
        while x < 16
            invariant
                x <= 16,
                cells@.len() == x * 16,
                forall|x2: usize, z2: usize| x2 < 16 && z2 < 16 ==> func.requires((x2, z2)),
                forall|x2: usize, z2: usize|
                    x2 < x && z2 < 16 ==> call_ensures(
                        func,
                        (x2, z2),
                        #[trigger] cells@[x2 as int * 16 + z2 as int],
                    ),
            decreases 16 - x,
        {
            let mut z: usize = 0;
            while z < 16
                invariant
                    x < 16,
                    z <= 16,
                    cells@.len() == x * 16 + z,
                    forall|x2: usize, z2: usize| x2 < 16 && z2 < 16 ==> func.requires((x2, z2)),
                    forall|x2: usize, z2: usize|
                        x2 < x && z2 < 16 ==> call_ensures(
                            func,
                            (x2, z2),
                            #[trigger] cells@[x2 as int * 16 + z2 as int],
                        ),
                    forall|z2: usize|
                        z2 < z ==> call_ensures(
                            func,
                            (x, z2),
                            #[trigger] cells@[x as int * 16 + z2 as int],
                        ),
                decreases 16 - z,
            {
                proof {
                    lemma_layer_index(x as int, z as int);
                }
                cells.push(func(x, z));
                z += 1;
            }
            x += 1;
        }
        let r = Self(cells);
        proof {
            assert forall|x2: usize, z2: usize| x2 < 16 && z2 < 16 implies call_ensures(
                func,
                (x2, z2),
                #[trigger] r.spec_at(x2 as int, z2 as int),
            ) by {
                lemma_layer_index(x2 as int, z2 as int);
            }
        }
        r
    }

    /// Overwrites every cell with `state`.
    pub fn fill(&mut self, state: BlockState)
        requires
            old(self).wf(),
        ensures
            final(self).wf(),
            forall|x: int, z: int|
                0 <= x < 16 && 0 <= z < 16 ==> #[trigger] final(self).spec_at(x, z) == state,
    {
        let mut i: usize = 0;
        while i < 256
            invariant
                self.wf(),
                i <= 256,
                forall|j: int| 0 <= j < i ==> self.0@[j] == state,
            decreases 256 - i,
        {
            self.0.set(i, state);
            i += 1;
        }
        proof {
            assert forall|x: int, z: int| 0 <= x < 16 && 0 <= z < 16 implies #[trigger] final(self).spec_at(x, z) == state by {
                lemma_layer_index(x, z);
            }
        }
    }

    pub fn get(&self, x: usize, z: usize) -> (r: &BlockState)
        requires
            self.wf(),
            x < 16,
            z < 16,
        ensures
            *r == self.spec_at(x as int, z as int),
    {
        proof {
            lemma_layer_index(x as int, z as int);
        }
        &self.0[x * 16 + z]
    }

    /// Overwrites the cell at `(x, z)` with `state`.
    pub fn set(&mut self, x: usize, z: usize, state: BlockState)
        requires
            old(self).wf(),
            x < 16,
            z < 16,
        ensures
            final(self).wf(),
            final(self).spec_at(x as int, z as int) == state,
            forall|x2: int, z2: int|
                0 <= x2 < 16 && 0 <= z2 < 16 && !(x2 == x as int && z2 == z as int)
                    ==> #[trigger] final(self).spec_at(x2, z2) == old(self).spec_at(x2, z2),
    {
        proof {
            lemma_layer_index(x as int, z as int);
        }
        self.0.set(x * 16 + z, state);
        proof {
            assert forall|x2: int, z2: int|
                0 <= x2 < 16 && 0 <= z2 < 16 && !(x2 == x as int && z2 == z as int)
                    implies #[trigger] final(self).spec_at(x2, z2) == old(self).spec_at(x2, z2) by {
                lemma_layer_index(x2, z2);
                if x2 * 16 + z2 == x as int * 16 + z as int {
                    lemma_layer_index_inj(x2, z2, x as int, z as int);
                }
            }
        }
    }

    /// Whether every cell of the layer is an empty block.
    pub open spec fn spec_is_empty(self) -> bool {
        forall|x: int, z: int|
            0 <= x < 16 && 0 <= z < 16 ==> (#[trigger] self.spec_at(x, z)).spec_is_empty()
    }

    pub fn is_empty(&self) -> (r: bool)
        requires
            self.wf(),
        ensures
            r == self.spec_is_empty(),
    {
        let mut i: usize = 0;
        let mut all_empty = true;
        while i < 256
            invariant
                self.wf(),
                i <= 256,
                all_empty == (forall|j: int| 0 <= j < i ==> (#[trigger] self.0@[j]).spec_is_empty()),
            decreases 256 - i,
        {
            if !self.0[i].is_empty() {
                all_empty = false;
            }
            i += 1;
        }
        proof {
            if all_empty {
                assert forall|x: int, z: int| 0 <= x < 16 && 0 <= z < 16 implies (
                #[trigger] self.spec_at(x, z)).spec_is_empty() by {
                    lemma_layer_index(x, z);
                }
            } else {
                let j = choose|j: int| 0 <= j < 256 && !(#[trigger] self.0@[j]).spec_is_empty();
                assert(0 <= j / 16 < 16 && 0 <= j % 16 < 16 && (j / 16) * 16 + j % 16 == j)
                    by (nonlinear_arith)
                    requires
                        0 <= j < 256,
                ;
                assert(!self.spec_at(j / 16, j % 16).spec_is_empty());
            }
        }
        all_empty
    }
}

/// The sum encoding of six face flags into the low six bits of a byte:
/// flag `i` contributes two-to-the-`i`.
pub open spec fn pack_faces(b0: bool, b1: bool, b2: bool, b3: bool, b4: bool, b5: bool) -> u8 {
    ((if b0 {
        1int
    } else {
        0int
    }) + (if b1 {
        2int
    } else {
        0int
    }) + (if b2 {
        4int
    } else {
        0int
    }) + (if b3 {
        8int
    } else {
        0int
    }) + (if b4 {
        16int
    } else {
        0int
    }) + (if b5 {
        32int
    } else {
        0int
    })) as u8
}

/// Setting the six face bits one by one on any starting mask leaves exactly
/// the packed encoding of the six flags.
pub proof fn lemma_pack_chain(b0: bool, b1: bool, b2: bool, b3: bool, b4: bool, b5: bool)
    by (bit_vector)
    ensures
        spec_set_bit(
            spec_set_bit(
                spec_set_bit(
                    spec_set_bit(spec_set_bit(spec_set_bit(0x3fu8, 0, b0), 1, b1), 2, b2),
                    3,
                    b3,
                ),
                4,
                b4,
            ),
            5,
            b5,
        ) == pack_faces(b0, b1, b2, b3, b4, b5),
{
}

/// Setting one bit out of each axis pair on the empty mask gives the sum of
/// the three chosen powers of two.
pub proof fn lemma_visible_sides_chain(yp: usize, xp: usize, zp: usize)
    by (bit_vector)
    requires
        yp == 5 || yp == 4,
        xp == 3 || xp == 2,
        zp == 1 || zp == 0,
    ensures
        spec_set_bit(spec_set_bit(spec_set_bit(0u8, yp, true), xp, true), zp, true) == (((if yp == 5 {
            32int
        } else {
            16int
        }) + (if xp == 3 {
            8int
        } else {
            4int
        }) + (if zp == 1 {
            2int
        } else {
            1int
        })) as u8),
{
}

/// The camera-visibility mask of a block: per axis, the face nearer the
/// camera position is a candidate and the opposite face is not, leaving the
/// three faces of the camera's octant.
pub open spec fn spec_visible_sides(block_pos: WorldPos, player_pos: WorldPos) -> u8 {
    (((if player_pos.y > block_pos.y {
        32int
    } else {
        16int
    }) + (if player_pos.x > block_pos.x {
        8int
    } else {
        4int
    }) + (if player_pos.z > block_pos.z {
        2int
    } else {
        1int
    })) as u8)
}

/// The coarse chunk-level visibility test: the chunk center must lie within
/// one chunk edge of the camera, and within the viewing cone whose
/// half-angle has squared cosine `ANGLE_COS2_NUM / ANGLE_COS2_DEN`. A camera
/// standing exactly on the center sees the chunk.
pub open spec fn spec_chunk_visible(
    chunk_pos: WorldPos,
    player_pos: WorldPos,
    player_front: WorldPos,
) -> bool {
    let vx = chunk_pos.x + 8 - player_pos.x;
    let vy = chunk_pos.y + 8 - player_pos.y;
    let vz = chunk_pos.z + 8 - player_pos.z;
    let vv = vx * vx + vy * vy + vz * vz;
    let d = player_front.x * vx + player_front.y * vy + player_front.z * vz;
    let ff = player_front.x * player_front.x + player_front.y * player_front.y + player_front.z
        * player_front.z;
    vv <= DIST_SQ_LIMIT as int && (vv == 0 || (d > 0 && d * d * (ANGLE_COS2_DEN as int) > ff * vv
        * (ANGLE_COS2_NUM as int)))
}

/// A fixed 16 by 16 by 16 cube of blocks with a world position, the cached
/// derived model, and the result of the last chunk-level visibility test.
#[derive(Debug, Default, PartialEq, Clone)]
pub struct Chunk {
    pub biome: Biome,
    pub blocks: Vec<ChunkLayer>,
    pub pos: WorldPos,
    pub model: ChunkModel,
    pub is_visible: bool,
}

impl Chunk {
    pub open spec fn wf(self) -> bool {
        &&& self.blocks@.len() == 16
        &&& forall|y: int| 0 <= y < 16 ==> (#[trigger] self.blocks@[y]).wf()
        &&& self.pos.wf()
        &&& self.model.wf()
    }

    /// The block at local coordinates `(x, y, z)`.
    pub open spec fn spec_block_at(self, x: int, y: int, z: int) -> BlockState {
        self.blocks@[y].spec_at(x, z)
    }

    /// Whether `(x, y, z)` is inside the chunk and holds a solid block;
    /// out-of-range coordinates count as empty.
    pub open spec fn spec_has_solid(self, x: int, y: int, z: int) -> bool {
        0 <= x < 16 && 0 <= y < 16 && 0 <= z < 16 && !self.spec_block_at(x, y, z).spec_is_empty()
    }

    /// Whether the neighbor across face `face` of `(x, y, z)` occludes that
    /// face, under the policy that anything beyond the chunk is empty.
    pub open spec fn spec_neighbor_solid(self, x: int, y: int, z: int, face: int) -> bool {
        if face == 0 {
            self.spec_has_solid(x, y, z - 1)
        } else if face == 1 {
            self.spec_has_solid(x, y, z + 1)
        } else if face == 2 {
            self.spec_has_solid(x - 1, y, z)
        } else if face == 3 {
            self.spec_has_solid(x + 1, y, z)
        } else if face == 4 {
            self.spec_has_solid(x, y - 1, z)
        } else {
            self.spec_has_solid(x, y + 1, z)
        }
    }

    /// The neighbor-occlusion mask of `(x, y, z)`: bit `i` set exactly when
    /// the neighbor across face `i` occludes it.
    pub open spec fn spec_neighbour_mask(self, x: int, y: int, z: int) -> u8 {
        pack_faces(
            self.spec_neighbor_solid(x, y, z, 0),
            self.spec_neighbor_solid(x, y, z, 1),
            self.spec_neighbor_solid(x, y, z, 2),
            self.spec_neighbor_solid(x, y, z, 3),
            self.spec_neighbor_solid(x, y, z, 4),
            self.spec_neighbor_solid(x, y, z, 5),
        )
    }

    /// The kind of the block across face `face` of `(x, y, z)`, with
    /// anything beyond the chunk reading as the empty kind.
    pub open spec fn spec_neighbor_type(self, x: int, y: int, z: int, face: int) -> BlockType {
        if self.spec_neighbor_solid(x, y, z, face) {
            if face == 0 {
                self.spec_block_at(x, y, z - 1).block_type
            } else if face == 1 {
                self.spec_block_at(x, y, z + 1).block_type
            } else if face == 2 {
                self.spec_block_at(x - 1, y, z).block_type
            } else if face == 3 {
                self.spec_block_at(x + 1, y, z).block_type
            } else if face == 4 {
                self.spec_block_at(x, y - 1, z).block_type
            } else {
                self.spec_block_at(x, y + 1, z).block_type
            }
        } else {
            BlockType::Air
        }
    }

    /// Whether every neighbor of `(x, y, z)` is empty or out of range, so
    /// that no neighbor can occlude any face.
    pub open spec fn spec_isolated(self, x: int, y: int, z: int) -> bool {
        forall|face: int| 0 <= face < 6 ==> !self.spec_neighbor_solid(x, y, z, face)
    }

    /// A chunk of nothing but empty blocks at the origin.
    pub fn empty() -> (r: Chunk)
        ensures
            r.wf(),
            forall|x: int, y: int, z: int|
                0 <= x < 16 && 0 <= y < 16 && 0 <= z < 16 ==> (#[trigger] r.spec_block_at(
                    x,
                    y,
                    z,
                )).spec_is_empty(),
            r.biome == Biome::Plains,
            r.pos == (WorldPos { x: 0, y: 0, z: 0 }),
            r.model.spec_is_empty(),
            r.is_visible,
    {
        let mut layers: Vec<ChunkLayer> = Vec::new();
        let mut y: usize = 0;
        while y < 16
            invariant
                y <= 16,
                layers@.len() == y,
                forall|j: int| 0 <= j < y ==> (#[trigger] layers@[j]).wf(),
                forall|j: int, x2: int, z2: int|
                    0 <= j < y && 0 <= x2 < 16 && 0 <= z2 < 16 ==> #[trigger] layers@[j].spec_at(
                        x2,
                        z2,
                    ) == (BlockState { block_type: BlockType::Air }),
            decreases 16 - y,
        {
            layers.push(ChunkLayer::empty());
            y += 1;
        }
        Chunk {
            biome: Biome::Plains,
            blocks: layers,
            pos: WorldPos::new(0, 0, 0),
            model: ChunkModel::new_empty(),
            is_visible: true,
        }
    }

    /// A chunk built block by block from `func`, called as `func(x, y, z)`.
    pub fn from_fn<F: Fn(usize, usize, usize) -> BlockState>(func: F) -> (r: Chunk)
        requires
            forall|x: usize, y: usize, z: usize|
                x < 16 && y < 16 && z < 16 ==> func.requires((x, y, z)),
        ensures
            r.wf(),
            forall|x: usize, y: usize, z: usize|
                x < 16 && y < 16 && z < 16 ==> call_ensures(
                    func,
                    (x, y, z),
                    #[trigger] r.spec_block_at(x as int, y as int, z as int),
                ),
            r.biome == Biome::Plains,
            r.pos == (WorldPos { x: 0, y: 0, z: 0 }),
            r.model.spec_is_empty(),
            r.is_visible,
    {
        let mut layers: Vec<ChunkLayer> = Vec::new();
        let mut y: usize = 0;
        while y < 16
            invariant
                y <= 16,
                layers@.len() == y,
                forall|x2: usize, y2: usize, z2: usize|
                    x2 < 16 && y2 < 16 && z2 < 16 ==> func.requires((x2, y2, z2)),
                forall|j: int| 0 <= j < y ==> (#[trigger] layers@[j]).wf(),
                forall|j: int, x2: usize, z2: usize|
                    0 <= j < y && x2 < 16 && z2 < 16 ==> call_ensures(
                        func,
                        (x2, j as usize, z2),
                        #[trigger] layers@[j].spec_at(x2 as int, z2 as int),
                    ),
            decreases 16 - y,
        {
            let mut cells: Vec<BlockState> = Vec::new();
            let mut x: usize = 0;
            while x < 16
                invariant
                    y < 16,
                    x <= 16,
                    cells@.len() == x * 16,
                    forall|x2: usize, y2: usize, z2: usize|
                        x2 < 16 && y2 < 16 && z2 < 16 ==> func.requires((x2, y2, z2)),
                    forall|x2: usize, z2: usize|
                        x2 < x && z2 < 16 ==> call_ensures(
                            func,
                            (x2, y, z2),
                            #[trigger] cells@[x2 as int * 16 + z2 as int],
                        ),
                decreases 16 - x,
            {
                let mut z: usize = 0;
                while z < 16
                    invariant
                        y < 16,
                        x < 16,
                        z <= 16,
                        cells@.len() == x * 16 + z,
                        forall|x2: usize, y2: usize, z2: usize|
                            x2 < 16 && y2 < 16 && z2 < 16 ==> func.requires((x2, y2, z2)),
                        forall|x2: usize, z2: usize|
                            x2 < x && z2 < 16 ==> call_ensures(
                                func,
                                (x2, y, z2),
                                #[trigger] cells@[x2 as int * 16 + z2 as int],
                            ),
                        forall|z2: usize|
                            z2 < z ==> call_ensures(
                                func,
                                (x, y, z2),
                                #[trigger] cells@[x as int * 16 + z2 as int],
                            ),
                    decreases 16 - z,
                {
                    proof {
                        lemma_layer_index(x as int, z as int);
                    }
                    cells.push(func(x, y, z));
                    z += 1;
                }
                x += 1;
            }
            let layer = ChunkLayer::new(cells);
            proof {
                assert forall|x2: usize, z2: usize| x2 < 16 && z2 < 16 implies call_ensures(
                    func,
                    (x2, y, z2),
                    #[trigger] layer.spec_at(x2 as int, z2 as int),
                ) by {
                    lemma_layer_index(x2 as int, z2 as int);
                }
            }
            layers.push(layer);
            y += 1;
        }
        let r = Chunk {
            biome: Biome::Plains,
            blocks: layers,
            pos: WorldPos::new(0, 0, 0),
            model: ChunkModel::new_empty(),
            is_visible: true,
        };
        r
    }

    /// Overwrites every block of the chunk with `state`.
    pub fn fill(&mut self, state: BlockState)
        requires
            old(self).wf(),
        ensures
            final(self).wf(),
            forall|x: int, y: int, z: int|
                0 <= x < 16 && 0 <= y < 16 && 0 <= z < 16 ==> #[trigger] final(self).spec_block_at(
                    x,
                    y,
                    z,
                ) == state,
            final(self).biome == old(self).biome,
            final(self).pos == old(self).pos,
            final(self).model == old(self).model,
            final(self).is_visible == old(self).is_visible,
    {
        let mut y: usize = 0;
        while y < 16
            invariant
                self.wf(),
                y <= 16,
                self.biome == old(self).biome,
                self.pos == old(self).pos,
                self.model == old(self).model,
                self.is_visible == old(self).is_visible,
                forall|j: int, x2: int, z2: int|
                    0 <= j < y && 0 <= x2 < 16 && 0 <= z2 < 16 ==> #[trigger] self.blocks@[j].spec_at(
                        x2,
                        z2,
                    ) == state,
            decreases 16 - y,
        {
            let layer = &mut self.blocks[y];
            layer.fill(state);
            y += 1;
        }
    }

    pub fn get(&self, x: usize, y: usize, z: usize) -> (r: &BlockState)
        requires
            self.wf(),
            x < 16,
            y < 16,
            z < 16,
        ensures
            *r == self.spec_block_at(x as int, y as int, z as int),
    {
        self.blocks[y].get(x, z)
    }

    /// Overwrites the block at `(x, y, z)` with `state`.
    pub fn set(&mut self, x: usize, y: usize, z: usize, state: BlockState)
        requires
            old(self).wf(),
            x < 16,
            y < 16,
            z < 16,
        ensures
            final(self).wf(),
            final(self).spec_block_at(x as int, y as int, z as int) == state,
            forall|x2: int, y2: int, z2: int|
                0 <= x2 < 16 && 0 <= y2 < 16 && 0 <= z2 < 16 && !(x2 == x as int && y2 == y as int
                    && z2 == z as int) ==> #[trigger] final(self).spec_block_at(x2, y2, z2) == old(
                    self,
                ).spec_block_at(x2, y2, z2),
            final(self).biome == old(self).biome,
            final(self).pos == old(self).pos,
            final(self).model == old(self).model,
            final(self).is_visible == old(self).is_visible,
    {
        let layer = &mut self.blocks[y];
        layer.set(x, z, state);
    }

    pub fn get_pos(&self) -> (r: WorldPos)
        ensures
            r == self.pos,
    {
        self.pos
    }

    pub fn set_pos(&mut self, x: i64, y: i64, z: i64)
        requires
            old(self).wf(),
            -POS_LIMIT <= x <= POS_LIMIT,
            -POS_LIMIT <= y <= POS_LIMIT,
            -POS_LIMIT <= z <= POS_LIMIT,
        ensures
            final(self).wf(),
            final(self).pos == (WorldPos { x, y, z }),
            final(self).biome == old(self).biome,
            final(self).blocks == old(self).blocks,
            final(self).model == old(self).model,
            final(self).is_visible == old(self).is_visible,
    {
        self.pos.x = x;
        self.pos.y = y;
        self.pos.z = z;
    }

    /// Whether `(x, y, z)` holds a block that can occlude a face:
    /// out-of-range coordinates never do.
    pub fn has_visible_block_at(&self, x: isize, y: isize, z: isize) -> (r: bool)
        requires
            self.wf(),
        ensures
            r == self.spec_has_solid(x as int, y as int, z as int),
    {
        if 0 <= x && x < 16 && 0 <= y && y < 16 && 0 <= z && z < 16 {
            !self.get(x as usize, y as usize, z as usize).is_empty()
        } else {
            false
        }
    }

    /// Whether every neighbor of `(x, y, z)` is empty or out of range.
    pub fn is_isolated(&self, x: isize, y: isize, z: isize) -> (r: bool)
        requires
            self.wf(),
            isize::MIN < x < isize::MAX,
            isize::MIN < y < isize::MAX,
            isize::MIN < z < isize::MAX,
        ensures
            r == self.spec_isolated(x as int, y as int, z as int),
    {
        let b0 = self.has_visible_block_at(x, y, z - 1);
        let b1 = self.has_visible_block_at(x, y, z + 1);
        let b2 = self.has_visible_block_at(x - 1, y, z);
        let b3 = self.has_visible_block_at(x + 1, y, z);
        let b4 = self.has_visible_block_at(x, y - 1, z);
        let b5 = self.has_visible_block_at(x, y + 1, z);
        let r = !(b0 || b1 || b2 || b3 || b4 || b5);
        proof {
            if r {
                assert forall|face: int| 0 <= face < 6 implies !self.spec_neighbor_solid(
                    x as int,
                    y as int,
                    z as int,
                    face,
                ) by {
                    if face == 0 {
                    } else if face == 1 {
                    } else if face == 2 {
                    } else if face == 3 {
                    } else if face == 4 {
                    } else {
                    }
                }
            } else {
                if b0 {
                    assert(self.spec_neighbor_solid(x as int, y as int, z as int, 0));
                } else if b1 {
                    assert(self.spec_neighbor_solid(x as int, y as int, z as int, 1));
                } else if b2 {
                    assert(self.spec_neighbor_solid(x as int, y as int, z as int, 2));
                } else if b3 {
                    assert(self.spec_neighbor_solid(x as int, y as int, z as int, 3));
                } else if b4 {
                    assert(self.spec_neighbor_solid(x as int, y as int, z as int, 4));
                } else {
                    assert(self.spec_neighbor_solid(x as int, y as int, z as int, 5));
                }
            }
        }
        r
    }

    /// The kind of the block adjacent to face `face` of `(x, y, z)`,
    /// treating anything beyond the chunk as empty. An empty neighbor, in
    /// range or not, reads as the empty kind.
    pub fn neighbor_type(&self, x: isize, y: isize, z: isize, face: usize) -> (r: BlockType)
        requires
            self.wf(),
            face < 6,
            isize::MIN < x < isize::MAX,
            isize::MIN < y < isize::MAX,
            isize::MIN < z < isize::MAX,
        ensures
            r == self.spec_neighbor_type(x as int, y as int, z as int, face as int),
    {
        let (nx, ny, nz) = match face {
            0 => (x, y, z - 1),
            1 => (x, y, z + 1),
            2 => (x - 1, y, z),
            3 => (x + 1, y, z),
            4 => (x, y - 1, z),
            _ => (x, y + 1, z),
        };
        if self.has_visible_block_at(nx, ny, nz) {
            self.get(nx as usize, ny as usize, nz as usize).block_type
        } else {
            BlockType::Air
        }
    }

    /// The neighbor-occlusion mask of `(x, y, z)`: bit `i` set exactly when
    /// the neighbor across face `i` occludes that face.
    pub fn get_neighbours(&self, x: isize, y: isize, z: isize) -> (r: RenderCubeByte)
        requires
            self.wf(),
            isize::MIN < x < isize::MAX,
            isize::MIN < y < isize::MAX,
            isize::MIN < z < isize::MAX,
        ensures
            r@ == self.spec_neighbour_mask(x as int, y as int, z as int),
    {
        let b0 = self.has_visible_block_at(x, y, z - 1);
        let b1 = self.has_visible_block_at(x, y, z + 1);
        let b2 = self.has_visible_block_at(x - 1, y, z);
        let b3 = self.has_visible_block_at(x + 1, y, z);
        let b4 = self.has_visible_block_at(x, y - 1, z);
        let b5 = self.has_visible_block_at(x, y + 1, z);
        let mut ans = RenderCubeByte::all();
        ans.set_bit(0, b0);
        ans.set_bit(1, b1);
        ans.set_bit(2, b2);
        ans.set_bit(3, b3);
        ans.set_bit(4, b4);
        ans.set_bit(5, b5);
        proof {
            lemma_pack_chain(b0, b1, b2, b3, b4, b5);
        }
        ans
    }

    /// The camera-visibility mask of the block at world position
    /// `block_pos`, seen from `player_pos`: per axis, the face nearer the
    /// camera.
    pub fn get_block_visible_sides(block_pos: WorldPos, player_pos: WorldPos) -> (r: RenderCubeByte)
        ensures
            r@ == spec_visible_sides(block_pos, player_pos),
    {
        let player_py = player_pos.y > block_pos.y;
        let player_px = player_pos.x > block_pos.x;
        let player_pz = player_pos.z > block_pos.z;
        let mut byte = RenderCubeByte::nothing();
        let y_pos: usize = if player_py {
            5
        } else {
            4
        };
        let x_pos: usize = if player_px {
            3
        } else {
            2
        };
        let z_pos: usize = if player_pz {
            1
        } else {
            0
        };
        byte.set_bit(y_pos, true);
        byte.set_bit(x_pos, true);
        byte.set_bit(z_pos, true);
        proof {
            lemma_visible_sides_chain(y_pos, x_pos, z_pos);
        }
        byte
    }

    /// Runs the coarse chunk-level visibility test against the camera and
    /// records the verdict in `is_visible`.
    pub fn check_visibility(&mut self, player_pos: WorldPos, player_front: WorldPos)
        requires
            old(self).wf(),
            player_pos.wf(),
            player_front.bounded(DIR_LIMIT as int),
        ensures
            final(self).wf(),
            final(self).is_visible == spec_chunk_visible(old(self).pos, player_pos, player_front),
            final(self).biome == old(self).biome,
            final(self).blocks == old(self).blocks,
            final(self).pos == old(self).pos,
            final(self).model == old(self).model,
    {
        let vx = self.pos.x + 8 - player_pos.x;
        let vy = self.pos.y + 8 - player_pos.y;
        let vz = self.pos.z + 8 - player_pos.z;
        let vxw = vx as i128;
        let vyw = vy as i128;
        let vzw = vz as i128;
        let fxw = player_front.x as i128;
        let fyw = player_front.y as i128;
        let fzw = player_front.z as i128;
        proof {
            assert(0 <= vxw * vxw <= 0x20000000000000000 && 0 <= vyw * vyw <= 0x20000000000000000
                && 0 <= vzw * vzw <= 0x20000000000000000) by (nonlinear_arith)
                requires
                    -0x100000000 <= vxw <= 0x100000000,
                    -0x100000000 <= vyw <= 0x100000000,
                    -0x100000000 <= vzw <= 0x100000000,
            ;
            assert(-0x10000000000000 <= fxw * vxw <= 0x10000000000000 && -0x10000000000000 <= fyw
                * vyw <= 0x10000000000000 && -0x10000000000000 <= fzw * vzw <= 0x10000000000000)
                by (nonlinear_arith)
                requires
                    -0x100000 <= fxw <= 0x100000,
                    -0x100000 <= fyw <= 0x100000,
                    -0x100000 <= fzw <= 0x100000,
                    -0x100000000 <= vxw <= 0x100000000,
                    -0x100000000 <= vyw <= 0x100000000,
                    -0x100000000 <= vzw <= 0x100000000,
            ;
            assert(0 <= fxw * fxw <= 0x10000000000 && 0 <= fyw * fyw <= 0x10000000000 && 0 <= fzw
                * fzw <= 0x10000000000) by (nonlinear_arith)
                requires
                    -0x100000 <= fxw <= 0x100000,
                    -0x100000 <= fyw <= 0x100000,
                    -0x100000 <= fzw <= 0x100000,
            ;
        }
        let vv = vxw * vxw + vyw * vyw + vzw * vzw;
        let d = fxw * vxw + fyw * vyw + fzw * vzw;
        let ff = fxw * fxw + fyw * fyw + fzw * fzw;
        let mut visible = false;
        if vv <= 256 {
            if vv == 0 {
                visible = true;
            } else if d > 0 {
                proof {
                    assert(0 <= d * d <= 0x4000000000000000000000000000) by (nonlinear_arith)
                        requires
                            -0x30000000000000 <= d <= 0x30000000000000,
                    ;
                    assert(0 <= ff * vv <= 0x4000000000000000000000000000) by (nonlinear_arith)
                        requires
                            0 <= ff <= 0x30000000000,
                            0 <= vv <= 0x60000000000000000,
                    ;
                }
                let dd = d * d;
                let fv = ff * vv;
                proof {
                    assert(0 <= dd * 100000 <= 0x7fffffffffffffffffffffffffffffff)
                        by (nonlinear_arith)
                        requires
                            0 <= dd <= 0x4000000000000000000000000000,
                    ;
                    assert(0 <= fv * 17861 <= 0x7fffffffffffffffffffffffffffffff)
                        by (nonlinear_arith)
                        requires
                            0 <= fv <= 0x4000000000000000000000000000,
                    ;
                }
                let lhs = dd * (ANGLE_COS2_DEN as i128);
                let rhs = fv * (ANGLE_COS2_NUM as i128);
                visible = lhs > rhs;
            }
        }
        self.is_visible = visible;
    }
}

/// The six blocks adjacent to one block, one per face.
#[derive(Debug, PartialEq, Eq, Structural, Clone, Copy)]
pub struct ConnectedBlocks {
    pub top: BlockState,
    pub bottom: BlockState,
    pub px: BlockState,
    pub nx: BlockState,
    pub pz: BlockState,
    pub nz: BlockState,
}

impl ConnectedBlocks {
    pub fn new(
        top: BlockState,
        bottom: BlockState,
        px: BlockState,
        nx: BlockState,
        pz: BlockState,
        nz: BlockState,
    ) -> (r: Self)
        ensures
            r == (ConnectedBlocks { top, bottom, px, nx, pz, nz }),
    {
        Self { top, bottom, px, nx, pz, nz }
    }
}

/// The boundary layers of the six chunks adjacent to one chunk, used by the
/// cross-chunk neighbor policy.
#[derive(Debug, Default, PartialEq, Clone)]
pub struct ConnectedChunks {
    pub top: ChunkLayer,
    pub bottom: ChunkLayer,
    pub px: ChunkLayer,
    pub nx: ChunkLayer,
    pub pz: ChunkLayer,
    pub nz: ChunkLayer,
}

impl ConnectedChunks {
    pub open spec fn wf(self) -> bool {
        &&& self.top.wf()
        &&& self.bottom.wf()
        &&& self.px.wf()
        &&& self.nx.wf()
        &&& self.pz.wf()
        &&& self.nz.wf()
    }

    pub fn new(
        top: ChunkLayer,
        bottom: ChunkLayer,
        px: ChunkLayer,
        nx: ChunkLayer,
        pz: ChunkLayer,
        nz: ChunkLayer,
    ) -> (r: Self)
        ensures
            r == (ConnectedChunks { top, bottom, px, nx, pz, nz }),
    {
        Self { top, bottom, px, nx, pz, nz }
    }

    /// Boundary data of six all-empty neighbor chunks.
    pub fn empty() -> (r: Self)
        ensures
            r.wf(),
            forall|x: int, z: int|
                0 <= x < 16 && 0 <= z < 16 ==> (#[trigger] r.top.spec_at(x, z)).spec_is_empty()
                    && (#[trigger] r.bottom.spec_at(x, z)).spec_is_empty() && (
                #[trigger] r.px.spec_at(x, z)).spec_is_empty() && (#[trigger] r.nx.spec_at(
                    x,
                    z,
                )).spec_is_empty() && (#[trigger] r.pz.spec_at(x, z)).spec_is_empty() && (
                #[trigger] r.nz.spec_at(x, z)).spec_is_empty(),
    {
        Self {
            top: ChunkLayer::empty(),
            bottom: ChunkLayer::empty(),
            px: ChunkLayer::empty(),
            nx: ChunkLayer::empty(),
            pz: ChunkLayer::empty(),
            nz: ChunkLayer::empty(),
        }
    }

    /// The six blocks around `(x, y, z)` under the cross-chunk policy: a
    /// neighbor inside the chunk is read there, one beyond an edge is read
    /// from the matching boundary layer.
    pub open spec fn spec_connected_blocks(self, chunk: Chunk, x: int, y: int, z: int)
        -> ConnectedBlocks {
        ConnectedBlocks {
            top: if y == 15 {
                self.top.spec_at(x, z)
            } else {
                chunk.spec_block_at(x, y + 1, z)
            },
            bottom: if y == 0 {
                self.bottom.spec_at(x, z)
            } else {
                chunk.spec_block_at(x, y - 1, z)
            },
            px: if x == 15 {
                self.px.spec_at(x, z)
            } else {
                chunk.spec_block_at(x + 1, y, z)
            },
            nx: if x == 0 {
                self.nx.spec_at(x, z)
            } else {
                chunk.spec_block_at(x - 1, y, z)
            },
            pz: if z == 15 {
                self.pz.spec_at(x, z)
            } else {
                chunk.spec_block_at(x, y, z + 1)
            },
            nz: if z == 0 {
                self.nz.spec_at(x, z)
            } else {
                chunk.spec_block_at(x, y, z - 1)
            },
        }
    }

    /// The neighbor-occlusion mask of `(x, y, z)` under the cross-chunk
    /// policy: bit `i` set exactly when the resolved neighbor across face
    /// `i` is solid.
    pub open spec fn spec_neighbour_mask_connected(self, chunk: Chunk, x: int, y: int, z: int) -> u8 {
        let cb = self.spec_connected_blocks(chunk, x, y, z);
        pack_faces(
            !cb.nz.spec_is_empty(),
            !cb.pz.spec_is_empty(),
            !cb.nx.spec_is_empty(),
            !cb.px.spec_is_empty(),
            !cb.bottom.spec_is_empty(),
            !cb.top.spec_is_empty(),
        )
    }

    /// The neighbor-occlusion mask of `(x, y, z)`, with neighbors beyond a
    /// chunk edge read from the boundary layers.
    pub fn get_neighbours_connected(&self, chunk: &Chunk, x: usize, y: usize, z: usize) -> (r:
        RenderCubeByte)
        requires
            self.wf(),
            chunk.wf(),
            x < 16,
            y < 16,
            z < 16,
        ensures
            r@ == self.spec_neighbour_mask_connected(*chunk, x as int, y as int, z as int),
    {
        let cb = self.connected_blocks(chunk, x, y, z);
        let b0 = !cb.nz.is_empty();
        let b1 = !cb.pz.is_empty();
        let b2 = !cb.nx.is_empty();
        let b3 = !cb.px.is_empty();
        let b4 = !cb.bottom.is_empty();
        let b5 = !cb.top.is_empty();
        let mut ans = RenderCubeByte::all();
        ans.set_bit(0, b0);
        ans.set_bit(1, b1);
        ans.set_bit(2, b2);
        ans.set_bit(3, b3);
        ans.set_bit(4, b4);
        ans.set_bit(5, b5);
        proof {
            lemma_pack_chain(b0, b1, b2, b3, b4, b5);
        }
        ans
    }

    /// Resolves the six neighbors of `(x, y, z)` under the cross-chunk
    /// policy.
    pub fn connected_blocks(&self, chunk: &Chunk, x: usize, y: usize, z: usize)
        -> (r: ConnectedBlocks)
        requires
            self.wf(),
            chunk.wf(),
            x < 16,
            y < 16,
            z < 16,
        ensures
            r == self.spec_connected_blocks(*chunk, x as int, y as int, z as int),
    {
        let top = if y == 15 {
            *self.top.get(x, z)
        } else {
            *chunk.get(x, y + 1, z)
        };
        let bottom = if y == 0 {
            *self.bottom.get(x, z)
        } else {
            *chunk.get(x, y - 1, z)
        };
        let px = if x == 15 {
            *self.px.get(x, z)
        } else {
            *chunk.get(x + 1, y, z)
        };
        let nx = if x == 0 {
            *self.nx.get(x, z)
        } else {
            *chunk.get(x - 1, y, z)
        };
        let pz = if z == 15 {
            *self.pz.get(x, z)
        } else {
            *chunk.get(x, y, z + 1)
        };
        let nz = if z == 0 {
            *self.nz.get(x, z)
        } else {
            *chunk.get(x, y, z - 1)
        };
        ConnectedBlocks { top, bottom, px, nx, pz, nz }
    }
}


} // verus!
