//! Levels: layers of tiles, which edges of a tile block the way, and how
//! levels border on each other.
use vstd::prelude::*;
use crate::actor::{actors_wf, Actor, ActorError};
use crate::audio::Music;
use crate::direction::Direction;
use crate::draw::{emit, views, DrawCommand, DrawCommandView};
use crate::enemy::EncounterGroup;
use crate::resources::Resources;
use crate::strings::str_eq;

verus! {

/// Width and height of a tile in pixels.
pub const TILE_SIZE: i32 = 16;

/// The tile of the base layer that is ice: column and row in the tileset.
pub const ICE_TILE: (u8, u8) = (0, 4);

/// A set of tile pictures, and for each tile the edges that block the way.
pub struct Tileset {
    pub tile_grid_size: u16,
    /// Number of tiles in a row of the tileset.
    pub c_wid: usize,
    /// Four bits a tile, two tiles a byte, the even tile in the low bits;
    /// the bits stand for north, east, south and west, north lowest.
    /// `None` for a tileset that blocks nothing.
    pub edges_blocked: Option<Vec<u8>>,
}

pub struct Layer {
    pub identifier: String,
    pub c_wid: u16,
    pub c_hei: u16,
    pub tileset: Tileset,
    pub tile_data: Vec<u8>,
}

pub struct NeighbourLevel {
    pub dir: Direction,
    pub level_iid: String,
}

pub struct Level {
    pub identifier: String,
    pub px_world_x: i32,
    pub px_world_y: i32,
    pub px_wid: i32,
    pub px_hei: i32,
    pub layers: Vec<Layer>,
    pub neighbours: Vec<NeighbourLevel>,
    pub encounters: Option<EncounterGroup>,
    pub music: Option<Music>,
}

/// Bit `bit` of `byte` is set.
pub open spec fn bit_set(byte: u8, bit: int) -> bool {
    (byte as int / pow2(bit)) % 2 == 1
}

/// Two to the power of `n`, for the bits of a byte.
pub open spec fn pow2(n: int) -> int {
    if n <= 0 {
        1
    } else if n == 1 {
        2
    } else if n == 2 {
        4
    } else if n == 3 {
        8
    } else if n == 4 {
        16
    } else if n == 5 {
        32
    } else if n == 6 {
        64
    } else {
        128
    }
}

fn test_bit(byte: u8, bit: usize) -> (b: bool)
    requires
        bit < 8,
    ensures
        b == bit_set(byte, bit as int),
{
    let mask: u8 = if bit == 0 {
        1
    } else if bit == 1 {
        2
    } else if bit == 2 {
        4
    } else if bit == 3 {
        8
    } else if bit == 4 {
        16
    } else if bit == 5 {
        32
    } else if bit == 6 {
        64
    } else {
        128
    };
    (byte / mask) % 2 == 1
}

impl Tileset {
    /// The tile at column `tileset_x` and row `tileset_y` of the tileset
    /// blocks the way across its edge in direction `dir`. Tiles beyond the
    /// table of edges block nothing.
    pub open spec fn edge_blocked(&self, tileset_x: u8, tileset_y: u8, dir: Direction) -> bool {
        match self.edges_blocked {
            Some(edges) => {
                let tile_id = tileset_y as int * self.c_wid as int + tileset_x as int;
                &&& tile_id / 2 < edges@.len()
                &&& bit_set(edges@[tile_id / 2], dir.spec_index() + 4 * (tile_id % 2))
            },
            None => false,
        }
    }

    pub fn is_edge_blocked(&self, tileset_x: u8, tileset_y: u8, dir: Direction) -> (b: bool)
        ensures
            b == self.edge_blocked(tileset_x, tileset_y, dir),
    {
        match &self.edges_blocked {
            Some(edges_blocked) => {
                let dir_value = dir.index();
                let row = tileset_y as u64;
                let width = self.c_wid as u64;
                assert(row * width <= 255 * 0xffff_ffff_ffff_ffff) by (nonlinear_arith)
                    requires
                        0 <= row <= 255,
                        0 <= width <= 0xffff_ffff_ffff_ffff,
                ;
                let tile_id: u128 = row as u128 * width as u128 + tileset_x as u128;
                let dest_bit: usize = dir_value + 4 * ((tile_id % 2) as usize);
                let dest_byte: u128 = tile_id / 2;
                if dest_byte < edges_blocked.len() as u128 {
                    test_bit(edges_blocked[dest_byte as usize], dest_bit)
                } else {
                    false
                }
            },
            None => false,
        }
    }
}

impl NeighbourLevel {
    pub closed spec fn dir(&self) -> Direction {
        self.dir
    }

    pub closed spec fn level_iid(&self) -> Seq<char> {
        self.level_iid@
    }

    /// The direction with the given letter in level data.
    pub open spec fn dir_named(s: Seq<char>) -> Option<Direction> {
        if s == "n"@ {
            Some(Direction::North)
        } else if s == "e"@ {
            Some(Direction::East)
        } else if s == "s"@ {
            Some(Direction::South)
        } else if s == "w"@ {
            Some(Direction::West)
        } else {
            None
        }
    }

    /// A neighbour in the direction that level data names by its letter;
    /// `None` for neighbours in other relations.
    pub fn new(dir: &str, level_iid: &str) -> (r: Option<NeighbourLevel>)
        ensures
            r is Some == (NeighbourLevel::dir_named(dir@) is Some),
            r matches Some(n) ==> Some(n.dir()) == NeighbourLevel::dir_named(dir@) && n.level_iid()
                == level_iid@,
    {
        let dir = if str_eq(dir, "n") {
            Direction::North
        } else if str_eq(dir, "e") {
            Direction::East
        } else if str_eq(dir, "s") {
            Direction::South
        } else if str_eq(dir, "w") {
            Direction::West
        } else {
            return None;
        };
        Some(NeighbourLevel { dir, level_iid: level_iid.to_owned() })
    }

    pub fn direction(&self) -> (d: Direction)
        ensures
            d == self.dir(),
    {
        self.dir
    }

    pub fn iid(&self) -> (s: &str)
        ensures
            s@ == self.level_iid(),
    {
        self.level_iid.as_str()
    }
}

/// What the lever does to a tile of the props layer: turned, it opens
/// closed doors and raises lowered spikes; turned back, it closes open
/// doors and lowers raised spikes. Other tiles stay as they are.
pub open spec fn lever_tile(tile: (u8, u8), lever_turned: bool) -> (u8, u8) {
    if lever_turned {
        if tile == (1u8, 0u8) {
            (1u8, 1u8)
        } else if tile == (3u8, 2u8) {
            (3u8, 3u8)
        } else {
            tile
        }
    } else {
        if tile == (1u8, 1u8) {
            (1u8, 0u8)
        } else if tile == (3u8, 3u8) {
            (3u8, 2u8)
        } else {
            tile
        }
    }
}

/// Cell `cell` of `after` is what the lever makes of that cell of `before`.
pub open spec fn cell_synced(after: Seq<u8>, before: Seq<u8>, cell: int, lever_turned: bool) -> bool {
    &&& (after[4 * cell], after[4 * cell + 1]) == lever_tile(
        (before[4 * cell], before[4 * cell + 1]),
        lever_turned,
    )
    &&& after[4 * cell + 2] == before[4 * cell + 2]
    &&& after[4 * cell + 3] == before[4 * cell + 3]
}

/// The tile of the gates that bar the way to a castle.
pub const GATE_TILE: (u8, u8) = (2, 0);

impl Layer {
    pub closed spec fn c_wid(&self) -> int {
        self.c_wid as int
    }

    pub closed spec fn c_hei(&self) -> int {
        self.c_hei as int
    }

    pub closed spec fn tileset(&self) -> Tileset {
        self.tileset
    }

    /// Four bytes a cell, row by row; the first two are the column and the
    /// row of the cell's tile in the tileset.
    pub closed spec fn tile_data(&self) -> Seq<u8> {
        self.tile_data@
    }

    pub closed spec fn wf(&self) -> bool {
        self.tile_data@.len() == 4 * (self.c_wid as int * self.c_hei as int)
    }

    pub open spec fn in_bounds(&self, tile_x: int, tile_y: int) -> bool {
        0 <= tile_x < self.c_wid() && 0 <= tile_y < self.c_hei()
    }

    /// Column and row in the tileset of the tile in a cell of the layer.
    pub open spec fn tile(&self, tile_x: int, tile_y: int) -> (u8, u8)
        recommends
            self.in_bounds(tile_x, tile_y),
    {
        let offset = 4 * (tile_y * self.c_wid() + tile_x);
        (self.tile_data()[offset], self.tile_data()[offset + 1])
    }

    /// A layer of `c_wid` by `c_hei` cells; `None` where the tile data does
    /// not have four bytes for each cell.
    pub fn new(identifier: &str, c_wid: u16, c_hei: u16, tileset: Tileset, tile_data: Vec<u8>) -> (r:
        Option<Layer>)
        ensures
            r is Some == (tile_data@.len() == 4 * (c_wid as int * c_hei as int)),
            r matches Some(l) ==> l.wf() && l.identifier@ == identifier@ && l.c_wid() == c_wid
                && l.c_hei() == c_hei && l.tileset() == tileset && l.tile_data() == tile_data@,
    {
        assert(c_wid as int * c_hei as int <= 0xffff * 0xffff) by (nonlinear_arith)
            requires
                0 <= c_wid <= 0xffff,
                0 <= c_hei <= 0xffff,
        ;
        let cells: u64 = c_wid as u64 * c_hei as u64;
        if tile_data.len() as u64 != 4 * cells {
            return None;
        }
        Some(Layer { identifier: identifier.to_owned(), c_wid, c_hei, tileset, tile_data })
    }

    fn cell(&self, tile_x: i32, tile_y: i32) -> (r: Option<usize>)
        requires
            self.wf(),
        ensures
            r is Some == self.in_bounds(tile_x as int, tile_y as int),
            r matches Some(offset) ==> (offset == 4 * (tile_y * self.c_wid() + tile_x) && offset
                + 3 < self.tile_data().len()),
    {
        if tile_x >= 0 && tile_x < self.c_wid as i32 && tile_y >= 0 && tile_y < self.c_hei as i32 {
            assert(tile_y as int * self.c_wid as int + tile_x < self.c_wid as int
                * self.c_hei as int) by (nonlinear_arith)
                requires
                    0 <= tile_x < self.c_wid,
                    0 <= tile_y < self.c_hei,
            ;
            assert(0 <= tile_y as int * self.c_wid as int) by (nonlinear_arith)
                requires
                    0 <= tile_y,
                    0 <= self.c_wid,
            ;
            assert(self.c_wid as int * self.c_hei as int <= 0xffff * 0xffff) by (nonlinear_arith)
                requires
                    0 <= self.c_wid <= 0xffff,
                    0 <= self.c_hei <= 0xffff,
            ;
            let row: u64 = tile_y as u64 * self.c_wid as u64;
            assert(row == tile_y as int * self.c_wid as int);
            let offset: u64 = 4 * (row + tile_x as u64);
            let len = self.tile_data.len();
            assert(offset + 3 < len);
            Some(offset as usize)
        } else {
            None
        }
    }

    /// The way from a cell across its edge in direction `dir` is blocked,
    /// by the tile of the cell or by the tile beyond the edge, seen from
    /// its side. Cells outside the layer block nothing.
    pub open spec fn edge_blocked(&self, tile_x: int, tile_y: int, dir: Direction) -> bool {
        let forward = self.in_bounds(tile_x, tile_y) && self.tileset().edge_blocked(
            self.tile(tile_x, tile_y).0,
            self.tile(tile_x, tile_y).1,
            dir,
        );
        let x2 = tile_x + dir.dx();
        let y2 = tile_y + dir.dy();
        let backward = self.in_bounds(x2, y2) && self.tileset().edge_blocked(
            self.tile(x2, y2).0,
            self.tile(x2, y2).1,
            dir.reverse(),
        );
        forward || backward
    }

    pub fn is_edge_blocked(&self, tile_x: i32, tile_y: i32, dir: Direction) -> (b: bool)
        requires
            self.wf(),
        ensures
            b == self.edge_blocked(tile_x as int, tile_y as int, dir),
    {
        let forward_blocked = match self.cell(tile_x, tile_y) {
            Some(offset) => self.tileset.is_edge_blocked(
                self.tile_data[offset],
                self.tile_data[offset + 1],
                dir,
            ),
            None => false,
        };
        let tile_x2: i64 = tile_x as i64 + dir.dx() as i64;
        let tile_y2: i64 = tile_y as i64 + dir.dy() as i64;
        let beyond = if tile_x2 < 0 || tile_x2 > 0xffff || tile_y2 < 0 || tile_y2 > 0xffff {
            None
        } else {
            self.cell(tile_x2 as i32, tile_y2 as i32)
        };
        let backward_blocked = match beyond {
            Some(offset) => self.tileset.is_edge_blocked(
                self.tile_data[offset],
                self.tile_data[offset + 1],
                dir.reverse(),
            ),
            None => false,
        };
        forward_blocked || backward_blocked
    }

    /// The cell lies in the layer and holds the ice tile.
    pub fn is_ice_tile(&self, tile_x: i32, tile_y: i32) -> (b: bool)
        requires
            self.wf(),
        ensures
            b == (self.in_bounds(tile_x as int, tile_y as int) && self.tile(
                tile_x as int,
                tile_y as int,
            ) == ICE_TILE),
    {
        match self.cell(tile_x, tile_y) {
            Some(offset) => self.tile_data[offset] == ICE_TILE.0 && self.tile_data[offset + 1]
                == ICE_TILE.1,
            None => false,
        }
    }

    /// Puts a gate on a cell and on the cell to its right, and reports
    /// whether both lie in the layer; otherwise nothing changes.
    pub fn place_gates(&mut self, tile_x: i32, tile_y: i32) -> (placed: bool)
        requires
            old(self).wf(),
        ensures
            final(self).wf(),
            final(self).c_wid() == old(self).c_wid(),
            final(self).c_hei() == old(self).c_hei(),
            final(self).tileset() == old(self).tileset(),
            final(self).identifier == old(self).identifier,
            placed == (old(self).in_bounds(tile_x as int, tile_y as int) && old(self).in_bounds(
                tile_x + 1,
                tile_y as int,
            )),
            !placed ==> final(self).tile_data() == old(self).tile_data(),
            placed ==> {
                let offset = 4 * (tile_y * old(self).c_wid() + tile_x);
                final(self).tile_data() == old(self).tile_data().update(offset, GATE_TILE.0).update(
                    offset + 1,
                    GATE_TILE.1,
                ).update(offset + 4, GATE_TILE.0).update(offset + 5, GATE_TILE.1)
            },
    {
        if tile_x == i32::MAX {
            return false;
        }
        let first = self.cell(tile_x, tile_y);
        let second = self.cell(tile_x + 1, tile_y);
        match (first, second) {
            (Some(offset), Some(next)) => {
                assert(next == offset + 4);
                self.tile_data[offset] = GATE_TILE.0;
                self.tile_data[offset + 1] = GATE_TILE.1;
                self.tile_data[offset + 4] = GATE_TILE.0;
                self.tile_data[offset + 5] = GATE_TILE.1;
                true
            },
            _ => false,
        }
    }

    /// Brings the doors and spikes of the layer to the state that goes
    /// with the lever.
    pub fn sync_props_with_lever(&mut self, lever_turned: bool)
        requires
            old(self).wf(),
        ensures
            final(self).wf(),
            final(self).c_wid() == old(self).c_wid(),
            final(self).c_hei() == old(self).c_hei(),
            final(self).tileset() == old(self).tileset(),
            final(self).identifier == old(self).identifier,
            final(self).tile_data().len() == old(self).tile_data().len(),
            forall|cell: int|
                0 <= cell < old(self).c_wid() * old(self).c_hei() ==> #[trigger] cell_synced(
                    final(self).tile_data(),
                    old(self).tile_data(),
                    cell,
                    lever_turned,
                ),
    {
        let cells = self.tile_data.len() / 4;
        let mut i: usize = 0;
        while i < cells
            invariant
                i <= cells,
                cells == old(self).c_wid() * old(self).c_hei(),
                self.tile_data@.len() == 4 * cells,
                old(self).tile_data@.len() == 4 * cells,
                4 * cells <= usize::MAX,
                self.c_wid == old(self).c_wid,
                self.c_hei == old(self).c_hei,
                self.tileset == old(self).tileset,
                self.identifier == old(self).identifier,
                forall|cell: int|
                    0 <= cell < i ==> #[trigger] cell_synced(
                        self.tile_data@,
                        old(self).tile_data@,
                        cell,
                        lever_turned,
                    ),
                forall|k: int| 4 * i <= k < 4 * cells ==> self.tile_data@[k] == old(self).tile_data@[k],
            decreases cells - i,
        {
            let ghost start = self.tile_data@;
            let a = self.tile_data[4 * i];
            let b = self.tile_data[4 * i + 1];
            if lever_turned {
                if a == 1 && b == 0 {
                    self.tile_data[4 * i + 1] = 1;
                } else if a == 3 && b == 2 {
                    self.tile_data[4 * i + 1] = 3;
                }
            } else {
                if a == 1 && b == 1 {
                    self.tile_data[4 * i + 1] = 0;
                } else if a == 3 && b == 3 {
                    self.tile_data[4 * i + 1] = 2;
                }
            }
            proof {
                assert forall|cell: int| 0 <= cell < i + 1 implies #[trigger] cell_synced(
                    self.tile_data@,
                    old(self).tile_data@,
                    cell,
                    lever_turned,
                ) by {
                    if cell < i {
                        assert(cell_synced(start, old(self).tile_data@, cell, lever_turned));
                    }
                }
            }
            i = i + 1;
        }
    }
}

/// Position of the first layer called `name`, or the number of layers
/// where none is.
pub open spec fn find_layer(layers: Seq<Layer>, name: Seq<char>) -> int
    decreases layers.len(),
{
    if layers.len() == 0 {
        0
    } else if layers[0].identifier@ == name {
        0
    } else {
        1 + find_layer(layers.drop_first(), name)
    }
}

pub proof fn lemma_find_layer(layers: Seq<Layer>, name: Seq<char>)
    ensures
        0 <= find_layer(layers, name) <= layers.len(),
        find_layer(layers, name) < layers.len() ==> layers[find_layer(layers, name)].identifier@
            == name,
        forall|j: int| 0 <= j < find_layer(layers, name) ==> (#[trigger] layers[j]).identifier@
            != name,
    decreases layers.len(),
{
    if layers.len() > 0 && layers[0].identifier@ != name {
        lemma_find_layer(layers.drop_first(), name);
        assert forall|j: int| 0 <= j < find_layer(layers, name) implies (
        #[trigger] layers[j]).identifier@ != name by {
            if j > 0 {
                assert(layers[j] == layers.drop_first()[j - 1]);
            }
        }
    }
}

impl Level {
    pub closed spec fn layers(&self) -> Seq<Layer> {
        self.layers@
    }

    /// All layers are sound, and the level has the base layer and the
    /// props layer that the game looks at.
    pub open spec fn wf(&self) -> bool {
        &&& self.px_wid >= 0
        &&& self.px_hei >= 0
        &&& forall|i: int| 0 <= i < self.layers().len() ==> (#[trigger] self.layers()[i]).wf()
        &&& find_layer(self.layers(), "Base"@) < self.layers().len()
        &&& find_layer(self.layers(), "Props"@) < self.layers().len()
    }

    /// The base layer: the ground.
    pub open spec fn base(&self) -> Layer {
        self.layers()[find_layer(self.layers(), "Base"@)]
    }

    /// The props layer: doors, spikes and gates.
    pub open spec fn props(&self) -> Layer {
        self.layers()[find_layer(self.layers(), "Props"@)]
    }

    /// A level made of its parts; `None` where its size is negative, a
    /// layer is unsound, or the base layer or the props layer is missing.
    pub fn new(
        identifier: &str,
        px_world_x: i32,
        px_world_y: i32,
        px_wid: i32,
        px_hei: i32,
        layers: Vec<Layer>,
        neighbours: Vec<NeighbourLevel>,
        encounters: Option<EncounterGroup>,
        music: Option<Music>,
    ) -> (r: Option<Level>)
        ensures
            r is Some == {
                &&& px_wid >= 0
                &&& px_hei >= 0
                &&& forall|i: int| 0 <= i < layers@.len() ==> (#[trigger] layers@[i]).wf()
                &&& find_layer(layers@, "Base"@) < layers@.len()
                &&& find_layer(layers@, "Props"@) < layers@.len()
            },
            r matches Some(l) ==> {
                &&& l.wf()
                &&& l.identifier@ == identifier@
                &&& l.px_world_x == px_world_x
                &&& l.px_world_y == px_world_y
                &&& l.px_wid == px_wid
                &&& l.px_hei == px_hei
                &&& l.layers() == layers@
                &&& l.neighbours == neighbours
                &&& l.encounters == encounters
                &&& l.music == music
            },
    {
        if px_wid < 0 || px_hei < 0 {
            return None;
        }
        let mut i: usize = 0;
        while i < layers.len()
            invariant
                i <= layers@.len(),
                forall|j: int| 0 <= j < i ==> (#[trigger] layers@[j]).wf(),
            decreases layers@.len() - i,
        {
            if !layers[i].check() {
                return None;
            }
            i = i + 1;
        }
        let level = Level {
            identifier: identifier.to_owned(),
            px_world_x,
            px_world_y,
            px_wid,
            px_hei,
            layers,
            neighbours,
            encounters,
            music,
        };
        if level.layer_index("Base") >= level.layers.len() || level.layer_index("Props")
            >= level.layers.len() {
            return None;
        }
        Some(level)
    }

    fn layer_index(&self, name: &str) -> (i: usize)
        ensures
            i == find_layer(self.layers(), name@),
            i <= self.layers().len(),
    {
        let mut i: usize = 0;
        while i < self.layers.len() && !str_eq(self.layers[i].identifier.as_str(), name)
            invariant
                i <= self.layers@.len(),
                forall|j: int| 0 <= j < i ==> (#[trigger] self.layers@[j]).identifier@ != name@,
            decreases self.layers@.len() - i,
        {
            i = i + 1;
        }
        proof {
            lemma_find_layer(self.layers@, name@);
            let f = find_layer(self.layers@, name@);
            if f < i {
                assert(self.layers@[f].identifier@ == name@);
            }
            if i < f {
                assert(self.layers@[i as int].identifier@ != name@);
            }
        }
        i
    }

    /// What [`Level::draw`] appends: the layers of the level, seen from a
    /// camera at a point of the level.
    pub open spec fn drawn(camera_x: i32, camera_y: i32) -> Seq<DrawCommandView> {
        seq![DrawCommandView::Level { camera_x, camera_y }]
    }

    pub fn draw(&self, out: &mut Vec<DrawCommand>, camera_x: i32, camera_y: i32)
        ensures
            views(final(out)@) == views(old(out)@) + Level::drawn(camera_x, camera_y),
    {
        emit(out, DrawCommand::Level { camera_x, camera_y });
        assert(views(old(out)@) + Level::drawn(camera_x, camera_y) =~= views(old(out)@).push(
            Level::drawn(camera_x, camera_y)[0],
        ));
    }

    /// Some layer blocks the way from a cell across its edge in direction `dir`.
    pub open spec fn edge_blocked(&self, tile_x: int, tile_y: int, dir: Direction) -> bool {
        exists|i: int|
            0 <= i < self.layers().len() && (#[trigger] self.layers()[i]).edge_blocked(
                tile_x,
                tile_y,
                dir,
            )
    }

    pub fn is_edge_blocked(&self, tile_x: i32, tile_y: i32, dir: Direction) -> (b: bool)
        requires
            self.wf(),
        ensures
            b == self.edge_blocked(tile_x as int, tile_y as int, dir),
    {
        let mut i: usize = 0;
        while i < self.layers.len()
            invariant
                i <= self.layers@.len(),
                self.wf(),
                forall|j: int|
                    0 <= j < i ==> !(#[trigger] self.layers@[j]).edge_blocked(
                        tile_x as int,
                        tile_y as int,
                        dir,
                    ),
            decreases self.layers@.len() - i,
        {
            if self.layers[i].is_edge_blocked(tile_x, tile_y, dir) {
                return true;
            }
            i = i + 1;
        }
        false
    }

    /// The cell lies in the base layer and holds the ice tile.
    pub fn is_ice_tile(&self, tile_x: i32, tile_y: i32) -> (b: bool)
        requires
            self.wf(),
        ensures
            b == (self.base().in_bounds(tile_x as int, tile_y as int) && self.base().tile(
                tile_x as int,
                tile_y as int,
            ) == ICE_TILE),
    {
        let i = self.layer_index("Base");
        self.layers[i].is_ice_tile(tile_x, tile_y)
    }

    /// Everything but the tiles of the props layer is the same.
    pub open spec fn same_but_props(&self, other: &Level) -> bool {
        &&& self.identifier == other.identifier
        &&& self.px_world_x == other.px_world_x
        &&& self.px_world_y == other.px_world_y
        &&& self.px_wid == other.px_wid
        &&& self.px_hei == other.px_hei
        &&& self.neighbours == other.neighbours
        &&& self.encounters == other.encounters
        &&& self.music == other.music
        &&& self.layers().len() == other.layers().len()
        &&& forall|i: int|
            0 <= i < self.layers().len() && i != find_layer(other.layers(), "Props"@)
                ==> #[trigger] self.layers()[i] == other.layers()[i]
        &&& self.props().identifier == other.props().identifier
        &&& self.props().c_wid() == other.props().c_wid()
        &&& self.props().c_hei() == other.props().c_hei()
        &&& self.props().tileset() == other.props().tileset()
    }

    /// Puts gates on a cell of the props layer and the cell to its right.
    pub fn place_gates(&mut self, tile_x: i32, tile_y: i32) -> (placed: bool)
        requires
            old(self).wf(),
        ensures
            final(self).wf(),
            final(self).same_but_props(old(self)),
            placed == (old(self).props().in_bounds(tile_x as int, tile_y as int) && old(self).props().in_bounds(tile_x + 1, tile_y as int)),
            !placed ==> final(self).props().tile_data() == old(self).props().tile_data(),
            placed ==> {
                let offset = 4 * (tile_y * old(self).props().c_wid() + tile_x);
                final(self).props().tile_data() == old(self).props().tile_data().update(
                    offset,
                    GATE_TILE.0,
                ).update(offset + 1, GATE_TILE.1).update(offset + 4, GATE_TILE.0).update(
                    offset + 5,
                    GATE_TILE.1,
                )
            },
    {
        let i = self.layer_index("Props");
        let placed = self.layers[i].place_gates(tile_x, tile_y);
        proof {
            self.lemma_names_kept(old(self), i as int);
        }
        placed
    }

    /// Brings the doors and spikes of the props layer to the state that
    /// goes with the lever.
    pub fn sync_props_with_lever(&mut self, lever_turned: bool)
        requires
            old(self).wf(),
        ensures
            final(self).wf(),
            final(self).same_but_props(old(self)),
            final(self).props().tile_data().len() == old(self).props().tile_data().len(),
            forall|cell: int|
                0 <= cell < old(self).props().c_wid() * old(self).props().c_hei()
                    ==> #[trigger] cell_synced(
                    final(self).props().tile_data(),
                    old(self).props().tile_data(),
                    cell,
                    lever_turned,
                ),
    {
        let i = self.layer_index("Props");
        self.layers[i].sync_props_with_lever(lever_turned);
        proof {
            self.lemma_names_kept(old(self), i as int);
        }
    }

    /// Where one layer changed and kept its name, layers are found under
    /// the same names as before.
    proof fn lemma_names_kept(&self, before: &Level, changed: int)
        requires
            self.layers().len() == before.layers().len(),
            0 <= changed < self.layers().len(),
            forall|i: int|
                0 <= i < self.layers().len() && i != changed ==> #[trigger] self.layers()[i]
                    == before.layers()[i],
            self.layers()[changed].identifier == before.layers()[changed].identifier,
        ensures
            forall|name: Seq<char>| #[trigger]
                find_layer(self.layers(), name) == find_layer(before.layers(), name),
    {
        assert forall|name: Seq<char>| #[trigger]
            find_layer(self.layers(), name) == find_layer(before.layers(), name) by {
            lemma_same_names(self.layers(), before.layers(), name);
        }
    }
}

proof fn lemma_same_names(a: Seq<Layer>, b: Seq<Layer>, name: Seq<char>)
    requires
        a.len() == b.len(),
        forall|i: int| 0 <= i < a.len() ==> (#[trigger] a[i]).identifier@ == b[i].identifier@,
    ensures
        find_layer(a, name) == find_layer(b, name),
    decreases a.len(),
{
    if a.len() > 0 {
        assert(a[0].identifier@ == b[0].identifier@);
        if a[0].identifier@ != name {
            assert forall|i: int| 0 <= i < a.drop_first().len() implies (
            #[trigger] a.drop_first()[i]).identifier@ == b.drop_first()[i].identifier@ by {
                assert(a.drop_first()[i] == a[i + 1]);
                assert(b.drop_first()[i] == b[i + 1]);
            }
            lemma_same_names(a.drop_first(), b.drop_first(), name);
        }
    }
}

impl Layer {
    /// Whether the tile data has four bytes for each cell.
    pub fn check(&self) -> (ok: bool)
        ensures
            ok == self.wf(),
    {
        assert(self.c_wid as int * self.c_hei as int <= 0xffff * 0xffff) by (nonlinear_arith)
            requires
                0 <= self.c_wid <= 0xffff,
                0 <= self.c_hei <= 0xffff,
        ;
        self.tile_data.len() as u64 == 4 * (self.c_wid as u64 * self.c_hei as u64)
    }
}

/// A copy of a list of bytes.
pub fn copy_bytes(v: &Vec<u8>) -> (r: Vec<u8>)
    ensures
        r@ == v@,
{
    let mut r: Vec<u8> = Vec::new();
    let mut i: usize = 0;
    while i < v.len()
        invariant
            i <= v.len(),
            r@ == v@.take(i as int),
        decreases v.len() - i,
    {
        r.push(v[i]);
        i = i + 1;
        assert(v@.take(i as int) == v@.take(i - 1).push(v@[i - 1]));
    }
    assert(v@.take(v@.len() as int) == v@);
    r
}

/// The number of a direction as level data names it in the table of
/// blocked edges, `None` for a name that is none.
pub open spec fn edge_named(s: Seq<char>) -> Option<Direction> {
    if s == "North"@ {
        Some(Direction::North)
    } else if s == "East"@ {
        Some(Direction::East)
    } else if s == "South"@ {
        Some(Direction::South)
    } else if s == "West"@ {
        Some(Direction::West)
    } else {
        None
    }
}

/// The direction that the table of blocked edges names.
pub fn parse_edge(s: &str) -> (d: Option<Direction>)
    ensures
        d == edge_named(s@),
{
    if str_eq(s, "North") {
        Some(Direction::North)
    } else if str_eq(s, "East") {
        Some(Direction::East)
    } else if str_eq(s, "South") {
        Some(Direction::South)
    } else if str_eq(s, "West") {
        Some(Direction::West)
    } else {
        None
    }
}

fn set_bit(byte: u8, bit: usize) -> (r: u8)
    requires
        bit < 8,
    ensures
        forall|k: int| 0 <= k < 8 ==> #[trigger] bit_set(r, k) == (k == bit || bit_set(byte, k)),
{
    if test_bit(byte, bit) {
        byte
    } else {
        let mask: u8 = if bit == 0 {
            1
        } else if bit == 1 {
            2
        } else if bit == 2 {
            4
        } else if bit == 3 {
            8
        } else if bit == 4 {
            16
        } else if bit == 5 {
            32
        } else if bit == 6 {
            64
        } else {
            128
        };
        assert(byte as int + mask as int <= 255) by {
            lemma_bit_room(byte, bit as int);
        }
        let r = byte + mask;
        proof {
            lemma_bit_added(byte, bit as int);
        }
        r
    }
}

/// A byte whose bit `bit` is clear has room for that bit.
proof fn lemma_bit_room(byte: u8, bit: int)
    requires
        0 <= bit < 8,
        !bit_set(byte, bit),
    ensures
        byte + pow2(bit) <= 255,
{
    let b = byte as int;
    if bit == 7 {
        assert(b / 128 == 0 || b / 128 == 1);
    } else if bit == 6 {
        assert(0 <= b / 64 <= 3);
    } else if bit == 5 {
        assert(0 <= b / 32 <= 7);
    } else if bit == 4 {
        assert(0 <= b / 16 <= 15);
    } else if bit == 3 {
        assert(0 <= b / 8 <= 31);
    } else if bit == 2 {
        assert(0 <= b / 4 <= 63);
    } else if bit == 1 {
        assert(0 <= b / 2 <= 127);
    } else {
        assert(b % 2 == 0);
    }
}

/// Adding a bit that is clear sets it and leaves the other bits alone.
proof fn lemma_bit_added(byte: u8, bit: int)
    requires
        0 <= bit < 8,
        !bit_set(byte, bit),
        byte + pow2(bit) <= 255,
    ensures
        forall|k: int|
            0 <= k < 8 ==> #[trigger] bit_set((byte + pow2(bit)) as u8, k) == (k == bit || bit_set(
                byte,
                k,
            )),
{
    let b = byte as u8;
    let r = (byte + pow2(bit)) as u8;
    assert forall|k: int| 0 <= k < 8 implies #[trigger] bit_set(r, k) == (k == bit || bit_set(
        byte,
        k,
    )) by {
        lemma_bit_is_shift(b, k);
        lemma_bit_is_shift(r, k);
        lemma_bit_is_shift(b, bit);
        let m: u8 = pow2(bit) as u8;
        let kk: u8 = k as u8;
        let bb: u8 = bit as u8;
        assert(m == 1u8 << bb) by (bit_vector)
            requires
                bb < 8,
                m == if bb == 0 {
                    1u8
                } else if bb == 1 {
                    2u8
                } else if bb == 2 {
                    4u8
                } else if bb == 3 {
                    8u8
                } else if bb == 4 {
                    16u8
                } else if bb == 5 {
                    32u8
                } else if bb == 6 {
                    64u8
                } else {
                    128u8
                },
        ;
        assert(((b | (1u8 << bb)) >> kk) & 1 == (if kk == bb {
            1u8
        } else {
            (b >> kk) & 1
        })) by (bit_vector)
            requires
                kk < 8,
                bb < 8,
        ;
        assert((b >> bb) & 1 == 0 || (b >> bb) & 1 == 1) by (bit_vector);
        assert(b + (1u8 << bb) == (b | (1u8 << bb))) by (bit_vector)
            requires
                bb < 8,
                (b >> bb) & 1 == 0,
                b as int + (1u8 << bb) as int <= 255,
        ;
    }
}

/// Bit `k` of a byte, by division and by shifting.
proof fn lemma_bit_is_shift(b: u8, k: int)
    requires
        0 <= k < 8,
    ensures
        bit_set(b, k) == (((b >> (k as u8)) & 1) == 1),
{
    let kk: u8 = k as u8;
    let p: u8 = pow2(k) as u8;
    assert(((b >> kk) & 1) == (b / p) % 2) by (bit_vector)
        requires
            kk < 8,
            p == if kk == 0 {
                1u8
            } else if kk == 1 {
                2u8
            } else if kk == 2 {
                4u8
            } else if kk == 3 {
                8u8
            } else if kk == 4 {
                16u8
            } else if kk == 5 {
                32u8
            } else if kk == 6 {
                64u8
            } else {
                128u8
            },
    ;
}

/// The tiles whose edge in one direction blocks the way.
pub struct BlockedEdges {
    pub dir: Direction,
    pub tile_ids: Vec<usize>,
}

/// Tile `tile` is listed as blocked in direction `dir` among the first
/// `groups` groups, of which the last counts up to its first `ids` tiles.
pub open spec fn listed(blocked: Seq<BlockedEdges>, tile: int, dir: Direction) -> bool {
    exists|g: int, i: int|
        0 <= g < blocked.len() && 0 <= i < blocked[g].tile_ids@.len() && blocked[g].dir == dir
            && #[trigger] blocked[g].tile_ids@[i] == tile
}

/// Every tile that is listed is one of the first `tiles` tiles.
pub open spec fn all_within(blocked: Seq<BlockedEdges>, tiles: int) -> bool {
    forall|g: int, i: int|
        0 <= g < blocked.len() && 0 <= i < blocked[g].tile_ids@.len()
            ==> #[trigger] blocked[g].tile_ids@[i] < tiles
}

impl Tileset {
    /// A tileset of `c_wid` by `c_hei` tiles that blocks nothing.
    pub fn open_tileset(tile_grid_size: u16, c_wid: usize) -> (t: Tileset)
        ensures
            t.tile_grid_size == tile_grid_size,
            t.c_wid == c_wid,
            t.edges_blocked is None,
    {
        Tileset { tile_grid_size, c_wid, edges_blocked: None }
    }

    /// A tileset of `c_wid` by `c_hei` tiles in which the edges of the
    /// listed tiles block the way; `None` where a listed tile is none of
    /// the tileset, or the tileset is too large.
    pub fn new(tile_grid_size: u16, c_wid: usize, c_hei: usize, blocked: &Vec<BlockedEdges>) -> (r:
        Option<Tileset>)
        ensures
            r matches Some(t) ==> {
                &&& t.tile_grid_size == tile_grid_size
                &&& t.c_wid == c_wid
                &&& t.edges_blocked matches Some(edges)
                &&& edges@.len() == (c_wid * c_hei + 1) / 2
                &&& forall|tile: int, dir: Direction|
                    0 <= tile < c_wid * c_hei ==> (#[trigger] bit_set(
                        edges@[tile / 2],
                        dir.spec_index() + 4 * (tile % 2),
                    ) == listed(blocked@, tile, dir))
            },
            r is Some == (c_wid * c_hei < usize::MAX && all_within(blocked@, c_wid * c_hei)),
    {
        let tiles: usize = match c_wid.checked_mul(c_hei) {
            Some(tiles) => tiles,
            None => {
                return None;
            },
        };
        if tiles == usize::MAX {
            return None;
        }
        let bytes = (tiles + 1) / 2;
        let mut edges: Vec<u8> = Vec::new();
        let mut n: usize = 0;
        while n < bytes
            invariant
                n <= bytes,
                edges@.len() == n,
                forall|j: int| 0 <= j < n ==> #[trigger] edges@[j] == 0,
            decreases bytes - n,
        {
            edges.push(0);
            n = n + 1;
        }
        let mut g: usize = 0;
        while g < blocked.len()
            invariant
                g <= blocked@.len(),
                tiles == c_wid * c_hei,
                bytes == (tiles + 1) / 2,
                edges@.len() == bytes,
                all_within(blocked@.take(g as int), tiles as int),
                forall|tile: int, dir: Direction|
                    0 <= tile < tiles ==> (#[trigger] bit_set(
                        edges@[tile / 2],
                        dir.spec_index() + 4 * (tile % 2),
                    ) == listed(blocked@.take(g as int), tile, dir)),
            decreases blocked@.len() - g,
        {
            let dir = blocked[g].dir;
            let dir_bit = dir.index();
            let mut i: usize = 0;
            while i < blocked[g].tile_ids.len()
                invariant
                    g < blocked@.len(),
                    i <= blocked@[g as int].tile_ids@.len(),
                    dir == blocked@[g as int].dir,
                    dir_bit == dir.spec_index(),
                    tiles == c_wid * c_hei,
                    bytes == (tiles + 1) / 2,
                    edges@.len() == bytes,
                    all_within(blocked@.take(g as int), tiles as int),
                    forall|k: int| 0 <= k < i ==> #[trigger] blocked@[g as int].tile_ids@[k] < tiles,
                    forall|tile: int, d: Direction|
                        0 <= tile < tiles ==> (#[trigger] bit_set(
                            edges@[tile / 2],
                            d.spec_index() + 4 * (tile % 2),
                        ) == (listed(blocked@.take(g as int), tile, d) || (d == dir && exists|k: int|
                            0 <= k < i && #[trigger] blocked@[g as int].tile_ids@[k] == tile))),
                decreases blocked@[g as int].tile_ids@.len() - i,
            {
                let tile_id = blocked[g].tile_ids[i];
                if tile_id >= tiles {
                    assert(!(blocked@[g as int].tile_ids@[i as int] < tiles));
                    return None;
                }
                let dest_bit = dir_bit + 4 * (tile_id % 2);
                let dest_byte = tile_id / 2;
                let ghost before = edges@;
                let updated = set_bit(edges[dest_byte], dest_bit);
                edges[dest_byte] = updated;
                proof {
                    assert forall|tile: int, d: Direction| 0 <= tile < tiles implies (
                    #[trigger] bit_set(edges@[tile / 2], d.spec_index() + 4 * (tile % 2)) == (listed(
                        blocked@.take(g as int),
                        tile,
                        d,
                    ) || (d == dir && exists|k: int|
                        0 <= k < i + 1 && #[trigger] blocked@[g as int].tile_ids@[k] == tile))) by {
                        let bit = d.spec_index() + 4 * (tile % 2);
                        assert(bit_set(before[tile / 2], bit) == (listed(
                            blocked@.take(g as int),
                            tile,
                            d,
                        ) || (d == dir && exists|k: int|
                            0 <= k < i && #[trigger] blocked@[g as int].tile_ids@[k] == tile)));
                        crate::direction::lemma_reverse_is_involution(d);
                        if tile / 2 == dest_byte as int && bit == dest_bit as int {
                            assert(tile == tile_id);
                            assert(d == dir);
                            assert(blocked@[g as int].tile_ids@[i as int] == tile);
                        } else if tile / 2 == dest_byte as int {
                            assert(!(tile == tile_id && d == dir));
                        } else {
                            assert(tile != tile_id);
                        }
                        if exists|k: int|
                            0 <= k < i + 1 && #[trigger] blocked@[g as int].tile_ids@[k] == tile {
                            let k = choose|k: int|
                                0 <= k < i + 1 && #[trigger] blocked@[g as int].tile_ids@[k]
                                    == tile;
                            if k == i {
                                assert(tile == tile_id);
                            }
                        }
                    }
                }
                i = i + 1;
            }
            proof {
                assert forall|tile: int, d: Direction| 0 <= tile < tiles implies (
                #[trigger] bit_set(edges@[tile / 2], d.spec_index() + 4 * (tile % 2)) == listed(
                    blocked@.take(g + 1),
                    tile,
                    d,
                )) by {
                    lemma_listed_step(blocked@, g as int, tile, d);
                }
                assert forall|gg: int, k: int|
                    0 <= gg < g + 1 && 0 <= k < blocked@.take(g + 1)[gg].tile_ids@.len() implies
                    #[trigger] blocked@.take(g + 1)[gg].tile_ids@[k] < tiles by {
                    if gg < g {
                        assert(blocked@.take(g as int)[gg] == blocked@.take(g + 1)[gg]);
                        assert(blocked@.take(g as int)[gg].tile_ids@[k] < tiles);
                    }
                }
            }
            g = g + 1;
        }
        assert(blocked@.take(blocked@.len() as int) =~= blocked@);
        Some(Tileset { tile_grid_size, c_wid, edges_blocked: Some(edges) })
    }
}

/// A tile is listed among the first `g + 1` groups where it is listed
/// among the first `g` or in group `g`.
proof fn lemma_listed_step(blocked: Seq<BlockedEdges>, g: int, tile: int, dir: Direction)
    requires
        0 <= g < blocked.len(),
    ensures
        listed(blocked.take(g + 1), tile, dir) == (listed(blocked.take(g), tile, dir) || (
        blocked[g].dir == dir && exists|k: int|
            0 <= k < blocked[g].tile_ids@.len() && #[trigger] blocked[g].tile_ids@[k] == tile)),
{
    let a = blocked.take(g + 1);
    let b = blocked.take(g);
    if listed(a, tile, dir) {
        let (gg, i) = choose|gg: int, i: int|
            0 <= gg < a.len() && 0 <= i < a[gg].tile_ids@.len() && a[gg].dir == dir
                && #[trigger] a[gg].tile_ids@[i] == tile;
        if gg < g {
            assert(b[gg] == a[gg]);
            assert(b[gg].tile_ids@[i] == tile);
        } else {
            assert(a[gg] == blocked[g]);
            assert(blocked[g].tile_ids@[i] == tile);
        }
    }
    if listed(b, tile, dir) {
        let (gg, i) = choose|gg: int, i: int|
            0 <= gg < b.len() && 0 <= i < b[gg].tile_ids@.len() && b[gg].dir == dir
                && #[trigger] b[gg].tile_ids@[i] == tile;
        assert(a[gg] == b[gg]);
        assert(a[gg].tile_ids@[i] == tile);
    }
    if blocked[g].dir == dir && exists|k: int|
        0 <= k < blocked[g].tile_ids@.len() && #[trigger] blocked[g].tile_ids@[k] == tile {
        let k = choose|k: int|
            0 <= k < blocked[g].tile_ids@.len() && #[trigger] blocked[g].tile_ids@[k] == tile;
        assert(a[g] == blocked[g]);
        assert(a[g].tile_ids@[k] == tile);
    }
}

/// A tile of level data: where its picture lies in the tileset image and
/// where it goes in the layer, both in pixels.
#[derive(Clone, Copy, Debug, PartialEq, Eq, Structural)]
pub struct TileSource {
    pub src_x: u16,
    pub src_y: u16,
    pub px_x: usize,
    pub px_y: usize,
}

/// Where the data of a tile starts in the tile data of a layer that is
/// `c_wid` cells wide, for tiles of `grid` pixels.
pub open spec fn tile_offset(tile: TileSource, c_wid: int, grid: int) -> int {
    4 * ((tile.px_y as int / grid) * c_wid + tile.px_x as int / grid)
}

/// A tile can be placed: its picture is one of the first 256 columns and
/// rows of the tileset, and its data lies in the tile data.
pub open spec fn tile_fits(tile: TileSource, len: int, c_wid: int, grid: int) -> bool {
    &&& grid > 0
    &&& tile.src_x as int / grid <= 255
    &&& tile.src_y as int / grid <= 255
    &&& tile_offset(tile, c_wid, grid) + 1 < len
}

/// The tile data after the tiles were placed in their order; later tiles
/// cover earlier ones.
pub open spec fn tiles_placed(data: Seq<u8>, tiles: Seq<TileSource>, c_wid: int, grid: int) -> Seq<
    u8,
>
    decreases tiles.len(),
{
    if tiles.len() == 0 {
        data
    } else {
        let before = tiles_placed(data, tiles.drop_last(), c_wid, grid);
        let tile = tiles.last();
        let offset = tile_offset(tile, c_wid, grid);
        before.update(offset, (tile.src_x as int / grid) as u8).update(
            offset + 1,
            (tile.src_y as int / grid) as u8,
        )
    }
}

impl Layer {
    /// A layer of `c_wid` by `c_hei` cells with the given tiles in it and
    /// nothing in the other cells; `None` where a tile cannot be placed.
    pub fn from_tiles(
        identifier: &str,
        c_wid: u16,
        c_hei: u16,
        tileset: Tileset,
        tiles: &Vec<TileSource>,
    ) -> (r: Option<Layer>)
        requires
            4 * (c_wid as int * c_hei as int) <= usize::MAX,
        ensures
            r is Some == (forall|i: int|
                0 <= i < tiles@.len() ==> tile_fits(
                    #[trigger] tiles@[i],
                    4 * (c_wid as int * c_hei as int),
                    c_wid as int,
                    tileset.tile_grid_size as int,
                )),
            r matches Some(l) ==> {
                &&& l.wf()
                &&& l.identifier@ == identifier@
                &&& l.c_wid() == c_wid
                &&& l.c_hei() == c_hei
                &&& l.tileset() == tileset
                &&& l.tile_data() == tiles_placed(
                    Seq::new((4 * (c_wid as int * c_hei as int)) as nat, |i: int| 0u8),
                    tiles@,
                    c_wid as int,
                    tileset.tile_grid_size as int,
                )
            },
    {
        assert(c_wid as int * c_hei as int <= 0xffff * 0xffff) by (nonlinear_arith)
            requires
                0 <= c_wid <= 0xffff,
                0 <= c_hei <= 0xffff,
        ;
        let size: usize = (4 * (c_wid as u64 * c_hei as u64)) as usize;
        let grid = tileset.tile_grid_size;
        let mut tile_data: Vec<u8> = Vec::new();
        let mut n: usize = 0;
        while n < size
            invariant
                n <= size,
                tile_data@.len() == n,
                forall|j: int| 0 <= j < n ==> #[trigger] tile_data@[j] == 0,
            decreases size - n,
        {
            tile_data.push(0);
            n = n + 1;
        }
        let ghost zeros = Seq::new(size as nat, |i: int| 0u8);
        assert(tile_data@ =~= zeros);
        let mut i: usize = 0;
        assert(tiles@.take(0) =~= Seq::<TileSource>::empty());
        while i < tiles.len()
            invariant
                i <= tiles@.len(),
                size == 4 * (c_wid as int * c_hei as int),
                grid == tileset.tile_grid_size,
                tile_data@.len() == size,
                tile_data@ == tiles_placed(zeros, tiles@.take(i as int), c_wid as int, grid as int),
                forall|j: int|
                    0 <= j < i ==> tile_fits(
                        #[trigger] tiles@[j],
                        size as int,
                        c_wid as int,
                        grid as int,
                    ),
            decreases tiles@.len() - i,
        {
            let tile = tiles[i];
            if grid == 0 {
                return None;
            }
            let c_src_x = tile.src_x / grid;
            let c_src_y = tile.src_y / grid;
            let c_dest_x = tile.px_x / grid as usize;
            let c_dest_y = tile.px_y / grid as usize;
            if c_src_x > 255 || c_src_y > 255 {
                return None;
            }
            let row = match c_dest_y.checked_mul(c_wid as usize) {
                Some(row) => row,
                None => {
                    return None;
                },
            };
            let cell = match row.checked_add(c_dest_x) {
                Some(cell) => cell,
                None => {
                    return None;
                },
            };
            if cell >= size / 4 {
                return None;
            }
            let offset = 4 * cell;
            proof {
                let next = tiles@.take(i + 1);
                assert(next.drop_last() =~= tiles@.take(i as int));
                assert(next.last() == tile);
                assert(offset == tile_offset(tile, c_wid as int, grid as int));
            }
            tile_data[offset] = c_src_x as u8;
            tile_data[offset + 1] = c_src_y as u8;
            i = i + 1;
        }
        assert(tiles@.take(tiles@.len() as int) =~= tiles@);
        Some(Layer { identifier: identifier.to_owned(), c_wid, c_hei, tileset, tile_data })
    }

    /// The layer holds what `other` holds.
    pub open spec fn copy_of(&self, other: &Layer) -> bool {
        &&& self.identifier@ == other.identifier@
        &&& self.c_wid() == other.c_wid()
        &&& self.c_hei() == other.c_hei()
        &&& self.tile_data() == other.tile_data()
        &&& self.tileset().tile_grid_size == other.tileset().tile_grid_size
        &&& self.tileset().c_wid == other.tileset().c_wid
        &&& match (self.tileset().edges_blocked, other.tileset().edges_blocked) {
            (Some(a), Some(b)) => a@ == b@,
            (None, None) => true,
            _ => false,
        }
    }

    /// A copy of the layer.
    pub fn clone(&self) -> (l: Layer)
        ensures
            l.copy_of(self),
            l.identifier@ == self.identifier@,
            l.c_wid() == self.c_wid(),
            l.c_hei() == self.c_hei(),
            l.tile_data() == self.tile_data(),
            l.tileset().tile_grid_size == self.tileset().tile_grid_size,
            l.tileset().c_wid == self.tileset().c_wid,
            match (l.tileset().edges_blocked, self.tileset().edges_blocked) {
                (Some(a), Some(b)) => a@ == b@,
                (None, None) => true,
                _ => false,
            },
            self.wf() ==> l.wf(),
    {
        Layer {
            identifier: self.identifier.clone(),
            c_wid: self.c_wid,
            c_hei: self.c_hei,
            tileset: Tileset {
                tile_grid_size: self.tileset.tile_grid_size,
                c_wid: self.tileset.c_wid,
                edges_blocked: match &self.tileset.edges_blocked {
                    Some(edges) => Some(copy_bytes(edges)),
                    None => None,
                },
            },
            tile_data: copy_bytes(&self.tile_data),
        }
    }
}

impl NeighbourLevel {
    /// A copy of the neighbour.
    pub fn clone(&self) -> (n: NeighbourLevel)
        ensures
            n.dir() == self.dir(),
            n.level_iid() == self.level_iid(),
    {
        NeighbourLevel { dir: self.dir, level_iid: self.level_iid.clone() }
    }
}

impl Level {
    /// The level holds what `other` holds.
    pub open spec fn copy_of(&self, other: &Level) -> bool {
        &&& self.identifier@ == other.identifier@
        &&& self.px_world_x == other.px_world_x
        &&& self.px_world_y == other.px_world_y
        &&& self.px_wid == other.px_wid
        &&& self.px_hei == other.px_hei
        &&& self.encounters == other.encounters
        &&& self.music == other.music
        &&& self.layers().len() == other.layers().len()
        &&& forall|i: int|
            0 <= i < other.layers().len() ==> (#[trigger] self.layers()[i]).copy_of(
                &other.layers()[i],
            )
        &&& self.neighbours@.len() == other.neighbours@.len()
        &&& forall|i: int|
            0 <= i < other.neighbours@.len() ==> (#[trigger] self.neighbours@[i]).dir()
                == other.neighbours@[i].dir() && self.neighbours@[i].level_iid()
                == other.neighbours@[i].level_iid()
    }

    /// A copy of the level.
    pub fn clone(&self) -> (l: Level)
        requires
            self.wf(),
        ensures
            l.wf(),
            l.copy_of(self),
            l.identifier@ == self.identifier@,
            l.px_world_x == self.px_world_x,
            l.px_world_y == self.px_world_y,
            l.px_wid == self.px_wid,
            l.px_hei == self.px_hei,
            l.encounters == self.encounters,
            l.music == self.music,
            l.layers().len() == self.layers().len(),
            forall|i: int|
                0 <= i < self.layers().len() ==> (#[trigger] l.layers()[i]).identifier@
                    == self.layers()[i].identifier@ && l.layers()[i].tile_data()
                    == self.layers()[i].tile_data() && l.layers()[i].c_wid()
                    == self.layers()[i].c_wid() && l.layers()[i].c_hei() == self.layers()[i].c_hei(),
            l.neighbours@.len() == self.neighbours@.len(),
            forall|i: int|
                0 <= i < self.neighbours@.len() ==> (#[trigger] l.neighbours@[i]).dir()
                    == self.neighbours@[i].dir() && l.neighbours@[i].level_iid()
                    == self.neighbours@[i].level_iid(),
    {
        let mut layers: Vec<Layer> = Vec::new();
        let mut i: usize = 0;
        while i < self.layers.len()
            invariant
                i <= self.layers@.len(),
                self.wf(),
                layers@.len() == i,
                forall|j: int|
                    0 <= j < i ==> (#[trigger] layers@[j]).wf() && layers@[j].identifier@
                        == self.layers@[j].identifier@ && layers@[j].tile_data()
                        == self.layers@[j].tile_data() && layers@[j].c_wid()
                        == self.layers@[j].c_wid() && layers@[j].c_hei() == self.layers@[j].c_hei()
                        && layers@[j].copy_of(&self.layers@[j]),
            decreases self.layers@.len() - i,
        {
            layers.push(self.layers[i].clone());
            i = i + 1;
        }
        let mut neighbours: Vec<NeighbourLevel> = Vec::new();
        let mut k: usize = 0;
        while k < self.neighbours.len()
            invariant
                k <= self.neighbours@.len(),
                neighbours@.len() == k,
                forall|j: int|
                    0 <= j < k ==> (#[trigger] neighbours@[j]).dir() == self.neighbours@[j].dir()
                        && neighbours@[j].level_iid() == self.neighbours@[j].level_iid(),
            decreases self.neighbours@.len() - k,
        {
            neighbours.push(self.neighbours[k].clone());
            k = k + 1;
        }
        proof {
            lemma_same_names(layers@, self.layers@, "Base"@);
            lemma_same_names(layers@, self.layers@, "Props"@);
        }
        Level {
            identifier: self.identifier.clone(),
            px_world_x: self.px_world_x,
            px_world_y: self.px_world_y,
            px_wid: self.px_wid,
            px_hei: self.px_hei,
            layers,
            neighbours,
            encounters: self.encounters,
            music: self.music,
        }
    }
}

/// An actor of level data.
pub struct ActorSource {
    pub identifier: String,
    pub grid_x: i32,
    pub grid_y: i32,
    /// Name of the image of the actor's sprite.
    pub sprite_path: String,
    /// What a chest holds.
    pub chest_type: Option<String>,
}

/// A level of the world with its actors.
pub struct LevelEntry {
    /// The name by which neighbours refer to the level.
    pub iid: String,
    pub level: Level,
    pub actors: Vec<ActorSource>,
}

pub struct LevelSet {
    pub levels: Vec<LevelEntry>,
}

/// Why a level cannot be made.
#[derive(Clone, Copy, Debug, PartialEq, Eq, Structural)]
pub enum LevelError {
    /// No level goes by the name.
    UnknownLevel,
    /// An actor of the level cannot be made.
    BadActor(ActorError),
}

/// Position of the last level for which `pick` holds, or -1 where there is none.
pub open spec fn last_level(levels: Seq<LevelEntry>, pick: spec_fn(LevelEntry) -> bool) -> int
    decreases levels.len(),
{
    if levels.len() == 0 {
        -1
    } else if pick(levels.last()) {
        levels.len() - 1
    } else {
        last_level(levels.drop_last(), pick)
    }
}

pub proof fn lemma_last_level(levels: Seq<LevelEntry>, pick: spec_fn(LevelEntry) -> bool)
    ensures
        -1 <= last_level(levels, pick) < levels.len(),
        last_level(levels, pick) >= 0 ==> pick(levels[last_level(levels, pick)]),
        forall|j: int| last_level(levels, pick) < j < levels.len() ==> !pick(#[trigger] levels[j]),
    decreases levels.len(),
{
    if levels.len() > 0 && !pick(levels.last()) {
        lemma_last_level(levels.drop_last(), pick);
        assert forall|j: int| last_level(levels, pick) < j < levels.len() implies !pick(
            #[trigger] levels[j],
        ) by {
            if j < levels.len() - 1 {
                assert(levels[j] == levels.drop_last()[j]);
            }
        }
    }
}

/// The levels called `identifier`.
pub open spec fn level_named(identifier: Seq<char>) -> spec_fn(LevelEntry) -> bool {
    |e: LevelEntry| e.level.identifier@ == identifier
}

/// The levels that neighbours call `iid`.
pub open spec fn level_with_iid(iid: Seq<char>) -> spec_fn(LevelEntry) -> bool {
    |e: LevelEntry| e.iid@ == iid
}

/// The point (`x`, `y`) of the world lies in the level.
pub open spec fn level_holds(level: &Level, x: int, y: int) -> bool {
    &&& level.px_world_x <= x < level.px_world_x + level.px_wid
    &&& level.px_world_y <= y < level.px_world_y + level.px_hei
}

impl LevelSet {
    /// Every level is sound.
    pub open spec fn wf(&self) -> bool {
        forall|i: int| 0 <= i < self.levels@.len() ==> (#[trigger] self.levels@[i]).level.wf()
    }

    /// Position of the level called `identifier`, or -1; of levels with
    /// the same name the last counts.
    pub open spec fn by_identifier(&self, identifier: Seq<char>) -> int {
        last_level(self.levels@, level_named(identifier))
    }

    /// Position of the level that neighbours call `iid`, or -1.
    pub open spec fn by_iid(&self, iid: Seq<char>) -> int {
        last_level(self.levels@, level_with_iid(iid))
    }

    /// The levels of a world; `None` where one of them is unsound.
    pub fn new(levels: Vec<LevelEntry>) -> (r: Option<LevelSet>)
        ensures
            r is Some == (forall|i: int|
                0 <= i < levels@.len() ==> (#[trigger] levels@[i]).level.wf()),
            r matches Some(s) ==> s.wf() && s.levels == levels,
    {
        let mut i: usize = 0;
        while i < levels.len()
            invariant
                i <= levels@.len(),
                forall|j: int| 0 <= j < i ==> (#[trigger] levels@[j]).level.wf(),
            decreases levels@.len() - i,
        {
            if !levels[i].level.check() {
                return None;
            }
            i = i + 1;
        }
        Some(LevelSet { levels })
    }

    /// Whether every level is sound.
    pub fn check(&self) -> (ok: bool)
        ensures
            ok == self.wf(),
    {
        let mut i: usize = 0;
        while i < self.levels.len()
            invariant
                i <= self.levels@.len(),
                forall|j: int| 0 <= j < i ==> (#[trigger] self.levels@[j]).level.wf(),
            decreases self.levels@.len() - i,
        {
            if !self.levels[i].level.check() {
                return false;
            }
            i = i + 1;
        }
        true
    }

    fn find_by_identifier(&self, identifier: &str) -> (r: Option<usize>)
        ensures
            r is Some == (self.by_identifier(identifier@) >= 0),
            r matches Some(i) ==> i == self.by_identifier(identifier@) && i < self.levels@.len(),
    {
        let ghost pick = level_named(identifier@);
        let mut i: usize = self.levels.len();
        while i > 0
            invariant
                i <= self.levels@.len(),
                pick == level_named(identifier@),
                forall|j: int| i <= j < self.levels@.len() ==> !pick(#[trigger] self.levels@[j]),
            decreases i,
        {
            i = i - 1;
            if str_eq(self.levels[i].level.identifier.as_str(), identifier) {
                proof {
                    lemma_last_level(self.levels@, pick);
                    assert(pick(self.levels@[i as int]));
                }
                return Some(i);
            }
        }
        proof {
            lemma_last_level(self.levels@, pick);
        }
        None
    }

    fn find_by_iid(&self, iid: &str) -> (r: Option<usize>)
        ensures
            r is Some == (self.by_iid(iid@) >= 0),
            r matches Some(i) ==> i == self.by_iid(iid@) && i < self.levels@.len(),
    {
        let ghost pick = level_with_iid(iid@);
        let mut i: usize = self.levels.len();
        while i > 0
            invariant
                i <= self.levels@.len(),
                pick == level_with_iid(iid@),
                forall|j: int| i <= j < self.levels@.len() ==> !pick(#[trigger] self.levels@[j]),
            decreases i,
        {
            i = i - 1;
            if str_eq(self.levels[i].iid.as_str(), iid) {
                proof {
                    lemma_last_level(self.levels@, pick);
                    assert(pick(self.levels@[i as int]));
                }
                return Some(i);
            }
        }
        proof {
            lemma_last_level(self.levels@, pick);
        }
        None
    }

    pub fn contains_identifier(&self, identifier: &str) -> (b: bool)
        ensures
            b == (self.by_identifier(identifier@) >= 0),
    {
        self.find_by_identifier(identifier).is_some()
    }

    /// Why the level at a position of the set cannot be made, if it
    /// cannot: the position is none of the set, or no actor can be made of
    /// one of the level's sources.
    pub open spec fn build_fault(&self, res: &Resources, index: int) -> Option<LevelError> {
        if !(0 <= index < self.levels@.len()) {
            Some(LevelError::UnknownLevel)
        } else {
            match first_fault(res, self.levels@[index].actors@) {
                Some(e) => Some(LevelError::BadActor(e)),
                None => None,
            }
        }
    }

    /// The level at a position of the set, with its actors, made anew.
    fn build(&self, res: &Resources, index: usize) -> (r: Result<(Level, Vec<Actor>), LevelError>)
        requires
            self.wf(),
            index < self.levels@.len(),
        ensures
            match first_fault(res, self.levels@[index as int].actors@) {
                Some(e) => r == Err::<(Level, Vec<Actor>), LevelError>(LevelError::BadActor(e)),
                None => r matches Ok((level, actors)) && built_from(
                    res,
                    &level,
                    actors@,
                    &self.levels@[index as int],
                ),
            },
    {
        let entry = &self.levels[index];
        let level = entry.level.clone();
        let mut actors: Vec<Actor> = Vec::new();
        let mut i: usize = 0;
        assert(entry.actors@.skip(0) =~= entry.actors@);
        while i < entry.actors.len()
            invariant
                i <= entry.actors@.len(),
                actors@.len() == i,
                actors_wf(actors@),
                forall|j: int|
                    0 <= j < i ==> actor_from(res, #[trigger] actors@[j], &entry.actors@[j]),
                index < self.levels@.len(),
                *entry == self.levels@[index as int],
                first_fault(res, entry.actors@) == first_fault(res, entry.actors@.skip(i as int)),
            decreases entry.actors@.len() - i,
        {
            let source = &entry.actors[i];
            proof {
                let rest = entry.actors@.skip(i as int);
                assert(rest[0] == entry.actors@[i as int]);
                assert(rest.drop_first() =~= entry.actors@.skip(i + 1));
            }
            let sheet = res.sprite_sheet(source.sprite_path.as_str());
            let chest_type: Option<&str> = match &source.chest_type {
                Some(name) => Some(name.as_str()),
                None => None,
            };
            match Actor::new_by_json(
                sheet,
                source.identifier.as_str(),
                source.grid_x,
                source.grid_y,
                chest_type,
            ) {
                Ok(actor) => {
                    actors.push(actor);
                },
                Err(e) => {
                    proof {
                        assert(chest_type is Some == source.chest_type is Some);
                        assert(chest_type matches Some(c) ==> c@ == source.chest_type->0@);
                        assert(actor_fault(res, source) == Some(e));
                        let rest = entry.actors@.skip(i as int);
                        assert(rest[0] == *source);
                        assert(first_fault(res, rest) == Some(e));
                    }
                    return Err(LevelError::BadActor(e));
                },
            }
            proof {
                assert(chest_type is Some == source.chest_type is Some);
                assert(chest_type matches Some(c) ==> c@ == source.chest_type->0@);
                assert(actor_fault(res, source) is None);
                let rest = entry.actors@.skip(i as int);
                assert(rest[0] == *source);
                assert(first_fault(res, rest) == first_fault(res, rest.drop_first()));
            }
            i = i + 1;
        }
        assert(entry.actors@.skip(entry.actors@.len() as int) =~= Seq::<ActorSource>::empty());
        Ok((level, actors))
    }

    /// The level called `identifier` with its actors, made anew.
    pub fn level_by_identifier(&self, res: &Resources, identifier: &str) -> (r: Result<
        (Level, Vec<Actor>),
        LevelError,
    >)
        requires
            self.wf(),
        ensures
            r is Ok == (self.build_fault(res, self.by_identifier(identifier@)) is None),
            r matches Err(e) ==> self.build_fault(res, self.by_identifier(identifier@)) == Some(e),
            r matches Ok((level, actors)) ==> self.by_identifier(identifier@) >= 0 && built_from(
                res,
                &level,
                actors@,
                &self.levels@[self.by_identifier(identifier@)],
            ),
    {
        match self.find_by_identifier(identifier) {
            Some(index) => self.build(res, index),
            None => Err(LevelError::UnknownLevel),
        }
    }

    /// Position of the level that the player enters with a step in
    /// direction `dir` from the point (`px_world_x`, `px_world_y`) of the
    /// world: the first neighbour in that direction that holds the point
    /// one tile further. `None` where there is none, and an error where a
    /// neighbour in that direction is no level of the set.
    pub open spec fn neighbour_index(
        &self,
        neighbours: Seq<NeighbourLevel>,
        px_world_x: i32,
        px_world_y: i32,
        dir: Direction,
    ) -> Result<Option<int>, LevelError>
        decreases neighbours.len(),
    {
        if neighbours.len() == 0 {
            Ok(None)
        } else {
            let n = neighbours[0];
            if n.dir() != dir {
                self.neighbour_index(neighbours.drop_first(), px_world_x, px_world_y, dir)
            } else {
                let index = self.by_iid(n.level_iid());
                if index < 0 {
                    Err(LevelError::UnknownLevel)
                } else if level_holds(
                    &self.levels@[index].level,
                    px_world_x + dir.dx() * TILE_SIZE,
                    px_world_y + dir.dy() * TILE_SIZE,
                ) {
                    Ok(Some(index))
                } else {
                    self.neighbour_index(neighbours.drop_first(), px_world_x, px_world_y, dir)
                }
            }
        }
    }

    /// The level that the player enters with a step in direction `dir`
    /// from a point of the world, with its actors, made anew.
    pub fn level_by_neighbour(
        &self,
        res: &Resources,
        neighbours: &Vec<NeighbourLevel>,
        px_world_x: i32,
        px_world_y: i32,
        dir: Direction,
    ) -> (r: Result<Option<(Level, Vec<Actor>)>, LevelError>)
        requires
            self.wf(),
        ensures
            match self.neighbour_index(neighbours@, px_world_x, px_world_y, dir) {
                Err(e) => r == Err::<Option<(Level, Vec<Actor>)>, LevelError>(e),
                Ok(None) => r matches Ok(None),
                Ok(Some(index)) => match self.build_fault(res, index) {
                    Some(e) => r == Err::<Option<(Level, Vec<Actor>)>, LevelError>(e),
                    None => r matches Ok(Some((level, actors))) && built_from(
                        res,
                        &level,
                        actors@,
                        &self.levels@[index],
                    ),
                },
            },
    {
        let px_dest_x: i64 = px_world_x as i64 + dir.dx() as i64 * 16;
        let px_dest_y: i64 = px_world_y as i64 + dir.dy() as i64 * 16;
        let mut i: usize = 0;
        assert(neighbours@.skip(0) =~= neighbours@);
        while i < neighbours.len()
            invariant
                i <= neighbours@.len(),
                self.wf(),
                px_dest_x == px_world_x + dir.dx() * TILE_SIZE,
                px_dest_y == px_world_y + dir.dy() * TILE_SIZE,
                self.neighbour_index(neighbours@, px_world_x, px_world_y, dir)
                    == self.neighbour_index(neighbours@.skip(i as int), px_world_x, px_world_y, dir),
            decreases neighbours@.len() - i,
        {
            let n = &neighbours[i];
            proof {
                let rest = neighbours@.skip(i as int);
                assert(rest[0] == neighbours@[i as int]);
                assert(rest.drop_first() =~= neighbours@.skip(i + 1));
            }
            if n.direction() == dir {
                match self.find_by_iid(n.iid()) {
                    None => {
                        return Err(LevelError::UnknownLevel);
                    },
                    Some(index) => {
                        let level = &self.levels[index].level;
                        let world_x = level.px_world_x as i64;
                        let world_y = level.px_world_y as i64;
                        if px_dest_x >= world_x && px_dest_x < world_x + level.px_wid as i64
                            && px_dest_y >= world_y && px_dest_y < world_y + level.px_hei as i64 {
                            return match self.build(res, index) {
                                Ok(built) => Ok(Some(built)),
                                Err(e) => Err(e),
                            };
                        }
                    },
                }
            }
            i = i + 1;
        }
        assert(neighbours@.skip(neighbours@.len() as int) =~= Seq::<NeighbourLevel>::empty());
        Ok(None)
    }
}

/// Why no actor can be made of a source of level data, if none can: its
/// kind is unknown, its sprite sheet is missing or unusable, or it is a chest
/// without known contents.
pub open spec fn actor_fault(res: &Resources, source: &ActorSource) -> Option<ActorError> {
    let kind = crate::actor::ActorType::named(source.identifier@);
    if kind is None {
        Some(ActorError::UnknownActorType)
    } else if !res.sprite_sheet_usable(source.sprite_path@) {
        Some(ActorError::MissingSprite)
    } else if kind == Some(crate::actor::ActorType::Chest) && !(source.chest_type matches Some(c)
        && crate::actor::ChestType::named(c@) is Some) {
        Some(ActorError::BadChestType)
    } else {
        None
    }
}

/// The fault of the first source of which no actor can be made.
pub open spec fn first_fault(res: &Resources, sources: Seq<ActorSource>) -> Option<ActorError>
    decreases sources.len(),
{
    if sources.len() == 0 {
        None
    } else if actor_fault(res, &sources[0]) is Some {
        actor_fault(res, &sources[0])
    } else {
        first_fault(res, sources.drop_first())
    }
}

/// The actor is what a source of level data stands for.
pub open spec fn actor_from(res: &Resources, actor: Actor, source: &ActorSource) -> bool {
    &&& actor.wf()
    &&& actor.sprite().made_of(&res.sheet_named(source.sprite_path@))
    &&& actor.sprite().playback() == (crate::sprite::Playback {
        tag: 0,
        frame: 0,
        t: 0,
        forward: true,
    })
    &&& Some(actor.identifier) == crate::actor::ActorType::named(source.identifier@)
    &&& actor.grid_x == source.grid_x
    &&& actor.grid_y == source.grid_y
    &&& actor.offset_x == 0
    &&& actor.offset_y == 0
    &&& actor.face_dir == Direction::South
    &&& actor.visible
    &&& actor.identifier == crate::actor::ActorType::Chest ==> (
    source.chest_type matches Some(c) && actor.chest_type == crate::actor::ChestType::named(c@))
    &&& actor.identifier != crate::actor::ActorType::Chest ==> actor.chest_type is None
}

/// Level and actors are what an entry of a level set stands for.
pub open spec fn built_from(
    res: &Resources,
    level: &Level,
    actors: Seq<Actor>,
    entry: &LevelEntry,
) -> bool {
    &&& level.wf()
    &&& level.copy_of(&entry.level)
    &&& level.identifier@ == entry.level.identifier@
    &&& level.px_world_x == entry.level.px_world_x
    &&& level.px_world_y == entry.level.px_world_y
    &&& level.px_wid == entry.level.px_wid
    &&& level.px_hei == entry.level.px_hei
    &&& level.encounters == entry.level.encounters
    &&& level.music == entry.level.music
    &&& level.layers().len() == entry.level.layers().len()
    &&& forall|i: int|
        0 <= i < level.layers().len() ==> (#[trigger] level.layers()[i]).tile_data()
            == entry.level.layers()[i].tile_data()
    &&& level.neighbours@.len() == entry.level.neighbours@.len()
    &&& actors.len() == entry.actors@.len()
    &&& forall|i: int|
        0 <= i < actors.len() ==> actor_from(res, #[trigger] actors[i], &entry.actors@[i])
}

impl Level {
    /// Whether the level is sound.
    pub fn check(&self) -> (ok: bool)
        ensures
            ok == self.wf(),
    {
        if self.px_wid < 0 || self.px_hei < 0 {
            return false;
        }
        let mut i: usize = 0;
        while i < self.layers.len()
            invariant
                i <= self.layers@.len(),
                forall|j: int| 0 <= j < i ==> (#[trigger] self.layers@[j]).wf(),
            decreases self.layers@.len() - i,
        {
            if !self.layers[i].check() {
                return false;
            }
            i = i + 1;
        }
        self.layer_index("Base") < self.layers.len() && self.layer_index("Props")
            < self.layers.len()
    }
}

} // verus!
