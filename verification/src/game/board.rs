//! The board: the tile graph that a game is played on, made once from the map
//! asset.

use vstd::prelude::*;
use crate::game::map::{MapData, Position, TileData, TileEvent, TileType, TileView, clone_ids, clone_strings};
use crate::search::{first_index, is_first_index, lemma_first_index_found, lemma_first_index_missing};

verus! {

/// A node of the board. No successor makes it terminal; more than one makes it
/// a branch.
#[derive(Debug)]
pub struct Tile {
    pub id: usize,
    pub tile_type: TileType,
    pub position: Position,
    pub next: Vec<usize>,
    pub event: Option<TileEvent>,
    pub labels: Option<Vec<String>>,
}

impl View for Tile {
    type V = TileView;

    open spec fn view(&self) -> TileView {
        TileView {
            id: self.id,
            tile_type: self.tile_type,
            position: self.position,
            next: self.next@,
            event: self.event.deep_view(),
            labels: self.labels.deep_view(),
        }
    }
}

impl DeepView for Tile {
    type V = TileView;

    open spec fn deep_view(&self) -> TileView {
        self@
    }
}

impl Clone for Tile {
    fn clone(&self) -> (r: Self)
        ensures
            r@ == self@,
    {
        Tile {
            id: self.id,
            tile_type: self.tile_type,
            position: self.position,
            next: clone_ids(&self.next),
            event: match &self.event {
                Some(e) => Some(e.clone()),
                None => None,
            },
            labels: match &self.labels {
                Some(l) => Some(clone_strings(l)),
                None => None,
            },
        }
    }
}

impl Tile {
    /// The tile that the asset describes.
    pub fn from_data(data: &TileData) -> (r: Tile)
        ensures
            r@ == data@,
    {
        Tile {
            id: data.id,
            tile_type: data.tile_type,
            position: data.position,
            next: clone_ids(&data.next),
            event: match &data.event {
                Some(e) => Some(e.clone()),
                None => None,
            },
            labels: match &data.labels {
                Some(l) => Some(clone_strings(l)),
                None => None,
            },
        }
    }
}

/// The tiles of a game, in the order of the asset.
#[derive(Debug)]
pub struct Board {
    pub tiles: Vec<Tile>,
}

/// The model of a board.
pub struct BoardView {
    pub tiles: Seq<TileView>,
}

impl BoardView {
    /// The place in `tiles` of the first tile with this id.
    pub open spec fn tile_index(self, id: usize) -> Option<int> {
        first_index(self.tiles, |t: TileView| t.id == id)
    }

    /// The first tile with this id.
    pub open spec fn tile(self, id: usize) -> Option<TileView> {
        match self.tile_index(id) {
            Some(i) => Some(self.tiles[i]),
            None => None,
        }
    }

    /// Some tile has this id.
    pub open spec fn has_tile(self, id: usize) -> bool {
        exists|i: int| 0 <= i < self.tiles.len() && (#[trigger] self.tiles[i]).id == id
    }

    /// The board has a tile, and every successor that a tile names is a tile of
    /// the board.
    pub open spec fn closed(self) -> bool {
        &&& self.tiles.len() > 0
        &&& forall|i: int, k: int|
            0 <= i < self.tiles.len() && 0 <= k < self.tiles[i].next.len() ==> self.has_tile(
                #[trigger] self.tiles[i].next[k],
            )
    }

    /// A tile can be looked up exactly when some tile has its id, and the tile
    /// found has that id.
    pub proof fn lemma_tile_lookup(self, id: usize)
        ensures
            self.has_tile(id) <==> self.tile_index(id) is Some,
            self.tile(id) is Some <==> self.tile_index(id) is Some,
            self.tile_index(id) matches Some(i) ==> 0 <= i < self.tiles.len() && self.tiles[i].id
                == id,
            self.tile(id) matches Some(t) ==> t.id == id,
    {
        let p = |t: TileView| t.id == id;
        crate::search::lemma_first_index_holds(self.tiles, p);
        if self.has_tile(id) {
            let i = choose|i: int| 0 <= i < self.tiles.len() && (#[trigger] self.tiles[i]).id == id;
            assert(p(self.tiles[i]));
        }
    }
}

impl View for Board {
    type V = BoardView;

    open spec fn view(&self) -> BoardView {
        BoardView { tiles: self.tiles.deep_view() }
    }
}

impl DeepView for Board {
    type V = BoardView;

    open spec fn deep_view(&self) -> BoardView {
        self@
    }
}

impl Clone for Board {
    fn clone(&self) -> (r: Self)
        ensures
            r@ == self@,
    {
        let tiles = self.tiles.clone();
        assert(tiles.deep_view() =~= self.tiles.deep_view());
        Board { tiles }
    }
}

impl Board {
    /// The board of a map asset: one tile for each tile of the asset, in order.
    pub fn from_map(map: &MapData) -> (r: Board)
        ensures
            r@.tiles == map@.tiles,
    {
        let mut tiles: Vec<Tile> = Vec::new();
        let mut i: usize = 0;
        while i < map.tiles.len()
            invariant
                i <= map.tiles.len(),
                tiles@.len() == i,
                forall|j: int| 0 <= j < i ==> tiles@[j]@ == map.tiles@[j]@,
            decreases map.tiles.len() - i,
        {
            tiles.push(Tile::from_data(&map.tiles[i]));
            i += 1;
        }
        assert(tiles.deep_view() =~= map.tiles.deep_view());
        Board { tiles }
    }

    /// The place in `tiles` of the first tile with this id.
    pub fn tile_index(&self, id: usize) -> (r: Option<usize>)
        ensures
            match r {
                Some(i) => self@.tile_index(id) == Some(i as int) && i < self.tiles@.len(),
                None => self@.tile_index(id) is None,
            },
    {
        let mut i: usize = 0;
        while i < self.tiles.len()
            invariant
                i <= self.tiles.len(),
                forall|j: int| 0 <= j < i ==> self.tiles@[j].id != id,
            decreases self.tiles.len() - i,
        {
            if self.tiles[i].id == id {
                proof {
                    let p = |t: TileView| t.id == id;
                    assert forall|j: int| 0 <= j < i implies !p(#[trigger] self@.tiles[j]) by {
                        assert(self@.tiles[j] == self.tiles@[j]@);
                    }
                    assert(self@.tiles[i as int] == self.tiles@[i as int]@);
                    assert(is_first_index(self@.tiles, p, i as int));
                    lemma_first_index_found(self@.tiles, p, i as int);
                }
                return Some(i);
            }
            i += 1;
        }
        proof {
            let p = |t: TileView| t.id == id;
            assert forall|j: int| 0 <= j < self@.tiles.len() implies !p(#[trigger] self@.tiles[j]) by {
                assert(self@.tiles[j] == self.tiles@[j]@);
            }
            lemma_first_index_missing(self@.tiles, p);
        }
        None
    }

    /// The first tile with this id.
    pub fn tile(&self, id: usize) -> (r: Option<&Tile>)
        ensures
            r.deep_view() == self@.tile(id),
    {
        match self.tile_index(id) {
            Some(i) => {
                assert(self@.tiles[i as int] == self.tiles@[i as int]@);
                Some(&self.tiles[i])
            },
            None => None,
        }
    }
}

} // verus!
