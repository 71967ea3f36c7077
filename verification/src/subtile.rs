//! Subtile collision/movement grid.
//!
//! Each ground tile of the isometric map is split into a 2x2 grid of
//! subtiles, each a plain walkable/blocked flag; this grid is the only thing
//! movement resolves against.  A subtile is named by its integer coordinate
//! `(tx * SUBTILES_PER_TILE + local_x, ty * SUBTILES_PER_TILE + local_y)`.
//!
//! The grid is derived once, at map load, from one sample per subtile (whether
//! that subtile's center falls inside a hand-drawn collision shape), and then
//! two tiles are overridden by hand: the partial-wall tile keeps only its far
//! row blocked, and the corner-cut tile blocks one diagonal pair of subtiles.
//!
//! Positions that the library hands out for placing things (subtile centers)
//! are given in quarter-tile units, which hold every subtile center exactly.
use std::collections::HashSet;
use vstd::prelude::*;

verus! {

/// Each tile is split into this many subtiles per axis.
pub const SUBTILES_PER_TILE: i32 = 2;

/// Tile whose collision is overridden so that only its far row of subtiles
/// (`local_y == 1`) blocks; its near row is always open.
pub const PARTIAL_WALL_TILE: (i32, i32) = (8, 12);

/// Local subtiles of `PARTIAL_WALL_TILE` that are forced open.
pub const PARTIAL_WALL_OPEN_LOCAL: [(i32, i32); 2] = [(0, 0), (1, 0)];

/// Tile on open ground whose two diagonally-opposite subtiles are forced
/// blocked, leaving the other diagonal open, to demonstrate corner cutting.
pub const CORNER_CUT_TILE: (i32, i32) = (7, 12);

/// Local subtiles of `CORNER_CUT_TILE` that are forced blocked.
pub const CORNER_CUT_BLOCKED_LOCAL: [(i32, i32); 2] = [(1, 0), (0, 1)];

/// Local subtiles of `CORNER_CUT_TILE` that stay open (the other diagonal).
pub const CORNER_CUT_OPEN_LOCAL: [(i32, i32); 2] = [(0, 0), (1, 1)];

/// Tiles around the player that the debug overlay draws, per direction.
pub const DEBUG_RADIUS_TILES: i32 = 5;

/// Subtile coordinates lie in `-COORD_LIMIT .. COORD_LIMIT` wherever their
/// quarter-tile centers (twice the coordinate, plus one) must fit an `i32`.
pub const COORD_LIMIT: i32 = 0x4000_0000;

/// Most rows, and most samples per row, that a grid can be built from: one
/// more than the largest `i32` coordinate.
pub const MAX_SAMPLES: usize = 0x8000_0000;

/// The subtiles that the partial-wall override forces open.
pub open spec fn partial_wall_open_subtiles() -> Set<(i32, i32)> {
    set![(16i32, 24i32), (17i32, 24i32)]
}

/// The subtiles that the corner-cut override forces blocked.
pub open spec fn corner_cut_blocked_subtiles() -> Set<(i32, i32)> {
    set![(15i32, 24i32), (14i32, 25i32)]
}

/// Subtiles whose sample says "blocked": `rows[y][x]` is the sample of
/// subtile `(x, y)`.
pub open spec fn sampled_subtiles(rows: Seq<Vec<bool>>) -> Set<(i32, i32)> {
    Set::new(
        |c: (i32, i32)|
            0 <= c.1 < rows.len() && 0 <= c.0 < rows[c.1 as int]@.len()
                && rows[c.1 as int]@[c.0 as int],
    )
}

/// The blocked set of a grid built from `rows`: the sampled subtiles, minus
/// the partial wall's open row, plus the corner-cut diagonal.
pub open spec fn built_subtiles(rows: Seq<Vec<bool>>) -> Set<(i32, i32)> {
    sampled_subtiles(rows).difference(partial_wall_open_subtiles()).union(
        corner_cut_blocked_subtiles(),
    )
}

/// The hash key under which a subtile is stored: both coordinates shifted
/// into `0..2^32` and packed into one `u64`.
pub open spec fn subtile_key(c: (i32, i32)) -> u64 {
    ((c.0 + 0x8000_0000) * 0x1_0000_0000 + (c.1 + 0x8000_0000)) as u64
}

/// The subtiles whose keys a key set holds.
pub open spec fn decoded(keys: Set<u64>) -> Set<(i32, i32)> {
    Set::new(|c: (i32, i32)| keys.contains(subtile_key(c)))
}

/// Distinct subtiles have distinct keys.
pub proof fn lemma_subtile_key_injective()
    ensures
        forall|a: (i32, i32), b: (i32, i32)| #[trigger]
            subtile_key(a) == #[trigger] subtile_key(b) ==> a == b,
{
    assert forall|a: (i32, i32), b: (i32, i32)| #[trigger]
        subtile_key(a) == #[trigger] subtile_key(b) implies a == b by {
        let ha: int = a.0 + 0x8000_0000;
        let la: int = a.1 + 0x8000_0000;
        let hb: int = b.0 + 0x8000_0000;
        let lb: int = b.1 + 0x8000_0000;
        assert(ha * 0x1_0000_0000 + la == hb * 0x1_0000_0000 + lb);
        if ha < hb {
            assert(ha * 0x1_0000_0000 + 0x1_0000_0000 <= hb * 0x1_0000_0000);
        } else if hb < ha {
            assert(hb * 0x1_0000_0000 + 0x1_0000_0000 <= ha * 0x1_0000_0000);
        }
    }
}

proof fn lemma_decoded_insert(keys: Set<u64>, c: (i32, i32))
    ensures
        decoded(keys.insert(subtile_key(c))) == decoded(keys).insert(c),
{
    lemma_subtile_key_injective();
    assert(decoded(keys.insert(subtile_key(c))) =~= decoded(keys).insert(c));
}

proof fn lemma_decoded_remove(keys: Set<u64>, c: (i32, i32))
    ensures
        decoded(keys.remove(subtile_key(c))) == decoded(keys).remove(c),
{
    lemma_subtile_key_injective();
    assert(decoded(keys.remove(subtile_key(c))) =~= decoded(keys).remove(c));
}

/// Packs a subtile coordinate into its hash key.
fn key_of(c: (i32, i32)) -> (k: u64)
    ensures
        k == subtile_key(c),
{
    let hi: u64 = (c.0 as i64 + 0x8000_0000) as u64;
    let lo: u64 = (c.1 as i64 + 0x8000_0000) as u64;
    hi * 0x1_0000_0000 + lo
}

/// The subtile whose key is `k` (every `u64` is the key of exactly one
/// subtile).
pub open spec fn subtile_of_key(k: u64) -> (i32, i32) {
    (((k as int) / 0x1_0000_0000 - 0x8000_0000) as i32, ((k as int) % 0x1_0000_0000
        - 0x8000_0000) as i32)
}

/// Keys and subtiles correspond one to one.
pub proof fn lemma_subtile_key_bijective(c: (i32, i32), k: u64)
    ensures
        subtile_of_key(subtile_key(c)) == c,
        subtile_key(subtile_of_key(k)) == k,
{
    let hi: int = c.0 + 0x8000_0000;
    let lo: int = c.1 + 0x8000_0000;
    vstd::arithmetic::div_mod::lemma_fundamental_div_mod_converse(
        hi * 0x1_0000_0000 + lo,
        0x1_0000_0000,
        hi,
        lo,
    );
    vstd::arithmetic::div_mod::lemma_fundamental_div_mod(k as int, 0x1_0000_0000);
    assert((k as int) / 0x1_0000_0000 < 0x1_0000_0000);
}

proof fn lemma_decoded_len(keys: Set<u64>)
    requires
        keys.finite(),
    ensures
        decoded(keys).finite(),
        decoded(keys).len() == keys.len(),
{
    let f = |k: u64| subtile_of_key(k);
    assert forall|k1: u64, k2: u64|
        keys.contains(k1) && keys.contains(k2) && #[trigger] f(k1) == #[trigger] f(k2) implies k1
        == k2 by {
        lemma_subtile_key_bijective(f(k1), k1);
        lemma_subtile_key_bijective(f(k2), k2);
    }
    assert forall|c: (i32, i32)| #[trigger] decoded(keys).contains(c) implies keys.map(f).contains(
        c,
    ) by {
        lemma_subtile_key_bijective(c, subtile_key(c));
        assert(f(subtile_key(c)) == c);
    }
    assert forall|c: (i32, i32)| #[trigger] keys.map(f).contains(c) implies decoded(keys).contains(
        c,
    ) by {
        let k = choose|k: u64| keys.contains(k) && f(k) == c;
        lemma_subtile_key_bijective(c, k);
    }
    assert(keys.map(f) =~= decoded(keys));
    vstd::set_lib::lemma_map_size(keys, decoded(keys), f);
}

/// Per-subtile walkable/blocked flags. A subtile absent from the set is
/// walkable (the common case).
pub struct SubtileGrid {
    blocked: HashSet<u64>,
}

impl SubtileGrid {
    /// The stored key set is finite.
    #[verifier::type_invariant]
    spec fn keys_finite(self) -> bool {
        self.blocked@.finite()
    }
}

impl View for SubtileGrid {
    type V = Set<(i32, i32)>;

    /// The blocked subtiles.
    closed spec fn view(&self) -> Set<(i32, i32)> {
        decoded(self.blocked@)
    }
}

impl SubtileGrid {
    /// A grid in which every subtile is walkable.
    pub fn new() -> (grid: SubtileGrid)
        ensures
            grid@ == Set::<(i32, i32)>::empty(),
    {
        let grid = SubtileGrid { blocked: HashSet::new() };
        assert(grid@ =~= Set::<(i32, i32)>::empty());
        grid
    }

    /// Whether the subtile `coord` is blocked.
    pub fn is_coord_blocked(&self, coord: (i32, i32)) -> (b: bool)
        ensures
            b == self@.contains(coord),
    {
        let k: u64 = key_of(coord);
        self.blocked.contains(&k)
    }

    /// Marks one subtile blocked.
    fn block(&mut self, c: (i32, i32))
        ensures
            final(self)@ == old(self)@.insert(c),
    {
        proof {
            use_type_invariant(&*self);
            lemma_decoded_insert(self.blocked@, c);
        }
        let k: u64 = key_of(c);
        let mut keys: HashSet<u64> = HashSet::new();
        std::mem::swap(&mut keys, &mut self.blocked);
        keys.insert(k);
        self.blocked = keys;
    }

    /// Marks one subtile walkable.
    fn unblock(&mut self, c: (i32, i32))
        ensures
            final(self)@ == old(self)@.remove(c),
    {
        proof {
            use_type_invariant(&*self);
            lemma_decoded_remove(self.blocked@, c);
        }
        let k: u64 = key_of(c);
        let mut keys: HashSet<u64> = HashSet::new();
        std::mem::swap(&mut keys, &mut self.blocked);
        keys.remove(&k);
        self.blocked = keys;
    }

    /// How many subtiles are blocked.
    pub fn blocked_count(&self) -> (n: usize)
        ensures
            self@.finite(),
            n == self@.len(),
    {
        proof {
            use_type_invariant(self);
            lemma_decoded_len(self.blocked@);
        }
        self.blocked.len()
    }
}

/// The subtiles that the samples in `rows` up to (not including) subtile
/// `(x, y)` mark blocked, visiting rows in order and each row left to right.
spec fn sampled_prefix(rows: Seq<Vec<bool>>, y: int, x: int) -> Set<(i32, i32)> {
    Set::new(
        |c: (i32, i32)|
            0 <= c.1 < rows.len() && 0 <= c.0 < rows[c.1 as int]@.len()
                && rows[c.1 as int]@[c.0 as int] && (c.1 < y || (c.1 == y && c.0 < x)),
    )
}

impl SubtileGrid {
    /// Builds the grid at map load. `samples[y][x]` says whether the center of
    /// subtile `(x, y)` falls inside a collision shape; every such subtile is
    /// blocked, then the partial wall's near row is opened and the corner-cut
    /// tile's diagonal pair is blocked.
    pub fn from_samples(samples: &Vec<Vec<bool>>) -> (grid: SubtileGrid)
        requires
            samples.len() <= MAX_SAMPLES,
            forall|y: int| 0 <= y < samples.len() ==> #[trigger] samples[y]@.len() <= MAX_SAMPLES,
        ensures
            grid@ == built_subtiles(samples@),
            forall|c: (i32, i32)|
                c != (16i32, 24i32) && c != (17i32, 24i32) && c != (15i32, 24i32) && c != (
                    14i32,
                    25i32,
                ) ==> (#[trigger] grid@.contains(c) <==> (0 <= c.1 < samples.len() && 0 <= c.0
                    < samples[c.1 as int]@.len() && samples[c.1 as int]@[c.0 as int])),
            !grid@.contains((16i32, 24i32)),
            !grid@.contains((17i32, 24i32)),
            grid@.contains((15i32, 24i32)),
            grid@.contains((14i32, 25i32)),
    {
        let mut grid = SubtileGrid::new();
        let mut y: usize = 0;
        while y < samples.len()
            invariant
                y <= samples.len(),
                samples.len() <= MAX_SAMPLES,
                forall|r: int| 0 <= r < samples.len() ==> #[trigger] samples[r]@.len() <= MAX_SAMPLES,
                grid@ == sampled_prefix(samples@, y as int, 0),
            decreases samples.len() - y,
        {
            let row = &samples[y];
            let mut x: usize = 0;
            while x < row.len()
                invariant
                    y < samples.len(),
                    x <= row.len(),
                    row == samples[y as int],
                    row@.len() <= MAX_SAMPLES,
                    samples.len() <= MAX_SAMPLES,
                    grid@ == sampled_prefix(samples@, y as int, x as int),
                decreases row.len() - x,
            {
                let c: (i32, i32) = (x as i32, y as i32);
                if row[x] {
                    grid.block(c);
                }
                assert(grid@ =~= sampled_prefix(samples@, y as int, x + 1));
                x += 1;
            }
            assert(grid@ =~= sampled_prefix(samples@, y + 1, 0));
            y += 1;
        }
        assert(grid@ =~= sampled_subtiles(samples@));
        let (px, py): (i32, i32) = PARTIAL_WALL_TILE;
        let mut i: usize = 0;
        while i < 2
            invariant
                i <= 2,
                px == 8, py == 12,
                grid@ == sampled_subtiles(samples@).difference(
                    Set::new(|c: (i32, i32)| c.1 == 24 && 16 <= c.0 < 16 + i)),
            decreases 2 - i,
        {
            let (lx, ly): (i32, i32) = PARTIAL_WALL_OPEN_LOCAL[i];
            grid.unblock((px * SUBTILES_PER_TILE + lx, py * SUBTILES_PER_TILE + ly));
            assert(grid@ =~= sampled_subtiles(samples@).difference(
                Set::new(|c: (i32, i32)| c.1 == 24 && 16 <= c.0 < 16 + i + 1)));
            i += 1;
        }
        assert(grid@ =~= sampled_subtiles(samples@).difference(partial_wall_open_subtiles()));
        let (cx, cy): (i32, i32) = CORNER_CUT_TILE;
        let (lx, ly): (i32, i32) = CORNER_CUT_BLOCKED_LOCAL[0];
        grid.block((cx * SUBTILES_PER_TILE + lx, cy * SUBTILES_PER_TILE + ly));
        let (lx, ly): (i32, i32) = CORNER_CUT_BLOCKED_LOCAL[1];
        grid.block((cx * SUBTILES_PER_TILE + lx, cy * SUBTILES_PER_TILE + ly));
        assert(grid@ =~= built_subtiles(samples@));
        grid
    }
}

/// The center of subtile `c`, in quarter-tile units.
pub open spec fn quarter_center(c: (i32, i32)) -> (int, int) {
    (2 * c.0 + 1, 2 * c.1 + 1)
}

/// The subtile that contains the point `q`, given in quarter-tile units
/// (the grid's cells are half a tile wide, so this is floor division by two).
pub open spec fn subtile_at_quarters(q: (int, int)) -> (int, int) {
    (q.0 / 2, q.1 / 2)
}

/// The center of subtile `c`, in quarter-tile units: tile-space `x` is
/// `result.0 / 4`, tile-space `y` is `result.1 / 4`.
pub fn subtile_center(c: (i32, i32)) -> (q: (i32, i32))
    requires
        -COORD_LIMIT <= c.0 < COORD_LIMIT,
        -COORD_LIMIT <= c.1 < COORD_LIMIT,
    ensures
        q.0 == quarter_center(c).0,
        q.1 == quarter_center(c).1,
        q.0 == 2 * c.0 + 1,
        q.1 == 2 * c.1 + 1,
{
    (2 * c.0 + 1, 2 * c.1 + 1)
}

/// Centers, in quarter-tile units, of the two subtiles that
/// `PARTIAL_WALL_TILE` leaves open; used to place one occupant in each.
pub fn partial_wall_open_centers() -> (centers: [(i32, i32); 2])
    ensures
        centers[0].0 == quarter_center((16i32, 24i32)).0,
        centers[0].1 == quarter_center((16i32, 24i32)).1,
        centers[1].0 == quarter_center((17i32, 24i32)).0,
        centers[1].1 == quarter_center((17i32, 24i32)).1,
        centers == [(33i32, 49i32), (35i32, 49i32)],
{
    let (tx, ty): (i32, i32) = PARTIAL_WALL_TILE;
    let (lx0, ly0): (i32, i32) = PARTIAL_WALL_OPEN_LOCAL[0];
    let (lx1, ly1): (i32, i32) = PARTIAL_WALL_OPEN_LOCAL[1];
    [
        subtile_center((tx * SUBTILES_PER_TILE + lx0, ty * SUBTILES_PER_TILE + ly0)),
        subtile_center((tx * SUBTILES_PER_TILE + lx1, ty * SUBTILES_PER_TILE + ly1)),
    ]
}

/// Centers, in quarter-tile units, of the two open diagonal corners of
/// `CORNER_CUT_TILE`; a diagonal move between them is the corner-cutting
/// probe.
pub fn corner_cut_open_centers() -> (centers: [(i32, i32); 2])
    ensures
        centers[0].0 == quarter_center((14i32, 24i32)).0,
        centers[0].1 == quarter_center((14i32, 24i32)).1,
        centers[1].0 == quarter_center((15i32, 25i32)).0,
        centers[1].1 == quarter_center((15i32, 25i32)).1,
        centers == [(29i32, 49i32), (31i32, 51i32)],
{
    let (tx, ty): (i32, i32) = CORNER_CUT_TILE;
    let (lx0, ly0): (i32, i32) = CORNER_CUT_OPEN_LOCAL[0];
    let (lx1, ly1): (i32, i32) = CORNER_CUT_OPEN_LOCAL[1];
    [
        subtile_center((tx * SUBTILES_PER_TILE + lx0, ty * SUBTILES_PER_TILE + ly0)),
        subtile_center((tx * SUBTILES_PER_TILE + lx1, ty * SUBTILES_PER_TILE + ly1)),
    ]
}

/// A subtile with its blocked flag in grid `g`.
pub open spec fn subtile_state(g: Set<(i32, i32)>, x: int, y: int) -> ((i32, i32), bool) {
    ((x as i32, y as i32), g.contains((x as i32, y as i32)))
}

/// The four subtiles of tile `(tx, ty)` with their flags, in the order
/// `(0,0)`, `(1,0)`, `(0,1)`, `(1,1)` of local position.
pub open spec fn tile_states(g: Set<(i32, i32)>, tx: int, ty: int) -> Seq<((i32, i32), bool)> {
    seq![
        subtile_state(g, 2 * tx, 2 * ty),
        subtile_state(g, 2 * tx + 1, 2 * ty),
        subtile_state(g, 2 * tx, 2 * ty + 1),
        subtile_state(g, 2 * tx + 1, 2 * ty + 1),
    ]
}

/// The subtile states of the `n` tiles `x0 .. x0 + n` of tile row `ty`.
pub open spec fn row_states(g: Set<(i32, i32)>, x0: int, ty: int, n: nat) -> Seq<
    ((i32, i32), bool),
>
    decreases n,
{
    if n == 0 {
        seq![]
    } else {
        row_states(g, x0, ty, (n - 1) as nat) + tile_states(g, x0 + n - 1, ty)
    }
}

/// The subtile states of the tile rows `y0 .. y0 + n`, each `w` tiles wide
/// starting at column `x0`.
pub open spec fn block_states(g: Set<(i32, i32)>, x0: int, y0: int, w: nat, n: nat) -> Seq<
    ((i32, i32), bool),
>
    decreases n,
{
    if n == 0 {
        seq![]
    } else {
        block_states(g, x0, y0, w, (n - 1) as nat) + row_states(g, x0, y0 + n - 1, w)
    }
}

/// Every entry of a row listing reports its own subtile's blocked flag.
pub proof fn lemma_row_states_flags(g: Set<(i32, i32)>, x0: int, ty: int, n: nat)
    ensures
        forall|i: int|
            0 <= i < row_states(g, x0, ty, n).len() ==> (#[trigger] row_states(
                g,
                x0,
                ty,
                n,
            )[i]).1 == g.contains(row_states(g, x0, ty, n)[i].0),
    decreases n,
{
    if n > 0 {
        lemma_row_states_flags(g, x0, ty, (n - 1) as nat);
        let prev = row_states(g, x0, ty, (n - 1) as nat);
        let tile = tile_states(g, x0 + n - 1, ty);
        assert forall|i: int|
            0 <= i < row_states(g, x0, ty, n).len() implies (#[trigger] row_states(
            g,
            x0,
            ty,
            n,
        )[i]).1 == g.contains(row_states(g, x0, ty, n)[i].0) by {
            if i < prev.len() {
                assert(row_states(g, x0, ty, n)[i] == prev[i]);
            } else {
                assert(row_states(g, x0, ty, n)[i] == tile[i - prev.len()]);
            }
        }
    }
}

/// Every entry of a block listing reports its own subtile's blocked flag:
/// the flag shown for a subtile is that subtile's state in the grid.
pub proof fn lemma_block_states_flags(g: Set<(i32, i32)>, x0: int, y0: int, w: nat, n: nat)
    ensures
        forall|i: int|
            0 <= i < block_states(g, x0, y0, w, n).len() ==> (#[trigger] block_states(
                g,
                x0,
                y0,
                w,
                n,
            )[i]).1 == g.contains(block_states(g, x0, y0, w, n)[i].0),
    decreases n,
{
    if n > 0 {
        lemma_block_states_flags(g, x0, y0, w, (n - 1) as nat);
        lemma_row_states_flags(g, x0, y0 + n - 1, w);
        let prev = block_states(g, x0, y0, w, (n - 1) as nat);
        let row = row_states(g, x0, y0 + n - 1, w);
        assert forall|i: int|
            0 <= i < block_states(g, x0, y0, w, n).len() implies (#[trigger] block_states(
            g,
            x0,
            y0,
            w,
            n,
        )[i]).1 == g.contains(block_states(g, x0, y0, w, n)[i].0) by {
            if i < prev.len() {
                assert(block_states(g, x0, y0, w, n)[i] == prev[i]);
            } else {
                assert(block_states(g, x0, y0, w, n)[i] == row[i - prev.len()]);
            }
        }
    }
}

/// Entry `i` of a row listing is subtile `(2 * (x0 + i / 4) + (i % 4) % 2,
/// 2 * ty + (i % 4) / 2)`: four entries per tile, left to right, each tile's
/// near row before its far row.
pub proof fn lemma_row_states_layout(g: Set<(i32, i32)>, x0: int, ty: int, n: nat)
    ensures
        row_states(g, x0, ty, n).len() == 4 * n,
        forall|i: int|
            0 <= i < 4 * n ==> (#[trigger] row_states(g, x0, ty, n)[i]).0 == (
            (2 * (x0 + i / 4) + (i % 4) % 2) as i32,
            (2 * ty + (i % 4) / 2) as i32,
            ),
    decreases n,
{
    if n > 0 {
        lemma_row_states_layout(g, x0, ty, (n - 1) as nat);
        let prev = row_states(g, x0, ty, (n - 1) as nat);
        let tile = tile_states(g, x0 + n - 1, ty);
        assert forall|i: int| 0 <= i < 4 * n implies (#[trigger] row_states(g, x0, ty, n)[i]).0 == (
            (2 * (x0 + i / 4) + (i % 4) % 2) as i32,
            (2 * ty + (i % 4) / 2) as i32,
        ) by {
            if i < prev.len() {
                assert(row_states(g, x0, ty, n)[i] == prev[i]);
            } else {
                let k = i - 4 * (n - 1);
                vstd::arithmetic::div_mod::lemma_fundamental_div_mod_converse(i, 4, n - 1, k);
                assert(row_states(g, x0, ty, n)[i] == tile[k]);
            }
        }
    }
}

/// Entry `i` of a block listing of `n` tile rows, each `w` tiles wide, is
/// subtile `(2 * (x0 + (i / 4) % w) + (i % 4) % 2, 2 * (y0 + (i / 4) / w) +
/// (i % 4) / 2)`: tiles row by row, left to right within a row, four
/// entries per tile in local order.
pub proof fn lemma_block_states_layout(g: Set<(i32, i32)>, x0: int, y0: int, w: nat, n: nat)
    ensures
        block_states(g, x0, y0, w, n).len() == 4 * (w * n),
        forall|i: int|
            0 <= i < 4 * (w * n) ==> (#[trigger] block_states(g, x0, y0, w, n)[i]).0 == (
            (2 * (x0 + (i / 4) % (w as int)) + (i % 4) % 2) as i32,
            (2 * (y0 + (i / 4) / (w as int)) + (i % 4) / 2) as i32,
            ),
    decreases n,
{
    if n > 0 {
        lemma_block_states_layout(g, x0, y0, w, (n - 1) as nat);
        lemma_row_states_layout(g, x0, y0 + n - 1, w);
        let prev = block_states(g, x0, y0, w, (n - 1) as nat);
        let row = row_states(g, x0, y0 + n - 1, w);
        let a: int = w * (n - 1);
        assert(w * n == a + w) by (nonlinear_arith)
            requires
                a == w * (n - 1),
        ;
        assert forall|i: int| 0 <= i < 4 * (w * n) implies (#[trigger] block_states(
            g,
            x0,
            y0,
            w,
            n,
        )[i]).0 == (
            (2 * (x0 + (i / 4) % (w as int)) + (i % 4) % 2) as i32,
            (2 * (y0 + (i / 4) / (w as int)) + (i % 4) / 2) as i32,
        ) by {
            if i < prev.len() {
                assert(block_states(g, x0, y0, w, n)[i] == prev[i]);
            } else {
                let j = i - 4 * a;
                assert(block_states(g, x0, y0, w, n)[i] == row[j]);
                vstd::arithmetic::div_mod::lemma_fundamental_div_mod(j, 4);
                vstd::arithmetic::div_mod::lemma_fundamental_div_mod_converse(
                    i,
                    4,
                    a + j / 4,
                    j % 4,
                );
                assert(j / 4 < w);
                assert(a + j / 4 == (n - 1) * w + j / 4) by (nonlinear_arith)
                    requires
                        a == w * (n - 1),
                ;
                vstd::arithmetic::div_mod::lemma_fundamental_div_mod_converse(
                    a + j / 4,
                    w as int,
                    n - 1,
                    j / 4,
                );
            }
        }
    }
}

impl SubtileGrid {
    fn push_state(&self, out: &mut Vec<((i32, i32), bool)>, x: i32, y: i32)
        ensures
            final(out)@ == old(out)@.push(subtile_state(self@, x as int, y as int)),
    {
        let b = self.is_coord_blocked((x, y));
        out.push(((x, y), b));
    }

    /// Every subtile of the tiles within `radius` tiles of `(center_tx,
    /// center_ty)` (tile rows and columns `center - radius .. center +
    /// radius`), with whether it is blocked: row by row, each tile's four
    /// subtiles in local order. This is what the debug overlay draws. A
    /// radius of 0 or less covers no tile.
    pub fn nearby_subtile_states(&self, center_tx: i32, center_ty: i32, radius: i32) -> (states:
        Vec<((i32, i32), bool)>)
        requires
            i32::MIN <= center_tx - radius <= i32::MAX,
            i32::MIN <= center_tx + radius <= i32::MAX,
            i32::MIN <= center_ty - radius <= i32::MAX,
            i32::MIN <= center_ty + radius <= i32::MAX,
            radius > 0 ==> -COORD_LIMIT <= center_tx - radius && center_tx + radius <= COORD_LIMIT,
            radius > 0 ==> -COORD_LIMIT <= center_ty - radius && center_ty + radius <= COORD_LIMIT,
        ensures
            states@ == block_states(
                self@,
                center_tx - radius,
                center_ty - radius,
                (if radius > 0 {
                    2 * radius
                } else {
                    0
                }) as nat,
                (if radius > 0 {
                    2 * radius
                } else {
                    0
                }) as nat,
            ),
            forall|i: int|
                0 <= i < states@.len() ==> (#[trigger] states@[i]).1 == self@.contains(states@[i].0),
            ({
                let w: int = if radius > 0 {
                    2 * radius
                } else {
                    0
                };
                &&& states@.len() == 4 * (w * w)
                &&& forall|i: int|
                    0 <= i < states@.len() ==> (#[trigger] states@[i]).0 == (
                    (2 * (center_tx - radius + (i / 4) % w) + (i % 4) % 2) as i32,
                    (2 * (center_ty - radius + (i / 4) / w) + (i % 4) / 2) as i32,
                    )
            }),
    {
        proof {
            lemma_block_states_layout(
                self@,
                center_tx - radius,
                center_ty - radius,
                (if radius > 0 {
                    2 * radius
                } else {
                    0
                }) as nat,
                (if radius > 0 {
                    2 * radius
                } else {
                    0
                }) as nat,
            );
            lemma_block_states_flags(
                self@,
                center_tx - radius,
                center_ty - radius,
                (if radius > 0 {
                    2 * radius
                } else {
                    0
                }) as nat,
                (if radius > 0 {
                    2 * radius
                } else {
                    0
                }) as nat,
            );
        }
        if radius <= 0 {
            return Vec::new();
        }
        let ghost g = self@;
        let ghost w: nat = (2 * radius) as nat;
        let x0: i32 = center_tx - radius;
        let y0: i32 = center_ty - radius;
        let x1: i32 = center_tx + radius;
        let y1: i32 = center_ty + radius;
        let mut out: Vec<((i32, i32), bool)> = Vec::new();
        let mut ty: i32 = y0;
        while ty < y1
            invariant
                y0 <= ty <= y1,
                x0 <= x1,
                x1 - x0 == w,
                -0x4000_0000 <= x0,
                x1 <= 0x4000_0000,
                -0x4000_0000 <= y0,
                y1 <= 0x4000_0000,
                g == self@,
                out@ == block_states(g, x0 as int, y0 as int, w, (ty - y0) as nat),
            decreases y1 - ty,
        {
            let mut tx: i32 = x0;
            while tx < x1
                invariant
                    x0 <= tx <= x1,
                    y0 <= ty < y1,
                    -0x4000_0000 <= x0,
                    x1 <= 0x4000_0000,
                    -0x4000_0000 <= y0,
                    y1 <= 0x4000_0000,
                    g == self@,
                    out@ == block_states(g, x0 as int, y0 as int, w, (ty - y0) as nat) + row_states(
                        g,
                        x0 as int,
                        ty as int,
                        (tx - x0) as nat,
                    ),
                decreases x1 - tx,
            {
                let ghost before = out@;
                self.push_state(&mut out, tx * 2, ty * 2);
                self.push_state(&mut out, tx * 2 + 1, ty * 2);
                self.push_state(&mut out, tx * 2, ty * 2 + 1);
                self.push_state(&mut out, tx * 2 + 1, ty * 2 + 1);
                assert(row_states(g, x0 as int, ty as int, (tx + 1 - x0) as nat) =~= row_states(
                    g,
                    x0 as int,
                    ty as int,
                    (tx - x0) as nat,
                ) + tile_states(g, tx as int, ty as int));
                assert(out@ =~= block_states(g, x0 as int, y0 as int, w, (ty - y0) as nat)
                    + row_states(g, x0 as int, ty as int, (tx + 1 - x0) as nat));
                tx += 1;
            }
            assert(block_states(g, x0 as int, y0 as int, w, (ty + 1 - y0) as nat) =~= block_states(
                g,
                x0 as int,
                y0 as int,
                w,
                (ty - y0) as nat,
            ) + row_states(g, x0 as int, ty as int, w));
            ty += 1;
        }
        out
    }
}

/// Every subtile center lies inside its own subtile.
pub proof fn lemma_center_in_subtile(c: (i32, i32))
    ensures
        subtile_at_quarters(quarter_center(c)) == (c.0 as int, c.1 as int),
{
}

/// Away from the two hand-overridden tiles, a built grid blocks a subtile
/// `(x, y)` exactly when there is a sample for it (row `y` exists and is long
/// enough, whatever the shape of the map) and that sample says it is inside
/// a collision shape; in particular a tile whose four samples are all
/// blocked has all four subtiles blocked.
pub proof fn lemma_built_follows_samples_elsewhere(rows: Seq<Vec<bool>>, c: (i32, i32))
    requires
        c != (16i32, 24i32),
        c != (17i32, 24i32),
        c != (15i32, 24i32),
        c != (14i32, 25i32),
    ensures
        built_subtiles(rows).contains(c) == (0 <= c.1 < rows.len() && 0 <= c.0 < rows[c.1 as int]@.len()
            && rows[c.1 as int]@[c.0 as int]),
{
}

/// The partial-wall tile is half open: its near row is walkable whatever the
/// samples say, its far row is blocked exactly where sampled.
pub proof fn lemma_partial_wall_half_open(rows: Seq<Vec<bool>>)
    ensures
        !built_subtiles(rows).contains((16i32, 24i32)),
        !built_subtiles(rows).contains((17i32, 24i32)),
        built_subtiles(rows).contains((16i32, 25i32)) == sampled_subtiles(rows).contains(
            (16i32, 25i32),
        ),
        built_subtiles(rows).contains((17i32, 25i32)) == sampled_subtiles(rows).contains(
            (17i32, 25i32),
        ),
{
}

/// The corner-cut tile always blocks one diagonal pair; the other diagonal
/// pair is blocked exactly where sampled (open ground leaves it walkable).
pub proof fn lemma_corner_cut_diagonal(rows: Seq<Vec<bool>>)
    ensures
        built_subtiles(rows).contains((15i32, 24i32)),
        built_subtiles(rows).contains((14i32, 25i32)),
        built_subtiles(rows).contains((14i32, 24i32)) == sampled_subtiles(rows).contains(
            (14i32, 24i32),
        ),
        built_subtiles(rows).contains((15i32, 25i32)) == sampled_subtiles(rows).contains(
            (15i32, 25i32),
        ),
{
}

/// The two corner-cut centers lie in the tile's `(0,0)` and `(1,1)` subtiles,
/// and neither of those is a subtile the corner-cut override blocks.
pub proof fn lemma_corner_cut_centers_are_open_corners()
    ensures
        subtile_at_quarters(quarter_center((14i32, 24i32))) == (7int * 2 + 0, 12int * 2 + 0),
        subtile_at_quarters(quarter_center((15i32, 25i32))) == (7int * 2 + 1, 12int * 2 + 1),
        !corner_cut_blocked_subtiles().contains((14i32, 24i32)),
        !corner_cut_blocked_subtiles().contains((15i32, 25i32)),
{
}

/// The two partial-wall centers lie in subtiles that no built grid blocks,
/// so two occupants can stand in what used to be one wall tile.
pub proof fn lemma_partial_wall_centers_walkable(rows: Seq<Vec<bool>>)
    ensures
        subtile_at_quarters(quarter_center((16i32, 24i32))) == (16int, 24int),
        subtile_at_quarters(quarter_center((17i32, 24i32))) == (17int, 24int),
        !built_subtiles(rows).contains((16i32, 24i32)),
        !built_subtiles(rows).contains((17i32, 24i32)),
{
}

} // verus!
