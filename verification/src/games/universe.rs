use vstd::prelude::*;
use crate::games::bits::{alive, lemma_bitwise, lemma_rotate_one, rotate_left, rotate_right, rotl, rotr};
use crate::values::{SCREEN_HEIGHT, SCREEN_WIDTH};

verus! {

/// Columns of the board; each column is one 64-bit word, one bit per row.
pub const WIDTH: usize = 128;
/// Rows of the board.
pub const HEIGHT: usize = 64;
pub const SEEDS_25_COUNT: usize = 8;
pub const CHUNK_SIZE: usize = 16;

/// Live cells among `nbs` in row `j`.
pub open spec fn live_count(nbs: Seq<u64>, j: u64) -> nat
    decreases nbs.len(),
{
    if nbs.len() == 0 {
        0
    } else {
        live_count(nbs.drop_last(), j) + if alive(nbs.last(), j) { 1nat } else { 0nat }
    }
}

/// Conway's rule: a cell with three live neighbours is born, one with two
/// or three survives. The splash rule lets a dead cell with one or three
/// live neighbours be born and a live one with at most three or with eight
/// survive.
pub open spec fn next_alive(current: bool, n: nat, splash: bool) -> bool {
    if splash {
        if current { n <= 3 || n == 8 } else { n == 1 || n == 3 }
    } else {
        n == 3 || (n == 2 && current)
    }
}

/// Live neighbours of cell (`c`, `j`) on the board wrapped into a torus:
/// the three cells of each neighbouring column and the two above and below
/// in its own column.
pub open spec fn torus_count(g: Seq<u64>, c: int, j: u64) -> nat {
    let l = if c == 0 { WIDTH - 1 } else { c - 1 };
    let r = if c == WIDTH - 1 { 0 } else { c + 1 };
    let up = if j == 0 { 63u64 } else { (j - 1) as u64 };
    let down = if j == 63 { 0u64 } else { (j + 1) as u64 };
    let b = |x: bool| if x { 1nat } else { 0nat };
    b(alive(g[l], up)) + b(alive(g[l], j)) + b(alive(g[l], down)) + b(alive(g[c], up)) + b(
        alive(g[c], down),
    ) + b(alive(g[r], up)) + b(alive(g[r], j)) + b(alive(g[r], down))
}

/// The board after one generation, cell by cell.
pub open spec fn evolved(old: Seq<u64>, new: Seq<u64>, splash: bool) -> bool {
    &&& new.len() == WIDTH
    &&& forall|c: int, j: u64|
        0 <= c < WIDTH && j < 64 ==> #[trigger] alive(new[c], j) == next_alive(
            alive(old[c], j),
            torus_count(old, c, j),
            splash,
        )
}

spec fn box_count(b0: u64, b1: u64, b2: u64, j: u64) -> nat {
    (if alive(b0, j) { 1nat } else { 0nat }) + (if alive(b1, j) { 2nat } else { 0nat }) + (if alive(b2, j) { 4nat } else { 0nat })
}

proof fn lemma_live_count_bound(nbs: Seq<u64>, j: u64)
    ensures
        live_count(nbs, j) <= nbs.len(),
    decreases nbs.len(),
{
    if nbs.len() > 0 {
        lemma_live_count_bound(nbs.drop_last(), j);
    }
}

/// The next state of a column: each bit of the result follows the rule for
/// that row, counting the live bits of the eight neighbour words in it.
pub fn calculate_column(current: u64, neighbors: [u64; 8], splash: bool) -> (r: u64)
    ensures
        forall|j: u64|
            j < 64 ==> #[trigger] alive(r, j) == next_alive(alive(current, j), live_count(neighbors@, j), splash),
{
    let mut box_0 = 0u64;
    let mut box_1 = 0u64;
    let mut box_2 = 0u64;
    proof {
        assert forall|j: u64| j < 64 implies box_count(box_0, box_1, box_2, j) == live_count(neighbors@.take(0), j) % 8 by {
            assert(((0u64 >> j) & 1u64) == 0u64) by (bit_vector);
        }
    }
    let mut i: usize = 0;
    while i < 8
        invariant
            i <= 8,
            forall|j: u64|
                j < 64 ==> #[trigger] box_count(box_0, box_1, box_2, j) == live_count(neighbors@.take(i as int), j) % 8,
        decreases 8 - i,
    {
        let n = neighbors[i];
        let second = box_0 & n;
        let third = box_1 & second;
        let ghost o0 = box_0;
        let ghost o1 = box_1;
        let ghost o2 = box_2;
        box_0 = box_0 ^ n;
        box_1 = box_1 ^ second;
        box_2 = box_2 ^ third;
        proof {
            assert forall|j: u64| j < 64 implies #[trigger] box_count(box_0, box_1, box_2, j) == live_count(
                neighbors@.take(i + 1),
                j,
            ) % 8 by {
                lemma_bitwise(o0, n, j);
                lemma_bitwise(o1, second, j);
                lemma_bitwise(o2, third, j);
                assert(neighbors@.take(i + 1).drop_last() =~= neighbors@.take(i as int));
                assert(neighbors@.take(i + 1).last() == n);
                let prev = live_count(neighbors@.take(i as int), j);
                assert(box_count(o0, o1, o2, j) == prev % 8);
            }
        }
        i += 1;
    }
    let result = if splash {
        let can_birth = box_0 & !box_2;
        let can_survive = !box_2;
        (!current & can_birth) | (current & can_survive)
    } else {
        let sum_is_3 = box_0 & box_1 & !box_2;
        let sum_is_2 = !box_0 & box_1 & !box_2;
        sum_is_3 | (sum_is_2 & current)
    };
    proof {
        assert(neighbors@.take(8) =~= neighbors@);
        assert forall|j: u64| j < 64 implies #[trigger] alive(result, j) == next_alive(
            alive(current, j),
            live_count(neighbors@, j),
            splash,
        ) by {
            lemma_live_count_bound(neighbors@, j);
            assert(box_count(box_0, box_1, box_2, j) == live_count(neighbors@.take(8), j) % 8);
            let n = live_count(neighbors@, j);
            assert(neighbors@.len() == 8);
            assert(box_count(box_0, box_1, box_2, j) == n % 8);
            assert(n == 8 ==> n % 8 == 0);
            assert(n < 8 ==> n % 8 == n);
            lemma_bitwise(box_0, box_2, j);
            lemma_bitwise(box_1, box_2, j);
            lemma_bitwise(box_2, box_1, j);
            lemma_bitwise(current, box_0, j);
            if splash {
                let can_birth = box_0 & !box_2;
                let can_survive = !box_2;
                lemma_bitwise(box_0, !box_2, j);
                lemma_bitwise(!current, can_birth, j);
                lemma_bitwise(current, can_survive, j);
                lemma_bitwise(!current & can_birth, current & can_survive, j);
            } else {
                let sum_is_3 = box_0 & box_1 & !box_2;
                let sum_is_2 = !box_0 & box_1 & !box_2;
                lemma_bitwise(box_0, box_1, j);
                lemma_bitwise(box_0 & box_1, !box_2, j);
                lemma_bitwise(!box_0, box_1, j);
                lemma_bitwise(!box_0 & box_1, !box_2, j);
                lemma_bitwise(sum_is_2, current, j);
                lemma_bitwise(sum_is_3, sum_is_2 & current, j);
            }
        }
    }
    result
}

/// The eight neighbour words that `evolution` hands to `calculate_column`
/// for column `c`: the left column shifted up, as is and shifted down; the
/// column itself shifted up and down; the right column likewise.
pub open spec fn window(g: Seq<u64>, c: int) -> Seq<u64> {
    let l = if c == 0 { WIDTH - 1 } else { c - 1 };
    let r = if c == WIDTH - 1 { 0 } else { c + 1 };
    seq![rotl(g[l], 1), g[l], rotr(g[l], 1), rotl(g[c], 1), rotr(g[c], 1), rotl(g[r], 1), g[r], rotr(g[r], 1)]
}

proof fn lemma_window_count(g: Seq<u64>, c: int, j: u64)
    requires
        g.len() == WIDTH,
        0 <= c < WIDTH,
        j < 64,
    ensures
        live_count(window(g, c), j) == torus_count(g, c, j),
{
    let l = if c == 0 { WIDTH - 1 } else { c - 1 };
    let r = if c == WIDTH - 1 { 0 } else { c + 1 };
    lemma_rotate_one(g[l], j);
    lemma_rotate_one(g[c], j);
    lemma_rotate_one(g[r], j);
    let w = window(g, c);
    reveal_with_fuel(live_count, 9);
    assert(w.drop_last().drop_last().drop_last().drop_last().drop_last().drop_last().drop_last().drop_last().len() == 0);
}

/// The game of life on the screen, one bit per pixel, the board wrapping
/// around at its edges.
pub struct Universe {
    generation: Vec<u64>,
    splash: bool,
    last_splash: u64,
}

impl Universe {
    /// The board has its `WIDTH` columns.
    pub open spec fn wf(&self) -> bool {
        self.cells().len() == WIDTH
    }

    /// When the last splash was thrown in.
    pub closed spec fn splash_time(&self) -> u64 {
        self.last_splash
    }

    /// When the last splash was thrown in.
    pub fn last_splash(&self) -> (r: u64)
        ensures
            r == self.splash_time(),
    {
        self.last_splash
    }

    /// Whether a screen-saver frame is under way: set while sowing for a
    /// frame, cleared once the generation has been computed.
    pub closed spec fn splashing(&self) -> bool {
        self.splash
    }

    /// The columns of the board, left to right.
    pub closed spec fn cells(&self) -> Seq<u64> {
        self.generation@
    }

    /// An empty board.
    pub fn new() -> (r: Universe)
        ensures
            r.wf(),
            r.cells() == Seq::new(WIDTH as nat, |i: int| 0u64),
            r.splash_time() == 0,
            !r.splashing(),
    {
        let mut generation: Vec<u64> = Vec::new();
        while generation.len() < WIDTH
            invariant
                generation.len() <= WIDTH,
                forall|i: int| 0 <= i < generation.len() ==> generation@[i] == 0u64,
            decreases WIDTH - generation.len(),
        {
            generation.push(0);
        }
        let r = Universe { generation, splash: false, last_splash: 0 };
        assert(r.cells() =~= Seq::new(WIDTH as nat, |i: int| 0u64));
        r
    }

    /// A board with the given columns.
    pub fn with_columns(columns: Vec<u64>) -> (r: Universe)
        requires
            columns.len() == WIDTH,
        ensures
            r.wf(),
            r.cells() == columns@,
            r.splash_time() == 0,
            !r.splashing(),
    {
        Universe { generation: columns, splash: false, last_splash: 0 }
    }

    /// Column `c` of the board.
    pub fn column(&self, c: usize) -> (r: u64)
        requires
            self.wf(),
            c < WIDTH,
        ensures
            r == self.cells()[c as int],
    {
        self.generation[c]
    }

    /// Kills every cell.
    pub fn armageddon(&mut self)
        requires
            old(self).wf(),
        ensures
            final(self).wf(),
            final(self).cells() == Seq::new(WIDTH as nat, |i: int| 0u64),
            final(self).splash_time() == old(self).splash_time(),
            final(self).splashing() == old(self).splashing(),
    {
        let mut i: usize = 0;
        while i < WIDTH
            invariant
                self.generation.len() == WIDTH,
                i <= WIDTH,
                forall|k: int| 0 <= k < i ==> self.generation@[k] == 0u64,
                self.last_splash == old(self).splash_time(),
                self.splash == old(self).splash,
            decreases WIDTH - i,
        {
            self.generation.set(i, 0);
            i += 1;
        }
        assert(self.cells() =~= Seq::new(WIDTH as nat, |i: int| 0u64));
    }

    /// Advances the board by one generation; with `splash`, by the splash rule.
    pub fn evolution(&mut self, splash: bool)
        requires
            old(self).wf(),
        ensures
            final(self).wf(),
            evolved(old(self).cells(), final(self).cells(), splash),
            final(self).splash_time() == old(self).splash_time(),
            !final(self).splashing(),
    {
        let ghost g = self.generation@;
        let first = self.generation[0];
        let mut left: u64;
        let mut center = self.generation[WIDTH - 1];
        let mut right = first;
        let mut neighbors = [0u64; 8];
        neighbors[3] = rotate_left(center, 1);
        neighbors[4] = rotate_right(center, 1);
        neighbors[5] = rotate_left(right, 1);
        neighbors[7] = rotate_right(right, 1);
        let mut cursor: usize = 0;
        while cursor < WIDTH
            invariant
                self.generation.len() == WIDTH,
                g.len() == WIDTH,
                cursor <= WIDTH,
                first == g[0],
                center == g[if cursor == 0 { WIDTH - 1 } else { cursor - 1 }],
                cursor < WIDTH ==> right == g[cursor as int],
                neighbors@.len() == 8,
                neighbors@[3] == rotl(center, 1),
                neighbors@[4] == rotr(center, 1),
                cursor < WIDTH ==> neighbors@[5] == rotl(right, 1),
                cursor < WIDTH ==> neighbors@[7] == rotr(right, 1),
                self.last_splash == old(self).splash_time(),
                self.splash == old(self).splash,
                forall|k: int| cursor <= k < WIDTH ==> self.generation@[k] == g[k],
                forall|k: int, j: u64|
                    0 <= k < cursor && j < 64 ==> #[trigger] alive(self.generation@[k], j) == next_alive(
                        alive(g[k], j),
                        torus_count(g, k, j),
                        splash,
                    ),
            decreases WIDTH - cursor,
        {
            left = center;
            center = right;
            right = if cursor + 1 == WIDTH { first } else { self.generation[cursor + 1] };
            neighbors[0] = neighbors[3];
            neighbors[1] = left;
            neighbors[2] = neighbors[4];
            neighbors[3] = neighbors[5];
            neighbors[4] = neighbors[7];
            neighbors[5] = rotate_left(right, 1);
            neighbors[6] = right;
            neighbors[7] = rotate_right(right, 1);
            let column = calculate_column(center, neighbors, splash);
            proof {
                assert(neighbors@ =~= window(g, cursor as int));
                assert forall|j: u64| j < 64 implies #[trigger] alive(column, j) == next_alive(
                    alive(g[cursor as int], j),
                    torus_count(g, cursor as int, j),
                    splash,
                ) by {
                    lemma_window_count(g, cursor as int, j);
                }
            }
            self.generation.set(cursor, column);
            cursor += 1;
        }
        self.splash = false;
    }
}

/// One of the eight seeds the screen saver sows from four random words:
/// every combination of a word or its complement with a second word or its
/// complement, about a quarter of the bits each.
pub open spec fn seed_of(atom: u64, iron: u64, spin: u64, muon: u64, s: int) -> u64 {
    if s == 0 {
        atom & iron
    } else if s == 1 {
        !atom & iron
    } else if s == 2 {
        atom & !iron
    } else if s == 3 {
        !atom & !iron
    } else if s == 4 {
        spin & muon
    } else if s == 5 {
        !spin & muon
    } else if s == 6 {
        spin & !muon
    } else {
        !spin & !muon
    }
}

/// The sparse pattern that column `i` of a seed's strip gets: the seed
/// and-ed with four rotations of itself.
pub open spec fn sprinkle(source: u64, i: u64) -> u64 {
    let s1 = rotl(source, ((i * 7 + 13) % 64) as u64);
    let s2 = rotr(source, ((i * 11 + 29) % 64) as u64);
    let s3 = rotl(source, ((i * 19 + 43) % 64) as u64);
    let s4 = rotr(source ^ s1, 31);
    source & s1 & s2 & s3 & s4
}

/// The board after sowing: each of the eight seeds covers a strip of
/// sixteen columns, whose live cells stay and gain the sprinkled ones.
pub open spec fn sown(g: Seq<u64>, atom: u64, iron: u64, spin: u64, muon: u64) -> Seq<u64> {
    Seq::new(
        WIDTH as nat,
        |k: int| g[k] | sprinkle(seed_of(atom, iron, spin, muon, k / CHUNK_SIZE as int), (k % CHUNK_SIZE as int) as u64),
    )
}

/// `atom` rotated left by two bits `t` times.
pub open spec fn atom_after(atom: u64, t: nat) -> u64
    decreases t,
{
    if t == 0 {
        atom
    } else {
        rotl(atom_after(atom, (t - 1) as nat), 2)
    }
}

/// The four patterns of an abundant sowing.
pub open spec fn abundance(atom: u64, iron: u64, m: int) -> u64 {
    if m == 0 {
        atom & iron
    } else if m == 1 {
        !atom & iron
    } else if m == 2 {
        atom & !iron
    } else {
        !atom & !iron
    }
}

/// Byte `i` of a word, counting from its least significant byte.
pub open spec fn byte_of(w: u64, i: int) -> u8 {
    ((w >> ((8 * i) as u64)) & 0xffu64) as u8
}

/// `r` holds the words of `words` one after the other, eight bytes each,
/// least significant byte first when `little`, most significant first else.
pub open spec fn laid_out(words: Seq<u64>, r: Seq<u8>, little: bool) -> bool {
    &&& r.len() == 8 * words.len()
    &&& forall|k: int, b: int|
        0 <= k < words.len() && 0 <= b < 8 ==> #[trigger] r[8 * k + b] == byte_of(
            words[k],
            if little { b } else { 7 - b },
        )
}

/// A word of zero has eight zero bytes.
proof fn lemma_zero_bytes(i: int)
    requires
        0 <= i < 8,
    ensures
        byte_of(0, i) == 0u8,
{
    let s: u64 = (8 * i) as u64;
    assert(((0u64 >> s) & 0xffu64) as u8 == 0u8) by (bit_vector);
}

/// `bytemuck::cast_slice` from the board's words to bytes, copied out.
/// The contract claims that the bytes are the words' own, eight per word in
/// the order of the words, each word laid out in the machine's byte order,
/// which is little-endian or big-endian; which of the two is left unsaid.
#[verifier::external_body]
fn frame_bytes(words: &Vec<u64>) -> (r: Vec<u8>)
    ensures
        exists|little: bool| #[trigger] laid_out(words@, r@, little),
{
    bytemuck::cast_slice::<u64, u8>(words.as_slice()).to_vec()
}

impl Universe {
    /// Sows random cells: two random words give four quarter-density
    /// patterns that fill the first four columns of every 32, the first
    /// word rotating by two bits from one group to the next.
    #[allow(unused)]
    pub fn sow_abundantly(&mut self, atom: u64, iron: u64)
        requires
            old(self).wf(),
        ensures
            final(self).wf(),
            final(self).splash_time() == old(self).splash_time(),
            final(self).splashing() == old(self).splashing(),
            forall|k: int|
                0 <= k < WIDTH ==> #[trigger] final(self).cells()[k] == if k % 32 < 4 {
                    abundance(atom_after(atom, (k / 32) as nat), iron, k % 32)
                } else {
                    old(self).cells()[k]
                },
    {
        let ghost g = self.generation@;
        let mut atom_now = atom;
        let mut i: usize = 0;
        while i < WIDTH
            invariant
                self.generation.len() == WIDTH,
                i % 32 == 0,
                i <= WIDTH,
                atom_now == atom_after(atom, (i / 32) as nat),
                self.last_splash == old(self).splash_time(),
                self.splash == old(self).splash,
                forall|k: int|
                    0 <= k < WIDTH ==> #[trigger] self.generation@[k] == if k < i && k % 32 < 4 {
                        abundance(atom_after(atom, (k / 32) as nat), iron, k % 32)
                    } else {
                        g[k]
                    },
            decreases WIDTH - i,
        {
            self.generation.set(i, atom_now & iron);
            self.generation.set(i + 1, !atom_now & iron);
            self.generation.set(i + 2, atom_now & !iron);
            self.generation.set(i + 3, !atom_now & !iron);
            atom_now = rotate_left(atom_now, 2);
            proof {
                assert(atom_after(atom, ((i + 32) / 32) as nat) == rotl(atom_after(atom, (i / 32) as nat), 2));
            }
            i += 32;
        }
    }

    /// Sows random cells into the board (see `sown`).
    pub fn sow(&mut self, atom: u64, iron: u64, spin: u64, muon: u64)
        requires
            old(self).wf(),
        ensures
            final(self).wf(),
            final(self).splash_time() == old(self).splash_time(),
            final(self).splashing() == old(self).splashing(),
            final(self).cells() == sown(old(self).cells(), atom, iron, spin, muon),
    {
        let ghost g = self.generation@;
        let seeds_25: [u64; SEEDS_25_COUNT] = [
            atom & iron,
            !atom & iron,
            atom & !iron,
            !atom & !iron,
            spin & muon,
            !spin & muon,
            spin & !muon,
            !spin & !muon,
        ];
        let mut s_idx: usize = 0;
        while s_idx < SEEDS_25_COUNT
            invariant
                self.generation.len() == WIDTH,
                s_idx <= SEEDS_25_COUNT,
                seeds_25@.len() == SEEDS_25_COUNT,
                forall|s: int| 0 <= s < SEEDS_25_COUNT ==> seeds_25@[s] == seed_of(atom, iron, spin, muon, s),
                self.last_splash == old(self).splash_time(),
                self.splash == old(self).splash,
                forall|k: int|
                    0 <= k < WIDTH ==> #[trigger] self.generation@[k] == if k < s_idx * CHUNK_SIZE {
                        sown(g, atom, iron, spin, muon)[k]
                    } else {
                        g[k]
                    },
            decreases SEEDS_25_COUNT - s_idx,
        {
            let source = seeds_25[s_idx];
            let offset = s_idx * CHUNK_SIZE;
            let mut i: u32 = 0;
            while i < CHUNK_SIZE as u32
                invariant
                    self.generation.len() == WIDTH,
                    s_idx < SEEDS_25_COUNT,
                    offset == s_idx * CHUNK_SIZE,
                    source == seed_of(atom, iron, spin, muon, s_idx as int),
                    i <= CHUNK_SIZE,
                    self.last_splash == old(self).splash_time(),
                    self.splash == old(self).splash,
                    forall|k: int|
                        0 <= k < WIDTH ==> #[trigger] self.generation@[k] == if k < offset + i {
                            sown(g, atom, iron, spin, muon)[k]
                        } else {
                            g[k]
                        },
                decreases CHUNK_SIZE - i,
            {
                let s1 = rotate_left(source, (i * 7 + 13) % 64);
                let s2 = rotate_right(source, (i * 11 + 29) % 64);
                let s3 = rotate_left(source, (i * 19 + 43) % 64);
                let s4 = rotate_right(source ^ s1, 31);
                let k = offset + i as usize;
                let cell = self.generation[k] | (source & s1 & s2 & s3 & s4);
                proof {
                    assert(k / CHUNK_SIZE == s_idx) by (nonlinear_arith)
                        requires
                            k == s_idx * 16 + i,
                            i < 16,
                    ;
                    assert(k % CHUNK_SIZE == i) by (nonlinear_arith)
                        requires
                            k == s_idx * 16 + i,
                            i < 16,
                    ;
                    assert(cell == sown(g, atom, iron, spin, muon)[k as int]);
                }
                self.generation.set(k, cell);
                i += 1;
            }
            s_idx += 1;
        }
        assert(self.generation@ =~= sown(g, atom, iron, spin, muon));
    }

    /// Whether the screen saver throws in a splash at `now`: splashes are
    /// wanted and about two seconds passed since the last one, which then
    /// becomes this one.
    pub fn splash_due(&mut self, with_splashes: bool, now: u64) -> (r: bool)
        requires
            old(self).wf(),
            with_splashes ==> old(self).splash_time() + 2044 <= u64::MAX,
        ensures
            final(self).wf(),
            final(self).cells() == old(self).cells(),
            r == (with_splashes && now >= old(self).splash_time() + 2044),
            final(self).splash_time() == if r { now } else { old(self).splash_time() },
            final(self).splashing() == old(self).splashing(),
    {
        let splash = with_splashes && (now >= self.last_splash + 2044);
        if splash {
            self.last_splash = now;
        }
        splash
    }

    /// One frame of the screen saver: sows random cells, advances the board
    /// a generation and gives the bytes to draw, column after column.
    pub fn evolve(&mut self, atom: u64, iron: u64, spin: u64, muon: u64, splash: bool) -> (r: Vec<u8>)
        requires
            old(self).wf(),
        ensures
            final(self).wf(),
            final(self).splash_time() == old(self).splash_time(),
            !final(self).splashing(),
            evolved(sown(old(self).cells(), atom, iron, spin, muon), final(self).cells(), splash),
            exists|little: bool| #[trigger] laid_out(final(self).cells(), r@, little),
            r.len() == 8 * WIDTH,
            forall|k: int, b: int|
                0 <= k < WIDTH && 0 <= b < 8 && final(self).cells()[k] == 0 ==> #[trigger] r@[8 * k + b] == 0u8,
    {
        self.splash = true;
        self.sow(atom, iron, spin, muon);
        self.evolution(splash);
        let r = frame_bytes(&self.generation);
        proof {
            let little = choose|little: bool| #[trigger] laid_out(self.generation@, r@, little);
            assert forall|k: int, b: int|
                0 <= k < WIDTH && 0 <= b < 8 && self.cells()[k] == 0 implies #[trigger] r@[8 * k + b] == 0u8 by {
                lemma_zero_bytes(if little { b } else { 7 - b });
            }
        }
        r
    }
}

/// A board with no live cells stays empty under Conway's rule.
pub proof fn law_empty_board_stays_empty(g: Seq<u64>, new: Seq<u64>)
    requires
        g.len() == WIDTH,
        forall|c: int| 0 <= c < WIDTH ==> g[c] == 0u64,
        evolved(g, new, false),
    ensures
        forall|c: int| 0 <= c < WIDTH ==> new[c] == 0u64,
{
    assert forall|c: int| 0 <= c < WIDTH implies new[c] == 0u64 by {
        assert forall|j: u64| j < 64 implies !alive(new[c], j) by {
            assert forall|x: int, y: u64| 0 <= x < WIDTH && y < 64 implies !alive(g[x], y) by {
                assert(((0u64 >> y) & 1u64) == 0u64) by (bit_vector);
            }
            assert(alive(new[c], j) == next_alive(alive(g[c], j), torus_count(g, c, j), false));
        }
        lemma_no_bits_is_zero(new[c]);
    }
}

proof fn lemma_no_bits_is_zero(x: u64)
    requires
        forall|j: u64| j < 64 ==> !#[trigger] alive(x, j),
    ensures
        x == 0,
{
    assert forall|j: u64| j < 64 implies ((x >> j) & 1u64) == 0u64 by {
        assert(!alive(x, j));
        assert(((x >> j) & 1u64) == 1u64 || ((x >> j) & 1u64) == 0u64) by (bit_vector);
    }
    assert(((x >> 0u64) & 1u64) == 0u64);
    assert(((x >> 1u64) & 1u64) == 0u64);
    assert(((x >> 2u64) & 1u64) == 0u64);
    assert(((x >> 3u64) & 1u64) == 0u64);
    assert(((x >> 4u64) & 1u64) == 0u64);
    assert(((x >> 5u64) & 1u64) == 0u64);
    assert(((x >> 6u64) & 1u64) == 0u64);
    assert(((x >> 7u64) & 1u64) == 0u64);
    assert(((x >> 8u64) & 1u64) == 0u64);
    assert(((x >> 9u64) & 1u64) == 0u64);
    assert(((x >> 10u64) & 1u64) == 0u64);
    assert(((x >> 11u64) & 1u64) == 0u64);
    assert(((x >> 12u64) & 1u64) == 0u64);
    assert(((x >> 13u64) & 1u64) == 0u64);
    assert(((x >> 14u64) & 1u64) == 0u64);
    assert(((x >> 15u64) & 1u64) == 0u64);
    assert(((x >> 16u64) & 1u64) == 0u64);
    assert(((x >> 17u64) & 1u64) == 0u64);
    assert(((x >> 18u64) & 1u64) == 0u64);
    assert(((x >> 19u64) & 1u64) == 0u64);
    assert(((x >> 20u64) & 1u64) == 0u64);
    assert(((x >> 21u64) & 1u64) == 0u64);
    assert(((x >> 22u64) & 1u64) == 0u64);
    assert(((x >> 23u64) & 1u64) == 0u64);
    assert(((x >> 24u64) & 1u64) == 0u64);
    assert(((x >> 25u64) & 1u64) == 0u64);
    assert(((x >> 26u64) & 1u64) == 0u64);
    assert(((x >> 27u64) & 1u64) == 0u64);
    assert(((x >> 28u64) & 1u64) == 0u64);
    assert(((x >> 29u64) & 1u64) == 0u64);
    assert(((x >> 30u64) & 1u64) == 0u64);
    assert(((x >> 31u64) & 1u64) == 0u64);
    assert(((x >> 32u64) & 1u64) == 0u64);
    assert(((x >> 33u64) & 1u64) == 0u64);
    assert(((x >> 34u64) & 1u64) == 0u64);
    assert(((x >> 35u64) & 1u64) == 0u64);
    assert(((x >> 36u64) & 1u64) == 0u64);
    assert(((x >> 37u64) & 1u64) == 0u64);
    assert(((x >> 38u64) & 1u64) == 0u64);
    assert(((x >> 39u64) & 1u64) == 0u64);
    assert(((x >> 40u64) & 1u64) == 0u64);
    assert(((x >> 41u64) & 1u64) == 0u64);
    assert(((x >> 42u64) & 1u64) == 0u64);
    assert(((x >> 43u64) & 1u64) == 0u64);
    assert(((x >> 44u64) & 1u64) == 0u64);
    assert(((x >> 45u64) & 1u64) == 0u64);
    assert(((x >> 46u64) & 1u64) == 0u64);
    assert(((x >> 47u64) & 1u64) == 0u64);
    assert(((x >> 48u64) & 1u64) == 0u64);
    assert(((x >> 49u64) & 1u64) == 0u64);
    assert(((x >> 50u64) & 1u64) == 0u64);
    assert(((x >> 51u64) & 1u64) == 0u64);
    assert(((x >> 52u64) & 1u64) == 0u64);
    assert(((x >> 53u64) & 1u64) == 0u64);
    assert(((x >> 54u64) & 1u64) == 0u64);
    assert(((x >> 55u64) & 1u64) == 0u64);
    assert(((x >> 56u64) & 1u64) == 0u64);
    assert(((x >> 57u64) & 1u64) == 0u64);
    assert(((x >> 58u64) & 1u64) == 0u64);
    assert(((x >> 59u64) & 1u64) == 0u64);
    assert(((x >> 60u64) & 1u64) == 0u64);
    assert(((x >> 61u64) & 1u64) == 0u64);
    assert(((x >> 62u64) & 1u64) == 0u64);
    assert(((x >> 63u64) & 1u64) == 0u64);
    assert(x == 0) by (bit_vector)
        requires
            (x >> 0u64) & 1u64 == 0u64 && (x >> 1u64) & 1u64 == 0u64 && (x >> 2u64) & 1u64 == 0u64 && (x >> 3u64) & 1u64 == 0u64 && (x >> 4u64) & 1u64 == 0u64 && (x >> 5u64) & 1u64 == 0u64 && (x >> 6u64) & 1u64 == 0u64 && (x >> 7u64) & 1u64 == 0u64 && (x >> 8u64) & 1u64 == 0u64 && (x >> 9u64) & 1u64 == 0u64 && (x >> 10u64) & 1u64 == 0u64 && (x >> 11u64) & 1u64 == 0u64 && (x >> 12u64) & 1u64 == 0u64 && (x >> 13u64) & 1u64 == 0u64 && (x >> 14u64) & 1u64 == 0u64 && (x >> 15u64) & 1u64 == 0u64 && (x >> 16u64) & 1u64 == 0u64 && (x >> 17u64) & 1u64 == 0u64 && (x >> 18u64) & 1u64 == 0u64 && (x >> 19u64) & 1u64 == 0u64 && (x >> 20u64) & 1u64 == 0u64 && (x >> 21u64) & 1u64 == 0u64 && (x >> 22u64) & 1u64 == 0u64 && (x >> 23u64) & 1u64 == 0u64 && (x >> 24u64) & 1u64 == 0u64 && (x >> 25u64) & 1u64 == 0u64 && (x >> 26u64) & 1u64 == 0u64 && (x >> 27u64) & 1u64 == 0u64 && (x >> 28u64) & 1u64 == 0u64 && (x >> 29u64) & 1u64 == 0u64 && (x >> 30u64) & 1u64 == 0u64 && (x >> 31u64) & 1u64 == 0u64 && (x >> 32u64) & 1u64 == 0u64 && (x >> 33u64) & 1u64 == 0u64 && (x >> 34u64) & 1u64 == 0u64 && (x >> 35u64) & 1u64 == 0u64 && (x >> 36u64) & 1u64 == 0u64 && (x >> 37u64) & 1u64 == 0u64 && (x >> 38u64) & 1u64 == 0u64 && (x >> 39u64) & 1u64 == 0u64 && (x >> 40u64) & 1u64 == 0u64 && (x >> 41u64) & 1u64 == 0u64 && (x >> 42u64) & 1u64 == 0u64 && (x >> 43u64) & 1u64 == 0u64 && (x >> 44u64) & 1u64 == 0u64 && (x >> 45u64) & 1u64 == 0u64 && (x >> 46u64) & 1u64 == 0u64 && (x >> 47u64) & 1u64 == 0u64 && (x >> 48u64) & 1u64 == 0u64 && (x >> 49u64) & 1u64 == 0u64 && (x >> 50u64) & 1u64 == 0u64 && (x >> 51u64) & 1u64 == 0u64 && (x >> 52u64) & 1u64 == 0u64 && (x >> 53u64) & 1u64 == 0u64 && (x >> 54u64) & 1u64 == 0u64 && (x >> 55u64) & 1u64 == 0u64 && (x >> 56u64) & 1u64 == 0u64 && (x >> 57u64) & 1u64 == 0u64 && (x >> 58u64) & 1u64 == 0u64 && (x >> 59u64) & 1u64 == 0u64 && (x >> 60u64) & 1u64 == 0u64 && (x >> 61u64) & 1u64 == 0u64 && (x >> 62u64) & 1u64 == 0u64 && (x >> 63u64) & 1u64 == 0u64,
    ;
}

} // verus!
