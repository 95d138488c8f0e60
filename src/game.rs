//! The simulation engine: the live cells, the history of earlier generations,
//! and the rules that step between them.

use vstd::prelude::*;

use crate::grid::{GridBounds, Position};
use crate::input::InputAction;
use crate::store::{CellMap, cells_of, cell_at, insert_cell, new_cell_map, remove_cell};

verus! {

/// How many earlier generations are kept for rewinding.
pub const MAX_HISTORY_SIZE: usize = 32;

/// A live cell and the number of generations it has survived.
#[derive(Clone, Copy, PartialEq, Eq, Structural, Debug)]
pub struct Cell {
    pub alive: bool,
    pub age: u64,
}

impl Cell {
    fn new(alive: bool, age: u64) -> (r: Cell)
        ensures
            r == (Cell { alive, age }),
    {
        Cell { alive, age }
    }

    /// A cell that has just come alive.
    pub open spec fn fresh() -> Cell {
        Cell { alive: true, age: 0 }
    }
}

impl Default for Cell {
    fn default() -> (r: Cell)
        ensures
            r == Cell::fresh(),
    {
        Cell::new(true, 0)
    }
}

/// A mapping from position keys to the cells stored there.
pub type Cells = Map<(i32, i32), Cell>;

/// Whether a live cell is stored under `k`.
pub open spec fn alive_in(m: Cells, k: (i32, i32)) -> bool {
    m.dom().contains(k) && m[k].alive
}

/// The offsets of a cell's neighborhood: its eight neighbors, then the cell itself.
pub open spec fn neighborhood_offset(i: int) -> (int, int) {
    if i == 0 {
        (0, 1)
    } else if i == 1 {
        (1, 1)
    } else if i == 2 {
        (1, 0)
    } else if i == 3 {
        (1, -1)
    } else if i == 4 {
        (0, -1)
    } else if i == 5 {
        (-1, -1)
    } else if i == 6 {
        (-1, 0)
    } else if i == 7 {
        (-1, 1)
    } else {
        (0, 0)
    }
}

/// The number of live cells among the first `n` neighborhood offsets of `k`,
/// each offset wrapped onto the torus.
pub open spec fn live_count(m: Cells, b: GridBounds, k: (i32, i32), n: nat) -> nat
    decreases n,
{
    if n == 0 {
        0
    } else {
        let off = neighborhood_offset(n - 1);
        let q = b.wrap_spec(k.0 + off.0, k.1 + off.1);
        live_count(m, b, k, (n - 1) as nat) + if alive_in(m, q) {
            1nat
        } else {
            0nat
        }
    }
}

/// The live cells in the 3x3 block around `k`, the cell itself included.
pub open spec fn neighborhood_count(m: Cells, b: GridBounds, k: (i32, i32)) -> nat {
    live_count(m, b, k, 9)
}

/// The cell stored under `k` one generation on, one generation older.
pub open spec fn aged(m: Cells, k: (i32, i32)) -> Cell {
    Cell { alive: m[k].alive, age: (m[k].age + 1) as u64 }
}

/// The cell at `k` in the next generation: a count of three keeps or brings
/// life, a count of four keeps the cell as it was, any other count leaves it
/// dead.
pub open spec fn next_cell(m: Cells, b: GridBounds, k: (i32, i32)) -> Option<Cell> {
    let c = neighborhood_count(m, b, k);
    if c == 3 {
        if m.dom().contains(k) {
            Some(aged(m, k))
        } else {
            Some(Cell::fresh())
        }
    } else if c == 4 && m.dom().contains(k) {
        Some(aged(m, k))
    } else {
        None
    }
}

/// The cells of the next generation, over every position of the bounds.
pub open spec fn next_generation(m: Cells, b: GridBounds) -> Cells {
    Map::new(|k: (i32, i32)| b.contains(k) && next_cell(m, b, k) is Some, |k: (i32, i32)| next_cell(m, b, k)->0)
}

/// The part of the next generation at positions before `(x, y)` in row order.
pub open spec fn next_generation_before(m: Cells, b: GridBounds, x: int, y: int) -> Cells {
    Map::new(
        |k: (i32, i32)|
            b.contains(k) && (k.1 < y || (k.1 == y && k.0 < x)) && next_cell(m, b, k) is Some,
        |k: (i32, i32)| next_cell(m, b, k)->0,
    )
}

/// Every cell of `m` is alive and no older than `limit`.
pub open spec fn cells_wf(m: Cells, limit: int) -> bool {
    forall|k: (i32, i32)| #[trigger] m.dom().contains(k) ==> m[k].alive && m[k].age <= limit
}

/// The state of the engine as mathematical values.
pub struct LifeView {
    pub bounds: GridBounds,
    pub cells: Cells,
    /// Earlier generations, the most recent first.
    pub history: Seq<Cells>,
    pub generation: int,
}

impl LifeView {
    pub open spec fn wf(self) -> bool {
        &&& self.bounds.centered()
        &&& self.history.len() <= MAX_HISTORY_SIZE
        &&& self.history.len() <= self.generation <= u64::MAX
        &&& cells_wf(self.cells, self.generation)
        &&& forall|i: int|
            0 <= i < self.history.len() ==> cells_wf(
                #[trigger] self.history[i],
                self.generation - 1 - i,
            )
    }
}

/// One step: the next generation replaces the cells, the cells before the
/// step go to the front of the history, and the oldest entry is dropped
/// first when the history is full.
pub open spec fn advanced(v: LifeView) -> LifeView {
    let kept = if v.history.len() >= MAX_HISTORY_SIZE {
        v.history.drop_last()
    } else {
        v.history
    };
    LifeView {
        bounds: v.bounds,
        cells: next_generation(v.cells, v.bounds),
        history: seq![v.cells] + kept,
        generation: v.generation + 1,
    }
}

/// One step back: the most recent history entry becomes the cells again. With
/// no history nothing changes.
pub open spec fn rewound(v: LifeView) -> LifeView {
    if v.history.len() == 0 {
        v
    } else {
        LifeView {
            bounds: v.bounds,
            cells: v.history[0],
            history: v.history.drop_first(),
            generation: v.generation - 1,
        }
    }
}

/// A dead cell at `k` comes alive, fresh; a live one is removed.
pub open spec fn toggled(m: Cells, k: (i32, i32)) -> Cells {
    if m.dom().contains(k) {
        m.remove(k)
    } else {
        m.insert(k, Cell::fresh())
    }
}

/// The state of the simulation.
pub struct Life {
    pub bounds: GridBounds,
    /// Earlier generations, the most recent first.
    pub history: std::collections::VecDeque<CellMap>,
    pub cells: CellMap,
    pub generation: u64,
}

impl View for Life {
    type V = LifeView;

    open spec fn view(&self) -> LifeView {
        LifeView {
            bounds: self.bounds,
            cells: cells_of(self.cells),
            history: self.history@.map_values(|m: CellMap| cells_of(m)),
            generation: self.generation as int,
        }
    }
}

fn neighborhood_offset_exec(i: usize) -> (r: (i32, i32))
    requires
        i < 9,
    ensures
        (r.0 as int, r.1 as int) == neighborhood_offset(i as int),
{
    match i {
        0 => (0, 1),
        1 => (1, 1),
        2 => (1, 0),
        3 => (1, -1),
        4 => (0, -1),
        5 => (-1, -1),
        6 => (-1, 0),
        7 => (-1, 1),
        _ => (0, 0),
    }
}

impl Life {
    pub open spec fn wf(&self) -> bool {
        self@.wf()
    }

    /// An empty simulation on a grid `width` by `height` centered at the origin.
    pub fn new(width: u32, height: u32) -> (r: Life)
        requires
            width > 0,
            height > 0,
        ensures
            r.wf(),
            r@.bounds.max.x == width / 2,
            r@.bounds.max.y == height / 2,
            r@.bounds.min.x == -(width / 2),
            r@.bounds.min.y == -(height / 2),
            r@.cells == Map::<(i32, i32), Cell>::empty(),
            r@.history == Seq::<Cells>::empty(),
            r@.generation == 0,
    {
        let r = Life {
            bounds: GridBounds::new(width, height),
            cells: new_cell_map(),
            history: std::collections::VecDeque::with_capacity(MAX_HISTORY_SIZE),
            generation: 0,
        };
        assert(r@.history =~= Seq::<Cells>::empty());
        r
    }

    /// The number of live cells in the 3x3 block around `pt`, `pt` included,
    /// each position wrapped onto the torus.
    fn neighborhood_count(&self, pt: Position) -> (r: u32)
        requires
            self.bounds.centered(),
            self.bounds.contains(pt.key()),
        ensures
            r == neighborhood_count(self@.cells, self.bounds, pt.key()),
    {
        let mut count: u32 = 0;
        let mut i: usize = 0;
        while i < 9
            invariant
                i <= 9,
                count <= i,
                self.bounds.centered(),
                self.bounds.contains(pt.key()),
                count == live_count(self@.cells, self.bounds, pt.key(), i as nat),
            decreases 9 - i,
        {
            let off = neighborhood_offset_exec(i);
            let q = self.bounds.wrap(Position::new(pt.x + off.0, pt.y + off.1));
            if let Some(cell) = cell_at(&self.cells, (q.x, q.y)) {
                if cell.alive {
                    count = count + 1;
                }
            }
            i = i + 1;
        }
        count
    }

    /// The cells of the next generation, computed over every position of the
    /// bounds.
    fn next_generation(&self) -> (r: CellMap)
        requires
            self.bounds.centered(),
            cells_wf(self@.cells, self.generation as int),
            self.generation < u64::MAX,
        ensures
            cells_of(r) == next_generation(self@.cells, self.bounds),
    {
        let ghost m = self@.cells;
        let ghost b = self.bounds;
        let mut next = new_cell_map();
        let min_x = self.bounds.min.x;
        let max_x = self.bounds.max.x;
        let min_y = self.bounds.min.y;
        let max_y = self.bounds.max.y;
        let mut y = min_y;
        while y < max_y
            invariant
                b == self.bounds,
                m == self@.cells,
                cells_wf(m, self.generation as int),
                self.generation < u64::MAX,
                b.centered(),
                min_x == b.min.x,
                max_x == b.max.x,
                min_y == b.min.y,
                max_y == b.max.y,
                min_y <= y <= max_y,
                cells_of(next) == next_generation_before(m, b, min_x as int, y as int),
            decreases max_y - y,
        {
            let mut x = min_x;
            while x < max_x
                invariant
                    b == self.bounds,
                    m == self@.cells,
                    cells_wf(m, self.generation as int),
                    self.generation < u64::MAX,
                    b.centered(),
                    min_x == b.min.x,
                    max_x == b.max.x,
                    min_y == b.min.y,
                    max_y == b.max.y,
                    min_y <= y < max_y,
                    min_x <= x <= max_x,
                    cells_of(next) == next_generation_before(m, b, x as int, y as int),
                decreases max_x - x,
            {
                let pt = Position::new(x, y);
                let count = self.neighborhood_count(pt);
                if count == 3 {
                    // The cell at `pt` stays alive or comes alive.
                    match cell_at(&self.cells, (x, y)) {
                        Some(cell) => insert_cell(&mut next, (x, y), Cell::new(cell.alive, cell.age + 1)),
                        None => insert_cell(&mut next, (x, y), Cell::default()),
                    }
                } else if count == 4 {
                    // The cell at `pt` stays as it was.
                    if let Some(cell) = cell_at(&self.cells, (x, y)) {
                        insert_cell(&mut next, (x, y), Cell::new(cell.alive, cell.age + 1));
                    }
                }
                assert(cells_of(next) =~= next_generation_before(m, b, x + 1, y as int));
                x = x + 1;
            }
            assert(next_generation_before(m, b, x as int, y as int) =~= next_generation_before(
                m,
                b,
                min_x as int,
                y + 1,
            ));
            y = y + 1;
        }
        assert(next_generation_before(m, b, min_x as int, y as int) =~= next_generation(m, b));
        next
    }

    /// Steps the simulation one generation forward.
    pub fn advance(&mut self)
        requires
            old(self).wf(),
            old(self).generation < u64::MAX,
        ensures
            final(self).wf(),
            final(self)@ == advanced(old(self)@),
    {
        let ghost v = self@;
        let mut next = self.next_generation();
        proof {
            let g = v.generation;
            assert forall|k: (i32, i32)| #[trigger] cells_of(next).dom().contains(k) implies cells_of(
                next,
            )[k].alive && cells_of(next)[k].age <= g + 1 by {
                if v.cells.dom().contains(k) {
                    assert(v.cells[k].alive && v.cells[k].age <= g);
                }
            }
        }
        if self.history.len() >= MAX_HISTORY_SIZE {
            self.history.pop_back();
        }
        std::mem::swap(&mut self.cells, &mut next);
        self.history.push_front(next);
        self.generation = self.generation + 1;
        proof {
            let w = advanced(v);
            assert(self@.history =~= w.history);
            assert forall|i: int| 0 <= i < self@.history.len() implies cells_wf(
                #[trigger] self@.history[i],
                self@.generation - 1 - i,
            ) by {
                if i > 0 {
                    assert(self@.history[i] == v.history[i - 1]);
                }
            }
        }
    }

    /// Steps the simulation one generation back, to the most recent entry of
    /// the history. Returns false, and changes nothing, when the history is
    /// empty.
    pub fn rewind(&mut self) -> (r: bool)
        requires
            old(self).wf(),
        ensures
            final(self).wf(),
            final(self)@ == rewound(old(self)@),
            r == (old(self)@.history.len() > 0),
            !r ==> final(self)@ == old(self)@,
    {
        let ghost v = self@;
        match self.history.pop_front() {
            Some(prev) => {
                self.cells = prev;
                self.generation = self.generation - 1;
                proof {
                    assert(self@.history =~= v.history.drop_first());
                    assert(self@.cells == v.history[0]);
                    assert forall|i: int| 0 <= i < self@.history.len() implies cells_wf(
                        #[trigger] self@.history[i],
                        self@.generation - 1 - i,
                    ) by {
                        assert(self@.history[i] == v.history[i + 1]);
                    }
                }
                true
            },
            None => false,
        }
    }

    /// Brings a dead cell at `pos` to life, fresh, or removes a live one.
    /// Positions outside the bounds are stored as they are.
    pub fn toggle(&mut self, pos: Position)
        requires
            old(self).wf(),
        ensures
            final(self).wf(),
            final(self)@ == (LifeView { cells: toggled(old(self)@.cells, pos.key()), ..old(self)@ }),
    {
        let ghost v = self@;
        if remove_cell(&mut self.cells, (pos.x, pos.y)).is_none() {
            insert_cell(&mut self.cells, (pos.x, pos.y), Cell::default());
        }
        assert(self@.history =~= v.history);
        assert(self@.cells =~= toggled(v.cells, pos.key()));
    }

    /// The cell stored at `pos`, if one is alive there.
    pub fn get(&self, pos: Position) -> (r: Option<Cell>)
        ensures
            r == (if self@.cells.dom().contains(pos.key()) {
                Some(self@.cells[pos.key()])
            } else {
                None
            }),
    {
        cell_at(&self.cells, (pos.x, pos.y))
    }

    /// The number of generations stepped forward, less those stepped back.
    pub fn generation(&self) -> (r: u64)
        ensures
            r == self@.generation,
    {
        self.generation
    }

    /// The number of earlier generations that can be rewound to.
    pub fn history_depth(&self) -> (r: usize)
        ensures
            r == self@.history.len(),
    {
        self.history.len()
    }

    pub fn bounds(&self) -> (r: GridBounds)
        ensures
            r == self@.bounds,
    {
        self.bounds
    }
}

/// `n` steps forward from `v`.
pub open spec fn advanced_times(v: LifeView, n: nat) -> LifeView
    decreases n,
{
    if n == 0 {
        v
    } else {
        advanced(advanced_times(v, (n - 1) as nat))
    }
}

/// Toggling a position twice gives back its alive flag, and leaves every other
/// position as it was. A cell that was alive comes back fresh, its age lost.
pub proof fn toggle_twice_restores(v: LifeView, k: (i32, i32))
    requires
        v.wf(),
    ensures
        alive_in(toggled(toggled(v.cells, k), k), k) == alive_in(v.cells, k),
        v.cells.dom().contains(k) ==> toggled(toggled(v.cells, k), k) == v.cells.insert(
            k,
            Cell::fresh(),
        ),
        !v.cells.dom().contains(k) ==> toggled(toggled(v.cells, k), k) == v.cells,
{
    let m = v.cells;
    if m.dom().contains(k) {
        assert(toggled(toggled(m, k), k) =~= m.insert(k, Cell::fresh()));
    } else {
        assert(toggled(toggled(m, k), k) =~= m);
    }
}

/// Stepping forward and then back gives back the cells and the generation. The
/// history comes back too, short of its oldest entry when it was full.
pub proof fn rewind_undoes_advance(v: LifeView)
    requires
        v.wf(),
    ensures
        rewound(advanced(v)).cells == v.cells,
        rewound(advanced(v)).generation == v.generation,
        rewound(advanced(v)).bounds == v.bounds,
        v.history.len() < MAX_HISTORY_SIZE ==> rewound(advanced(v)).history == v.history,
        v.history.len() == MAX_HISTORY_SIZE ==> rewound(advanced(v)).history
            == v.history.drop_last(),
{
    let w = advanced(v);
    assert(w.history.drop_first() =~= w.history.subrange(1, w.history.len() as int));
    if v.history.len() < MAX_HISTORY_SIZE {
        assert(w.history.drop_first() =~= v.history);
    } else {
        assert(w.history.drop_first() =~= v.history.drop_last());
    }
}

/// After `n` steps the history holds `MAX_HISTORY_SIZE` entries at most, and
/// its entries are the cells before each of the most recent steps, the latest
/// first.
pub proof fn history_keeps_latest(v: LifeView, n: nat)
    requires
        v.wf(),
    ensures
        advanced_times(v, n).history.len() == if v.history.len() + n < MAX_HISTORY_SIZE {
            v.history.len() + n
        } else {
            MAX_HISTORY_SIZE as nat
        },
        forall|i: int|
            0 <= i < n && i < MAX_HISTORY_SIZE ==> #[trigger] advanced_times(v, n).history[i]
                == advanced_times(v, (n - 1 - i) as nat).cells,
    decreases n,
{
    if n > 0 {
        let p = (n - 1) as nat;
        history_keeps_latest(v, p);
        let prev = advanced_times(v, p);
        let cur = advanced_times(v, n);
        assert(cur == advanced(prev));
        assert forall|i: int| 0 <= i < n && i < MAX_HISTORY_SIZE implies #[trigger] cur.history[i]
            == advanced_times(v, (n - 1 - i) as nat).cells by {
            if i > 0 {
                assert(cur.history[i] == prev.history[i - 1]);
                assert(prev.history[i - 1] == advanced_times(v, (p - 1 - (i - 1)) as nat).cells);
            }
        }
    }
}


/// `n` steps back from `v`.
pub open spec fn rewound_times(v: LifeView, n: nat) -> LifeView
    decreases n,
{
    if n == 0 {
        v
    } else {
        rewound(rewound_times(v, (n - 1) as nat))
    }
}

/// How many times `a` occurs in `acts`.
pub open spec fn count_of(acts: Seq<InputAction>, a: InputAction) -> nat
    decreases acts.len(),
{
    if acts.len() == 0 {
        0
    } else {
        count_of(acts.drop_last(), a) + if acts.last() == a {
            1nat
        } else {
            0nat
        }
    }
}

/// The cells after each cell toggle of `acts`, in order.
pub open spec fn toggled_all(m: Cells, acts: Seq<InputAction>) -> Cells
    decreases acts.len(),
{
    if acts.len() == 0 {
        m
    } else {
        let before = toggled_all(m, acts.drop_last());
        match acts.last() {
            InputAction::ToggleCell(p) => toggled(before, p.key()),
            _ => before,
        }
    }
}

proof fn advanced_times_generation(v: LifeView, n: nat)
    ensures
        advanced_times(v, n).generation == v.generation + n,
        advanced_times(v, n).bounds == v.bounds,
    decreases n,
{
    if n > 0 {
        advanced_times_generation(v, (n - 1) as nat);
    }
}

proof fn rewound_times_settles(v: LifeView, a: nat, b: nat)
    requires
        a <= b,
        rewound_times(v, a).history.len() == 0,
    ensures
        rewound_times(v, b) == rewound_times(v, a),
    decreases b,
{
    if b > a {
        rewound_times_settles(v, a, (b - 1) as nat);
    }
}

/// Steps the simulation forward once for each advance command of the frame.
pub fn advance_simulation(life: &mut Life, actions: &[InputAction])
    requires
        old(life).wf(),
        old(life)@.generation + count_of(actions@, InputAction::AdvanceSimulation) <= u64::MAX,
    ensures
        final(life).wf(),
        final(life)@ == advanced_times(
            old(life)@,
            count_of(actions@, InputAction::AdvanceSimulation),
        ),
{
    let ghost v = life@;
    let ghost a = InputAction::AdvanceSimulation;
    let mut i: usize = 0;
    while i < actions.len()
        invariant
            i <= actions@.len(),
            a == InputAction::AdvanceSimulation,
            life.wf(),
            v.generation + count_of(actions@, a) <= u64::MAX,
            life@ == advanced_times(v, count_of(actions@.subrange(0, i as int), a)),
        decreases actions@.len() - i,
    {
        proof {
            let pre = actions@.subrange(0, i as int);
            let post = actions@.subrange(0, i + 1);
            assert(post.drop_last() =~= pre);
            assert(post.last() == actions@[i as int]);
            assert(count_of(post, a) == count_of(pre, a) + if actions@[i as int] == a {
                1nat
            } else {
                0nat
            });
            count_prefix_bound(actions@, a, i + 1);
            advanced_times_generation(v, count_of(pre, a));
        }
        if let InputAction::AdvanceSimulation = actions[i] {
            life.advance();
        }
        i = i + 1;
    }
    assert(actions@.subrange(0, i as int) =~= actions@);
}

proof fn count_prefix_bound(acts: Seq<InputAction>, a: InputAction, n: int)
    requires
        0 <= n <= acts.len(),
    ensures
        count_of(acts.subrange(0, n), a) <= count_of(acts, a),
    decreases acts.len() - n,
{
    if n < acts.len() {
        count_prefix_bound(acts, a, n + 1);
        assert(acts.subrange(0, n + 1).drop_last() =~= acts.subrange(0, n));
    } else {
        assert(acts.subrange(0, n) =~= acts);
    }
}

/// Steps the simulation back once for each rewind command of the frame, and
/// stops at the first that finds the history empty.
pub fn rewind_simulation(life: &mut Life, actions: &[InputAction])
    requires
        old(life).wf(),
    ensures
        final(life).wf(),
        final(life)@ == rewound_times(old(life)@, count_of(actions@, InputAction::RewindSimulation)),
{
    let ghost v = life@;
    let ghost a = InputAction::RewindSimulation;
    let mut i: usize = 0;
    while i < actions.len()
        invariant
            i <= actions@.len(),
            a == InputAction::RewindSimulation,
            v == old(life)@,
            life.wf(),
            life@ == rewound_times(v, count_of(actions@.subrange(0, i as int), a)),
        decreases actions@.len() - i,
    {
        proof {
            let pre = actions@.subrange(0, i as int);
            let post = actions@.subrange(0, i + 1);
            assert(post.drop_last() =~= pre);
            assert(post.last() == actions@[i as int]);
            assert(count_of(post, a) == count_of(pre, a) + if actions@[i as int] == a {
                1nat
            } else {
                0nat
            });
        }
        if let InputAction::RewindSimulation = actions[i] {
            let ghost prev = life@;
            if !life.rewind() {
                proof {
                    assert(prev.history.len() == 0);
                    assert(life@ == prev);
                    count_prefix_bound(actions@, a, i as int);
                    rewound_times_settles(
                        v,
                        count_of(actions@.subrange(0, i as int), a),
                        count_of(actions@, a),
                    );
                }
                return;
            }
        }
        i = i + 1;
    }
    assert(actions@.subrange(0, i as int) =~= actions@);
}

/// Toggles the cell of each toggle command of the frame, in order.
pub fn toggle_cell(life: &mut Life, actions: &[InputAction])
    requires
        old(life).wf(),
    ensures
        final(life).wf(),
        final(life)@ == (LifeView { cells: toggled_all(old(life)@.cells, actions@), ..old(life)@ }),
{
    let ghost v = life@;
    let mut i: usize = 0;
    while i < actions.len()
        invariant
            i <= actions@.len(),
            life.wf(),
            life@ == (LifeView { cells: toggled_all(v.cells, actions@.subrange(0, i as int)), ..v }),
        decreases actions@.len() - i,
    {
        proof {
            let post = actions@.subrange(0, i + 1);
            assert(post.drop_last() =~= actions@.subrange(0, i as int));
            assert(post.last() == actions@[i as int]);
        }
        if let InputAction::ToggleCell(pos) = actions[i] {
            life.toggle(pos);
        }
        i = i + 1;
    }
    assert(actions@.subrange(0, i as int) =~= actions@);
}


/// `m` with the "butterfly" seed: a vertical bar of seven fresh cells through
/// the origin, and one fresh cell on each side of its middle.
pub open spec fn butterfly(m: Cells) -> Cells {
    let f = Cell::fresh();
    m.insert((0i32, 3i32), f).insert((0i32, 2i32), f).insert((0i32, 1i32), f).insert(
        (0i32, 0i32),
        f,
    ).insert((0i32, -1i32), f).insert((0i32, -2i32), f).insert((0i32, -3i32), f).insert(
        (1i32, 0i32),
        f,
    ).insert((-1i32, 0i32), f)
}

/// Seeds the simulation with the "butterfly" pattern.
pub fn setup_simulation(life: &mut Life)
    requires
        old(life).wf(),
    ensures
        final(life).wf(),
        final(life)@ == (LifeView { cells: butterfly(old(life)@.cells), ..old(life)@ }),
{
    let ghost v = life@;
    insert_cell(&mut life.cells, (0, 3), Cell::default());
    insert_cell(&mut life.cells, (0, 2), Cell::default());
    insert_cell(&mut life.cells, (0, 1), Cell::default());
    insert_cell(&mut life.cells, (0, 0), Cell::default());
    insert_cell(&mut life.cells, (0, -1), Cell::default());
    insert_cell(&mut life.cells, (0, -2), Cell::default());
    insert_cell(&mut life.cells, (0, -3), Cell::default());

    insert_cell(&mut life.cells, (1, 0), Cell::default());
    insert_cell(&mut life.cells, (-1, 0), Cell::default());
    assert(life@.history =~= v.history);
}

} // verus!
