use vstd::prelude::*;

verus! {

/// A square boolean mask over `size` positions: cell `(i, j)` is set when key
/// position `j` comes after query position `i`, so that the score there is blocked.
#[derive(Clone, Debug)]
pub struct CausalMask {
    pub size: usize,
    pub cells: Vec<Vec<bool>>,
}

impl CausalMask {
    /// The cell for query `i` and key `j`.
    pub open spec fn cell(&self, i: int, j: int) -> bool {
        self.cells@[i]@[j]
    }

    pub open spec fn wf(&self) -> bool {
        &&& self.cells@.len() == self.size
        &&& forall|i: int| 0 <= i < self.size ==> #[trigger] self.cells@[i]@.len() == self.size
        &&& forall|i: int, j: int|
            0 <= i < self.size && 0 <= j < self.size ==> #[trigger] self.cell(i, j) == (j > i)
    }

    /// The upper-triangular mask, diagonal excluded, for `size` positions.
    pub fn new(size: usize) -> (m: CausalMask)
        ensures
            m.wf(),
            m.size == size,
    {
        let mut cells: Vec<Vec<bool>> = Vec::new();
        let mut i: usize = 0;
        while i < size
            invariant
                i <= size,
                cells@.len() == i,
                forall|a: int| 0 <= a < i ==> #[trigger] cells@[a]@.len() == size,
                forall|a: int, b: int|
                    0 <= a < i && 0 <= b < size ==> #[trigger] cells@[a]@[b] == (b > a),
            decreases size - i,
        {
            let mut row: Vec<bool> = Vec::new();
            let mut j: usize = 0;
            while j < size
                invariant
                    j <= size,
                    i < size,
                    row@.len() == j,
                    forall|b: int| 0 <= b < j ==> #[trigger] row@[b] == (b > i),
                decreases size - j,
            {
                row.push(j > i);
                j = j + 1;
            }
            cells.push(row);
            i = i + 1;
        }
        CausalMask { size, cells }
    }

    /// Whether the score of query `i` against key `j` is blocked.
    pub fn is_masked(&self, i: usize, j: usize) -> (r: bool)
        requires
            self.wf(),
            i < self.size,
            j < self.size,
        ensures
            r == (j > i),
    {
        assert(self.cells@[i as int]@.len() == self.size);
        assert(self.cell(i as int, j as int) == (j > i));
        self.cells[i][j]
    }

    /// The leading `t` by `t` corner, for a call over `t` positions.
    pub fn slice(&self, t: usize) -> (m: CausalMask)
        requires
            self.wf(),
            t <= self.size,
        ensures
            m.wf(),
            m.size == t,
            forall|i: int, j: int| 0 <= i < t && 0 <= j < t ==> #[trigger] m.cell(i, j) == self.cell(i, j),
    {
        let mut cells: Vec<Vec<bool>> = Vec::new();
        let mut i: usize = 0;
        while i < t
            invariant
                self.wf(),
                t <= self.size,
                i <= t,
                cells@.len() == i,
                forall|a: int| 0 <= a < i ==> #[trigger] cells@[a]@.len() == t,
                forall|a: int, b: int|
                    0 <= a < i && 0 <= b < t ==> #[trigger] cells@[a]@[b] == self.cell(a, b),
            decreases t - i,
        {
            let mut row: Vec<bool> = Vec::new();
            let mut j: usize = 0;
            while j < t
                invariant
                    self.wf(),
                    t <= self.size,
                    i < t,
                    j <= t,
                    row@.len() == j,
                    forall|b: int| 0 <= b < j ==> #[trigger] row@[b] == self.cell(i as int, b),
                decreases t - j,
            {
                let cell = self.is_masked(i, j);
                row.push(cell);
                j = j + 1;
            }
            cells.push(row);
            i = i + 1;
        }
        let m = CausalMask { size: t, cells };
        assert forall|a: int, b: int| 0 <= a < t && 0 <= b < t implies #[trigger] m.cell(a, b) == (b > a) by {
            assert(m.cells@[a]@[b] == self.cell(a, b));
        }
        m
    }
}

/// No query position sees a later key: for every `i < j` within the mask, the
/// score of `i` against `j` is blocked, and every key at or before `i` is left open.
pub proof fn lemma_mask_blocks_exactly_the_future(m: CausalMask, i: int, j: int)
    requires
        m.wf(),
        0 <= i < m.size,
        0 <= j < m.size,
    ensures
        m.cell(i, j) <==> i < j,
{
}

} // verus!
