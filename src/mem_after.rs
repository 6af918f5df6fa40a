//! The final-memory table: the rows of a segment's ending memory image,
//! padded to a power-of-two height and laid out by columns.

use vstd::prelude::*;

verus! {

/// The column that tells real rows (one) from padding (zero).
pub const FILTER: usize = 0;

/// The column of the address's context.
pub const ADDR_CONTEXT: usize = 1;

/// The column of the address's segment.
pub const ADDR_SEGMENT: usize = 2;

/// The column of the address's offset.
pub const ADDR_VIRTUAL: usize = 3;

/// The number of 32-bit limbs of a value.
pub const VALUE_LIMBS: usize = 8;

/// The number of columns of the table.
pub const NUM_COLUMNS: usize = 12;

/// The fewest rows the table has.
pub const MIN_ROWS: usize = 16;

/// The column of limb `i` of the value, least significant first.
pub fn value_limb(i: usize) -> (r: usize)
    requires
        i < VALUE_LIMBS,
    ensures
        r == ADDR_VIRTUAL + 1 + i,
        r < NUM_COLUMNS,
{
    ADDR_VIRTUAL + 1 + i
}

/// Whether `x` is a power of two.
pub open spec fn is_power_of_two(x: nat) -> bool
    decreases x,
{
    if x <= 1 {
        x == 1
    } else {
        x % 2 == 0 && is_power_of_two(x / 2)
    }
}

/// Whether `len` is the height of a table of `n` real rows: the least power
/// of two that is at least `n` and at least `MIN_ROWS`.
pub open spec fn is_padded_height(n: nat, len: nat) -> bool {
    &&& is_power_of_two(len)
    &&& len >= n
    &&& len >= MIN_ROWS
    &&& (len == MIN_ROWS || len / 2 < n)
}

/// The entry of the padded table at `row`, `col`: the given value for a real
/// row, zero for a padding row.
pub open spec fn padded_entry(rows: Seq<Vec<u64>>, row: int, col: int) -> u64 {
    if row < rows.len() {
        rows[row]@[col]
    } else {
        0
    }
}

/// Returns the height of a table of `n` real rows.
pub fn padded_height(n: usize) -> (r: usize)
    requires
        n <= usize::MAX / 2 + 1,
    ensures
        is_padded_height(n as nat, r as nat),
{
    let mut p: usize = MIN_ROWS;
    assert(is_power_of_two(16)) by {
        reveal_with_fuel(is_power_of_two, 6);
    }
    while p < n
        invariant
            is_power_of_two(p as nat),
            p >= MIN_ROWS,
            n <= usize::MAX / 2 + 1,
            p == MIN_ROWS || p / 2 < n,
        decreases usize::MAX - p,
    {
        assert(is_power_of_two((p * 2) as nat));
        p = p * 2;
    }
    p
}

/// The table of final memory values.
#[derive(Clone, Copy, Debug, PartialEq, Eq, Structural)]
pub struct MemAfterStark {}

impl MemAfterStark {
    pub fn new() -> (r: MemAfterStark) {
        MemAfterStark {  }
    }

    /// Returns the trace by columns: the rows of `final_values`, each of
    /// `NUM_COLUMNS` entries, followed by zero rows up to the padded height.
    pub fn generate_trace(&self, final_values: &Vec<Vec<u64>>) -> (r: Vec<Vec<u64>>)
        requires
            final_values@.len() <= usize::MAX / 2 + 1,
            forall|j: int|
                0 <= j < final_values@.len() ==> (#[trigger] final_values@[j])@.len() == NUM_COLUMNS,
        ensures
            r@.len() == NUM_COLUMNS,
            forall|i: int|
                0 <= i < NUM_COLUMNS ==> is_padded_height(
                    final_values@.len() as nat,
                    (#[trigger] r@[i])@.len() as nat,
                ),
            forall|i: int, j: int|
                0 <= i < NUM_COLUMNS && 0 <= j < r@[i]@.len() ==> #[trigger] r@[i]@[j]
                    == padded_entry(final_values@, j, i),
    {
        let num_rows = final_values.len();
        let height = padded_height(num_rows);
        let mut cols: Vec<Vec<u64>> = Vec::new();
        let mut i: usize = 0;
        while i < NUM_COLUMNS
            invariant
                num_rows == final_values@.len(),
                is_padded_height(num_rows as nat, height as nat),
                forall|j: int|
                    0 <= j < final_values@.len() ==> (#[trigger] final_values@[j])@.len()
                        == NUM_COLUMNS,
                i <= NUM_COLUMNS,
                cols@.len() == i,
                forall|c: int| 0 <= c < i ==> (#[trigger] cols@[c])@.len() == height,
                forall|c: int, j: int|
                    0 <= c < i && 0 <= j < height ==> #[trigger] cols@[c]@[j] == padded_entry(
                        final_values@,
                        j,
                        c,
                    ),
            decreases NUM_COLUMNS - i,
        {
            let mut col: Vec<u64> = Vec::new();
            let mut j: usize = 0;
            while j < height
                invariant
                    num_rows == final_values@.len(),
                    forall|k: int|
                        0 <= k < final_values@.len() ==> (#[trigger] final_values@[k])@.len()
                            == NUM_COLUMNS,
                    i < NUM_COLUMNS,
                    j <= height,
                    col@.len() == j,
                    forall|k: int| 0 <= k < j ==> #[trigger] col@[k] == padded_entry(
                        final_values@,
                        k,
                        i as int,
                    ),
                decreases height - j,
            {
                if j < num_rows {
                    col.push(final_values[j][i]);
                } else {
                    col.push(0);
                }
                j = j + 1;
            }
            cols.push(col);
            i = i + 1;
        }
        cols
    }

    /// The columns that the cross-table lookup reads: the address, then the value limbs.
    pub fn ctl_data() -> (r: Vec<usize>)
        ensures
            r@ == seq![ADDR_CONTEXT, ADDR_SEGMENT, ADDR_VIRTUAL, 4usize, 5usize, 6usize, 7usize, 8usize, 9usize, 10usize, 11usize],
    {
        let mut res: Vec<usize> = vec![ADDR_CONTEXT, ADDR_SEGMENT, ADDR_VIRTUAL];
        let mut i: usize = 0;
        while i < VALUE_LIMBS
            invariant
                i <= VALUE_LIMBS,
                res@.len() == 3 + i,
                res@[0] == ADDR_CONTEXT && res@[1] == ADDR_SEGMENT && res@[2] == ADDR_VIRTUAL,
                forall|k: int| 3 <= k < 3 + i ==> #[trigger] res@[k] == k + 1,
            decreases VALUE_LIMBS - i,
        {
            res.push(value_limb(i));
            i = i + 1;
        }
        assert(res@ =~= seq![ADDR_CONTEXT, ADDR_SEGMENT, ADDR_VIRTUAL, 4usize, 5usize, 6usize, 7usize, 8usize, 9usize, 10usize, 11usize]);
        res
    }

    /// The column that selects the rows the lookup reads.
    pub fn ctl_filter() -> (r: usize)
        ensures
            r == FILTER,
    {
        FILTER
    }

    /// The highest degree of the table's constraints.
    pub fn constraint_degree(&self) -> (r: usize)
        ensures
            r == 3,
    {
        3
    }
}

} // verus!
