use vstd::prelude::*;

verus! {

/// The first row of interlace pass `pass`.
pub open spec fn interlaced_offset(pass: int) -> int {
    if pass == 0 { 0 } else if pass == 1 { 4 } else if pass == 2 { 2 } else { 1 }
}

/// The distance between two rows of interlace pass `pass`.
pub open spec fn interlaced_jump(pass: int) -> int {
    if pass <= 1 { 8 } else if pass == 2 { 4 } else { 2 }
}

/// `row` belongs to interlace pass `pass`.
pub open spec fn is_interlaced_row(pass: int, row: int) -> bool {
    &&& 0 <= pass < 4
    &&& row >= interlaced_offset(pass)
    &&& (row - interlaced_offset(pass)) % interlaced_jump(pass) == 0
}

/// The first row of the first pass, from `pass` on, that has a row within `height` rows.
pub open spec fn first_interlaced_row(pass: int, height: int) -> Option<(int, int)>
    decreases 4 - pass,
{
    if pass >= 4 {
        None
    } else if interlaced_offset(pass) < height {
        Some((pass, interlaced_offset(pass)))
    } else {
        first_interlaced_row(pass + 1, height)
    }
}

/// The row read after row `row` of pass `pass` in an image of `height` rows.
pub open spec fn next_interlaced_row(pass: int, row: int, height: int) -> Option<(int, int)> {
    if row + interlaced_jump(pass) < height {
        Some((pass, row + interlaced_jump(pass)))
    } else {
        first_interlaced_row(pass + 1, height)
    }
}

fn interlaced_offset_of(pass: usize) -> (r: i32)
    requires
        pass < 4,
    ensures
        r as int == interlaced_offset(pass as int),
{
    if pass == 0 { 0 } else if pass == 1 { 4 } else if pass == 2 { 2 } else { 1 }
}

fn interlaced_jump_of(pass: usize) -> (r: i32)
    requires
        pass < 4,
    ensures
        r as int == interlaced_jump(pass as int),
{
    if pass <= 1 { 8 } else if pass == 2 { 4 } else { 2 }
}

proof fn lemma_first_interlaced_row(pass: int, height: int)
    requires
        0 <= pass,
    ensures
        first_interlaced_row(pass, height) matches Some((p, r)) ==> pass <= p < 4 && r
            == interlaced_offset(p) && r < height && is_interlaced_row(p, r),
    decreases 4 - pass,
{
    if pass < 4 && interlaced_offset(pass) >= height {
        lemma_first_interlaced_row(pass + 1, height);
    }
}

pub(crate) proof fn lemma_next_interlaced_row(pass: int, row: int, height: int)
    requires
        is_interlaced_row(pass, row),
    ensures
        next_interlaced_row(pass, row, height) matches Some((p, r)) ==> pass <= p < 4 && r
            < height && is_interlaced_row(p, r),
{
    lemma_first_interlaced_row(pass + 1, height);
    let j = interlaced_jump(pass);
    let o = interlaced_offset(pass);
    assert((row + j - o) % j == 0) by (nonlinear_arith)
        requires
            j > 0,
            (row - o) % j == 0;
}

/// The row read after row `row` of pass `pass`, or `None` after the last row.
pub(crate) fn next_row(pass: usize, row: i32, height: i32) -> (r: Option<(usize, i32)>)
    requires
        pass < 4,
        0 <= row < height,
    ensures
        match r {
            Some((p, q)) => next_interlaced_row(pass as int, row as int, height as int)
                == Some((p as int, q as int)) && p < 4 && 0 <= q < height,
            None => next_interlaced_row(pass as int, row as int, height as int) is None,
        },
{
    let jump = interlaced_jump_of(pass);
    if row < height - jump {
        return Some((pass, row + jump));
    }
    let mut p: usize = pass + 1;
    while p < 4
        invariant
            pass < p <= 4,
            0 < height,
            0 <= row < height,
            next_interlaced_row(pass as int, row as int, height as int) == first_interlaced_row(
                p as int,
                height as int,
            ),
        decreases 4 - p,
    {
        let offset = interlaced_offset_of(p);
        if offset < height {
            return Some((p, offset));
        }
        p = p + 1;
    }
    None
}

/// How many rows of an image of `height` rows interlace pass `pass` holds.
pub open spec fn interlaced_pass_count(pass: int, height: int) -> int {
    if interlaced_offset(pass) < height {
        (height - interlaced_offset(pass) + interlaced_jump(pass) - 1) / interlaced_jump(pass)
    } else {
        0
    }
}

/// How many rows the passes before `pass` hold.
pub open spec fn interlaced_rows_before(pass: int, height: int) -> int
    decreases pass,
{
    if pass <= 0 {
        0
    } else {
        interlaced_rows_before(pass - 1, height) + interlaced_pass_count(pass - 1, height)
    }
}

/// The rows of interlace pass `pass`, in the order they are read.
pub open spec fn interlaced_pass_rows(pass: int, height: int) -> Seq<int> {
    Seq::new(
        interlaced_pass_count(pass, height) as nat,
        |k: int| interlaced_offset(pass) + k * interlaced_jump(pass),
    )
}

/// The rows of an interlaced image of `height` rows, in the order they are read.
pub open spec fn interlaced_order(height: int) -> Seq<int> {
    interlaced_pass_rows(0, height) + interlaced_pass_rows(1, height) + interlaced_pass_rows(2, height)
        + interlaced_pass_rows(3, height)
}

/// The interlace pass that reads `row`.
pub open spec fn interlaced_pass_of(row: int) -> int {
    if row % 8 == 0 {
        0
    } else if row % 8 == 4 {
        1
    } else if row % 4 == 2 {
        2
    } else {
        3
    }
}

/// The position of `row` among the rows of an interlaced image of `height` rows,
/// in reading order.
pub open spec fn interlaced_position(row: int, height: int) -> int {
    let pass = interlaced_pass_of(row);
    interlaced_rows_before(pass, height) + (row - interlaced_offset(pass)) / interlaced_jump(pass)
}

proof fn lemma_interlaced_pass_counts(height: int)
    requires
        height >= 0,
    ensures
        interlaced_pass_count(0, height) == height / 8 + if height % 8 > 0 { 1int } else { 0int },
        interlaced_pass_count(1, height) == height / 8 + if height % 8 > 4 { 1int } else { 0int },
        interlaced_pass_count(2, height) == 2 * (height / 8) + (if height % 8 > 2 { 1int } else { 0int })
            + (if height % 8 > 6 { 1int } else { 0int }),
        interlaced_pass_count(3, height) == 4 * (height / 8) + (height % 8) / 2,
{
    let q = height / 8;
    let r = height % 8;
    assert(height == 8 * q + r);
    assert(interlaced_pass_count(0, height) == q + if r > 0 { 1int } else { 0int }) by {
        if height > 0 {
            assert((height + 7) / 8 == q + (r + 7) / 8);
        }
    }
    assert(interlaced_pass_count(1, height) == q + if r > 4 { 1int } else { 0int }) by {
        if height > 4 {
            assert((height - 4 + 7) / 8 == q + (r + 3) / 8);
        }
    }
    assert(interlaced_pass_count(2, height) == 2 * q + (if r > 2 { 1int } else { 0int }) + (if r > 6 {
        1int
    } else {
        0int
    })) by {
        if height > 2 {
            assert((height - 2 + 3) / 4 == 2 * q + (r + 1) / 4);
        }
    }
    assert(interlaced_pass_count(3, height) == 4 * q + r / 2) by {
        if height > 1 {
            assert((height - 1 + 1) / 2 == 4 * q + r / 2);
        }
    }
}

proof fn lemma_interlaced_counts(height: int)
    requires
        height >= 0,
    ensures
        interlaced_rows_before(1, height) == interlaced_pass_count(0, height),
        interlaced_rows_before(2, height) == interlaced_rows_before(1, height) + interlaced_pass_count(1, height),
        interlaced_rows_before(3, height) == interlaced_rows_before(2, height) + interlaced_pass_count(2, height),
        interlaced_rows_before(4, height) == interlaced_rows_before(3, height) + interlaced_pass_count(3, height),
        interlaced_rows_before(4, height) == height,
        forall|p: int| 0 <= p < 4 ==> #[trigger] interlaced_pass_count(p, height) >= 0,
{
    reveal_with_fuel(interlaced_rows_before, 5);
    lemma_interlaced_pass_counts(height);
    let q = height / 8;
    let r = height % 8;
    assert(height == 8 * q + r);
    assert forall|p: int| 0 <= p < 4 implies #[trigger] interlaced_pass_count(p, height) >= 0 by {
        if p == 0 {
        } else if p == 1 {
        } else if p == 2 {
        } else {
        }
    }
}

proof fn lemma_interlaced_order_at(height: int, i: int)
    requires
        0 <= i < height,
    ensures
        0 <= interlaced_order(height)[i] < height,
        interlaced_position(interlaced_order(height)[i], height) == i,
{
    lemma_interlaced_counts(height);
    reveal_with_fuel(interlaced_rows_before, 5);
    let order = interlaced_order(height);
    let c0 = interlaced_pass_count(0, height);
    let c1 = interlaced_pass_count(1, height);
    let c2 = interlaced_pass_count(2, height);
    if i < c0 {
        let k = i;
        assert(order[i] == 8 * k);
        assert((8 * k) % 8 == 0);
        assert((8 * k) / 8 == k);
    } else if i < c0 + c1 {
        let k = i - c0;
        assert(order[i] == 4 + 8 * k);
        assert((4 + 8 * k) % 8 == 4);
        assert((8 * k) / 8 == k);
    } else if i < c0 + c1 + c2 {
        let k = i - c0 - c1;
        assert(order[i] == 2 + 4 * k);
        assert((2 + 4 * k) % 4 == 2);
        assert((2 + 4 * k) % 8 == 2 || (2 + 4 * k) % 8 == 6);
        assert((4 * k) / 4 == k);
    } else {
        let k = i - c0 - c1 - c2;
        assert(order[i] == 1 + 2 * k);
        assert((1 + 2 * k) % 2 == 1);
        assert((1 + 2 * k) % 4 == 1 || (1 + 2 * k) % 4 == 3);
        assert((1 + 2 * k) % 8 == 1 || (1 + 2 * k) % 8 == 3 || (1 + 2 * k) % 8 == 5 || (1 + 2 * k)
            % 8 == 7);
        assert((2 * k) / 2 == k);
    }
}

proof fn lemma_interlaced_position_of(height: int, row: int)
    requires
        0 <= row < height,
    ensures
        0 <= interlaced_position(row, height) < height,
        interlaced_order(height)[interlaced_position(row, height)] == row,
{
    lemma_interlaced_counts(height);
    reveal_with_fuel(interlaced_rows_before, 5);
    let c0 = interlaced_pass_count(0, height);
    let c1 = interlaced_pass_count(1, height);
    let c2 = interlaced_pass_count(2, height);
    let c3 = interlaced_pass_count(3, height);
    let p = interlaced_pass_of(row);
    if p == 0 {
        let k = row / 8;
        assert(row == 8 * k);
        assert(k < c0);
    } else if p == 1 {
        let k = (row - 4) / 8;
        assert(row == 4 + 8 * k);
        assert(k < c1);
    } else if p == 2 {
        let k = (row - 2) / 4;
        assert(row == 2 + 4 * k);
        assert(k < c2);
    } else {
        let k = (row - 1) / 2;
        assert(row == 1 + 2 * k);
        assert(k < c3);
    }
}

/// The rows of an interlaced image, in reading order, are a permutation of its rows:
/// there are `height` of them, the row at each position is a row of the image whose
/// position is that one, and each row of the image stands at its position. The first
/// row read is row 0.
pub proof fn lemma_interlaced_order_is_permutation(height: int)
    requires
        height >= 0,
    ensures
        interlaced_order(height).len() == height,
        forall|i: int| 0 <= i < height ==> {
            &&& 0 <= #[trigger] interlaced_order(height)[i] < height
            &&& interlaced_position(interlaced_order(height)[i], height) == i
        },
        forall|row: int| 0 <= row < height ==> {
            &&& 0 <= #[trigger] interlaced_position(row, height) < height
            &&& interlaced_order(height)[interlaced_position(row, height)] == row
        },
        height > 0 ==> first_interlaced_row(0, height) == Some((0int, 0int))
            && interlaced_position(0, height) == 0,
{
    lemma_interlaced_counts(height);
    reveal_with_fuel(interlaced_rows_before, 5);
    assert forall|i: int| 0 <= i < height implies {
        &&& 0 <= #[trigger] interlaced_order(height)[i] < height
        &&& interlaced_position(interlaced_order(height)[i], height) == i
    } by {
        lemma_interlaced_order_at(height, i);
    }
    assert forall|row: int| 0 <= row < height implies {
        &&& 0 <= #[trigger] interlaced_position(row, height) < height
        &&& interlaced_order(height)[interlaced_position(row, height)] == row
    } by {
        lemma_interlaced_position_of(height, row);
    }
}

proof fn lemma_interlaced_row_pass(pass: int, row: int)
    requires
        is_interlaced_row(pass, row),
    ensures
        interlaced_pass_of(row) == pass,
        row == interlaced_offset(pass) + ((row - interlaced_offset(pass)) / interlaced_jump(pass))
            * interlaced_jump(pass),
{
    let o = interlaced_offset(pass);
    let j = interlaced_jump(pass);
    let k = (row - o) / j;
    assert(row == o + k * j) by (nonlinear_arith)
        requires
            j > 0,
            row >= o,
            (row - o) % j == 0,
            k == (row - o) / j;
    if pass == 0 {
        assert(row % 8 == 0);
    } else if pass == 1 {
        assert(row % 8 == 4);
    } else if pass == 2 {
        assert(row % 4 == 2);
        assert(row % 8 == 2 || row % 8 == 6);
    } else {
        assert(row % 2 == 1);
        assert(row % 8 == 1 || row % 8 == 3 || row % 8 == 5 || row % 8 == 7);
    }
}

proof fn lemma_first_row_position(pass: int, height: int)
    requires
        0 <= pass <= 4,
        height >= 0,
    ensures
        first_interlaced_row(pass, height) matches Some((p, r)) ==> interlaced_position(r, height)
            == interlaced_rows_before(pass, height),
        first_interlaced_row(pass, height) is None ==> interlaced_rows_before(pass, height) == height,
    decreases 4 - pass,
{
    lemma_interlaced_counts(height);
    reveal_with_fuel(interlaced_rows_before, 5);
    if pass < 4 {
        let o = interlaced_offset(pass);
        if o < height {
            lemma_interlaced_row_pass(pass, o);
            assert((o - o) / interlaced_jump(pass) == 0);
        } else {
            assert(interlaced_pass_count(pass, height) == 0);
            lemma_first_row_position(pass + 1, height);
        }
    }
}

/// Reading an interlaced image row by row follows its reading order: the row read
/// stands at its position, the row read next stands at the following position, and
/// the last row read is the one at the last position.
pub proof fn lemma_interlaced_walk(pass: int, row: int, height: int)
    requires
        is_interlaced_row(pass, row),
        0 <= row < height,
    ensures
        interlaced_pass_of(row) == pass,
        interlaced_order(height)[interlaced_position(row, height)] == row,
        match next_interlaced_row(pass, row, height) {
            Some((p, r)) => r == interlaced_order(height)[interlaced_position(row, height) + 1]
                && interlaced_position(r, height) == interlaced_position(row, height) + 1,
            None => interlaced_position(row, height) == height - 1,
        },
{
    lemma_interlaced_row_pass(pass, row);
    lemma_interlaced_position_of(height, row);
    lemma_next_interlaced_row(pass, row, height);
    lemma_interlaced_counts(height);
    reveal_with_fuel(interlaced_rows_before, 5);
    let o = interlaced_offset(pass);
    let j = interlaced_jump(pass);
    let k = (row - o) / j;
    if row + j < height {
        let r = row + j;
        lemma_interlaced_row_pass(pass, r);
        lemma_interlaced_position_of(height, r);
        assert((r - o) / j == k + 1) by (nonlinear_arith)
            requires
                j > 0,
                row == o + k * j,
                r == row + j;
    } else {
        assert(k == interlaced_pass_count(pass, height) - 1) by (nonlinear_arith)
            requires
                j > 0,
                row == o + k * j,
                row < height,
                row + j >= height,
                interlaced_pass_count(pass, height) == (height - o + j - 1) / j;
        lemma_first_row_position(pass + 1, height);
        if let Some((p, r)) = first_interlaced_row(pass + 1, height) {
            lemma_first_interlaced_row(pass + 1, height);
            lemma_interlaced_position_of(height, r);
        }
    }
}

} // verus!
