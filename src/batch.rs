use vstd::arithmetic::div_mod::{lemma_fundamental_div_mod, lemma_fundamental_div_mod_converse};
use vstd::prelude::*;

verus! {

/// A contiguous run of rows `start..end` of a data set.
#[derive(Clone, Copy, Debug, PartialEq, Eq, Structural)]
pub struct Batch {
    pub start: usize,
    pub end: usize,
}

/// Number of batches of `size` rows needed to cover `rows` rows: `ceil(rows / size)`.
pub open spec fn batch_count(rows: int, size: int) -> int {
    (rows + size - 1) / size
}

/// First row of the `k`-th batch.
pub open spec fn batch_start(k: int, size: int) -> int {
    k * size
}

/// One past the last row of the `k`-th batch: `size` rows after its start,
/// or the end of the data set if that comes first.
pub open spec fn batch_end(k: int, rows: int, size: int) -> int {
    if k * size + size < rows {
        k * size + size
    } else {
        rows
    }
}

proof fn lemma_count_from_bounds(len: int, rows: int, size: int)
    requires
        size > 0,
        len >= 0,
        rows >= 0,
        rows <= len * size,
        len == 0 || (len - 1) * size < rows,
    ensures
        len == batch_count(rows, size),
{
    let x = rows + size - 1;
    let r = x - len * size;
    assert(len * size - size == (len - 1) * size) by (nonlinear_arith);
    if len == 0 {
        assert(len * size == 0) by (nonlinear_arith) requires len == 0;
    }
    lemma_fundamental_div_mod_converse(x, size, len, r);
}

/// Batches partition the data set: there are `ceil(rows / size)` of them,
/// each non-empty, each following the previous one without gap or overlap,
/// from row 0 to the last row; all are `size` rows long but the last, which
/// holds `rows - size * floor(rows / size)` rows when `size` does not divide
/// `rows`, and `size` rows otherwise.
pub proof fn lemma_batch_partition(rows: nat, size: nat)
    requires
        size > 0,
    ensures
        batch_count(rows as int, size as int) == if rows % size == 0 {
            rows / size
        } else {
            rows / size + 1
        },
        rows > 0 ==> batch_start(0, size as int) == 0,
        rows > 0 ==> batch_end(batch_count(rows as int, size as int) - 1, rows as int, size as int)
            == rows,
        forall|k: int|
            0 <= k < batch_count(rows as int, size as int) ==> batch_start(k, size as int)
                < #[trigger] batch_end(k, rows as int, size as int) <= rows,
        forall|k: int|
            0 <= k < batch_count(rows as int, size as int) - 1 ==> #[trigger] batch_end(
                k,
                rows as int,
                size as int,
            ) == batch_start(k + 1, size as int) && batch_end(k, rows as int, size as int)
                - batch_start(k, size as int) == size,
        rows > 0 ==> ({
            let last = batch_count(rows as int, size as int) - 1;
            batch_end(last, rows as int, size as int) - batch_start(last, size as int) == if rows
                % size != 0 {
                rows - size * (rows / size)
            } else {
                size as int
            }
        }),
{
    let n = rows as int;
    let b = size as int;
    let q = n / b;
    let m = n % b;
    lemma_fundamental_div_mod(n, b);
    assert(q >= 0 && 0 <= m < b);
    let count = batch_count(n, b);
    if m == 0 {
        lemma_fundamental_div_mod_converse(n + b - 1, b, q, b - 1);
    } else {
        assert((q + 1) * b == q * b + b) by (nonlinear_arith);
        lemma_fundamental_div_mod_converse(n + b - 1, b, q + 1, m - 1);
    }
    assert(count * b >= n && (count - 1) * b < n || n == 0) by (nonlinear_arith)
        requires
            n == b * q + m,
            0 <= m < b,
            q >= 0,
            count == if m == 0 { q } else { q + 1 },
    ;
    assert forall|k: int| 0 <= k < count implies batch_start(k, b) < #[trigger] batch_end(
        k,
        n,
        b,
    ) <= n by {
        assert(k * b <= (count - 1) * b) by (nonlinear_arith)
            requires
                k <= count - 1,
                b > 0,
        ;
    }
    assert forall|k: int| 0 <= k < count - 1 implies #[trigger] batch_end(k, n, b) == batch_start(
        k + 1,
        b,
    ) && batch_end(k, n, b) - batch_start(k, b) == b by {
        assert(k * b + b == (k + 1) * b) by (nonlinear_arith);
        assert((k + 1) * b + b <= count * b) by (nonlinear_arith)
            requires
                k + 1 <= count - 1,
                b > 0,
        ;
        assert(k * b + b < n || (k + 1) * b <= (count - 1) * b) by (nonlinear_arith)
            requires
                k + 1 <= count - 1,
                b > 0,
        ;
    }
    if n > 0 {
        assert(count >= 1);
        let last = count - 1;
        assert(last * b + b == count * b) by (nonlinear_arith)
            requires
                last == count - 1,
        ;
        assert(b * q == q * b) by (nonlinear_arith);
        if m == 0 {
            assert(last * b == n - b) by (nonlinear_arith)
                requires
                    last == q - 1,
                    n == b * q,
            ;
        } else {
            assert(last * b == b * q) by (nonlinear_arith)
                requires
                    last == q,
            ;
        }
    }
}

/// Splits `rows` rows into consecutive batches of `size` rows, in order; the
/// last batch holds what remains.
pub fn batches(rows: usize, size: usize) -> (r: Vec<Batch>)
    requires
        size > 0,
    ensures
        r@.len() == batch_count(rows as int, size as int),
        forall|k: int|
            0 <= k < r@.len() ==> (#[trigger] r@[k]).start == batch_start(k, size as int)
                && r@[k].end == batch_end(k, rows as int, size as int),
{
    let mut out: Vec<Batch> = Vec::new();
    let mut start: usize = 0;
    proof {
        assert(0 * size == 0) by (nonlinear_arith);
    }
    while start < rows
        invariant
            size > 0,
            start <= rows,
            start < rows ==> start as int == out@.len() * size,
            start == rows ==> rows <= out@.len() * size,
            out@.len() == 0 || (out@.len() - 1) * size < rows,
            forall|k: int|
                0 <= k < out@.len() ==> (#[trigger] out@[k]).start == batch_start(k, size as int)
                    && out@[k].end == batch_end(k, rows as int, size as int),
        decreases rows - start,
    {
        let end: usize = if rows - start > size { start + size } else { rows };
        proof {
            let len = out@.len() as int;
            assert((len + 1) * size == len * size + size) by (nonlinear_arith);
        }
        out.push(Batch { start, end });
        start = end;
    }
    proof {
        lemma_count_from_bounds(out@.len() as int, rows as int, size as int);
    }
    out
}

} // verus!
