//! Small helpers shared by the platform backends.

use vstd::prelude::*;
use vstd::slice::slice_subrange;

verus! {

/// The bytes of `height` rows of `row_bytes` each, taken from a buffer whose rows start `pitch`
/// bytes apart.
pub open spec fn packed(base: Seq<u8>, pitch: nat, row_bytes: nat, height: nat) -> Seq<u8> {
    Seq::new(
        row_bytes * height,
        |i: int| base[(i / row_bytes as int) * pitch + i % row_bytes as int],
    )
}

/// Copy `height` rows of `row_bytes` out of a buffer whose rows are `pitch` bytes apart.
///
/// Every backend hands its frames over as tightly packed `width * height * 4`, but the
/// producers pad rows to whatever alignment the hardware wants, so the padding has to come
/// off somewhere. Returns `None` when there is no buffer, and when `pitch` is too small to hold
/// a row, which is the one shape that cannot be unpadded.
pub fn pack_rows(
    base: Option<&[u8]>,
    pitch: usize,
    row_bytes: usize,
    height: usize,
) -> (rows: Option<Vec<u8>>)
    requires
        base is Some && pitch >= row_bytes ==> pitch * height <= base->0@.len(),
    ensures
        rows is Some <==> base is Some && pitch >= row_bytes,
        rows is Some ==> rows->0@ == packed(
            base->0@,
            pitch as nat,
            row_bytes as nat,
            height as nat,
        ),
{
    let base = match base {
        None => return None,
        Some(base) => base,
    };
    if pitch < row_bytes {
        return None;
    }
    let total: usize = base.len();
    let ghost whole = packed(base@, pitch as nat, row_bytes as nat, height as nat);
    let mut rows: Vec<u8> = Vec::new();
    let mut row: usize = 0;
    while row < height
        invariant
            row <= height,
            pitch >= row_bytes,
            pitch * height <= total,
            total == base@.len(),
            rows@.len() == row_bytes * row,
            whole == packed(base@, pitch as nat, row_bytes as nat, height as nat),
            forall|i: int| 0 <= i < rows@.len() ==> rows@[i] == whole[i],
        decreases height - row,
    {
        assert(row * pitch + row_bytes <= pitch * height && row * pitch >= 0) by (nonlinear_arith)
            requires
                row < height,
                row_bytes <= pitch,
                row >= 0,
        ;
        let start: usize = row * pitch;
        let line = slice_subrange(base, start, start + row_bytes);
        let ghost before = rows@;
        rows.extend_from_slice(line);
        assert(row_bytes * row + row_bytes == row_bytes * (row + 1)) by (nonlinear_arith);
        assert(row_bytes * (row + 1) <= row_bytes * height) by (nonlinear_arith)
            requires
                row < height,
                row_bytes >= 0,
        ;
        assert(row_bytes * row == row * row_bytes) by (nonlinear_arith);
        assert forall|i: int| 0 <= i < rows@.len() implies rows@[i] == whole[i] by {
            if i >= before.len() {
                let k = i - before.len();
                assert(rows@[i] == line@[k]);
                assert(line@[k] == base@[start + k]);
                vstd::arithmetic::div_mod::lemma_fundamental_div_mod_converse(
                    i,
                    row_bytes as int,
                    row as int,
                    k,
                );
            } else {
                assert(rows@[i] == before[i]);
            }
        }
        row = row + 1;
    }
    assert(rows@ =~= whole);
    Some(rows)
}

/// Packed rows hold `row_bytes` bytes for each row, whatever the padding was.
pub proof fn law_packed_length(base: Seq<u8>, pitch: nat, row_bytes: nat, height: nat)
    ensures
        packed(base, pitch, row_bytes, height).len() == row_bytes * height,
{
}

/// Row `row` of a packed buffer is the row of the same number in the padded one.
pub proof fn law_packed_row(base: Seq<u8>, pitch: nat, row_bytes: nat, height: nat, row: nat)
    requires
        row_bytes <= pitch,
        pitch * height <= base.len(),
        row < height,
    ensures
        packed(base, pitch, row_bytes, height).subrange(
            (row * row_bytes) as int,
            (row * row_bytes + row_bytes) as int,
        ) == base.subrange((row * pitch) as int, (row * pitch + row_bytes) as int),
{
    let whole = packed(base, pitch, row_bytes, height);
    assert(row * row_bytes + row_bytes <= row_bytes * height) by (nonlinear_arith)
        requires
            row < height,
    ;
    assert(row * pitch + row_bytes <= pitch * height) by (nonlinear_arith)
        requires
            row < height,
            row_bytes <= pitch,
    ;
    let a = whole.subrange((row * row_bytes) as int, (row * row_bytes + row_bytes) as int);
    let b = base.subrange((row * pitch) as int, (row * pitch + row_bytes) as int);
    assert(a.len() == row_bytes && b.len() == row_bytes);
    assert forall|k: int| 0 <= k < row_bytes implies a[k] == b[k] by {
        let i = row * row_bytes + k;
        assert(i == row_bytes * row + k) by (nonlinear_arith)
            requires
                i == row * row_bytes + k,
        ;
        vstd::arithmetic::div_mod::lemma_fundamental_div_mod_converse(
            i,
            row_bytes as int,
            row as int,
            k,
        );
        assert(a[k] == whole[i]);
    }
    assert(a =~= b);
}

/// Rows without padding come out as they were.
pub proof fn law_packed_without_padding(base: Seq<u8>, row_bytes: nat, height: nat)
    requires
        row_bytes * height <= base.len(),
    ensures
        packed(base, row_bytes, row_bytes, height) == base.take((row_bytes * height) as int),
{
    let whole = packed(base, row_bytes, row_bytes, height);
    assert forall|i: int| 0 <= i < row_bytes * height implies whole[i] == base[i] by {
        assert(row_bytes > 0) by (nonlinear_arith)
            requires
                0 <= i < row_bytes * height,
        ;
        vstd::arithmetic::div_mod::lemma_fundamental_div_mod(i, row_bytes as int);
        assert((i / row_bytes as int) * row_bytes == row_bytes * (i / row_bytes as int))
            by (nonlinear_arith);
    }
    assert(whole =~= base.take((row_bytes * height) as int));
}

/// Byte `k` of row `row` of a packed buffer.
pub(crate) proof fn lemma_packed_at(
    base: Seq<u8>,
    pitch: nat,
    row_bytes: nat,
    height: nat,
    row: int,
    k: int,
)
    requires
        0 <= row < height,
        0 <= k < row_bytes,
    ensures
        0 <= row * row_bytes + k < row_bytes * height,
        packed(base, pitch, row_bytes, height)[row * row_bytes + k] == base[row * pitch + k],
{
    let i = row * row_bytes + k;
    assert(i < row_bytes * height && i >= 0 && i == row_bytes * row + k) by (nonlinear_arith)
        requires
            0 <= row < height,
            0 <= k < row_bytes,
            i == row * row_bytes + k,
    ;
    vstd::arithmetic::div_mod::lemma_fundamental_div_mod_converse(i, row_bytes as int, row, k);
}

/// What [`pack_rows`] gives: nothing but whole rows, each of them the bytes that start at the
/// beginning of that row in the buffer, and none of the bytes between rows.
pub proof fn law_packed_rows_are_the_rows(
    base: Option<&[u8]>,
    pitch: usize,
    row_bytes: usize,
    height: usize,
    rows: Option<Vec<u8>>,
    row: int,
    k: int,
)
    requires
        call_ensures(pack_rows, (base, pitch, row_bytes, height), rows),
        0 <= row < height,
        0 <= k < row_bytes,
    ensures
        rows is Some <==> base is Some && row_bytes <= pitch,
        rows is Some ==> {
            &&& rows->0@.len() == row_bytes * height
            &&& rows->0@[row * row_bytes + k] == base->0@[row * pitch + k]
        },
{
    if rows is Some {
        lemma_packed_at(
            base->0@,
            pitch as nat,
            row_bytes as nat,
            height as nat,
            row,
            k,
        );
    }
}

/// Rows can be packed wherever there is a buffer whose rows are whole, and come out as long as they are.
pub proof fn law_whole_rows_are_packed(
    base: Option<&[u8]>,
    pitch: usize,
    row_bytes: usize,
    height: usize,
    rows: Option<Vec<u8>>,
)
    requires
        call_ensures(pack_rows, (base, pitch, row_bytes, height), rows),
    ensures
        rows is Some <==> base is Some && row_bytes <= pitch,
        rows is Some ==> rows->0@.len() == row_bytes * height,
{
}

} // verus!
