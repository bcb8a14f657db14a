//! The `Stream` capability: the contract every backing store must satisfy,
//! stated over a mathematical model of the medium (its byte contents and a
//! cursor), together with the `overwrite` operation that models positioned
//! writes.

use vstd::prelude::*;

use crate::error::StreamError;

verus! {

/// The contents of a medium after `bytes` is written at offset `pos`:
/// bytes inside the window `[pos, pos + bytes.len())` are replaced, bytes
/// outside it are kept, and the medium grows exactly as far as the window
/// reaches past its old end.
pub open spec fn overwrite(data: Seq<u8>, pos: int, bytes: Seq<u8>) -> Seq<u8>
    recommends
        0 <= pos <= data.len(),
{
    let end = pos + bytes.len();
    let new_len = if end > data.len() { end } else { data.len() as int };
    Seq::new(new_len as nat, |i: int| if pos <= i < end { bytes[i - pos] } else { data[i] })
}

/// Writing at a valid offset never shrinks the medium, and grows it only
/// as far as the written window reaches.
pub proof fn lemma_overwrite_len(data: Seq<u8>, pos: int, bytes: Seq<u8>)
    requires
        0 <= pos <= data.len(),
    ensures
        overwrite(data, pos, bytes).len() == if pos + bytes.len() > data.len() {
            pos + bytes.len()
        } else {
            data.len() as int
        },
        data.len() <= overwrite(data, pos, bytes).len(),
        pos + bytes.len() <= overwrite(data, pos, bytes).len(),
{
}

/// Reading back the window that was just written yields exactly the bytes
/// that were written.
pub proof fn lemma_overwrite_read_back(data: Seq<u8>, pos: int, bytes: Seq<u8>)
    requires
        0 <= pos <= data.len(),
    ensures
        overwrite(data, pos, bytes).subrange(pos, pos + bytes.len()) == bytes,
{
    assert(overwrite(data, pos, bytes).subrange(pos, pos + bytes.len()) =~= bytes);
}

/// Bytes outside the written window are untouched.
pub proof fn lemma_overwrite_preserves_outside(data: Seq<u8>, pos: int, bytes: Seq<u8>, i: int)
    requires
        0 <= pos <= data.len(),
        0 <= i < data.len(),
        i < pos || pos + bytes.len() <= i,
    ensures
        overwrite(data, pos, bytes)[i] == data[i],
{
}

/// Two consecutive writes lay their bytes down back to back: writing `a`
/// at `pos` and then `b` right behind it is one write of `a + b` at `pos`.
pub proof fn lemma_overwrite_append(data: Seq<u8>, pos: int, a: Seq<u8>, b: Seq<u8>)
    requires
        0 <= pos <= data.len(),
    ensures
        overwrite(overwrite(data, pos, a), pos + a.len(), b) == overwrite(data, pos, a + b),
{
    lemma_overwrite_len(data, pos, a);
    assert(overwrite(overwrite(data, pos, a), pos + a.len(), b) =~= overwrite(
        data,
        pos,
        a + b,
    ));
}

/// The bytes that a sequence of back-to-back writes lays down: the runs,
/// concatenated in order.
pub open spec fn concat_runs(runs: Seq<Seq<u8>>) -> Seq<u8>
    decreases runs.len(),
{
    if runs.len() == 0 {
        Seq::empty()
    } else {
        runs[0] + concat_runs(runs.drop_first())
    }
}

/// The offset of the `k`-th run within the concatenation: the total length
/// of the runs before it.
pub open spec fn run_offset(runs: Seq<Seq<u8>>, k: int) -> int
    recommends
        0 <= k <= runs.len(),
    decreases k,
{
    if k <= 0 {
        0
    } else {
        runs[0].len() + run_offset(runs.drop_first(), k - 1)
    }
}

proof fn lemma_concat_runs_index(runs: Seq<Seq<u8>>, k: int)
    requires
        0 <= k < runs.len(),
    ensures
        0 <= run_offset(runs, k),
        run_offset(runs, k) + runs[k].len() <= concat_runs(runs).len(),
        concat_runs(runs).subrange(run_offset(runs, k), run_offset(runs, k) + runs[k].len())
            == runs[k],
    decreases k,
{
    if k == 0 {
        assert(concat_runs(runs).subrange(0, runs[0].len() as int) =~= runs[0]);
    } else {
        let rest = runs.drop_first();
        lemma_concat_runs_index(rest, k - 1);
        let off = run_offset(rest, k - 1);
        assert(concat_runs(runs).subrange(
            runs[0].len() + off,
            runs[0].len() + off + rest[k - 1].len(),
        ) =~= concat_runs(rest).subrange(off, off + rest[k - 1].len()));
        assert(rest[k - 1] == runs[k]);
    }
}

/// Positional independence: after a sequence of values is written back to
/// back at `pos`, seeking to the recorded offset of any one of them and
/// reading its width yields exactly the bytes that were written for it,
/// whatever the ordering and widths of the runs.
pub proof fn lemma_positional_independence(data: Seq<u8>, pos: int, runs: Seq<Seq<u8>>, k: int)
    requires
        0 <= pos <= data.len(),
        0 <= k < runs.len(),
    ensures
        ({
            let out = overwrite(data, pos, concat_runs(runs));
            let off = pos + run_offset(runs, k);
            out.subrange(off, off + runs[k].len()) == runs[k]
        }),
{
    let all = concat_runs(runs);
    let out = overwrite(data, pos, all);
    let off = run_offset(runs, k);
    lemma_concat_runs_index(runs, k);
    lemma_overwrite_read_back(data, pos, all);
    assert(out.subrange(pos + off, pos + off + runs[k].len()) =~= out.subrange(
        pos,
        pos + all.len(),
    ).subrange(off, off + runs[k].len()));
}

/// A seekable, positioned byte medium supporting read, write, seek and
/// tell. `data` and `pos` model the medium's contents and cursor; `inv` is
/// the store's own well-formedness, which every operation preserves.
///
/// A store may fail an operation for reasons of its own (a bad disk), so no
/// method promises success; but each failure names the failing operation,
/// and a read that cannot deliver every requested byte must fail rather
/// than hand back a partial buffer.
pub trait Stream: Sized {
    /// The store's internal well-formedness.
    spec fn inv(&self) -> bool;

    /// The byte contents of the medium.
    spec fn data(&self) -> Seq<u8>;

    /// The cursor: the offset at which the next read or write happens.
    spec fn pos(&self) -> int;

    /// A well-formed store keeps its cursor inside the medium.
    proof fn inv_properties(&self)
        requires
            self.inv(),
        ensures
            0 <= self.pos() <= self.data().len(),
            self.data().len() <= usize::MAX,
    ;

    /// Writes `bytes` at the current position, overwriting and growing the
    /// medium as needed, and advances the cursor past them. On failure the
    /// medium and cursor are unspecified (the caller must re-establish a
    /// known position).
    fn write(&mut self, bytes: &Vec<u8>) -> (r: Result<usize, StreamError>)
        requires
            old(self).inv(),
        ensures
            final(self).inv(),
            match r {
                Ok(n) => {
                    &&& n == bytes@.len()
                    &&& final(self).data() == overwrite(old(self).data(), old(self).pos(), bytes@)
                    &&& final(self).pos() == old(self).pos() + bytes@.len()
                },
                Err(e) => e is WriteError,
            },
    ;

    /// Fills `buffer` from the current position and advances the cursor by
    /// `buffer.len()`. A short read is a hard error: when fewer bytes remain
    /// than requested the read must fail, and no partial buffer is handed
    /// back as success. On failure the medium is unchanged but the cursor is
    /// unspecified.
    fn read(&mut self, buffer: &mut Vec<u8>) -> (r: Result<usize, StreamError>)
        requires
            old(self).inv(),
        ensures
            final(self).inv(),
            final(self).data() == old(self).data(),
            final(buffer)@.len() == old(buffer)@.len(),
            match r {
                Ok(n) => {
                    &&& n == old(buffer)@.len()
                    &&& old(self).pos() + old(buffer)@.len() <= old(self).data().len()
                    &&& final(buffer)@ == old(self).data().subrange(
                        old(self).pos(),
                        old(self).pos() + old(buffer)@.len(),
                    )
                    &&& final(self).pos() == old(self).pos() + old(buffer)@.len()
                },
                Err(e) => e is ReadError,
            },
            old(self).pos() + old(buffer)@.len() > old(self).data().len() ==> r is Err,
    ;

    /// Moves the cursor to the absolute offset `to`; offsets past the end
    /// of the medium are out of range and must be refused.
    fn seek(&mut self, to: usize) -> (r: Result<usize, StreamError>)
        requires
            old(self).inv(),
        ensures
            final(self).inv(),
            final(self).data() == old(self).data(),
            match r {
                Ok(p) => p == to && final(self).pos() == to && to <= final(self).data().len(),
                Err(e) => e is SeekError && final(self).pos() == old(self).pos(),
            },
            to > old(self).data().len() ==> r is Err,
    ;

    /// Reports the current cursor offset without moving it.
    fn tell(&mut self) -> (r: Result<usize, StreamError>)
        requires
            old(self).inv(),
        ensures
            final(self).inv(),
            final(self).data() == old(self).data(),
            final(self).pos() == old(self).pos(),
            match r {
                Ok(p) => p == old(self).pos(),
                Err(e) => e is TellError,
            },
    ;
}

} // verus!
