//! The row mapper: hand every decoded row to a host-side constructor,
//! collecting the constructed objects in input order or failing fast.
//!
//! A row is whatever mapping of column names to decoded values the
//! caller built; the constructor is an opaque callable of the host. Any
//! single row's failure aborts the whole batch: no partial result is
//! ever returned.

use vstd::prelude::*;

verus! {

/// Maps rows through a host constructor, one call per row, in input
/// order.
///
/// On success there is exactly one constructed object per row, each a
/// possible answer of the constructor for its row; on the first failure
/// the constructor's error is returned alone and every already
/// constructed object is dropped.
pub fn map_rows<R, T, E, F: Fn(R) -> Result<T, E>>(rows: Vec<R>, as_class: F) -> (r: Result<
    Vec<T>,
    E,
>)
    requires
        forall|i: int| 0 <= i < rows@.len() ==> call_requires(as_class, (#[trigger] rows@[i],)),
    ensures
        match r {
            Ok(out) => out@.len() == rows@.len() && (forall|i: int|
                0 <= i < rows@.len() ==> call_ensures(
                    as_class,
                    (rows@[i],),
                    Ok::<T, E>(#[trigger] out@[i]),
                )),
            Err(e) => exists|i: int|
                0 <= i < rows@.len() && call_ensures(as_class, (#[trigger] rows@[i],), Err::<
                    T,
                    E,
                >(e)),
        },
{
    let total: usize = rows.len();
    let ghost all = rows@;
    let mut remaining = rows;
    let mut out: Vec<T> = Vec::new();
    let mut k: usize = 0;
    while remaining.len() > 0
        invariant
            all == rows@,
            total == all.len(),
            k + remaining@.len() == all.len(),
            out@.len() == k,
            remaining@ =~= all.subrange(k as int, all.len() as int),
            forall|i: int| 0 <= i < all.len() ==> call_requires(as_class, (#[trigger] all[i],)),
            forall|i: int|
                0 <= i < k ==> call_ensures(as_class, (all[i],), Ok::<T, E>(#[trigger] out@[i])),
        decreases remaining@.len(),
    {
        let row = remaining.remove(0);
        proof {
            assert(row == all[k as int]);
            assert(remaining@ =~= all.subrange(k + 1 as int, all.len() as int));
        }
        match as_class(row) {
            Ok(obj) => {
                out.push(obj);
            },
            Err(e) => {
                proof {
                    assert(call_ensures(as_class, (all[k as int],), Err::<T, E>(e)));
                }
                return Err(e);
            },
        }
        k = k + 1;
    }
    Ok(out)
}

} // verus!
