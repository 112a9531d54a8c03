//! What holds of the numbers of downloads and of the number of threads.

use crate::downloader::id_after;
use crate::settings::Threads;
use vstd::prelude::*;

verus! {

/// Downloads are numbered one after the other, and start over at zero behind the largest number.
pub proof fn numbers_follow_each_other(first: u64, n: nat)
    ensures
        id_after(first, 0) == first,
        id_after(first, n) < u64::MAX ==> id_after(first, n + 1) == id_after(first, n) + 1,
        id_after(first, n) == u64::MAX ==> id_after(first, n + 1) == 0,
        first + n <= u64::MAX ==> id_after(first, n) == first + n,
{
}

/// There are as many threads as were asked for, but at least one; where none were asked for, as many
/// as the machine runs in parallel, and four where it does not say.
pub proof fn as_many_threads_as_were_asked_for(n: usize, available: Option<usize>)
    ensures
        n >= 1 ==> Threads::Fixed(n).count(available) == n,
        Threads::Fixed(0).count(available) == 1,
        available matches Some(m) ==> Threads::Auto.count(available) == m,
        available is None ==> Threads::Auto.count(available) == 4,
{
}

} // verus!
