//! How much is kept: which files go when there are too many.
use vstd::prelude::*;
use crate::config::{Config, ConfigModel};

verus! {

/// How many bytes a MiB has.
pub const MIB: u64 = 1_048_576;

impl ConfigModel {
    /// How many bytes may be kept; `None` where there is no limit.
    pub open spec fn cache_bytes(self) -> Option<u64> {
        if self.cache_limit_mib == 0 {
            None
        } else if self.cache_limit_mib * MIB > u64::MAX {
            Some(u64::MAX)
        } else {
            Some((self.cache_limit_mib * MIB) as u64)
        }
    }
}

impl Config {
    /// How many bytes may be kept; `None` where there is no limit.
    pub fn cache_limit_bytes(&self) -> (r: Option<u64>)
        ensures
            r == self.deep_view().cache_bytes(),
    {
        if self.cache_limit_mib == 0 {
            None
        } else {
            match self.cache_limit_mib.checked_mul(MIB) {
                Some(bytes) => Some(bytes),
                None => Some(u64::MAX),
            }
        }
    }
}

/// Whether the file at `a` is older than the one at `b`: it was used earlier, or stands in front of
/// one that was used at the same time.
pub open spec fn older(files: Seq<(u64, u64)>, a: int, b: int) -> bool {
    files[a].1 < files[b].1 || files[a].1 == files[b].1 && a < b
}

/// How many bytes the first `count` files take without those that are `gone`.
pub open spec fn bytes_left(files: Seq<(u64, u64)>, gone: Seq<usize>, count: nat) -> nat
    decreases count,
{
    if count == 0 {
        0
    } else {
        let last = (count - 1) as nat;
        bytes_left(files, gone, last) + if gone.contains(last as usize) {
            0
        } else {
            files[last as int].0 as nat
        }
    }
}

/// One file more is gone.
proof fn lemma_one_less(files: Seq<(u64, u64)>, gone: Seq<usize>, one: usize, count: nat)
    requires
        count <= files.len() <= usize::MAX,
        !gone.contains(one),
    ensures
        bytes_left(files, gone, count) == bytes_left(files, gone.push(one), count) + if one < count {
            files[one as int].0 as int
        } else {
            0
        },
    decreases count,
{
    if count > 0 {
        let last = (count - 1) as nat;
        lemma_one_less(files, gone, one, last);
        let more = gone.push(one);
        assert(more[gone.len() as int] == one);
        if gone.contains(last as usize) {
            let k = gone.index_of(last as usize);
            assert(more[k] == last as usize);
        }
    }
}

/// When all are gone nothing is left.
proof fn lemma_nothing_left(files: Seq<(u64, u64)>, gone: Seq<usize>, count: nat)
    requires
        count <= files.len() <= usize::MAX,
        forall|k: usize| k < count ==> gone.contains(k),
    ensures
        bytes_left(files, gone, count) == 0,
    decreases count,
{
    if count > 0 {
        lemma_nothing_left(files, gone, (count - 1) as nat);
        assert(gone.contains((count - 1) as usize));
    }
}

/// The oldest files are `gone`, in order of age.
spec fn in_order(files: Seq<(u64, u64)>, gone: Seq<usize>) -> bool {
    &&& gone.no_duplicates()
    &&& forall|i: int| 0 <= i < gone.len() ==> (#[trigger] gone[i]) < files.len()
    &&& forall|i: int, j: int|
        0 <= i < j < gone.len() ==> #[trigger] older(files, gone[i] as int, gone[j] as int)
    &&& forall|i: int, other: int|
        0 <= i < gone.len() && 0 <= other < files.len() && !gone.contains(other as usize)
            ==> #[trigger] older(files, gone[i] as int, other)
}

/// No more files can be gone than there are.
proof fn lemma_room(gone: Seq<usize>, count: nat)
    requires
        gone.no_duplicates(),
        forall|i: int| 0 <= i < gone.len() ==> (#[trigger] gone[i]) < count,
    ensures
        gone.len() <= count,
{
    let places = gone.map_values(|k: usize| k as int);
    assert(places.no_duplicates());
    places.unique_seq_to_set();
    vstd::set_lib::lemma_int_range(0, count as int);
    assert(places.to_set().subset_of(vstd::set_lib::set_int_range(0, count as int)));
    vstd::set_lib::lemma_len_subset(
        places.to_set(),
        vstd::set_lib::set_int_range(0, count as int),
    );
}

/// The oldest of those that are left goes next.
proof fn lemma_next(files: Seq<(u64, u64)>, gone: Seq<usize>, oldest: usize)
    requires
        files.len() <= usize::MAX,
        in_order(files, gone),
        oldest < files.len(),
        !gone.contains(oldest),
        forall|other: int|
            0 <= other < files.len() && !gone.contains(other as usize) && other != oldest
                ==> #[trigger] older(files, oldest as int, other),
    ensures
        in_order(files, gone.push(oldest)),
        gone.len() < files.len(),
        forall|k: usize| gone.push(oldest).contains(k) <==> gone.contains(k) || k == oldest,
{
    let more = gone.push(oldest);
    assert forall|k: usize| more.contains(k) <==> gone.contains(k) || k == oldest by {
        assert(more[gone.len() as int] == oldest);
        if gone.contains(k) {
            assert(more[gone.index_of(k)] == k);
        }
        if more.contains(k) {
            let at = more.index_of(k);
            if at < gone.len() {
                assert(gone[at] == k);
            }
        }
    }
    assert(more.no_duplicates());
    assert forall|i: int, j: int| 0 <= i < j < more.len() implies #[trigger] older(
        files,
        more[i] as int,
        more[j] as int,
    ) by {
        if j < gone.len() {
            assert(older(files, gone[i] as int, gone[j] as int));
        } else {
            assert(older(files, gone[i] as int, oldest as int));
        }
    }
    assert forall|i: int, other: int|
        0 <= i < more.len() && 0 <= other < files.len() && !more.contains(
            other as usize,
        ) implies #[trigger] older(files, more[i] as int, other) by {
        if i < gone.len() {
            assert(older(files, gone[i] as int, other));
        } else {
            assert(older(files, oldest as int, other));
        }
    }
    lemma_room(more, files.len());
}

/// The oldest file that is still kept.
fn oldest_kept(files: &[(u64, u64)], kept: &[bool]) -> (r: Option<usize>)
    requires
        kept@.len() == files@.len(),
    ensures
        match r {
            Some(at) => at < files@.len() && kept@[at as int] && forall|k: int|
                0 <= k < files@.len() && kept@[k] && k != at ==> #[trigger] older(
                    files@,
                    at as int,
                    k,
                ),
            None => forall|k: int| 0 <= k < kept@.len() ==> !kept@[k],
        },
{
    let mut best: Option<usize> = None;
    let mut i: usize = 0;
    while i < files.len()
        invariant
            i <= files@.len(),
            kept@.len() == files@.len(),
            match best {
                Some(at) => at < i && kept@[at as int] && forall|k: int|
                    0 <= k < i && kept@[k] && k != at ==> #[trigger] older(files@, at as int, k),
                None => forall|k: int| 0 <= k < i ==> !kept@[k],
            },
        decreases files@.len() - i,
    {
        if kept[i] {
            best = match best {
                Some(at) => if files[i].1 < files[at].1 {
                    proof {
                        assert forall|k: int| 0 <= k < i && kept@[k] implies #[trigger] older(
                            files@,
                            i as int,
                            k,
                        ) by {
                            if k != at {
                                assert(older(files@, at as int, k));
                            }
                        }
                    }
                    Some(i)
                } else {
                    Some(at)
                },
                None => Some(i),
            };
        }
        i += 1;
    }
    best
}

/// Which files, given how many bytes each takes and when it was used last, have to go so that the
/// rest takes at most `limit` bytes: the oldest, in order of age, and no more of them than needed.
pub fn over_limit(files: &[(u64, u64)], limit: u64) -> (r: Vec<usize>)
    ensures
        r@.no_duplicates(),
        forall|i: int| 0 <= i < r@.len() ==> (#[trigger] r@[i]) < files@.len(),
        forall|i: int, j: int|
            0 <= i < j < r@.len() ==> #[trigger] older(files@, r@[i] as int, r@[j] as int),
        forall|i: int, other: int|
            0 <= i < r@.len() && 0 <= other < files@.len() && !r@.contains(other as usize)
                ==> #[trigger] older(files@, r@[i] as int, other),
        bytes_left(files@, r@, files@.len()) <= limit,
        r@.len() > 0 ==> bytes_left(files@, r@.drop_last(), files@.len()) > limit,
{
    let mut total: u128 = 0;
    let mut i: usize = 0;
    let mut kept: Vec<bool> = Vec::new();
    let mut gone: Vec<usize> = Vec::new();
    while i < files.len()
        invariant
            i <= files@.len(),
            gone@.len() == 0,
            kept@.len() == i,
            forall|k: int| 0 <= k < i ==> kept@[k],
            total == bytes_left(files@, gone@, i as nat),
            total <= i * u64::MAX,
        decreases files@.len() - i,
    {
        proof {
            assert((i + 1) * u64::MAX == i * u64::MAX + u64::MAX) by (nonlinear_arith);
            assert(i * u64::MAX <= u64::MAX * u64::MAX) by (nonlinear_arith)
                requires
                    i <= u64::MAX,
            ;
        }
        total = total + files[i].0 as u128;
        kept.push(true);
        i += 1;
    }
    proof {
        assert(files@.len() == i);
    }
    while total > limit as u128
        invariant
            files@.len() <= usize::MAX,
            kept@.len() == files@.len(),
            total == bytes_left(files@, gone@, files@.len()),
            forall|k: usize| k < files@.len() ==> (#[trigger] kept@[k as int] <==> !gone@.contains(k)),
            in_order(files@, gone@),
            gone@.len() > 0 ==> bytes_left(files@, gone@.drop_last(), files@.len()) > limit,
        decreases files@.len() - gone@.len(),
    {
        let oldest: usize = match oldest_kept(files, kept.as_slice()) {
            Some(oldest) => oldest,
            None => {
                proof {
                    assert forall|k: usize| k < files@.len() implies gone@.contains(k) by {
                        assert(!kept@[k as int]);
                    }
                    lemma_nothing_left(files@, gone@, files@.len());
                }
                return gone;
            },
        };
        let ghost before = gone@;
        proof {
            assert(kept@[oldest as int]);
            lemma_one_less(files@, before, oldest, files@.len());
            assert forall|other: int|
                0 <= other < files@.len() && !before.contains(other as usize) && other
                    != oldest implies #[trigger] older(files@, oldest as int, other) by {
                assert(kept@[(other as usize) as int]);
            }
            lemma_next(files@, before, oldest);
        }
        total = total - files[oldest].0 as u128;
        kept.set(oldest, false);
        gone.push(oldest);
        proof {
            assert(gone@.drop_last() =~= before);
        }
    }
    gone
}

} // verus!
