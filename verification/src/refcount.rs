//! The ownership discipline for reference-counted native resources.
//!
//! Each native resource kind (a bus connection, a message) is shared between
//! any number of owning handles through a reference count kept by the
//! runtime. [`RefCount`] models that count and pins the explicit
//! increment/decrement contract: creation takes over one reference,
//! duplicating an owning handle or promoting a borrowed view acquires one
//! more, destroying an owning handle releases one, and the runtime frees the
//! resource exactly when the count reaches zero. A borrowed view is valid
//! while the count is positive.

use vstd::prelude::*;

verus! {

/// The reference count the runtime keeps for one shared resource.
pub struct RefCount {
    count: u64,
}

impl RefCount {
    /// Number of outstanding references.
    pub closed spec fn count_view(&self) -> u64 {
        self.count
    }

    /// The runtime still holds the resource: borrowed views of it are valid.
    pub open spec fn alive(&self) -> bool {
        self.count_view() > 0
    }

    /// A resource entering caller ownership, taking over one already-counted
    /// reference.
    pub fn take_over() -> (r: RefCount)
        ensures
            r.count_view() == 1,
    {
        RefCount { count: 1 }
    }

    /// Acquire one more reference: duplicating an owning handle, or promoting
    /// a borrowed view to an owning handle.
    pub fn acquire(&mut self)
        requires
            old(self).alive(),
            old(self).count_view() < u64::MAX,
        ensures
            final(self).count_view() == old(self).count_view() + 1,
    {
        self.count = self.count + 1;
    }

    /// Release one reference: destroying an owning handle. Reports whether
    /// this release was the one on which the runtime freed the resource.
    pub fn release(&mut self) -> (freed: bool)
        requires
            old(self).alive(),
        ensures
            final(self).count_view() == old(self).count_view() - 1,
            freed <==> final(self).count_view() == 0,
    {
        self.count = self.count - 1;
        self.count == 0
    }

    /// Number of outstanding references.
    pub fn count(&self) -> (r: u64)
        ensures
            r == self.count_view(),
    {
        self.count
    }
}

/// One step of the ownership discipline: acquiring or releasing a reference.
pub enum HandleOp {
    Acquire,
    Release,
}

/// The count left after running `ops` against a resource counted `c`.
/// Acquiring adds one reference; releasing removes one. This mirrors the
/// contracts of [`RefCount::acquire`] and [`RefCount::release`].
pub open spec fn count_after(c: int, ops: Seq<HandleOp>) -> int
    decreases ops.len(),
{
    if ops.len() == 0 {
        c
    } else {
        let c2 = if ops[0] is Acquire {
            c + 1
        } else {
            c - 1
        };
        count_after(c2, ops.skip(1))
    }
}

/// How many of the steps in `ops`, run against a resource counted `c`, are
/// releases on which the count reaches zero — that is, on which the runtime
/// frees the resource, as [`RefCount::release`] reports.
pub open spec fn frees_during(c: int, ops: Seq<HandleOp>) -> int
    decreases ops.len(),
{
    if ops.len() == 0 {
        0
    } else if ops[0] is Acquire {
        frees_during(c + 1, ops.skip(1))
    } else {
        (if c == 1 {
            1int
        } else {
            0int
        }) + frees_during(c - 1, ops.skip(1))
    }
}

/// Duplicating an owning handle `n` times and then destroying all `n + 1`
/// handles: `n` acquisitions followed by `n + 1` releases.
pub open spec fn dup_n_destroy_all(n: nat) -> Seq<HandleOp> {
    Seq::new(n, |i: int| HandleOp::Acquire) + Seq::new(n + 1, |i: int| HandleOp::Release)
}

proof fn lemma_acquires(c: int, n: nat)
    ensures
        count_after(c, Seq::new(n, |i: int| HandleOp::Acquire)) == c + n,
        frees_during(c, Seq::new(n, |i: int| HandleOp::Acquire)) == 0,
    decreases n,
{
    if n > 0 {
        assert(Seq::new(n, |i: int| HandleOp::Acquire).skip(1) =~= Seq::new(
            (n - 1) as nat,
            |i: int| HandleOp::Acquire,
        ));
        lemma_acquires(c + 1, (n - 1) as nat);
    }
}

proof fn lemma_releases(c: int, m: nat)
    requires
        m <= c,
    ensures
        count_after(c, Seq::new(m, |i: int| HandleOp::Release)) == c - m,
        frees_during(c, Seq::new(m, |i: int| HandleOp::Release)) == (if m == c && m > 0 {
            1int
        } else {
            0int
        }),
    decreases m,
{
    if m > 0 {
        assert(Seq::new(m, |i: int| HandleOp::Release).skip(1) =~= Seq::new(
            (m - 1) as nat,
            |i: int| HandleOp::Release,
        ));
        lemma_releases(c - 1, (m - 1) as nat);
    }
}

proof fn lemma_split(c: int, a: Seq<HandleOp>, b: Seq<HandleOp>)
    ensures
        count_after(c, a + b) == count_after(count_after(c, a), b),
        frees_during(c, a + b) == frees_during(c, a) + frees_during(count_after(c, a), b),
    decreases a.len(),
{
    if a.len() == 0 {
        assert(a + b =~= b);
    } else {
        assert((a + b).skip(1) =~= a.skip(1) + b);
        let c2 = if a[0] is Acquire {
            c + 1
        } else {
            c - 1
        };
        lemma_split(c2, a.skip(1), b);
    }
}

/// Ownership law: starting from one owning handle (one reference),
/// duplicating it `n` times and then destroying all `n + 1` handles releases
/// the underlying resource exactly once, and only on the last destruction;
/// after any proper prefix of those steps the count is still positive, so the
/// resource has not been freed and a borrowed view obtained from any of the
/// handles is still valid.
pub proof fn lemma_ownership_release_once(n: nat)
    ensures
        count_after(1, dup_n_destroy_all(n)) == 0,
        frees_during(1, dup_n_destroy_all(n)) == 1,
        forall|m: int|
            0 <= m < dup_n_destroy_all(n).len() ==> count_after(
                1,
                #[trigger] dup_n_destroy_all(n).take(m),
            ) > 0,
        forall|m: int|
            0 <= m < dup_n_destroy_all(n).len() ==> frees_during(
                1,
                #[trigger] dup_n_destroy_all(n).take(m),
            ) == 0,
{
    let acqs = Seq::new(n, |i: int| HandleOp::Acquire);
    let rels = Seq::new(n + 1, |i: int| HandleOp::Release);
    lemma_acquires(1, n);
    lemma_split(1, acqs, rels);
    lemma_releases(1 + n as int, n + 1);

    assert forall|m: int| 0 <= m < dup_n_destroy_all(n).len() implies count_after(
        1,
        #[trigger] dup_n_destroy_all(n).take(m),
    ) > 0 && frees_during(1, dup_n_destroy_all(n).take(m)) == 0 by {
        if m <= n {
            assert(dup_n_destroy_all(n).take(m) =~= Seq::new(m as nat, |i: int| HandleOp::Acquire));
            lemma_acquires(1, m as nat);
        } else {
            let k = (m - n) as nat;
            assert(dup_n_destroy_all(n).take(m) =~= acqs + Seq::new(k, |i: int| HandleOp::Release));
            lemma_split(1, acqs, Seq::new(k, |i: int| HandleOp::Release));
            lemma_releases(1 + n as int, k);
        }
    }
}

} // verus!
