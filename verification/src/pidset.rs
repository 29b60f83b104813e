use vstd::prelude::*;
use vstd::relations::{sorted_by, total_ordering};
use vstd::seq_lib::lemma_sorted_unique;

verus! {

broadcast use vstd::seq_lib::group_to_multiset_ensures;

/// The usual order on pids.
pub open spec fn pid_leq() -> spec_fn(libc::pid_t, libc::pid_t) -> bool {
    |a: libc::pid_t, b: libc::pid_t| a <= b
}

/// `s` is in ascending order.
pub open spec fn is_ascending(s: Seq<libc::pid_t>) -> bool {
    sorted_by(s, pid_leq())
}

/// Returns the pids of `pids` in ascending order.
pub fn sorted_pids(pids: &Vec<libc::pid_t>) -> (out: Vec<libc::pid_t>)
    ensures
        is_ascending(out@),
        forall|i: int, j: int| 0 <= i < j < out@.len() ==> out@[i] <= out@[j],
        out@.to_multiset() =~= pids@.to_multiset(),
{
    let mut rest: Vec<libc::pid_t> = pids.clone();
    let mut out: Vec<libc::pid_t> = Vec::new();
    assert(rest@ =~= pids@);
    while rest.len() > 0
        invariant
            is_ascending(out@),
            out@.to_multiset().add(rest@.to_multiset()) =~= pids@.to_multiset(),
            forall|i: int, j: int| 0 <= i < out@.len() && 0 <= j < rest@.len() ==> out@[i] <= rest@[j],
        decreases rest.len(),
    {
        let mut min_idx: usize = 0;
        let mut k: usize = 1;
        while k < rest.len()
            invariant
                0 <= min_idx < rest.len(),
                1 <= k <= rest.len(),
                forall|j: int| 0 <= j < k ==> rest@[min_idx as int] <= rest@[j],
            decreases rest.len() - k,
        {
            if rest[k] < rest[min_idx] {
                min_idx = k;
            }
            k = k + 1;
        }
        let ghost before = rest@;
        let m = rest.remove(min_idx);
        proof {
            assert(before.remove(min_idx as int).to_multiset() =~= before.to_multiset().remove(m));
            assert forall|j: int| 0 <= j < rest@.len() implies m <= rest@[j] by {
                if j < min_idx {
                    assert(rest@[j] == before[j]);
                } else {
                    assert(rest@[j] == before[j + 1]);
                }
            }
            assert forall|i: int, j: int| 0 <= i < out@.len() && 0 <= j < rest@.len() implies out@[i]
                <= rest@[j] by {
                if j < min_idx {
                    assert(rest@[j] == before[j]);
                } else {
                    assert(rest@[j] == before[j + 1]);
                }
            }
            assert forall|i: int| 0 <= i < out@.len() implies out@[i] <= m by {
                assert(before[min_idx as int] == m);
            }
        }
        let ghost out_before = out@;
        out.push(m);
        proof {
            assert forall|i: int, j: int| 0 <= i < j < out@.len() implies #[trigger] (pid_leq())(
                out@[i],
                out@[j],
            ) by {
                if j < out_before.len() {
                    assert((pid_leq())(out_before[i], out_before[j]));
                }
            }
            assert(out@.to_multiset() =~= out_before.to_multiset().insert(m));
        }
    }
    assert forall|i: int, j: int| 0 <= i < j < out@.len() implies out@[i] <= out@[j] by {
        assert((pid_leq())(out@[i], out@[j]));
    }
    out
}

/// Two lists of pids hold the same pids, each as many times.
pub open spec fn same_pid_multiset(a: Seq<libc::pid_t>, b: Seq<libc::pid_t>) -> bool {
    a.to_multiset() =~= b.to_multiset()
}

/// Sorts both lists and compares them element by element: true exactly when
/// they hold the same pids with the same multiplicities.
pub fn same_pids(a: &Vec<libc::pid_t>, b: &Vec<libc::pid_t>) -> (r: bool)
    ensures
        r == same_pid_multiset(a@, b@),
        r == (a@.to_multiset() == b@.to_multiset()),
{
    let sa = sorted_pids(a);
    let sb = sorted_pids(b);
    proof {
        lemma_pid_leq_total();
    }
    if sa.len() != sb.len() {
        proof {
            sa@.to_multiset_ensures();
            sb@.to_multiset_ensures();
        }
        return false;
    }
    let mut i: usize = 0;
    while i < sa.len()
        invariant
            sa@.len() == sb@.len(),
            0 <= i <= sa@.len(),
            is_ascending(sa@),
            is_ascending(sb@),
            total_ordering(pid_leq()),
            sa@.to_multiset() =~= a@.to_multiset(),
            sb@.to_multiset() =~= b@.to_multiset(),
            forall|j: int| 0 <= j < i ==> sa@[j] == sb@[j],
        decreases sa.len() - i,
    {
        if sa[i] != sb[i] {
            proof {
                if a@.to_multiset() =~= b@.to_multiset() {
                    lemma_sorted_unique(sa@, sb@, pid_leq());
                }
            }
            return false;
        }
        i = i + 1;
    }
    assert(sa@ =~= sb@);
    true
}

proof fn lemma_pid_leq_total()
    ensures
        total_ordering(pid_leq()),
{
}

} // verus!
