//! Exit code, attempt count and failure reason read from the pods of a Job.
use vstd::prelude::*;
use crate::text::owned;

verus! {

/// A container that has terminated.
pub struct TerminatedState {
    pub exit_code: i32,
    pub reason: Option<String>,
    pub message: Option<String>,
}

/// A container that waits (for instance on an image pull).
pub struct WaitingState {
    pub reason: Option<String>,
    pub message: Option<String>,
}

/// The state of one container, as far as the metrics read it.
pub struct ContainerStateInfo {
    pub terminated: Option<TerminatedState>,
    pub waiting: Option<WaitingState>,
}

/// Status of one container of a pod.
pub struct ContainerStatusInfo {
    pub restart_count: i32,
    pub state: Option<ContainerStateInfo>,
}

/// A pod of the Job: its container statuses, `None` when the pod reports none.
pub struct PodInfo {
    pub container_statuses: Option<Vec<ContainerStatusInfo>>,
}

pub open spec fn opt_view(o: Option<String>) -> Option<Seq<char>> {
    match o {
        Some(s) => Some(s@),
        None => None,
    }
}

/// `reason` alone, or `reason: message` when there is a message.
pub open spec fn describe(reason: Seq<char>, message: Seq<char>) -> Seq<char> {
    if message.len() == 0 {
        reason
    } else {
        reason + ": "@ + message
    }
}

pub open spec fn or_default(o: Option<Seq<char>>, d: Seq<char>) -> Seq<char> {
    match o {
        Some(s) => s,
        None => d,
    }
}

/// Running metrics: last exit code seen, largest restart count, last failure reason.
pub type MetricsAcc = (Option<i32>, int, Option<Seq<char>>);

/// The metrics after one more container status.
pub open spec fn metrics_step(acc: MetricsAcc, cs: ContainerStatusInfo) -> MetricsAcc {
    let restarts = if cs.restart_count > acc.1 { cs.restart_count as int } else { acc.1 };
    match cs.state {
        None => (acc.0, restarts, acc.2),
        Some(st) => match st.terminated {
            Some(t) => (
                Some(t.exit_code),
                restarts,
                if t.exit_code != 0 {
                    Some(describe(or_default(opt_view(t.reason), "Terminated"@), or_default(opt_view(t.message), ""@)))
                } else {
                    acc.2
                },
            ),
            None => match st.waiting {
                Some(w) => (
                    acc.0,
                    restarts,
                    Some(describe(or_default(opt_view(w.reason), "Waiting"@), or_default(opt_view(w.message), ""@))),
                ),
                None => (acc.0, restarts, acc.2),
            },
        },
    }
}

/// The container statuses of all pods, in order.
pub open spec fn all_statuses(pods: Seq<PodInfo>) -> Seq<ContainerStatusInfo>
    decreases pods.len(),
{
    if pods.len() == 0 {
        Seq::empty()
    } else {
        all_statuses(pods.drop_last()) + match pods.last().container_statuses {
            Some(v) => v@,
            None => Seq::empty(),
        }
    }
}

/// The metrics folded over a sequence of container statuses.
pub open spec fn metrics_fold(cs: Seq<ContainerStatusInfo>) -> MetricsAcc
    decreases cs.len(),
{
    if cs.len() == 0 {
        (None, 0, None)
    } else {
        metrics_step(metrics_fold(cs.drop_last()), cs.last())
    }
}

proof fn lemma_fold_restarts_nonneg(cs: Seq<ContainerStatusInfo>)
    ensures
        metrics_fold(cs).1 >= 0,
        metrics_fold(cs).1 == 0 || exists|j: int| 0 <= j < cs.len() && metrics_fold(cs).1 == cs[j].restart_count,
    decreases cs.len(),
{
    if cs.len() > 0 {
        lemma_fold_restarts_nonneg(cs.drop_last());
        let p = metrics_fold(cs.drop_last()).1;
        if p != 0 && metrics_fold(cs).1 == p {
            let j = choose|j: int| 0 <= j < cs.drop_last().len() && p == cs.drop_last()[j].restart_count;
            assert(cs[j] == cs.drop_last()[j]);
        }
        if metrics_fold(cs).1 != p {
            assert(metrics_fold(cs).1 == cs[cs.len() - 1].restart_count);
        }
    }
}

/// Whether a container status reports a terminated container.
pub open spec fn is_terminated(cs: ContainerStatusInfo) -> bool {
    cs.state is Some && cs.state->0.terminated is Some
}

/// The exit code read from the container statuses is that of the last terminated container,
/// whatever its value (0 included), and there is none when no container terminated.
pub proof fn lemma_exit_code_of_last_terminated(cs: Seq<ContainerStatusInfo>, k: int)
    ensures
        0 <= k < cs.len() && is_terminated(cs[k]) && (forall|j: int| k < j < cs.len() ==> !is_terminated(cs[j]))
            ==> metrics_fold(cs).0 == Some(cs[k].state->0.terminated->0.exit_code),
        (forall|j: int| 0 <= j < cs.len() ==> !is_terminated(cs[j])) ==> metrics_fold(cs).0 is None,
    decreases cs.len(),
{
    if cs.len() > 0 {
        let init = cs.drop_last();
        assert forall|j: int| 0 <= j < init.len() implies init[j] == cs[j] by {}
        if k < cs.len() - 1 {
            lemma_exit_code_of_last_terminated(init, k);
        } else {
            lemma_exit_code_of_last_terminated(init, 0);
        }
    }
}

/// The restart count read from the container statuses is the largest of theirs, 0 when
/// there is none (so the attempts are one more than the most restarted container's count).
pub proof fn lemma_restarts_are_the_largest(cs: Seq<ContainerStatusInfo>)
    ensures
        forall|j: int| 0 <= j < cs.len() ==> (#[trigger] cs[j]).restart_count <= metrics_fold(cs).1,
        metrics_fold(cs).1 >= 0,
        metrics_fold(cs).1 == 0 || exists|j: int| 0 <= j < cs.len() && metrics_fold(cs).1 == cs[j].restart_count,
    decreases cs.len(),
{
    lemma_fold_restarts_nonneg(cs);
    if cs.len() > 0 {
        lemma_restarts_are_the_largest(cs.drop_last());
        assert forall|j: int| 0 <= j < cs.len() implies (#[trigger] cs[j]).restart_count <= metrics_fold(cs).1 by {
            if j < cs.len() - 1 {
                assert(cs[j] == cs.drop_last()[j]);
            }
        }
    }
}

/// Whether a container status tells why the Job failed: a container that terminated with a
/// non-zero code, or one that did not terminate and waits.
pub open spec fn tells_failure(cs: ContainerStatusInfo) -> bool {
    match cs.state {
        Some(st) => match st.terminated {
            Some(t) => t.exit_code != 0,
            None => st.waiting is Some,
        },
        None => false,
    }
}

/// The failure reason read from the container statuses is told by the last container that
/// tells one: a terminated container's reason (`Terminated` by default), a waiting one's
/// (`Waiting` by default), followed by `: ` and its message when it has one; there is none
/// when no container tells one.
pub proof fn lemma_reason_of_last_failure(cs: Seq<ContainerStatusInfo>, k: int)
    ensures
        0 <= k < cs.len() && tells_failure(cs[k]) && (forall|j: int| k < j < cs.len() ==> !tells_failure(cs[j]))
            ==> metrics_fold(cs).2 == Some(
            match cs[k].state->0.terminated {
                Some(t) => describe(or_default(opt_view(t.reason), "Terminated"@), or_default(opt_view(t.message), ""@)),
                None => {
                    let w = cs[k].state->0.waiting->0;
                    describe(or_default(opt_view(w.reason), "Waiting"@), or_default(opt_view(w.message), ""@))
                },
            },
        ),
        (forall|j: int| 0 <= j < cs.len() ==> !tells_failure(cs[j])) ==> metrics_fold(cs).2 is None,
    decreases cs.len(),
{
    if cs.len() > 0 {
        let init = cs.drop_last();
        assert forall|j: int| 0 <= j < init.len() implies init[j] == cs[j] by {}
        if k < cs.len() - 1 {
            lemma_reason_of_last_failure(init, k);
        } else {
            lemma_reason_of_last_failure(init, 0);
        }
    }
}

fn describe_exec(reason: &Option<String>, default_reason: &str, message: &Option<String>) -> (r: String)
    ensures
        r@ == describe(or_default(opt_view(*reason), default_reason@), or_default(opt_view(*message), ""@)),
{
    let base = match reason {
        Some(r) => r.clone(),
        None => owned(default_reason),
    };
    match message {
        Some(m) => {
            if m.unicode_len() == 0 {
                proof {
                    assert(""@ =~= Seq::<char>::empty()) by {
                        reveal_strlit("");
                    }
                }
                base
            } else {
                let r = base.concat(": ");
                r.concat(m.as_str())
            }
        },
        None => {
            proof {
                reveal_strlit("");
            }
            base
        },
    }
}

/// Reads `(exit code, attempts, failure reason)` from the pods of a Job: the last
/// terminated container gives the exit code, attempts are one more than the largest
/// restart count, and the last failing or waiting container gives the reason.
pub fn do_extract_pod_metrics_with_reason(pods: Vec<PodInfo>) -> (r: (Option<i32>, i32, Option<String>))
    requires
        forall|j: int|
            0 <= j < all_statuses(pods@).len() ==> #[trigger] all_statuses(pods@)[j].restart_count < i32::MAX,
    ensures
        r.0 == metrics_fold(all_statuses(pods@)).0,
        r.1 == 1 + metrics_fold(all_statuses(pods@)).1,
        opt_view(r.2) == metrics_fold(all_statuses(pods@)).2,
{
    let mut exit_code: Option<i32> = None;
    let mut max_restart: i32 = 0;
    let mut failure_reason: Option<String> = None;
    let mut p: usize = 0;
    let ghost all = all_statuses(pods@);
    assert(pods@.take(0) =~= Seq::<PodInfo>::empty());
    while p < pods.len()
        invariant
            p <= pods@.len(),
            all == all_statuses(pods@),
            forall|j: int| 0 <= j < all.len() ==> #[trigger] all[j].restart_count < i32::MAX,
            (exit_code, max_restart as int, opt_view(failure_reason)) == metrics_fold(
                all_statuses(pods@.take(p as int)),
            ),
        decreases pods@.len() - p,
    {
        let ghost before = all_statuses(pods@.take(p as int));
        assert(pods@.take(p + 1).drop_last() =~= pods@.take(p as int));
        let ghost mine: Seq<ContainerStatusInfo> = match pods@[p as int].container_statuses {
            Some(v) => v@,
            None => Seq::empty(),
        };
        assert(all_statuses(pods@.take(p + 1)) == before + mine);
        proof {
            lemma_all_statuses_prefix(pods@, p + 1);
        }
        match &pods[p].container_statuses {
            None => {
                assert(before + mine =~= before);
            },
            Some(statuses) => {
                let mut k: usize = 0;
                assert((before + mine.take(0)) =~= before);
                while k < statuses.len()
                    invariant
                        k <= statuses@.len(),
                        mine == statuses@,
                        forall|j: int| 0 <= j < (before + mine).len() ==> #[trigger] (before + mine)[j].restart_count
                            < i32::MAX,
                        (exit_code, max_restart as int, opt_view(failure_reason)) == metrics_fold(
                            before + mine.take(k as int),
                        ),
                    decreases statuses@.len() - k,
                {
                    let cs = &statuses[k];
                    assert((before + mine.take(k + 1)).drop_last() =~= before + mine.take(k as int));
                    assert((before + mine.take(k + 1)).last() == mine[k as int]);
                    assert((before + mine)[before.len() + k] == mine[k as int]);
                    if cs.restart_count > max_restart {
                        max_restart = cs.restart_count;
                    }
                    match &cs.state {
                        None => {},
                        Some(st) => match &st.terminated {
                            Some(t) => {
                                exit_code = Some(t.exit_code);
                                if t.exit_code != 0 {
                                    failure_reason = Some(describe_exec(&t.reason, "Terminated", &t.message));
                                }
                            },
                            None => match &st.waiting {
                                Some(w) => {
                                    failure_reason = Some(describe_exec(&w.reason, "Waiting", &w.message));
                                },
                                None => {},
                            },
                        },
                    }
                    k = k + 1;
                }
                assert(mine.take(statuses@.len() as int) =~= mine);
            },
        }
        p = p + 1;
    }
    assert(pods@.take(pods@.len() as int) =~= pods@);
    proof {
        lemma_fold_restarts_nonneg(all);
        if metrics_fold(all).1 != 0 {
            let j = choose|j: int| 0 <= j < all.len() && metrics_fold(all).1 == all[j].restart_count;
            assert(all[j].restart_count < i32::MAX);
        }
    }
    (exit_code, 1 + max_restart, failure_reason)
}

/// The statuses of a prefix of the pods are a prefix of all statuses.
proof fn lemma_all_statuses_prefix(pods: Seq<PodInfo>, k: int)
    requires
        0 <= k <= pods.len(),
    ensures
        all_statuses(pods.take(k)).len() <= all_statuses(pods).len(),
        all_statuses(pods.take(k)) == all_statuses(pods).take(all_statuses(pods.take(k)).len() as int),
    decreases pods.len() - k,
{
    if k == pods.len() {
        assert(pods.take(k) =~= pods);
        assert(all_statuses(pods).take(all_statuses(pods).len() as int) =~= all_statuses(pods));
    } else {
        lemma_all_statuses_prefix(pods.drop_last(), k);
        assert(pods.drop_last().take(k) =~= pods.take(k));
        let a = all_statuses(pods.drop_last());
        let t = all_statuses(pods.take(k));
        assert(all_statuses(pods).take(t.len() as int) =~= a.take(t.len() as int));
    }
}

} // verus!
