//! Projection of pods into the summaries shown to the user.

use vstd::prelude::*;
use crate::models::PodInfo;
use crate::numtext::{decimal_of, decimal_text};
use crate::text::same_text;

verus! {

/// What a container's state records: whether it runs, and the reason of its
/// waiting or terminated state when that state is present.
pub struct ContainerStateFacts {
    pub running: bool,
    pub waiting: Option<Option<String>>,
    pub terminated: Option<Option<String>>,
}

/// What the status of one container records.
pub struct ContainerStatusFacts {
    pub name: String,
    pub ready: bool,
    pub restart_count: i32,
    pub state: Option<ContainerStateFacts>,
}

/// What the pod summary reads of a pod.
pub struct PodFacts {
    pub name: Option<String>,
    pub namespace: Option<String>,
    /// Whether the pod carries a deletion timestamp.
    pub deleting: bool,
    pub phase: Option<String>,
    pub reason: Option<String>,
    pub ip: Option<String>,
    pub node: Option<String>,
    /// The names of the containers of the pod's spec.
    pub containers: Vec<String>,
    pub container_statuses: Vec<ContainerStatusFacts>,
    /// Seconds since the pod was created.
    pub age_seconds: i64,
}

/// Waiting reasons that the pod's status reports as they are.
pub open spec fn is_alerting_wait(r: Seq<char>) -> bool {
    r == "CrashLoopBackOff"@ || r == "ImagePullBackOff"@ || r == "ErrImagePull"@
        || r == "ContainerCreating"@ || r == "ContainerStatusUnknown"@
}

/// The reason a container status imposes on its pod's status, if any.
pub open spec fn container_alert(c: ContainerStatusFacts) -> Option<Seq<char>> {
    match c.state {
        None => None,
        Some(st) => {
            let from_wait = match st.waiting {
                Some(Some(r)) => if is_alerting_wait(r@) {
                    Some(r@)
                } else {
                    None
                },
                _ => None,
            };
            match from_wait {
                Some(r) => Some(r),
                None => match st.terminated {
                    Some(Some(r)) => if r@ == "ContainerStatusUnknown"@ {
                        Some(r@)
                    } else {
                        None
                    },
                    _ => None,
                },
            }
        },
    }
}

/// The first reason that a container status imposes, in order.
pub open spec fn first_alert(cs: Seq<ContainerStatusFacts>) -> Option<Seq<char>>
    decreases cs.len(),
{
    if cs.len() == 0 {
        None
    } else {
        match container_alert(cs[0]) {
            Some(r) => Some(r),
            None => first_alert(cs.drop_first()),
        }
    }
}

/// The status shown for a pod: `Terminating` while it is deleted; else the
/// first alerting container reason; else an eviction or admission reason of
/// the pod; else its phase, or `Unknown`.
pub open spec fn pod_status_of(p: PodFacts) -> Seq<char> {
    if p.deleting {
        "Terminating"@
    } else {
        match first_alert(p.container_statuses@) {
            Some(r) => r,
            None => {
                let evicted = match p.reason {
                    Some(r) => r@ == "Evicted"@ || r@ == "UnexpectedAdmissionError"@,
                    None => false,
                };
                if evicted {
                    p.reason.unwrap()@
                } else {
                    match p.phase {
                        Some(ph) => ph@,
                        None => "Unknown"@,
                    }
                }
            },
        }
    }
}

fn container_alert_of(c: &ContainerStatusFacts) -> (r: Option<String>)
    ensures
        match r {
            Some(s) => container_alert(*c) == Some(s@),
            None => container_alert(*c) is None,
        },
{
    if let Some(st) = &c.state {
        if let Some(Some(reason)) = &st.waiting {
            let r = reason.as_str();
            if same_text(r, "CrashLoopBackOff") || same_text(r, "ImagePullBackOff")
                || same_text(r, "ErrImagePull") || same_text(r, "ContainerCreating")
                || same_text(r, "ContainerStatusUnknown") {
                return Some(reason.clone());
            }
        }
        if let Some(Some(reason)) = &st.terminated {
            if same_text(reason.as_str(), "ContainerStatusUnknown") {
                return Some(reason.clone());
            }
        }
    }
    None
}

/// The status shown for a pod.
pub fn get_pod_status(pod: &PodFacts) -> (r: String)
    ensures
        r@ == pod_status_of(*pod),
{
    if pod.deleting {
        return String::from_str("Terminating");
    }
    let ghost cs = pod.container_statuses@;
    let mut i: usize = 0;
    assert(cs.subrange(0, cs.len() as int) =~= cs);
    while i < pod.container_statuses.len()
        invariant
            i <= cs.len(),
            !pod.deleting,
            cs == pod.container_statuses@,
            first_alert(cs) == first_alert(cs.subrange(i as int, cs.len() as int)),
        decreases cs.len() - i,
    {
        let ghost rest = cs.subrange(i as int, cs.len() as int);
        assert(rest.drop_first() =~= cs.subrange(i + 1, cs.len() as int));
        assert(rest[0] == cs[i as int]);
        if let Some(reason) = container_alert_of(&pod.container_statuses[i]) {
            assert(first_alert(rest) == Some(reason@));
            return reason;
        }
        i = i + 1;
    }
    if let Some(reason) = &pod.reason {
        if same_text(reason.as_str(), "Evicted") || same_text(
            reason.as_str(),
            "UnexpectedAdmissionError",
        ) {
            return reason.clone();
        }
    }
    match &pod.phase {
        Some(ph) => ph.clone(),
        None => String::from_str("Unknown"),
    }
}

/// The number of ready containers among the statuses.
pub open spec fn ready_of(cs: Seq<ContainerStatusFacts>) -> int
    decreases cs.len(),
{
    if cs.len() == 0 {
        0
    } else {
        ready_of(cs.drop_last()) + if cs.last().ready {
            1int
        } else {
            0int
        }
    }
}

/// Ready containers are no more than the statuses.
pub proof fn lemma_ready_bounded(cs: Seq<ContainerStatusFacts>)
    ensures
        0 <= ready_of(cs) <= cs.len(),
    decreases cs.len(),
{
    if cs.len() > 0 {
        lemma_ready_bounded(cs.drop_last());
    }
}

/// The ready containers and the containers of a pod.
pub fn get_ready_count(pod: &PodFacts) -> (r: (i32, i32))
    requires
        pod.containers@.len() <= i32::MAX,
        pod.container_statuses@.len() <= i32::MAX,
    ensures
        r.0 as int == ready_of(pod.container_statuses@),
        r.1 as int == pod.containers@.len(),
{
    let ghost cs = pod.container_statuses@;
    let mut ready: i32 = 0;
    let mut i: usize = 0;
    while i < pod.container_statuses.len()
        invariant
            i <= cs.len() <= i32::MAX,
            cs == pod.container_statuses@,
            ready as int == ready_of(cs.subrange(0, i as int)),
        decreases cs.len() - i,
    {
        assert(cs.subrange(0, i + 1).drop_last() =~= cs.subrange(0, i as int));
        proof {
            lemma_ready_bounded(cs.subrange(0, i as int));
        }
        if pod.container_statuses[i].ready {
            ready = ready + 1;
        }
        i = i + 1;
    }
    assert(cs.subrange(0, i as int) =~= cs);
    (ready, pod.containers.len() as i32)
}

/// The sum of the restart counts of the statuses.
pub open spec fn restarts_of(cs: Seq<ContainerStatusFacts>) -> int
    decreases cs.len(),
{
    if cs.len() == 0 {
        0
    } else {
        restarts_of(cs.drop_last()) + cs.last().restart_count
    }
}

/// Whether every running sum of restart counts fits an `i32`.
pub open spec fn restarts_fit(cs: Seq<ContainerStatusFacts>) -> bool {
    forall|k: int|
        0 <= k <= cs.len() ==> i32::MIN <= #[trigger] restarts_of(cs.subrange(0, k))
            <= i32::MAX
}

/// The total restarts of a pod's containers.
pub fn get_restart_count(pod: &PodFacts) -> (r: i32)
    requires
        restarts_fit(pod.container_statuses@),
    ensures
        r as int == restarts_of(pod.container_statuses@),
{
    let ghost cs = pod.container_statuses@;
    let mut total: i32 = 0;
    let mut i: usize = 0;
    assert(cs.subrange(0, 0) =~= Seq::<ContainerStatusFacts>::empty());
    while i < pod.container_statuses.len()
        invariant
            i <= cs.len(),
            cs == pod.container_statuses@,
            restarts_fit(cs),
            total as int == restarts_of(cs.subrange(0, i as int)),
        decreases cs.len() - i,
    {
        assert(cs.subrange(0, i + 1).drop_last() =~= cs.subrange(0, i as int));
        assert(cs.subrange(0, i + 1).last() == cs[i as int]);
        assert(i32::MIN <= restarts_of(cs.subrange(0, i + 1)) <= i32::MAX);
        total = total + pod.container_statuses[i].restart_count;
        i = i + 1;
    }
    assert(cs.subrange(0, i as int) =~= cs);
    total
}

/// The age label of a duration in seconds: whole days when there is at
/// least one, else whole hours, else whole minutes, else seconds.
pub open spec fn age_of(seconds: int) -> Seq<char> {
    if seconds >= 86400 {
        decimal_of(seconds / 86400) + "d"@
    } else if seconds >= 3600 {
        decimal_of(seconds / 3600) + "h"@
    } else if seconds >= 60 {
        decimal_of(seconds / 60) + "m"@
    } else {
        decimal_of(seconds) + "s"@
    }
}

/// The age label of a pod that has lived `seconds` seconds.
pub fn get_age(seconds: i64) -> (r: String)
    ensures
        r@ == age_of(seconds as int),
{
    let (count, unit) = if seconds >= 86400 {
        (seconds / 86400, "d")
    } else if seconds >= 3600 {
        (seconds / 3600, "h")
    } else if seconds >= 60 {
        (seconds / 60, "m")
    } else {
        (seconds, "s")
    };
    let mut s = decimal_text(count);
    s.append(unit);
    s
}

/// The characters of an optional string, or nothing when it is absent.
pub open spec fn or_empty(o: Option<String>) -> Seq<char> {
    match o {
        Some(s) => s@,
        None => Seq::empty(),
    }
}

/// An optional string, or the empty string when it is absent.
pub fn text_or_empty(o: &Option<String>) -> (r: String)
    ensures
        r@ == or_empty(*o),
{
    match o {
        Some(s) => s.clone(),
        None => String::new(),
    }
}

/// Copies of a list of strings.
pub fn copy_texts(v: &Vec<String>) -> (r: Vec<String>)
    ensures
        r@.len() == v@.len(),
        forall|i: int| 0 <= i < v@.len() ==> (#[trigger] r@[i])@ == v@[i]@,
{
    let mut out: Vec<String> = Vec::new();
    let mut i: usize = 0;
    while i < v.len()
        invariant
            i <= v@.len(),
            out@.len() == i,
            forall|j: int| 0 <= j < i ==> (#[trigger] out@[j])@ == v@[j]@,
        decreases v.len() - i,
    {
        out.push(v[i].clone());
        i = i + 1;
    }
    out
}

/// Whether a pod's counters fit the summary's integers.
pub open spec fn pod_counts_fit(pod: PodFacts) -> bool {
    &&& pod.containers@.len() <= i32::MAX
    &&& pod.container_statuses@.len() <= i32::MAX
    &&& restarts_fit(pod.container_statuses@)
}

/// Whether `info` is the summary of `pod`.
pub open spec fn summarizes(info: PodInfo, pod: PodFacts) -> bool {
    &&& info.name@ == or_empty(pod.name)
    &&& info.namespace@ == or_empty(pod.namespace)
    &&& info.status@ == pod_status_of(pod)
    &&& info.ready@ == decimal_of(ready_of(pod.container_statuses@)) + "/"@ + decimal_of(
        pod.containers@.len() as int,
    )
    &&& info.restarts as int == restarts_of(pod.container_statuses@)
    &&& info.age@ == age_of(pod.age_seconds as int)
    &&& info.ip@ == or_empty(pod.ip)
    &&& info.node@ == or_empty(pod.node)
    &&& info.containers@.len() == pod.containers@.len()
    &&& forall|i: int|
        0 <= i < pod.containers@.len() ==> (#[trigger] info.containers@[i])@ == pod.containers@[i]@
}

/// The summary of one pod.
pub fn pod_info(pod: &PodFacts) -> (r: PodInfo)
    requires
        pod_counts_fit(*pod),
    ensures
        summarizes(r, *pod),
{
    let (ready, total) = get_ready_count(pod);
    let mut ready_text = decimal_text(ready as i64);
    ready_text.append("/");
    ready_text.append(decimal_text(total as i64).as_str());
    PodInfo {
        name: text_or_empty(&pod.name),
        namespace: text_or_empty(&pod.namespace),
        status: get_pod_status(pod),
        ready: ready_text,
        restarts: get_restart_count(pod),
        age: get_age(pod.age_seconds),
        ip: text_or_empty(&pod.ip),
        node: text_or_empty(&pod.node),
        containers: copy_texts(&pod.containers),
    }
}

/// The summaries of a list of pods, in order.
pub fn get_pods(pods: &Vec<PodFacts>) -> (r: Vec<PodInfo>)
    requires
        forall|i: int| 0 <= i < pods@.len() ==> pod_counts_fit(#[trigger] pods@[i]),
    ensures
        r@.len() == pods@.len(),
        forall|i: int| 0 <= i < pods@.len() ==> summarizes(#[trigger] r@[i], pods@[i]),
{
    let mut out: Vec<PodInfo> = Vec::new();
    let mut i: usize = 0;
    while i < pods.len()
        invariant
            i <= pods@.len(),
            out@.len() == i,
            forall|j: int| 0 <= j < pods@.len() ==> pod_counts_fit(#[trigger] pods@[j]),
            forall|j: int| 0 <= j < i ==> summarizes(#[trigger] out@[j], pods@[j]),
        decreases pods.len() - i,
    {
        out.push(pod_info(&pods[i]));
        i = i + 1;
    }
    out
}

} // verus!
