//! Projection of deployments and namespaces, and the label selector that
//! finds a deployment's pods.

use vstd::prelude::*;
use crate::models::{DeploymentCondition, DeploymentDetails, DeploymentInfo, NamespaceInfo};
use crate::pods::{or_empty, text_or_empty};

verus! {

/// One `key=value` term of a label selector.
pub open spec fn label_term(label: (Seq<char>, Seq<char>)) -> Seq<char> {
    label.0 + "="@ + label.1
}

/// The label selector that requires every label: its terms joined by `,`.
pub open spec fn selector_of(labels: Seq<(Seq<char>, Seq<char>)>) -> Seq<char>
    decreases labels.len(),
{
    if labels.len() == 0 {
        Seq::empty()
    } else if labels.len() == 1 {
        label_term(labels[0])
    } else {
        selector_of(labels.drop_last()) + ","@ + label_term(labels.last())
    }
}

/// The models of label pairs.
pub open spec fn labels_view(labels: Seq<(String, String)>) -> Seq<(Seq<char>, Seq<char>)> {
    labels.map_values(|l: (String, String)| (l.0@, l.1@))
}

/// The label selector that matches the given labels, taken in order.
pub fn label_selector(labels: &Vec<(String, String)>) -> (r: String)
    ensures
        r@ == selector_of(labels_view(labels@)),
{
    let ghost lv = labels_view(labels@);
    let mut out = String::new();
    let mut i: usize = 0;
    assert(lv.subrange(0, 0) =~= Seq::<(Seq<char>, Seq<char>)>::empty());
    while i < labels.len()
        invariant
            i <= labels@.len(),
            lv == labels_view(labels@),
            out@ == selector_of(lv.subrange(0, i as int)),
        decreases labels.len() - i,
    {
        assert(lv.subrange(0, i + 1).drop_last() =~= lv.subrange(0, i as int));
        assert(lv.subrange(0, i + 1).last() == lv[i as int]);
        if i > 0 {
            out.append(",");
        }
        out.append(labels[i].0.as_str());
        out.append("=");
        out.append(labels[i].1.as_str());
        proof {
            if i == 0 {
                assert(out@ =~= label_term(lv[0]));
            } else {
                assert(out@ =~= selector_of(lv.subrange(0, i as int)) + ","@ + label_term(
                    lv[i as int],
                ));
            }
        }
        i = i + 1;
    }
    assert(lv.subrange(0, i as int) =~= lv);
    out
}

/// What the deployment projections read of a deployment.
pub struct DeploymentFacts {
    pub name: Option<String>,
    pub namespace: Option<String>,
    pub replicas: Option<i32>,
    pub available_replicas: Option<i32>,
    pub ready_replicas: Option<i32>,
    pub updated_replicas: Option<i32>,
    pub strategy: Option<String>,
    pub min_ready_seconds: Option<i32>,
    pub revision_history_limit: Option<i32>,
    /// The creation time, as RFC 3339 text.
    pub creation_timestamp: Option<String>,
    pub labels: std::collections::BTreeMap<String, String>,
    pub annotations: std::collections::BTreeMap<String, String>,
    pub selector: std::collections::BTreeMap<String, String>,
    pub conditions: Vec<DeploymentCondition>,
}

/// An optional count, or `d` when it is absent.
pub open spec fn count_or(o: Option<i32>, d: i32) -> i32 {
    match o {
        Some(n) => n,
        None => d,
    }
}

fn number_or(o: Option<i32>, d: i32) -> (r: i32)
    ensures
        r == count_or(o, d),
{
    match o {
        Some(n) => n,
        None => d,
    }
}

/// The summary of a deployment: absent counts read as zero.
pub fn deployment_info(d: &DeploymentFacts) -> (r: DeploymentInfo)
    ensures
        r.name@ == or_empty(d.name),
        r.namespace@ == or_empty(d.namespace),
        r.replicas == count_or(d.replicas, 0),
        r.available_replicas == count_or(d.available_replicas, 0),
        r.ready_replicas == count_or(d.ready_replicas, 0),
{
    DeploymentInfo {
        name: text_or_empty(&d.name),
        namespace: text_or_empty(&d.namespace),
        replicas: number_or(d.replicas, 0),
        available_replicas: number_or(d.available_replicas, 0),
        ready_replicas: number_or(d.ready_replicas, 0),
    }
}

/// The summaries of a list of deployments, in order.
pub fn get_deployments(ds: &Vec<DeploymentFacts>) -> (r: Vec<DeploymentInfo>)
    ensures
        r@.len() == ds@.len(),
        forall|i: int|
            0 <= i < ds@.len() ==> (#[trigger] r@[i]).name@ == or_empty(ds@[i].name)
                && r@[i].namespace@ == or_empty(ds@[i].namespace) && r@[i].replicas == count_or(
                ds@[i].replicas,
                0,
            ) && r@[i].available_replicas == count_or(ds@[i].available_replicas, 0)
                && r@[i].ready_replicas == count_or(ds@[i].ready_replicas, 0),
{
    let mut out: Vec<DeploymentInfo> = Vec::new();
    let mut i: usize = 0;
    while i < ds.len()
        invariant
            i <= ds@.len(),
            out@.len() == i,
            forall|j: int|
                0 <= j < i ==> (#[trigger] out@[j]).name@ == or_empty(ds@[j].name)
                    && out@[j].namespace@ == or_empty(ds@[j].namespace) && out@[j].replicas
                    == count_or(ds@[j].replicas, 0) && out@[j].available_replicas == count_or(
                    ds@[j].available_replicas,
                    0,
                ) && out@[j].ready_replicas == count_or(ds@[j].ready_replicas, 0),
        decreases ds.len() - i,
    {
        out.push(deployment_info(&ds[i]));
        i = i + 1;
    }
    out
}

/// The details of a deployment: absent counts read as zero, an absent
/// strategy as `RollingUpdate`, an absent history limit as 10; labels,
/// annotations, selector and conditions are carried over.
pub fn get_deployment_details(d: DeploymentFacts) -> (r: DeploymentDetails)
    ensures
        r.name@ == or_empty(d.name),
        r.namespace@ == or_empty(d.namespace),
        r.replicas == count_or(d.replicas, 0),
        r.available_replicas == count_or(d.available_replicas, 0),
        r.ready_replicas == count_or(d.ready_replicas, 0),
        r.updated_replicas == count_or(d.updated_replicas, 0),
        r.strategy@ == match d.strategy {
            Some(s) => s@,
            None => "RollingUpdate"@,
        },
        r.min_ready_seconds == count_or(d.min_ready_seconds, 0),
        r.revision_history_limit == count_or(d.revision_history_limit, 10),
        r.creation_timestamp == d.creation_timestamp,
        r.labels == d.labels,
        r.annotations == d.annotations,
        r.selector == d.selector,
        r.conditions == d.conditions,
{
    let strategy = match &d.strategy {
        Some(s) => s.clone(),
        None => String::from_str("RollingUpdate"),
    };
    DeploymentDetails {
        name: text_or_empty(&d.name),
        namespace: text_or_empty(&d.namespace),
        replicas: number_or(d.replicas, 0),
        available_replicas: number_or(d.available_replicas, 0),
        ready_replicas: number_or(d.ready_replicas, 0),
        updated_replicas: number_or(d.updated_replicas, 0),
        strategy,
        min_ready_seconds: number_or(d.min_ready_seconds, 0),
        revision_history_limit: number_or(d.revision_history_limit, 10),
        creation_timestamp: d.creation_timestamp,
        labels: d.labels,
        annotations: d.annotations,
        selector: d.selector,
        conditions: d.conditions,
    }
}

/// The summary of a namespace: an absent phase reads as `Unknown`.
pub fn namespace_info(name: &Option<String>, phase: &Option<String>) -> (r: NamespaceInfo)
    ensures
        r.name@ == or_empty(*name),
        r.status@ == match *phase {
            Some(p) => p@,
            None => "Unknown"@,
        },
{
    NamespaceInfo {
        name: text_or_empty(name),
        status: match phase {
            Some(p) => p.clone(),
            None => String::from_str("Unknown"),
        },
    }
}

} // verus!
