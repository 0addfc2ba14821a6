//! Projection of a pod's containers into their detailed descriptions.

use vstd::prelude::*;
use crate::models::{ContainerDetails, ContainerPort, EnvVar, PodCondition, PodDetails, ResourceRequirements};
use crate::pods::{get_pod_status, or_empty, pod_status_of, text_or_empty, ContainerStatusFacts, PodFacts};
use crate::text::{opt_view, same_text};

verus! {

/// Where an environment variable takes its value from, as the spec of the
/// container records it: a key of a secret or of a config map (each as
/// name and key), a field path, or a resource.
pub struct EnvSourceFacts {
    pub secret_key_ref: Option<(String, String)>,
    pub config_map_key_ref: Option<(String, String)>,
    pub field_ref: Option<String>,
    pub resource_field_ref: Option<String>,
}

/// One environment variable of a container's spec.
pub struct EnvVarFacts {
    pub name: String,
    pub value: Option<String>,
    pub value_from: Option<EnvSourceFacts>,
}

/// One bulk import of environment variables: an optional prefix, and the
/// names of the config map and of the secret it reads.
pub struct EnvFromFacts {
    pub prefix: Option<String>,
    pub config_map: Option<String>,
    pub secret: Option<String>,
}

/// One port of a container's spec.
pub struct PortFacts {
    pub name: Option<String>,
    pub container_port: i32,
    pub protocol: Option<String>,
}

/// What the detailed description reads of one container of a pod's spec.
pub struct ContainerFacts {
    pub name: String,
    pub image: Option<String>,
    pub env: Vec<EnvVarFacts>,
    pub env_from: Vec<EnvFromFacts>,
    pub ports: Vec<PortFacts>,
    pub resources: ResourceRequirements,
}

/// The model of an environment entry: name, value and source.
pub type EnvModel = (Seq<char>, Seq<char>, Seq<char>);

/// The model of an `EnvVar`.
pub open spec fn env_view(e: EnvVar) -> EnvModel {
    (e.name@, e.value@, e.source@)
}

/// The entry shown for a variable: the first reference it has decides its
/// source and value, a variable without reference is `Direct`.
pub open spec fn env_entry(e: EnvVarFacts) -> EnvModel {
    match e.value_from {
        Some(vf) => match vf.secret_key_ref {
            Some(s) => (e.name@, s.0@ + ":"@ + s.1@, "Secret"@),
            None => match vf.config_map_key_ref {
                Some(c) => (e.name@, c.0@ + ":"@ + c.1@, "ConfigMap"@),
                None => match vf.field_ref {
                    Some(f) => (e.name@, f@, "FieldRef"@),
                    None => match vf.resource_field_ref {
                        Some(r) => (e.name@, r@, "ResourceRef"@),
                        None => (e.name@, Seq::empty(), "Reference"@),
                    },
                },
            },
        },
        None => (e.name@, or_empty(e.value), "Direct"@),
    }
}

/// The entries shown for one bulk import: one for its config map, then one
/// for its secret, for those it names.
pub open spec fn env_from_entries(ef: EnvFromFacts) -> Seq<EnvModel> {
    config_map_entries(ef) + secret_entries(ef)
}

/// The name shown for the variables of a bulk import.
pub open spec fn import_label(ef: EnvFromFacts) -> Seq<char> {
    or_empty(ef.prefix) + "* (all keys)"@
}

/// The entry shown for the config map of a bulk import, if it names one.
pub open spec fn config_map_entries(ef: EnvFromFacts) -> Seq<EnvModel> {
    match ef.config_map {
        Some(n) => seq![(import_label(ef), "from ConfigMap: "@ + n@, "ConfigMap"@)],
        None => seq![],
    }
}

/// The entry shown for the secret of a bulk import, if it names one.
pub open spec fn secret_entries(ef: EnvFromFacts) -> Seq<EnvModel> {
    match ef.secret {
        Some(n) => seq![(import_label(ef), "from Secret: "@ + n@, "Secret"@)],
        None => seq![],
    }
}

/// The entries shown for all bulk imports, in order.
pub open spec fn env_from_all(efs: Seq<EnvFromFacts>) -> Seq<EnvModel>
    decreases efs.len(),
{
    if efs.len() == 0 {
        seq![]
    } else {
        env_from_all(efs.drop_last()) + env_from_entries(efs.last())
    }
}

/// All environment entries of a container: its variables, then its imports.
pub open spec fn env_of(c: ContainerFacts) -> Seq<EnvModel> {
    c.env@.map_values(|e: EnvVarFacts| env_entry(e)) + env_from_all(c.env_from@)
}

fn env_entry_of(e: &EnvVarFacts) -> (r: EnvVar)
    ensures
        env_view(r) == env_entry(*e),
{
    let (source, value) = match &e.value_from {
        Some(vf) => {
            if let Some(s) = &vf.secret_key_ref {
                let mut v = s.0.clone();
                v.append(":");
                v.append(s.1.as_str());
                (String::from_str("Secret"), v)
            } else if let Some(c) = &vf.config_map_key_ref {
                let mut v = c.0.clone();
                v.append(":");
                v.append(c.1.as_str());
                (String::from_str("ConfigMap"), v)
            } else if let Some(f) = &vf.field_ref {
                (String::from_str("FieldRef"), f.clone())
            } else if let Some(r) = &vf.resource_field_ref {
                (String::from_str("ResourceRef"), r.clone())
            } else {
                (String::from_str("Reference"), String::new())
            }
        },
        None => (String::from_str("Direct"), text_or_empty(&e.value)),
    };
    EnvVar { name: e.name.clone(), value, source }
}

/// The environment entries of a container, in order.
pub fn env_vars_of(c: &ContainerFacts) -> (r: Vec<EnvVar>)
    ensures
        r@.map_values(|e: EnvVar| env_view(e)) == env_of(*c),
{
    let ghost direct = c.env@.map_values(|e: EnvVarFacts| env_entry(e));
    let mut out: Vec<EnvVar> = Vec::new();
    let mut i: usize = 0;
    while i < c.env.len()
        invariant
            i <= c.env@.len(),
            direct == c.env@.map_values(|e: EnvVarFacts| env_entry(e)),
            out@.map_values(|e: EnvVar| env_view(e)) == direct.subrange(0, i as int),
        decreases c.env.len() - i,
    {
        let v = env_entry_of(&c.env[i]);
        let ghost before = out@.map_values(|e: EnvVar| env_view(e));
        out.push(v);
        assert(out@.map_values(|e: EnvVar| env_view(e)) =~= before.push(env_view(v)));
        assert(direct.subrange(0, i + 1) =~= direct.subrange(0, i as int).push(direct[i as int]));
        i = i + 1;
    }
    assert(direct.subrange(0, i as int) =~= direct);
    let ghost efs = c.env_from@;
    let mut k: usize = 0;
    assert(efs.subrange(0, 0) =~= Seq::<EnvFromFacts>::empty());
    assert(direct + env_from_all(efs.subrange(0, 0)) =~= direct);
    while k < c.env_from.len()
        invariant
            k <= efs.len(),
            efs == c.env_from@,
            out@.map_values(|e: EnvVar| env_view(e)) == direct + env_from_all(
                efs.subrange(0, k as int),
            ),
        decreases efs.len() - k,
    {
        assert(efs.subrange(0, k + 1).drop_last() =~= efs.subrange(0, k as int));
        assert(efs.subrange(0, k + 1).last() == efs[k as int]);
        let ef = &c.env_from[k];
        let ghost acc = out@.map_values(|e: EnvVar| env_view(e));
        let mut label = text_or_empty(&ef.prefix);
        label.append("* (all keys)");
        if let Some(n) = &ef.config_map {
            let mut v = String::from_str("from ConfigMap: ");
            v.append(n.as_str());
            out.push(EnvVar { name: label.clone(), value: v, source: String::from_str("ConfigMap") });
        }
        let ghost mid = out@.map_values(|e: EnvVar| env_view(e));
        if let Some(n) = &ef.secret {
            let mut v = String::from_str("from Secret: ");
            v.append(n.as_str());
            out.push(EnvVar { name: label, value: v, source: String::from_str("Secret") });
        }
        proof {
            assert(mid =~= acc + config_map_entries(*ef));
            assert(out@.map_values(|e: EnvVar| env_view(e)) =~= acc + env_from_entries(*ef));
        }
        k = k + 1;
    }
    assert(efs.subrange(0, k as int) =~= efs);
    out
}

/// The status recorded for the container named `name`: the last status of
/// that name, when there are several.
pub open spec fn status_for(statuses: Seq<ContainerStatusFacts>, name: Seq<char>) -> Option<
    ContainerStatusFacts,
>
    decreases statuses.len(),
{
    if statuses.len() == 0 {
        None
    } else if statuses.last().name@ == name {
        Some(statuses.last())
    } else {
        status_for(statuses.drop_last(), name)
    }
}

/// The state shown for a container: `Running`; else the waiting reason, or
/// `Waiting`; else the terminated reason, or `Terminated`; else `Unknown`,
/// also when the container has no recorded state.
pub open spec fn state_label(cs: Option<ContainerStatusFacts>) -> Seq<char> {
    match cs {
        None => "Unknown"@,
        Some(c) => match c.state {
            None => "Unknown"@,
            Some(st) => if st.running {
                "Running"@
            } else {
                match st.waiting {
                    Some(Some(r)) => r@,
                    Some(None) => "Waiting"@,
                    None => match st.terminated {
                        Some(Some(r)) => r@,
                        Some(None) => "Terminated"@,
                        None => "Unknown"@,
                    },
                }
            },
        },
    }
}

/// The model of a `ContainerPort`.
pub open spec fn port_view(p: ContainerPort) -> (Option<Seq<char>>, i32, Seq<char>) {
    (opt_view(p.name), p.container_port, p.protocol@)
}

/// The port shown for a port of the spec: an absent protocol reads as `TCP`.
pub open spec fn port_entry(p: PortFacts) -> (Option<Seq<char>>, i32, Seq<char>) {
    (
        opt_view(p.name),
        p.container_port,
        match p.protocol {
            Some(x) => x@,
            None => "TCP"@,
        },
    )
}

fn copy_opt(o: &Option<String>) -> (r: Option<String>)
    ensures
        opt_view(r) == opt_view(*o),
{
    match o {
        Some(s) => Some(s.clone()),
        None => None,
    }
}

/// Whether `d` describes the container `c` of a pod whose container
/// statuses are `statuses`.
pub open spec fn describes(
    d: ContainerDetails,
    c: ContainerFacts,
    statuses: Seq<ContainerStatusFacts>,
) -> bool {
    let cs = status_for(statuses, c.name@);
    &&& d.name@ == c.name@
    &&& d.image@ == or_empty(c.image)
    &&& d.ready == match cs {
        Some(s) => s.ready,
        None => false,
    }
    &&& d.restart_count == match cs {
        Some(s) => s.restart_count,
        None => 0,
    }
    &&& d.state@ == state_label(cs)
    &&& d.env_vars@.map_values(|e: EnvVar| env_view(e)) == env_of(c)
    &&& d.ports@.map_values(|p: ContainerPort| port_view(p)) == c.ports@.map_values(
        |p: PortFacts| port_entry(p),
    )
    &&& opt_view(d.resources.cpu_request) == opt_view(c.resources.cpu_request)
    &&& opt_view(d.resources.cpu_limit) == opt_view(c.resources.cpu_limit)
    &&& opt_view(d.resources.memory_request) == opt_view(c.resources.memory_request)
    &&& opt_view(d.resources.memory_limit) == opt_view(c.resources.memory_limit)
}

fn find_status(statuses: &Vec<ContainerStatusFacts>, name: &str) -> (r: Option<usize>)
    ensures
        match r {
            Some(i) => i < statuses@.len() && status_for(statuses@, name@) == Some(statuses@[i as int]),
            None => status_for(statuses@, name@) is None,
        },
{
    let ghost ss = statuses@;
    let mut found: Option<usize> = None;
    let mut i: usize = 0;
    while i < statuses.len()
        invariant
            i <= ss.len(),
            ss == statuses@,
            match found {
                Some(j) => j < i && status_for(ss.subrange(0, i as int), name@) == Some(ss[j as int]),
                None => status_for(ss.subrange(0, i as int), name@) is None,
            },
        decreases ss.len() - i,
    {
        assert(ss.subrange(0, i + 1).drop_last() =~= ss.subrange(0, i as int));
        assert(ss.subrange(0, i + 1).last() == ss[i as int]);
        if same_text(statuses[i].name.as_str(), name) {
            found = Some(i);
        }
        i = i + 1;
    }
    assert(ss.subrange(0, i as int) =~= ss);
    found
}

fn state_text(cs: Option<&ContainerStatusFacts>) -> (r: String)
    ensures
        r@ == state_label(
            match cs {
                Some(c) => Some(*c),
                None => None,
            },
        ),
{
    match cs {
        None => String::from_str("Unknown"),
        Some(c) => match &c.state {
            None => String::from_str("Unknown"),
            Some(st) => if st.running {
                String::from_str("Running")
            } else {
                match &st.waiting {
                    Some(Some(r)) => r.clone(),
                    Some(None) => String::from_str("Waiting"),
                    None => match &st.terminated {
                        Some(Some(r)) => r.clone(),
                        Some(None) => String::from_str("Terminated"),
                        None => String::from_str("Unknown"),
                    },
                }
            },
        },
    }
}

fn ports_of(c: &ContainerFacts) -> (r: Vec<ContainerPort>)
    ensures
        r@.map_values(|p: ContainerPort| port_view(p)) == c.ports@.map_values(
            |p: PortFacts| port_entry(p),
        ),
{
    let ghost want = c.ports@.map_values(|p: PortFacts| port_entry(p));
    let mut out: Vec<ContainerPort> = Vec::new();
    let mut i: usize = 0;
    while i < c.ports.len()
        invariant
            i <= c.ports@.len(),
            want == c.ports@.map_values(|p: PortFacts| port_entry(p)),
            out@.map_values(|p: ContainerPort| port_view(p)) == want.subrange(0, i as int),
        decreases c.ports.len() - i,
    {
        let p = &c.ports[i];
        let port = ContainerPort {
            name: copy_opt(&p.name),
            container_port: p.container_port,
            protocol: match &p.protocol {
                Some(x) => x.clone(),
                None => String::from_str("TCP"),
            },
        };
        let ghost before = out@.map_values(|p: ContainerPort| port_view(p));
        out.push(port);
        assert(out@.map_values(|p: ContainerPort| port_view(p)) =~= before.push(port_view(port)));
        assert(want.subrange(0, i + 1) =~= want.subrange(0, i as int).push(want[i as int]));
        i = i + 1;
    }
    assert(want.subrange(0, i as int) =~= want);
    out
}

/// The detailed description of one container of a pod.
pub fn container_details(c: &ContainerFacts, statuses: &Vec<ContainerStatusFacts>) -> (r:
    ContainerDetails)
    ensures
        describes(r, *c, statuses@),
{
    let found = find_status(statuses, c.name.as_str());
    let (ready, restart_count, state) = match found {
        Some(i) => (
            statuses[i].ready,
            statuses[i].restart_count,
            state_text(Some(&statuses[i])),
        ),
        None => (false, 0, state_text(None)),
    };
    ContainerDetails {
        name: c.name.clone(),
        image: text_or_empty(&c.image),
        ready,
        restart_count,
        state,
        env_vars: env_vars_of(c),
        ports: ports_of(c),
        resources: ResourceRequirements {
            cpu_request: copy_opt(&c.resources.cpu_request),
            cpu_limit: copy_opt(&c.resources.cpu_limit),
            memory_request: copy_opt(&c.resources.memory_request),
            memory_limit: copy_opt(&c.resources.memory_limit),
        },
    }
}

/// The detailed descriptions of the containers of a pod's spec, in order.
pub fn get_container_details(
    containers: &Vec<ContainerFacts>,
    statuses: &Vec<ContainerStatusFacts>,
) -> (r: Vec<ContainerDetails>)
    ensures
        r@.len() == containers@.len(),
        forall|i: int|
            0 <= i < containers@.len() ==> describes(#[trigger] r@[i], containers@[i], statuses@),
{
    let mut out: Vec<ContainerDetails> = Vec::new();
    let mut i: usize = 0;
    while i < containers.len()
        invariant
            i <= containers@.len(),
            out@.len() == i,
            forall|j: int| 0 <= j < i ==> describes(#[trigger] out@[j], containers@[j], statuses@),
        decreases containers.len() - i,
    {
        out.push(container_details(&containers[i], statuses));
        i = i + 1;
    }
    out
}

/// What the detailed view of a pod reads beyond its summary.
pub struct PodDetailFacts {
    pub pod: PodFacts,
    /// The start time, as RFC 3339 text.
    pub start_time: Option<String>,
    pub labels: std::collections::HashMap<String, String>,
    pub annotations: std::collections::HashMap<String, String>,
    pub containers: Vec<ContainerFacts>,
    pub conditions: Vec<PodCondition>,
}

/// The detailed view of a pod.
pub fn get_pod_details(p: PodDetailFacts) -> (r: PodDetails)
    ensures
        r.name@ == or_empty(p.pod.name),
        r.namespace@ == or_empty(p.pod.namespace),
        r.status@ == pod_status_of(p.pod),
        r.node@ == or_empty(p.pod.node),
        r.ip@ == or_empty(p.pod.ip),
        r.start_time == p.start_time,
        r.labels == p.labels,
        r.annotations == p.annotations,
        r.containers@.len() == p.containers@.len(),
        forall|i: int|
            0 <= i < p.containers@.len() ==> describes(
                #[trigger] r.containers@[i],
                p.containers@[i],
                p.pod.container_statuses@,
            ),
        r.conditions == p.conditions,
{
    let containers = get_container_details(&p.containers, &p.pod.container_statuses);
    PodDetails {
        name: text_or_empty(&p.pod.name),
        namespace: text_or_empty(&p.pod.namespace),
        status: get_pod_status(&p.pod),
        node: text_or_empty(&p.pod.node),
        ip: text_or_empty(&p.pod.ip),
        start_time: p.start_time,
        labels: p.labels,
        annotations: p.annotations,
        containers,
        conditions: p.conditions,
    }
}

} // verus!
