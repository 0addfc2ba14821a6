//! Listing of the kubeconfig's contexts as clusters.

use vstd::prelude::*;
use crate::models::ClusterInfo;
use crate::pods::{or_empty, text_or_empty};
use crate::text::same_text;

verus! {

/// A context of the kubeconfig: its name, and the name of the cluster it
/// uses when it has a context body.
pub struct ContextFacts {
    pub name: String,
    pub cluster: Option<String>,
}

/// A cluster of the kubeconfig: its name and its server address, if set.
pub struct NamedClusterFacts {
    pub name: String,
    pub server: Option<String>,
}

/// The server of the first cluster named `name`, or nothing.
pub open spec fn server_of(clusters: Seq<NamedClusterFacts>, name: Seq<char>) -> Seq<char>
    decreases clusters.len(),
{
    if clusters.len() == 0 {
        Seq::empty()
    } else if clusters[0].name@ == name {
        or_empty(clusters[0].server)
    } else {
        server_of(clusters.drop_first(), name)
    }
}

/// Whether `name` is the current context.
pub open spec fn is_current_of(current: Option<String>, name: Seq<char>) -> bool {
    match current {
        Some(c) => c@ == name,
        None => false,
    }
}

/// The model of a `ClusterInfo`.
pub open spec fn cluster_view(c: ClusterInfo) -> (Seq<char>, Seq<char>, bool) {
    (c.name@, c.server@, c.is_current)
}

/// The clusters listed for the contexts, in order: a context without body
/// is left out; the others show the server of their cluster and whether
/// they are current.
pub open spec fn cluster_list(
    contexts: Seq<ContextFacts>,
    clusters: Seq<NamedClusterFacts>,
    current: Option<String>,
) -> Seq<(Seq<char>, Seq<char>, bool)>
    decreases contexts.len(),
{
    if contexts.len() == 0 {
        seq![]
    } else {
        let prev = cluster_list(contexts.drop_last(), clusters, current);
        let ctx = contexts.last();
        match ctx.cluster {
            None => prev,
            Some(cn) => prev.push(
                (ctx.name@, server_of(clusters, cn@), is_current_of(current, ctx.name@)),
            ),
        }
    }
}

fn find_server(clusters: &Vec<NamedClusterFacts>, name: &str) -> (r: String)
    ensures
        r@ == server_of(clusters@, name@),
{
    let ghost cs = clusters@;
    let mut i: usize = 0;
    assert(cs.subrange(0, cs.len() as int) =~= cs);
    while i < clusters.len()
        invariant
            i <= cs.len(),
            cs == clusters@,
            server_of(cs, name@) == server_of(cs.subrange(i as int, cs.len() as int), name@),
        decreases cs.len() - i,
    {
        let ghost rest = cs.subrange(i as int, cs.len() as int);
        assert(rest.drop_first() =~= cs.subrange(i + 1, cs.len() as int));
        assert(rest[0] == cs[i as int]);
        if same_text(clusters[i].name.as_str(), name) {
            return text_or_empty(&clusters[i].server);
        }
        i = i + 1;
    }
    String::new()
}

/// The clusters of a kubeconfig, one per context that has a body.
pub fn get_clusters(
    contexts: &Vec<ContextFacts>,
    clusters: &Vec<NamedClusterFacts>,
    current: &Option<String>,
) -> (r: Vec<ClusterInfo>)
    ensures
        r@.map_values(|c: ClusterInfo| cluster_view(c)) == cluster_list(
            contexts@,
            clusters@,
            *current,
        ),
{
    let ghost ctxs = contexts@;
    let mut out: Vec<ClusterInfo> = Vec::new();
    let mut i: usize = 0;
    assert(ctxs.subrange(0, 0) =~= Seq::<ContextFacts>::empty());
    assert(out@.map_values(|c: ClusterInfo| cluster_view(c)) =~= seq![]);
    while i < contexts.len()
        invariant
            i <= ctxs.len(),
            ctxs == contexts@,
            out@.map_values(|c: ClusterInfo| cluster_view(c)) == cluster_list(
                ctxs.subrange(0, i as int),
                clusters@,
                *current,
            ),
        decreases ctxs.len() - i,
    {
        assert(ctxs.subrange(0, i + 1).drop_last() =~= ctxs.subrange(0, i as int));
        assert(ctxs.subrange(0, i + 1).last() == ctxs[i as int]);
        let ctx = &contexts[i];
        if let Some(cn) = &ctx.cluster {
            let server = find_server(clusters, cn.as_str());
            let is_current = match current {
                Some(c) => same_text(c.as_str(), ctx.name.as_str()),
                None => false,
            };
            let info = ClusterInfo { name: ctx.name.clone(), server, is_current };
            let ghost before = out@.map_values(|c: ClusterInfo| cluster_view(c));
            out.push(info);
            assert(out@.map_values(|c: ClusterInfo| cluster_view(c)) =~= before.push(
                cluster_view(info),
            ));
        }
        i = i + 1;
    }
    assert(ctxs.subrange(0, i as int) =~= ctxs);
    out
}

} // verus!
