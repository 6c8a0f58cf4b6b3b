//! The closed enumeration of backend clusters and the naming conventions
//! attached to it: the environment-variable prefix that locates a cluster's
//! connection parameters, and the stable external name used on the wire.

use vstd::prelude::*;

verus! {

/// One backend cluster. The set of clusters is closed and known at compile
/// time; adding a cluster means adding a variant here and one arm to each of
/// the naming functions below — the registry and lookup logic is untouched.
#[derive(Clone, Copy, Debug, PartialEq, Eq, Hash, Structural)]
pub enum QdrantCluster {
    Main0,
}

/// The ordered list of all known clusters, as a mathematical sequence.
pub open spec fn spec_cluster_variants() -> Seq<QdrantCluster> {
    seq![QdrantCluster::Main0]
}

/// The position of a cluster in `spec_cluster_variants`.
pub open spec fn spec_cluster_index(cluster: QdrantCluster) -> int {
    match cluster {
        QdrantCluster::Main0 => 0,
    }
}

/// Every cluster sits at its index in the enumeration.
pub proof fn lemma_cluster_index_in_variants(cluster: QdrantCluster)
    ensures
        0 <= spec_cluster_index(cluster) < spec_cluster_variants().len(),
        spec_cluster_variants()[spec_cluster_index(cluster)] == cluster,
{
}

/// Distinct positions of the enumeration hold distinct clusters.
pub proof fn lemma_variants_distinct(i: int, j: int)
    requires
        0 <= i < spec_cluster_variants().len(),
        0 <= j < spec_cluster_variants().len(),
        spec_cluster_variants()[i] == spec_cluster_variants()[j],
    ensures
        i == j,
{
}

/// The ordered, fixed list of all known clusters; drives registry construction.
pub fn cluster_variants() -> (r: Vec<QdrantCluster>)
    ensures
        r@ == spec_cluster_variants(),
{
    let mut v: Vec<QdrantCluster> = Vec::new();
    v.push(QdrantCluster::Main0);
    proof {
        assert(v@ =~= spec_cluster_variants());
    }
    v
}

/// The environment-variable prefix of a cluster.
pub open spec fn spec_env_var_prefix(cluster: QdrantCluster) -> Seq<char> {
    match cluster {
        QdrantCluster::Main0 => "QDRANT_MAIN_0"@,
    }
}

/// Name of the environment variable holding a cluster's endpoint URL.
pub open spec fn spec_url_var(cluster: QdrantCluster) -> Seq<char> {
    spec_env_var_prefix(cluster) + "_URL"@
}

/// Name of the environment variable holding a cluster's API key.
pub open spec fn spec_api_key_var(cluster: QdrantCluster) -> Seq<char> {
    spec_env_var_prefix(cluster) + "_API_KEY"@
}

/// Deterministic mapping from a cluster to the prefix of the environment
/// variables that hold its connection parameters.
pub fn env_var_prefix_for_cluster(cluster: QdrantCluster) -> (r: &'static str)
    ensures
        r@ == spec_env_var_prefix(cluster),
{
    match cluster {
        QdrantCluster::Main0 => "QDRANT_MAIN_0",
    }
}

/// The full name of the URL variable of a cluster.
pub fn url_env_var(cluster: QdrantCluster) -> (r: String)
    ensures
        r@ == spec_url_var(cluster),
{
    match cluster {
        QdrantCluster::Main0 => {
            let s = "QDRANT_MAIN_0_URL".to_owned();
            proof {
                reveal_strlit("QDRANT_MAIN_0_URL");
                reveal_strlit("QDRANT_MAIN_0");
                reveal_strlit("_URL");
                assert(s@ =~= spec_url_var(cluster));
            }
            s
        },
    }
}

/// The full name of the API-key variable of a cluster.
pub fn api_key_env_var(cluster: QdrantCluster) -> (r: String)
    ensures
        r@ == spec_api_key_var(cluster),
{
    match cluster {
        QdrantCluster::Main0 => {
            let s = "QDRANT_MAIN_0_API_KEY".to_owned();
            proof {
                reveal_strlit("QDRANT_MAIN_0_API_KEY");
                reveal_strlit("QDRANT_MAIN_0");
                reveal_strlit("_API_KEY");
                assert(s@ =~= spec_api_key_var(cluster));
            }
            s
        },
    }
}

/// The stable external (wire) name of a cluster, distinct from the variant
/// name so that the serialized representation survives internal refactors.
pub open spec fn spec_external_name(cluster: QdrantCluster) -> Seq<char> {
    match cluster {
        QdrantCluster::Main0 => "main-0"@,
    }
}

/// The stable external name of a cluster.
pub fn external_name(cluster: QdrantCluster) -> (r: &'static str)
    ensures
        r@ == spec_external_name(cluster),
{
    match cluster {
        QdrantCluster::Main0 => "main-0",
    }
}

/// Parses a stable external name back to a cluster; `None` for any string
/// that names no cluster.
pub fn cluster_from_external_name(name: &String) -> (r: Option<QdrantCluster>)
    ensures
        match r {
            Some(c) => name@ == spec_external_name(c),
            None => forall|c: QdrantCluster| name@ != spec_external_name(c),
        },
{
    let main0 = "main-0".to_owned();
    if *name == main0 {
        Some(QdrantCluster::Main0)
    } else {
        proof {
            assert forall|c: QdrantCluster| name@ != spec_external_name(c) by {
                match c {
                    QdrantCluster::Main0 => {},
                }
            }
        }
        None
    }
}

/// Caller-supplied routing configuration: the primary cluster to use, and an
/// optional secondary cluster that mirrors writes.
#[derive(Clone, Copy, Debug, PartialEq, Eq, Structural)]
pub struct QdrantDataSourceConfig {
    pub cluster: QdrantCluster,
    pub shadow_write_cluster: Option<QdrantCluster>,
}

} // verus!
