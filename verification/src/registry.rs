//! The client registry: one connected client handle per enumerated cluster,
//! built all-or-nothing from an environment snapshot, then looked up by
//! cluster identity or through a caller's routing configuration.

use vstd::prelude::*;
use vstd::pervasive::unreached;

use crate::cluster::{
    QdrantCluster, QdrantDataSourceConfig, api_key_env_var, cluster_variants,
    lemma_cluster_index_in_variants, lemma_variants_distinct, spec_api_key_var,
    spec_cluster_index, spec_cluster_variants, spec_url_var, url_env_var,
};
use crate::env::EnvVars;

verus! {

/// `qdrant_client::Qdrant` is the opaque, already-connected client handle for
/// one cluster; this library never looks inside it.
#[verifier::external_type_specification]
#[verifier::external_body]
pub struct ExQdrant(qdrant_client::Qdrant);

/// `qdrant_client::QdrantError` is the opaque error the client library
/// reports when a handle cannot be constructed.
#[verifier::external_type_specification]
#[verifier::external_body]
pub struct ExQdrantError(qdrant_client::QdrantError);

/// Whether the client library can construct a handle for these connection
/// parameters. With the compatibility probe skipped the outcome depends on
/// the parameters alone — the URI either parses or it does not — so it can be
/// given a name; nothing else is assumed of it.
pub uninterp spec fn connect_ok(url: Seq<char>, api_key: Seq<char>) -> bool;

/// Relies on qdrant_client's `QdrantConfig::from_url`, `api_key` and `build`:
/// constructs a client handle for the given endpoint with the given
/// credential, or reports why it cannot. The version-compatibility probe is
/// skipped so that construction performs no I/O of its own; connections are
/// established lazily by the handle. Whether a handle comes back is then a
/// function of the parameters alone, named `connect_ok`; nothing more is
/// assumed of the outcome.
#[verifier::external_body]
fn connect_qdrant(url: &str, api_key: &str) -> (r: Result<
    qdrant_client::Qdrant,
    qdrant_client::QdrantError,
>)
    ensures
        r is Ok <==> connect_ok(url@, api_key@),
{
    qdrant_client::config::QdrantConfig::from_url(url)
        .api_key(api_key)
        .skip_compatibility_check()
        .build()
}

/// Relies on the `Display` impl of `qdrant_client::QdrantError` for the
/// diagnostic text that names the underlying connection failure.
#[verifier::external_body]
fn qdrant_error_description(e: &qdrant_client::QdrantError) -> String {
    format!("{}", e)
}

/// Relies on std's `Arc::clone`: the returned handle refers to the same
/// underlying client as the argument.
#[verifier::external_body]
fn clone_client(c: &std::sync::Arc<qdrant_client::Qdrant>) -> (r: std::sync::Arc<
    qdrant_client::Qdrant,
>)
    ensures
        r == *c,
{
    std::sync::Arc::clone(c)
}

/// Why a registry could not be built: a missing environment variable, or a
/// failure reported by the client library. Each error names the exact cluster
/// it concerns, so an operator can fix the deployment without reading code.
#[derive(Clone, Debug, PartialEq, Eq)]
pub enum QdrantBuildError {
    /// The `<prefix>_URL` variable of this cluster is not set.
    MissingUrl(QdrantCluster),
    /// The `<prefix>_API_KEY` variable of this cluster is not set.
    MissingApiKey(QdrantCluster),
    /// The client library failed to construct this cluster's handle; the
    /// string preserves its diagnostic text.
    ConnectionError(QdrantCluster, String),
}

impl QdrantBuildError {
    /// The cluster this error concerns.
    pub open spec fn spec_cluster(&self) -> QdrantCluster {
        match *self {
            QdrantBuildError::MissingUrl(c) => c,
            QdrantBuildError::MissingApiKey(c) => c,
            QdrantBuildError::ConnectionError(c, _) => c,
        }
    }

    /// The cluster this error concerns.
    pub fn cluster(&self) -> (r: QdrantCluster)
        ensures
            r == self.spec_cluster(),
    {
        match self {
            QdrantBuildError::MissingUrl(c) => *c,
            QdrantBuildError::MissingApiKey(c) => *c,
            QdrantBuildError::ConnectionError(c, _) => *c,
        }
    }
}

/// Both connection variables of `cluster` are present in the environment.
pub open spec fn env_has_cluster_vars(
    env: Map<Seq<char>, Seq<char>>,
    cluster: QdrantCluster,
) -> bool {
    env.contains_key(spec_url_var(cluster)) && env.contains_key(spec_api_key_var(cluster))
}

/// Every cluster before position `k` of the enumeration has both variables.
pub open spec fn env_has_vars_before(env: Map<Seq<char>, Seq<char>>, k: int) -> bool {
    forall|j: int|
        0 <= j < k ==> env_has_cluster_vars(env, #[trigger] spec_cluster_variants()[j])
}

/// What a failed build reports. Clusters are attempted in enumeration order
/// and the first failure aborts the build, so every cluster before the named
/// one had both of its variables present; a connection error is reported only
/// where the client construction does fail on the resolved parameters.
pub open spec fn spec_build_err(env: Map<Seq<char>, Seq<char>>, e: QdrantBuildError) -> bool {
    match e {
        QdrantBuildError::MissingUrl(c) => {
            &&& !env.contains_key(spec_url_var(c))
            &&& env_has_vars_before(env, spec_cluster_index(c))
        },
        QdrantBuildError::MissingApiKey(c) => {
            &&& env.contains_key(spec_url_var(c))
            &&& !env.contains_key(spec_api_key_var(c))
            &&& env_has_vars_before(env, spec_cluster_index(c))
        },
        QdrantBuildError::ConnectionError(c, _cause) => {
            &&& env_has_cluster_vars(env, c)
            &&& !connect_ok(env[spec_url_var(c)], env[spec_api_key_var(c)])
            &&& env_has_vars_before(env, spec_cluster_index(c))
        },
    }
}

/// The registry: one client handle per enumerated cluster. Once built, its
/// mapping holds exactly the clusters of the enumeration — no more, no fewer —
/// in enumeration order, and is never changed.
pub struct QdrantClients {
    clients: Vec<(QdrantCluster, std::sync::Arc<qdrant_client::Qdrant>)>,
}

impl QdrantClients {
    /// The registry's mapping, as a sequence of (cluster, handle) entries.
    pub closed spec fn spec_clients(&self) -> Seq<
        (QdrantCluster, std::sync::Arc<qdrant_client::Qdrant>),
    > {
        self.clients@
    }

    /// Well-formedness: one entry per enumerated cluster, in enumeration
    /// order. Every registry a successful `build` returns satisfies this.
    pub open spec fn wf(&self) -> bool {
        &&& self.spec_clients().len() == spec_cluster_variants().len()
        &&& forall|i: int|
            0 <= i < self.spec_clients().len() ==> (#[trigger] self.spec_clients()[i]).0
                == spec_cluster_variants()[i]
    }

    /// The handle registered for `cluster`.
    pub open spec fn spec_client(&self, cluster: QdrantCluster) -> std::sync::Arc<
        qdrant_client::Qdrant,
    > {
        self.spec_clients()[spec_cluster_index(cluster)].1
    }

    /// Builds the registry from an environment snapshot: for every cluster of
    /// the enumeration, in order, resolve its URL and API key and construct
    /// its client handle. Any single failure aborts the whole build — no
    /// partially populated registry is ever returned; when every cluster has
    /// both variables and its client construction succeeds, the build is owed
    /// a registry.
    pub fn build(env: &EnvVars) -> (r: Result<QdrantClients, QdrantBuildError>)
        ensures
            r matches Ok(reg) ==> reg.wf() && env_has_vars_before(
                env@,
                spec_cluster_variants().len() as int,
            ),
            r matches Err(e) ==> spec_build_err(env@, e),
            env_has_vars_before(env@, spec_cluster_variants().len() as int) && (forall|j: int|
                0 <= j < spec_cluster_variants().len() ==> connect_ok(
                    env@[spec_url_var(#[trigger] spec_cluster_variants()[j])],
                    env@[spec_api_key_var(spec_cluster_variants()[j])],
                )) ==> r is Ok,
    {
        let variants = cluster_variants();
        let mut clients: Vec<(QdrantCluster, std::sync::Arc<qdrant_client::Qdrant>)> = Vec::new();
        let mut idx: usize = 0;
        while idx < variants.len()
            invariant
                variants@ == spec_cluster_variants(),
                idx <= variants@.len(),
                clients@.len() == idx,
                forall|j: int|
                    0 <= j < idx ==> (#[trigger] clients@[j]).0 == spec_cluster_variants()[j],
                env_has_vars_before(env@, idx as int),
            decreases variants@.len() - idx,
        {
            let cluster = variants[idx];
            proof {
                lemma_cluster_index_in_variants(cluster);
                lemma_variants_distinct(spec_cluster_index(cluster), idx as int);
            }
            let url_name = url_env_var(cluster);
            let url = match env.get(&url_name) {
                Some(u) => u,
                None => {
                    return Err(QdrantBuildError::MissingUrl(cluster));
                },
            };
            let key_name = api_key_env_var(cluster);
            let api_key = match env.get(&key_name) {
                Some(k) => k,
                None => {
                    return Err(QdrantBuildError::MissingApiKey(cluster));
                },
            };
            match connect_qdrant(url.as_str(), api_key.as_str()) {
                Ok(client) => {
                    clients.push((cluster, std::sync::Arc::new(client)));
                },
                Err(e) => {
                    let cause = qdrant_error_description(&e);
                    return Err(QdrantBuildError::ConnectionError(cluster, cause));
                },
            }
            idx = idx + 1;
        }
        Ok(QdrantClients { clients })
    }

    /// The handle for `cluster`. Defined for every cluster of the enumeration
    /// on any well-formed registry; the branch for an unregistered cluster is
    /// proved unreachable — a miss would mean the registry invariant is
    /// broken, which must abort rather than risk addressing a wrong backend.
    pub fn client(&self, cluster: QdrantCluster) -> (r: std::sync::Arc<qdrant_client::Qdrant>)
        requires
            self.wf(),
        ensures
            r == self.spec_client(cluster),
    {
        let n = self.clients.len();
        let mut i: usize = 0;
        while i < n
            invariant
                self.wf(),
                n == self.spec_clients().len(),
                i <= n,
                forall|j: int| 0 <= j < i ==> (#[trigger] self.spec_clients()[j]).0 != cluster,
            decreases n - i,
        {
            let entry = &self.clients[i];
            if entry.0 == cluster {
                proof {
                    lemma_cluster_index_in_variants(cluster);
                    lemma_variants_distinct(spec_cluster_index(cluster), i as int);
                }
                return clone_client(&entry.1);
            }
            i = i + 1;
        }
        proof {
            lemma_cluster_index_in_variants(cluster);
            let k = spec_cluster_index(cluster);
            assert(self.spec_clients()[k].0 == spec_cluster_variants()[k]);
            assert(false);
        }
        unreached()
    }

    /// The primary cluster a routing configuration selects: the configured
    /// cluster, or the default cluster when no configuration is given.
    pub open spec fn spec_main_cluster(config: Option<QdrantDataSourceConfig>) -> QdrantCluster {
        match config {
            Some(c) => c.cluster,
            None => QdrantCluster::Main0,
        }
    }

    /// The client for the cluster the configuration selects, or for the
    /// default cluster when no configuration is given.
    pub fn main_client(&self, config: &Option<QdrantDataSourceConfig>) -> (r: std::sync::Arc<
        qdrant_client::Qdrant,
    >)
        requires
            self.wf(),
        ensures
            r == self.spec_client(Self::spec_main_cluster(*config)),
    {
        match config {
            Some(c) => self.client(c.cluster),
            None => self.client(QdrantCluster::Main0),
        }
    }

    /// The shadow-write cluster a routing configuration selects, if any:
    /// a pure projection, with no fallback default.
    pub open spec fn spec_shadow_write_cluster(config: Option<QdrantDataSourceConfig>) -> Option<
        QdrantCluster,
    > {
        match config {
            Some(c) => c.shadow_write_cluster,
            None => None,
        }
    }

    /// The shadow-write cluster of the configuration, if one is set.
    pub fn shadow_write_cluster(&self, config: &Option<QdrantDataSourceConfig>) -> (r: Option<
        QdrantCluster,
    >)
        ensures
            r == Self::spec_shadow_write_cluster(*config),
    {
        match config {
            Some(c) => c.shadow_write_cluster,
            None => None,
        }
    }

    /// The handle `shadow_write_client` returns: the client of the configured
    /// shadow-write cluster, or nothing when none is configured.
    pub open spec fn spec_shadow_write_client(
        &self,
        config: Option<QdrantDataSourceConfig>,
    ) -> Option<std::sync::Arc<qdrant_client::Qdrant>> {
        match Self::spec_shadow_write_cluster(config) {
            Some(c) => Some(self.spec_client(c)),
            None => None,
        }
    }

    /// The client of the configured shadow-write cluster; `None` means "do
    /// not shadow-write".
    pub fn shadow_write_client(&self, config: &Option<QdrantDataSourceConfig>) -> (r: Option<
        std::sync::Arc<qdrant_client::Qdrant>,
    >)
        requires
            self.wf(),
        ensures
            r == self.spec_shadow_write_client(*config),
    {
        match config {
            Some(c) => match c.shadow_write_cluster {
                Some(cluster) => Some(self.client(cluster)),
                None => None,
            },
            None => None,
        }
    }
}

impl Clone for QdrantClients {
    /// The clone holds the same mapping, entry for entry: every handle is
    /// shared with the original, none is recreated.
    fn clone(&self) -> (r: Self)
        ensures
            r.spec_clients() == self.spec_clients(),
    {
        let mut clients: Vec<(QdrantCluster, std::sync::Arc<qdrant_client::Qdrant>)> = Vec::new();
        let mut i: usize = 0;
        while i < self.clients.len()
            invariant
                i <= self.clients@.len(),
                clients@.len() == i,
                forall|j: int| 0 <= j < i ==> clients@[j] == self.clients@[j],
            decreases self.clients@.len() - i,
        {
            let entry = &self.clients[i];
            clients.push((entry.0, clone_client(&entry.1)));
            i = i + 1;
        }
        proof {
            assert(clients@ =~= self.clients@);
        }
        QdrantClients { clients }
    }
}

/// Law: with no routing configuration, `main_client` resolves the very handle
/// `client` returns for the default cluster.
pub proof fn lemma_main_client_default(reg: QdrantClients)
    requires
        reg.wf(),
    ensures
        reg.spec_client(QdrantClients::spec_main_cluster(None)) == reg.spec_client(
            QdrantCluster::Main0,
        ),
{
}

/// Law: with a configuration that names primary cluster `x`, `main_client`
/// resolves the very handle `client` returns for `x`, whatever the
/// shadow-write field holds.
pub proof fn lemma_main_client_configured(reg: QdrantClients, config: QdrantDataSourceConfig)
    requires
        reg.wf(),
    ensures
        reg.spec_client(QdrantClients::spec_main_cluster(Some(config))) == reg.spec_client(
            config.cluster,
        ),
{
}

/// Law: `shadow_write_cluster` is a pure projection — it returns the
/// configured shadow-write cluster when one is set, and nothing when the
/// field is absent or no configuration is given.
pub proof fn lemma_shadow_write_cluster_projection(x: QdrantCluster, y: QdrantCluster)
    ensures
        QdrantClients::spec_shadow_write_cluster(
            Some((QdrantDataSourceConfig { cluster: x, shadow_write_cluster: Some(y) })),
        ) == Some(y),
        QdrantClients::spec_shadow_write_cluster(
            Some((QdrantDataSourceConfig { cluster: x, shadow_write_cluster: None })),
        ) == None::<QdrantCluster>,
        QdrantClients::spec_shadow_write_cluster(None) == None::<QdrantCluster>,
{
}

/// Law: when a connection variable of the enumerated cluster is absent, no
/// registry is returned, and the error is the corresponding missing-variable
/// error naming that exact cluster. The hypotheses are exactly what `build`'s
/// contract guarantees of its result.
pub proof fn lemma_build_missing_var_reported(
    env: Map<Seq<char>, Seq<char>>,
    r: Result<QdrantClients, QdrantBuildError>,
)
    requires
        r matches Ok(reg) ==> env_has_vars_before(env, spec_cluster_variants().len() as int),
        r matches Err(e) ==> spec_build_err(env, e),
    ensures
        !env.contains_key(spec_url_var(QdrantCluster::Main0)) ==> r == Err::<
            QdrantClients,
            QdrantBuildError,
        >(QdrantBuildError::MissingUrl(QdrantCluster::Main0)),
        env.contains_key(spec_url_var(QdrantCluster::Main0)) && !env.contains_key(
            spec_api_key_var(QdrantCluster::Main0),
        ) ==> r == Err::<QdrantClients, QdrantBuildError>(
            QdrantBuildError::MissingApiKey(QdrantCluster::Main0),
        ),
{
    if !env_has_cluster_vars(env, QdrantCluster::Main0) && (r matches Ok(reg)) {
        assert(env_has_cluster_vars(env, spec_cluster_variants()[0]));
    }
}

/// Law: `shadow_write_client` is consistent with `shadow_write_cluster` — it
/// returns the client of cluster `y` exactly when `shadow_write_cluster`
/// returns `Some(y)`, and nothing exactly when it returns `None`.
pub proof fn lemma_shadow_write_client_consistent(
    reg: QdrantClients,
    config: Option<QdrantDataSourceConfig>,
)
    requires
        reg.wf(),
    ensures
        QdrantClients::spec_shadow_write_cluster(config) matches Some(y) ==> reg
            .spec_shadow_write_client(config) == Some(reg.spec_client(y)),
        QdrantClients::spec_shadow_write_cluster(config) is None <==> reg.spec_shadow_write_client(
            config,
        ) is None,
{
}

} // verus!


