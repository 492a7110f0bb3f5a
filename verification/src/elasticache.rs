//! ElastiCache: from the cluster descriptors that the service lists to the
//! resources that the linter reports, and to their metric targets.
use crate::dimensions::Dimensions;
use crate::error::CliError;
use crate::metrics::{
    cache_catalogue, cache_metrics, target_views, Metric, MetricTarget, MetricTargetView,
    metric_views,
};
use crate::resource::{
    resource_views, ElastiCacheMetadata, ElastiCacheMetadataView, ElastiCacheResource,
    ElastiCacheResourceView, Resource, ResourceType, ResourceView,
};
use crate::text::{
    chars_of, count_from, has_prefix, joined, occurrences, segment_count, str_eq,
    without_prefix,
};
use vstd::prelude::*;
use vstd::string::*;

verus! {

/// The engine name of a Redis cluster.
pub const REDIS: &'static str = "redis";

/// The engine name of a Memcached cluster.
pub const MEMCACHED: &'static str = "memcached";

/// The CloudWatch namespace of the ElastiCache metrics.
pub const NAMESPACE: &'static str = "AWS/ElastiCache";

/// The dimension that names the cluster.
pub const CLUSTER_DIMENSION: &'static str = "CacheClusterId";

/// The dimension that names the node.
pub const NODE_DIMENSION: &'static str = "CacheNodeId";

/// The node that reports for a Redis cluster.
pub const REDIS_REPORTING_NODE: &'static str = "0001";

/// What starts the message of the error for a failed request for a page of
/// clusters.
pub const DESCRIBE_FAILURE: &'static str = "Failed to describe cache clusters: ";

pub const NO_CLUSTER_ID: &'static str = "ElastiCache cluster has no ID";

pub const NO_NODE_TYPE: &'static str = "ElastiCache cluster has no node type";

pub const NO_AVAILABILITY_ZONE: &'static str =
    "ElastiCache cluster has no preferred availability zone";

pub const NO_ENGINE: &'static str = "ElastiCache cluster has no engine type";

pub const NO_NODE_ID: &'static str = "Cache node has no ID";

pub const UNSUPPORTED_ENGINE: &'static str = "Unsupported engine: ";

pub const INVALID_RESOURCE_TYPE: &'static str = "Invalid resource type";

/// One cache node, as the service describes it.
#[derive(Debug, Clone, PartialEq, Eq)]
pub struct CacheNodeDescriptor {
    pub cache_node_id: Option<String>,
}

/// One cache cluster, as the service describes it. Every field may be
/// missing from a description.
#[derive(Debug, Clone, PartialEq, Eq)]
pub struct CacheClusterDescriptor {
    pub cache_cluster_id: Option<String>,
    pub cache_node_type: Option<String>,
    pub preferred_availability_zone: Option<String>,
    pub engine: Option<String>,
    pub replication_group_id: Option<String>,
    pub cache_nodes: Option<Vec<CacheNodeDescriptor>>,
}

/// A [`CacheClusterDescriptor`] as a mathematical value; a node is the text
/// of its id, if it has one.
pub struct CacheClusterView {
    pub cache_cluster_id: Option<Seq<char>>,
    pub cache_node_type: Option<Seq<char>>,
    pub preferred_availability_zone: Option<Seq<char>>,
    pub engine: Option<Seq<char>>,
    pub replication_group_id: Option<Seq<char>>,
    pub cache_nodes: Option<Seq<Option<Seq<char>>>>,
}

/// The text of an optional string.
pub open spec fn text_of(s: Option<String>) -> Option<Seq<char>> {
    match s {
        Some(s) => Some(s@),
        None => None,
    }
}

/// The ids of `nodes`, in order.
pub open spec fn node_ids(nodes: Seq<CacheNodeDescriptor>) -> Seq<Option<Seq<char>>> {
    Seq::new(nodes.len(), |i: int| text_of(nodes[i].cache_node_id))
}

impl View for CacheClusterDescriptor {
    type V = CacheClusterView;

    open spec fn view(&self) -> CacheClusterView {
        CacheClusterView {
            cache_cluster_id: text_of(self.cache_cluster_id),
            cache_node_type: text_of(self.cache_node_type),
            preferred_availability_zone: text_of(self.preferred_availability_zone),
            engine: text_of(self.engine),
            replication_group_id: text_of(self.replication_group_id),
            cache_nodes: match self.cache_nodes {
                Some(nodes) => Some(node_ids(nodes@)),
                None => None,
            },
        }
    }
}

/// The views of `clusters`, in order.
pub open spec fn cluster_views(clusters: Seq<CacheClusterDescriptor>) -> Seq<CacheClusterView> {
    Seq::new(clusters.len(), |i: int| clusters[i]@)
}

/// The cluster id of a Redis cluster: its own id without the id of its
/// replication group and a hyphen at the start, taken off once; its own id
/// as it is where it does not start so, or belongs to no replication group.
pub open spec fn redis_cluster_id(cache_cluster_id: Seq<char>, group: Option<Seq<char>>) -> Seq<
    char,
> {
    match group {
        Some(group) => without_prefix(cache_cluster_id, group + seq!['-']),
        None => cache_cluster_id,
    }
}

/// Whether a Redis cluster runs in cluster mode: it belongs to a replication
/// group, and its cluster id splits at hyphens into exactly two pieces.
pub open spec fn redis_cluster_mode(cache_cluster_id: Seq<char>, group: Option<Seq<char>>) -> bool {
    group is Some && segment_count(redis_cluster_id(cache_cluster_id, group), '-') == 2
}

/// A cache resource as discovery leaves it: without metrics.
pub open spec fn discovered(
    resource_type: ResourceType,
    region: Seq<char>,
    id: Seq<char>,
    metadata: ElastiCacheMetadataView,
) -> ResourceView {
    ResourceView::ElastiCache(
        ElastiCacheResourceView {
            resource_type,
            region,
            id,
            metrics: Seq::empty(),
            metric_period_seconds: 0,
            metadata,
        },
    )
}

/// The one resource of a Redis cluster.
pub open spec fn redis_resource(
    cache_cluster_id: Seq<char>,
    cache_node_type: Seq<char>,
    preferred_az: Seq<char>,
    engine: Seq<char>,
    group: Option<Seq<char>>,
    region: Seq<char>,
) -> ResourceView {
    discovered(
        ResourceType::ElastiCacheRedisNode,
        region,
        cache_cluster_id,
        ElastiCacheMetadataView {
            cluster_id: redis_cluster_id(cache_cluster_id, group),
            engine,
            cache_node_type,
            preferred_az,
            cluster_mode_enabled: redis_cluster_mode(cache_cluster_id, group),
        },
    )
}

/// The resources of a Memcached cluster: one for each node, in the order of
/// the nodes, all with the cluster's metadata. A node without an id is an
/// error.
pub open spec fn memcached_resources(
    metadata: ElastiCacheMetadataView,
    nodes: Seq<Option<Seq<char>>>,
    region: Seq<char>,
) -> Result<Seq<ResourceView>, Seq<char>> {
    if exists|i: int| 0 <= i < nodes.len() && nodes[i] is None {
        Err(NO_NODE_ID@)
    } else {
        Ok(
            Seq::new(
                nodes.len(),
                |i: int|
                    discovered(
                        ResourceType::ElastiCacheMemcachedNode,
                        region,
                        nodes[i]->0,
                        metadata,
                    ),
            ),
        )
    }
}

/// The resources of one cluster, or the message of the error that the
/// cluster gives rise to.
pub open spec fn classify(cluster: CacheClusterView, region: Seq<char>) -> Result<
    Seq<ResourceView>,
    Seq<char>,
> {
    if cluster.cache_cluster_id is None {
        Err(NO_CLUSTER_ID@)
    } else if cluster.cache_node_type is None {
        Err(NO_NODE_TYPE@)
    } else if cluster.preferred_availability_zone is None {
        Err(NO_AVAILABILITY_ZONE@)
    } else if cluster.engine is None {
        Err(NO_ENGINE@)
    } else {
        let id = cluster.cache_cluster_id->0;
        let node_type = cluster.cache_node_type->0;
        let az = cluster.preferred_availability_zone->0;
        let engine = cluster.engine->0;
        if engine == REDIS@ {
            Ok(seq![redis_resource(id, node_type, az, engine, cluster.replication_group_id, region)])
        } else if engine == MEMCACHED@ {
            memcached_resources(
                ElastiCacheMetadataView {
                    cluster_id: id,
                    engine,
                    cache_node_type: node_type,
                    preferred_az: az,
                    cluster_mode_enabled: false,
                },
                match cluster.cache_nodes {
                    Some(nodes) => nodes,
                    None => Seq::empty(),
                },
                region,
            )
        } else {
            Err(UNSUPPORTED_ENGINE@ + engine)
        }
    }
}

/// The resources of `clusters`, cluster after cluster, or the message of the
/// error of the first cluster that gives rise to one.
pub open spec fn classify_all(clusters: Seq<CacheClusterView>, region: Seq<char>) -> Result<
    Seq<ResourceView>,
    Seq<char>,
>
    decreases clusters.len(),
{
    if clusters.len() == 0 {
        Ok(Seq::empty())
    } else {
        match classify_all(clusters.drop_last(), region) {
            Err(message) => Err(message),
            Ok(before) => match classify(clusters.last(), region) {
                Err(message) => Err(message),
                Ok(resources) => Ok(before + resources),
            },
        }
    }
}

/// The cluster id and the cluster mode of a Redis cluster, from its own id
/// and the id of its replication group.
pub fn redis_cluster_identity(cache_cluster_id: &str, replication_group_id: Option<&str>) -> (r: (
    String,
    bool,
))
    ensures
        r.0@ == redis_cluster_id(cache_cluster_id@, replication_group_id.deep_view()),
        r.1 == redis_cluster_mode(cache_cluster_id@, replication_group_id.deep_view()),
{
    match replication_group_id {
        Some(group) => {
            proof {
                reveal_strlit("-");
            }
            let prefix = joined(group, "-");
            assert(prefix@ =~= group@ + seq!['-']);
            let id = chars_of(cache_cluster_id);
            let prefix = chars_of(prefix.as_str());
            let start: usize = if has_prefix(&id, &prefix) {
                prefix.len()
            } else {
                assert(id@.skip(0) =~= id@);
                0
            };
            let hyphens = count_from(&id, start, '-');
            let rest = cache_cluster_id.substring_char(start, id.len());
            assert(cache_cluster_id@.subrange(start as int, id.len() as int) =~= id@.skip(
                start as int,
            ));
            (rest.to_owned(), hyphens == 1)
        },
        None => (cache_cluster_id.to_owned(), false),
    }
}

/// A cache resource without metrics.
fn new_resource(
    resource_type: ResourceType,
    region: &str,
    id: &str,
    metadata: ElastiCacheMetadata,
) -> (r: Resource)
    ensures
        r@ == discovered(resource_type, region@, id@, metadata@),
{
    let metrics: Vec<Metric> = Vec::new();
    assert(metric_views(metrics@) =~= Seq::<crate::metrics::MetricView>::empty());
    Resource::ElastiCache(
        ElastiCacheResource {
            resource_type,
            region: region.to_owned(),
            id: id.to_owned(),
            metrics,
            metric_period_seconds: 0,
            metadata,
        },
    )
}

/// The resources of the nodes of a Memcached cluster.
fn memcached_nodes(
    metadata: &ElastiCacheMetadata,
    nodes: &Vec<CacheNodeDescriptor>,
    region: &str,
) -> (r: Result<Vec<Resource>, CliError>)
    ensures
        match r {
            Ok(resources) => memcached_resources(metadata@, node_ids(nodes@), region@) == Ok::<
                Seq<ResourceView>,
                Seq<char>,
            >(resource_views(resources@)),
            Err(e) => memcached_resources(metadata@, node_ids(nodes@), region@) == Err::<
                Seq<ResourceView>,
                Seq<char>,
            >(e@),
        },
{
    let mut resources: Vec<Resource> = Vec::new();
    let mut i: usize = 0;
    while i < nodes.len()
        invariant
            i <= nodes@.len(),
            resources@.len() == i,
            forall|k: int| 0 <= k < i ==> node_ids(nodes@)[k] is Some,
            forall|k: int|
                0 <= k < i ==> (#[trigger] resources@[k])@ == discovered(
                    ResourceType::ElastiCacheMemcachedNode,
                    region@,
                    node_ids(nodes@)[k]->0,
                    metadata@,
                ),
        decreases nodes@.len() - i,
    {
        match &nodes[i].cache_node_id {
            Some(id) => {
                resources.push(
                    new_resource(
                        ResourceType::ElastiCacheMemcachedNode,
                        region,
                        id.as_str(),
                        metadata.duplicate(),
                    ),
                );
            },
            None => {
                assert(node_ids(nodes@)[i as int] is None);
                return Err(CliError::new(NO_NODE_ID));
            },
        }
        i = i + 1;
    }
    assert(resource_views(resources@) =~= memcached_resources(
        metadata@,
        node_ids(nodes@),
        region@,
    )->Ok_0);
    Ok(resources)
}

/// The resources of one cluster: one for a Redis cluster, one for each node
/// of a Memcached cluster. A cluster that lacks its id, node type,
/// availability zone or engine, a Memcached node that lacks its id, and any
/// other engine are errors.
pub fn classify_cluster(cluster: &CacheClusterDescriptor, region: &str) -> (r: Result<
    Vec<Resource>,
    CliError,
>)
    ensures
        match r {
            Ok(resources) => classify(cluster@, region@) == Ok::<Seq<ResourceView>, Seq<char>>(
                resource_views(resources@),
            ),
            Err(e) => classify(cluster@, region@) == Err::<Seq<ResourceView>, Seq<char>>(e@),
        },
{
    let cache_cluster_id = match &cluster.cache_cluster_id {
        Some(id) => id,
        None => {
            return Err(CliError::new(NO_CLUSTER_ID));
        },
    };
    let cache_node_type = match &cluster.cache_node_type {
        Some(node_type) => node_type,
        None => {
            return Err(CliError::new(NO_NODE_TYPE));
        },
    };
    let preferred_az = match &cluster.preferred_availability_zone {
        Some(az) => az,
        None => {
            return Err(CliError::new(NO_AVAILABILITY_ZONE));
        },
    };
    let engine = match &cluster.engine {
        Some(engine) => engine,
        None => {
            return Err(CliError::new(NO_ENGINE));
        },
    };
    if str_eq(engine.as_str(), REDIS) {
        let group: Option<&str> = match &cluster.replication_group_id {
            Some(group) => Some(group.as_str()),
            None => None,
        };
        let (cluster_id, cluster_mode_enabled): (String, bool) = redis_cluster_identity(
            cache_cluster_id.as_str(),
            group,
        );
        let metadata = ElastiCacheMetadata {
            cluster_id,
            engine: engine.clone(),
            cache_node_type: cache_node_type.clone(),
            preferred_az: preferred_az.clone(),
            cluster_mode_enabled,
        };
        let mut resources: Vec<Resource> = Vec::new();
        resources.push(
            new_resource(
                ResourceType::ElastiCacheRedisNode,
                region,
                cache_cluster_id.as_str(),
                metadata,
            ),
        );
        assert(resource_views(resources@) =~= classify(cluster@, region@)->Ok_0);
        Ok(resources)
    } else if str_eq(engine.as_str(), MEMCACHED) {
        let metadata = ElastiCacheMetadata {
            cluster_id: cache_cluster_id.clone(),
            engine: engine.clone(),
            cache_node_type: cache_node_type.clone(),
            preferred_az: preferred_az.clone(),
            cluster_mode_enabled: false,
        };
        match &cluster.cache_nodes {
            Some(nodes) => memcached_nodes(&metadata, nodes, region),
            None => {
                let resources: Vec<Resource> = Vec::new();
                assert(resource_views(resources@) =~= classify(cluster@, region@)->Ok_0);
                Ok(resources)
            },
        }
    } else {
        Err(CliError::with_detail(UNSUPPORTED_ENGINE, engine.as_str()))
    }
}

/// The resources of `clusters`, in the order of the clusters. The first
/// cluster that gives rise to an error ends the work, and no resource is
/// returned.
pub fn classify_clusters(clusters: &Vec<CacheClusterDescriptor>, region: &str) -> (r: Result<
    Vec<Resource>,
    CliError,
>)
    ensures
        match r {
            Ok(resources) => classify_all(cluster_views(clusters@), region@) == Ok::<
                Seq<ResourceView>,
                Seq<char>,
            >(resource_views(resources@)),
            Err(e) => classify_all(cluster_views(clusters@), region@) == Err::<
                Seq<ResourceView>,
                Seq<char>,
            >(e@),
        },
{
    let mut resources: Vec<Resource> = Vec::new();
    let mut i: usize = 0;
    assert(cluster_views(clusters@).take(0) =~= Seq::<CacheClusterView>::empty());
    assert(resource_views(resources@) =~= Seq::<ResourceView>::empty());
    while i < clusters.len()
        invariant
            i <= clusters@.len(),
            classify_all(cluster_views(clusters@).take(i as int), region@) == Ok::<
                Seq<ResourceView>,
                Seq<char>,
            >(resource_views(resources@)),
        decreases clusters@.len() - i,
    {
        let ghost before = resource_views(resources@);
        proof {
            assert(cluster_views(clusters@).take(i + 1).drop_last() =~= cluster_views(
                clusters@,
            ).take(i as int));
            assert(cluster_views(clusters@).take(i + 1).last() == clusters@[i as int]@);
        }
        match classify_cluster(&clusters[i], region) {
            Ok(mut found) => {
                let ghost added = resource_views(found@);
                resources.append(&mut found);
                assert(resource_views(resources@) =~= before + added);
            },
            Err(e) => {
                proof {
                    lemma_error_stays(cluster_views(clusters@), i + 1, region@);
                }
                return Err(e);
            },
        }
        i = i + 1;
    }
    assert(cluster_views(clusters@).take(clusters@.len() as int) =~= cluster_views(clusters@));
    Ok(resources)
}

/// Once the first `n` clusters give rise to an error, all of them do, and to
/// the same one.
pub proof fn lemma_error_stays(clusters: Seq<CacheClusterView>, n: int, region: Seq<char>)
    requires
        0 <= n <= clusters.len(),
        classify_all(clusters.take(n), region) is Err,
    ensures
        classify_all(clusters, region) == classify_all(clusters.take(n), region),
    decreases clusters.len() - n,
{
    if n < clusters.len() {
        assert(clusters.take(n + 1).drop_last() =~= clusters.take(n));
        lemma_error_stays(clusters, n + 1, region);
    } else {
        assert(clusters.take(n) =~= clusters);
    }
}

/// An engine that is neither Redis nor Memcached is fatal: a list of
/// clusters that holds one with such an engine gives an error, and with it
/// no resource at all.
pub proof fn lemma_unsupported_engine_is_fatal(
    clusters: Seq<CacheClusterView>,
    i: int,
    region: Seq<char>,
)
    requires
        0 <= i < clusters.len(),
        clusters[i].engine matches Some(engine) && engine != REDIS@ && engine != MEMCACHED@,
    ensures
        classify_all(clusters, region) is Err,
{
    assert(classify(clusters[i], region) is Err);
    assert(clusters.take(i + 1).last() == clusters[i]);
    assert(classify_all(clusters.take(i + 1), region) is Err);
    lemma_error_stays(clusters, i + 1, region);
}

/// A Memcached cluster fans out: it gives one resource for each of its
/// nodes, in the order of the nodes, and the resources differ in nothing but
/// their ids, which are those of the nodes.
pub proof fn lemma_memcached_fan_out(cluster: CacheClusterView, region: Seq<char>)
    requires
        cluster.cache_cluster_id is Some,
        cluster.cache_node_type is Some,
        cluster.preferred_availability_zone is Some,
        cluster.engine == Some(MEMCACHED@),
        cluster.cache_nodes matches Some(nodes) && forall|i: int|
            0 <= i < nodes.len() ==> nodes[i] is Some,
    ensures
        classify(cluster, region) matches Ok(resources) && resources.len()
            == cluster.cache_nodes->0.len() && forall|i: int|
            0 <= i < resources.len() ==> #[trigger] resources[i] == discovered(
                ResourceType::ElastiCacheMemcachedNode,
                region,
                cluster.cache_nodes->0[i]->0,
                ElastiCacheMetadataView {
                    cluster_id: cluster.cache_cluster_id->0,
                    engine: MEMCACHED@,
                    cache_node_type: cluster.cache_node_type->0,
                    preferred_az: cluster.preferred_availability_zone->0,
                    cluster_mode_enabled: false,
                },
            ),
{
    reveal_strlit("redis");
    reveal_strlit("memcached");
    assert(REDIS@.len() != MEMCACHED@.len());
}

/// The metric target of a cache resource: the ElastiCache catalogue for the
/// series of one node of one cluster.
pub open spec fn cache_target(cluster_id: Seq<char>, node_id: Seq<char>) -> MetricTargetView {
    MetricTargetView {
        namespace: NAMESPACE@,
        expression: Seq::empty(),
        dimensions: map![CLUSTER_DIMENSION@ => cluster_id, NODE_DIMENSION@ => node_id],
        targets: cache_catalogue(),
    }
}

/// The metric targets of a cache resource, or the message of the error for a
/// resource of another type. A Redis cluster is queried at its reporting
/// node, a Memcached node at itself.
pub open spec fn metric_targets(resource: ElastiCacheResourceView) -> Result<
    Seq<MetricTargetView>,
    Seq<char>,
> {
    match resource.resource_type {
        ResourceType::ElastiCacheRedisNode => Ok(
            seq![cache_target(resource.metadata.cluster_id, REDIS_REPORTING_NODE@)],
        ),
        ResourceType::ElastiCacheMemcachedNode => Ok(
            seq![cache_target(resource.metadata.cluster_id, resource.id)],
        ),
        ResourceType::DynamoDbTable => Err(INVALID_RESOURCE_TYPE@),
    }
}

/// The two dimension names differ, so a cache target has exactly two
/// dimensions: the cluster under the one name and the node under the other.
pub proof fn lemma_cache_dimensions(cluster_id: Seq<char>, node_id: Seq<char>)
    ensures
        CLUSTER_DIMENSION@ != NODE_DIMENSION@,
        cache_target(cluster_id, node_id).dimensions.dom() =~= set![
            CLUSTER_DIMENSION@,
            NODE_DIMENSION@,
        ],
        cache_target(cluster_id, node_id).dimensions[CLUSTER_DIMENSION@] == cluster_id,
        cache_target(cluster_id, node_id).dimensions[NODE_DIMENSION@] == node_id,
{
    reveal_strlit("CacheClusterId");
    reveal_strlit("CacheNodeId");
    assert(CLUSTER_DIMENSION@.len() != NODE_DIMENSION@.len());
}

/// The metric target of a cache resource.
fn cache_metric_target(cluster_id: &str, node_id: &str) -> (r: MetricTarget)
    ensures
        r@ == cache_target(cluster_id@, node_id@),
{
    let dimensions = Dimensions::new().with(
        CLUSTER_DIMENSION.to_owned(),
        cluster_id.to_owned(),
    ).with(NODE_DIMENSION.to_owned(), node_id.to_owned());
    let expression = String::new();
    MetricTarget {
        namespace: NAMESPACE.to_owned(),
        expression,
        dimensions,
        targets: cache_metrics(),
    }
}

impl ElastiCacheResource {
    /// What to query for this resource. Only Redis clusters and Memcached
    /// nodes have metric targets.
    pub fn create_metric_targets(&self) -> (r: Result<Vec<MetricTarget>, CliError>)
        ensures
            match r {
                Ok(targets) => metric_targets(self@) == Ok::<Seq<MetricTargetView>, Seq<char>>(
                    target_views(targets@),
                ),
                Err(e) => metric_targets(self@) == Err::<Seq<MetricTargetView>, Seq<char>>(e@),
            },
    {
        let node_id: &str = match self.resource_type {
            ResourceType::ElastiCacheRedisNode => REDIS_REPORTING_NODE,
            ResourceType::ElastiCacheMemcachedNode => self.id.as_str(),
            ResourceType::DynamoDbTable => {
                return Err(CliError::new(INVALID_RESOURCE_TYPE));
            },
        };
        let mut targets: Vec<MetricTarget> = Vec::new();
        targets.push(cache_metric_target(self.metadata.cluster_id.as_str(), node_id));
        assert(target_views(targets@) =~= metric_targets(self@)->Ok_0);
        Ok(targets)
    }

    /// Attaches `metrics` in place of the metrics held so far.
    pub fn set_metrics(&mut self, metrics: Vec<Metric>)
        ensures
            final(self)@ == (ElastiCacheResourceView {
                metrics: metric_views(metrics@),
                ..old(self)@
            }),
    {
        self.metrics = metrics;
    }

    /// Records the period, in seconds, over which the metrics were gathered.
    pub fn set_metric_period_seconds(&mut self, period: i32)
        ensures
            final(self)@ == (ElastiCacheResourceView {
                metric_period_seconds: period,
                ..old(self)@
            }),
    {
        self.metric_period_seconds = period;
    }
}

} // verus!
