use momento_cli::elasticache::{
    classify_cluster, classify_clusters, redis_cluster_identity, CacheClusterDescriptor,
    CacheNodeDescriptor,
};
use momento_cli::metrics::{cache_metrics, Statistic};
use momento_cli::resource::{
    ElastiCacheMetadata, ElastiCacheResource, Resource, ResourceType,
};

fn cluster(id: &str, engine: &str, group: Option<&str>, nodes: &[&str]) -> CacheClusterDescriptor {
    CacheClusterDescriptor {
        cache_cluster_id: Some(id.to_string()),
        cache_node_type: Some("cache.t3.micro".to_string()),
        preferred_availability_zone: Some("us-east-1a".to_string()),
        engine: Some(engine.to_string()),
        replication_group_id: group.map(|g| g.to_string()),
        cache_nodes: Some(
            nodes
                .iter()
                .map(|n| CacheNodeDescriptor { cache_node_id: Some(n.to_string()) })
                .collect(),
        ),
    }
}

fn cache_resource(resource: &Resource) -> &ElastiCacheResource {
    match resource {
        Resource::ElastiCache(r) => r,
        Resource::DynamoDb(_) => panic!("not a cache resource"),
    }
}

fn resource(resource_type: ResourceType, id: &str, cluster_id: &str) -> ElastiCacheResource {
    ElastiCacheResource {
        resource_type,
        region: "us-west-2".to_string(),
        id: id.to_string(),
        metrics: vec![],
        metric_period_seconds: 0,
        metadata: ElastiCacheMetadata {
            cluster_id: cluster_id.to_string(),
            engine: "redis".to_string(),
            cache_node_type: "cache.t3.micro".to_string(),
            preferred_az: "us-west-2a".to_string(),
            cluster_mode_enabled: false,
        },
    }
}

#[test]
fn redis_cluster_mode_with_two_segments() {
    let (cluster_id, enabled) = redis_cluster_identity("myrepl-0001-001", Some("myrepl"));
    assert_eq!(cluster_id, "0001-001");
    assert!(enabled);
}

#[test]
fn redis_cluster_mode_with_one_segment() {
    let (cluster_id, enabled) = redis_cluster_identity("myrepl-001", Some("myrepl"));
    assert_eq!(cluster_id, "001");
    assert!(!enabled);
}

#[test]
fn redis_without_replication_group_keeps_id() {
    let (cluster_id, enabled) = redis_cluster_identity("solo-0001", None);
    assert_eq!(cluster_id, "solo-0001");
    assert!(!enabled);
}

#[test]
fn redis_strips_the_prefix_once() {
    let (cluster_id, enabled) = redis_cluster_identity("myrepl-myrepl-001", Some("myrepl"));
    assert_eq!(cluster_id, "myrepl-001");
    assert!(enabled);
    let (numbered, numbered_mode) = redis_cluster_identity("0001-0001-001", Some("0001"));
    assert_eq!(numbered, "0001-001");
    assert!(numbered_mode);
    let (cluster_id, enabled) = redis_cluster_identity("a-a-0001-001", Some("a"));
    assert_eq!(cluster_id, "a-0001-001");
    assert!(!enabled);
    let (rest, mode) = redis_cluster_identity("ab-ab-", Some("ab"));
    assert_eq!(rest, "ab-");
    assert!(mode);
    let (nothing, none_left) = redis_cluster_identity("ab-", Some("ab"));
    assert_eq!(nothing, "");
    assert!(!none_left);
}

#[test]
fn redis_cluster_with_repeated_prefix_is_in_cluster_mode() {
    let found = classify_cluster(
        &cluster("myrepl-myrepl-001", "redis", Some("myrepl"), &["0001"]),
        "us-east-1",
    )
    .expect("redis");
    assert_eq!(found.len(), 1);
    let r = cache_resource(&found[0]);
    assert_eq!(r.id, "myrepl-myrepl-001");
    assert_eq!(r.metadata.cluster_id, "myrepl-001");
    assert!(r.metadata.cluster_mode_enabled);
}

#[test]
fn redis_prefix_needs_the_hyphen_and_the_start() {
    let (unrelated, _) = redis_cluster_identity("other-0001-001", Some("myrepl"));
    assert_eq!(unrelated, "other-0001-001");
    let (inner, _) = redis_cluster_identity("x-myrepl-001", Some("myrepl"));
    assert_eq!(inner, "x-myrepl-001");
    let (no_hyphen, _) = redis_cluster_identity("myrepl001", Some("myrepl"));
    assert_eq!(no_hyphen, "myrepl001");
    let (three, enabled) = redis_cluster_identity("g-1-2-3", Some("g"));
    assert_eq!(three, "1-2-3");
    assert!(!enabled);
}

#[test]
fn redis_identity_handles_wide_characters() {
    let (cluster_id, enabled) = redis_cluster_identity("gr\u{fc}n-\u{e9}-\u{4e2d}", Some("gr\u{fc}n"));
    assert_eq!(cluster_id, "\u{e9}-\u{4e2d}");
    assert!(enabled);
}

#[test]
fn redis_cluster_is_one_resource() {
    let found = classify_cluster(
        &cluster("myrepl-0001-001", "redis", Some("myrepl"), &["0001", "0002"]),
        "us-east-1",
    )
    .expect("redis");
    assert_eq!(found.len(), 1);
    let r = cache_resource(&found[0]);
    assert_eq!(r.resource_type, ResourceType::ElastiCacheRedisNode);
    assert_eq!(r.region, "us-east-1");
    assert_eq!(r.id, "myrepl-0001-001");
    assert!(r.metrics.is_empty());
    assert_eq!(r.metric_period_seconds, 0);
    assert_eq!(
        r.metadata,
        ElastiCacheMetadata {
            cluster_id: "0001-001".to_string(),
            engine: "redis".to_string(),
            cache_node_type: "cache.t3.micro".to_string(),
            preferred_az: "us-east-1a".to_string(),
            cluster_mode_enabled: true,
        }
    );
}

#[test]
fn memcached_cluster_fans_out_to_three_nodes() {
    let found = classify_cluster(
        &cluster("mc", "memcached", None, &["0001", "0002", "0003"]),
        "eu-west-1",
    )
    .expect("memcached");
    assert_eq!(found.len(), 3);
    let ids: Vec<&str> = found.iter().map(|r| cache_resource(r).id.as_str()).collect();
    assert_eq!(ids, vec!["0001", "0002", "0003"]);
    let first = cache_resource(&found[0]);
    assert_eq!(
        first.metadata,
        ElastiCacheMetadata {
            cluster_id: "mc".to_string(),
            engine: "memcached".to_string(),
            cache_node_type: "cache.t3.micro".to_string(),
            preferred_az: "us-east-1a".to_string(),
            cluster_mode_enabled: false,
        }
    );
    for r in &found {
        let r = cache_resource(r);
        assert_eq!(r.resource_type, ResourceType::ElastiCacheMemcachedNode);
        assert_eq!(r.region, "eu-west-1");
        assert_eq!(r.metadata, first.metadata);
        assert!(r.metrics.is_empty());
        assert_eq!(r.metric_period_seconds, 0);
    }
}

#[test]
fn memcached_ignores_replication_group() {
    let found =
        classify_cluster(&cluster("mc-1", "memcached", Some("mc"), &["0001"]), "r").expect("ok");
    assert_eq!(cache_resource(&found[0]).metadata.cluster_id, "mc-1");
}

#[test]
fn memcached_without_node_list_gives_nothing() {
    let mut c = cluster("mc", "memcached", None, &[]);
    assert!(classify_cluster(&c, "r").expect("empty list").is_empty());
    c.cache_nodes = None;
    assert!(classify_cluster(&c, "r").expect("no list").is_empty());
}

#[test]
fn memcached_node_without_id_is_an_error() {
    let mut c = cluster("mc", "memcached", None, &["0001", "0002"]);
    c.cache_nodes.as_mut().expect("nodes")[1].cache_node_id = None;
    let e = classify_cluster(&c, "r").expect_err("node id");
    assert_eq!(e.msg, "Cache node has no ID");
}

#[test]
fn unknown_engine_is_fatal() {
    let e = classify_cluster(&cluster("v", "valkey", None, &["0001"]), "r").expect_err("engine");
    assert_eq!(e.msg, "Unsupported engine: valkey");
    let upper = classify_cluster(&cluster("v", "Redis", None, &[]), "r").expect_err("engine");
    assert_eq!(upper.msg, "Unsupported engine: Redis");
    let all = vec![
        cluster("a", "redis", None, &[]),
        cluster("v", "valkey", None, &["0001"]),
        cluster("m", "memcached", None, &["0001"]),
    ];
    let e = classify_clusters(&all, "r").expect_err("no partial result");
    assert_eq!(e.msg, "Unsupported engine: valkey");
}

#[test]
fn missing_fields_are_errors_in_order() {
    let mut c = cluster("id", "redis", None, &[]);
    c.engine = None;
    assert_eq!(classify_cluster(&c, "r").expect_err("e").msg, "ElastiCache cluster has no engine type");
    c.preferred_availability_zone = None;
    assert_eq!(
        classify_cluster(&c, "r").expect_err("e").msg,
        "ElastiCache cluster has no preferred availability zone"
    );
    c.cache_node_type = None;
    assert_eq!(classify_cluster(&c, "r").expect_err("e").msg, "ElastiCache cluster has no node type");
    c.cache_cluster_id = None;
    assert_eq!(classify_cluster(&c, "r").expect_err("e").msg, "ElastiCache cluster has no ID");
}

#[test]
fn clusters_are_classified_in_order() {
    let all = vec![
        cluster("m1", "memcached", None, &["0001", "0002"]),
        cluster("g-001", "redis", Some("g"), &["0001"]),
        cluster("m2", "memcached", None, &["0001"]),
    ];
    let found = classify_clusters(&all, "r").expect("all known");
    let ids: Vec<(&str, &str)> = found
        .iter()
        .map(|r| {
            let r = cache_resource(r);
            (r.metadata.cluster_id.as_str(), r.id.as_str())
        })
        .collect();
    assert_eq!(ids, vec![("m1", "0001"), ("m1", "0002"), ("001", "g-001"), ("m2", "0001")]);
    assert!(classify_clusters(&vec![], "r").expect("none").is_empty());
}

#[test]
fn first_failing_cluster_gives_the_error() {
    let mut broken = cluster("b", "redis", None, &[]);
    broken.cache_node_type = None;
    let all = vec![cluster("a", "redis", None, &[]), broken, cluster("v", "valkey", None, &[])];
    assert_eq!(classify_clusters(&all, "r").expect_err("e").msg, "ElastiCache cluster has no node type");
}

#[test]
fn redis_target_has_cluster_and_reporting_node() {
    let r = resource(ResourceType::ElastiCacheRedisNode, "myrepl-0001-001", "0001-001");
    let targets = r.create_metric_targets().expect("redis");
    assert_eq!(targets.len(), 1);
    let t = &targets[0];
    assert_eq!(t.namespace, "AWS/ElastiCache");
    assert_eq!(t.expression, "");
    let mut pairs = t.dimensions.to_pairs();
    pairs.sort();
    assert_eq!(
        pairs,
        vec![
            ("CacheClusterId".to_string(), "0001-001".to_string()),
            ("CacheNodeId".to_string(), "0001".to_string()),
        ]
    );
    assert_eq!(t.targets, cache_metrics());
}

#[test]
fn memcached_target_has_cluster_and_node() {
    let r = resource(ResourceType::ElastiCacheMemcachedNode, "0003", "mc");
    let targets = r.create_metric_targets().expect("memcached");
    assert_eq!(targets.len(), 1);
    let d = &targets[0].dimensions;
    assert_eq!(d.get("CacheClusterId").map(|s| s.as_str()), Some("mc"));
    assert_eq!(d.get("CacheNodeId").map(|s| s.as_str()), Some("0003"));
    assert_eq!(d.get("Other"), None);
    assert_eq!(d.to_pairs().len(), 2);
}

#[test]
fn other_resource_type_has_no_targets() {
    let r = resource(ResourceType::DynamoDbTable, "t", "t");
    assert_eq!(r.create_metric_targets().expect_err("type").msg, "Invalid resource type");
}

#[test]
fn cache_catalogue_is_the_literal_table() {
    let c = cache_metrics();
    assert_eq!(
        c.sum,
        vec![
            "NetworkBytesIn",
            "NetworkBytesOut",
            "GeoSpatialBasedCmds",
            "EvalBasedCmds",
            "GetTypeCmds",
            "HashBasedCmds",
            "JsonBasedCmds",
            "KeyBasedCmds",
            "ListBasedCmds",
            "SetBasedCmds",
            "SetTypeCmds",
            "StringBasedCmds",
            "PubSubBasedCmds",
            "SortedSetBasedCmds",
            "StreamBasedCmds",
        ]
    );
    assert_eq!(c.average, vec!["DB0AverageTTL"]);
    assert_eq!(
        c.maximum,
        vec![
            "CurrConnections",
            "NewConnections",
            "EngineCPUUtilization",
            "CPUUtilization",
            "FreeableMemory",
            "BytesUsedForCache",
            "DatabaseMemoryUsagePercentage",
            "CurrItems",
            "KeysTracked",
            "Evictions",
            "CacheHitRate",
        ]
    );
    assert_eq!(c.group(Statistic::Average), &c.average);
    assert_eq!(c.group(Statistic::Sum).len(), 15);
    assert_eq!(c.group(Statistic::Maximum).len(), 11);
}

#[test]
fn statistics_have_their_names_and_order() {
    assert_eq!(Statistic::all(), vec![Statistic::Sum, Statistic::Average, Statistic::Maximum]);
    assert_eq!(Statistic::Sum.name(), "Sum");
    assert_eq!(Statistic::Average.name(), "Average");
    assert_eq!(Statistic::Maximum.name(), "Maximum");
}

#[test]
fn setters_replace_metrics_and_period() {
    let mut r = resource(ResourceType::ElastiCacheRedisNode, "a", "a");
    let before = r.clone();
    r.set_metric_period_seconds(86400);
    assert_eq!(r.metric_period_seconds, 86400);
    r.set_metrics(vec![momento_cli::metrics::Metric {
        name: "CurrItems".to_string(),
        statistic: Statistic::Maximum,
        values: vec![4611686018427387904],
    }]);
    assert_eq!(r.metrics.len(), 1);
    assert_eq!(r.metrics[0].name, "CurrItems");
    assert_eq!(r.id, before.id);
    assert_eq!(r.region, before.region);
    assert_eq!(r.metadata, before.metadata);
    assert_eq!(r.resource_type, before.resource_type);
}
