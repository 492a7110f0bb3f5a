use std::io::Read;

use momento_cli::dimensions::Dimensions;
use momento_cli::discovery::{Collected, PageCollector, PageFetch};
use momento_cli::elasticache::DESCRIBE_FAILURE;
use momento_cli::enrich::{Enriching, Enrichment};
use momento_cli::error::CliError;
use momento_cli::metrics::{Metric, Statistic};
use momento_cli::orchestrator::{
    configured_region, sent, start, Collection, Delivery, Family,
};
use momento_cli::report::{check_output_is_writable, compress, DataFormat, OutputDirectory};
use momento_cli::resource::{
    DynamoDbResource, ElastiCacheMetadata, ElastiCacheResource, Resource, ResourceType,
};
use momento_cli::text::{
    chars_eq, chars_of, count_from, decimal_string, has_prefix, joined, line_feeds_removed,
    str_eq,
};

fn cache(resource_type: ResourceType, id: &str) -> Resource {
    Resource::ElastiCache(ElastiCacheResource {
        resource_type,
        region: "us-east-1".to_string(),
        id: id.to_string(),
        metrics: vec![],
        metric_period_seconds: 0,
        metadata: ElastiCacheMetadata {
            cluster_id: "c".to_string(),
            engine: "memcached".to_string(),
            cache_node_type: "cache.t3.micro".to_string(),
            preferred_az: "us-east-1a".to_string(),
            cluster_mode_enabled: false,
        },
    })
}

fn table(id: &str) -> Resource {
    Resource::DynamoDb(DynamoDbResource {
        resource_type: ResourceType::DynamoDbTable,
        region: "us-east-1".to_string(),
        id: id.to_string(),
        metrics: vec![],
        metric_period_seconds: 0,
    })
}

fn metric(name: &str, statistic: Statistic, value: f64) -> Metric {
    Metric { name: name.to_string(), statistic, values: vec![value.to_bits()] }
}

fn run_pages(fetches: Vec<PageFetch<u32>>) -> Result<Vec<u32>, CliError> {
    let mut collector = PageCollector::new(DESCRIBE_FAILURE);
    for fetch in fetches {
        match collector.step(fetch) {
            Collected::Fetching(next) => collector = next,
            Collected::Complete(items) => return Ok(items),
            Collected::Failed(e) => return Err(e),
        }
    }
    panic!("the listing did not end");
}

#[test]
fn pages_are_concatenated_in_order() {
    let items = run_pages(vec![
        PageFetch::Page(Some(vec![1, 2])),
        PageFetch::Page(Some(vec![])),
        PageFetch::Page(None),
        PageFetch::Page(Some(vec![3])),
        PageFetch::Page(Some(vec![2, 4])),
        PageFetch::End,
    ])
    .expect("all pages");
    assert_eq!(items, vec![1, 2, 3, 2, 4]);
}

#[test]
fn listing_without_pages_is_empty() {
    assert_eq!(run_pages(vec![PageFetch::End]).expect("empty"), Vec::<u32>::new());
}

#[test]
fn failed_page_aborts_discovery() {
    let e = run_pages(vec![
        PageFetch::Page(Some(vec![1])),
        PageFetch::Failed("throttled".to_string()),
        PageFetch::Page(Some(vec![2])),
        PageFetch::End,
    ])
    .expect_err("failure");
    assert_eq!(e.msg, "Failed to describe cache clusters: throttled");
}

#[test]
fn enrichment_queries_every_group_once() {
    let mut step = Enrichment::begin(cache(ResourceType::ElastiCacheMemcachedNode, "0001"), 86400);
    let mut asked = vec![];
    let enriched = loop {
        match step {
            Enriching::Query(e) => {
                let statistic = e.statistic();
                assert_eq!(e.period_seconds(), 86400);
                assert_eq!(e.target().namespace, "AWS/ElastiCache");
                assert_eq!(e.target().dimensions.get("CacheNodeId").map(|s| s.as_str()), Some("0001"));
                let names = e.target().targets.group(statistic).clone();
                asked.push((statistic, names.len()));
                let answer = match statistic {
                    Statistic::Sum => vec![metric(names[0], statistic, 1.5)],
                    Statistic::Average => vec![],
                    Statistic::Maximum => {
                        vec![metric(names[0], statistic, 2.0), metric(names[1], statistic, 3.0)]
                    }
                };
                step = e.answer(Ok(answer));
            }
            Enriching::Done(resource) => break resource,
            Enriching::Failed(e) => panic!("{}", e.msg),
        }
    };
    assert_eq!(asked, vec![(Statistic::Sum, 15), (Statistic::Average, 1), (Statistic::Maximum, 11)]);
    match enriched {
        Resource::ElastiCache(r) => {
            assert_eq!(r.metric_period_seconds, 86400);
            assert_eq!(
                r.metrics,
                vec![
                    metric("NetworkBytesIn", Statistic::Sum, 1.5),
                    metric("CurrConnections", Statistic::Maximum, 2.0),
                    metric("NewConnections", Statistic::Maximum, 3.0),
                ]
            );
            assert_eq!(f64::from_bits(r.metrics[0].values[0]), 1.5);
            assert_eq!(r.id, "0001");
            assert_eq!(r.region, "us-east-1");
            assert_eq!(r.metadata.cluster_id, "c");
        }
        Resource::DynamoDb(_) => panic!("family changed"),
    }
}

#[test]
fn failed_query_aborts_enrichment() {
    match Enrichment::begin(cache(ResourceType::ElastiCacheRedisNode, "a"), 60) {
        Enriching::Query(e) => match e.answer(Ok(vec![metric("x", Statistic::Sum, 0.0)])) {
            Enriching::Query(e) => {
                assert_eq!(e.statistic(), Statistic::Average);
                match e.answer(Err("access denied".to_string())) {
                    Enriching::Failed(e) => {
                        assert_eq!(e.msg, "Failed to get metric data: access denied")
                    }
                    _ => panic!("not failed"),
                }
            }
            _ => panic!("no second query"),
        },
        _ => panic!("no first query"),
    }
}

#[test]
fn resource_without_targets_fails_enrichment() {
    match Enrichment::begin(table("t"), 60) {
        Enriching::Failed(e) => assert_eq!(e.msg, "Invalid resource type"),
        _ => panic!("a table has no targets here"),
    }
    match Enrichment::begin(cache(ResourceType::DynamoDbTable, "t"), 60) {
        Enriching::Failed(e) => assert_eq!(e.msg, "Invalid resource type"),
        _ => panic!("a table has no targets here"),
    }
    assert_eq!(table("t").create_metric_targets().expect_err("type").msg, "Invalid resource type");
}

#[test]
fn enrich_sets_metrics_and_period_only() {
    let enriched = table("t").enrich(vec![metric("m", Statistic::Sum, 1.0)], 300);
    match enriched {
        Resource::DynamoDb(r) => {
            assert_eq!(r.id, "t");
            assert_eq!(r.metric_period_seconds, 300);
            assert_eq!(r.metrics, vec![metric("m", Statistic::Sum, 1.0)]);
        }
        Resource::ElastiCache(_) => panic!("family changed"),
    }
}

#[test]
fn families_are_discovered_in_order_and_joined() {
    let state = match start() {
        Collection::Discover(family, state) => {
            assert_eq!(family, Family::DynamoDb);
            state
        }
        Collection::Forward(_) => panic!("nothing discovered yet"),
    };
    let state = match state.found(Ok(vec![table("t1"), table("t2")])).expect("tables") {
        Collection::Discover(family, state) => {
            assert_eq!(family, Family::ElastiCache);
            state
        }
        Collection::Forward(_) => panic!("one family left"),
    };
    let found = vec![cache(ResourceType::ElastiCacheRedisNode, "r1")];
    let mut forwarding = match state.found(Ok(found)).expect("caches") {
        Collection::Forward(forwarding) => forwarding,
        Collection::Discover(_, _) => panic!("no family left"),
    };
    let mut order = vec![];
    loop {
        match forwarding.next() {
            Delivery::Deliver(resource, rest) => {
                order.push(resource);
                forwarding = rest;
            }
            Delivery::Finish => break,
        }
    }
    assert_eq!(order, vec![table("t1"), table("t2"), cache(ResourceType::ElastiCacheRedisNode, "r1")]);
}

#[test]
fn failed_family_aborts_the_run() {
    match start() {
        Collection::Discover(_, state) => {
            let e = state.found(Err(CliError::new("Unsupported engine: valkey"))).err().expect("e");
            assert_eq!(e.msg, "Unsupported engine: valkey");
        }
        Collection::Forward(_) => panic!("nothing discovered yet"),
    }
}

#[test]
fn empty_run_finishes_at_once() {
    let state = match start() {
        Collection::Discover(_, state) => state,
        Collection::Forward(_) => panic!("nothing discovered yet"),
    };
    let state = match state.found(Ok(vec![])).expect("none") {
        Collection::Discover(_, state) => state,
        Collection::Forward(_) => panic!("one family left"),
    };
    match state.found(Ok(vec![])).expect("none") {
        Collection::Forward(forwarding) => assert!(matches!(forwarding.next(), Delivery::Finish)),
        Collection::Discover(_, _) => panic!("no family left"),
    }
}

#[test]
fn send_to_dropped_receiver_is_fatal() {
    assert!(sent(Ok(())).is_ok());
    assert_eq!(
        sent(Err("channel closed".to_string())).expect_err("closed").msg,
        "Failed to send elasticache resource: channel closed"
    );
}

#[test]
fn region_must_be_configured() {
    assert_eq!(configured_region(Some("us-west-2")).expect("region"), "us-west-2");
    assert_eq!(configured_region(None).expect_err("none").msg, "No region configured for client");
}

#[test]
fn output_directory_must_be_writable() {
    assert!(check_output_is_writable(OutputDirectory::Writable).is_ok());
    assert_eq!(
        check_output_is_writable(OutputDirectory::Absent).expect_err("e").msg,
        "Output file has no parent directory"
    );
    assert_eq!(
        check_output_is_writable(OutputDirectory::Unreadable).expect_err("e").msg,
        "Output file cannot be written"
    );
    assert_eq!(
        check_output_is_writable(OutputDirectory::ReadOnly).expect_err("e").msg,
        "Output file cannot be written"
    );
}

#[test]
fn report_keeps_arrival_order() {
    let mut report = DataFormat::new();
    assert_eq!(report.len(), 0);
    report.push(cache(ResourceType::ElastiCacheMemcachedNode, "b"));
    report.push(table("a"));
    report.push(cache(ResourceType::ElastiCacheRedisNode, "c"));
    assert_eq!(report.len(), 3);
    assert_eq!(
        report.resources,
        vec![
            cache(ResourceType::ElastiCacheMemcachedNode, "b"),
            table("a"),
            cache(ResourceType::ElastiCacheRedisNode, "c"),
        ]
    );
}

#[test]
fn compressed_report_round_trips() {
    let json = br#"{"resources":[{"resourceType":"AWS::ElastiCache::RedisNode","id":"a"}]}"#;
    let stream = compress(json).expect("gzip");
    assert_ne!(stream.as_slice(), json.as_slice());
    assert_eq!(&stream[..3], &[0x1f, 0x8b, 8]);
    let mut decoded = Vec::new();
    flate2::read::GzDecoder::new(stream.as_slice()).read_to_end(&mut decoded).expect("gunzip");
    assert_eq!(decoded, json);
    assert_eq!(compress(json).expect("gzip"), stream);
    let empty = compress(&[]).expect("gzip");
    let mut nothing = Vec::new();
    flate2::read::GzDecoder::new(empty.as_slice()).read_to_end(&mut nothing).expect("gunzip");
    assert!(nothing.is_empty());
}

#[test]
fn dimensions_hold_one_value_for_a_name() {
    let d = Dimensions::new();
    assert!(d.to_pairs().is_empty());
    assert_eq!(d.get("a"), None);
    let d = d
        .with("a".to_string(), "1".to_string())
        .with("b".to_string(), "2".to_string())
        .with("a".to_string(), "3".to_string());
    assert_eq!(d.get("a").map(|s| s.as_str()), Some("3"));
    assert_eq!(d.get("b").map(|s| s.as_str()), Some("2"));
    assert_eq!(d.get("c"), None);
    let mut pairs = d.to_pairs();
    pairs.sort();
    assert_eq!(pairs, vec![("a".to_string(), "3".to_string()), ("b".to_string(), "2".to_string())]);
}

#[test]
fn text_helpers_on_given_values() {
    assert!(str_eq("", ""));
    assert!(str_eq("gr\u{fc}n", "gr\u{fc}n"));
    assert!(!str_eq("abc", "abd"));
    assert!(!str_eq("abc", "ab"));
    assert_eq!(chars_of("a\u{4e2d}b"), vec!['a', '\u{4e2d}', 'b']);
    assert!(chars_eq(&vec!['a'], &vec!['a']));
    assert!(!chars_eq(&vec!['a'], &vec!['a', 'b']));
    assert_eq!(line_feeds_removed("\na\n\nb\r\n"), vec!['a', 'b', '\r']);
    assert_eq!(joined("ab", "cd"), "abcd");
    assert_eq!(decimal_string(0), "0");
    assert_eq!(decimal_string(9), "9");
    assert_eq!(decimal_string(1203), "1203");
    assert!(has_prefix(&chars_of("ababac"), &chars_of("ab")));
    assert!(has_prefix(&chars_of("abc"), &chars_of("")));
    assert!(has_prefix(&chars_of("ab"), &chars_of("ab")));
    assert!(!has_prefix(&chars_of("a"), &chars_of("ab")));
    assert!(!has_prefix(&chars_of("xab"), &chars_of("ab")));
    assert_eq!(count_from(&chars_of("a-b-c-"), 0, '-'), 3);
    assert_eq!(count_from(&chars_of("a-b-c-"), 2, '-'), 2);
    assert_eq!(count_from(&chars_of("a-b"), 3, '-'), 0);
}

#[test]
fn errors_carry_their_message() {
    assert_eq!(CliError::new("m").msg, "m");
    assert_eq!(CliError::with_detail("a: ", "b").message(), "a: b");
}
