//! The resources that the linter reports.
use crate::metrics::{metric_views, Metric, MetricView};
use vstd::prelude::*;
use vstd::string::*;

verus! {

/// The kind of a resource.
#[derive(Debug, Clone, Copy, PartialEq, Eq, Structural)]
pub enum ResourceType {
    DynamoDbTable,
    ElastiCacheRedisNode,
    ElastiCacheMemcachedNode,
}

/// What is known of the cluster behind an ElastiCache resource.
#[derive(Debug, Clone, PartialEq, Eq)]
pub struct ElastiCacheMetadata {
    pub cluster_id: String,
    pub engine: String,
    pub cache_node_type: String,
    pub preferred_az: String,
    pub cluster_mode_enabled: bool,
}

/// An [`ElastiCacheMetadata`] as a mathematical value.
pub struct ElastiCacheMetadataView {
    pub cluster_id: Seq<char>,
    pub engine: Seq<char>,
    pub cache_node_type: Seq<char>,
    pub preferred_az: Seq<char>,
    pub cluster_mode_enabled: bool,
}

impl View for ElastiCacheMetadata {
    type V = ElastiCacheMetadataView;

    open spec fn view(&self) -> ElastiCacheMetadataView {
        ElastiCacheMetadataView {
            cluster_id: self.cluster_id@,
            engine: self.engine@,
            cache_node_type: self.cache_node_type@,
            preferred_az: self.preferred_az@,
            cluster_mode_enabled: self.cluster_mode_enabled,
        }
    }
}

impl ElastiCacheMetadata {
    /// A copy with the same contents.
    pub fn duplicate(&self) -> (r: ElastiCacheMetadata)
        ensures
            r@ == self@,
    {
        ElastiCacheMetadata {
            cluster_id: self.cluster_id.clone(),
            engine: self.engine.clone(),
            cache_node_type: self.cache_node_type.clone(),
            preferred_az: self.preferred_az.clone(),
            cluster_mode_enabled: self.cluster_mode_enabled,
        }
    }
}

/// A Redis cluster or a Memcached node.
#[derive(Debug, Clone, PartialEq, Eq)]
pub struct ElastiCacheResource {
    pub resource_type: ResourceType,
    pub region: String,
    /// Unique among the resources of one type in one region.
    pub id: String,
    /// Empty until the resource is enriched.
    pub metrics: Vec<Metric>,
    /// Zero until the resource is enriched.
    pub metric_period_seconds: i32,
    pub metadata: ElastiCacheMetadata,
}

/// An [`ElastiCacheResource`] as a mathematical value.
pub struct ElastiCacheResourceView {
    pub resource_type: ResourceType,
    pub region: Seq<char>,
    pub id: Seq<char>,
    pub metrics: Seq<MetricView>,
    pub metric_period_seconds: i32,
    pub metadata: ElastiCacheMetadataView,
}

impl View for ElastiCacheResource {
    type V = ElastiCacheResourceView;

    open spec fn view(&self) -> ElastiCacheResourceView {
        ElastiCacheResourceView {
            resource_type: self.resource_type,
            region: self.region@,
            id: self.id@,
            metrics: metric_views(self.metrics@),
            metric_period_seconds: self.metric_period_seconds,
            metadata: self.metadata@,
        }
    }
}

/// A DynamoDB table.
#[derive(Debug, Clone, PartialEq, Eq)]
pub struct DynamoDbResource {
    pub resource_type: ResourceType,
    pub region: String,
    /// Unique among the resources of one type in one region.
    pub id: String,
    /// Empty until the resource is enriched.
    pub metrics: Vec<Metric>,
    /// Zero until the resource is enriched.
    pub metric_period_seconds: i32,
}

/// A [`DynamoDbResource`] as a mathematical value.
pub struct DynamoDbResourceView {
    pub resource_type: ResourceType,
    pub region: Seq<char>,
    pub id: Seq<char>,
    pub metrics: Seq<MetricView>,
    pub metric_period_seconds: i32,
}

impl View for DynamoDbResource {
    type V = DynamoDbResourceView;

    open spec fn view(&self) -> DynamoDbResourceView {
        DynamoDbResourceView {
            resource_type: self.resource_type,
            region: self.region@,
            id: self.id@,
            metrics: metric_views(self.metrics@),
            metric_period_seconds: self.metric_period_seconds,
        }
    }
}

/// A discovered cloud entity, by family.
#[derive(Debug, Clone, PartialEq, Eq)]
pub enum Resource {
    DynamoDb(DynamoDbResource),
    ElastiCache(ElastiCacheResource),
}

/// A [`Resource`] as a mathematical value.
pub enum ResourceView {
    DynamoDb(DynamoDbResourceView),
    ElastiCache(ElastiCacheResourceView),
}

impl View for Resource {
    type V = ResourceView;

    open spec fn view(&self) -> ResourceView {
        match self {
            Resource::DynamoDb(r) => ResourceView::DynamoDb(r@),
            Resource::ElastiCache(r) => ResourceView::ElastiCache(r@),
        }
    }
}

/// The views of `resources`, in order.
pub open spec fn resource_views(resources: Seq<Resource>) -> Seq<ResourceView> {
    Seq::new(resources.len(), |i: int| resources[i]@)
}

} // verus!
