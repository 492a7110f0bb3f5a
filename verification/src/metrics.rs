//! Metrics: what is observed, under which statistic, and for which target.
use crate::dimensions::Dimensions;
use vstd::prelude::*;
use vstd::string::*;

verus! {

/// How CloudWatch aggregates the observations of a metric.
#[derive(Debug, Clone, Copy, PartialEq, Eq, Structural)]
pub enum Statistic {
    Sum,
    Average,
    Maximum,
}

impl Statistic {
    /// The name of the statistic, as CloudWatch spells it.
    pub open spec fn spec_name(self) -> Seq<char> {
        match self {
            Statistic::Sum => "Sum"@,
            Statistic::Average => "Average"@,
            Statistic::Maximum => "Maximum"@,
        }
    }

    /// The name of the statistic, as CloudWatch spells it.
    pub fn name(&self) -> (r: &'static str)
        ensures
            r@ == self.spec_name(),
    {
        match self {
            Statistic::Sum => "Sum",
            Statistic::Average => "Average",
            Statistic::Maximum => "Maximum",
        }
    }

    /// The statistics in the order in which their groups are queried.
    pub open spec fn spec_all() -> Seq<Statistic> {
        seq![Statistic::Sum, Statistic::Average, Statistic::Maximum]
    }

    /// The statistics in the order in which their groups are queried.
    pub fn all() -> (r: Vec<Statistic>)
        ensures
            r@ == Statistic::spec_all(),
    {
        let mut r: Vec<Statistic> = Vec::new();
        r.push(Statistic::Sum);
        r.push(Statistic::Average);
        r.push(Statistic::Maximum);
        assert(r@ =~= Statistic::spec_all());
        r
    }
}

/// The observations of one metric of one resource under one statistic.
#[derive(Debug, Clone, PartialEq, Eq)]
pub struct Metric {
    /// The name of the metric.
    pub name: String,
    /// The statistic under which the values were aggregated.
    pub statistic: Statistic,
    /// The observations in the order in which they were reported, each as
    /// the bit pattern of an IEEE 754 double.
    pub values: Vec<u64>,
}

/// A [`Metric`] as a mathematical value.
pub struct MetricView {
    pub name: Seq<char>,
    pub statistic: Statistic,
    pub values: Seq<u64>,
}

impl View for Metric {
    type V = MetricView;

    open spec fn view(&self) -> MetricView {
        MetricView { name: self.name@, statistic: self.statistic, values: self.values@ }
    }
}

/// The views of `metrics`, in order.
pub open spec fn metric_views(metrics: Seq<Metric>) -> Seq<MetricView> {
    Seq::new(metrics.len(), |i: int| metrics[i]@)
}

/// The names of the metrics to query, grouped by the statistic to query
/// them under. Every statistic has a group, which may be empty.
#[derive(Debug, Clone, PartialEq, Eq)]
pub struct MetricCatalogue {
    pub sum: Vec<&'static str>,
    pub average: Vec<&'static str>,
    pub maximum: Vec<&'static str>,
}

impl MetricCatalogue {
    /// The metric names of a group, in order.
    pub open spec fn names(&self, statistic: Statistic) -> Seq<Seq<char>> {
        match statistic {
            Statistic::Sum => self.sum.deep_view(),
            Statistic::Average => self.average.deep_view(),
            Statistic::Maximum => self.maximum.deep_view(),
        }
    }

    /// The metric names of a group, in order.
    pub fn group(&self, statistic: Statistic) -> (r: &Vec<&'static str>)
        ensures
            r.deep_view() == self.names(statistic),
    {
        match statistic {
            Statistic::Sum => &self.sum,
            Statistic::Average => &self.average,
            Statistic::Maximum => &self.maximum,
        }
    }
}

/// A [`MetricCatalogue`] as a mathematical value.
pub struct MetricCatalogueView {
    pub sum: Seq<Seq<char>>,
    pub average: Seq<Seq<char>>,
    pub maximum: Seq<Seq<char>>,
}

impl MetricCatalogueView {
    /// The metric names of a group, in order.
    pub open spec fn names(self, statistic: Statistic) -> Seq<Seq<char>> {
        match statistic {
            Statistic::Sum => self.sum,
            Statistic::Average => self.average,
            Statistic::Maximum => self.maximum,
        }
    }
}

impl View for MetricCatalogue {
    type V = MetricCatalogueView;

    open spec fn view(&self) -> MetricCatalogueView {
        MetricCatalogueView {
            sum: self.sum.deep_view(),
            average: self.average.deep_view(),
            maximum: self.maximum.deep_view(),
        }
    }
}

/// The ElastiCache metrics that are queried for every cache resource.
pub open spec fn cache_metric_names(statistic: Statistic) -> Seq<Seq<char>> {
    match statistic {
        Statistic::Sum => seq![
            "NetworkBytesIn"@,
            "NetworkBytesOut"@,
            "GeoSpatialBasedCmds"@,
            "EvalBasedCmds"@,
            "GetTypeCmds"@,
            "HashBasedCmds"@,
            "JsonBasedCmds"@,
            "KeyBasedCmds"@,
            "ListBasedCmds"@,
            "SetBasedCmds"@,
            "SetTypeCmds"@,
            "StringBasedCmds"@,
            "PubSubBasedCmds"@,
            "SortedSetBasedCmds"@,
            "StreamBasedCmds"@,
        ],
        Statistic::Average => seq!["DB0AverageTTL"@],
        Statistic::Maximum => seq![
            "CurrConnections"@,
            "NewConnections"@,
            "EngineCPUUtilization"@,
            "CPUUtilization"@,
            "FreeableMemory"@,
            "BytesUsedForCache"@,
            "DatabaseMemoryUsagePercentage"@,
            "CurrItems"@,
            "KeysTracked"@,
            "Evictions"@,
            "CacheHitRate"@,
        ],
    }
}

/// The catalogue of the ElastiCache metrics.
pub open spec fn cache_catalogue() -> MetricCatalogueView {
    MetricCatalogueView {
        sum: cache_metric_names(Statistic::Sum),
        average: cache_metric_names(Statistic::Average),
        maximum: cache_metric_names(Statistic::Maximum),
    }
}

/// The ElastiCache metrics that are queried for every cache resource.
pub fn cache_metrics() -> (r: MetricCatalogue)
    ensures
        r@ == cache_catalogue(),
{
    let mut sum: Vec<&'static str> = Vec::new();
    sum.push("NetworkBytesIn");
    sum.push("NetworkBytesOut");
    sum.push("GeoSpatialBasedCmds");
    sum.push("EvalBasedCmds");
    sum.push("GetTypeCmds");
    sum.push("HashBasedCmds");
    sum.push("JsonBasedCmds");
    sum.push("KeyBasedCmds");
    sum.push("ListBasedCmds");
    sum.push("SetBasedCmds");
    sum.push("SetTypeCmds");
    sum.push("StringBasedCmds");
    sum.push("PubSubBasedCmds");
    sum.push("SortedSetBasedCmds");
    sum.push("StreamBasedCmds");
    let mut average: Vec<&'static str> = Vec::new();
    average.push("DB0AverageTTL");
    let mut maximum: Vec<&'static str> = Vec::new();
    maximum.push("CurrConnections");
    maximum.push("NewConnections");
    maximum.push("EngineCPUUtilization");
    maximum.push("CPUUtilization");
    maximum.push("FreeableMemory");
    maximum.push("BytesUsedForCache");
    maximum.push("DatabaseMemoryUsagePercentage");
    maximum.push("CurrItems");
    maximum.push("KeysTracked");
    maximum.push("Evictions");
    maximum.push("CacheHitRate");
    assert(sum.deep_view() =~= cache_metric_names(Statistic::Sum));
    assert(average.deep_view() =~= cache_metric_names(Statistic::Average));
    assert(maximum.deep_view() =~= cache_metric_names(Statistic::Maximum));
    MetricCatalogue { sum, average, maximum }
}

/// What to query for one resource: where its metrics live, which series of
/// them are its own, and which metrics under which statistic.
#[derive(Debug, PartialEq, Eq)]
pub struct MetricTarget {
    pub namespace: String,
    pub expression: String,
    pub dimensions: Dimensions,
    pub targets: MetricCatalogue,
}

/// A [`MetricTarget`] as a mathematical value.
pub struct MetricTargetView {
    pub namespace: Seq<char>,
    pub expression: Seq<char>,
    pub dimensions: Map<Seq<char>, Seq<char>>,
    pub targets: MetricCatalogueView,
}

impl View for MetricTarget {
    type V = MetricTargetView;

    open spec fn view(&self) -> MetricTargetView {
        MetricTargetView {
            namespace: self.namespace@,
            expression: self.expression@,
            dimensions: self.dimensions@,
            targets: self.targets@,
        }
    }
}

/// The views of `targets`, in order.
pub open spec fn target_views(targets: Seq<MetricTarget>) -> Seq<MetricTargetView> {
    Seq::new(targets.len(), |i: int| targets[i]@)
}

} // verus!
