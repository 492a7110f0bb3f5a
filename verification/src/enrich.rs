//! Enrichment: the metric queries of one resource, and what to do with
//! their answers.
//!
//! The caller issues the queries, each one after the rate limiter let it,
//! and hands each answer to an [`Enrichment`], which says what to query
//! next, and at the end returns the resource with its metrics.
use crate::elasticache::{metric_targets, INVALID_RESOURCE_TYPE};
use crate::error::CliError;
use crate::metrics::{
    metric_views, target_views, Metric, MetricTarget, MetricTargetView, MetricView, Statistic,
};
use crate::resource::{
    DynamoDbResourceView, ElastiCacheResourceView, Resource, ResourceView,
};
use vstd::prelude::*;
use vstd::string::*;

verus! {

/// What starts the message of the error for a failed query.
pub const QUERY_FAILURE: &'static str = "Failed to get metric data: ";

/// The metric targets of a resource, or the message of the error for a
/// resource that has none.
pub open spec fn targets_of(resource: ResourceView) -> Result<Seq<MetricTargetView>, Seq<char>> {
    match resource {
        ResourceView::ElastiCache(r) => metric_targets(r),
        ResourceView::DynamoDb(_) => Err(INVALID_RESOURCE_TYPE@),
    }
}

/// `resource` with `metrics` attached and the period recorded, and nothing
/// else changed.
pub open spec fn enriched(resource: ResourceView, metrics: Seq<MetricView>, period: i32) -> ResourceView {
    match resource {
        ResourceView::ElastiCache(r) => ResourceView::ElastiCache(
            ElastiCacheResourceView { metrics, metric_period_seconds: period, ..r },
        ),
        ResourceView::DynamoDb(r) => ResourceView::DynamoDb(
            DynamoDbResourceView { metrics, metric_period_seconds: period, ..r },
        ),
    }
}

impl Resource {
    /// What to query for this resource.
    pub fn create_metric_targets(&self) -> (r: Result<Vec<MetricTarget>, CliError>)
        ensures
            match r {
                Ok(targets) => targets_of(self@) == Ok::<Seq<MetricTargetView>, Seq<char>>(
                    target_views(targets@),
                ),
                Err(e) => targets_of(self@) == Err::<Seq<MetricTargetView>, Seq<char>>(e@),
            },
    {
        match self {
            Resource::ElastiCache(r) => r.create_metric_targets(),
            Resource::DynamoDb(_) => Err(CliError::new(INVALID_RESOURCE_TYPE)),
        }
    }

    /// Attaches `metrics` and records the period, in seconds, over which they
    /// were gathered.
    pub fn enrich(self, metrics: Vec<Metric>, period: i32) -> (r: Resource)
        ensures
            r@ == enriched(self@, metric_views(metrics@), period),
    {
        match self {
            Resource::ElastiCache(mut r) => {
                r.set_metrics(metrics);
                r.set_metric_period_seconds(period);
                Resource::ElastiCache(r)
            },
            Resource::DynamoDb(mut r) => {
                r.metrics = metrics;
                r.metric_period_seconds = period;
                Resource::DynamoDb(r)
            },
        }
    }
}

/// An enrichment under way, as a mathematical value.
pub struct EnrichmentView {
    /// The resource as it was handed in.
    pub resource: ResourceView,
    /// Its metric targets.
    pub targets: Seq<MetricTargetView>,
    /// How many queries were answered.
    pub answered: nat,
    /// The metrics of the answers so far, in order.
    pub metrics: Seq<MetricView>,
    /// The period to record.
    pub period: i32,
}

impl EnrichmentView {
    /// How many queries the enrichment takes: one for each statistic of
    /// each target.
    pub open spec fn queries(self) -> nat {
        3 * self.targets.len()
    }

    /// The target of the query that is due.
    pub open spec fn target(self) -> MetricTargetView {
        self.targets[self.answered as int / 3]
    }

    /// The statistic of the query that is due.
    pub open spec fn statistic(self) -> Statistic {
        Statistic::spec_all()[self.answered as int % 3]
    }
}

/// Where an enrichment stands.
pub enum EnrichingView {
    /// A query is due.
    Query(EnrichmentView),
    /// All queries were answered; this is the enriched resource.
    Done(ResourceView),
    /// The enrichment failed; this is the message of the error.
    Failed(Seq<char>),
}

/// Where an enrichment stands once its state is `e`: done where every query
/// was answered, else at its next query.
pub open spec fn settled(e: EnrichmentView) -> EnrichingView {
    if e.answered >= e.queries() {
        EnrichingView::Done(enriched(e.resource, e.metrics, e.period))
    } else {
        EnrichingView::Query(e)
    }
}

/// Where the enrichment of `resource` stands before its first answer.
pub open spec fn begun(resource: ResourceView, period: i32) -> EnrichingView {
    match targets_of(resource) {
        Err(message) => EnrichingView::Failed(message),
        Ok(targets) => settled(
            EnrichmentView { resource, targets, answered: 0, metrics: Seq::empty(), period },
        ),
    }
}

/// Where an enrichment stands after the answer to the query that was due.
pub open spec fn after_answer(e: EnrichmentView, answer: Result<Seq<MetricView>, Seq<char>>) -> EnrichingView {
    match answer {
        Err(cause) => EnrichingView::Failed(QUERY_FAILURE@ + cause),
        Ok(metrics) => settled(
            EnrichmentView { answered: e.answered + 1, metrics: e.metrics + metrics, ..e },
        ),
    }
}

/// Where an enrichment that stood at `start` stands after `answers`, given
/// one after the other. Once it is done or has failed, it stays so.
pub open spec fn after_answers(
    start: EnrichingView,
    answers: Seq<Result<Seq<MetricView>, Seq<char>>>,
) -> EnrichingView
    decreases answers.len(),
{
    if answers.len() == 0 {
        start
    } else {
        match after_answers(start, answers.drop_last()) {
            EnrichingView::Query(e) => after_answer(e, answers.last()),
            ended => ended,
        }
    }
}

/// The answers of queries that all succeed.
pub open spec fn successes(answers: Seq<Seq<MetricView>>) -> Seq<Result<Seq<MetricView>, Seq<char>>> {
    Seq::new(answers.len(), |i: int| Ok::<Seq<MetricView>, Seq<char>>(answers[i]))
}

/// While answers come in, the resource stays as it was handed in and the
/// metrics collected are those of the answers so far, in order.
pub proof fn lemma_answers_accumulate(
    resource: ResourceView,
    period: i32,
    answers: Seq<Seq<MetricView>>,
)
    requires
        targets_of(resource) is Ok,
        answers.len() <= 3 * targets_of(resource)->Ok_0.len(),
    ensures
        after_answers(begun(resource, period), successes(answers)) == settled(
            EnrichmentView {
                resource,
                targets: targets_of(resource)->Ok_0,
                answered: answers.len(),
                metrics: answers.flatten(),
                period,
            },
        ),
    decreases answers.len(),
{
    answers.lemma_flatten_and_flatten_alt_are_equivalent();
    if answers.len() > 0 {
        let before = answers.drop_last();
        lemma_answers_accumulate(resource, period, before);
        before.lemma_flatten_and_flatten_alt_are_equivalent();
        assert(successes(answers).drop_last() =~= successes(before));
    }
}

/// A resource is enriched exactly once: where every query of a resource is
/// answered, the enrichment ends with the resource as it was handed in but
/// for its metrics, which are those of all answers in order, and its period.
pub proof fn lemma_enriched_once(resource: ResourceView, period: i32, answers: Seq<Seq<MetricView>>)
    requires
        targets_of(resource) is Ok,
        answers.len() == 3 * targets_of(resource)->Ok_0.len(),
    ensures
        after_answers(begun(resource, period), successes(answers)) == EnrichingView::Done(
            enriched(resource, answers.flatten(), period),
        ),
{
    lemma_answers_accumulate(resource, period, answers);
}

/// The enrichment of one resource, at a query that is due.
pub struct Enrichment {
    resource: Resource,
    targets: Vec<MetricTarget>,
    target: usize,
    statistic: usize,
    metrics: Vec<Metric>,
    period: i32,
}

impl View for Enrichment {
    type V = EnrichmentView;

    closed spec fn view(&self) -> EnrichmentView {
        EnrichmentView {
            resource: self.resource@,
            targets: target_views(self.targets@),
            answered: (3 * self.target + self.statistic) as nat,
            metrics: metric_views(self.metrics@),
            period: self.period,
        }
    }
}

/// What an [`Enrichment`] decides.
pub enum Enriching {
    /// Wait for the rate limiter, issue the query that is due, and come
    /// back with its answer.
    Query(Enrichment),
    /// The resource with its metrics.
    Done(Resource),
    /// The enrichment failed; nothing of what was collected is kept.
    Failed(CliError),
}

impl View for Enriching {
    type V = EnrichingView;

    open spec fn view(&self) -> EnrichingView {
        match self {
            Enriching::Query(e) => EnrichingView::Query(e@),
            Enriching::Done(resource) => EnrichingView::Done(resource@),
            Enriching::Failed(e) => EnrichingView::Failed(e@),
        }
    }
}

impl Enrichment {
    #[verifier::type_invariant]
    spec fn a_query_is_due(&self) -> bool {
        self.target < self.targets@.len() && self.statistic < 3
    }

    /// Starts the enrichment of `resource`; `period` is the period, in
    /// seconds, over which the metrics are gathered. A resource without
    /// metric targets is an error.
    pub fn begin(resource: Resource, period: i32) -> (r: Enriching)
        ensures
            r@ == begun(resource@, period),
    {
        match resource.create_metric_targets() {
            Err(e) => Enriching::Failed(e),
            Ok(targets) => {
                let metrics: Vec<Metric> = Vec::new();
                assert(metric_views(metrics@) =~= Seq::<MetricView>::empty());
                if targets.len() == 0 {
                    Enriching::Done(resource.enrich(metrics, period))
                } else {
                    Enriching::Query(
                        Enrichment { resource, targets, target: 0, statistic: 0, metrics, period },
                    )
                }
            },
        }
    }

    /// The target of the query that is due.
    pub fn target(&self) -> (r: &MetricTarget)
        ensures
            r@ == self@.target(),
            self@.answered < self@.queries(),
    {
        proof {
            use_type_invariant(self);
        }
        &self.targets[self.target]
    }

    /// The statistic of the query that is due.
    pub fn statistic(&self) -> (r: Statistic)
        ensures
            r == self@.statistic(),
    {
        proof {
            use_type_invariant(self);
        }
        if self.statistic == 0 {
            Statistic::Sum
        } else if self.statistic == 1 {
            Statistic::Average
        } else {
            Statistic::Maximum
        }
    }

    /// The period, in seconds, of the query that is due.
    pub fn period_seconds(&self) -> (r: i32)
        ensures
            r == self@.period,
    {
        self.period
    }

    /// Takes in the answer to the query that was due: its metrics, or the
    /// reason for which it failed. The metrics are added behind those
    /// collected so far; after the last query they are attached to the
    /// resource. A failure ends the enrichment with an error.
    pub fn answer(self, answer: Result<Vec<Metric>, String>) -> (r: Enriching)
        ensures
            r@ == after_answer(
                self@,
                match answer {
                    Ok(metrics) => Ok(metric_views(metrics@)),
                    Err(cause) => Err(cause@),
                },
            ),
    {
        proof {
            use_type_invariant(&self);
        }
        let Enrichment { resource, targets, target, statistic, mut metrics, period } = self;
        let count: usize = targets.len();
        match answer {
            Err(cause) => Enriching::Failed(CliError::with_detail(QUERY_FAILURE, cause.as_str())),
            Ok(mut found) => {
                let ghost before = metric_views(metrics@);
                let ghost added = metric_views(found@);
                metrics.append(&mut found);
                assert(metric_views(metrics@) =~= before + added);
                if statistic < 2 {
                    Enriching::Query(
                        Enrichment {
                            resource,
                            targets,
                            target,
                            statistic: statistic + 1,
                            metrics,
                            period,
                        },
                    )
                } else if target + 1 < count {
                    Enriching::Query(
                        Enrichment {
                            resource,
                            targets,
                            target: target + 1,
                            statistic: 0,
                            metrics,
                            period,
                        },
                    )
                } else {
                    Enriching::Done(resource.enrich(metrics, period))
                }
            },
        }
    }
}

} // verus!
