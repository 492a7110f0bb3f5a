//! The order of a run: the families are discovered one after the other,
//! then every resource is enriched and forwarded, in the order of discovery.
//!
//! The caller does the outside work; the types of this module say what is
//! due next and take in how it went. Any failure ends the run.
use crate::error::CliError;
use crate::resource::{resource_views, Resource, ResourceView};
use vstd::prelude::*;
use vstd::string::*;

verus! {

/// The message of the error for a session without a region.
pub const NO_REGION: &'static str = "No region configured for client";

/// What starts the message of the error for a resource that could not be
/// forwarded.
pub const SEND_FAILURE: &'static str = "Failed to send elasticache resource: ";

/// A family of resources, discovered by one listing.
#[derive(Debug, Clone, Copy, PartialEq, Eq, Structural)]
pub enum Family {
    DynamoDb,
    ElastiCache,
}

/// The families in the order in which they are discovered.
pub open spec fn families() -> Seq<Family> {
    seq![Family::DynamoDb, Family::ElastiCache]
}

/// The region of the session, which must be configured.
pub fn configured_region(region: Option<&str>) -> (r: Result<String, CliError>)
    ensures
        match region {
            Some(name) => r matches Ok(owned) && owned@ == name@,
            None => r matches Err(e) && e@ == NO_REGION@,
        },
{
    match region {
        Some(name) => Ok(name.to_owned()),
        None => Err(CliError::new(NO_REGION)),
    }
}

/// Where the discovery phase of a run stands.
pub enum CollectionView {
    /// That many families were discovered and gave these resources; the next
    /// family is to be discovered.
    Discover(nat, Seq<ResourceView>),
    /// Every family was discovered; these resources are to be enriched and
    /// forwarded.
    Forward(Seq<ResourceView>),
    /// A discovery failed; this is the message of the error.
    Failed(Seq<char>),
}

/// Where the discovery phase stands once `discovered` families gave
/// `resources`.
pub open spec fn collection(discovered: nat, resources: Seq<ResourceView>) -> CollectionView {
    if discovered < families().len() {
        CollectionView::Discover(discovered, resources)
    } else {
        CollectionView::Forward(resources)
    }
}

/// Where the discovery phase stands after one more family: its resources
/// come behind those found before, and its failure ends the run.
pub open spec fn after_family(
    discovered: nat,
    resources: Seq<ResourceView>,
    outcome: Result<Seq<ResourceView>, Seq<char>>,
) -> CollectionView {
    match outcome {
        Ok(found) => collection(discovered + 1, resources + found),
        Err(message) => CollectionView::Failed(message),
    }
}

/// Where the discovery phase stands after the families gave `outcomes`, one
/// after the other from the start. Once a discovery has failed, or every
/// family was discovered, nothing changes any more.
pub open spec fn after_families(outcomes: Seq<Result<Seq<ResourceView>, Seq<char>>>) -> CollectionView
    decreases outcomes.len(),
{
    if outcomes.len() == 0 {
        collection(0, Seq::empty())
    } else {
        match after_families(outcomes.drop_last()) {
            CollectionView::Discover(discovered, resources) => after_family(
                discovered,
                resources,
                outcomes.last(),
            ),
            ended => ended,
        }
    }
}

/// The outcomes of discoveries that all succeed.
pub open spec fn all_found(found: Seq<Seq<ResourceView>>) -> Seq<
    Result<Seq<ResourceView>, Seq<char>>,
> {
    Seq::new(found.len(), |i: int| Ok::<Seq<ResourceView>, Seq<char>>(found[i]))
}

/// While families are discovered, the resources found so far are those of
/// the families so far, family after family.
pub proof fn lemma_families_accumulate(found: Seq<Seq<ResourceView>>)
    requires
        found.len() <= families().len(),
    ensures
        after_families(all_found(found)) == collection(found.len(), found.flatten()),
    decreases found.len(),
{
    found.lemma_flatten_and_flatten_alt_are_equivalent();
    if found.len() > 0 {
        let before = found.drop_last();
        lemma_families_accumulate(before);
        before.lemma_flatten_and_flatten_alt_are_equivalent();
        assert(all_found(found).drop_last() =~= all_found(before));
    }
}

/// Families are discovered one at a time and their resources are joined in
/// that order: once every family gave its resources, those of all families,
/// family after family, are what is enriched and forwarded.
pub proof fn lemma_families_concatenate(found: Seq<Seq<ResourceView>>)
    requires
        found.len() == families().len(),
    ensures
        after_families(all_found(found)) == CollectionView::Forward(found.flatten()),
{
    lemma_families_accumulate(found);
}

/// The discovery phase with a family that is being discovered.
pub struct Discovering {
    discovered: usize,
    resources: Vec<Resource>,
}

/// What the discovery phase asks for.
pub enum Collection {
    /// Discover this family, and come back with what it gave.
    Discover(Family, Discovering),
    /// Every family was discovered: enrich and forward the resources.
    Forward(Forwarding),
}

impl Discovering {
    #[verifier::type_invariant]
    spec fn a_family_is_due(&self) -> bool {
        self.discovered < 2
    }

    /// How many families were discovered before the one that is due.
    pub closed spec fn discovered(&self) -> nat {
        self.discovered as nat
    }

    /// The resources found so far.
    pub closed spec fn resources(&self) -> Seq<ResourceView> {
        resource_views(self.resources@)
    }

    /// Takes in what the discovery of the family that was due gave: its
    /// resources, which are put behind those found before, or its error,
    /// which ends the run.
    pub fn found(self, outcome: Result<Vec<Resource>, CliError>) -> (r: Result<
        Collection,
        CliError,
    >)
        ensures
            match r {
                Ok(next) => outcome matches Ok(found) && next@ == after_family(
                    self.discovered(),
                    self.resources(),
                    Ok(resource_views(found@)),
                ) && due(next),
                Err(e) => outcome matches Err(cause) && e@ == cause@,
            },
    {
        proof {
            use_type_invariant(&self);
        }
        let Discovering { discovered, mut resources } = self;
        match outcome {
            Err(e) => Err(e),
            Ok(mut found) => {
                let ghost before = resource_views(resources@);
                let ghost added = resource_views(found@);
                resources.append(&mut found);
                assert(resource_views(resources@) =~= before + added);
                Ok(stage(discovered + 1, resources))
            },
        }
    }
}

impl View for Collection {
    type V = CollectionView;

    open spec fn view(&self) -> CollectionView {
        match self {
            Collection::Discover(_, state) => CollectionView::Discover(
                state.discovered(),
                state.resources(),
            ),
            Collection::Forward(forwarding) => CollectionView::Forward(forwarding@),
        }
    }
}

/// Whether the family that `step` asks for, if it asks for one, is the one
/// whose turn it is.
pub open spec fn due(step: Collection) -> bool {
    step matches Collection::Discover(family, state) ==> state.discovered() < families().len()
        && family == families()[state.discovered() as int]
}

/// The family at a place in the order of discovery.
fn family_at(index: usize) -> (r: Family)
    requires
        index < 2,
    ensures
        r == families()[index as int],
{
    if index == 0 {
        Family::DynamoDb
    } else {
        Family::ElastiCache
    }
}

/// The discovery phase once `discovered` families gave `resources`.
fn stage(discovered: usize, resources: Vec<Resource>) -> (r: Collection)
    requires
        discovered <= 2,
    ensures
        r@ == collection(discovered as nat, resource_views(resources@)),
        due(r),
{
    if discovered < 2 {
        Collection::Discover(family_at(discovered), Discovering { discovered, resources })
    } else {
        Collection::Forward(Forwarding::of(resources))
    }
}

/// The start of a run: nothing is discovered, and the first family is due.
pub fn start() -> (r: Collection)
    ensures
        r@ == collection(0, Seq::empty()),
        due(r),
{
    let resources: Vec<Resource> = Vec::new();
    assert(resource_views(resources@) =~= Seq::<ResourceView>::empty());
    stage(0, resources)
}

/// The second phase of a run: the resources that are still to be enriched
/// and forwarded.
pub struct Forwarding {
    /// The resources still to come, the next one last.
    waiting: Vec<Resource>,
}

impl View for Forwarding {
    type V = Seq<ResourceView>;

    /// The resources still to come, the next one first.
    closed spec fn view(&self) -> Seq<ResourceView> {
        resource_views(self.waiting@).reverse()
    }
}

/// What the second phase asks for.
pub enum Delivery {
    /// Enrich this resource, forward it, and come back.
    Deliver(Resource, Forwarding),
    /// No resource is left: close the channel.
    Finish,
}

impl Forwarding {
    /// The second phase for `resources`, which are due in their order.
    fn of(resources: Vec<Resource>) -> (r: Forwarding)
        ensures
            r@ == resource_views(resources@),
    {
        let mut resources = resources;
        let ghost all = resources@;
        let mut waiting: Vec<Resource> = Vec::new();
        while resources.len() > 0
            invariant
                resources@.len() <= all.len(),
                resources@ == all.take(resources@.len() as int),
                waiting@ == all.skip(resources@.len() as int).reverse(),
            decreases resources@.len(),
        {
            let ghost n = resources@.len();
            let resource = resources.pop().unwrap();
            waiting.push(resource);
            assert(resources@ =~= all.take(n - 1));
            assert(waiting@ =~= all.skip(n - 1).reverse());
        }
        assert(all.skip(0) =~= all);
        assert(resource_views(waiting@).reverse() =~= resource_views(all));
        Forwarding { waiting }
    }

    /// The next resource and what remains after it, or the end of the run.
    pub fn next(self) -> (r: Delivery)
        ensures
            match r {
                Delivery::Deliver(resource, rest) => self@.len() > 0 && resource@ == self@[0]
                    && rest@ == self@.skip(1),
                Delivery::Finish => self@.len() == 0,
            },
    {
        let mut waiting = self.waiting;
        let ghost before = waiting@;
        match waiting.pop() {
            Some(resource) => {
                let rest = Forwarding { waiting };
                assert(rest@ =~= resource_views(before).reverse().skip(1));
                Delivery::Deliver(resource, rest)
            },
            None => Delivery::Finish,
        }
    }
}

/// Judges how forwarding a resource went: that the receiver is gone is an
/// error that ends the run.
pub fn sent(outcome: Result<(), String>) -> (r: Result<(), CliError>)
    ensures
        match outcome {
            Ok(_) => r is Ok,
            Err(cause) => r matches Err(e) && e@ == SEND_FAILURE@ + cause@,
        },
{
    match outcome {
        Ok(_) => Ok(()),
        Err(cause) => Err(CliError::with_detail(SEND_FAILURE, cause.as_str())),
    }
}

} // verus!
