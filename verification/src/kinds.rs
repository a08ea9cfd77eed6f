//! The roles of actors and the classification of the group they form.

use vstd::prelude::*;

verus! {

/// The role that one benchmark participant played.
#[derive(Clone, Copy, Debug, PartialEq, Eq, Structural)]
pub enum ActorKind {
    Producer,
    Consumer,
    ProducingConsumer,
}

/// The kind of actor population that a group summary stands for.
#[derive(Clone, Copy, Debug, PartialEq, Eq, Structural)]
pub enum GroupMetricsKind {
    Producers,
    Consumers,
    ProducingConsumers,
    ProducersAndConsumers,
}

/// The only record count at which a group is classified by its first actor.
///
/// The rule has no foundation in the domain and is suspect: it is kept so
/// that the reports of different benchmark runs stay comparable. Nothing
/// but the classification of a group reads it, so that it can be replaced
/// in one place.
pub const HOMOGENEOUS_GROUP_SIZE: usize = 200;

/// The group kind that a group made only of actors of kind `actor` has.
pub open spec fn kind_of_actor(actor: ActorKind) -> GroupMetricsKind {
    match actor {
        ActorKind::Producer => GroupMetricsKind::Producers,
        ActorKind::Consumer => GroupMetricsKind::Consumers,
        ActorKind::ProducingConsumer => GroupMetricsKind::ProducingConsumers,
    }
}

} // verus!
