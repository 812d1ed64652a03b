//! Read-only collaborator snapshots the reader consumes: the topic, the QoS
//! configuration, reader status events, and the one discovery command the
//! reader emits.

use vstd::prelude::*;

use crate::ids::Guid;

verus! {

/// Reliability policy of a reader: the only QoS policy the pipeline consults.
#[derive(Clone, Copy, PartialEq, Eq, Structural, Debug)]
pub enum Reliability {
    BestEffort,
    Reliable,
}

/// Read-only QoS snapshot attached to a reader. Policies other than
/// reliability are pass-through for collaborators and are not modelled.
#[derive(Clone, Copy, PartialEq, Eq, Structural, Debug)]
pub struct QosPolicies {
    pub reliability: Option<Reliability>,
}

impl QosPolicies {
    pub fn reliability(&self) -> (r: Option<Reliability>)
        ensures
            r == self.reliability,
    {
        self.reliability
    }

    /// A reader is reliable exactly when its QoS says `Reliable`;
    /// an absent policy means best-effort.
    pub open spec fn is_reliable_spec(&self) -> bool {
        self.reliability == Some(Reliability::Reliable)
    }

    pub fn is_reliable(&self) -> (r: bool)
        ensures
            r == self.is_reliable_spec(),
    {
        match self.reliability {
            Some(Reliability::Reliable) => true,
            _ => false,
        }
    }
}

/// The topic a reader is attached to: a name and the name of the data type.
pub struct Topic {
    pub name: String,
    pub data_type: String,
}

impl Topic {
    pub fn new(name: String, data_type: String) -> (t: Topic)
        ensures
            t.name == name,
            t.data_type == data_type,
    {
        Topic { name, data_type }
    }

    pub fn name(&self) -> (n: &String)
        ensures
            n == &self.name,
    {
        &self.name
    }

    pub fn get_type(&self) -> (n: &String)
        ensures
            n == &self.data_type,
    {
        &self.data_type
    }
}

/// Status events produced by the receive path and observed through the
/// status receiver.
#[derive(Clone, Copy, PartialEq, Eq, Structural, Debug)]
pub enum DataReaderStatus {
    DeadlineMissed,
    LivelinessChanged,
    SubscriptionMatched,
    SampleLost,
    RequestedIncompatibleQos,
}

/// The one discovery command this pipeline emits: unregister a local reader
/// when it is dismantled.
#[derive(Clone, Copy, PartialEq, Eq, Structural, Debug)]
pub enum DiscoveryCommand {
    RemoveLocalReader { guid: Guid },
}

/// Commands addressed to the reader itself. The deadline-status reset exists
/// on the wire but is accepted and ignored by this pipeline.
#[derive(Clone, Copy, PartialEq, Eq, Structural, Debug)]
pub enum ReaderCommand {
    ResetRequestedDeadlineStatus,
}

} // verus!
