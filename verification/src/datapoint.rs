//! Named counters as they are handed to the metrics agent.
use vstd::prelude::*;

verus! {

/// One point of a metric: its name and its fields in order.
pub struct Datapoint {
    /// The name of the metric.
    pub name: &'static str,
    /// The name and the value of each field.
    pub fields: Vec<(&'static str, i64)>,
}

impl Datapoint {
    /// The fields in order, each with its name and its value.
    pub open spec fn field_values(&self) -> Seq<(Seq<char>, i64)> {
        self.fields@.map_values(|field: (&'static str, i64)| (field.0@, field.1))
    }
}

} // verus!
