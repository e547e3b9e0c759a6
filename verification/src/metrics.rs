//! Metric operations: what the transform hands to the metrics backend.

use vstd::prelude::*;

verus! {

/// The two kinds of metric.
#[derive(Clone, Copy, Debug, PartialEq, Eq, Structural)]
pub enum MetricKind {
    Counter,
    Gauge,
}

/// What an operation does to its metric: add one to a counter, add a value
/// to a counter, or set a gauge to a value.
#[derive(Clone, Copy, Debug, PartialEq, Eq, Structural)]
pub enum MetricAction {
    CounterInc,
    CounterAdd,
    GaugeSet,
}

/// One operation on a named metric. The number it carries is
/// `value / 10^precision`; labels are pairs of key and value.
#[derive(Clone, Debug, PartialEq, Eq)]
pub struct MetricOp {
    pub action: MetricAction,
    pub name: String,
    pub labels: Vec<(String, String)>,
    pub value: i128,
    pub precision: u8,
}

pub struct MetricOpView {
    pub action: MetricAction,
    pub name: Seq<char>,
    pub labels: Seq<(Seq<char>, Seq<char>)>,
    pub value: int,
    pub precision: nat,
}

/// The mathematical form of a list of labels.
pub open spec fn labels_view(labels: Seq<(String, String)>) -> Seq<(Seq<char>, Seq<char>)> {
    labels.map_values(|label: (String, String)| (label.0@, label.1@))
}

impl View for MetricOp {
    type V = MetricOpView;

    open spec fn view(&self) -> MetricOpView {
        MetricOpView {
            action: self.action,
            name: self.name@,
            labels: labels_view(self.labels@),
            value: self.value as int,
            precision: self.precision as nat,
        }
    }
}

/// The mathematical form of a list of operations.
pub open spec fn ops_view(ops: Seq<MetricOp>) -> Seq<MetricOpView> {
    ops.map_values(|op: MetricOp| op@)
}

impl MetricOpView {
    /// The kind of metric the operation is for.
    pub open spec fn kind(self) -> MetricKind {
        match self.action {
            MetricAction::CounterInc => MetricKind::Counter,
            MetricAction::CounterAdd => MetricKind::Counter,
            MetricAction::GaugeSet => MetricKind::Gauge,
        }
    }

    /// No two labels have the same key, and an increment by one carries the
    /// number one.
    pub open spec fn well_formed(self) -> bool {
        &&& forall|i: int, j: int|
            0 <= i < j < self.labels.len() ==> self.labels[i].0 != self.labels[j].0
        &&& self.action == MetricAction::CounterInc ==> self.value == 1 && self.precision == 0
    }
}

/// Whether every operation of a list is well formed.
pub open spec fn all_well_formed(ops: Seq<MetricOpView>) -> bool {
    forall|i: int| 0 <= i < ops.len() ==> (#[trigger] ops[i]).well_formed()
}

impl MetricOp {
    /// The kind of metric the operation is for.
    pub fn kind(&self) -> (kind: MetricKind)
        ensures
            kind == self@.kind(),
    {
        match self.action {
            MetricAction::CounterInc => MetricKind::Counter,
            MetricAction::CounterAdd => MetricKind::Counter,
            MetricAction::GaugeSet => MetricKind::Gauge,
        }
    }
}

/// Appends `more` to `ops`.
pub fn append_ops(ops: &mut Vec<MetricOp>, more: Vec<MetricOp>)
    ensures
        ops_view(final(ops)@) == ops_view(old(ops)@) + ops_view(more@),
{
    let mut more = more;
    ops.append(&mut more);
}

} // verus!
