//! Readings and snapshots: what one poll hands out.

use vstd::prelude::*;

verus! {

/// A non-negative decimal number: `digits` with the decimal point set
/// `places` digits from the right, so that `{ digits: 2150, places: 2 }`
/// is 21.50.
#[derive(Clone, Copy, Debug, PartialEq, Eq, Structural)]
pub struct Decimal {
    pub digits: u32,
    pub places: u8,
}

/// The value of one channel.
#[derive(Clone, Debug, PartialEq, Eq)]
pub struct Reading {
    pub channel_id: String,
    pub value: Decimal,
}

impl View for Reading {
    type V = (Seq<char>, Decimal);

    open spec fn view(&self) -> (Seq<char>, Decimal) {
        (self.channel_id@, self.value)
    }
}

/// The views of a list of readings, in the same order.
pub open spec fn readings_view(readings: Seq<Reading>) -> Seq<(Seq<char>, Decimal)> {
    readings.map_values(|r: Reading| r@)
}

/// The readings as a mapping from channel to value. Where a channel is
/// read more than once, its last reading counts.
pub open spec fn channel_map(readings: Seq<(Seq<char>, Decimal)>) -> Map<Seq<char>, Decimal>
    decreases readings.len(),
{
    if readings.len() == 0 {
        Map::empty()
    } else {
        channel_map(readings.drop_last()).insert(readings.last().0, readings.last().1)
    }
}

/// The value a mapping gives a channel, if it gives one.
pub open spec fn value_in(map: Map<Seq<char>, Decimal>, channel: Seq<char>) -> Option<Decimal> {
    if map.dom().contains(channel) {
        Some(map[channel])
    } else {
        None
    }
}

/// Every channel that was read has a value in the mapping.
pub proof fn lemma_channel_map_holds_every_channel(readings: Seq<(Seq<char>, Decimal)>, i: int)
    requires
        0 <= i < readings.len(),
    ensures
        channel_map(readings).dom().contains(readings[i].0),
    decreases readings.len(),
{
    if i < readings.len() - 1 {
        lemma_channel_map_holds_every_channel(readings.drop_last(), i);
    }
}

/// A channel that was read once has the value of that reading.
pub proof fn lemma_channel_map_of_a_single_reading(readings: Seq<(Seq<char>, Decimal)>, i: int)
    requires
        0 <= i < readings.len(),
        forall|j: int| 0 <= j < readings.len() && j != i ==> (#[trigger] readings[j]).0 != readings[i].0,
    ensures
        value_in(channel_map(readings), readings[i].0) == Some(readings[i].1),
    decreases readings.len(),
{
    if i < readings.len() - 1 {
        let front = readings.drop_last();
        assert forall|j: int| 0 <= j < front.len() && j != i implies (#[trigger] front[j]).0 != front[i].0 by {
            assert(front[j] == readings[j]);
        }
        lemma_channel_map_of_a_single_reading(front, i);
        assert(readings.last().0 != readings[i].0);
    }
}

/// What one completed poll produced.
#[derive(Debug)]
pub enum Snapshot {
    /// One reading per channel, in the order the channels were read.
    Readings(Vec<Reading>),
    /// The document an endpoint answered with, handed on as it came.
    Document(serde_json::Value),
    /// Nothing could be fetched. Published all the same, as a null document.
    Empty,
}

/// A snapshot as contracts see it.
pub enum SnapshotView {
    Readings(Seq<(Seq<char>, Decimal)>),
    Document(serde_json::Value),
    Empty,
}

impl View for Snapshot {
    type V = SnapshotView;

    open spec fn view(&self) -> SnapshotView {
        match *self {
            Snapshot::Readings(readings) => SnapshotView::Readings(readings_view(readings@)),
            Snapshot::Document(document) => SnapshotView::Document(document),
            Snapshot::Empty => SnapshotView::Empty,
        }
    }
}

impl SnapshotView {
    /// The value this snapshot gives a channel. Only readings give values:
    /// a document is not looked into.
    pub open spec fn value_of(self, channel: Seq<char>) -> Option<Decimal> {
        match self {
            SnapshotView::Readings(readings) => value_in(channel_map(readings), channel),
            _ => None,
        }
    }
}

/// Looks up the value of a channel among readings.
pub fn find_value(readings: &Vec<Reading>, channel_id: &String) -> (value: Option<Decimal>)
    ensures
        value == value_in(channel_map(readings_view(readings@)), channel_id@),
{
    let mut value: Option<Decimal> = None;
    let mut i: usize = 0;
    while i < readings.len()
        invariant
            i <= readings@.len(),
            value == value_in(channel_map(readings_view(readings@).take(i as int)), channel_id@),
        decreases readings@.len() - i,
    {
        proof {
            let all = readings_view(readings@);
            assert(all.take(i + 1).drop_last() =~= all.take(i as int));
            assert(all.take(i + 1).last() == readings@[i as int]@);
        }
        if readings[i].channel_id == *channel_id {
            value = Some(readings[i].value);
        }
        i += 1;
    }
    assert(readings_view(readings@).take(i as int) =~= readings_view(readings@));
    value
}

impl Snapshot {
    /// The value this snapshot gives a channel.
    pub fn value_of(&self, channel_id: &String) -> (value: Option<Decimal>)
        ensures
            value == self@.value_of(channel_id@),
    {
        match self {
            Snapshot::Readings(readings) => find_value(readings, channel_id),
            _ => None,
        }
    }
}

/// `serde_json::Value`: a parsed JSON document. The library carries it and
/// never looks inside.
#[verifier::external_type_specification]
#[verifier::external_body]
pub struct ExJsonValue(serde_json::Value);

} // verus!
