//! The measurement dispatcher: from the entries of a measurement object to
//! the points that go to the time-series sink.

use vstd::prelude::*;
use crate::v1::message::{Reading, ReadingView};

verus! {

/// The category under which every point of the feed is written.
pub const MEASUREMENT_CATEGORY: &'static str = "liveMeasurement";

/// One write to the sink. The sink stamps the point with the time of the
/// write; the feed's own timestamps are not used.
#[derive(Debug, PartialEq, Eq)]
pub struct SinkPoint {
    pub field_name: String,
    /// The value, as the bit pattern of a 64-bit float.
    pub value_bits: u64,
    pub category: String,
}

/// A `SinkPoint` as the contracts see it.
pub struct SinkPointView {
    pub field_name: Seq<char>,
    pub value_bits: u64,
    pub category: Seq<char>,
}

impl View for SinkPoint {
    type V = SinkPointView;

    open spec fn view(&self) -> SinkPointView {
        SinkPointView {
            field_name: self.field_name@,
            value_bits: self.value_bits,
            category: self.category@,
        }
    }
}

impl DeepView for SinkPoint {
    type V = SinkPointView;

    open spec fn deep_view(&self) -> SinkPointView {
        self@
    }
}

/// Why a measurement object could not be dispatched as a whole.
#[derive(Debug, PartialEq, Eq)]
pub enum DispatchError {
    /// The entry named `field_name` holds no number. `preceding` are the
    /// points of the entries before it, which are due all the same.
    NonNumericField { field_name: String, preceding: Vec<SinkPoint> },
}

/// A `DispatchError` as the contracts see it.
pub enum DispatchErrorView {
    NonNumericField { field_name: Seq<char>, preceding: Seq<SinkPointView> },
}

impl View for DispatchError {
    type V = DispatchErrorView;

    open spec fn view(&self) -> DispatchErrorView {
        match self {
            DispatchError::NonNumericField { field_name, preceding } => {
                DispatchErrorView::NonNumericField {
                    field_name: field_name@,
                    preceding: preceding.deep_view(),
                }
            },
        }
    }
}

/// The point that a numeric reading is written as: the name and the value
/// unchanged, under the one category.
pub open spec fn point_of(reading: ReadingView) -> SinkPointView
    recommends
        reading.value is Some,
{
    SinkPointView {
        field_name: reading.name,
        value_bits: reading.value->0,
        category: MEASUREMENT_CATEGORY@,
    }
}

/// The points of `readings`, one for each, in the same order.
pub open spec fn points_of(readings: Seq<ReadingView>) -> Seq<SinkPointView> {
    readings.map_values(|reading: ReadingView| point_of(reading))
}

/// How many readings at the front of `readings` are numeric: the index of the
/// first one that is not, or the length where all are.
pub open spec fn leading_numeric(readings: Seq<ReadingView>) -> int
    decreases readings.len(),
{
    if readings.len() == 0 || readings[0].value is None {
        0
    } else {
        1 + leading_numeric(readings.drop_first())
    }
}

/// What dispatching `readings` gives: a point for every reading where all of
/// them are numeric, and otherwise the error that names the first
/// non-numeric entry and holds the points before it.
pub open spec fn dispatch_of(readings: Seq<ReadingView>) -> Result<
    Seq<SinkPointView>,
    DispatchErrorView,
> {
    let numeric = leading_numeric(readings);
    if numeric == readings.len() {
        Ok(points_of(readings))
    } else {
        Err(
            DispatchErrorView::NonNumericField {
                field_name: readings[numeric].name,
                preceding: points_of(readings.take(numeric)),
            },
        )
    }
}

/// `leading_numeric` is the index of the first non-numeric reading: all
/// readings before it are numeric, and the one at it, if there is one, is
/// not.
pub proof fn lemma_leading_numeric(readings: Seq<ReadingView>)
    ensures
        0 <= leading_numeric(readings) <= readings.len(),
        forall|i: int| 0 <= i < leading_numeric(readings) ==> (#[trigger] readings[i]).value is Some,
        leading_numeric(readings) < readings.len() ==> readings[leading_numeric(
            readings,
        )].value is None,
    decreases readings.len(),
{
    if readings.len() > 0 && readings[0].value is Some {
        let rest = readings.drop_first();
        lemma_leading_numeric(rest);
        assert forall|i: int| 0 <= i < leading_numeric(readings) implies (#[trigger] readings[i]).value is Some by {
            if i > 0 {
                assert(readings[i] == rest[i - 1]);
            }
        }
    }
}

/// A run of numeric readings that ends the sequence, or ends before a
/// non-numeric one, is the whole numeric front.
proof fn lemma_leading_numeric_is(readings: Seq<ReadingView>, count: int)
    requires
        0 <= count <= readings.len(),
        forall|i: int| 0 <= i < count ==> (#[trigger] readings[i]).value is Some,
        count < readings.len() ==> readings[count].value is None,
    ensures
        leading_numeric(readings) == count,
    decreases readings.len(),
{
    if count > 0 {
        let rest = readings.drop_first();
        assert(readings[0].value is Some);
        assert forall|i: int| 0 <= i < count - 1 implies (#[trigger] rest[i]).value is Some by {
            assert(rest[i] == readings[i + 1]);
        }
        lemma_leading_numeric_is(rest, count - 1);
    }
}

/// Turns the entries of a measurement object into sink points, one for each
/// entry, in the order of the entries. An entry without a number stops the
/// dispatch with `NonNumericField`.
pub fn dispatch(readings: &Vec<Reading>) -> (result: Result<Vec<SinkPoint>, DispatchError>)
    ensures
        match result {
            Ok(points) => dispatch_of(readings.deep_view()) == Ok::<
                Seq<SinkPointView>,
                DispatchErrorView,
            >(points.deep_view()),
            Err(error) => dispatch_of(readings.deep_view()) == Err::<
                Seq<SinkPointView>,
                DispatchErrorView,
            >(error@),
        },
{
    let ghost all = readings.deep_view();
    let mut points: Vec<SinkPoint> = Vec::new();
    let mut i: usize = 0;
    while i < readings.len()
        invariant
            i <= readings.len(),
            all == readings.deep_view(),
            forall|j: int| 0 <= j < i ==> (#[trigger] all[j]).value is Some,
            points.deep_view() == points_of(all.take(i as int)),
        decreases readings.len() - i,
    {
        let reading = &readings[i];
        assert(all[i as int] == reading@);
        match reading.value {
            Some(bits) => {
                let point = SinkPoint {
                    field_name: reading.name.clone(),
                    value_bits: bits,
                    category: String::from_str(MEASUREMENT_CATEGORY),
                };
                let ghost before = points.deep_view();
                points.push(point);
                proof {
                    assert(points.deep_view() =~= before.push(point@));
                    assert(all.take(i + 1) =~= all.take(i as int).push(all[i as int]));
                    assert(points.deep_view() =~= points_of(all.take(i + 1)));
                }
            },
            None => {
                proof {
                    lemma_leading_numeric_is(all, i as int);
                }
                return Err(
                    DispatchError::NonNumericField {
                        field_name: reading.name.clone(),
                        preceding: points,
                    },
                );
            },
        }
        i = i + 1;
    }
    proof {
        lemma_leading_numeric_is(all, i as int);
        assert(all.take(i as int) =~= all);
    }
    Ok(points)
}

/// A measurement whose entries are all numeric gives one point for each
/// entry and no error: the point carries the entry's name and its value
/// unchanged, under the one category.
pub proof fn lemma_numeric_readings_are_all_written(readings: Seq<ReadingView>)
    requires
        forall|i: int| 0 <= i < readings.len() ==> (#[trigger] readings[i]).value is Some,
    ensures
        dispatch_of(readings) == Ok::<Seq<SinkPointView>, DispatchErrorView>(points_of(readings)),
        points_of(readings).len() == readings.len(),
        forall|i: int|
            0 <= i < readings.len() ==> {
                &&& (#[trigger] points_of(readings)[i]).field_name == readings[i].name
                &&& Some(points_of(readings)[i].value_bits) == readings[i].value
                &&& points_of(readings)[i].category == MEASUREMENT_CATEGORY@
            },
{
    lemma_leading_numeric_is(readings, readings.len() as int);
}

} // verus!
