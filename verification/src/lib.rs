//! Core of a terminal dashboard for river gauge stations: station snapshots
//! with severity ranking, a selectable station table with circular
//! navigation, a time-series graph page with index-based windowing, and the
//! navigation driver that ties the two pages together.
//!
//! Readings and alert thresholds are fixed-point integers; the scale (for
//! example hundredths of a metre) is the caller's choice and never inspected
//! here.
use vstd::prelude::*;

pub mod event_handler_trait;
pub mod graph;
pub mod launch_options;
pub mod nav;
pub mod ranking;
pub mod table;
pub mod text;

verus! {

/// A snapshot of one gauge station: identity, an optional latest reading,
/// and three ascending alert thresholds.
///
/// A snapshot with no reading is valid and distinct from a zero reading.
/// Thresholds are fixed at construction and never mutated afterwards.
#[derive(Debug)]
pub struct Station {
    pub idstazione: String,
    pub ordinamento: usize,
    pub nomestaz: String,
    pub lon: String,
    pub lat: String,
    pub value: Option<i64>,
    pub soglia1: i64,
    pub soglia2: i64,
    pub soglia3: i64,
}

impl Station {
    /// The three alert thresholds are ascending.
    pub open spec fn wf(self) -> bool {
        self.soglia1 <= self.soglia2 <= self.soglia3
    }

    /// Severity score: how many of the three thresholds the latest reading
    /// exceeds; a station with no reading scores 0.
    pub open spec fn spec_score(self) -> int {
        match self.value {
            None => 0,
            Some(v) => (if v > self.soglia1 {
                1int
            } else {
                0int
            }) + (if v > self.soglia2 {
                1int
            } else {
                0int
            }) + (if v > self.soglia3 {
                1int
            } else {
                0int
            }),
        }
    }

    /// Compute the severity score of this snapshot.
    pub fn score(&self) -> (r: u8)
        ensures
            r as int == self.spec_score(),
            r <= 3,
    {
        match self.value {
            None => 0,
            Some(v) => {
                let mut out: u8 = 0;
                if v > self.soglia1 {
                    out = out + 1;
                }
                if v > self.soglia2 {
                    out = out + 1;
                }
                if v > self.soglia3 {
                    out = out + 1;
                }
                out
            },
        }
    }

    pub fn idstazione(&self) -> (r: &str)
        ensures
            r@ == self.idstazione@,
    {
        self.idstazione.as_str()
    }

    pub fn nomestaz(&self) -> (r: &str)
        ensures
            r@ == self.nomestaz@,
    {
        self.nomestaz.as_str()
    }

    pub fn value(&self) -> (r: Option<i64>)
        ensures
            r == self.value,
    {
        self.value
    }

    pub fn soglia1(&self) -> (r: i64)
        ensures
            r == self.soglia1,
    {
        self.soglia1
    }

    pub fn soglia2(&self) -> (r: i64)
        ensures
            r == self.soglia2,
    {
        self.soglia2
    }

    pub fn soglia3(&self) -> (r: i64)
        ensures
            r == self.soglia3,
    {
        self.soglia3
    }

    /// The color band of a table row: which threshold band the reading
    /// falls into, most severe band first; a missing reading falls below
    /// all thresholds. With ascending thresholds this is exactly the
    /// severity score.
    pub fn threshold_band(&self) -> (r: u8)
        requires
            self.wf(),
        ensures
            r as int == self.spec_score(),
            r <= 3,
    {
        match self.value {
            None => 0,
            Some(v) => {
                if v > self.soglia3 {
                    3
                } else if v > self.soglia2 {
                    2
                } else if v > self.soglia1 {
                    1
                } else {
                    0
                }
            },
        }
    }

    /// The five table cells of this snapshot: name, latest reading, and the
    /// three thresholds, rendered in decimal. A missing reading renders as
    /// a dash, distinct from any real reading — a zero reading included.
    pub fn ref_array(&self) -> (r: [String; 5])
        ensures
            r@[0]@ == self.nomestaz@,
            self.value matches Some(v) ==> r@[1]@ == text::dec_string(v as int),
            self.value is None ==> r@[1]@ == seq!['-'],
            r@[2]@ == text::dec_string(self.soglia1 as int),
            r@[3]@ == text::dec_string(self.soglia2 as int),
            r@[4]@ == text::dec_string(self.soglia3 as int),
    {
        let value_cell: String = match self.value {
            Some(v) => text::i64_to_string(v),
            None => {
                proof {
                    reveal_strlit("-");
                }
                let dash = "-".to_owned();
                proof {
                    assert(dash@ =~= seq!['-']);
                }
                dash
            },
        };
        [
            self.nomestaz.clone(),
            value_cell,
            text::i64_to_string(self.soglia1),
            text::i64_to_string(self.soglia2),
            text::i64_to_string(self.soglia3),
        ]
    }
}

impl Clone for Station {
    fn clone(&self) -> (r: Self)
        ensures
            r == *self,
    {
        Station {
            idstazione: self.idstazione.clone(),
            ordinamento: self.ordinamento,
            nomestaz: self.nomestaz.clone(),
            lon: self.lon.clone(),
            lat: self.lat.clone(),
            value: self.value,
            soglia1: self.soglia1,
            soglia2: self.soglia2,
            soglia3: self.soglia3,
        }
    }
}

/// How many stations of a list carry a reading.
pub open spec fn count_with_reading(s: Seq<Station>) -> nat
    decreases s.len(),
{
    if s.len() == 0 {
        0
    } else {
        count_with_reading(s.drop_last()) + (if s.last().value is Some {
            1nat
        } else {
            0nat
        })
    }
}

/// A fetched station list, most severe first once ranked.
pub struct Stations(pub Vec<Station>);

impl Stations {
    /// Count the stations that carry a reading.
    pub fn count_with_reading(&self) -> (r: usize)
        ensures
            r as nat == count_with_reading(self.0@),
    {
        let mut count: usize = 0;
        let mut i: usize = 0;
        while i < self.0.len()
            invariant
                i <= self.0.len(),
                count <= i,
                count as nat == count_with_reading(self.0@.take(i as int)),
            decreases self.0.len() - i,
        {
            proof {
                assert(self.0@.take(i as int + 1).drop_last() =~= self.0@.take(i as int));
            }
            if self.0[i].value.is_some() {
                count = count + 1;
            }
            i = i + 1;
        }
        proof {
            assert(self.0@.take(self.0@.len() as int) =~= self.0@);
        }
        count
    }
}

/// One sample of a station's time series: a timestamp and an optional
/// reading.
#[derive(Clone, Copy)]
pub struct TimeValue {
    pub t: u64,
    pub v: Option<i64>,
}

/// The plot point a sample projects to: its 0-based position as the x
/// coordinate, and its reading — zero when missing — as the y coordinate.
pub open spec fn spec_point(i: int, tv: TimeValue) -> (u64, i64) {
    (
        i as u64,
        match tv.v {
            Some(x) => x,
            None => 0,
        },
    )
}

/// The plot dataset a series projects to, sample by sample.
pub open spec fn spec_dataset(s: Seq<TimeValue>) -> Seq<(u64, i64)> {
    Seq::new(s.len(), |i: int| spec_point(i, s[i]))
}

/// A station's time series, ordered by timestamp ascending as received.
pub struct TimeSeries(pub Vec<TimeValue>);

impl TimeSeries {
    pub fn new(data: Vec<TimeValue>) -> (r: Self)
        ensures
            r.0 == data,
    {
        TimeSeries(data)
    }

    /// The number of samples.
    pub fn len(&self) -> (r: usize)
        ensures
            r == self.0.len(),
    {
        self.0.len()
    }

    /// Project the series into a plot dataset: the x coordinate of each
    /// point is its 0-based position, a missing reading projects to zero,
    /// and a real reading is carried over unchanged.
    pub fn as_dataset(self) -> (r: Vec<(u64, i64)>)
        requires
            self.0.len() > 0,
        ensures
            r@ == spec_dataset(self.0@),
    {
        let mut out: Vec<(u64, i64)> = Vec::new();
        let mut i: usize = 0;
        while i < self.0.len()
            invariant
                i <= self.0.len(),
                out@ == spec_dataset(self.0@.take(i as int)),
            decreases self.0.len() - i,
        {
            let y: i64 = match self.0[i].v {
                Some(x) => x,
                None => 0,
            };
            out.push((i as u64, y));
            proof {
                assert(out@ =~= spec_dataset(self.0@.take(i as int + 1)));
            }
            i = i + 1;
        }
        proof {
            assert(self.0@.take(self.0@.len() as int) =~= self.0@);
        }
        out
    }
}

} // verus!
