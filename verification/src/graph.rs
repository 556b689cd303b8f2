//! The graph page: a station's time series projected to an index-based plot
//! dataset, three flat threshold reference lines spanning the same index
//! range, and an x-axis window over exactly that range.
use crate::event_handler_trait::{Event, MutStatefulEventHandler, event_is_quit, is_quit_event};
use crate::{Station, TimeSeries, TimeValue, spec_dataset};
use core::ops::ControlFlow;
use vstd::prelude::*;

verus! {

/// A flat reference line: one point per data index, all at the same level.
pub open spec fn spec_flat_line(n: nat, level: i64) -> Seq<(u64, i64)> {
    Seq::new(n, |i: int| (i as u64, level))
}

/// The state of the graph page: the bound station, its plot dataset, one
/// flat line per threshold, and the x-axis window.
#[derive(Debug)]
pub struct GraphPageState {
    pub station: Station,
    pub data: Vec<(u64, i64)>,
    pub soglia1_data: Vec<(u64, i64)>,
    pub soglia2_data: Vec<(u64, i64)>,
    pub soglia3_data: Vec<(u64, i64)>,
    pub window: (u64, u64),
}

impl GraphPageState {
    /// This graph state shows exactly the given station and series: the
    /// dataset is the series' index-based projection, each threshold line
    /// is flat at its threshold over the same index range, and the window
    /// spans `[0, series length]`.
    pub open spec fn is_graph_for(self, station: Station, series: Seq<TimeValue>) -> bool {
        &&& self.station == station
        &&& self.data@ == spec_dataset(series)
        &&& self.soglia1_data@ == spec_flat_line(series.len(), station.soglia1)
        &&& self.soglia2_data@ == spec_flat_line(series.len(), station.soglia2)
        &&& self.soglia3_data@ == spec_flat_line(series.len(), station.soglia3)
        &&& self.window == ((0u64, series.len() as u64))
    }

    /// Well-formed graph state: a non-empty dataset, threshold lines of the
    /// same length, and a window from zero to the dataset length.
    pub open spec fn wf(self) -> bool {
        &&& self.data@.len() > 0
        &&& self.soglia1_data@.len() == self.data@.len()
        &&& self.soglia2_data@.len() == self.data@.len()
        &&& self.soglia3_data@.len() == self.data@.len()
        &&& self.window.0 == 0
        &&& self.window.1 as int == self.data@.len()
    }

    /// Build the graph page from a station and its non-empty time series.
    pub fn new(station: Station, data: TimeSeries) -> (r: Self)
        requires
            data.0@.len() > 0,
        ensures
            r.is_graph_for(station, data.0@),
            r.wf(),
    {
        let size = data.0.len();
        let s1 = station.soglia1;
        let s2 = station.soglia2;
        let s3 = station.soglia3;
        let data_points = data.as_dataset();
        let soglia1_data = flat_line(size, s1);
        let soglia2_data = flat_line(size, s2);
        let soglia3_data = flat_line(size, s3);
        GraphPageState {
            station,
            data: data_points,
            soglia1_data,
            soglia2_data,
            soglia3_data,
            window: (0, size as u64),
        }
    }
}

/// One flat line at the given level, with one point per index below `n`.
fn flat_line(n: usize, level: i64) -> (r: Vec<(u64, i64)>)
    ensures
        r@ == spec_flat_line(n as nat, level),
{
    let mut out: Vec<(u64, i64)> = Vec::new();
    let mut i: usize = 0;
    while i < n
        invariant
            i <= n,
            out@ == spec_flat_line(i as nat, level),
        decreases n - i,
    {
        out.push((i as u64, level));
        proof {
            assert(out@ =~= spec_flat_line(i as nat + 1, level));
        }
        i = i + 1;
    }
    out
}

/// The graph page itself; its state lives in `GraphPageState`.
pub struct GraphPage {}

impl MutStatefulEventHandler<GraphPageState, (), ()> for GraphPage {
    /// Consume one event: `q` or Escape asks to leave the page, everything
    /// else is a no-op; the state is never mutated.
    fn handle(&mut self, event: Event, state: &mut GraphPageState) -> (r: ControlFlow<(), ()>)
        ensures
            *final(state) == *old(state),
            r == if is_quit_event(event) {
                ControlFlow::<(), ()>::Break(())
            } else {
                ControlFlow::<(), ()>::Continue(())
            },
    {
        if event_is_quit(&event) {
            ControlFlow::Break(())
        } else {
            ControlFlow::Continue(())
        }
    }
}

} // verus!
