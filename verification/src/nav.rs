//! The navigation driver: a closed two-page state machine. The selection
//! page is built once from the ranked station list and retained; a graph
//! page is built fresh on every drill-in and discarded on return. The
//! driver owns all page state, dispatches one event at a time to the active
//! page, and surfaces the one outside step — fetching a time series — as a
//! request for the caller to perform.
use crate::event_handler_trait::{
    Event, MutStatefulEventHandler, event_is_quit, is_confirm_event, is_down_event, is_quit_event,
    is_up_event,
};
use crate::graph::GraphPageState;
use crate::table::{
    ITEM_HEIGHT, SelectionPage, SelectionPageState, max_name_width, max_soglia1_width,
    max_soglia2_width, max_soglia3_width, max_value_width,
};
use crate::{Station, TimeSeries};
use core::ops::ControlFlow;
use vstd::prelude::*;

verus! {

/// What the driver asks of its caller after one event: keep going, fetch
/// the given station's time series and hand it back through `enter_graph`,
/// or end the session.
#[derive(Debug)]
pub enum Step {
    Continue,
    Drill(Station),
    Quit,
}

/// The session: the retained selection page, the graph page while one is
/// open, and which of the two is active.
#[derive(Debug)]
pub struct App {
    pub selection: SelectionPageState,
    pub graph: Option<GraphPageState>,
    pub page_idx: usize,
}

impl App {
    /// Well-formed session: a well-formed selection page, an active-page
    /// index of 0 (selection) or 1 (graph), and a well-formed graph page
    /// whenever the graph is the active page.
    pub open spec fn wf(self) -> bool {
        &&& self.selection.wf()
        &&& self.page_idx <= 1
        &&& (self.page_idx == 1 ==> self.graph is Some && self.graph->0.wf())
    }

    /// Start a session from a ranked station list: the selection page is
    /// active with the first row highlighted. An empty list starts no
    /// session at all.
    pub fn new(stations: Vec<Station>) -> (r: Option<App>)
        requires
            stations@.len() * ITEM_HEIGHT as int <= usize::MAX as int,
        ensures
            r is None <==> stations@.len() == 0,
            r matches Some(app) ==> {
                &&& app.wf()
                &&& app.page_idx == 0
                &&& app.graph is None
                &&& app.selection.items == stations
                &&& app.selection.selected == 0
                &&& app.selection.scroll_position == 0
                &&& app.selection.scroll_extent as int == (stations@.len() - 1) * ITEM_HEIGHT as int
                &&& app.selection.longest_item_lens.0 == max_name_width(stations@) as u16
                &&& app.selection.longest_item_lens.1 == max_value_width(stations@) as u16
                &&& app.selection.longest_item_lens.2 == max_soglia1_width(stations@) as u16
                &&& app.selection.longest_item_lens.3 == max_soglia2_width(stations@) as u16
                &&& app.selection.longest_item_lens.4 == max_soglia3_width(stations@) as u16
            },
    {
        if stations.len() == 0 {
            return None;
        }
        Some(
            App {
                selection: SelectionPageState::new(stations),
                graph: None,
                page_idx: 0,
            },
        )
    }

    /// Dispatch one event to the active page.
    ///
    /// On the selection page: quit ends the session, down and up move the
    /// highlight circularly, Enter asks the caller to drill into the
    /// highlighted station, and anything else changes nothing. On the graph
    /// page: back (`q` or Escape) discards the graph and reactivates the
    /// selection page with its highlight and scroll intact; nothing else —
    /// not even quit — leaves the page or changes anything.
    pub fn handle_event(&mut self, event: Event) -> (r: Step)
        requires
            old(self).wf(),
        ensures
            final(self).wf(),
            old(self).page_idx == 0 ==> {
                &&& final(self).page_idx == 0
                &&& final(self).graph == old(self).graph
                &&& (is_quit_event(event) ==> r is Quit && final(self).selection == old(
                    self,
                ).selection)
                &&& (is_down_event(event) ==> r is Continue && final(self).selection == old(
                    self,
                ).selection.spec_next())
                &&& (is_up_event(event) ==> r is Continue && final(self).selection == old(
                    self,
                ).selection.spec_previous())
                &&& (is_confirm_event(event) ==> r == Step::Drill(
                    old(self).selection.items@[old(self).selection.selected as int],
                ) && final(self).selection == old(self).selection)
                &&& (!is_quit_event(event) && !is_down_event(event) && !is_up_event(event)
                    && !is_confirm_event(event) ==> r is Continue && final(self).selection == old(
                    self,
                ).selection)
            },
            old(self).page_idx == 1 ==> {
                &&& r is Continue
                &&& final(self).selection == old(self).selection
                &&& (is_quit_event(event) ==> final(self).page_idx == 0 && final(self).graph
                    is None)
                &&& (!is_quit_event(event) ==> *final(self) == *old(self))
            },
    {
        if self.page_idx == 0 {
            let mut page = SelectionPage {  };
            match page.handle(event, &mut self.selection) {
                ControlFlow::Continue(data) => match data {
                    Some(station) => Step::Drill(station),
                    None => Step::Continue,
                },
                ControlFlow::Break(_) => Step::Quit,
            }
        } else {
            // the graph page mutates nothing; the driver reacts to its
            // back request by discarding it
            if event_is_quit(&event) {
                self.graph = None;
                self.page_idx = 0;
            }
            Step::Continue
        }
    }

    /// Complete a drill-in: build a fresh graph page for the fetched series
    /// and make it the active page. The selection page is retained
    /// untouched, so returning restores its highlight and scroll exactly.
    pub fn enter_graph(&mut self, station: Station, series: TimeSeries)
        requires
            old(self).wf(),
            old(self).page_idx == 0,
            series.0@.len() > 0,
        ensures
            final(self).wf(),
            final(self).page_idx == 1,
            final(self).selection == old(self).selection,
            final(self).graph matches Some(g) && g.is_graph_for(station, series.0@),
    {
        self.graph = Some(GraphPageState::new(station, series));
        self.page_idx = 1;
    }
}

} // verus!
