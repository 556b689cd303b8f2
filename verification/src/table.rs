//! The selection page: state for a virtualized station table with circular
//! highlight navigation, a scrollbar tracked in lock-step with the
//! highlight, and column widths computed once from the rendered cell text.
use crate::Station;
use crate::event_handler_trait::{
    Event, KeyCode, KeyEventKind, MutStatefulEventHandler, is_confirm_event, is_down_event,
    is_quit_event, is_up_event,
};
use crate::text::{dec_string, i64_to_string};
use core::ops::ControlFlow;
use vstd::prelude::*;

verus! {

/// Height in terminal lines of one table row.
pub const ITEM_HEIGHT: usize = 4;

/// The displayed column width of a string of characters, as the terminal
/// renders it.
pub uninterp spec fn display_width_of(s: Seq<char>) -> nat;

/// Relies on unicode_width::UnicodeWidthStr::width (the impl for `str`):
/// the displayed column width of a string, a function of its characters
/// alone.
#[verifier::external_body]
fn str_display_width(s: &str) -> (r: usize)
    ensures
        r as nat == display_width_of(s@),
{
    unicode_width::UnicodeWidthStr::width(s)
}

/// The larger of two widths.
pub open spec fn max_width(a: nat, b: nat) -> nat {
    if a > b {
        a
    } else {
        b
    }
}

/// The widest displayed station name in the list.
pub open spec fn max_name_width(items: Seq<Station>) -> nat
    decreases items.len(),
{
    if items.len() == 0 {
        0
    } else {
        max_width(max_name_width(items.drop_last()), display_width_of(items.last().nomestaz@))
    }
}

/// The widest rendered reading in the list; stations without a reading do
/// not take part.
pub open spec fn max_value_width(items: Seq<Station>) -> nat
    decreases items.len(),
{
    if items.len() == 0 {
        0
    } else {
        max_width(
            max_value_width(items.drop_last()),
            match items.last().value {
                Some(v) => display_width_of(dec_string(v as int)),
                None => 0,
            },
        )
    }
}

/// The widest rendered first threshold in the list.
pub open spec fn max_soglia1_width(items: Seq<Station>) -> nat
    decreases items.len(),
{
    if items.len() == 0 {
        0
    } else {
        max_width(
            max_soglia1_width(items.drop_last()),
            display_width_of(dec_string(items.last().soglia1 as int)),
        )
    }
}

/// The widest rendered second threshold in the list.
pub open spec fn max_soglia2_width(items: Seq<Station>) -> nat
    decreases items.len(),
{
    if items.len() == 0 {
        0
    } else {
        max_width(
            max_soglia2_width(items.drop_last()),
            display_width_of(dec_string(items.last().soglia2 as int)),
        )
    }
}

/// The widest rendered third threshold in the list.
pub open spec fn max_soglia3_width(items: Seq<Station>) -> nat
    decreases items.len(),
{
    if items.len() == 0 {
        0
    } else {
        max_width(
            max_soglia3_width(items.drop_last()),
            display_width_of(dec_string(items.last().soglia3 as int)),
        )
    }
}

/// Compute the five column widths of the table — name, latest reading, and
/// the three thresholds — as the widest rendered cell of each column.
pub fn constraint_len_calculator(items: &Vec<Station>) -> (r: (u16, u16, u16, u16, u16))
    ensures
        r.0 == max_name_width(items@) as u16,
        r.1 == max_value_width(items@) as u16,
        r.2 == max_soglia1_width(items@) as u16,
        r.3 == max_soglia2_width(items@) as u16,
        r.4 == max_soglia3_width(items@) as u16,
{
    let mut name_w: usize = 0;
    let mut value_w: usize = 0;
    let mut s1_w: usize = 0;
    let mut s2_w: usize = 0;
    let mut s3_w: usize = 0;
    let mut i: usize = 0;
    while i < items.len()
        invariant
            i <= items.len(),
            name_w as nat == max_name_width(items@.take(i as int)),
            value_w as nat == max_value_width(items@.take(i as int)),
            s1_w as nat == max_soglia1_width(items@.take(i as int)),
            s2_w as nat == max_soglia2_width(items@.take(i as int)),
            s3_w as nat == max_soglia3_width(items@.take(i as int)),
        decreases items.len() - i,
    {
        proof {
            assert(items@.take(i as int + 1).drop_last() =~= items@.take(i as int));
        }
        let s = &items[i];
        let w = str_display_width(s.nomestaz.as_str());
        if w > name_w {
            name_w = w;
        }
        match s.value {
            Some(v) => {
                let rendered = i64_to_string(v);
                let w = str_display_width(rendered.as_str());
                if w > value_w {
                    value_w = w;
                }
            },
            None => {},
        }
        let rendered = i64_to_string(s.soglia1);
        let w = str_display_width(rendered.as_str());
        if w > s1_w {
            s1_w = w;
        }
        let rendered = i64_to_string(s.soglia2);
        let w = str_display_width(rendered.as_str());
        if w > s2_w {
            s2_w = w;
        }
        let rendered = i64_to_string(s.soglia3);
        let w = str_display_width(rendered.as_str());
        if w > s3_w {
            s3_w = w;
        }
        i = i + 1;
    }
    proof {
        assert(items@.take(items@.len() as int) =~= items@);
    }
    #[verifier::truncate]
    let r = (name_w as u16, value_w as u16, s1_w as u16, s2_w as u16, s3_w as u16);
    r
}

/// The highlight index one "down" move away: the next row, wrapping to the
/// first after the last.
pub open spec fn down_index(i: int, n: int) -> int {
    if i + 1 >= n {
        0
    } else {
        i + 1
    }
}

/// The highlight index one "up" move away: the previous row, wrapping to
/// the last before the first.
pub open spec fn up_index(i: int, n: int) -> int {
    if i == 0 {
        n - 1
    } else {
        i - 1
    }
}

/// The highlight index `k` "down" moves away.
pub open spec fn down_index_k(i: int, k: nat, n: int) -> int
    decreases k,
{
    if k == 0 {
        i
    } else {
        down_index(down_index_k(i, (k - 1) as nat, n), n)
    }
}

/// Where `k` "down" moves land, for `k` up to the list length: the start
/// plus `k`, wrapped once past the end.
pub proof fn lemma_down_index_shift(i: int, k: nat, n: int)
    requires
        0 <= i < n,
        k <= n,
    ensures
        down_index_k(i, k, n) == if i + k < n {
            i + k
        } else {
            i + k - n
        },
    decreases k,
{
    if k > 0 {
        lemma_down_index_shift(i, (k - 1) as nat, n);
    }
}

/// Wrapping at the ends: one "down" move from the last row reaches row 0,
/// and one "up" move from row 0 reaches the last row.
pub proof fn lemma_wrap_at_ends(n: int)
    requires
        n > 0,
    ensures
        down_index(n - 1, n) == 0,
        up_index(0, n) == n - 1,
{
}

/// Circular navigation comes home: from any row, as many "down" moves as
/// there are rows select the same row again.
pub proof fn lemma_down_full_cycle(i: int, n: int)
    requires
        0 <= i < n,
    ensures
        down_index_k(i, n as nat, n) == i,
{
    lemma_down_index_shift(i, n as nat, n);
}

/// The state of the selection page: the ranked stations, the highlighted
/// row, the column widths computed once at construction, and the scrollbar
/// position and extent.
#[derive(Debug)]
pub struct SelectionPageState {
    pub items: Vec<Station>,
    pub selected: usize,
    pub longest_item_lens: (u16, u16, u16, u16, u16),
    pub scroll_position: usize,
    pub scroll_extent: usize,
}

impl SelectionPageState {
    /// Well-formed selection state: a non-empty list whose scroll span fits
    /// the machine, a highlight inside the list, and a scrollbar tracking
    /// the highlight in lock-step.
    pub open spec fn wf(self) -> bool {
        &&& 0 < self.items@.len()
        &&& self.items@.len() * ITEM_HEIGHT as int <= usize::MAX as int
        &&& (self.selected as int) < self.items@.len()
        &&& self.scroll_position as int == self.selected as int * ITEM_HEIGHT as int
        &&& self.scroll_extent as int == (self.items@.len() - 1) * ITEM_HEIGHT as int
    }

    /// This state with the highlight, and the scrollbar under it, moved to
    /// row `i`.
    pub open spec fn with_highlight(self, i: int) -> SelectionPageState {
        SelectionPageState {
            selected: i as usize,
            scroll_position: (i * ITEM_HEIGHT as int) as usize,
            ..self
        }
    }

    /// The state one "down" move away.
    pub open spec fn spec_next(self) -> SelectionPageState {
        self.with_highlight(down_index(self.selected as int, self.items@.len() as int))
    }

    /// The state one "up" move away.
    pub open spec fn spec_previous(self) -> SelectionPageState {
        self.with_highlight(up_index(self.selected as int, self.items@.len() as int))
    }

    /// Build the page state from a ranked station list: highlight the first
    /// row, compute the column widths once, and size the scrollbar to the
    /// list.
    pub fn new(stations: Vec<Station>) -> (r: Self)
        requires
            stations@.len() > 0,
            stations@.len() * ITEM_HEIGHT as int <= usize::MAX as int,
        ensures
            r.wf(),
            r.items == stations,
            r.selected == 0,
            r.scroll_position == 0,
            r.scroll_extent as int == (stations@.len() - 1) * ITEM_HEIGHT as int,
            r.longest_item_lens.0 == max_name_width(stations@) as u16,
            r.longest_item_lens.1 == max_value_width(stations@) as u16,
            r.longest_item_lens.2 == max_soglia1_width(stations@) as u16,
            r.longest_item_lens.3 == max_soglia2_width(stations@) as u16,
            r.longest_item_lens.4 == max_soglia3_width(stations@) as u16,
    {
        let longest_item_lens = constraint_len_calculator(&stations);
        let scroll_extent = (stations.len() - 1) * ITEM_HEIGHT;
        SelectionPageState {
            selected: 0,
            longest_item_lens,
            scroll_position: 0,
            scroll_extent,
            items: stations,
        }
    }

    /// Move the highlight one row down, wrapping past the last row to the
    /// first; the scrollbar follows the highlight.
    pub fn next(&mut self)
        requires
            old(self).wf(),
        ensures
            final(self).wf(),
            *final(self) == old(self).spec_next(),
    {
        let i = if self.selected >= self.items.len() - 1 {
            0
        } else {
            self.selected + 1
        };
        self.selected = i;
        self.scroll_position = i * ITEM_HEIGHT;
    }

    /// Move the highlight one row up, wrapping past the first row to the
    /// last; the scrollbar follows the highlight.
    pub fn previous(&mut self)
        requires
            old(self).wf(),
        ensures
            final(self).wf(),
            *final(self) == old(self).spec_previous(),
    {
        let i = if self.selected == 0 {
            self.items.len() - 1
        } else {
            self.selected - 1
        };
        self.selected = i;
        self.scroll_position = i * ITEM_HEIGHT;
    }

    /// The currently highlighted station, by value, with nothing mutated.
    pub fn get_selected_data(&mut self) -> (r: Option<Station>)
        requires
            old(self).wf(),
        ensures
            *final(self) == *old(self),
            r == Some(old(self).items@[old(self).selected as int]),
    {
        Some(self.items[self.selected].clone())
    }
}

/// The selection page itself; its mutable state lives in
/// `SelectionPageState`.
pub struct SelectionPage {}

impl MutStatefulEventHandler<SelectionPageState, (), Option<Station>> for SelectionPage {
    /// Consume one event: quit breaks out, down/up move the highlight
    /// circularly, Enter produces the highlighted station, and everything
    /// else — releases and repeats included — is a no-op.
    fn handle(&mut self, event: Event, state: &mut SelectionPageState) -> (r: ControlFlow<
        (),
        Option<Station>,
    >)
        ensures
            old(state).wf() ==> {
                &&& final(state).wf()
                &&& (is_quit_event(event) ==> r is Break && *final(state) == *old(state))
                &&& (is_down_event(event) ==> r == ControlFlow::<(), Option<Station>>::Continue(
                    None,
                ) && *final(state) == old(state).spec_next())
                &&& (is_up_event(event) ==> r == ControlFlow::<(), Option<Station>>::Continue(None)
                    && *final(state) == old(state).spec_previous())
                &&& (is_confirm_event(event) ==> r == ControlFlow::<(), Option<Station>>::Continue(
                    Some(old(state).items@[old(state).selected as int]),
                ) && *final(state) == *old(state))
                &&& (!is_quit_event(event) && !is_down_event(event) && !is_up_event(event)
                    && !is_confirm_event(event) ==> r == ControlFlow::<(
                    ),
                    Option<Station>,
                >::Continue(None) && *final(state) == *old(state))
            },
            !old(state).wf() ==> *final(state) == *old(state) && r == ControlFlow::<(
            ),
            Option<Station>,
            >::Continue(None),
    {
        let len = state.items.len();
        let well_formed = len > 0 && len <= usize::MAX / ITEM_HEIGHT && state.selected < len
            && state.scroll_position == state.selected * ITEM_HEIGHT && state.scroll_extent == (len
            - 1) * ITEM_HEIGHT;
        if !well_formed {
            return ControlFlow::Continue(None);
        }
        if let Event::Key(key) = event {
            if let KeyEventKind::Press = key.kind {
                return match key.code {
                    KeyCode::Char(c) => {
                        if c == 'q' {
                            ControlFlow::Break(())
                        } else if c == 'j' {
                            state.next();
                            ControlFlow::Continue(None)
                        } else if c == 'k' {
                            state.previous();
                            ControlFlow::Continue(None)
                        } else {
                            ControlFlow::Continue(None)
                        }
                    },
                    KeyCode::Esc => ControlFlow::Break(()),
                    KeyCode::Down => {
                        state.next();
                        ControlFlow::Continue(None)
                    },
                    KeyCode::Up => {
                        state.previous();
                        ControlFlow::Continue(None)
                    },
                    KeyCode::Enter => ControlFlow::Continue(state.get_selected_data()),
                    KeyCode::Other => ControlFlow::Continue(None),
                };
            }
        }
        ControlFlow::Continue(None)
    }
}

} // verus!
