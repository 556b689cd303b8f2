use std::ops::ControlFlow;

use allerta_meteo::event_handler_trait::{
    Event, KeyCode, KeyEvent, KeyEventKind, MutStatefulEventHandler,
};
use allerta_meteo::graph::{GraphPage, GraphPageState};
use allerta_meteo::{Station, TimeSeries, TimeValue};

fn station() -> Station {
    Station {
        idstazione: "7".to_string(),
        ordinamento: 0,
        nomestaz: "Po a Pontelagoscuro".to_string(),
        lon: "11.6".to_string(),
        lat: "44.9".to_string(),
        value: Some(250),
        soglia1: 100,
        soglia2: 200,
        soglia3: 300,
    }
}

fn sample(t: u64, v: Option<i64>) -> TimeValue {
    TimeValue { t, v }
}

#[test]
fn dataset_is_indexed_and_zero_fills_missing_values() {
    let series = TimeSeries::new(vec![
        sample(1000, Some(5)),
        sample(2000, None),
        sample(3000, Some(-7)),
    ]);
    let points = series.as_dataset();
    assert_eq!(points, vec![(0, 5), (1, 0), (2, -7)]);
}

#[test]
fn window_spans_exactly_the_series_length() {
    let series = TimeSeries::new(vec![
        sample(0, Some(1)),
        sample(1, Some(2)),
        sample(2, Some(3)),
        sample(3, Some(4)),
    ]);
    let page = GraphPageState::new(station(), series);
    assert_eq!(page.window, (0, 4));
    assert_eq!(page.data.len(), 4);
}

#[test]
fn threshold_lines_are_flat_over_the_data_range() {
    let series = TimeSeries::new(vec![sample(0, Some(1)), sample(1, None)]);
    let page = GraphPageState::new(station(), series);
    assert_eq!(page.soglia1_data, vec![(0, 100), (1, 100)]);
    assert_eq!(page.soglia2_data, vec![(0, 200), (1, 200)]);
    assert_eq!(page.soglia3_data, vec![(0, 300), (1, 300)]);
    assert_eq!(page.data, vec![(0, 1), (1, 0)]);
}

#[test]
fn graph_page_keeps_the_bound_station() {
    let series = TimeSeries::new(vec![sample(0, Some(1))]);
    let page = GraphPageState::new(station(), series);
    assert_eq!(page.station.nomestaz(), "Po a Pontelagoscuro");
}

#[test]
fn back_keys_leave_the_page_and_others_do_not() {
    let mut page = GraphPage {};
    let mut state = GraphPageState::new(station(), TimeSeries::new(vec![sample(0, Some(1))]));
    let press = |code: KeyCode| Event::Key(KeyEvent { code, kind: KeyEventKind::Press });
    assert!(matches!(page.handle(press(KeyCode::Esc), &mut state), ControlFlow::Break(())));
    assert!(matches!(page.handle(press(KeyCode::Char('q')), &mut state), ControlFlow::Break(())));
    assert!(matches!(page.handle(press(KeyCode::Down), &mut state), ControlFlow::Continue(())));
    assert!(matches!(page.handle(press(KeyCode::Enter), &mut state), ControlFlow::Continue(())));
    assert!(matches!(page.handle(Event::Other, &mut state), ControlFlow::Continue(())));
    let release = Event::Key(KeyEvent { code: KeyCode::Esc, kind: KeyEventKind::Release });
    assert!(matches!(page.handle(release, &mut state), ControlFlow::Continue(())));
}
