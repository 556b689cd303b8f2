use allerta_meteo::event_handler_trait::{Event, KeyCode, KeyEvent, KeyEventKind};
use allerta_meteo::nav::{App, Step};
use allerta_meteo::{Station, TimeSeries, TimeValue};

fn station(id: &str, ord: usize) -> Station {
    Station {
        idstazione: id.to_string(),
        ordinamento: ord,
        nomestaz: format!("Stazione {id}"),
        lon: "11.0".to_string(),
        lat: "44.0".to_string(),
        value: Some(50),
        soglia1: 100,
        soglia2: 200,
        soglia3: 300,
    }
}

fn press(code: KeyCode) -> Event {
    Event::Key(KeyEvent { code, kind: KeyEventKind::Press })
}

fn series(len: u64) -> TimeSeries {
    TimeSeries::new((0..len).map(|t| TimeValue { t, v: Some(t as i64) }).collect())
}

#[test]
fn empty_station_list_starts_no_session() {
    // an empty list at startup terminates before any page exists
    assert!(App::new(Vec::new()).is_none());
}

#[test]
fn session_starts_on_the_selection_page() {
    let app = App::new(vec![station("1", 0), station("2", 1)]).unwrap();
    assert_eq!(app.page_idx, 0);
    assert!(app.graph.is_none());
    assert_eq!(app.selection.selected, 0);
}

#[test]
fn quit_from_selection_ends_the_session() {
    let mut app = App::new(vec![station("1", 0)]).unwrap();
    assert!(matches!(app.handle_event(press(KeyCode::Char('q'))), Step::Quit));
    assert!(matches!(app.handle_event(press(KeyCode::Esc)), Step::Quit));
}

#[test]
fn navigation_keys_move_the_highlight() {
    let stations: Vec<Station> = (0..3).map(|i| station(&i.to_string(), i)).collect();
    let mut app = App::new(stations).unwrap();
    assert!(matches!(app.handle_event(press(KeyCode::Down)), Step::Continue));
    assert_eq!(app.selection.selected, 1);
    assert!(matches!(app.handle_event(press(KeyCode::Up)), Step::Continue));
    assert_eq!(app.selection.selected, 0);
    assert!(matches!(app.handle_event(press(KeyCode::Char('z'))), Step::Continue));
    assert_eq!(app.selection.selected, 0);
}

#[test]
fn confirming_a_station_drills_into_its_graph_and_back_restores_the_highlight() {
    // confirming station id:7 opens a graph page titled with station 7's
    // display name and a dataset as long as the fetched series; back
    // returns to the selection page with the same highlighted index
    let stations = vec![station("5", 0), station("7", 1), station("9", 2)];
    let mut app = App::new(stations).unwrap();
    app.handle_event(press(KeyCode::Down));
    assert_eq!(app.selection.selected, 1);

    let picked = match app.handle_event(press(KeyCode::Enter)) {
        Step::Drill(s) => s,
        other => panic!("expected a drill request, got {other:?}"),
    };
    assert_eq!(picked.idstazione(), "7");
    // the fetch is the caller's job; hand the result back
    app.enter_graph(picked, series(6));
    assert_eq!(app.page_idx, 1);
    let graph = app.graph.as_ref().unwrap();
    assert_eq!(graph.station.nomestaz(), "Stazione 7");
    assert_eq!(graph.data.len(), 6);
    assert_eq!(graph.window, (0, 6));

    // keys other than back do nothing on the graph page
    assert!(matches!(app.handle_event(press(KeyCode::Enter)), Step::Continue));
    assert_eq!(app.page_idx, 1);

    // back discards the graph and restores the selection state intact
    assert!(matches!(app.handle_event(press(KeyCode::Esc)), Step::Continue));
    assert_eq!(app.page_idx, 0);
    assert!(app.graph.is_none());
    assert_eq!(app.selection.selected, 1);
    assert_eq!(app.selection.scroll_position, app.selection.selected * 4);
}

#[test]
fn counting_stations_with_readings() {
    let mut one = station("1", 0);
    one.value = None;
    let stations = allerta_meteo::Stations(vec![one, station("2", 1), station("3", 2)]);
    assert_eq!(stations.count_with_reading(), 2);
    assert_eq!(allerta_meteo::Stations(Vec::new()).count_with_reading(), 0);
}
