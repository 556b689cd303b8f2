use allerta_meteo::ranking::{ranks_at_or_before, sort_stations};
use allerta_meteo::Station;

fn station(id: &str, ord: usize, value: Option<i64>, s1: i64, s2: i64, s3: i64) -> Station {
    Station {
        idstazione: id.to_string(),
        ordinamento: ord,
        nomestaz: format!("Station {id}"),
        lon: "11.0".to_string(),
        lat: "44.0".to_string(),
        value,
        soglia1: s1,
        soglia2: s2,
        soglia3: s3,
    }
}

#[test]
fn score_counts_thresholds_exceeded() {
    assert_eq!(station("a", 0, None, 100, 200, 300).score(), 0);
    assert_eq!(station("a", 0, Some(50), 100, 200, 300).score(), 0);
    assert_eq!(station("a", 0, Some(100), 100, 200, 300).score(), 0);
    assert_eq!(station("a", 0, Some(101), 100, 200, 300).score(), 1);
    assert_eq!(station("a", 0, Some(250), 100, 200, 300).score(), 2);
    assert_eq!(station("a", 0, Some(301), 100, 200, 300).score(), 3);
}

#[test]
fn severe_band_sorts_first_regardless_of_raw_value() {
    // a low raw reading in a high band still outranks a huge reading in a
    // lower band
    let high_band = station("high", 0, Some(31), 10, 20, 30);
    let low_band = station("low", 1, Some(900), 1000, 2000, 3000);
    assert!(ranks_at_or_before(&high_band, &low_band));
    assert!(!ranks_at_or_before(&low_band, &high_band));
}

#[test]
fn equal_score_orders_by_value_descending() {
    let bigger = station("big", 5, Some(80), 100, 200, 300);
    let smaller = station("small", 1, Some(40), 100, 200, 300);
    assert!(ranks_at_or_before(&bigger, &smaller));
    assert!(!ranks_at_or_before(&smaller, &bigger));
}

#[test]
fn missing_reading_loses_every_tie() {
    let with_reading = station("v", 9, Some(-500), 100, 200, 300);
    let without = station("n", 0, None, 100, 200, 300);
    assert!(ranks_at_or_before(&with_reading, &without));
    assert!(!ranks_at_or_before(&without, &with_reading));
}

#[test]
fn double_missing_tie_falls_back_to_display_order() {
    let first = station("a", 2, None, 100, 200, 300);
    let second = station("b", 7, None, 100, 200, 300);
    assert!(ranks_at_or_before(&first, &second));
    assert!(!ranks_at_or_before(&second, &first));
}

#[test]
fn scenario_ranked_list_sorts_most_severe_first() {
    // ranked list [{id:1, band 3}, {id:2, band 1}, {id:3, band 3, lower
    // value}] sorts to [1, 3, 2]
    let mut v = vec![
        station("1", 0, Some(400), 100, 200, 300),
        station("2", 1, Some(150), 100, 200, 300),
        station("3", 2, Some(350), 100, 200, 300),
    ];
    sort_stations(&mut v);
    let ids: Vec<&str> = v.iter().map(|s| s.idstazione()).collect();
    assert_eq!(ids, vec!["1", "3", "2"]);
}

#[test]
fn sort_is_a_permutation_and_ranked() {
    let mut v = vec![
        station("n", 4, None, 100, 200, 300),
        station("mid", 3, Some(250), 100, 200, 300),
        station("low", 2, Some(10), 100, 200, 300),
        station("top", 1, Some(999), 100, 200, 300),
        station("tie", 0, Some(250), 100, 200, 300),
    ];
    sort_stations(&mut v);
    let ids: Vec<&str> = v.iter().map(|s| s.idstazione()).collect();
    // score 3 first, the two score-2 ties by display order, then the rest
    assert_eq!(ids, vec!["top", "tie", "mid", "low", "n"]);
    assert_eq!(v.len(), 5);
}

#[test]
fn sort_handles_trivial_lists() {
    let mut empty: Vec<Station> = Vec::new();
    sort_stations(&mut empty);
    assert!(empty.is_empty());

    let mut one = vec![station("solo", 0, Some(1), 2, 3, 4)];
    sort_stations(&mut one);
    assert_eq!(one[0].idstazione(), "solo");
}
