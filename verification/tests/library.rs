use shortwave::library::{
    next_favorite_index, previous_favorite_index, LibraryStation, SwLibrary, SwLibraryStatus,
};

fn order(uuids: &[&str]) -> Vec<String> {
    uuids.iter().map(|u| u.to_string()).collect()
}

fn station(uuid: &str, is_local: bool) -> LibraryStation {
    LibraryStation { uuid: uuid.to_string(), is_local }
}

#[test]
fn next_favorite_wraps_around() {
    let o = order(&["a", "b", "c"]);
    assert_eq!(next_favorite_index(&o, Some("a")), Some(1));
    assert_eq!(next_favorite_index(&o, Some("c")), Some(0));
    assert_eq!(next_favorite_index(&o, None), Some(0));
    assert_eq!(next_favorite_index(&o, Some("zzz")), Some(0));
    assert_eq!(next_favorite_index(&order(&[]), Some("a")), None);
}

#[test]
fn previous_favorite_wraps_around() {
    let o = order(&["a", "b", "c"]);
    assert_eq!(previous_favorite_index(&o, Some("b")), Some(0));
    assert_eq!(previous_favorite_index(&o, Some("a")), Some(2));
    assert_eq!(previous_favorite_index(&o, None), Some(2));
    assert_eq!(previous_favorite_index(&o, Some("zzz")), Some(2));
    assert_eq!(previous_favorite_index(&order(&[]), None), None);
}

#[test]
fn next_then_previous_returns() {
    let o = order(&["a", "b", "c", "d"]);
    for (i, u) in o.iter().enumerate() {
        let n = next_favorite_index(&o, Some(u.as_str())).unwrap();
        assert_eq!(previous_favorite_index(&o, Some(o[n].as_str())), Some(i));
        let p = previous_favorite_index(&o, Some(u.as_str())).unwrap();
        assert_eq!(next_favorite_index(&o, Some(o[p].as_str())), Some(i));
    }
}

#[test]
fn adding_and_removing_stations() {
    let mut l = SwLibrary::load(vec![station("x", false)]);
    assert_eq!(l.status(), SwLibraryStatus::Empty);
    l.add_station(station("a", false));
    assert_eq!(l.status(), SwLibraryStatus::Content);
    assert!(l.contains_station("a"));
    assert!(!l.contains_station("x"));
    l.add_station(station("b", true));
    l.remove_stations(&order(&["a", "x"]));
    assert!(!l.contains_station("a"));
    assert!(l.contains_station("b"));
    assert_eq!(l.model.len(), 1);
    assert_eq!(l.status(), SwLibraryStatus::Content);
    l.remove_stations(&order(&["b"]));
    assert_eq!(l.status(), SwLibraryStatus::Empty);
    assert!(l.model.is_empty());
}

#[test]
fn only_remote_stations_are_updated() {
    let l = SwLibrary::load(vec![station("a", false), station("b", true), station("c", false)]);
    assert_eq!(l.stations_to_update(), order(&["a", "c"]));
}

#[test]
fn next_goes_round_all_favorites() {
    let o = order(&["a", "b", "c", "d"]);
    let mut current = 2usize;
    let mut seen = vec![current];
    for _ in 0..4 {
        current = next_favorite_index(&o, Some(o[current].as_str())).unwrap();
        seen.push(current);
    }
    assert_eq!(seen, vec![2, 3, 0, 1, 2]);
}
