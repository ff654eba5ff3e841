use platformer_core::level::{
    change_level, transition_level, ChangeLevel, LevelSelection, TransitionState,
};
use platformer_core::util::GridCoords;

#[test]
fn transition_fires_exactly_once_per_goal_arrival() {
    // The goal cell compared against the adjusted player cell: a player
    // standing at grid (5, 4) has its logical cell at (5, 3).
    let goal = GridCoords { x: 5, y: 3 };
    let positions = [(5, 3), (5, 4), (5, 4), (5, 4), (5, 5)];
    let mut state = TransitionState::default();
    let mut fired = 0usize;
    for (x, y) in positions {
        let player = GridCoords { x, y };
        if transition_level(&player, &goal, &mut state).is_some() {
            fired += 1;
        }
    }
    assert_eq!(fired, 1);
}

#[test]
fn leaving_and_returning_fires_anew() {
    let goal = GridCoords { x: 0, y: 0 };
    let mut state = TransitionState::default();
    let on = GridCoords { x: 0, y: 1 };
    let off = GridCoords { x: 1, y: 1 };
    assert!(transition_level(&on, &goal, &mut state).is_some());
    assert!(transition_level(&on, &goal, &mut state).is_none());
    assert!(transition_level(&off, &goal, &mut state).is_none());
    assert!(transition_level(&on, &goal, &mut state).is_some());
}

#[test]
fn transition_emits_a_next_request() {
    let goal = GridCoords { x: 2, y: 2 };
    let mut state = TransitionState::default();
    let player = GridCoords { x: 2, y: 3 };
    let change = transition_level(&player, &goal, &mut state).unwrap();
    assert!(matches!(change, ChangeLevel::Next));
}

#[test]
fn next_request_advances_the_level_index_and_orders_one_snap() {
    let mut selection = LevelSelection::index(0);
    let synced = change_level(&mut selection, vec![ChangeLevel::Next]);
    assert_eq!(selection, LevelSelection::Indices { level: 1 });
    assert_eq!(synced.len(), 1);
}

#[test]
fn the_last_applied_request_wins() {
    let mut selection = LevelSelection::index(0);
    let events = vec![
        ChangeLevel::Next,
        ChangeLevel::Level(LevelSelection::index(7)),
        ChangeLevel::Next,
    ];
    let synced = change_level(&mut selection, events);
    assert_eq!(selection, LevelSelection::Indices { level: 8 });
    assert_eq!(synced.len(), 3);
}

#[test]
fn requests_against_an_iid_selection_are_refused() {
    let mut selection = LevelSelection::Iid(String::from("level-a"));
    let synced = change_level(&mut selection, vec![ChangeLevel::Next, ChangeLevel::Next]);
    assert_eq!(selection, LevelSelection::Iid(String::from("level-a")));
    assert_eq!(synced.len(), 0);
}

#[test]
fn an_explicit_request_can_leave_the_iid_form_behind() {
    // The first request is refused on an identifier selection, so the run
    // stops there; nothing later is applied.
    let mut selection = LevelSelection::Iid(String::from("level-a"));
    let events = vec![ChangeLevel::Level(LevelSelection::index(2)), ChangeLevel::Next];
    change_level(&mut selection, events.clone());
    assert_eq!(selection, LevelSelection::Iid(String::from("level-a")));

    // From an indexed selection the same queue runs to the end.
    let mut selection = LevelSelection::index(0);
    let synced = change_level(&mut selection, events);
    assert_eq!(selection, LevelSelection::Indices { level: 3 });
    assert_eq!(synced.len(), 2);
}

#[test]
fn an_empty_queue_changes_nothing() {
    let mut selection = LevelSelection::index(4);
    let synced = change_level(&mut selection, Vec::new());
    assert_eq!(selection, LevelSelection::Indices { level: 4 });
    assert_eq!(synced.len(), 0);
}

#[test]
fn change_level_constructor_wraps_a_selection() {
    let c = ChangeLevel::level(LevelSelection::index(3));
    assert!(matches!(c, ChangeLevel::Level(LevelSelection::Indices { level: 3 })));
    assert!(matches!(ChangeLevel::default(), ChangeLevel::Next));
}
