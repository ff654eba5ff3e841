use platformer_core::fields::{find_field, FieldInstance, FieldValue};
use platformer_core::player::SpawnPlayerEvent;
use platformer_core::util::GridCoords;
use platformer_core::world::{
    get_level_spawnpoint, spawnpoint_from_fields, transport_player_to_spawnpoint, LevelProject,
    LevelRecord, SPError, SpawnPoint,
};

fn text_field(identifier: &str, value: &str) -> FieldInstance {
    FieldInstance {
        identifier: String::from(identifier),
        value: FieldValue::Str(Some(String::from(value))),
    }
}

#[test]
fn spawn_point_parses_x_semicolon_y() {
    let sp = SpawnPoint::try_from("3;4").unwrap();
    assert_eq!(sp.0, GridCoords { x: 3, y: 4 });
}

#[test]
fn spawn_point_accepts_signs_and_ignores_extra_fields() {
    assert_eq!(SpawnPoint::try_from("-5;+7").unwrap().0, GridCoords { x: -5, y: 7 });
    assert_eq!(SpawnPoint::try_from("1;2;3").unwrap().0, GridCoords { x: 1, y: 2 });
}

#[test]
fn spawn_point_without_separator_is_missing_a_field() {
    assert_eq!(SpawnPoint::try_from("34").unwrap_err(), SPError::NotEnoughFields);
    assert_eq!(SpawnPoint::try_from("").unwrap_err(), SPError::NotEnoughFields);
}

#[test]
fn spawn_point_with_unparsable_part_is_malformed() {
    assert_eq!(SpawnPoint::try_from("a;4").unwrap_err(), SPError::InvalidFormat);
    assert_eq!(SpawnPoint::try_from("3;b").unwrap_err(), SPError::InvalidFormat);
    assert_eq!(SpawnPoint::try_from(";4").unwrap_err(), SPError::InvalidFormat);
    assert_eq!(SpawnPoint::try_from("3;").unwrap_err(), SPError::InvalidFormat);
    assert_eq!(SpawnPoint::try_from("1.5;2").unwrap_err(), SPError::InvalidFormat);
}

#[test]
fn spawn_point_rejects_out_of_range_coordinates() {
    assert_eq!(SpawnPoint::try_from("2147483648;0").unwrap_err(), SPError::InvalidFormat);
    assert_eq!(SpawnPoint::try_from("0;-2147483649").unwrap_err(), SPError::InvalidFormat);
    assert_eq!(
        SpawnPoint::try_from("2147483647;-2147483648").unwrap().0,
        GridCoords { x: 2147483647, y: -2147483648 }
    );
}

#[test]
fn spawnpoint_field_is_read_from_the_level_fields() {
    let fields = vec![text_field("Other", "9;9"), text_field("Spawnpoint", "3;4")];
    let sp = spawnpoint_from_fields(&fields).unwrap();
    assert_eq!(sp.0, GridCoords { x: 3, y: 4 });
}

#[test]
fn missing_spawnpoint_field_is_reported() {
    let fields = vec![text_field("Other", "9;9")];
    assert_eq!(spawnpoint_from_fields(&fields).unwrap_err(), SPError::FieldNotFound);
}

#[test]
fn empty_spawnpoint_field_is_reported() {
    let fields = vec![FieldInstance {
        identifier: String::from("Spawnpoint"),
        value: FieldValue::Str(None),
    }];
    assert_eq!(spawnpoint_from_fields(&fields).unwrap_err(), SPError::EmptyInner);
}

#[test]
fn non_text_spawnpoint_field_is_malformed() {
    let fields = vec![FieldInstance {
        identifier: String::from("Spawnpoint"),
        value: FieldValue::Bool(true),
    }];
    assert_eq!(spawnpoint_from_fields(&fields).unwrap_err(), SPError::InvalidFormat);
}

#[test]
fn find_field_returns_the_first_match() {
    let fields = vec![text_field("A", "1"), text_field("B", "2"), text_field("A", "3")];
    let f = find_field(&fields, "A").unwrap();
    assert_eq!(f.value, FieldValue::Str(Some(String::from("1"))));
    assert!(find_field(&fields, "C").is_none());
}

#[test]
fn level_lookup_by_iid_and_spawnpoint() {
    let project = LevelProject {
        levels: vec![
            LevelRecord {
                iid: String::from("level-a"),
                field_instances: vec![text_field("Spawnpoint", "1;2")],
            },
            LevelRecord { iid: String::from("level-b"), field_instances: vec![] },
        ],
    };

    let sp = get_level_spawnpoint(&project, "level-a").unwrap().unwrap();
    assert_eq!(sp.0, GridCoords { x: 1, y: 2 });

    let err = get_level_spawnpoint(&project, "level-b").unwrap().unwrap_err();
    assert_eq!(err, SPError::FieldNotFound);

    assert!(get_level_spawnpoint(&project, "level-c").is_none());
}

#[test]
fn respawn_moves_the_player_onto_the_spawn_point() {
    let spawnpoint = SpawnPoint(GridCoords { x: 2, y: 9 });
    let mut player = GridCoords { x: 5, y: 5 };

    transport_player_to_spawnpoint(&Vec::new(), &mut player, &spawnpoint);
    assert_eq!(player, GridCoords { x: 5, y: 5 });

    transport_player_to_spawnpoint(&vec![SpawnPlayerEvent], &mut player, &spawnpoint);
    assert_eq!(player, GridCoords { x: 2, y: 9 });
}
