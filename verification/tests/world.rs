use scrape_core::game_info::GameInfo;
use scrape_core::input_messages::{Move, PlayerJoined, PlayerLeft, Shoot, UpdateCamera};
use scrape_core::networking::NetAddress;
use scrape_core::output_messages::UpdateEvent;

fn world_addr(port: u16) -> NetAddress {
    NetAddress { ip: 10, port }
}

fn joined(id: &str) -> PlayerJoined {
    PlayerJoined { id: id.to_string(), username: format!("name-{}", id) }
}

#[test]
fn joins_with_distinct_addresses_all_enter() {
    let mut game = GameInfo::default();
    for (n, id) in ["p1", "p2", "p3"].iter().enumerate() {
        let event = game.add_player(joined(id), world_addr(n as u16 + 1));
        match event {
            Some(UpdateEvent::AddedPlayer(a)) => {
                assert_eq!(a.id, id.to_string());
                assert_eq!(a.username, format!("name-{}", id));
            }
            _ => panic!("expected AddedPlayer"),
        }
    }
    assert_eq!(game.players.len(), 3);
    // Each player's handle pair is unique and immediately valid.
    for i in 0..3 {
        assert!(game.collider.has_body(game.players[i].body_handle));
        for j in 0..3 {
            if i != j {
                assert_ne!(game.players[i].body_handle, game.players[j].body_handle);
                assert_ne!(game.players[i].collider_handle, game.players[j].collider_handle);
            }
        }
    }
}

#[test]
fn second_join_from_same_address_is_ignored() {
    let mut game = GameInfo::default();
    let first = game.add_player(joined("p1"), world_addr(7));
    assert!(matches!(first, Some(UpdateEvent::AddedPlayer(_))));
    let second = game.add_player(joined("p1-again"), world_addr(7));
    assert!(second.is_none());
    assert_eq!(game.players.len(), 1);
    assert_eq!(game.players[0].id, "p1".to_string());
}

#[test]
fn leave_for_unknown_address_changes_nothing() {
    let mut game = GameInfo::default();
    let _ = game.add_player(joined("p1"), world_addr(1));
    let before = game.get_addresses();
    let event = game.remove_player(PlayerLeft { id: "p1".to_string() }, world_addr(99));
    assert!(event.is_none());
    assert_eq!(game.get_addresses(), before);
    assert_eq!(game.players.len(), 1);
}

#[test]
fn leave_removes_player_and_releases_handles() {
    let mut game = GameInfo::default();
    let _ = game.add_player(joined("p1"), world_addr(1));
    let _ = game.add_player(joined("p2"), world_addr(2));
    let body = game.players[0].body_handle;
    assert!(game.collider.has_body(body));

    let event = game.remove_player(PlayerLeft { id: "p1".to_string() }, world_addr(1));
    match event {
        Some(UpdateEvent::RemovedPlayer(rp)) => assert_eq!(rp.id, "p1".to_string()),
        _ => panic!("expected RemovedPlayer"),
    }
    assert_eq!(game.players.len(), 1);
    assert_eq!(game.players[0].id, "p2".to_string());
    assert!(!game.collider.has_body(body));
    assert!(game.collider.has_body(game.players[0].body_handle));
}

#[test]
fn spawn_position_lies_inside_the_spawn_region() {
    let mut game = GameInfo::default();
    let _ = game.add_player(joined("p1"), world_addr(1));
    // A zero move reports the player's current (spawn) position.
    let event = game.move_player(Move { distance: rapier3d::na::Vector3::zeros() }, world_addr(1));
    match event {
        Some(UpdateEvent::ChangedPlayerPosition(c)) => {
            assert_eq!(c.id, "p1".to_string());
            assert!(2.0 <= c.position.x && c.position.x < 10.0);
            assert!(2.0 <= c.position.z && c.position.z < 10.0);
            assert!((c.position.y - 5.0).abs() < 1e-4);
        }
        _ => panic!("expected ChangedPlayerPosition"),
    }
}

#[test]
fn move_for_unknown_address_returns_nothing() {
    let mut game = GameInfo::default();
    let event = game.move_player(
        Move { distance: rapier3d::na::Vector3::new(1.0, 0.0, 0.0) },
        world_addr(3),
    );
    assert!(event.is_none());
}

#[test]
fn camera_update_emits_no_event() {
    let mut game = GameInfo::default();
    let _ = game.add_player(joined("p1"), world_addr(1));
    let event = game.update_camera_rotation(
        UpdateCamera { rotation: rapier3d::na::Quaternion::new(1.0, 0.0, 1.0, 0.0) },
        world_addr(1),
    );
    assert!(event.is_none());
}

#[test]
fn shoot_without_player_returns_nothing() {
    let mut game = GameInfo::default();
    let event = game.shoot_bullet(Shoot {}, world_addr(5));
    assert!(event.is_none());
    assert_eq!(game.bullets.len(), 0);
}

#[test]
fn two_shots_get_distinct_bullet_ids() {
    let mut game = GameInfo::default();
    let _ = game.add_player(joined("p1"), world_addr(1));
    let first = game.shoot_bullet(Shoot {}, world_addr(1));
    let second = game.shoot_bullet(Shoot {}, world_addr(1));
    let first_id = match first {
        Some(UpdateEvent::CreateBullet(cb)) => cb.id,
        _ => panic!("expected CreateBullet"),
    };
    let second_id = match second {
        Some(UpdateEvent::CreateBullet(cb)) => cb.id,
        _ => panic!("expected CreateBullet"),
    };
    assert_ne!(first_id, second_id);
    assert_eq!(game.bullets.len(), 2);
}
