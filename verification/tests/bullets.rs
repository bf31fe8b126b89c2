use rapier3d::na::{Quaternion, Vector3};
use scrape_core::collider::ColliderHandle;
use scrape_core::game_info::GameInfo;
use scrape_core::input_messages::{Move, PlayerJoined, PlayerLeft, Shoot, UpdateCamera};
use scrape_core::networking::NetAddress;
use scrape_core::output_messages::UpdateEvent;

fn bullet_addr(port: u16) -> NetAddress {
    NetAddress { ip: 42, port }
}

fn bullet_join(id: &str) -> PlayerJoined {
    PlayerJoined { id: id.to_string(), username: id.to_string() }
}

fn position_of(game: &mut GameInfo, addr: NetAddress) -> Vector3<f32> {
    let event = game.move_player(Move { distance: Vector3::zeros() }, addr);
    match event {
        Some(UpdateEvent::ChangedPlayerPosition(c)) => c.position,
        _ => panic!("expected ChangedPlayerPosition"),
    }
}

fn bullet_records(event: Option<UpdateEvent>) -> Vec<scrape_core::output_messages::UpdateBulletPosition> {
    match event {
        Some(UpdateEvent::UpdateAllBullets(u)) => u.update_bullet_position,
        _ => panic!("expected UpdateAllBullets"),
    }
}

#[test]
fn bullet_never_hits_its_own_shooter() {
    let mut game = GameInfo::default();
    let addr = bullet_addr(1);
    let _ = game.add_player(bullet_join("shooter"), addr);

    // The shooter stands exactly at the spawn point of its own bullet.
    let created = game.shoot_bullet(Shoot {}, addr);
    let bullet_id = match created {
        Some(UpdateEvent::CreateBullet(cb)) => cb.id,
        _ => panic!("expected CreateBullet"),
    };

    for _ in 0..4 {
        let mut events = game.game_tick(16);
        let records = bullet_records(events.pop().unwrap());
        assert_eq!(records.len(), 1);
        assert_eq!(records[0].id, bullet_id);
        assert!(!records[0].destroy);
        assert_eq!(game.bullets.len(), 1);
    }
}

#[test]
fn bullet_hitting_another_player_is_destroyed() {
    let mut game = GameInfo::default();
    let shooter = bullet_addr(1);
    let _ = game.add_player(bullet_join("shooter"), shooter);
    let shooter_pos = position_of(&mut game, shooter);

    // Place the target at a workable distance; spawn positions are
    // randomized, so rejoin until the two players stand apart.
    let mut target = bullet_addr(2);
    let mut target_pos;
    let mut attempts = 0u16;
    loop {
        let _ = game.add_player(bullet_join("target"), target);
        target_pos = position_of(&mut game, target);
        if (target_pos - shooter_pos).norm() > 1.5 {
            break;
        }
        let _ = game.remove_player(PlayerLeft { id: "target".to_string() }, target);
        attempts += 1;
        target = bullet_addr(2 + attempts);
        assert!(attempts < 200, "no separated spawn found");
    }

    // Aim at the target: a pure-vector quaternion normalizes to the
    // unit direction towards it.
    let aim = target_pos - shooter_pos;
    let _ = game.update_camera_rotation(
        UpdateCamera { rotation: Quaternion::new(0.0, aim.x, aim.y, aim.z) },
        shooter,
    );
    // One tick so the engine applies the new facing.
    let _ = game.game_tick(16);

    let created = game.shoot_bullet(Shoot {}, shooter);
    let bullet_id = match created {
        Some(UpdateEvent::CreateBullet(cb)) => cb.id,
        _ => panic!("expected CreateBullet"),
    };
    assert_eq!(game.bullets.len(), 1);
    let bullet_body = game.bullets[0].get_body_handle();

    // Sweep far enough to cross the target's capsule in one advance.
    let mut events = game.game_tick(400_000);
    let records = bullet_records(events.pop().unwrap());
    assert_eq!(records.len(), 1);
    assert_eq!(records[0].id, bullet_id);
    assert!(records[0].destroy);

    // The destroy-marked bullet left the world and its physics body
    // was released.
    assert_eq!(game.bullets.len(), 0);
    assert!(!game.collider.has_body(bullet_body));
    // Both players live on.
    assert_eq!(game.players.len(), 2);
}

#[test]
fn bullet_collided_detects_only_player_colliders() {
    let mut game = GameInfo::default();
    let _ = game.add_player(bullet_join("p1"), bullet_addr(1));
    let _ = game.add_player(bullet_join("p2"), bullet_addr(2));
    let _ = game.shoot_bullet(Shoot {}, bullet_addr(1));
    let bullet = game.bullets[0];

    let stray = ColliderHandle { index: 123456, generation: 7 };
    let no_hits: Vec<ColliderHandle> = vec![stray];
    assert!(!GameInfo::bullet_collided(&game.players, &bullet, &no_hits));

    let hits = vec![stray, game.players[1].collider_handle];
    assert!(GameInfo::bullet_collided(&game.players, &bullet, &hits));

    let empty: Vec<ColliderHandle> = Vec::new();
    assert!(!GameInfo::bullet_collided(&game.players, &bullet, &empty));
}

#[test]
fn bullet_pass_runs_every_tick_even_with_nobody_connected() {
    let mut game = GameInfo::default();
    // An empty world still emits the (empty) aggregate event.
    let records = bullet_records(game.update_bullets(16));
    assert!(records.is_empty());

    // A bullet outlives its shooter and keeps advancing after the
    // last player left.
    let addr = bullet_addr(9);
    let _ = game.add_player(bullet_join("loner"), addr);
    let _ = game.update_camera_rotation(
        UpdateCamera { rotation: Quaternion::new(0.0, 1.0, 0.0, 0.0) },
        addr,
    );
    let _ = game.game_tick(16);
    let created = game.shoot_bullet(Shoot {}, addr);
    let bullet_id = match created {
        Some(UpdateEvent::CreateBullet(cb)) => cb.id,
        _ => panic!("expected CreateBullet"),
    };
    let _ = game.remove_player(PlayerLeft { id: "loner".to_string() }, addr);
    assert_eq!(game.players.len(), 0);
    assert_eq!(game.bullets.len(), 1);

    let mut events = game.game_tick(5000);
    let records = bullet_records(events.pop().unwrap());
    assert_eq!(records.len(), 1);
    assert_eq!(records[0].id, bullet_id);
    assert!(!records[0].destroy);
    assert_eq!(game.bullets.len(), 1);
}

#[test]
fn bullet_speed_ignores_the_facing_magnitude() {
    let mut game = GameInfo::default();
    let addr = bullet_addr(3);
    let _ = game.add_player(bullet_join("gunner"), addr);
    // A half-turn quaternion with a strong scalar part: its raw vector
    // part is far from unit length, but the direction is +x.
    let _ = game.update_camera_rotation(
        UpdateCamera { rotation: Quaternion::new(1.0, 1.0, 0.0, 0.0) },
        addr,
    );
    let _ = game.game_tick(16);
    let start = position_of(&mut game, addr);
    let created = game.shoot_bullet(Shoot {}, addr);
    assert!(matches!(created, Some(UpdateEvent::CreateBullet(_))));

    // Ten seconds at the fixed speed of 0.1 units per second: exactly
    // one unit along the normalized facing.
    let mut events = game.game_tick(10_000);
    let records = bullet_records(events.pop().unwrap());
    assert_eq!(records.len(), 1);
    assert!((records[0].position.x - (start.x + 1.0)).abs() < 1e-3);
    assert!((records[0].position.y - start.y).abs() < 1e-3);
    assert!((records[0].position.z - start.z).abs() < 1e-3);
}

#[test]
fn in_vector_matches_ids() {
    let mut game = GameInfo::default();
    let _ = game.add_player(bullet_join("p1"), bullet_addr(1));
    let created = game.shoot_bullet(Shoot {}, bullet_addr(1));
    let bullet_id = match created {
        Some(UpdateEvent::CreateBullet(cb)) => cb.id,
        _ => panic!("expected CreateBullet"),
    };
    let bullet = game.bullets[0];
    assert!(bullet.in_vector(&vec![5, bullet_id]));
    assert!(!bullet.in_vector(&vec![5, 6]));
    assert!(bullet.matches_id(bullet_id));
    assert!(!bullet.matches_id(bullet_id.wrapping_add(1)));
}
