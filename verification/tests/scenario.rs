use rapier3d::na::{Quaternion, Vector3};
use scrape_core::game_info::GameInfo;
use scrape_core::game_server::process_tick;
use scrape_core::input_messages::{GameEvent, Move, PlayerJoined, Shoot, UpdateCamera};
use scrape_core::message_queue::MessageQueue;
use scrape_core::networking::NetAddress;
use scrape_core::output_messages::UpdateEvent;

fn scenario_addr() -> NetAddress {
    NetAddress { ip: 0xfe80, port: 4000 }
}

fn one_command_tick(
    game: &mut GameInfo,
    queue: &mut MessageQueue,
    event: GameEvent,
    delta: u64,
) -> Vec<Option<UpdateEvent>> {
    queue.enqueue(event, scenario_addr());
    let drained = queue.drain_all();
    assert_eq!(drained.len(), 1);
    process_tick(game, drained, delta)
}

#[test]
fn join_move_shoot_end_to_end() {
    let mut game = GameInfo::default();
    let mut queue = MessageQueue::new();

    // Tick 1: join. Exactly one PlayerAdded event, one live player.
    let events = one_command_tick(
        &mut game,
        &mut queue,
        GameEvent::Joined(PlayerJoined { id: "p1".to_string(), username: "one".to_string() }),
        16,
    );
    assert_eq!(events.len(), 2);
    let added: Vec<&str> = events
        .iter()
        .filter_map(|e| match e {
            Some(UpdateEvent::AddedPlayer(a)) => Some(a.id.as_str()),
            _ => None,
        })
        .collect();
    assert_eq!(added, vec!["p1"]);
    assert_eq!(game.players.len(), 1);

    // Learn the spawn position through a zero move.
    let events = one_command_tick(
        &mut game,
        &mut queue,
        GameEvent::Move(Move { distance: Vector3::zeros() }),
        16,
    );
    let start = match &events[0] {
        Some(UpdateEvent::ChangedPlayerPosition(c)) => c.position,
        _ => panic!("expected ChangedPlayerPosition"),
    };

    // Tick 2: an unobstructed unit move along x resolves to ~1.0.
    let events = one_command_tick(
        &mut game,
        &mut queue,
        GameEvent::Move(Move { distance: Vector3::new(1.0, 0.0, 0.0) }),
        16,
    );
    match &events[0] {
        Some(UpdateEvent::ChangedPlayerPosition(c)) => {
            assert_eq!(c.id, "p1".to_string());
            assert!((c.position.x - (start.x + 1.0)).abs() < 1e-3);
        }
        _ => panic!("expected ChangedPlayerPosition"),
    }

    // Face along +x so the shot has a direction, and let the engine
    // apply the facing.
    let _ = one_command_tick(
        &mut game,
        &mut queue,
        GameEvent::UpdateCamera(UpdateCamera {
            rotation: Quaternion::new(0.0, 1.0, 0.0, 0.0),
        }),
        16,
    );

    // Tick 3: shoot. One BulletCreated event.
    let events = one_command_tick(&mut game, &mut queue, GameEvent::Shoot(Shoot {}), 16);
    let created = events
        .iter()
        .find_map(|e| match e {
            Some(UpdateEvent::CreateBullet(cb)) => Some(*cb),
            _ => None,
        })
        .expect("expected CreateBullet");
    assert_eq!(game.bullets.len(), 1);

    // Tick 4: with no target present, the bullet's record shows a
    // displaced position and destroy == false.
    let mut events = process_tick(&mut game, Vec::new(), 2000);
    let records = match events.pop().unwrap() {
        Some(UpdateEvent::UpdateAllBullets(u)) => u.update_bullet_position,
        _ => panic!("expected UpdateAllBullets"),
    };
    assert_eq!(records.len(), 1);
    assert_eq!(records[0].id, created.id);
    assert!(!records[0].destroy);
    assert!(records[0].position.x > created.position.x + 0.05);
    assert_eq!(game.bullets.len(), 1);
}
