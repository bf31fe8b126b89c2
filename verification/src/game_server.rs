//! The tick orchestrator's verified half: dispatching drained commands
//! to the world-state handlers in sequence order and composing one full
//! tick. The fixed-period timer, the socket, and the broadcast loop
//! live with the I/O code outside the library; a send failure there is
//! reinterpreted as a Leave and fed back through `remove_player`.

use vstd::prelude::*;
use crate::game_info::{
    bullets_tick_rel, camera_rel, join_rel, leave_rel, move_rel, shoot_rel, GameInfo,
};
use crate::input_messages::GameEvent;
use crate::message_queue::QueuedMessage;
use crate::networking::NetAddress;
use crate::output_messages::UpdateEvent;

verus! {

/// What dispatching one buffered command does: the relation of the
/// matching world-state handler, on the command's own payload and
/// source address.
pub open spec fn event_step_rel(
    pre: GameInfo,
    post: GameInfo,
    m: QueuedMessage,
    r: Option<UpdateEvent>,
) -> bool {
    match m.data {
        GameEvent::Joined(data) => join_rel(pre, post, data, m.addr, r),
        GameEvent::Move(_) => move_rel(pre, post, m.addr, r),
        GameEvent::Left(_) => leave_rel(pre, post, m.addr, r),
        GameEvent::Shoot(_) => shoot_rel(pre, post, m.addr, r),
        GameEvent::UpdateCamera(_) => camera_rel(pre, post, r),
    }
}

/// One valid application chain: `chain` holds the world states around
/// each handled command, the i-th step handles `messages[i]` by the
/// matching handler relation and yields `updates[i]`, and every state
/// the chain passes through is well-formed.
pub open spec fn chain_links(
    chain: Seq<GameInfo>,
    messages: Seq<QueuedMessage>,
    updates: Seq<Option<UpdateEvent>>,
) -> bool {
    &&& chain.len() == messages.len() + 1
    &&& messages.len() == updates.len()
    &&& forall|i: int| 0 <= i < messages.len()
        ==> #[trigger] event_step_rel(chain[i], chain[i + 1], messages[i], updates[i])
    &&& forall|i: int| 0 < i < chain.len() ==> (#[trigger] chain[i]).wf()
}

/// A whole drained batch applied in order: a chain of well-formed
/// world states leads from `pre` to `post` whose i-th step handles
/// `messages[i]` and yields `updates[i]`. This is the orchestrator's
/// ordering guarantee: commands drained for a tick are applied one by
/// one, in sequence order, each against the state the previous ones
/// left behind.
pub open spec fn batch_rel(
    pre: GameInfo,
    post: GameInfo,
    messages: Seq<QueuedMessage>,
    updates: Seq<Option<UpdateEvent>>,
) -> bool {
    exists|chain: Seq<GameInfo>|
        #[trigger] chain_links(chain, messages, updates)
        && chain.first() == pre
        && chain.last() == post
}

/// Dispatches one decoded command to the matching world-state handler
/// and hands back its zero-or-one event.
pub fn process_event(game: &mut GameInfo, event: GameEvent, addr: NetAddress)
    -> (r: Option<UpdateEvent>)
    requires
        old(game).wf(),
    ensures
        final(game).wf(),
        match event {
            GameEvent::Joined(data) => join_rel(*old(game), *final(game), data, addr, r),
            GameEvent::Move(_) => move_rel(*old(game), *final(game), addr, r),
            GameEvent::Left(_) => leave_rel(*old(game), *final(game), addr, r),
            GameEvent::Shoot(_) => shoot_rel(*old(game), *final(game), addr, r),
            GameEvent::UpdateCamera(_) => camera_rel(*old(game), *final(game), r),
        },
{
    match event {
        GameEvent::Joined(payload) => game.add_player(payload, addr),
        GameEvent::Move(payload) => game.move_player(payload, addr),
        GameEvent::Left(payload) => game.remove_player(payload, addr),
        GameEvent::Shoot(payload) => game.shoot_bullet(payload, addr),
        GameEvent::UpdateCamera(payload) => game.update_camera_rotation(payload, addr),
    }
}

/// Applies one tick's drained commands against the world, in the
/// sequence order the queue imposed, collecting each handler's
/// zero-or-one event in that same order.
pub fn process_all_user_events(game: &mut GameInfo, messages: Vec<QueuedMessage>)
    -> (updates: Vec<Option<UpdateEvent>>)
    requires
        old(game).wf(),
    ensures
        final(game).wf(),
        updates@.len() == messages@.len(),
        batch_rel(*old(game), *final(game), messages@, updates@),
{
    let ghost all = messages@;
    let mut queue = messages;
    let mut updates: Vec<Option<UpdateEvent>> = Vec::new();
    let ghost mut chain: Seq<GameInfo> = seq![*game];
    while queue.len() > 0
        invariant
            game.wf(),
            updates@.len() + queue@.len() == all.len(),
            queue@ == all.skip(updates@.len() as int),
            chain_links(chain, all.take(updates@.len() as int), updates@),
            chain.first() == *old(game),
            chain.last() == *game,
        decreases queue@.len(),
    {
        let ghost done = updates@.len() as int;
        let ghost done_updates = updates@;
        let ghost prev = *game;
        let message = queue.remove(0);
        proof {
            assert(message == all[done]);
            assert(queue@ =~= all.skip(done + 1));
        }
        let ghost m = message;
        let update = process_event(game, message.data, message.addr);
        updates.push(update);
        proof {
            let done_chain = chain;
            chain = chain.push(*game);
            assert(all.take(done + 1) =~= all.take(done).push(m));
            assert(chain_links(chain, all.take(done + 1), updates@)) by {
                assert forall|i: int| 0 <= i < done + 1
                    implies #[trigger] event_step_rel(chain[i], chain[i + 1],
                        all.take(done + 1)[i], updates@[i]) by {
                    if i < done {
                        assert(event_step_rel(done_chain[i], done_chain[i + 1],
                            all.take(done)[i], done_updates[i]));
                        assert(chain[i] == done_chain[i]);
                        assert(chain[i + 1] == done_chain[i + 1]);
                    } else {
                        assert(chain[done] == done_chain.last());
                        assert(event_step_rel(prev, *game, m, update));
                    }
                }
            }
        }
    }
    proof {
        assert(all.take(updates@.len() as int) =~= all);
        assert(chain_links(chain, all, updates@));
    }
    updates
}

/// One full tick over an exclusively owned world: apply the drained
/// commands in order, then advance the bullets and step the engine.
/// Commands drained before the tick are thus applied before its physics
/// step; whatever arrives later waits for the next drain. The returned
/// events are the command events in order followed by the bullet
/// event: through some well-formed mid state, the command prefix
/// satisfies the batch relation and the last event the bullet-pass
/// relation.
pub fn process_tick(game: &mut GameInfo, messages: Vec<QueuedMessage>, delta: u64)
    -> (events: Vec<Option<UpdateEvent>>)
    requires
        old(game).wf(),
    ensures
        final(game).wf(),
        events@.len() == messages@.len() + 1,
        exists|mid: GameInfo|
            #[trigger] batch_rel(*old(game), mid, messages@,
                events@.take(messages@.len() as int))
            && mid.wf()
            && bullets_tick_rel(mid, *final(game), events@.last()),
{
    let mut events = process_all_user_events(game, messages);
    let ghost mid = *game;
    let ghost command_updates = events@;
    let mut tick_events = game.game_tick(delta);
    let ghost bullet_event = tick_events@[0];
    events.append(&mut tick_events);
    proof {
        assert(events@.take(command_updates.len() as int) =~= command_updates);
        assert(events@.last() == bullet_event);
        assert(batch_rel(*old(game), mid, messages@,
            events@.take(messages@.len() as int)));
        assert(bullets_tick_rel(mid, *game, events@.last()));
    }
    events
}

} // verus!
