//! Engine-wide guarantees, stated and proved once over the contracts of the
//! registry, the coordinator and the liveness protocol.

use vstd::prelude::*;

use crate::coordinator::add_word_success_view;
use crate::coordinator::deliveries_effect;
use crate::coordinator::delivery_effect;
use crate::coordinator::distribute_effect;
use crate::coordinator::duplicate_word_error;
use crate::coordinator::error_effect;
use crate::coordinator::my_words_of;
use crate::coordinator::offline_filter;
use crate::coordinator::online_filter;
use crate::coordinator::users_update_view;
use crate::liveness::CLIENT_TIMEOUT_SECS;
use crate::liveness::elapsed_since;
use crate::messages::ServerMessageView;
use crate::models::UserView;
use crate::models::user_ids;
use crate::registry::HandleView;
use crate::registry::fanout_effect;
use crate::registry::push_msg;
use crate::registry::send_effect;
use crate::errors::ServerErrorView;

verus! {

proof fn lemma_presence_filter_unfold(users: Seq<UserView>, reg: Map<Seq<char>, HandleView>)
    requires
        users.len() > 0,
    ensures
        online_filter(users, reg) == if reg.contains_key(users.last().id) {
            online_filter(users.drop_last(), reg).push(users.last())
        } else {
            online_filter(users.drop_last(), reg)
        },
        offline_filter(users, reg) == if !reg.contains_key(users.last().id) {
            offline_filter(users.drop_last(), reg).push(users.last())
        } else {
            offline_filter(users.drop_last(), reg)
        },
{
    reveal(Seq::filter);
}

/// Presence is a partition: classifying a room's member list splits it into
/// online and offline with no duplicates and no omissions (the two classes
/// together are a permutation of the member list), and a member is classified
/// online exactly when its id has a registered connection handle.
pub proof fn lemma_compute_presence_partitions(users: Seq<UserView>, reg: Map<Seq<char>, HandleView>)
    ensures
        online_filter(users, reg).to_multiset().add(offline_filter(users, reg).to_multiset())
            =~= users.to_multiset(),
        forall|u: UserView| #[trigger]
            online_filter(users, reg).contains(u) ==> users.contains(u) && reg.contains_key(u.id),
        forall|u: UserView| #[trigger]
            offline_filter(users, reg).contains(u) ==> users.contains(u) && !reg.contains_key(
                u.id,
            ),
        forall|u: UserView| #[trigger]
            users.contains(u) && reg.contains_key(u.id) ==> online_filter(users, reg).contains(u),
        forall|u: UserView| #[trigger]
            users.contains(u) && !reg.contains_key(u.id) ==> offline_filter(users, reg).contains(
                u,
            ),
    decreases users.len(),
{
    reveal(Seq::filter);
    let on = online_filter(users, reg);
    let off = offline_filter(users, reg);
    users.to_multiset_ensures();
    on.to_multiset_ensures();
    off.to_multiset_ensures();
    if users.len() == 0 {
        assert(on.to_multiset().add(off.to_multiset()) =~= users.to_multiset());
    } else {
        let prev = users.drop_last();
        let last = users.last();
        lemma_compute_presence_partitions(prev, reg);
        lemma_presence_filter_unfold(users, reg);
        prev.to_multiset_ensures();
        online_filter(prev, reg).to_multiset_ensures();
        offline_filter(prev, reg).to_multiset_ensures();
        assert(prev.push(last) =~= users);
        assert(prev.push(last).to_multiset() =~= prev.to_multiset().insert(last));
        if reg.contains_key(last.id) {
            assert(online_filter(prev, reg).push(last).to_multiset() =~= online_filter(
                prev,
                reg,
            ).to_multiset().insert(last));
        } else {
            assert(offline_filter(prev, reg).push(last).to_multiset() =~= offline_filter(
                prev,
                reg,
            ).to_multiset().insert(last));
        }
        assert(on.to_multiset().add(off.to_multiset()) =~= users.to_multiset());
        assert forall|u: UserView| #[trigger] on.contains(u) implies users.contains(u)
            && reg.contains_key(u.id) by {
            if online_filter(prev, reg).contains(u) {
                let i = choose|i: int| 0 <= i < prev.len() && prev[i] == u;
                assert(users[i] == u);
            } else {
                let i = choose|i: int| 0 <= i < on.len() && on[i] == u;
                assert(u == last);
                assert(users[users.len() - 1] == u);
            }
        }
        assert forall|u: UserView| #[trigger] off.contains(u) implies users.contains(u)
            && !reg.contains_key(u.id) by {
            if offline_filter(prev, reg).contains(u) {
                let i = choose|i: int| 0 <= i < prev.len() && prev[i] == u;
                assert(users[i] == u);
            } else {
                let i = choose|i: int| 0 <= i < off.len() && off[i] == u;
                assert(u == last);
                assert(users[users.len() - 1] == u);
            }
        }
        assert forall|u: UserView| #[trigger]
            users.contains(u) && reg.contains_key(u.id) implies on.contains(u) by {
            let i = choose|i: int| 0 <= i < users.len() && users[i] == u;
            if i < users.len() - 1 {
                assert(prev[i] == u);
                assert(online_filter(prev, reg).contains(u));
                let j = choose|j: int|
                    0 <= j < online_filter(prev, reg).len() && online_filter(prev, reg)[j] == u;
                assert(on[j] == u);
            } else {
                assert(u == last);
                assert(on[on.len() - 1] == u);
            }
        }
        assert forall|u: UserView| #[trigger]
            users.contains(u) && !reg.contains_key(u.id) implies off.contains(u) by {
            let i = choose|i: int| 0 <= i < users.len() && users[i] == u;
            if i < users.len() - 1 {
                assert(prev[i] == u);
                assert(offline_filter(prev, reg).contains(u));
                let j = choose|j: int|
                    0 <= j < offline_filter(prev, reg).len() && offline_filter(prev, reg)[j] == u;
                assert(off[j] == u);
            } else {
                assert(u == last);
                assert(off[off.len() - 1] == u);
            }
        }
    }
}

/// Duplicate submissions settle privately: when the Store's atomic
/// uniqueness check lets one submission of a word win and rejects another,
/// the winner's plan fans the new word count out to the room's connections
/// excluding the winner itself and hands the winner its personal list, while
/// the loser's conflict error reaches the loser's connection alone — no
/// other connection's queue changes, and nothing is broadcast for the loss.
pub proof fn lemma_duplicate_word_loses_privately(
    reg: Map<Seq<char>, HandleView>,
    members: Seq<Seq<char>>,
    session_id: Seq<char>,
    winner: Seq<char>,
    loser: Seq<char>,
    word: Seq<char>,
    words: Seq<crate::models::WordView>,
)
    ensures
        ({
            let count = ServerMessageView::AddWord { number_of_words: words.len() as u16 };
            let personal = ServerMessageView::AddWordPersonal {
                number_of_words: words.len() as u16,
                my_words: my_words_of(words, winner),
            };
            let eff = distribute_effect(add_word_success_view(session_id, winner, words), members, reg);
            &&& forall|k: Seq<char>| #[trigger] eff.contains_key(k) <==> reg.contains_key(k)
            &&& forall|k: Seq<char>|
                k != winner && reg.contains_key(k) ==> #[trigger] eff[k].outbox == (if members.contains(
                    k,
                ) {
                    reg[k].outbox.push(count)
                } else {
                    reg[k].outbox
                })
            &&& reg.contains_key(winner) ==> eff[winner].outbox == reg[winner].outbox.push(
                personal,
            )
        }),
        ({
            let conflict = ServerMessageView::Error { error: duplicate_word_error(word) };
            let leff = error_effect(
                ServerErrorView::Private { id: loser, error: duplicate_word_error(word) },
                members,
                reg,
            );
            &&& forall|k: Seq<char>| #[trigger] leff.contains_key(k) <==> reg.contains_key(k)
            &&& forall|k: Seq<char>| k != loser && reg.contains_key(k) ==> #[trigger] leff[k]
                == reg[k]
            &&& reg.contains_key(loser) ==> leff[loser].outbox == reg[loser].outbox.push(conflict)
        }),
{
    let count = ServerMessageView::AddWord { number_of_words: words.len() as u16 };
    let personal = ServerMessageView::AddWordPersonal {
        number_of_words: words.len() as u16,
        my_words: my_words_of(words, winner),
    };
    let ds = seq![
        crate::coordinator::DeliveryView::Broadcast {
            session_id: session_id,
            msg: count,
            exclude: Some(winner),
        },
        crate::coordinator::DeliveryView::Private { id: winner, msg: personal },
    ];
    let e1 = delivery_effect(ds[0], members, reg);
    let e2 = delivery_effect(ds[1], members, e1);
    assert(deliveries_effect(ds, members, e2, 2) == e2);
    assert(deliveries_effect(ds, members, e1, 1) == e2);
    assert(deliveries_effect(ds, members, reg, 0) == e2);
    assert(e1 == fanout_effect(reg, members, Some(winner), count));
    assert(e2 == send_effect(e1, winner, personal));
}

/// Disabling the Presence Cache never breaks a broadcast: resolved against
/// the Store's member list (the fallback path), a fan-out reaches exactly
/// the room members that `compute_presence` classifies online, and no other
/// connection.
pub proof fn lemma_store_fallback_broadcast(
    users: Seq<UserView>,
    reg: Map<Seq<char>, HandleView>,
    m: ServerMessageView,
)
    ensures
        forall|k: Seq<char>| #[trigger]
            fanout_effect(reg, user_ids(users), None, m).contains_key(k) <==> reg.contains_key(k),
        forall|k: Seq<char>|
            reg.contains_key(k) ==> #[trigger] fanout_effect(reg, user_ids(users), None, m)[k]
                == (if user_ids(online_filter(users, reg)).contains(k) {
                push_msg(reg[k], m)
            } else {
                reg[k]
            }),
{
    lemma_compute_presence_partitions(users, reg);
    assert forall|k: Seq<char>| reg.contains_key(k) implies (user_ids(users).contains(k)
        <==> user_ids(online_filter(users, reg)).contains(k)) by {
        if user_ids(users).contains(k) {
            let i = choose|i: int| 0 <= i < user_ids(users).len() && user_ids(users)[i] == k;
            assert(users[i].id == k);
            assert(users.contains(users[i]));
            assert(online_filter(users, reg).contains(users[i]));
            let j = choose|j: int|
                0 <= j < online_filter(users, reg).len() && online_filter(users, reg)[j]
                    == users[i];
            assert(user_ids(online_filter(users, reg))[j] == k);
        }
        if user_ids(online_filter(users, reg)).contains(k) {
            let j = choose|j: int|
                0 <= j < user_ids(online_filter(users, reg)).len() && user_ids(
                    online_filter(users, reg),
                )[j] == k;
            let u = online_filter(users, reg)[j];
            assert(online_filter(users, reg).contains(u));
            assert(users.contains(u));
            let i = choose|i: int| 0 <= i < users.len() && users[i] == u;
            assert(user_ids(users)[i] == k);
        }
    }
}

/// A heartbeat timeout tears exactly one connection down and announces it
/// exactly once: after the timed-out id is unregistered and the presence
/// update fanned out, that id is no longer registered, every other targeted
/// connection's queue grew by exactly the one `UsersUpdate` reflecting the
/// removal, and every untargeted connection is untouched.  (A connection
/// that signalled within the threshold is pinged, never torn down: see
/// `heartbeat_tick`.)
pub proof fn lemma_heartbeat_timeout_single_update(
    reg: Map<Seq<char>, HandleView>,
    id: Seq<char>,
    users: Seq<UserView>,
    targets: Seq<Seq<char>>,
    last_seen: u64,
    now: u64,
)
    requires
        elapsed_since(last_seen, now) > CLIENT_TIMEOUT_SECS,
    ensures
        ({
            let update = users_update_view(users, reg.remove(id));
            let eff = fanout_effect(reg.remove(id), targets, None, update);
            &&& !eff.contains_key(id)
            &&& forall|k: Seq<char>|
                k != id && reg.contains_key(k) ==> #[trigger] eff[k].outbox == (if targets.contains(
                    k,
                ) {
                    reg[k].outbox.push(update)
                } else {
                    reg[k].outbox
                })
            &&& forall|k: Seq<char>| #[trigger] eff.contains_key(k) <==> k != id
                && reg.contains_key(k)
        }),
{
}

} // verus!
