//! The room coordinator: turns room-lifecycle and gameplay events into
//! correctly-targeted deliveries.
//!
//! The durable Store and the Presence Cache are consulted at the edge; every
//! function here takes their results as plain values and is verified for all
//! outcomes.  Membership comes from the Store (durable truth), liveness from
//! the connection registry (process-local truth): this mixed-authority
//! classification is intentional.  The Presence Cache is a best-effort
//! accelerator: a miss or error falls back to the Store's member list and
//! asks the caller to repopulate the cache (write-through repair), so cache
//! absence is a latency gap, never a correctness gap.

use vstd::prelude::*;
use vstd::string::StringExecFns;

use crate::errors::ApiError;
use crate::errors::ServerError;
use crate::errors::ServerErrorView;
use crate::messages::ClientMessage;
use crate::messages::ClientMessageView;
use crate::messages::ServerMessage;
use crate::messages::ServerMessageView;
use crate::models::User;
use crate::models::UserView;
use crate::models::Word;
use crate::models::WordView;
use crate::models::str_views;
use crate::models::user_ids;
use crate::models::user_views;
use crate::models::word_views;
use crate::registry::ConnectionRegistry;
use crate::registry::HandleView;
use crate::registry::fanout_effect;
use crate::registry::send_effect;

verus! {

/// One addressed delivery: a message for one connection, or a fan-out to a
/// room.
#[derive(Debug, PartialEq, Eq)]
pub enum Delivery {
    Private { id: String, msg: ServerMessage },
    Broadcast { session_id: String, msg: ServerMessage, exclude: Option<String> },
}

pub ghost enum DeliveryView {
    Private { id: Seq<char>, msg: ServerMessageView },
    Broadcast { session_id: Seq<char>, msg: ServerMessageView, exclude: Option<Seq<char>> },
}

impl View for Delivery {
    type V = DeliveryView;

    open spec fn view(&self) -> DeliveryView {
        match self {
            Delivery::Private { id, msg } => DeliveryView::Private { id: id@, msg: msg@ },
            Delivery::Broadcast { session_id, msg, exclude } => DeliveryView::Broadcast {
                session_id: session_id@,
                msg: msg@,
                exclude: match exclude {
                    Some(e) => Some(e@),
                    None => None,
                },
            },
        }
    }
}

/// A delivery plan: whom the outcome of an event must reach.
#[derive(Debug, PartialEq, Eq)]
pub enum ServerResult {
    Nothing,
    Single(Delivery),
    Multiple(Vec<Delivery>),
}

pub ghost enum ServerResultView {
    Nothing,
    Single(DeliveryView),
    Multiple(Seq<DeliveryView>),
}

impl View for ServerResult {
    type V = ServerResultView;

    open spec fn view(&self) -> ServerResultView {
        match self {
            ServerResult::Nothing => ServerResultView::Nothing,
            ServerResult::Single(d) => ServerResultView::Single(d@),
            ServerResult::Multiple(ds) => ServerResultView::Multiple(
                ds@.map_values(|d: Delivery| d@),
            ),
        }
    }
}

/// The cache key under which a session's member ids are stored.
pub fn session_users_key(session_id: &str) -> (r: String)
    ensures
        r@ == "session:"@ + session_id@ + ":users"@,
{
    let mut r = String::from_str("session:");
    r.append(session_id);
    r.append(":users");
    r
}

/// The members of `users` that currently have a registered connection.
pub open spec fn online_filter(users: Seq<UserView>, reg: Map<Seq<char>, HandleView>) -> Seq<
    UserView,
> {
    users.filter(|u: UserView| reg.contains_key(u.id))
}

/// The members of `users` that currently have no registered connection.
pub open spec fn offline_filter(users: Seq<UserView>, reg: Map<Seq<char>, HandleView>) -> Seq<
    UserView,
> {
    users.filter(|u: UserView| !reg.contains_key(u.id))
}

/// The presence update announced to a room with the given member list.
pub open spec fn users_update_view(
    users: Seq<UserView>,
    reg: Map<Seq<char>, HandleView>,
) -> ServerMessageView {
    ServerMessageView::UsersUpdate {
        online_users: online_filter(users, reg),
        offline_users: offline_filter(users, reg),
    }
}

proof fn lemma_presence_filter_step(users: Seq<UserView>, reg: Map<Seq<char>, HandleView>)
    requires
        users.len() > 0,
    ensures
        online_filter(users, reg) == if reg.contains_key(users.last().id) {
            online_filter(users.drop_last(), reg).push(users.last())
        } else {
            online_filter(users.drop_last(), reg)
        },
        offline_filter(users, reg) == if !reg.contains_key(users.last().id) {
            offline_filter(users.drop_last(), reg).push(users.last())
        } else {
            offline_filter(users.drop_last(), reg)
        },
{
    reveal(Seq::filter);
}

/// Classifies each member of the room as online iff it currently has a
/// registered connection handle, preserving the Store's order within each
/// class.
pub fn compute_presence(users: &Vec<User>, registry: &ConnectionRegistry) -> (r: (
    Vec<User>,
    Vec<User>,
))
    ensures
        user_views(r.0@) == online_filter(user_views(users@), registry@),
        user_views(r.1@) == offline_filter(user_views(users@), registry@),
{
    let mut online: Vec<User> = Vec::new();
    let mut offline: Vec<User> = Vec::new();
    let mut i: usize = 0;
    while i < users.len()
        invariant
            i <= users@.len(),
            user_views(online@) == online_filter(user_views(users@.take(i as int)), registry@),
            user_views(offline@) == offline_filter(user_views(users@.take(i as int)), registry@),
        decreases users@.len() - i,
    {
        let ghost prev = user_views(users@.take(i as int));
        let ghost old_online = online@;
        let ghost old_offline = offline@;
        let u = &users[i];
        let is_online = registry.user_id_in_current_sessions(&u.id);
        if is_online {
            online.push(u.duplicate());
        } else {
            offline.push(u.duplicate());
        }
        proof {
            let cur = user_views(users@.take(i + 1));
            assert(cur.drop_last() =~= prev);
            assert(cur.last() == users@[i as int]@);
            lemma_presence_filter_step(cur, registry@);
            if is_online {
                assert(user_views(online@) =~= user_views(old_online).push(cur.last()));
            } else {
                assert(user_views(offline@) =~= user_views(old_offline).push(cur.last()));
            }
        }
        i = i + 1;
    }
    proof {
        assert(users@.take(users@.len() as int) =~= users@);
    }
    (online, offline)
}

/// Builds the `UsersUpdate` for a room from the Store's fetched member list;
/// a failed fetch yields a silent error, so an unrelated broadcast never
/// crashes the process.
pub fn handle_update_users(
    users_fetch: &Result<Vec<User>, ApiError>,
    registry: &ConnectionRegistry,
) -> (r: Result<ServerMessage, ServerError>)
    ensures
        users_fetch matches Ok(users) ==> r matches Ok(m) && m@ == users_update_view(
            user_views(users@),
            registry@,
        ),
        users_fetch is Err ==> (r matches Err(e) && e@ == ServerErrorView::Silent),
{
    match users_fetch {
        Ok(users) => {
            let (online_users, offline_users) = compute_presence(users, registry);
            Ok(ServerMessage::UsersUpdate { online_users, offline_users })
        },
        Err(_) => Err(ServerError::Silent),
    }
}

/// Where a resolved member list came from.
#[derive(Debug, PartialEq, Eq)]
pub enum MemberSource {
    Cache,
    Store,
}

/// The two-tier membership lookup behind every fan-out: the Presence Cache's
/// answer is used when it has one; on a cache miss or error the Store's
/// member list stands in, and the source tag tells the caller to repopulate
/// the cache from the returned ids (write-through repair).  When both tiers
/// failed the room resolves to no members, so the fan-out is a no-op rather
/// than an error.
pub fn resolve_room_members(
    cache_members: Result<Vec<String>, ApiError>,
    store_members: &Result<Vec<User>, ApiError>,
) -> (r: (Vec<String>, MemberSource))
    ensures
        cache_members matches Ok(ids) ==> r.1 is Cache && str_views(r.0@) == str_views(ids@),
        cache_members is Err ==> match store_members {
            Ok(users) => r.1 is Store && str_views(r.0@) == user_ids(user_views(users@)),
            Err(_) => r.1 is Store && r.0@.len() == 0,
        },
{
    match cache_members {
        Ok(ids) => (ids, MemberSource::Cache),
        Err(_) => {
            match store_members {
                Ok(users) => {
                    let mut ids: Vec<String> = Vec::new();
                    let mut i: usize = 0;
                    while i < users.len()
                        invariant
                            i <= users@.len(),
                            ids@.len() == i,
                            forall|j: int| 0 <= j < i ==> ids@[j]@ == #[trigger] users@[j]@.id,
                        decreases users@.len() - i,
                    {
                        ids.push(users[i].id.clone());
                        i = i + 1;
                    }
                    proof {
                        assert(str_views(ids@) =~= user_ids(user_views(users@)));
                    }
                    (ids, MemberSource::Store)
                },
                Err(_) => (Vec::new(), MemberSource::Store),
            }
        },
    }
}

/// What the Store reported for one word submission: the atomic uniqueness
/// check-and-insert, followed (on success) by the word-list read.
#[derive(Debug)]
pub enum WordInsertOutcome {
    /// The insert was durably acknowledged and the read returned the room's
    /// words, the new one among them.
    Inserted { words: Vec<Word> },
    /// The insert was durably acknowledged but the follow-up read failed.
    InsertedReadFailed,
    /// The uniqueness constraint rejected the word: it is already in the
    /// session.
    DuplicateWord,
    /// The Store could not be reached or failed the insert for another
    /// reason.
    StoreUnavailable,
}

/// The private conflict text for a duplicate word.
pub open spec fn duplicate_word_error(word: Seq<char>) -> Seq<char> {
    "Word '"@ + word + "' already in session"@
}

/// The words of `words` submitted by `user_id`, in Store order.
pub open spec fn my_words_of(words: Seq<WordView>, user_id: Seq<char>) -> Seq<Seq<char>> {
    words.filter(|w: WordView| w.user_id == user_id).map_values(|w: WordView| w.word)
}

/// The delivery plan after a successful word insert: the new word count to
/// the whole room except the acting user, and the personal word list to the
/// acting user alone.
pub open spec fn add_word_success_view(
    session_id: Seq<char>,
    user_id: Seq<char>,
    words: Seq<WordView>,
) -> ServerResultView {
    ServerResultView::Multiple(
        seq![
            DeliveryView::Broadcast {
                session_id: session_id,
                msg: ServerMessageView::AddWord { number_of_words: words.len() as u16 },
                exclude: Some(user_id),
            },
            DeliveryView::Private {
                id: user_id,
                msg: ServerMessageView::AddWordPersonal {
                    number_of_words: words.len() as u16,
                    my_words: my_words_of(words, user_id),
                },
            },
        ],
    )
}

proof fn lemma_my_words_step(words: Seq<WordView>, user_id: Seq<char>)
    requires
        words.len() > 0,
    ensures
        my_words_of(words, user_id) == if words.last().user_id == user_id {
            my_words_of(words.drop_last(), user_id).push(words.last().word)
        } else {
            my_words_of(words.drop_last(), user_id)
        },
{
    reveal(Seq::filter);
    let p = |w: WordView| w.user_id == user_id;
    let f = |w: WordView| w.word;
    if p(words.last()) {
        assert(words.filter(p) == words.drop_last().filter(p).push(words.last()));
        assert(words.drop_last().filter(p).push(words.last()).map_values(f)
            =~= words.drop_last().filter(p).map_values(f).push(words.last().word));
    } else {
        assert(words.filter(p) == words.drop_last().filter(p));
    }
}

fn collect_my_words(words: &Vec<Word>, user_id: &String) -> (r: Vec<String>)
    ensures
        r@.map_values(|w: String| w@) == my_words_of(word_views(words@), user_id@),
{
    let mut r: Vec<String> = Vec::new();
    let mut i: usize = 0;
    while i < words.len()
        invariant
            i <= words@.len(),
            r@.map_values(|w: String| w@) == my_words_of(
                word_views(words@.take(i as int)),
                user_id@,
            ),
        decreases words@.len() - i,
    {
        let ghost prev = word_views(words@.take(i as int));
        let ghost old_r = r@;
        let mine = words[i].user_id == *user_id;
        if mine {
            r.push(words[i].word.clone());
        }
        proof {
            let cur = word_views(words@.take(i + 1));
            assert(cur.drop_last() =~= prev);
            assert(cur.last() == words@[i as int]@);
            lemma_my_words_step(cur, user_id@);
            if mine {
                assert(r@.map_values(|w: String| w@) =~= old_r.map_values(|w: String| w@).push(
                    cur.last().word,
                ));
            }
        }
        i = i + 1;
    }
    proof {
        assert(words@.take(words@.len() as int) =~= words@);
    }
    r
}

/// Turns the Store's report on one word submission into the delivery plan:
/// on an acknowledged insert, the room-wide count excluding the acting user
/// plus the private personal list; on a uniqueness conflict, a private
/// conflict error for the acting user alone, never a broadcast; on any other
/// failure (the insert failed, or the write succeeded and the read did not),
/// a private error rather than a stale broadcast.
pub fn add_word_to_session(
    session_id: &String,
    word: &String,
    user_id: &String,
    outcome: WordInsertOutcome,
) -> (r: Result<ServerResult, ServerError>)
    requires
        outcome matches WordInsertOutcome::Inserted { words } ==> words@.len() <= u16::MAX,
    ensures
        outcome matches WordInsertOutcome::Inserted { words } ==> r matches Ok(res) && res@
            == add_word_success_view(session_id@, user_id@, word_views(words@)),
        outcome is DuplicateWord ==> (r matches Err(e) && e@ == (ServerErrorView::Private {
            id: user_id@,
            error: duplicate_word_error(word@),
        })),
        outcome is InsertedReadFailed || outcome is StoreUnavailable ==> (r matches Err(e) && e@
            == (ServerErrorView::Private {
            id: user_id@,
            error: "Could not add word to session"@,
        })),
{
    match outcome {
        WordInsertOutcome::Inserted { words } => {
            let number_of_words: u16 = words.len() as u16;
            let my_words = collect_my_words(&words, user_id);
            let plan = ServerResult::Multiple(
                vec![
                    Delivery::Broadcast {
                        session_id: session_id.clone(),
                        msg: ServerMessage::AddWord { number_of_words },
                        exclude: Some(user_id.clone()),
                    },
                    Delivery::Private {
                        id: user_id.clone(),
                        msg: ServerMessage::AddWordPersonal { number_of_words, my_words },
                    },
                ],
            );
            proof {
                assert(plan@ matches ServerResultView::Multiple(items) && items =~= seq![
                    DeliveryView::Broadcast {
                        session_id: session_id@,
                        msg: ServerMessageView::AddWord {
                            number_of_words: word_views(words@).len() as u16,
                        },
                        exclude: Some(user_id@),
                    },
                    DeliveryView::Private {
                        id: user_id@,
                        msg: ServerMessageView::AddWordPersonal {
                            number_of_words: word_views(words@).len() as u16,
                            my_words: my_words_of(word_views(words@), user_id@),
                        },
                    },
                ]);
            }
            Ok(plan)
        },
        WordInsertOutcome::DuplicateWord => {
            let mut error = String::from_str("Word '");
            error.append(word.as_str());
            error.append("' already in session");
            Err(ServerError::Private { id: user_id.clone(), error })
        },
        WordInsertOutcome::InsertedReadFailed | WordInsertOutcome::StoreUnavailable => {
            Err(
                ServerError::Private {
                    id: user_id.clone(),
                    error: String::from_str("Could not add word to session"),
                },
            )
        },
    }
}

/// What one delivery does to the registry image.
pub open spec fn delivery_effect(
    d: DeliveryView,
    members: Seq<Seq<char>>,
    reg: Map<Seq<char>, HandleView>,
) -> Map<Seq<char>, HandleView> {
    match d {
        DeliveryView::Private { id, msg } => send_effect(reg, id, msg),
        DeliveryView::Broadcast { session_id, msg, exclude } => fanout_effect(
            reg,
            members,
            exclude,
            msg,
        ),
    }
}

/// What the deliveries from index `i` on do to the registry image, first to
/// last.
pub open spec fn deliveries_effect(
    ds: Seq<DeliveryView>,
    members: Seq<Seq<char>>,
    reg: Map<Seq<char>, HandleView>,
    i: int,
) -> Map<Seq<char>, HandleView>
    decreases ds.len() - i,
{
    if i < 0 || i >= ds.len() {
        reg
    } else {
        deliveries_effect(ds, members, delivery_effect(ds[i], members, reg), i + 1)
    }
}

/// What a whole delivery plan does to the registry image.
pub open spec fn distribute_effect(
    res: ServerResultView,
    members: Seq<Seq<char>>,
    reg: Map<Seq<char>, HandleView>,
) -> Map<Seq<char>, HandleView> {
    match res {
        ServerResultView::Nothing => reg,
        ServerResultView::Single(d) => delivery_effect(d, members, reg),
        ServerResultView::Multiple(ds) => deliveries_effect(ds, members, reg, 0),
    }
}

fn deliver(d: &Delivery, registry: &mut ConnectionRegistry, session_members: &Vec<String>)
    requires
        old(registry).wf(),
    ensures
        final (registry).wf(),
        final (registry)@ == delivery_effect(d@, str_views(session_members@), old(registry)@),
{
    match d {
        Delivery::Private { id, msg } => {
            registry.send(id, msg.duplicate());
        },
        Delivery::Broadcast { session_id: _, msg, exclude } => {
            let excluded = match exclude {
                Some(e) => Some(e),
                None => None,
            };
            registry.broadcast_to_members(session_members, msg, excluded);
        },
    }
}

/// Carries a delivery plan out against the registry, resolving each room
/// fan-out against the given member list.
pub fn distribute_message(
    result: &ServerResult,
    registry: &mut ConnectionRegistry,
    session_members: &Vec<String>,
)
    requires
        old(registry).wf(),
    ensures
        final (registry).wf(),
        final (registry)@ == distribute_effect(
            result@,
            str_views(session_members@),
            old(registry)@,
        ),
{
    match result {
        ServerResult::Nothing => {},
        ServerResult::Single(d) => {
            deliver(d, registry, session_members);
        },
        ServerResult::Multiple(ds) => {
            let ghost reg0 = registry@;
            let ghost mv = str_views(session_members@);
            let ghost dsv = ds@.map_values(|d: Delivery| d@);
            let mut i: usize = 0;
            while i < ds.len()
                invariant
                    registry.wf(),
                    i <= ds@.len(),
                    mv == str_views(session_members@),
                    dsv == ds@.map_values(|d: Delivery| d@),
                    deliveries_effect(dsv, mv, reg0, 0) == deliveries_effect(
                        dsv,
                        mv,
                        registry@,
                        i as int,
                    ),
                decreases ds@.len() - i,
            {
                let ghost before = registry@;
                deliver(&ds[i], registry, session_members);
                proof {
                    assert(dsv[i as int] == ds@[i as int]@);
                    assert(deliveries_effect(dsv, mv, before, i as int) == deliveries_effect(
                        dsv,
                        mv,
                        registry@,
                        i + 1,
                    ));
                }
                i = i + 1;
            }
        },
    }
}

/// What a delivery-directed error does to the registry image: its text
/// becomes an `Error` message for its audience, and a silent error reaches
/// nobody.
pub open spec fn error_effect(
    e: ServerErrorView,
    members: Seq<Seq<char>>,
    reg: Map<Seq<char>, HandleView>,
) -> Map<Seq<char>, HandleView> {
    match e {
        ServerErrorView::Private { id, error } => send_effect(
            reg,
            id,
            ServerMessageView::Error { error },
        ),
        ServerErrorView::Broadcast { session_id, error } => fanout_effect(
            reg,
            members,
            None,
            ServerMessageView::Error { error },
        ),
        ServerErrorView::Silent => reg,
    }
}

/// Carries a delivery-directed error out against the registry.
pub fn distribute_error(
    error: &ServerError,
    registry: &mut ConnectionRegistry,
    session_members: &Vec<String>,
)
    requires
        old(registry).wf(),
    ensures
        final (registry).wf(),
        final (registry)@ == error_effect(error@, str_views(session_members@), old(registry)@),
{
    match error {
        ServerError::Private { id, error } => {
            registry.send(id, ServerMessage::Error { error: error.clone() });
        },
        ServerError::Broadcast { session_id: _, error } => {
            let message = ServerMessage::Error { error: error.clone() };
            registry.broadcast_to_members(session_members, &message, None);
        },
        ServerError::Silent => {},
    }
}

/// What a dispatched client message asks the coordinator to do.
#[derive(Debug, PartialEq, Eq)]
pub enum ClientMessageDisposition {
    /// `StartSession` performs no state change here: room binding happens at
    /// connect time, so the message is a protocol no-op.
    NoAction,
    /// `AddWord` asks for the word to be submitted to the Store.
    SubmitWord { word: String },
}

/// Dispatches one parsed inbound message.
pub fn handle_incoming_client_message(message: ClientMessage) -> (r: ClientMessageDisposition)
    ensures
        message@ matches ClientMessageView::StartSession { .. } ==> r is NoAction,
        message@ matches ClientMessageView::AddWord { word } ==> r matches
            ClientMessageDisposition::SubmitWord { word: w } && w@ == word,
{
    match message {
        ClientMessage::StartSession { session_id: _ } => ClientMessageDisposition::NoAction,
        ClientMessage::AddWord { word } => ClientMessageDisposition::SubmitWord { word },
    }
}

/// The outcome of recomputing and broadcasting a room's presence: the
/// `UsersUpdate` that went out (or the error that stopped it), the member
/// ids the fan-out was resolved against, and which tier supplied them.  When
/// the source is the Store, the caller repopulates the Presence Cache from
/// `targets` (write-through repair).
pub struct PresenceBroadcast {
    pub outcome: Result<ServerMessage, ServerError>,
    pub targets: Vec<String>,
    pub source: MemberSource,
}

/// Recomputes a room's presence from the Store's member list and fans the
/// `UsersUpdate` out to the room, resolving the fan-out targets through the
/// cache-then-Store lookup.  A failed Store fetch broadcasts nothing.
pub fn broadcast_users_update(
    registry: &mut ConnectionRegistry,
    store_members: &Result<Vec<User>, ApiError>,
    cache_members: Result<Vec<String>, ApiError>,
) -> (r: PresenceBroadcast)
    requires
        old(registry).wf(),
    ensures
        final (registry).wf(),
        store_members is Err ==> (r.outcome matches Err(e) && e@ == ServerErrorView::Silent)
            && final (registry)@ == old(registry)@,
        store_members matches Ok(users) ==> {
            &&& r.outcome matches Ok(m) && m@ == users_update_view(
                user_views(users@),
                old(registry)@,
            )
            &&& final (registry)@ == fanout_effect(
                old(registry)@,
                str_views(r.targets@),
                None,
                users_update_view(user_views(users@), old(registry)@),
            )
            &&& (cache_members matches Ok(ids) ==> r.source is Cache && str_views(r.targets@)
                == str_views(ids@))
            &&& (cache_members is Err ==> r.source is Store && str_views(r.targets@) == user_ids(
                user_views(users@),
            ))
        },
{
    let update = handle_update_users(store_members, registry);
    match update {
        Ok(msg) => {
            let (targets, source) = resolve_room_members(cache_members, store_members);
            registry.broadcast_to_members(&targets, &msg, None);
            PresenceBroadcast { outcome: Ok(msg), targets, source }
        },
        Err(e) => PresenceBroadcast {
            outcome: Err(e),
            targets: Vec::new(),
            source: MemberSource::Store,
        },
    }
}

/// Registers a fresh handle for an accepted connection and returns the
/// canonical id the connection acts under from here on.  A prior handle for
/// the same id is superseded (last-connect-wins).  The caller then adds the
/// id to the Presence Cache (best-effort), fetches the room's members, and
/// announces presence with `broadcast_users_update`.
pub fn on_connect(
    registry: &mut ConnectionRegistry,
    id: &String,
    session_id: &String,
    now: u64,
) -> (r: String)
    requires
        old(registry).wf(),
    ensures
        final (registry).wf(),
        r@ == id@,
        final (registry)@ == old(registry)@.insert(
            id@,
            HandleView {
                id: id@,
                session_id: session_id@,
                last_heartbeat: now,
                outbox: Seq::<ServerMessageView>::empty(),
            },
        ),
{
    let handle = crate::registry::ConnectionHandle::new(id.clone(), session_id.clone(), now);
    registry.register(handle);
    id.clone()
}

/// Unregisters a departed connection before any further broadcast targeting
/// is computed, then recomputes and fans out the room's presence.  The
/// departed id is classified offline by the recomputation, and the fan-out
/// can no longer reach it.
pub fn on_disconnect(
    registry: &mut ConnectionRegistry,
    id: &String,
    store_members: &Result<Vec<User>, ApiError>,
    cache_members: Result<Vec<String>, ApiError>,
) -> (r: PresenceBroadcast)
    requires
        old(registry).wf(),
    ensures
        final (registry).wf(),
        store_members is Err ==> (r.outcome matches Err(e) && e@ == ServerErrorView::Silent)
            && final (registry)@ == old(registry)@.remove(id@),
        store_members matches Ok(users) ==> {
            &&& r.outcome matches Ok(m) && m@ == users_update_view(
                user_views(users@),
                old(registry)@.remove(id@),
            )
            &&& final (registry)@ == fanout_effect(
                old(registry)@.remove(id@),
                str_views(r.targets@),
                None,
                users_update_view(user_views(users@), old(registry)@.remove(id@)),
            )
            &&& (cache_members matches Ok(ids) ==> r.source is Cache && str_views(r.targets@)
                == str_views(ids@))
            &&& (cache_members is Err ==> r.source is Store && str_views(r.targets@) == user_ids(
                user_views(users@),
            ))
        },
{
    registry.unregister(id);
    broadcast_users_update(registry, store_members, cache_members)
}

/// A connection whose liveness timer expired is torn down exactly like an
/// explicit close: it is unregistered synchronously and one presence update
/// reflecting its removal is fanned out to the room.
pub fn on_heartbeat_timeout(
    registry: &mut ConnectionRegistry,
    id: &String,
    store_members: &Result<Vec<User>, ApiError>,
    cache_members: Result<Vec<String>, ApiError>,
) -> (r: PresenceBroadcast)
    requires
        old(registry).wf(),
    ensures
        final (registry).wf(),
        store_members is Err ==> (r.outcome matches Err(e) && e@ == ServerErrorView::Silent)
            && final (registry)@ == old(registry)@.remove(id@),
        store_members matches Ok(users) ==> {
            &&& r.outcome matches Ok(m) && m@ == users_update_view(
                user_views(users@),
                old(registry)@.remove(id@),
            )
            &&& final (registry)@ == fanout_effect(
                old(registry)@.remove(id@),
                str_views(r.targets@),
                None,
                users_update_view(user_views(users@), old(registry)@.remove(id@)),
            )
            &&& (cache_members matches Ok(ids) ==> r.source is Cache && str_views(r.targets@)
                == str_views(ids@))
            &&& (cache_members is Err ==> r.source is Store && str_views(r.targets@) == user_ids(
                user_views(users@),
            ))
        },
{
    on_disconnect(registry, id, store_members, cache_members)
}

} // verus!
