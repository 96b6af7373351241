//! The state that the WebSocket manager keeps about its subscriptions: the
//! subscription id of each pool, and the throttling of account notifications
//! (at most one processed snapshot per pool within each interval).

use crate::address::Address;
use crate::table::{distinct_keys, map_of, AddressMap};
use vstd::prelude::*;

verus! {

/// The state of the subscriptions and of the throttling of notifications.
///
/// Times are monotonic clock readings in nanoseconds.
pub struct SubscriptionState {
    subscriptions: AddressMap<u64>,
    last_snapshot_time: AddressMap<u128>,
    skipped_notifications: AddressMap<u64>,
    snapshot_interval_ms: u64,
    next_subscription_id: u64,
}

/// The mathematical value of a [`SubscriptionState`].
pub struct SubscriptionView {
    /// The subscription id of each subscribed pool.
    pub subscriptions: Map<Address, u64>,
    /// The time of the last processed notification of each pool.
    pub last_snapshot_time: Map<Address, u128>,
    /// The number of notifications skipped for each pool.
    pub skipped_notifications: Map<Address, u64>,
    /// The least interval between processed notifications of a pool, in
    /// milliseconds (0 for no throttling).
    pub snapshot_interval_ms: u64,
    /// The id of the next subscription.
    pub next_subscription_id: u64,
}

impl View for SubscriptionState {
    type V = SubscriptionView;

    closed spec fn view(&self) -> SubscriptionView {
        SubscriptionView {
            subscriptions: self.subscriptions.view(),
            last_snapshot_time: self.last_snapshot_time.view(),
            skipped_notifications: self.skipped_notifications.view(),
            snapshot_interval_ms: self.snapshot_interval_ms,
            next_subscription_id: self.next_subscription_id,
        }
    }
}

/// The number of notifications skipped for a pool.
pub open spec fn skipped_count(s: SubscriptionView, pool: Address) -> nat {
    if s.skipped_notifications.contains_key(pool) {
        s.skipped_notifications[pool] as nat
    } else {
        0
    }
}

/// The throttling interval in nanoseconds.
pub open spec fn interval_nanos(s: SubscriptionView) -> int {
    s.snapshot_interval_ms * 1_000_000
}

/// Whether a notification of `pool` at time `now` falls within the interval
/// after the last processed one (time that went back counts as none passed).
pub open spec fn too_soon(s: SubscriptionView, pool: Address, now: u128) -> bool {
    s.snapshot_interval_ms != 0 && s.last_snapshot_time.contains_key(pool) && (if now
        >= s.last_snapshot_time[pool] {
        now - s.last_snapshot_time[pool]
    } else {
        0
    }) < interval_nanos(s)
}

/// The state after a notification of `pool` at time `now`: unchanged when
/// there is no throttling; one more skip when it comes too soon; otherwise
/// `now` as the pool's last processed time.
pub open spec fn after_notification(s: SubscriptionView, pool: Address, now: u128) -> SubscriptionView {
    if s.snapshot_interval_ms == 0 {
        s
    } else if too_soon(s, pool, now) {
        SubscriptionView {
            skipped_notifications: s.skipped_notifications.insert(
                pool,
                (skipped_count(s, pool) + 1) as u64,
            ),
            ..s
        }
    } else {
        SubscriptionView { last_snapshot_time: s.last_snapshot_time.insert(pool, now), ..s }
    }
}

/// The state after a subscription to `pool`, which gets the next id.
pub open spec fn after_subscription(s: SubscriptionView, pool: Address) -> SubscriptionView {
    SubscriptionView {
        subscriptions: s.subscriptions.insert(pool, s.next_subscription_id),
        next_subscription_id: (s.next_subscription_id + 1) as u64,
        ..s
    }
}

/// Whether every recorded subscription id is below the next id.
pub open spec fn ids_fresh(s: SubscriptionView) -> bool {
    forall|p: Address| #[trigger] s.subscriptions.contains_key(p) ==> s.subscriptions[p]
        < s.next_subscription_id
}

impl SubscriptionState {
    /// A state with no subscription, throttling at the given interval (0 for
    /// no throttling), whose first subscription id is 1.
    pub fn new(snapshot_interval_ms: u64) -> (r: SubscriptionState)
        ensures
            r@.subscriptions == Map::<Address, u64>::empty(),
            r@.last_snapshot_time == Map::<Address, u128>::empty(),
            r@.skipped_notifications == Map::<Address, u64>::empty(),
            r@.snapshot_interval_ms == snapshot_interval_ms,
            r@.next_subscription_id == 1,
    {
        SubscriptionState {
            subscriptions: AddressMap::new(),
            last_snapshot_time: AddressMap::new(),
            skipped_notifications: AddressMap::new(),
            snapshot_interval_ms,
            next_subscription_id: 1,
        }
    }

    /// Records a subscription to `pool`, and gives its id: the next id.
    pub fn record_subscription(&mut self, pool: Address) -> (r: u64)
        requires
            old(self)@.next_subscription_id < u64::MAX,
        ensures
            r == old(self)@.next_subscription_id,
            final(self)@ == after_subscription(old(self)@, pool),
    {
        let id = self.next_subscription_id;
        self.next_subscription_id = id + 1;
        self.subscriptions.insert(pool, id);
        id
    }

    /// The number of subscribed pools.
    pub fn subscription_count(&self) -> (r: usize)
        ensures
            self@.subscriptions.dom().finite(),
            r == self@.subscriptions.dom().len(),
    {
        self.subscriptions.len()
    }

    /// The subscription id of a pool, if it is subscribed.
    pub fn subscription_id(&self, pool: &Address) -> (r: Option<u64>)
        ensures
            r == (if self@.subscriptions.contains_key(*pool) {
                Some(self@.subscriptions[*pool])
            } else {
                None::<u64>
            }),
    {
        match self.subscriptions.get(pool) {
            Some(id) => Some(*id),
            None => None,
        }
    }

    /// Whether a notification of `pool` at time `now` comes within the
    /// interval after the pool's last processed notification, while
    /// throttling.
    pub fn comes_too_soon(&self, pool: &Address, now: u128) -> (r: bool)
        ensures
            r == too_soon(self@, *pool, now),
    {
        if self.snapshot_interval_ms == 0 {
            return false;
        }
        let threshold: u128 = (self.snapshot_interval_ms as u128) * 1_000_000;
        match self.last_snapshot_time.get(pool) {
            Some(last) => {
                let elapsed: u128 = if now >= *last {
                    now - *last
                } else {
                    0
                };
                elapsed < threshold
            },
            None => false,
        }
    }

    /// Decides whether a notification of `pool` at time `now` is processed:
    /// always when there is no throttling; otherwise unless it comes within
    /// the interval after the pool's last processed notification, in which
    /// case it is counted as skipped.
    pub fn should_process_notification(&mut self, pool: &Address, now: u128) -> (r: bool)
        requires
            too_soon(old(self)@, *pool, now) ==> skipped_count(old(self)@, *pool) < u64::MAX,
        ensures
            r == !too_soon(old(self)@, *pool, now),
            final(self)@ == after_notification(old(self)@, *pool, now),
    {
        if self.snapshot_interval_ms == 0 {
            return true;
        }
        if self.comes_too_soon(pool, now) {
            let skipped: u64 = match self.skipped_notifications.get(pool) {
                Some(n) => *n,
                None => 0,
            };
            self.skipped_notifications.insert(*pool, skipped + 1);
            return false;
        }
        self.last_snapshot_time.insert(*pool, now);
        true
    }

    /// The number of notifications skipped for a pool, if any was.
    pub fn skipped_notifications(&self, pool: &Address) -> (r: Option<u64>)
        ensures
            r == (if self@.skipped_notifications.contains_key(*pool) {
                Some(self@.skipped_notifications[*pool])
            } else {
                None::<u64>
            }),
    {
        match self.skipped_notifications.get(pool) {
            Some(n) => Some(*n),
            None => None,
        }
    }

    /// The number of notifications skipped for each pool, each pool once.
    pub fn skipped_stats(&self) -> (r: Vec<(Address, u64)>)
        ensures
            distinct_keys(r@),
            map_of(r@) == self@.skipped_notifications,
    {
        self.skipped_notifications.to_vec()
    }

    /// The number of pools with skipped notifications.
    pub fn skipped_pool_count(&self) -> (r: usize)
        ensures
            self@.skipped_notifications.dom().finite(),
            r == self@.skipped_notifications.dom().len(),
    {
        self.skipped_notifications.len()
    }

    /// Forgets the counts of skipped notifications.
    pub fn reset_skipped_stats(&mut self)
        ensures
            final(self)@ == (SubscriptionView {
                skipped_notifications: Map::<Address, u64>::empty(),
                ..old(self)@
            }),
    {
        self.skipped_notifications.clear();
    }

    /// The id that the next subscription gets.
    pub fn next_subscription_id(&self) -> (r: u64)
        ensures
            r == self@.next_subscription_id,
    {
        self.next_subscription_id
    }

    /// The throttling interval in milliseconds.
    pub fn snapshot_interval_ms(&self) -> (r: u64)
        ensures
            r == self@.snapshot_interval_ms,
    {
        self.snapshot_interval_ms
    }
}

} // verus!

verus! {

/// A new state has no recorded id, so its ids are fresh; each subscription
/// keeps them fresh and gets an id that no other subscribed pool has, one
/// more than the id given before it.
pub proof fn lemma_subscription_ids(s: SubscriptionView, pool: Address, other: Address)
    requires
        ids_fresh(s),
        s.next_subscription_id < u64::MAX,
        other != pool,
        after_subscription(s, pool).subscriptions.contains_key(other),
    ensures
        ids_fresh(after_subscription(s, pool)),
        after_subscription(s, pool).subscriptions[other] != after_subscription(
            s,
            pool,
        ).subscriptions[pool],
        after_subscription(s, pool).next_subscription_id == s.next_subscription_id + 1,
{
    let t = after_subscription(s, pool);
    assert forall|p: Address| #[trigger] t.subscriptions.contains_key(p) implies t.subscriptions[p]
        < t.next_subscription_id by {
        if p != pool {
            assert(s.subscriptions.contains_key(p));
        }
    }
    assert(s.subscriptions.contains_key(other));
}

/// Without throttling every notification is processed and nothing changes.
pub proof fn lemma_no_throttling(s: SubscriptionView, pool: Address, now: u128)
    requires
        s.snapshot_interval_ms == 0,
    ensures
        !too_soon(s, pool, now),
        after_notification(s, pool, now) == s,
{
}

/// The first notification of a pool is processed, and its time becomes the
/// pool's last processed time when throttling.
pub proof fn lemma_first_notification(s: SubscriptionView, pool: Address, now: u128)
    requires
        !s.last_snapshot_time.contains_key(pool),
    ensures
        !too_soon(s, pool, now),
        s.snapshot_interval_ms != 0 ==> after_notification(s, pool, now).last_snapshot_time[pool]
            == now,
{
}

/// When throttling, after a processed notification at time `t1`, a
/// notification at a time `t2` less than the interval later is skipped and
/// counted once more as skipped, and one at least the interval later is
/// processed.
pub proof fn lemma_throttle_window(s: SubscriptionView, pool: Address, t1: u128, t2: u128)
    requires
        s.snapshot_interval_ms != 0,
        !too_soon(s, pool, t1),
        t1 <= t2,
        skipped_count(s, pool) < u64::MAX,
    ensures
        t2 - t1 < interval_nanos(s) ==> {
            &&& too_soon(after_notification(s, pool, t1), pool, t2)
            &&& skipped_count(after_notification(after_notification(s, pool, t1), pool, t2), pool)
                == skipped_count(s, pool) + 1
        },
        t2 - t1 >= interval_nanos(s) ==> !too_soon(after_notification(s, pool, t1), pool, t2),
{
    let s1 = after_notification(s, pool, t1);
    assert(s1.last_snapshot_time[pool] == t1);
    assert(skipped_count(s1, pool) == skipped_count(s, pool));
    if t2 - t1 < interval_nanos(s) {
        assert(too_soon(s1, pool, t2));
        let s2 = after_notification(s1, pool, t2);
        assert(s2.skipped_notifications.contains_key(pool));
    }
}

/// The throttling window is exactly the configured interval, whatever it
/// is: when throttling, after a pool's notification processed at `t1`, one
/// at `t2` (not earlier) is skipped exactly when `t2` comes less than the
/// interval's milliseconds after `t1`, and it is then counted as skipped;
/// otherwise it is processed and `t2` becomes the pool's last processed time
/// (while the skip count has room to grow).
pub proof fn lemma_throttle_threshold_is_interval(s: SubscriptionView, pool: Address, t2: u128)
    requires
        s.snapshot_interval_ms != 0,
        s.last_snapshot_time.contains_key(pool),
        s.last_snapshot_time[pool] <= t2,
        s.skipped_notifications.contains_key(pool) ==> s.skipped_notifications[pool] < u64::MAX,
    ensures
        too_soon(s, pool, t2) <==> (t2 as int) < s.last_snapshot_time[pool] as int
            + s.snapshot_interval_ms as int * 1_000_000,
        (t2 as int) < s.last_snapshot_time[pool] as int + s.snapshot_interval_ms as int * 1_000_000
            ==> {
            &&& after_notification(s, pool, t2).skipped_notifications.contains_key(pool)
            &&& after_notification(s, pool, t2).skipped_notifications[pool] == skipped_count(s, pool)
                + 1
            &&& after_notification(s, pool, t2).last_snapshot_time == s.last_snapshot_time
        },
        (t2 as int) >= s.last_snapshot_time[pool] as int + s.snapshot_interval_ms as int * 1_000_000
            ==> {
            &&& after_notification(s, pool, t2).last_snapshot_time[pool] == t2
            &&& after_notification(s, pool, t2).skipped_notifications == s.skipped_notifications
        },
{
}

/// A pool with no processed notification yet has its next one processed,
/// whatever the interval.
pub proof fn lemma_first_notification_processed(s: SubscriptionView, pool: Address, t: u128)
    requires
        !s.last_snapshot_time.contains_key(pool),
    ensures
        !too_soon(s, pool, t),
        s.snapshot_interval_ms != 0 ==> after_notification(s, pool, t).last_snapshot_time[pool]
            == t,
{
}

} // verus!
