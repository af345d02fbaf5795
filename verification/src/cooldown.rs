use std::sync::Arc;
use tokio::sync::Mutex;
use vstd::prelude::*;

verus! {

/// An asynchronous mutual-exclusion lock.
#[verifier::external_type_specification]
#[verifier::external_body]
#[verifier::reject_recursive_types(T)]
pub struct ExMutex<T: ?Sized>(tokio::sync::Mutex<T>);

/// Whether no user occurs twice among the entries.
pub open spec fn unique_users(entries: Seq<(u64, u128)>) -> bool {
    forall|i: int, j: int|
        0 <= i < j < entries.len() ==> #[trigger] entries[i].0 != #[trigger] entries[j].0
}

/// The user-to-deadline map held by the entries.
pub open spec fn entries_map(entries: Seq<(u64, u128)>) -> Map<u64, u128>
    decreases entries.len(),
{
    if entries.len() == 0 {
        Map::empty()
    } else {
        entries_map(entries.drop_last()).insert(entries.last().0, entries.last().1)
    }
}

/// The deadlines that are still in the future at `now`.
pub open spec fn live(m: Map<u64, u128>, now: u128) -> Map<u64, u128> {
    Map::new(|user: u64| m.contains_key(user) && m[user] > now, |user: u64| m[user])
}

/// Outcome of one cooldown reservation.
#[derive(Debug, Clone, Copy, PartialEq, Eq, Structural)]
pub enum CooldownOutcome {
    /// The user was recorded with a new deadline.
    Reserved,
    /// No invoking user was known.
    UserUnavailable,
    /// The deadline `now + duration` does not fit the clock's range.
    DeadlineOverflow,
    /// The user is still on cooldown for this many nanoseconds.
    OnCooldown(u128),
}

/// The outcome of reserving a cooldown for `user` at `now`, and the deadlines after it.
pub open spec fn reserve_outcome(m: Map<u64, u128>, user: Option<u64>, now: u128, duration: u128) -> (
    CooldownOutcome,
    Map<u64, u128>,
) {
    match user {
        None => (CooldownOutcome::UserUnavailable, m),
        Some(u) => if now + duration > u128::MAX {
            (CooldownOutcome::DeadlineOverflow, m)
        } else if live(m, now).contains_key(u) {
            (CooldownOutcome::OnCooldown((live(m, now)[u] - now) as u128), live(m, now))
        } else {
            (CooldownOutcome::Reserved, live(m, now).insert(u, (now + duration) as u128))
        },
    }
}

proof fn lemma_entries_map_domain(entries: Seq<(u64, u128)>, user: u64)
    ensures
        entries_map(entries).contains_key(user) <==> exists|j: int|
            0 <= j < entries.len() && #[trigger] entries[j].0 == user,
    decreases entries.len(),
{
    if entries.len() > 0 {
        lemma_entries_map_domain(entries.drop_last(), user);
        if entries_map(entries.drop_last()).contains_key(user) {
            let j = choose|j: int| 0 <= j < entries.drop_last().len() && #[trigger] entries.drop_last()[j].0 == user;
            assert(entries[j].0 == user);
        }
        if exists|j: int| 0 <= j < entries.len() && #[trigger] entries[j].0 == user {
            let j = choose|j: int| 0 <= j < entries.len() && #[trigger] entries[j].0 == user;
            if j < entries.len() - 1 {
                assert(entries.drop_last()[j].0 == user);
            }
        }
    }
}

proof fn lemma_entries_map_value(entries: Seq<(u64, u128)>, j: int)
    requires
        unique_users(entries),
        0 <= j < entries.len(),
    ensures
        entries_map(entries).contains_key(entries[j].0),
        entries_map(entries)[entries[j].0] == entries[j].1,
    decreases entries.len(),
{
    if j < entries.len() - 1 {
        assert(unique_users(entries.drop_last()));
        lemma_entries_map_value(entries.drop_last(), j);
        assert(entries[j].0 != entries.last().0);
    }
}

/// Per-user cooldown deadlines of one command leaf, in nanoseconds of a monotonic clock.
pub struct CooldownTable {
    entries: Vec<(u64, u128)>,
}

impl CooldownTable {
    #[verifier::type_invariant]
    spec fn inv(&self) -> bool {
        unique_users(self.entries@)
    }

    /// The deadline of each user currently recorded.
    pub closed spec fn view(&self) -> Map<u64, u128> {
        entries_map(self.entries@)
    }

    /// Creates an empty table.
    pub fn new() -> (table: Self)
        ensures
            table@ == Map::<u64, u128>::empty(),
    {
        CooldownTable { entries: Vec::new() }
    }

    /// Reserves the cooldown of the invoking user at `now` for `duration`
    /// nanoseconds. Expired deadlines are dropped first; a user whose deadline
    /// is still ahead is refused with the time that remains.
    pub fn reserve(&mut self, user: Option<u64>, now: u128, duration: u128, path: &str) -> (result:
        Result<(), crate::Error>)
        ensures
            final(self)@ == reserve_outcome(old(self)@, user, now, duration).1,
            reserve_outcome(old(self)@, user, now, duration).0 == CooldownOutcome::Reserved
                <==> result is Ok,
            reserve_outcome(old(self)@, user, now, duration).0 == CooldownOutcome::UserUnavailable
                ==> (result matches Err(crate::Error::CommandUserUnavailable(p)) && p@ == path@),
            reserve_outcome(old(self)@, user, now, duration).0 == CooldownOutcome::DeadlineOverflow
                ==> (result matches Err(crate::Error::InvalidCommandPolicy(p)) && p@ == path@),
            forall|left: u128|
                reserve_outcome(old(self)@, user, now, duration).0 == CooldownOutcome::OnCooldown(
                    left,
                ) ==> (result matches Err(
                    crate::Error::CommandOnCooldown { path: p, retry_after_ns: r },
                ) && p@ == path@ && r == left),
    {
        proof {
            use_type_invariant(&*self);
        }
        let invoking = match user {
            None => return Err(crate::Error::CommandUserUnavailable(path.to_owned())),
            Some(invoking) => invoking,
        };
        let ready_at = match now.checked_add(duration) {
            None => return Err(crate::Error::InvalidCommandPolicy(path.to_owned())),
            Some(ready_at) => ready_at,
        };
        let ghost old_entries = self.entries@;
        let mut kept: Vec<(u64, u128)> = Vec::new();
        let mut i: usize = 0;
        while i < self.entries.len()
            invariant
                self.entries@ == old_entries,
                unique_users(old_entries),
                i <= old_entries.len(),
                unique_users(kept@),
                entries_map(kept@) == live(entries_map(old_entries.take(i as int)), now),
                forall|k: int|
                    0 <= k < kept@.len() ==> exists|j: int|
                        0 <= j < i && #[trigger] old_entries[j].0 == #[trigger] kept@[k].0,
            decreases old_entries.len() - i,
        {
            let entry = self.entries[i];
            let ghost before = kept@;
            assert(old_entries.take(i as int + 1).drop_last() =~= old_entries.take(i as int));
            assert(old_entries.take(i as int + 1).last() == entry);
            proof {
                lemma_entries_map_domain(old_entries.take(i as int), entry.0);
                assert forall|j: int| 0 <= j < i implies #[trigger] old_entries.take(i as int)[j].0
                    != entry.0 by {
                    assert(old_entries[j].0 != old_entries[i as int].0);
                }
            }
            if entry.1 > now {
                kept.push(entry);
                assert(kept@.drop_last() =~= before);
                assert forall|a: int, b: int| 0 <= a < b < kept@.len() implies #[trigger] kept@[a].0
                    != #[trigger] kept@[b].0 by {
                    if b == kept@.len() - 1 {
                        let j = choose|j: int| 0 <= j < i && #[trigger] old_entries[j].0 == kept@[a].0;
                        assert(old_entries[j].0 != old_entries[i as int].0);
                    }
                }
            }
            assert(entries_map(kept@) =~= live(entries_map(old_entries.take(i as int + 1)), now));
            i = i + 1;
        }
        assert(old_entries.take(old_entries.len() as int) =~= old_entries);
        let mut j: usize = 0;
        while j < kept.len()
            invariant
                unique_users(kept@),
                entries_map(kept@) == live(entries_map(old_entries), now),
                entries_map(old_entries) == old(self)@,
                user == Some(invoking),
                ready_at == now + duration,
                j <= kept@.len(),
                forall|k: int| 0 <= k < j ==> #[trigger] kept@[k].0 != invoking,
            decreases kept@.len() - j,
        {
            let entry = kept[j];
            if entry.0 == invoking {
                proof {
                    lemma_entries_map_value(kept@, j as int);
                }
                self.entries = kept;
                return Err(
                    crate::Error::CommandOnCooldown {
                        path: path.to_owned(),
                        retry_after_ns: entry.1 - now,
                    },
                );
            }
            j = j + 1;
        }
        proof {
            lemma_entries_map_domain(kept@, invoking);
        }
        let ghost before = kept@;
        kept.push((invoking, ready_at));
        assert(kept@.drop_last() =~= before);
        self.entries = kept;
        Ok(())
    }
}

/// Reserving a cooldown for a user blocks that user until the deadline: a
/// later reservation before `now + duration` is refused with the remaining time.
pub proof fn cooldown_blocks_until_deadline(
    m: Map<u64, u128>,
    user: u64,
    now: u128,
    duration: u128,
    later: u128,
    later_duration: u128,
)
    requires
        reserve_outcome(m, Some(user), now, duration).0 == CooldownOutcome::Reserved,
        now <= later,
        later < now + duration,
        later + later_duration <= u128::MAX,
    ensures
        reserve_outcome(reserve_outcome(m, Some(user), now, duration).1, Some(user), later, later_duration).0
            == CooldownOutcome::OnCooldown((now + duration - later) as u128),
{
}

/// Once the deadline has passed the same user may reserve again.
pub proof fn cooldown_expires_at_deadline(
    m: Map<u64, u128>,
    user: u64,
    now: u128,
    duration: u128,
    later: u128,
    later_duration: u128,
)
    requires
        reserve_outcome(m, Some(user), now, duration).0 == CooldownOutcome::Reserved,
        now + duration <= later,
        later + later_duration <= u128::MAX,
    ensures
        reserve_outcome(reserve_outcome(m, Some(user), now, duration).1, Some(user), later, later_duration).0
            == CooldownOutcome::Reserved,
{
}

/// Cooldowns are scoped per user: reserving for one user does not change the
/// outcome of any later reservation of another user.
pub proof fn cooldown_is_scoped_per_user(
    m: Map<u64, u128>,
    first: u64,
    now: u128,
    duration: u128,
    second: u64,
    later: u128,
    later_duration: u128,
)
    requires
        reserve_outcome(m, Some(first), now, duration).0 == CooldownOutcome::Reserved,
        first != second,
        now <= later,
    ensures
        reserve_outcome(reserve_outcome(m, Some(first), now, duration).1, Some(second), later, later_duration).0
            == reserve_outcome(m, Some(second), later, later_duration).0,
{
    let after = reserve_outcome(m, Some(first), now, duration).1;
    assert(live(after, later).contains_key(second) == live(m, later).contains_key(second));
}

/// Whether every recorded deadline is at most `duration` after `now`.
pub open spec fn deadlines_within(m: Map<u64, u128>, now: u128, duration: u128) -> bool {
    forall|user: u64| m.contains_key(user) ==> #[trigger] m[user] <= now + duration
}

/// With a clock that never goes back and one cooldown duration, a refused
/// reservation reports a remaining time above zero and at most the duration,
/// and every reservation keeps the deadlines within the duration of the
/// current time, so the bound carries over to the next call.
pub proof fn cooldown_wait_is_bounded(
    m: Map<u64, u128>,
    user: Option<u64>,
    earlier: u128,
    now: u128,
    duration: u128,
)
    requires
        deadlines_within(m, earlier, duration),
        earlier <= now,
    ensures
        reserve_outcome(m, user, now, duration).0 matches CooldownOutcome::OnCooldown(left)
            ==> 0 < left <= duration,
        deadlines_within(reserve_outcome(m, user, now, duration).1, now, duration),
{
    if let Some(u) = user {
        if live(m, now).contains_key(u) {
            assert(m[u] <= earlier + duration);
        }
    }
    let after = reserve_outcome(m, user, now, duration).1;
    assert forall|v: u64| after.contains_key(v) implies #[trigger] after[v] <= now + duration by {
        if m.contains_key(v) {
            assert(m[v] <= earlier + duration);
        }
    }
}

/// Shares a cooldown table between every invocation of one leaf.
///
/// Calls `tokio::sync::Mutex::new`; nothing is stated of the lock, whose
/// contents are read and written by the runtime while it holds the guard.
#[verifier::external_body]
pub(crate) fn shared_table(table: CooldownTable) -> (shared: Arc<Mutex<CooldownTable>>) {
    Arc::new(Mutex::new(table))
}

} // verus!
