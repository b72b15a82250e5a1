//! At most one process writes.
//!
//! PostgreSQL keeps the advisory lock that every store asks for under the same
//! key; what follows rests on its rule for such locks, stated as
//! [`LockLog::lawful`].
use vstd::prelude::*;
use crate::daemon::database::connection::{opened, DatabaseView};
use crate::daemon::database::startup::StartupView;
use crate::daemon::database::startup_laws::{law_lock_answer_decides, law_open_store, Opening};

verus! {

/// Something that concerns the writer lock.
#[verifier::ext_equal]
pub enum LockEvent<C> {
    /// The lock was asked for on this connection, and granted or not.
    Asked { connection: C, granted: bool },
    /// This connection was closed.
    Closed { connection: C },
}

/// Everything that concerned the writer lock, in order, from all processes.
pub struct LockLog<C> {
    pub events: Seq<LockEvent<C>>,
}

impl<C> LockLog<C> {
    /// The first `n` events.
    pub open spec fn before(self, n: int) -> LockLog<C> {
        LockLog { events: self.events.take(n) }
    }

    /// The connection that holds the lock: the last one that was granted it, until
    /// it is closed.
    pub open spec fn holder(self) -> Option<C>
        decreases self.events.len(),
    {
        if self.events.len() == 0 {
            None
        } else {
            let earlier = LockLog { events: self.events.drop_last() }.holder();
            match self.events.last() {
                LockEvent::Asked { connection, granted } => if granted {
                    Some(connection)
                } else {
                    earlier
                },
                LockEvent::Closed { connection } => if earlier == Some(connection) {
                    None
                } else {
                    earlier
                },
            }
        }
    }

    /// PostgreSQL's rule: the lock is granted exactly if no other connection holds
    /// it.
    pub open spec fn lawful(self) -> bool {
        forall|i: int|
            0 <= i < self.events.len() ==> match #[trigger] self.events[i] {
                LockEvent::Asked { connection, granted } => granted == (self.before(i).holder()
                    is None || self.before(i).holder() == Some(connection)),
                LockEvent::Closed { .. } => true,
            }
    }

    /// `connection` stays open from event `from` until event `to`.
    pub open spec fn stays_open(self, connection: C, from: int, to: int) -> bool {
        forall|i: int|
            from < i < to ==> #[trigger] self.events[i] != (LockEvent::Closed { connection })
    }

    /// Event `i` is the question of `opening` for the lock.
    pub open spec fn asked_at<P>(self, opening: Opening<P, C>, i: int) -> bool {
        &&& 0 <= i < self.events.len()
        &&& opening.outcomes.len() >= 3
        &&& opening.outcomes[2] is Lock
        &&& self.events[i] == (LockEvent::Asked {
            connection: opening.outcomes[2]->Lock_connection,
            granted: opening.outcomes[2]->Lock_granted,
        })
    }

    /// A connection that was granted the lock holds it for as long as it is open.
    proof fn lemma_holds_while_open(self, connection: C, from: int, to: int)
        requires
            self.lawful(),
            0 <= from < to <= self.events.len(),
            self.events[from] == (LockEvent::Asked { connection, granted: true }),
            self.stays_open(connection, from, to),
        ensures
            self.before(to).holder() == Some(connection),
        decreases to,
    {
        let taken = self.events.take(to);
        assert(taken.drop_last() =~= self.events.take(to - 1));
        assert(taken.last() == self.events[to - 1]);
        if to > from + 1 {
            self.lemma_holds_while_open(connection, from, to - 1);
            assert(self.before(to - 1).holder() == Some(connection));
            assert(self.events[to - 1] != (LockEvent::Closed { connection }));
        }
    }
}

/// While one store's lock connection is open, be it still migrating or open to
/// write, every other that connects and asks for the lock is open at once, as a
/// reader.
pub proof fn law_reader_while_another_holds_the_lock<P, C>(
    log: LockLog<C>,
    first: Opening<P, C>,
    second: Opening<P, C>,
    i: int,
    j: int,
)
    requires
        log.lawful(),
        log.asked_at(first, i),
        first.outcomes[2]->Lock_granted,
        second.fitting(),
        second.outcomes.len() == 3,
        log.asked_at(second, j),
        i < j,
        first.outcomes[2]->Lock_connection != second.outcomes[2]->Lock_connection,
        log.stays_open(first.outcomes[2]->Lock_connection, i, j),
    ensures
        second.reached() == (StartupView::<P, C>::Ready {
            database: opened(
                second.outcomes[0]->Connected_pool,
                second.outcomes[2]->Lock_connection,
                false,
            ),
        }),
{
    log.lemma_holds_while_open(first.outcomes[2]->Lock_connection, i, j);
    assert(!second.outcomes[2]->Lock_granted);
    law_lock_answer_decides(second);
}

/// Given a store that writes, a store that asks for the lock later on another
/// connection writes only if the first one's lock connection was closed before.
pub proof fn law_next_writer_waits_for_the_close<P, C>(
    log: LockLog<C>,
    first: Opening<P, C>,
    second: Opening<P, C>,
    d1: DatabaseView<P, C>,
    d2: DatabaseView<P, C>,
    i: int,
    j: int,
)
    requires
        log.lawful(),
        first.fitting(),
        first.reached() == (StartupView::<P, C>::Ready { database: d1 }),
        second.fitting(),
        second.reached() == (StartupView::<P, C>::Ready { database: d2 }),
        log.asked_at(first, i),
        log.asked_at(second, j),
        i < j,
        first.outcomes[2]->Lock_connection != second.outcomes[2]->Lock_connection,
        d1.is_writer,
        d2.is_writer,
    ensures
        d1.writer_lock is Some,
        exists|k: int|
            i < k < j && #[trigger] log.events[k] == (LockEvent::Closed {
                connection: d1.writer_lock->0,
            }),
{
    law_open_store(first, d1);
    law_open_store(second, d2);
    let connection = first.outcomes[2]->Lock_connection;
    if log.stays_open(connection, i, j) {
        log.lemma_holds_while_open(connection, i, j);
        assert(!second.outcomes[2]->Lock_granted);
    }
}

/// At no time do two live stores both write: of two stores whose lock connections
/// differ, and are open since they asked for the lock, at most one is the writer.
pub proof fn law_never_two_live_writers<P, C>(
    log: LockLog<C>,
    first: Opening<P, C>,
    second: Opening<P, C>,
    d1: DatabaseView<P, C>,
    d2: DatabaseView<P, C>,
    i: int,
    j: int,
)
    requires
        log.lawful(),
        first.fitting(),
        first.reached() == (StartupView::<P, C>::Ready { database: d1 }),
        second.fitting(),
        second.reached() == (StartupView::<P, C>::Ready { database: d2 }),
        log.asked_at(first, i),
        log.asked_at(second, j),
        i != j,
        first.outcomes[2]->Lock_connection != second.outcomes[2]->Lock_connection,
        d1.writer_lock matches Some(held) ==> log.stays_open(held, i, log.events.len() as int),
        d2.writer_lock matches Some(held) ==> log.stays_open(held, j, log.events.len() as int),
    ensures
        !(d1.is_writer && d2.is_writer),
{
    law_open_store(first, d1);
    law_open_store(second, d2);
    if d1.is_writer && d2.is_writer {
        if i < j {
            law_next_writer_waits_for_the_close(log, first, second, d1, d2, i, j);
        } else {
            law_next_writer_waits_for_the_close(log, second, first, d2, d1, j, i);
        }
    }
}

/// Closing the connection that holds the lock frees it.
pub proof fn law_closing_frees_the_lock<C>(log: LockLog<C>, connection: C, i: int)
    requires
        0 <= i < log.events.len(),
        log.events[i] == (LockEvent::Closed { connection }),
        log.before(i).holder() == Some(connection),
    ensures
        log.before(i + 1).holder() is None,
{
    assert(log.events.take(i + 1).drop_last() =~= log.events.take(i));
    assert(log.events.take(i + 1).last() == log.events[i]);
}

/// A store that asks for the lock while it is free is granted it and goes on to
/// migrate.
pub proof fn law_free_lock_is_granted<P, C>(log: LockLog<C>, opening: Opening<P, C>, i: int)
    requires
        log.lawful(),
        opening.fitting(),
        opening.outcomes.len() == 3,
        log.asked_at(opening, i),
        log.before(i).holder() is None,
    ensures
        opening.outcomes[2]->Lock_granted,
        opening.reached() is Migrating,
{
    law_lock_answer_decides(opening);
}

} // verus!
