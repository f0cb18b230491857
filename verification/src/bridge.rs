//! The table of requests that wait for a reply event.
//!
//! A request is entered under its correlation key, the name of the event that
//! will answer it, before it is sent. It leaves the table exactly once: when
//! its reply arrives or when its deadline passes, whichever comes first. While
//! it waits, no second request can be entered under the same key. Every entry
//! gets a ticket of its own, so that a reply or a timer that belongs to an
//! earlier request under the same key cannot end a later one.

use crate::error::{McpError, McpErrorView};
use crate::json::{Json, JsonView};
use crate::response::{ResponseView, SocketResponse};
use crate::text::str_same;
use crate::webview::{
    conclude, spec_conclude, BridgeCommand, BridgeRequest, BridgeRequestView, Reply, ReplyView,
    WaitFailure,
};
use vstd::prelude::*;

verus! {

/// One waiting request.
#[derive(Debug, Clone, PartialEq, Eq)]
pub struct PendingEntry {
    pub key: String,
    pub ticket: u64,
    pub created_at: u64,
    pub deadline: u64,
}

/// What the table knows of one waiting request, apart from its key.
pub struct PendingView {
    pub ticket: int,
    pub created_at: int,
    pub deadline: int,
}

/// Mathematical form of a [`PendingTable`]: the waiting requests by key, and
/// the number of tickets given out so far.
pub struct TableView {
    pub pending: Map<Seq<char>, PendingView>,
    pub issued: int,
}

/// Why a request was not entered.
#[derive(Debug, Clone, Copy, PartialEq, Eq, Structural)]
pub enum RegisterError {
    /// A request already waits under this key.
    KeyBusy,
    /// No ticket is left.
    Exhausted,
}

/// What a look at the clock found for a request.
#[derive(Debug, Clone, Copy, PartialEq, Eq, Structural)]
pub enum Expiry {
    /// The deadline has passed; the request has left the table.
    TimedOut,
    /// The deadline has not passed; the request still waits.
    StillWaiting,
    /// The request does not wait any more.
    Gone,
}

/// The largest ticket and time value.
pub open spec fn limit() -> int {
    u64::MAX as int
}

impl TableView {
    /// A request with this ticket waits under `key`.
    pub open spec fn waits(self, key: Seq<char>, ticket: int) -> bool {
        self.pending.dom().contains(key) && self.pending[key].ticket == ticket
    }

    /// Every waiting request has a ticket that was given out, and a deadline
    /// that is not before its creation.
    pub open spec fn well_formed(self) -> bool {
        &&& 0 <= self.issued <= limit()
        &&& forall|k: Seq<char>| #[trigger]
            self.pending.dom().contains(k) ==> {
                &&& 0 <= self.pending[k].ticket < self.issued
                &&& 0 <= self.pending[k].created_at <= self.pending[k].deadline <= limit()
            }
    }

    /// Entering a request under `key` at time `now`, to wait for `timeout_ms`.
    /// A deadline beyond the largest time value is that value.
    pub open spec fn register(self, key: Seq<char>, now: int, timeout_ms: int) -> (
        TableView,
        Result<int, RegisterError>,
    ) {
        if self.pending.dom().contains(key) {
            (self, Err(RegisterError::KeyBusy))
        } else if self.issued >= limit() {
            (self, Err(RegisterError::Exhausted))
        } else {
            let entry = PendingView {
                ticket: self.issued,
                created_at: now,
                deadline: if now + timeout_ms > limit() {
                    limit()
                } else {
                    now + timeout_ms
                },
            };
            (
                TableView { pending: self.pending.insert(key, entry), issued: self.issued + 1 },
                Ok(self.issued),
            )
        }
    }

    /// The arrival of the reply for the request with `ticket` under `key`.
    pub open spec fn resolve(self, key: Seq<char>, ticket: int) -> (TableView, bool) {
        if self.waits(key, ticket) {
            (TableView { pending: self.pending.remove(key), issued: self.issued }, true)
        } else {
            (self, false)
        }
    }

    /// A look at the clock, at time `now`, for the request with `ticket` under
    /// `key`.
    pub open spec fn expire(self, key: Seq<char>, ticket: int, now: int) -> (TableView, Expiry) {
        if self.waits(key, ticket) {
            if now >= self.pending[key].deadline {
                (
                    TableView { pending: self.pending.remove(key), issued: self.issued },
                    Expiry::TimedOut,
                )
            } else {
                (self, Expiry::StillWaiting)
            }
        } else {
            (self, Expiry::Gone)
        }
    }
}

/// The waiting requests.
pub struct PendingTable {
    entries: Vec<PendingEntry>,
    next_ticket: u64,
}

impl View for PendingEntry {
    type V = PendingView;

    open spec fn view(&self) -> PendingView {
        PendingView {
            ticket: self.ticket as int,
            created_at: self.created_at as int,
            deadline: self.deadline as int,
        }
    }
}

impl View for PendingTable {
    type V = TableView;

    closed spec fn view(&self) -> TableView {
        TableView {
            pending: Map::new(
                |k: Seq<char>| exists|i: int| self.holds(k, i),
                |k: Seq<char>| self.entries[choose|i: int| self.holds(k, i)]@,
            ),
            issued: self.next_ticket as int,
        }
    }
}

impl PendingTable {
    /// The entry at position `i` waits under `key`.
    spec fn holds(&self, key: Seq<char>, i: int) -> bool {
        0 <= i < self.entries.len() && self.entries[i].key@ == key
    }

    /// No two entries share a key.
    spec fn keys_unique(&self) -> bool {
        forall|i: int, j: int|
            0 <= i < j < self.entries.len() ==> (#[trigger] self.entries[i]).key@ != (
            #[trigger] self.entries[j]).key@
    }

    /// At most one request waits under a key, and what the table holds is well
    /// formed.
    #[verifier::type_invariant]
    spec fn wf(&self) -> bool {
        &&& self.keys_unique()
        &&& self@.well_formed()
    }

    /// Under a key that some entry holds, the view has that entry.
    proof fn lemma_view_at(&self, key: Seq<char>, i: int)
        requires
            self.keys_unique(),
            self.holds(key, i),
        ensures
            self@.pending.dom().contains(key),
            self@.pending[key] == self.entries[i]@,
    {
        let c = choose|c: int| self.holds(key, c);
        if c < i {
            assert(self.entries[c].key@ != self.entries[i].key@);
        }
        if i < c {
            assert(self.entries[i].key@ != self.entries[c].key@);
        }
    }

    /// An empty table.
    pub fn new() -> (r: PendingTable)
        ensures
            r@.pending == Map::<Seq<char>, PendingView>::empty(),
            r@.issued == 0,
    {
        let r = PendingTable { entries: Vec::new(), next_ticket: 0 };
        assert(r@.pending =~= Map::<Seq<char>, PendingView>::empty());
        r
    }

    /// The number of waiting requests.
    pub fn len(&self) -> (r: usize)
        ensures
            r == self@.pending.dom().len(),
            self@.pending.dom().finite(),
    {
        proof {
            use_type_invariant(self);
            self.lemma_count(self.entries.len() as int);
            assert(self.keys_upto(self.entries.len() as int) =~= self@.pending.dom());
        }
        self.entries.len()
    }

    /// The keys of the first `n` entries.
    spec fn keys_upto(&self, n: int) -> Set<Seq<char>> {
        Set::new(|k: Seq<char>| exists|i: int| 0 <= i < n && self.holds(k, i))
    }

    /// The first `n` entries have `n` keys.
    proof fn lemma_count(&self, n: int)
        requires
            self.keys_unique(),
            0 <= n <= self.entries.len(),
        ensures
            self.keys_upto(n).finite(),
            self.keys_upto(n).len() == n,
        decreases n,
    {
        if n == 0 {
            assert(self.keys_upto(0) =~= Set::<Seq<char>>::empty());
        } else {
            self.lemma_count(n - 1);
            let k = self.entries[n - 1].key@;
            assert(self.holds(k, n - 1));
            assert(!self.keys_upto(n - 1).contains(k)) by {
                if self.keys_upto(n - 1).contains(k) {
                    let i = choose|i: int| 0 <= i < n - 1 && self.holds(k, i);
                    assert(self.entries[i].key@ != self.entries[n - 1].key@);
                }
            }
            assert(self.keys_upto(n) =~= self.keys_upto(n - 1).insert(k));
        }
    }

    /// The position of the entry that waits under `key`.
    fn position(&self, key: &str) -> (r: Option<usize>)
        ensures
            match r {
                Some(i) => self.holds(key@, i as int),
                None => forall|i: int| !self.holds(key@, i),
            },
    {
        let mut i: usize = 0;
        while i < self.entries.len()
            invariant
                i <= self.entries.len(),
                forall|j: int| 0 <= j < i ==> !self.holds(key@, j),
            decreases self.entries.len() - i,
        {
            if str_same(self.entries[i].key.as_str(), key) {
                return Some(i);
            }
            i += 1;
        }
        None
    }

    /// Whether a request waits under `key`.
    pub fn is_pending(&self, key: &str) -> (r: bool)
        ensures
            r == self@.pending.dom().contains(key@),
    {
        proof {
            use_type_invariant(self);
        }
        match self.position(key) {
            Some(i) => {
                proof {
                    self.lemma_view_at(key@, i as int);
                }
                true
            },
            None => false,
        }
    }

    /// The ticket and the deadline of the request that waits under `key`.
    pub fn waiting(&self, key: &str) -> (r: Option<(u64, u64)>)
        ensures
            match r {
                Some((ticket, deadline)) => self@.waits(key@, ticket as int)
                    && self@.pending[key@].deadline == deadline,
                None => !self@.pending.dom().contains(key@),
            },
    {
        proof {
            use_type_invariant(self);
        }
        match self.position(key) {
            Some(i) => {
                proof {
                    self.lemma_view_at(key@, i as int);
                }
                Some((self.entries[i].ticket, self.entries[i].deadline))
            },
            None => None,
        }
    }

    /// Enters a request under `key` at time `now`, to wait for `timeout_ms`,
    /// and returns its ticket. A request under a key that is taken is refused.
    pub fn register(&mut self, key: &str, now: u64, timeout_ms: u64) -> (r: Result<
        u64,
        RegisterError,
    >)
        ensures
            final(self)@ == old(self)@.register(key@, now as int, timeout_ms as int).0,
            old(self)@.well_formed(),
            final(self)@.well_formed(),
            match r {
                Ok(ticket) => old(self)@.register(key@, now as int, timeout_ms as int).1 == Ok::<
                    int,
                    RegisterError,
                >(ticket as int),
                Err(e) => old(self)@.register(key@, now as int, timeout_ms as int).1 == Err::<
                    int,
                    RegisterError,
                >(e),
            },
    {
        proof {
            use_type_invariant(&*self);
        }
        match self.position(key) {
            Some(i) => {
                proof {
                    self.lemma_view_at(key@, i as int);
                }
                Err(RegisterError::KeyBusy)
            },
            None => {
                if self.next_ticket == u64::MAX {
                    return Err(RegisterError::Exhausted);
                }
                let ticket = self.next_ticket;
                let deadline = now.saturating_add(timeout_ms);
                let entry = PendingEntry { key: key.to_owned(), ticket, created_at: now, deadline };
                let ghost before = *self;
                let mut entries: Vec<PendingEntry> = Vec::new();
                proof {
                    let empty = PendingTable { entries, next_ticket: self.next_ticket };
                    assert(empty@.pending =~= Map::<Seq<char>, PendingView>::empty());
                }
                std::mem::swap(&mut self.entries, &mut entries);
                entries.push(entry);
                proof {
                    let after = PendingTable { entries, next_ticket: (ticket + 1) as u64 };
                    let n = before.entries.len() as int;
                    assert(after.holds(key@, n));
                    assert forall|i: int, j: int| 0 <= i < j < after.entries.len() implies (
                    #[trigger] after.entries[i]).key@ != (#[trigger] after.entries[j]).key@ by {
                        if j == n {
                            assert(!before.holds(key@, i));
                        } else {
                            assert(before.entries[i].key@ != before.entries[j].key@);
                        }
                    }
                    after.lemma_view_at(key@, n);
                    let want = before@.register(key@, now as int, timeout_ms as int).0;
                    assert forall|k: Seq<char>| after@.pending.dom().contains(k)
                        == want.pending.dom().contains(k) by {
                        if after@.pending.dom().contains(k) {
                            let i = choose|i: int| after.holds(k, i);
                            if i < n {
                                assert(before.holds(k, i));
                            }
                        }
                        if before@.pending.dom().contains(k) {
                            let i = choose|i: int| before.holds(k, i);
                            assert(after.holds(k, i));
                        }
                    }
                    assert forall|k: Seq<char>| #[trigger]
                        after@.pending.dom().contains(k) implies after@.pending[k]
                        == want.pending[k] by {
                        if k != key@ {
                            let i = choose|i: int| after.holds(k, i);
                            assert(before.holds(k, i));
                            before.lemma_view_at(k, i);
                            after.lemma_view_at(k, i);
                        }
                    }
                    assert(after@.pending =~= want.pending);
                    assert(after.wf());
                    let mid = PendingTable {
                        entries: self.entries,
                        next_ticket: (ticket + 1) as u64,
                    };
                    assert(mid@.pending =~= Map::<Seq<char>, PendingView>::empty());
                }
                self.next_ticket = ticket + 1;
                std::mem::swap(&mut self.entries, &mut entries);
                Ok(ticket)
            },
        }
    }

    /// Takes out the entry at position `i`.
    fn take(&mut self, i: usize, Ghost(key): Ghost<Seq<char>>)
        requires
            old(self).holds(key, i as int),
        ensures
            final(self)@.pending == old(self)@.pending.remove(key),
            final(self)@.issued == old(self)@.issued,
    {
        proof {
            use_type_invariant(&*self);
        }
        let ghost before = *self;
        let mut entries: Vec<PendingEntry> = Vec::new();
        proof {
            let empty = PendingTable { entries, next_ticket: self.next_ticket };
            assert(empty@.pending =~= Map::<Seq<char>, PendingView>::empty());
        }
        std::mem::swap(&mut self.entries, &mut entries);
        entries.remove(i);
        proof {
            let after = PendingTable { entries, next_ticket: self.next_ticket };
            let n = i as int;
            assert forall|a: int, b: int| 0 <= a < b < after.entries.len() implies (
            #[trigger] after.entries[a]).key@ != (#[trigger] after.entries[b]).key@ by {
                let a0 = if a < n {
                    a
                } else {
                    a + 1
                };
                let b0 = if b < n {
                    b
                } else {
                    b + 1
                };
                assert(before.entries[a0].key@ != before.entries[b0].key@);
            }
            before.lemma_view_at(key, n);
            let want = before@.pending.remove(key);
            assert forall|k: Seq<char>| after@.pending.dom().contains(k) == want.dom().contains(
                k,
            ) by {
                if after@.pending.dom().contains(k) {
                    let a = choose|a: int| after.holds(k, a);
                    let a0 = if a < n {
                        a
                    } else {
                        a + 1
                    };
                    assert(before.holds(k, a0));
                    if k == key {
                        if a0 < n {
                            assert(before.entries[a0].key@ != before.entries[n].key@);
                        } else {
                            assert(before.entries[n].key@ != before.entries[a0].key@);
                        }
                    }
                }
                if want.dom().contains(k) {
                    let a0 = choose|a0: int| before.holds(k, a0);
                    let a = if a0 < n {
                        a0
                    } else {
                        a0 - 1
                    };
                    assert(after.holds(k, a));
                }
            }
            assert forall|k: Seq<char>| #[trigger]
                after@.pending.dom().contains(k) implies after@.pending[k] == want[k] by {
                let a = choose|a: int| after.holds(k, a);
                let a0 = if a < n {
                    a
                } else {
                    a + 1
                };
                assert(before.holds(k, a0));
                before.lemma_view_at(k, a0);
                after.lemma_view_at(k, a);
            }
            assert(after@.pending =~= want);
            assert(after.wf());
        }
        std::mem::swap(&mut self.entries, &mut entries);
    }

    /// Records that the reply for the request with `ticket` under `key` has
    /// arrived. Returns whether that request was waiting; if so it has left
    /// the table.
    pub fn resolve(&mut self, key: &str, ticket: u64) -> (r: bool)
        ensures
            (final(self)@, r) == old(self)@.resolve(key@, ticket as int),
            old(self)@.well_formed(),
            final(self)@.well_formed(),
    {
        proof {
            use_type_invariant(&*self);
        }
        match self.position(key) {
            Some(i) => {
                proof {
                    self.lemma_view_at(key@, i as int);
                }
                if self.entries[i].ticket == ticket {
                    self.take(i, Ghost(key@));
                    assert(self@ == old(self)@.resolve(key@, ticket as int).0);
                    true
                } else {
                    false
                }
            },
            None => false,
        }
    }

    /// Looks at the clock for the request with `ticket` under `key`: at or
    /// after its deadline the request leaves the table as timed out, before
    /// it the request goes on waiting.
    pub fn expire(&mut self, key: &str, ticket: u64, now: u64) -> (r: Expiry)
        ensures
            (final(self)@, r) == old(self)@.expire(key@, ticket as int, now as int),
            old(self)@.well_formed(),
            final(self)@.well_formed(),
    {
        proof {
            use_type_invariant(&*self);
        }
        match self.position(key) {
            Some(i) => {
                proof {
                    self.lemma_view_at(key@, i as int);
                }
                if self.entries[i].ticket == ticket {
                    if now >= self.entries[i].deadline {
                        self.take(i, Ghost(key@));
                        assert(self@ == old(self)@.expire(key@, ticket as int, now as int).0);
                        Expiry::TimedOut
                    } else {
                        Expiry::StillWaiting
                    }
                } else {
                    Expiry::Gone
                }
            },
            None => Expiry::Gone,
        }
    }
}

/// A request does not time out before its deadline: a look at the clock
/// before the deadline leaves it waiting, one at or after the deadline ends it
/// as timed out and frees its key.
pub proof fn lemma_timeout_at_deadline_not_before(
    t: TableView,
    key: Seq<char>,
    ticket: int,
    now: int,
)
    requires
        t.waits(key, ticket),
    ensures
        now < t.pending[key].deadline ==> t.expire(key, ticket, now) == (t, Expiry::StillWaiting),
        now >= t.pending[key].deadline ==> t.expire(key, ticket, now).1 == Expiry::TimedOut
            && !t.expire(key, ticket, now).0.pending.dom().contains(key),
{
}

/// A request leaves the table once: after its reply or its timeout, neither a
/// second reply nor a second timeout finds it.
pub proof fn lemma_request_leaves_once(
    t: TableView,
    key: Seq<char>,
    ticket: int,
    now: int,
    later: int,
)
    ensures
        ({
            let after = t.resolve(key, ticket).0;
            after.resolve(key, ticket) == (after, false) && after.expire(key, ticket, later) == (
                after,
                Expiry::Gone,
            )
        }),
        t.expire(key, ticket, now).1 == Expiry::TimedOut ==> ({
            let after = t.expire(key, ticket, now).0;
            after.resolve(key, ticket) == (after, false) && after.expire(key, ticket, later) == (
                after,
                Expiry::Gone,
            )
        }),
{
}

/// At most one request waits under a key: a second one is refused, and the
/// first goes on waiting unchanged.
pub proof fn lemma_busy_key_is_refused(t: TableView, key: Seq<char>, now: int, timeout_ms: int)
    requires
        t.pending.dom().contains(key),
    ensures
        t.register(key, now, timeout_ms) == (t, Err::<int, RegisterError>(RegisterError::KeyBusy)),
{
}

/// A key that was freed can be used again, and what belongs to the earlier
/// request under it, its reply or its timer, does not touch the later one.
pub proof fn lemma_earlier_request_cannot_end_later_one(
    t: TableView,
    key: Seq<char>,
    earlier: int,
    now: int,
    timeout_ms: int,
    later: int,
)
    requires
        t.well_formed(),
        t.issued < limit(),
        !t.pending.dom().contains(key),
        0 <= earlier < t.issued,
    ensures
        ({
            let (after, r) = t.register(key, now, timeout_ms);
            &&& r == Ok::<int, RegisterError>(t.issued)
            &&& after.waits(key, t.issued)
            &&& after.resolve(key, earlier) == (after, false)
            &&& after.expire(key, earlier, later) == (after, Expiry::Gone)
        }),
{
}

/// What happens under one key leaves the requests under every other key as
/// they were.
pub proof fn lemma_other_keys_untouched(
    t: TableView,
    key: Seq<char>,
    other: Seq<char>,
    ticket: int,
    now: int,
    timeout_ms: int,
)
    requires
        key != other,
    ensures
        t.register(key, now, timeout_ms).0.pending.dom().contains(other)
            == t.pending.dom().contains(other),
        t.register(key, now, timeout_ms).0.pending[other] == t.pending[other],
        t.resolve(key, ticket).0.pending.dom().contains(other) == t.pending.dom().contains(other),
        t.resolve(key, ticket).0.pending[other] == t.pending[other],
        t.expire(key, ticket, now).0.pending.dom().contains(other) == t.pending.dom().contains(
            other,
        ),
        t.expire(key, ticket, now).0.pending[other] == t.pending[other],
{
}

/// Every step keeps the table well formed.
pub proof fn lemma_steps_keep_well_formed(
    t: TableView,
    key: Seq<char>,
    ticket: int,
    now: int,
    timeout_ms: int,
)
    requires
        t.well_formed(),
        0 <= now <= limit(),
        0 <= timeout_ms,
    ensures
        t.register(key, now, timeout_ms).0.well_formed(),
        t.resolve(key, ticket).0.well_formed(),
        t.expire(key, ticket, now).0.well_formed(),
{
}

/// What a request that was not entered is reported as.
pub open spec fn spec_refusal(key: Seq<char>, e: RegisterError) -> McpErrorView {
    match e {
        RegisterError::KeyBusy => McpErrorView::RequestPending(key),
        RegisterError::Exhausted => McpErrorView::HostOperationFailed(
            "no correlation ticket is left"@,
        ),
    }
}

/// The start of a request to a window: the window must exist, and the request
/// is entered under its reply event before anything is sent.
pub open spec fn spec_begin(
    t: TableView,
    request: BridgeRequestView,
    window_exists: bool,
    now: int,
) -> (TableView, Result<int, McpErrorView>) {
    if !window_exists {
        (t, Err(McpErrorView::TargetNotFound(request.window_label)))
    } else {
        let key = request.command.spec_response_event();
        let (after, r) = t.register(key, now, request.command.spec_timeout_ms());
        match r {
            Ok(ticket) => (after, Ok(ticket)),
            Err(e) => (after, Err(spec_refusal(key, e))),
        }
    }
}

/// Starts a request to a window, at time `now`. `window_exists` says whether a
/// window carries the label that the request names. On success the request
/// waits in the table and may be sent; the ticket identifies it from then on.
pub fn begin(
    table: &mut PendingTable,
    request: &BridgeRequest,
    window_exists: bool,
    now: u64,
) -> (r: Result<u64, McpError>)
    ensures
        final(table)@ == spec_begin(old(table)@, request@, window_exists, now as int).0,
        final(table)@.well_formed(),
        match r {
            Ok(ticket) => spec_begin(old(table)@, request@, window_exists, now as int).1 == Ok::<
                int,
                McpErrorView,
            >(ticket as int),
            Err(e) => spec_begin(old(table)@, request@, window_exists, now as int).1 == Err::<
                int,
                McpErrorView,
            >(e@),
        },
{
    if !window_exists {
        proof {
            use_type_invariant(&*table);
        }
        return Err(McpError::TargetNotFound(request.window_label.clone()));
    }
    let key = request.command.response_event();
    match table.register(key, now, request.command.timeout_ms()) {
        Ok(ticket) => Ok(ticket),
        Err(RegisterError::KeyBusy) => Err(McpError::RequestPending(key.to_owned())),
        Err(RegisterError::Exhausted) => Err(
            McpError::HostOperationFailed("no correlation ticket is left".to_owned()),
        ),
    }
}

/// What can happen while a request waits.
#[derive(Debug, PartialEq, Eq)]
pub enum WaitEvent {
    /// The reply event fired with the payload `text`; `parsed` is that text
    /// read as JSON, or the reason why it is no JSON.
    Reply { text: String, parsed: Result<Json, String> },
    /// The clock was read.
    Clock,
    /// The side that would have delivered the reply is gone.
    SenderGone,
}

/// Mathematical form of a [`WaitEvent`].
pub enum WaitEventView {
    Reply { text: Seq<char>, parsed: Result<JsonView, Seq<char>> },
    Clock,
    SenderGone,
}

impl View for WaitEvent {
    type V = WaitEventView;

    open spec fn view(&self) -> WaitEventView {
        match self {
            WaitEvent::Reply { text, parsed } => WaitEventView::Reply {
                text: text@,
                parsed: match parsed {
                    Ok(v) => Ok(v@),
                    Err(m) => Err(m@),
                },
            },
            WaitEvent::Clock => WaitEventView::Clock,
            WaitEvent::SenderGone => WaitEventView::SenderGone,
        }
    }
}

/// What an event means for a waiting request.
#[derive(Debug, PartialEq, Eq)]
pub enum Settlement {
    /// The request has ended; this is the answer to its command.
    Answer(SocketResponse),
    /// The request goes on waiting.
    KeepWaiting,
    /// The request had ended before; the event is dropped.
    Stale,
}

/// Mathematical form of a [`Settlement`].
pub enum SettlementView {
    Answer(ResponseView),
    KeepWaiting,
    Stale,
}

impl View for Settlement {
    type V = SettlementView;

    open spec fn view(&self) -> SettlementView {
        match self {
            Settlement::Answer(r) => SettlementView::Answer(r@),
            Settlement::KeepWaiting => SettlementView::KeepWaiting,
            Settlement::Stale => SettlementView::Stale,
        }
    }
}

/// How an event leaves a waiting request.
#[derive(Debug, PartialEq, Eq)]
pub enum WaitEnd {
    /// The wait has ended, in this way.
    Ended(Reply),
    /// The request goes on waiting.
    KeepWaiting,
    /// The request had ended before; the event is dropped.
    Stale,
}

/// Mathematical form of a [`WaitEnd`].
pub enum WaitEndView {
    Ended(ReplyView),
    KeepWaiting,
    Stale,
}

impl View for WaitEnd {
    type V = WaitEndView;

    open spec fn view(&self) -> WaitEndView {
        match self {
            WaitEnd::Ended(reply) => WaitEndView::Ended(reply@),
            WaitEnd::KeepWaiting => WaitEndView::KeepWaiting,
            WaitEnd::Stale => WaitEndView::Stale,
        }
    }
}

/// How `event`, seen at time `now`, leaves the request of `command` that holds
/// `ticket`: a reply or the loss of the sender ends the wait if the request
/// still waits, and a look at the clock ends it at or after the deadline.
pub open spec fn spec_wait_step(
    t: TableView,
    command: BridgeCommand,
    ticket: int,
    now: int,
    event: WaitEventView,
) -> (TableView, WaitEndView) {
    let key = command.spec_response_event();
    match event {
        WaitEventView::Reply { text, parsed } => {
            let (after, found) = t.resolve(key, ticket);
            if found {
                (after, WaitEndView::Ended(ReplyView::Received { text, parsed }))
            } else {
                (after, WaitEndView::Stale)
            }
        },
        WaitEventView::SenderGone => {
            let (after, found) = t.resolve(key, ticket);
            if found {
                (after, WaitEndView::Ended(ReplyView::Failed(WaitFailure::Disconnected)))
            } else {
                (after, WaitEndView::Stale)
            }
        },
        WaitEventView::Clock => {
            let (after, expiry) = t.expire(key, ticket, now);
            match expiry {
                Expiry::TimedOut => (
                    after,
                    WaitEndView::Ended(ReplyView::Failed(WaitFailure::TimedOut)),
                ),
                Expiry::StillWaiting => (after, WaitEndView::KeepWaiting),
                Expiry::Gone => (after, WaitEndView::Stale),
            }
        },
    }
}

/// Applies `event`, seen at time `now`, to the request of `command` that holds
/// `ticket`, and says how it leaves the request.
pub fn wait_step(
    table: &mut PendingTable,
    command: BridgeCommand,
    ticket: u64,
    now: u64,
    event: WaitEvent,
) -> (r: WaitEnd)
    ensures
        (final(table)@, r@) == spec_wait_step(
            old(table)@,
            command,
            ticket as int,
            now as int,
            event@,
        ),
        final(table)@.well_formed(),
{
    let key = command.response_event();
    match event {
        WaitEvent::Reply { text, parsed } => {
            if table.resolve(key, ticket) {
                WaitEnd::Ended(Reply::Received { text, parsed })
            } else {
                WaitEnd::Stale
            }
        },
        WaitEvent::SenderGone => {
            if table.resolve(key, ticket) {
                WaitEnd::Ended(Reply::Failed(WaitFailure::Disconnected))
            } else {
                WaitEnd::Stale
            }
        },
        WaitEvent::Clock => match table.expire(key, ticket, now) {
            Expiry::TimedOut => WaitEnd::Ended(Reply::Failed(WaitFailure::TimedOut)),
            Expiry::StillWaiting => WaitEnd::KeepWaiting,
            Expiry::Gone => WaitEnd::Stale,
        },
    }
}

/// What `event`, seen at time `now`, means for the request of `command` that
/// holds `ticket`: where it ends the wait, the answer to the command.
pub open spec fn spec_settle(
    t: TableView,
    command: BridgeCommand,
    ticket: int,
    now: int,
    event: WaitEventView,
) -> (TableView, SettlementView) {
    let (after, end) = spec_wait_step(t, command, ticket, now, event);
    match end {
        WaitEndView::Ended(reply) => (after, SettlementView::Answer(spec_conclude(command, reply))),
        WaitEndView::KeepWaiting => (after, SettlementView::KeepWaiting),
        WaitEndView::Stale => (after, SettlementView::Stale),
    }
}

/// Applies `event`, seen at time `now`, to the request of `command` that holds
/// `ticket`.
///
/// The request is answered by the first of its reply and its deadline; from
/// then on it is gone from the table and every further event for it is stale.
pub fn settle(
    table: &mut PendingTable,
    command: BridgeCommand,
    ticket: u64,
    now: u64,
    event: WaitEvent,
) -> (r: Settlement)
    ensures
        (final(table)@, r@) == spec_settle(old(table)@, command, ticket as int, now as int, event@),
        final(table)@.well_formed(),
        r matches Settlement::Answer(response) ==> response@.well_formed(),
{
    match wait_step(table, command, ticket, now, event) {
        WaitEnd::Ended(reply) => Settlement::Answer(conclude(command, reply)),
        WaitEnd::KeepWaiting => Settlement::KeepWaiting,
        WaitEnd::Stale => Settlement::Stale,
    }
}

/// With no reply, a request is answered as timed out at its deadline and not
/// before: until then every look at the clock leaves it waiting.
pub proof fn lemma_no_reply_times_out_at_deadline(
    t: TableView,
    command: BridgeCommand,
    ticket: int,
    now: int,
)
    requires
        t.waits(command.spec_response_event(), ticket),
    ensures
        now < t.pending[command.spec_response_event()].deadline ==> spec_settle(
            t,
            command,
            ticket,
            now,
            WaitEventView::Clock,
        ) == (t, SettlementView::KeepWaiting),
        now >= t.pending[command.spec_response_event()].deadline ==> spec_settle(
            t,
            command,
            ticket,
            now,
            WaitEventView::Clock,
        ).1 == SettlementView::Answer(
            spec_conclude(command, ReplyView::Failed(WaitFailure::TimedOut)),
        ),
        !spec_conclude(command, ReplyView::Failed(WaitFailure::TimedOut)).success,
{
}

/// A request is answered at most once: after an event has answered it, every
/// further event for it is stale and changes nothing.
pub proof fn lemma_answered_at_most_once(
    t: TableView,
    command: BridgeCommand,
    ticket: int,
    now: int,
    event: WaitEventView,
    later: int,
    next: WaitEventView,
)
    requires
        spec_settle(t, command, ticket, now, event).1 is Answer,
    ensures
        ({
            let after = spec_settle(t, command, ticket, now, event).0;
            spec_settle(after, command, ticket, later, next) == (after, SettlementView::Stale)
        }),
{
}

/// The deadline of a request that is begun at `start` to wait for
/// `timeout_ms`: that much later, or the largest time value where that would
/// be beyond it.
pub open spec fn spec_deadline(start: int, timeout_ms: int) -> int {
    if start + timeout_ms > limit() {
        limit()
    } else {
        start + timeout_ms
    }
}

/// A request that has been begun waits until its deadline: whatever the table
/// held before and whenever the request began, a look at the clock before the
/// deadline leaves the request waiting, and a look at or after the deadline
/// ends it as timed out and frees its key. The wait neither ends early nor
/// goes on for ever.
pub proof fn lemma_begun_request_waits_until_its_deadline(
    t: TableView,
    request: BridgeRequestView,
    window_exists: bool,
    start: int,
    ticket: int,
    now: int,
)
    requires
        spec_begin(t, request, window_exists, start).1 == Ok::<int, McpErrorView>(ticket),
    ensures
        ({
            let begun = spec_begin(t, request, window_exists, start).0;
            let command = request.command;
            let key = command.spec_response_event();
            let deadline = spec_deadline(start, command.spec_timeout_ms());
            &&& begun.waits(key, ticket)
            &&& begun.pending[key].created_at == start
            &&& begun.pending[key].deadline == deadline
            &&& now < deadline ==> spec_settle(begun, command, ticket, now, WaitEventView::Clock)
                == (begun, SettlementView::KeepWaiting)
            &&& now >= deadline ==> spec_settle(begun, command, ticket, now, WaitEventView::Clock)
                == (
                TableView { pending: begun.pending.remove(key), issued: begun.issued },
                SettlementView::Answer(
                    spec_conclude(command, ReplyView::Failed(WaitFailure::TimedOut)),
                ),
            )
            &&& !spec_conclude(command, ReplyView::Failed(WaitFailure::TimedOut)).success
        }),
{
}

/// A request that timed out does not touch the next one under the same key.
/// Whatever the table held and whatever the times: once the first request has
/// timed out, a second one of the same command can be begun; it gets a ticket
/// of its own; every event that still arrives for the first is stale and
/// changes nothing; and the reply that arrives for the second ends the second,
/// with that reply.
pub proof fn lemma_timed_out_request_leaves_the_next_alone(
    t: TableView,
    first: BridgeRequestView,
    second: BridgeRequestView,
    start: int,
    timed_out_at: int,
    restart: int,
    late: int,
    late_event: WaitEventView,
    replied_at: int,
    text: Seq<char>,
    parsed: Result<JsonView, Seq<char>>,
)
    requires
        first.command == second.command,
        spec_begin(t, first, true, start).1 is Ok,
        spec_settle(
            spec_begin(t, first, true, start).0,
            first.command,
            spec_begin(t, first, true, start).1->Ok_0,
            timed_out_at,
            WaitEventView::Clock,
        ).1 is Answer,
        t.issued + 1 < limit(),
    ensures
        ({
            let command = first.command;
            let earlier = spec_begin(t, first, true, start).1->Ok_0;
            let freed = spec_settle(
                spec_begin(t, first, true, start).0,
                command,
                earlier,
                timed_out_at,
                WaitEventView::Clock,
            ).0;
            let (begun, again) = spec_begin(freed, second, true, restart);
            &&& again is Ok
            &&& again->Ok_0 != earlier
            &&& spec_settle(begun, command, earlier, late, late_event) == (
                begun,
                SettlementView::Stale,
            )
            &&& spec_settle(
                begun,
                command,
                again->Ok_0,
                replied_at,
                WaitEventView::Reply { text, parsed },
            ).1 == SettlementView::Answer(
                spec_conclude(command, ReplyView::Received { text, parsed }),
            )
            &&& command == BridgeCommand::GetDom && text.len() > 0 ==> spec_conclude(
                command,
                ReplyView::Received { text, parsed },
            ) == ResponseView::ok(JsonView::Text(text))
        }),
{
}

} // verus!
