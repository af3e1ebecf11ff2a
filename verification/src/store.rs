//! The storage model: handshake states, session records and account records.
//!
//! One `AuthenticationData` value models the key-value medium the engine
//! runs against.  Handshake entries are keyed by flow and username, carry
//! the timestamp of their creation and an optional absolute expiry, and
//! double as the rate-limit ledger: a throttle question is answered from
//! the creation timestamp of whatever entry is live under the key.
//!
//! Login session records share the login-state keyspace on purpose: the
//! storage layout keys both under one prefix by design, so a session write
//! overwrites the login handshake state and the session throttle re-reads
//! a record whose age the session write itself just reset.  That ambiguity
//! is preserved here rather than silently repaired.

use vstd::prelude::*;
use vstd::string::StrSliceExecFns;
use vstd::string::StringExecFns;

use crate::profile::{clone_profile, UserProfile, UserProfileMetadata};

verus! {

/// Upper bound on clock values the store accepts, far beyond any real
/// millisecond timestamp; keeps expiry arithmetic free of overflow.
pub const MAX_CLOCK_MS: u64 = 0x4_0000_0000_0000;

/// Absolute expiry armed on every handshake-state write.
pub const STATE_TTL_MS: u64 = 60_000;

/// Throttle window of the registration flow.
pub const REGISTRATION_WINDOW_MS: u64 = 15_000;

/// Throttle window of the login flow.
pub const LOGIN_WINDOW_MS: u64 = 5_000;

/// Throttle window guarding session issuance.
pub const SESSION_WINDOW_MS: u64 = 5_000;

/// The two handshake flows.  Session records reuse `Login`.
#[derive(Clone, Copy, Debug, PartialEq, Eq, Structural)]
pub enum Flow {
    Registration,
    Login,
}

/// One ephemeral entry: the opaque engine state (or session key) for a
/// (flow, username) pair, stamped with its creation time.
pub struct HandshakeEntry {
    pub flow: Flow,
    pub username: String,
    pub payload: Vec<u8>,
    pub created_at: u64,
    pub expires_at: Option<u64>,
}

/// One durable account record with its metadata sidecar.
pub struct ProfileEntry {
    pub username: String,
    pub profile: UserProfile,
    pub metadata: UserProfileMetadata,
}

pub open spec fn hs_matches(e: HandshakeEntry, flow: Flow, u: Seq<char>) -> bool {
    e.flow == flow && e.username@ == u
}

pub open spec fn pr_matches(e: ProfileEntry, u: Seq<char>) -> bool {
    e.username@ == u
}

/// The entry stored under a (flow, username) key, if any.
pub open spec fn find_hs(s: Seq<HandshakeEntry>, flow: Flow, u: Seq<char>) -> Option<
    HandshakeEntry,
>
    decreases s.len(),
{
    if s.len() == 0 {
        None
    } else if hs_matches(s[0], flow, u) {
        Some(s[0])
    } else {
        find_hs(s.drop_first(), flow, u)
    }
}

/// The record stored under a username, if any.
pub open spec fn find_pr(s: Seq<ProfileEntry>, u: Seq<char>) -> Option<ProfileEntry>
    decreases s.len(),
{
    if s.len() == 0 {
        None
    } else if pr_matches(s[0], u) {
        Some(s[0])
    } else {
        find_pr(s.drop_first(), u)
    }
}

/// At most one entry per (flow, username) key.
pub open spec fn hs_unique(s: Seq<HandshakeEntry>) -> bool {
    forall|i: int, j: int|
        0 <= i < j < s.len() ==> !hs_matches(#[trigger] s[i], (#[trigger] s[j]).flow,
        s[j].username@)
}

/// At most one record per username.
pub open spec fn pr_unique(s: Seq<ProfileEntry>) -> bool {
    forall|i: int, j: int|
        0 <= i < j < s.len() ==> !pr_matches(#[trigger] s[i], (#[trigger] s[j]).username@)
}

/// Every creation timestamp respects the clock bound.
pub open spec fn hs_bounded(s: Seq<HandshakeEntry>) -> bool {
    forall|i: int| 0 <= i < s.len() ==> (#[trigger] s[i]).created_at <= MAX_CLOCK_MS
}

/// Whether the storage medium still returns the entry at time `now`.
pub open spec fn hs_live(e: HandshakeEntry, now: u64) -> bool {
    match e.expires_at {
        None => true,
        Some(x) => now < x,
    }
}

proof fn lemma_find_hs_found(s: Seq<HandshakeEntry>, flow: Flow, u: Seq<char>, i: int)
    requires
        0 <= i < s.len(),
        hs_matches(s[i], flow, u),
        forall|j: int| 0 <= j < i ==> !hs_matches(#[trigger] s[j], flow, u),
    ensures
        find_hs(s, flow, u) == Some(s[i]),
    decreases i,
{
    if i > 0 {
        lemma_find_hs_found(s.drop_first(), flow, u, i - 1);
    }
}

proof fn lemma_find_hs_not_found(s: Seq<HandshakeEntry>, flow: Flow, u: Seq<char>)
    requires
        forall|j: int| 0 <= j < s.len() ==> !hs_matches(#[trigger] s[j], flow, u),
    ensures
        find_hs(s, flow, u) is None,
    decreases s.len(),
{
    if s.len() > 0 {
        lemma_find_hs_not_found(s.drop_first(), flow, u);
    }
}

proof fn lemma_find_hs_none_forall(s: Seq<HandshakeEntry>, flow: Flow, u: Seq<char>)
    requires
        find_hs(s, flow, u) is None,
    ensures
        forall|j: int| 0 <= j < s.len() ==> !hs_matches(#[trigger] s[j], flow, u),
    decreases s.len(),
{
    if s.len() > 0 {
        lemma_find_hs_none_forall(s.drop_first(), flow, u);
        assert forall|j: int| 0 <= j < s.len() implies !hs_matches(#[trigger] s[j], flow, u) by {
            if j > 0 {
                assert(s.drop_first()[j - 1] == s[j]);
            }
        }
    }
}

proof fn lemma_find_hs_remove_same(s: Seq<HandshakeEntry>, i: int, flow: Flow, u: Seq<char>)
    requires
        hs_unique(s),
        0 <= i < s.len(),
        hs_matches(s[i], flow, u),
    ensures
        find_hs(s.remove(i), flow, u) is None,
{
    assert forall|j: int| 0 <= j < s.remove(i).len() implies !hs_matches(
        #[trigger] s.remove(i)[j],
        flow,
        u,
    ) by {
        if j < i {
            assert(s.remove(i)[j] == s[j]);
        } else {
            assert(s.remove(i)[j] == s[j + 1]);
        }
    }
    lemma_find_hs_not_found(s.remove(i), flow, u);
}

proof fn lemma_find_hs_remove_other(s: Seq<HandshakeEntry>, i: int, flow: Flow, u: Seq<char>)
    requires
        0 <= i < s.len(),
        !hs_matches(s[i], flow, u),
    ensures
        find_hs(s.remove(i), flow, u) == find_hs(s, flow, u),
    decreases s.len(),
{
    if i == 0 {
        assert(s.remove(0) =~= s.drop_first());
    } else {
        if !hs_matches(s[0], flow, u) {
            lemma_find_hs_remove_other(s.drop_first(), i - 1, flow, u);
            assert(s.remove(i).drop_first() =~= s.drop_first().remove(i - 1));
        } else {
            assert(s.remove(i)[0] == s[0]);
        }
    }
}

proof fn lemma_find_hs_push(s: Seq<HandshakeEntry>, e: HandshakeEntry, flow: Flow, u: Seq<char>)
    ensures
        find_hs(s.push(e), flow, u) == (if find_hs(s, flow, u) is Some {
            find_hs(s, flow, u)
        } else if hs_matches(e, flow, u) {
            Some(e)
        } else {
            None
        }),
    decreases s.len(),
{
    reveal_with_fuel(find_hs, 3);
    if s.len() == 0 {
        assert(s.push(e)[0] == e);
        if !hs_matches(e, flow, u) {
            assert(s.push(e).drop_first() =~= Seq::<HandshakeEntry>::empty());
        }
    } else {
        assert(s.push(e)[0] == s[0]);
        if !hs_matches(s[0], flow, u) {
            lemma_find_hs_push(s.drop_first(), e, flow, u);
            assert(s.push(e).drop_first() =~= s.drop_first().push(e));
        }
    }
}

proof fn lemma_find_pr_found(s: Seq<ProfileEntry>, u: Seq<char>, i: int)
    requires
        0 <= i < s.len(),
        pr_matches(s[i], u),
        forall|j: int| 0 <= j < i ==> !pr_matches(#[trigger] s[j], u),
    ensures
        find_pr(s, u) == Some(s[i]),
    decreases i,
{
    if i > 0 {
        lemma_find_pr_found(s.drop_first(), u, i - 1);
    }
}

proof fn lemma_find_pr_not_found(s: Seq<ProfileEntry>, u: Seq<char>)
    requires
        forall|j: int| 0 <= j < s.len() ==> !pr_matches(#[trigger] s[j], u),
    ensures
        find_pr(s, u) is None,
    decreases s.len(),
{
    if s.len() > 0 {
        lemma_find_pr_not_found(s.drop_first(), u);
    }
}

proof fn lemma_find_pr_none_forall(s: Seq<ProfileEntry>, u: Seq<char>)
    requires
        find_pr(s, u) is None,
    ensures
        forall|j: int| 0 <= j < s.len() ==> !pr_matches(#[trigger] s[j], u),
    decreases s.len(),
{
    if s.len() > 0 {
        lemma_find_pr_none_forall(s.drop_first(), u);
        assert forall|j: int| 0 <= j < s.len() implies !pr_matches(#[trigger] s[j], u) by {
            if j > 0 {
                assert(s.drop_first()[j - 1] == s[j]);
            }
        }
    }
}

proof fn lemma_find_pr_remove_same(s: Seq<ProfileEntry>, i: int, u: Seq<char>)
    requires
        pr_unique(s),
        0 <= i < s.len(),
        pr_matches(s[i], u),
    ensures
        find_pr(s.remove(i), u) is None,
{
    assert forall|j: int| 0 <= j < s.remove(i).len() implies !pr_matches(
        #[trigger] s.remove(i)[j],
        u,
    ) by {
        if j < i {
            assert(s.remove(i)[j] == s[j]);
        } else {
            assert(s.remove(i)[j] == s[j + 1]);
        }
    }
    lemma_find_pr_not_found(s.remove(i), u);
}

proof fn lemma_find_pr_remove_other(s: Seq<ProfileEntry>, i: int, u: Seq<char>)
    requires
        0 <= i < s.len(),
        !pr_matches(s[i], u),
    ensures
        find_pr(s.remove(i), u) == find_pr(s, u),
    decreases s.len(),
{
    if i == 0 {
        assert(s.remove(0) =~= s.drop_first());
    } else {
        if !pr_matches(s[0], u) {
            lemma_find_pr_remove_other(s.drop_first(), i - 1, u);
            assert(s.remove(i).drop_first() =~= s.drop_first().remove(i - 1));
        } else {
            assert(s.remove(i)[0] == s[0]);
        }
    }
}

proof fn lemma_find_pr_push(s: Seq<ProfileEntry>, e: ProfileEntry, u: Seq<char>)
    ensures
        find_pr(s.push(e), u) == (if find_pr(s, u) is Some {
            find_pr(s, u)
        } else if pr_matches(e, u) {
            Some(e)
        } else {
            None
        }),
    decreases s.len(),
{
    reveal_with_fuel(find_pr, 3);
    if s.len() == 0 {
        assert(s.push(e)[0] == e);
        if !pr_matches(e, u) {
            assert(s.push(e).drop_first() =~= Seq::<ProfileEntry>::empty());
        }
    } else {
        assert(s.push(e)[0] == s[0]);
        if !pr_matches(s[0], u) {
            lemma_find_pr_push(s.drop_first(), e, u);
            assert(s.push(e).drop_first() =~= s.drop_first().push(e));
        }
    }
}

proof fn lemma_hs_unique_remove(s: Seq<HandshakeEntry>, i: int)
    requires
        hs_unique(s),
        0 <= i < s.len(),
    ensures
        hs_unique(s.remove(i)),
{
    assert forall|p: int, q: int| 0 <= p < q < s.remove(i).len() implies !hs_matches(
        #[trigger] s.remove(i)[p],
        (#[trigger] s.remove(i)[q]).flow,
        s.remove(i)[q].username@,
    ) by {
        if p < i {
            assert(s.remove(i)[p] == s[p]);
        } else {
            assert(s.remove(i)[p] == s[p + 1]);
        }
        if q < i {
            assert(s.remove(i)[q] == s[q]);
        } else {
            assert(s.remove(i)[q] == s[q + 1]);
        }
    }
}

proof fn lemma_hs_unique_push(s: Seq<HandshakeEntry>, e: HandshakeEntry)
    requires
        hs_unique(s),
        find_hs(s, e.flow, e.username@) is None,
    ensures
        hs_unique(s.push(e)),
{
    lemma_find_hs_none_forall(s, e.flow, e.username@);
    assert forall|p: int, q: int| 0 <= p < q < s.push(e).len() implies !hs_matches(
        #[trigger] s.push(e)[p],
        (#[trigger] s.push(e)[q]).flow,
        s.push(e)[q].username@,
    ) by {
        assert(s.push(e)[p] == s[p]);
        if q < s.len() {
            assert(s.push(e)[q] == s[q]);
        } else {
            assert(s.push(e)[q] == e);
        }
    }
}

proof fn lemma_hs_bounded_remove(s: Seq<HandshakeEntry>, i: int)
    requires
        hs_bounded(s),
        0 <= i < s.len(),
    ensures
        hs_bounded(s.remove(i)),
{
    assert forall|p: int| 0 <= p < s.remove(i).len() implies (#[trigger] s.remove(
        i,
    )[p]).created_at <= MAX_CLOCK_MS by {
        if p < i {
            assert(s.remove(i)[p] == s[p]);
        } else {
            assert(s.remove(i)[p] == s[p + 1]);
        }
    }
}

proof fn lemma_pr_unique_remove(s: Seq<ProfileEntry>, i: int)
    requires
        pr_unique(s),
        0 <= i < s.len(),
    ensures
        pr_unique(s.remove(i)),
{
    assert forall|p: int, q: int| 0 <= p < q < s.remove(i).len() implies !pr_matches(
        #[trigger] s.remove(i)[p],
        (#[trigger] s.remove(i)[q]).username@,
    ) by {
        if p < i {
            assert(s.remove(i)[p] == s[p]);
        } else {
            assert(s.remove(i)[p] == s[p + 1]);
        }
        if q < i {
            assert(s.remove(i)[q] == s[q]);
        } else {
            assert(s.remove(i)[q] == s[q + 1]);
        }
    }
}

proof fn lemma_pr_unique_push(s: Seq<ProfileEntry>, e: ProfileEntry)
    requires
        pr_unique(s),
        find_pr(s, e.username@) is None,
    ensures
        pr_unique(s.push(e)),
{
    lemma_find_pr_none_forall(s, e.username@);
    assert forall|p: int, q: int| 0 <= p < q < s.push(e).len() implies !pr_matches(
        #[trigger] s.push(e)[p],
        (#[trigger] s.push(e)[q]).username@,
    ) by {
        assert(s.push(e)[p] == s[p]);
        if q < s.len() {
            assert(s.push(e)[q] == s[q]);
        } else {
            assert(s.push(e)[q] == e);
        }
    }
}

/// Law: handshake state whose expiry was armed at `t1` is unreadable at
/// any time from `t1` plus the TTL onward — the storage medium itself
/// refuses it, regardless of any age check — and so is a key that holds
/// no entry at all.
pub proof fn lemma_state_unreadable_after_ttl(
    d: AuthenticationData,
    flow: Flow,
    u: Seq<char>,
    t1: u64,
    t2: u64,
)
    requires
        (match d.spec_state(flow, u) {
            Some(e) => e.expires_at matches Some(x) && x <= t1 + STATE_TTL_MS,
            None => true,
        }),
        t2 >= t1 + STATE_TTL_MS,
    ensures
        d.spec_live_payload(flow, u, t2) is None,
{
}

/// Character-wise string equality, decided without trusting any `eq` impl.
pub fn str_eq(a: &str, b: &str) -> (r: bool)
    ensures
        r == (a@ == b@),
{
    let n = a.unicode_len();
    let m = b.unicode_len();
    if n != m {
        return false;
    }
    let mut i: usize = 0;
    while i < n
        invariant
            i <= n,
            n == a@.len(),
            n == b@.len(),
            forall|j: int| 0 <= j < i ==> a@[j] == b@[j],
        decreases n - i,
    {
        if a.get_char(i) != b.get_char(i) {
            return false;
        }
        i += 1;
    }
    proof {
        assert(a@ =~= b@);
    }
    true
}

/// An owned copy of a byte string.
pub fn clone_bytes(v: &Vec<u8>) -> (r: Vec<u8>)
    ensures
        r@ == v@,
{
    let r = v.clone();
    proof {
        assert(r@ =~= v@);
    }
    r
}

/// The two stores: handshake states (with session records in the login
/// keyspace) and account records.
pub struct AuthenticationData {
    pub handshakes: Vec<HandshakeEntry>,
    pub profiles: Vec<ProfileEntry>,
}

impl AuthenticationData {
    /// Keys are unique and timestamps respect the clock bound.
    pub open spec fn wf(&self) -> bool {
        hs_unique(self.handshakes@) && hs_bounded(self.handshakes@) && pr_unique(self.profiles@)
    }

    /// The handshake entry stored under (flow, username), expired or not.
    pub open spec fn spec_state(&self, flow: Flow, u: Seq<char>) -> Option<HandshakeEntry> {
        find_hs(self.handshakes@, flow, u)
    }

    /// The payload a read returns at time `now`: `None` once expired.
    pub open spec fn spec_live_payload(&self, flow: Flow, u: Seq<char>, now: u64) -> Option<
        Seq<u8>,
    > {
        match self.spec_state(flow, u) {
            Some(e) => if hs_live(e, now) {
                Some(e.payload@)
            } else {
                None
            },
            None => None,
        }
    }

    /// The throttle predicate: a live entry exists and its age is still
    /// inside the window.
    pub open spec fn spec_throttled(&self, flow: Flow, u: Seq<char>, window: u64, now: u64) -> bool {
        match self.spec_state(flow, u) {
            Some(e) => hs_live(e, now) && now < e.created_at + window,
            None => false,
        }
    }

    /// The account record stored under a username, if any.
    pub open spec fn spec_profile(&self, u: Seq<char>) -> Option<ProfileEntry> {
        find_pr(self.profiles@, u)
    }

    /// A record exists in the active or locked phase.
    pub open spec fn spec_exists(&self, u: Seq<char>) -> bool {
        match self.spec_profile(u) {
            Some(e) => e.metadata.e || e.metadata.l,
            None => false,
        }
    }

    /// A record exists in the pending phase: registered, mail unconfirmed.
    pub open spec fn spec_exists_pending(&self, u: Seq<char>) -> bool {
        match self.spec_profile(u) {
            Some(e) => !e.metadata.e && !e.metadata.l,
            None => false,
        }
    }

    fn find_hs_index(&self, flow: Flow, username: &str) -> (r: Option<usize>)
        ensures
            match r {
                Some(i) => i < self.handshakes@.len() && hs_matches(
                    self.handshakes@[i as int],
                    flow,
                    username@,
                ) && self.spec_state(flow, username@) == Some(self.handshakes@[i as int]),
                None => self.spec_state(flow, username@) is None,
            },
    {
        let n = self.handshakes.len();
        let mut i: usize = 0;
        while i < n
            invariant
                n == self.handshakes@.len(),
                i <= n,
                forall|j: int|
                    0 <= j < i ==> !hs_matches(#[trigger] self.handshakes@[j], flow, username@),
            decreases n - i,
        {
            let f = self.handshakes[i].flow;
            if f == flow && str_eq(self.handshakes[i].username.as_str(), username) {
                proof {
                    lemma_find_hs_found(self.handshakes@, flow, username@, i as int);
                }
                return Some(i);
            }
            i += 1;
        }
        proof {
            lemma_find_hs_not_found(self.handshakes@, flow, username@);
        }
        None
    }

    fn find_pr_index(&self, username: &str) -> (r: Option<usize>)
        ensures
            match r {
                Some(i) => i < self.profiles@.len() && pr_matches(
                    self.profiles@[i as int],
                    username@,
                ) && self.spec_profile(username@) == Some(self.profiles@[i as int]),
                None => self.spec_profile(username@) is None,
            },
    {
        let n = self.profiles.len();
        let mut i: usize = 0;
        while i < n
            invariant
                n == self.profiles@.len(),
                i <= n,
                forall|j: int| 0 <= j < i ==> !pr_matches(#[trigger] self.profiles@[j], username@),
            decreases n - i,
        {
            if str_eq(self.profiles[i].username.as_str(), username) {
                proof {
                    lemma_find_pr_found(self.profiles@, username@, i as int);
                }
                return Some(i);
            }
            i += 1;
        }
        proof {
            lemma_find_pr_not_found(self.profiles@, username@);
        }
        None
    }

    /// Writes (or overwrites) the entry under (flow, username).
    fn put_hs(&mut self, flow: Flow, username: &str, payload: Vec<u8>, created_at: u64, expires_at: Option<u64>)
        requires
            old(self).wf(),
            created_at <= MAX_CLOCK_MS,
        ensures
            final(self).wf(),
            final(self).profiles == old(self).profiles,
            (match final(self).spec_state(flow, username@) {
                Some(e) => e.flow == flow && e.username@ == username@ && e.payload@ == payload@
                    && e.created_at == created_at && e.expires_at == expires_at,
                None => false,
            }),
            forall|f2: Flow, u2: Seq<char>|
                !(f2 == flow && u2 == username@) ==> #[trigger] final(self).spec_state(f2, u2)
                    == old(self).spec_state(f2, u2),
    {
        let entry = HandshakeEntry {
            flow,
            username: String::from_str(username),
            payload,
            created_at,
            expires_at,
        };
        let found = self.find_hs_index(flow, username);
        let ghost s0 = self.handshakes@;
        match found {
            Some(i) => {
                self.handshakes.remove(i);
                let ghost s1 = self.handshakes@;
                self.handshakes.push(entry);
                proof {
                    lemma_find_hs_remove_same(s0, i as int, flow, username@);
                    lemma_hs_unique_remove(s0, i as int);
                    lemma_hs_bounded_remove(s0, i as int);
                    lemma_hs_unique_push(s1, entry);
                    lemma_find_hs_push(s1, entry, flow, username@);
                    assert forall|f2: Flow, u2: Seq<char>| !(f2 == flow && u2 == username@) implies #[trigger] find_hs(
                        self.handshakes@,
                        f2,
                        u2,
                    ) == find_hs(s0, f2, u2) by {
                        lemma_find_hs_remove_other(s0, i as int, f2, u2);
                        lemma_find_hs_push(s1, entry, f2, u2);
                    }
                    assert(hs_bounded(self.handshakes@));
                }
            },
            None => {
                self.handshakes.push(entry);
                proof {
                    lemma_hs_unique_push(s0, entry);
                    lemma_find_hs_push(s0, entry, flow, username@);
                    assert forall|f2: Flow, u2: Seq<char>| !(f2 == flow && u2 == username@) implies #[trigger] find_hs(
                        self.handshakes@,
                        f2,
                        u2,
                    ) == find_hs(s0, f2, u2) by {
                        lemma_find_hs_push(s0, entry, f2, u2);
                    }
                    assert(hs_bounded(self.handshakes@));
                }
            },
        }
    }

    /// Deletes the entry under (flow, username), if any.
    fn del_hs(&mut self, flow: Flow, username: &str)
        requires
            old(self).wf(),
        ensures
            final(self).wf(),
            final(self).profiles == old(self).profiles,
            final(self).spec_state(flow, username@) is None,
            forall|f2: Flow, u2: Seq<char>|
                !(f2 == flow && u2 == username@) ==> #[trigger] final(self).spec_state(f2, u2)
                    == old(self).spec_state(f2, u2),
    {
        let found = self.find_hs_index(flow, username);
        let ghost s0 = self.handshakes@;
        match found {
            Some(i) => {
                self.handshakes.remove(i);
                proof {
                    lemma_find_hs_remove_same(s0, i as int, flow, username@);
                    lemma_hs_unique_remove(s0, i as int);
                    lemma_hs_bounded_remove(s0, i as int);
                    assert forall|f2: Flow, u2: Seq<char>| !(f2 == flow && u2 == username@) implies #[trigger] find_hs(
                        self.handshakes@,
                        f2,
                        u2,
                    ) == find_hs(s0, f2, u2) by {
                        lemma_find_hs_remove_other(s0, i as int, f2, u2);
                    }
                }
            },
            None => {},
        }
    }

    /// Reads the payload under (flow, username); `None` once expired.
    fn get_hs(&self, flow: Flow, username: &str, now_ms: u64) -> (r: Option<Vec<u8>>)
        ensures
            match r {
                Some(v) => self.spec_live_payload(flow, username@, now_ms) == Some(v@),
                None => self.spec_live_payload(flow, username@, now_ms) is None,
            },
    {
        match self.find_hs_index(flow, username) {
            Some(i) => {
                let live = match self.handshakes[i].expires_at {
                    None => true,
                    Some(x) => now_ms < x,
                };
                if live {
                    Some(clone_bytes(&self.handshakes[i].payload))
                } else {
                    None
                }
            },
            None => None,
        }
    }

    /// Whether a live entry under (flow, username) is younger than `window`.
    fn throttled(&self, flow: Flow, username: &str, window: u64, now_ms: u64) -> (r: bool)
        requires
            self.wf(),
            window <= STATE_TTL_MS,
        ensures
            r == self.spec_throttled(flow, username@, window, now_ms),
    {
        match self.find_hs_index(flow, username) {
            Some(i) => {
                let live = match self.handshakes[i].expires_at {
                    None => true,
                    Some(x) => now_ms < x,
                };
                live && now_ms < self.handshakes[i].created_at + window
            },
            None => false,
        }
    }

    /// An empty store.
    pub fn new() -> (r: Self)
        ensures
            r.wf(),
            forall|flow: Flow, u: Seq<char>| #[trigger] r.spec_state(flow, u) is None,
            forall|u: Seq<char>| #[trigger] r.spec_profile(u) is None,
    {
        AuthenticationData { handshakes: Vec::new(), profiles: Vec::new() }
    }

    /// Stores registration handshake state, stamping it with `now_ms` and
    /// arming the absolute expiry; any prior entry is replaced.
    pub fn set_registration_state(&mut self, username: &str, state: Vec<u8>, now_ms: u64)
        requires
            old(self).wf(),
            now_ms <= MAX_CLOCK_MS,
        ensures
            final(self).wf(),
            final(self).profiles == old(self).profiles,
            (match final(self).spec_state(Flow::Registration, username@) {
                Some(e) => e.username@ == username@ && e.payload@ == state@ && e.created_at
                    == now_ms && (e.expires_at matches Some(x) && x == now_ms + STATE_TTL_MS),
                None => false,
            }),
            forall|f2: Flow, u2: Seq<char>|
                !(f2 == Flow::Registration && u2 == username@) ==> #[trigger] final(self).spec_state(f2, u2) == old(self).spec_state(f2, u2),
    {
        let expiry = now_ms + STATE_TTL_MS;
        self.put_hs(Flow::Registration, username, state, now_ms, Some(expiry));
    }

    /// The live registration state, or `None` if absent or expired.
    pub fn get_registration_state(&self, username: &str, now_ms: u64) -> (r: Option<Vec<u8>>)
        ensures
            match r {
                Some(v) => self.spec_live_payload(Flow::Registration, username@, now_ms) == Some(
                    v@,
                ),
                None => self.spec_live_payload(Flow::Registration, username@, now_ms) is None,
            },
    {
        self.get_hs(Flow::Registration, username, now_ms)
    }

    /// Deletes the registration state, if any.
    pub fn remove_registration_state(&mut self, username: &str)
        requires
            old(self).wf(),
        ensures
            final(self).wf(),
            final(self).profiles == old(self).profiles,
            final(self).spec_state(Flow::Registration, username@) is None,
            forall|f2: Flow, u2: Seq<char>|
                !(f2 == Flow::Registration && u2 == username@) ==> #[trigger] final(self).spec_state(f2, u2) == old(self).spec_state(f2, u2),
    {
        self.del_hs(Flow::Registration, username);
    }

    /// Whether a registration attempt is still inside the 15-second window.
    pub fn too_many_registration_attempts(&self, username: &str, now_ms: u64) -> (r: bool)
        requires
            self.wf(),
        ensures
            r == self.spec_throttled(
                Flow::Registration,
                username@,
                REGISTRATION_WINDOW_MS,
                now_ms,
            ),
    {
        self.throttled(Flow::Registration, username, REGISTRATION_WINDOW_MS, now_ms)
    }

    /// Stores login handshake state, stamped and expiring like
    /// registration state.
    pub fn set_login_state(&mut self, username: &str, state: Vec<u8>, now_ms: u64)
        requires
            old(self).wf(),
            now_ms <= MAX_CLOCK_MS,
        ensures
            final(self).wf(),
            final(self).profiles == old(self).profiles,
            (match final(self).spec_state(Flow::Login, username@) {
                Some(e) => e.username@ == username@ && e.payload@ == state@ && e.created_at
                    == now_ms && (e.expires_at matches Some(x) && x == now_ms + STATE_TTL_MS),
                None => false,
            }),
            forall|f2: Flow, u2: Seq<char>|
                !(f2 == Flow::Login && u2 == username@) ==> #[trigger] final(self).spec_state(f2, u2) == old(self).spec_state(f2, u2),
    {
        let expiry = now_ms + STATE_TTL_MS;
        self.put_hs(Flow::Login, username, state, now_ms, Some(expiry));
    }

    /// The live login state, or `None` if absent or expired.
    pub fn get_login_state(&self, username: &str, now_ms: u64) -> (r: Option<Vec<u8>>)
        ensures
            match r {
                Some(v) => self.spec_live_payload(Flow::Login, username@, now_ms) == Some(v@),
                None => self.spec_live_payload(Flow::Login, username@, now_ms) is None,
            },
    {
        self.get_hs(Flow::Login, username, now_ms)
    }

    /// Deletes the login state, if any.
    pub fn remove_login_state(&mut self, username: &str)
        requires
            old(self).wf(),
        ensures
            final(self).wf(),
            final(self).profiles == old(self).profiles,
            final(self).spec_state(Flow::Login, username@) is None,
            forall|f2: Flow, u2: Seq<char>|
                !(f2 == Flow::Login && u2 == username@) ==> #[trigger] final(self).spec_state(f2, u2) == old(self).spec_state(f2, u2),
    {
        self.del_hs(Flow::Login, username);
    }

    /// Whether a login attempt is still inside the 5-second window.
    pub fn too_many_login_attempts(&self, username: &str, now_ms: u64) -> (r: bool)
        requires
            self.wf(),
        ensures
            r == self.spec_throttled(Flow::Login, username@, LOGIN_WINDOW_MS, now_ms),
    {
        self.throttled(Flow::Login, username, LOGIN_WINDOW_MS, now_ms)
    }

    /// Stores the issued session key.  Session records live in the login
    /// keyspace and carry no expiry, so this write replaces any login
    /// handshake state under the same username.
    pub fn set_login_session(&mut self, username: &str, session_key: &Vec<u8>, now_ms: u64)
        requires
            old(self).wf(),
            now_ms <= MAX_CLOCK_MS,
        ensures
            final(self).wf(),
            final(self).profiles == old(self).profiles,
            (match final(self).spec_state(Flow::Login, username@) {
                Some(e) => e.username@ == username@ && e.payload@ == session_key@ && e.created_at
                    == now_ms && e.expires_at is None,
                None => false,
            }),
            forall|f2: Flow, u2: Seq<char>|
                !(f2 == Flow::Login && u2 == username@) ==> #[trigger] final(self).spec_state(f2, u2) == old(self).spec_state(f2, u2),
    {
        let payload = clone_bytes(session_key);
        self.put_hs(Flow::Login, username, payload, now_ms, None);
    }

    /// Whether a session grant is still inside the 5-second window; read
    /// from the same keyspace as the login state, as the shared layout
    /// has it.
    pub fn too_many_login_sessions_attempts(&self, username: &str, now_ms: u64) -> (r: bool)
        requires
            self.wf(),
        ensures
            r == self.spec_throttled(Flow::Login, username@, SESSION_WINDOW_MS, now_ms),
    {
        self.throttled(Flow::Login, username, SESSION_WINDOW_MS, now_ms)
    }

    /// The stored session key, read from the shared login keyspace.
    pub fn get_login_session(&self, username: &str, now_ms: u64) -> (r: Option<Vec<u8>>)
        ensures
            match r {
                Some(v) => self.spec_live_payload(Flow::Login, username@, now_ms) == Some(v@),
                None => self.spec_live_payload(Flow::Login, username@, now_ms) is None,
            },
    {
        self.get_hs(Flow::Login, username, now_ms)
    }

    /// Deletes the session record from the shared login keyspace.
    pub fn remove_login_session(&mut self, username: &str)
        requires
            old(self).wf(),
        ensures
            final(self).wf(),
            final(self).profiles == old(self).profiles,
            final(self).spec_state(Flow::Login, username@) is None,
            forall|f2: Flow, u2: Seq<char>|
                !(f2 == Flow::Login && u2 == username@) ==> #[trigger] final(self).spec_state(f2, u2) == old(self).spec_state(f2, u2),
    {
        self.del_hs(Flow::Login, username);
    }

    /// Writes (or overwrites) the account record under `username`.
    pub fn save_profile(
        &mut self,
        username: &str,
        profile: &UserProfile,
        version: u8,
        locked: bool,
        email_verified: bool,
    )
        requires
            old(self).wf(),
        ensures
            final(self).wf(),
            final(self).handshakes == old(self).handshakes,
            (match final(self).spec_profile(username@) {
                Some(en) => en.username@ == username@ && en.profile == *profile && en.metadata
                    == (UserProfileMetadata { v: version, e: email_verified, l: locked }),
                None => false,
            }),
            forall|u2: Seq<char>|
                u2 != username@ ==> #[trigger] final(self).spec_profile(u2) == old(self).spec_profile(u2),
    {
        let entry = ProfileEntry {
            username: String::from_str(username),
            profile: clone_profile(profile),
            metadata: UserProfileMetadata { v: version, e: email_verified, l: locked },
        };
        let found = self.find_pr_index(username);
        let ghost s0 = self.profiles@;
        match found {
            Some(i) => {
                self.profiles.remove(i);
                let ghost s1 = self.profiles@;
                self.profiles.push(entry);
                proof {
                    lemma_find_pr_remove_same(s0, i as int, username@);
                    lemma_pr_unique_remove(s0, i as int);
                    lemma_pr_unique_push(s1, entry);
                    lemma_find_pr_push(s1, entry, username@);
                    assert forall|u2: Seq<char>| u2 != username@ implies #[trigger] find_pr(
                        self.profiles@,
                        u2,
                    ) == find_pr(s0, u2) by {
                        lemma_find_pr_remove_other(s0, i as int, u2);
                        lemma_find_pr_push(s1, entry, u2);
                    }
                }
            },
            None => {
                self.profiles.push(entry);
                proof {
                    lemma_pr_unique_push(s0, entry);
                    lemma_find_pr_push(s0, entry, username@);
                    assert forall|u2: Seq<char>| u2 != username@ implies #[trigger] find_pr(
                        self.profiles@,
                        u2,
                    ) == find_pr(s0, u2) by {
                        lemma_find_pr_push(s0, entry, u2);
                    }
                }
            },
        }
    }

    /// The account record and its metadata, as owned copies.
    pub fn get_profile(&self, username: &str) -> (r: Option<(UserProfile, UserProfileMetadata)>)
        ensures
            match r {
                Some(pm) => self.spec_profile(username@) matches Some(en) && en.profile == pm.0
                    && en.metadata == pm.1,
                None => self.spec_profile(username@) is None,
            },
    {
        match self.find_pr_index(username) {
            Some(i) => {
                let p = clone_profile(&self.profiles[i].profile);
                let m = self.profiles[i].metadata;
                Some((p, m))
            },
            None => None,
        }
    }

    /// Whether a record exists in the active or locked phase.
    pub fn username_already_registered(&self, username: &str) -> (r: bool)
        ensures
            r == self.spec_exists(username@),
    {
        match self.find_pr_index(username) {
            Some(i) => {
                let m = self.profiles[i].metadata;
                m.e || m.l
            },
            None => false,
        }
    }

    /// Whether a record exists in the pending phase, still waiting for
    /// its mail confirmation.
    pub fn username_already_registered_waiting_mail_confirm(&self, username: &str) -> (r: bool)
        ensures
            r == self.spec_exists_pending(username@),
    {
        match self.find_pr_index(username) {
            Some(i) => {
                let m = self.profiles[i].metadata;
                !m.e && !m.l
            },
            None => false,
        }
    }
}

} // verus!
