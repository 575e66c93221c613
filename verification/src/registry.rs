use vstd::prelude::*;
use crate::token::RoomToken;

verus! {

/// Signal written to every registering client before any other signal, so the
/// wire protocol looks the same whether a peer was waiting or not.
pub const SIGNAL_WAITING_IN_ROOM: u8 = 1;

/// The one-byte message carrying that signal.
pub fn waiting_notice() -> (msg: Vec<u8>)
    ensures
        msg@ == seq![SIGNAL_WAITING_IN_ROOM],
{
    let mut msg: Vec<u8> = Vec::new();
    msg.push(SIGNAL_WAITING_IN_ROOM);
    proof {
        assert(msg@ =~= seq![SIGNAL_WAITING_IN_ROOM]);
    }
    msg
}

/// The table's value: exclusive ownership of one waiting connection, keyed by
/// its room token.
pub struct RoomEntry<C> {
    pub token: RoomToken,
    pub conn: C,
}

/// What the registry decided for a registering connection.
pub enum RegisterOutcome<C> {
    /// No peer was waiting for this token; the connection was stored.
    Waiting,
    /// A peer was waiting: its entry was removed in the same step, and both
    /// connections — the registering one and the one that was waiting — are
    /// handed to the caller, which owns them exclusively from here on.
    Paired { registering: C, waiting: C },
}

/// How one registration changes the table, stated over the table's map view.
/// A token with a waiting entry is paired with it and cleared; a token
/// without one gains exactly one waiting entry.
pub open spec fn register_transition<C>(
    pre: Map<Seq<u8>, C>,
    token: Seq<u8>,
    conn: C,
    post: Map<Seq<u8>, C>,
    outcome: RegisterOutcome<C>,
) -> bool {
    if pre.dom().contains(token) {
        &&& outcome == (RegisterOutcome::Paired { registering: conn, waiting: pre[token] })
        &&& post == pre.remove(token)
    } else {
        &&& outcome is Waiting
        &&& post == pre.insert(token, conn)
    }
}

/// The room table: at most one waiting connection per token. Callers that
/// serve several connections at once must run `register_or_pair` under one
/// mutual-exclusion section per table, so each call is one atomic
/// lookup-then-mutate step.
pub struct RoomRegistry<C> {
    entries: Vec<RoomEntry<C>>,
}

/// The map an entry sequence denotes; later entries would shadow earlier
/// ones, but well-formed registries never hold a token twice.
spec fn entries_map<C>(s: Seq<RoomEntry<C>>) -> Map<Seq<u8>, C>
    decreases s.len(),
{
    if s.len() == 0 {
        Map::empty()
    } else {
        entries_map(s.drop_last()).insert(s.last().token@, s.last().conn)
    }
}

/// Pairwise-distinct tokens.
spec fn tokens_distinct<C>(s: Seq<RoomEntry<C>>) -> bool {
    forall|i: int, j: int|
        0 <= i < j < s.len() ==> s[i].token@ != s[j].token@
}

/// A sequence with no entry for `token` denotes a map without that key.
proof fn lemma_absent_token<C>(s: Seq<RoomEntry<C>>, token: Seq<u8>)
    requires
        forall|i: int| 0 <= i < s.len() ==> s[i].token@ != token,
    ensures
        !entries_map(s).dom().contains(token),
    decreases s.len(),
{
    if s.len() > 0 {
        assert(forall|i: int| 0 <= i < s.drop_last().len() ==> s.drop_last()[i].token@ != token);
        lemma_absent_token(s.drop_last(), token);
        assert(s.last().token@ != token);
    }
}

/// Removing the entry at `i` from a distinct sequence removes exactly that
/// entry's token from the denoted map.
proof fn lemma_remove_entry<C>(s: Seq<RoomEntry<C>>, i: int)
    requires
        0 <= i < s.len(),
        tokens_distinct(s),
    ensures
        entries_map(s).dom().contains(s[i].token@),
        entries_map(s)[s[i].token@] == s[i].conn,
        entries_map(s.remove(i)) == entries_map(s).remove(s[i].token@),
        tokens_distinct(s.remove(i)),
    decreases s.len(),
{
    let t = s[i].token@;
    let prefix = s.drop_last();
    assert(tokens_distinct(prefix));
    if i == s.len() - 1 {
        assert(s.remove(i) =~= prefix);
        assert(forall|k: int| 0 <= k < prefix.len() ==> prefix[k].token@ != t);
        lemma_absent_token(prefix, t);
        assert(entries_map(s).remove(t) =~= entries_map(prefix));
    } else {
        lemma_remove_entry(prefix, i);
        let lt = s.last().token@;
        assert(lt != t);
        assert(s.remove(i).len() == s.len() - 1);
        assert(s.remove(i).drop_last() =~= prefix.remove(i));
        assert(s.remove(i).last() == s.last());
        assert(entries_map(s.remove(i)) == entries_map(prefix.remove(i)).insert(
            lt,
            s.last().conn,
        ));
        assert(entries_map(prefix).remove(t).insert(lt, s.last().conn) =~= entries_map(
            prefix,
        ).insert(lt, s.last().conn).remove(t));
        assert(tokens_distinct(s.remove(i))) by {
            assert(forall|k: int, l: int|
                0 <= k < l < s.remove(i).len() ==> s.remove(i)[k].token@ != s.remove(i)[l].token@);
        }
    }
}

/// Appending an entry whose token is absent denotes insertion into the map
/// and keeps the tokens distinct.
proof fn lemma_push_entry<C>(s: Seq<RoomEntry<C>>, e: RoomEntry<C>)
    requires
        tokens_distinct(s),
        forall|i: int| 0 <= i < s.len() ==> s[i].token@ != e.token@,
    ensures
        entries_map(s.push(e)) == entries_map(s).insert(e.token@, e.conn),
        tokens_distinct(s.push(e)),
{
    assert(s.push(e).drop_last() =~= s);
    assert(s.push(e).last() == e);
    assert(tokens_distinct(s.push(e))) by {
        assert(forall|k: int, l: int|
            0 <= k < l < s.push(e).len() ==> s.push(e)[k].token@ != s.push(e)[l].token@);
    }
}

/// A distinct sequence denotes a map with one key per entry.
proof fn lemma_entries_dom_size<C>(s: Seq<RoomEntry<C>>)
    requires
        tokens_distinct(s),
    ensures
        entries_map(s).dom().finite(),
        entries_map(s).dom().len() == s.len(),
    decreases s.len(),
{
    if s.len() > 0 {
        let prefix = s.drop_last();
        assert(tokens_distinct(prefix));
        lemma_entries_dom_size(prefix);
        assert(forall|i: int| 0 <= i < prefix.len() ==> prefix[i].token@ != s.last().token@);
        lemma_absent_token(prefix, s.last().token@);
        assert(entries_map(s).dom() =~= entries_map(prefix).dom().insert(s.last().token@));
    }
}

impl<C> View for RoomRegistry<C> {
    type V = Map<Seq<u8>, C>;

    closed spec fn view(&self) -> Map<Seq<u8>, C> {
        entries_map(self.entries@)
    }
}

impl<C> RoomRegistry<C> {
    /// At most one waiting entry per token.
    pub closed spec fn wf(&self) -> bool {
        tokens_distinct(self.entries@)
    }

    /// An empty table.
    pub fn new() -> (registry: Self)
        ensures
            registry.wf(),
            registry@ == Map::<Seq<u8>, C>::empty(),
    {
        let registry = RoomRegistry { entries: Vec::new() };
        proof {
            assert(registry.entries@.len() == 0);
        }
        registry
    }

    /// The index of the entry holding `token`, if one is waiting.
    fn find_token(&self, token: &RoomToken) -> (found: Option<usize>)
        ensures
            match found {
                Some(i) => i < self.entries@.len() && self.entries@[i as int].token@ == token@,
                None => forall|i: int|
                    0 <= i < self.entries@.len() ==> self.entries@[i].token@ != token@,
            },
    {
        let n = self.entries.len();
        let mut i: usize = 0;
        while i < n
            invariant
                n == self.entries@.len(),
                i <= n,
                forall|j: int| 0 <= j < i ==> self.entries@[j].token@ != token@,
            decreases n - i,
        {
            if self.entries[i].token.eq_token(token) {
                return Some(i);
            }
            i += 1;
        }
        None
    }

    /// The atomic lookup-then-mutate step of the room table: of two
    /// registrations for one token, exactly one observes "no peer waiting"
    /// and is stored, and the other takes the stored connection away.
    pub fn register_or_pair(&mut self, token: RoomToken, conn: C) -> (outcome: RegisterOutcome<C>)
        requires
            old(self).wf(),
            token.wf(),
        ensures
            final(self).wf(),
            register_transition(old(self)@, token@, conn, final(self)@, outcome),
    {
        let found = self.find_token(&token);
        match found {
            Some(i) => {
                proof {
                    lemma_remove_entry(self.entries@, i as int);
                }
                let entry = self.entries.remove(i);
                RegisterOutcome::Paired { registering: conn, waiting: entry.conn }
            },
            None => {
                proof {
                    lemma_absent_token(self.entries@, token@);
                }
                let ghost pre = self.entries@;
                let entry = RoomEntry { token, conn };
                proof {
                    lemma_push_entry(pre, entry);
                }
                self.entries.push(entry);
                RegisterOutcome::Waiting
            },
        }
    }

    /// How many connections are waiting, over all tokens.
    pub fn waiting_count(&self) -> (count: usize)
        requires
            self.wf(),
        ensures
            self@.dom().finite(),
            count == self@.dom().len(),
    {
        proof {
            lemma_entries_dom_size(self.entries@);
        }
        self.entries.len()
    }
}

/// Two registrations with one token, linearized by the table's critical
/// section in either order: the first waits, the second is paired with the
/// first's connection, and no entry for the token is left behind — the table
/// ends exactly as it began.
pub proof fn lemma_paired_exactly_once<C>(
    m0: Map<Seq<u8>, C>,
    token: Seq<u8>,
    conn1: C,
    conn2: C,
    m1: Map<Seq<u8>, C>,
    m2: Map<Seq<u8>, C>,
    outcome1: RegisterOutcome<C>,
    outcome2: RegisterOutcome<C>,
)
    requires
        !m0.dom().contains(token),
        register_transition(m0, token, conn1, m1, outcome1),
        register_transition(m1, token, conn2, m2, outcome2),
    ensures
        outcome1 is Waiting,
        outcome2 == (RegisterOutcome::Paired { registering: conn2, waiting: conn1 }),
        !m2.dom().contains(token),
        m2 == m0,
{
    assert(m2 =~= m0);
}

/// One registration with a token nobody is waiting for: the caller waits and
/// the table holds exactly its connection under that token.
pub proof fn lemma_first_arrival_waits<C>(
    m0: Map<Seq<u8>, C>,
    token: Seq<u8>,
    conn: C,
    m1: Map<Seq<u8>, C>,
    outcome: RegisterOutcome<C>,
)
    requires
        !m0.dom().contains(token),
        register_transition(m0, token, conn, m1, outcome),
    ensures
        outcome is Waiting,
        m1.dom().contains(token),
        m1[token] == conn,
        forall|other: Seq<u8>|
            other != token ==> (m1.dom().contains(other) <==> m0.dom().contains(other)),
{
}

} // verus!
