//! The session registry: one entry per viewer connection, each holding the
//! two rendezvous slots of the WHIP/WHEP handshake.
//!
//! The registry is viewed as a map from connection id to slot contents.
//! Saving an offer rewrites its setup role to `active`, saving an answer
//! rewrites it to `passive`; the wait operations hand back exactly what the
//! matching save stored, and report the rendezvous as missed when no save
//! has happened.

use vstd::prelude::*;

use crate::errors::MyError;
use crate::sdp::SessionDescription;
use crate::sdp::active_rewrite;
use crate::sdp::passive_rewrite;

verus! {

/// The hard upper bound, in seconds, on waiting for an offer or answer.
pub const MAX_WAIT_SECS: u64 = 10;

/// The ceiling, in seconds, on waiting for the registry-wide lock.
pub const LOCK_TIMEOUT_SECS: u64 = 5;

/// What one connection's rendezvous slots hold.
pub ghost struct ConnectionView {
    pub whip_offer: Option<Seq<char>>,
    pub whep_answer: Option<Seq<char>>,
}

/// A fresh connection: both slots empty.
pub open spec fn empty_connection() -> ConnectionView {
    ConnectionView { whip_offer: None, whep_answer: None }
}

/// The offer slot of `id`, or nothing when `id` is unknown.
pub open spec fn spec_offer_of(m: Map<Seq<char>, ConnectionView>, id: Seq<char>) -> Option<
    Seq<char>,
> {
    if m.contains_key(id) {
        m[id].whip_offer
    } else {
        None
    }
}

/// The answer slot of `id`, or nothing when `id` is unknown.
pub open spec fn spec_answer_of(m: Map<Seq<char>, ConnectionView>, id: Seq<char>) -> Option<
    Seq<char>,
> {
    if m.contains_key(id) {
        m[id].whep_answer
    } else {
        None
    }
}

/// The registry after an offer for `id` is saved: the offer slot holds the
/// offer with its setup role rewritten to `active`.
pub open spec fn spec_save_whip_offer(
    m: Map<Seq<char>, ConnectionView>,
    id: Seq<char>,
    offer: Seq<char>,
) -> Map<Seq<char>, ConnectionView> {
    m.insert(
        id,
        ConnectionView { whip_offer: Some(active_rewrite(offer)), whep_answer: m[id].whep_answer },
    )
}

/// The registry after an answer for `id` is saved: the answer slot holds
/// the answer with its setup role rewritten to `passive`.
pub open spec fn spec_save_whep_answer(
    m: Map<Seq<char>, ConnectionView>,
    id: Seq<char>,
    answer: Seq<char>,
) -> Map<Seq<char>, ConnectionView> {
    m.insert(
        id,
        ConnectionView {
            whip_offer: m[id].whip_offer,
            whep_answer: Some(passive_rewrite(answer)),
        },
    )
}

/// One registered connection.
#[derive(Debug)]
pub struct Connection {
    id: String,
    whip_offer: Option<SessionDescription>,
    whep_answer: Option<SessionDescription>,
}

impl View for Connection {
    type V = ConnectionView;

    closed spec fn view(&self) -> ConnectionView {
        ConnectionView {
            whip_offer: match self.whip_offer {
                Some(sd) => Some(sd@),
                None => None,
            },
            whep_answer: match self.whep_answer {
                Some(sd) => Some(sd@),
                None => None,
            },
        }
    }
}

impl Connection {
    /// The id this connection is registered under.
    pub closed spec fn spec_id(&self) -> Seq<char> {
        self.id@
    }

    /// The id this connection is registered under.
    pub fn id(&self) -> (r: &String)
        ensures
            r@ == self.spec_id(),
    {
        &self.id
    }

    /// The stored WHIP offer, if one was saved.
    pub fn whip_offer(&self) -> (r: &Option<SessionDescription>)
        ensures
            r matches Some(sd) ==> self@.whip_offer == Some(sd@),
            r is None ==> self@.whip_offer is None,
    {
        &self.whip_offer
    }

    /// The stored WHEP answer, if one was saved.
    pub fn whep_answer(&self) -> (r: &Option<SessionDescription>)
        ensures
            r matches Some(sd) ==> self@.whep_answer == Some(sd@),
            r is None ==> self@.whep_answer is None,
    {
        &self.whep_answer
    }
}

impl Clone for Connection {
    fn clone(&self) -> (r: Self)
        ensures
            r@ == self@,
            r.spec_id() == self.spec_id(),
    {
        Connection {
            id: self.id.clone(),
            whip_offer: match &self.whip_offer {
                Some(sd) => Some(sd.clone()),
                None => None,
            },
            whep_answer: match &self.whep_answer {
                Some(sd) => Some(sd.clone()),
                None => None,
            },
        }
    }
}

/// The registry as a map: later entries of the backing vector win, though
/// under `distinct_ids` every id occurs at most once.
spec fn map_of(s: Seq<Connection>) -> Map<Seq<char>, ConnectionView>
    decreases s.len(),
{
    if s.len() == 0 {
        Map::empty()
    } else {
        map_of(s.drop_last()).insert(s.last().spec_id(), s.last()@)
    }
}

/// Some entry of `s` carries the id `k`.
spec fn has_id(s: Seq<Connection>, k: Seq<char>) -> bool {
    exists|i: int| 0 <= i < s.len() && s[i].spec_id() == k
}

/// No two entries of `s` carry the same id.
spec fn distinct_ids(s: Seq<Connection>) -> bool {
    forall|i: int, j: int| 0 <= i < j < s.len() ==> s[i].spec_id() != s[j].spec_id()
}

proof fn lemma_map_of_dom(s: Seq<Connection>)
    ensures
        forall|k: Seq<char>| #[trigger] map_of(s).contains_key(k) <==> has_id(s, k),
    decreases s.len(),
{
    if s.len() > 0 {
        let d = s.drop_last();
        lemma_map_of_dom(d);
        assert forall|k: Seq<char>| #[trigger] map_of(s).contains_key(k) implies has_id(s, k) by {
            if k == s.last().spec_id() {
                assert(s[s.len() - 1].spec_id() == k);
            } else {
                assert(map_of(d).contains_key(k));
                assert(has_id(d, k));
                let i = choose|i: int| 0 <= i < d.len() && d[i].spec_id() == k;
                assert(d[i] == s[i]);
                assert(s[i].spec_id() == k);
            }
        }
        assert forall|k: Seq<char>| has_id(s, k) implies #[trigger] map_of(s).contains_key(k) by {
            let i = choose|i: int| 0 <= i < s.len() && s[i].spec_id() == k;
            if i < s.len() - 1 {
                assert(d[i].spec_id() == k);
                assert(has_id(d, k));
            }
        }
    }
}

proof fn lemma_map_of_index(s: Seq<Connection>, i: int)
    requires
        distinct_ids(s),
        0 <= i < s.len(),
    ensures
        map_of(s).contains_key(s[i].spec_id()),
        map_of(s)[s[i].spec_id()] == s[i]@,
    decreases s.len(),
{
    if i < s.len() - 1 {
        let d = s.drop_last();
        assert(distinct_ids(d));
        lemma_map_of_index(d, i);
        assert(s.last().spec_id() != s[i].spec_id());
    }
}

proof fn lemma_map_of_push(s: Seq<Connection>, c: Connection)
    ensures
        map_of(s.push(c)) == map_of(s).insert(c.spec_id(), c@),
{
    assert(s.push(c).drop_last() =~= s);
    assert(s.push(c).last() == c);
}

proof fn lemma_distinct_remove(s: Seq<Connection>, i: int)
    requires
        distinct_ids(s),
        0 <= i < s.len(),
    ensures
        distinct_ids(s.remove(i)),
{
    assert forall|j: int, k: int|
        0 <= j < k < s.remove(i).len() implies s.remove(i)[j].spec_id() != s.remove(
        i,
    )[k].spec_id() by {
        let j0: int = if j < i {
            j
        } else {
            j + 1
        };
        let k0: int = if k < i {
            k
        } else {
            k + 1
        };
        assert(s.remove(i)[j] == s[j0]);
        assert(s.remove(i)[k] == s[k0]);
    }
}

proof fn lemma_map_of_remove(s: Seq<Connection>, i: int)
    requires
        distinct_ids(s),
        0 <= i < s.len(),
    ensures
        map_of(s.remove(i)) =~= map_of(s).remove(s[i].spec_id()),
    decreases s.len(),
{
    let d = s.drop_last();
    lemma_map_of_dom(d);
    if i == s.len() - 1 {
        assert(s.remove(i) =~= d);
        assert(!has_id(d, s[i].spec_id()));
        assert(map_of(s).remove(s[i].spec_id()) =~= map_of(d));
    } else {
        assert(distinct_ids(d));
        lemma_map_of_remove(d, i);
        assert(s.remove(i).drop_last() =~= d.remove(i));
        assert(s.remove(i).last() == s.last());
        assert(d[i] == s[i]);
        assert(map_of(s.remove(i)) == map_of(d.remove(i)).insert(s.last().spec_id(), s.last()@));
        assert(map_of(d).remove(s[i].spec_id()).insert(s.last().spec_id(), s.last()@)
            =~= map_of(d).insert(s.last().spec_id(), s.last()@).remove(s[i].spec_id()));
    }
}

proof fn lemma_map_of_update(s: Seq<Connection>, i: int, c: Connection)
    requires
        distinct_ids(s),
        0 <= i < s.len(),
        c.spec_id() == s[i].spec_id(),
    ensures
        map_of(s.update(i, c)) =~= map_of(s).insert(s[i].spec_id(), c@),
        distinct_ids(s.update(i, c)),
    decreases s.len(),
{
    assert forall|j: int, k: int|
        0 <= j < k < s.update(i, c).len() implies s.update(i, c)[j].spec_id() != s.update(
        i,
        c,
    )[k].spec_id() by {
        assert(s[j].spec_id() != s[k].spec_id());
    }
    if i == s.len() - 1 {
        assert(s.update(i, c).drop_last() =~= s.drop_last());
        assert(s.update(i, c).last() == c);
    } else {
        let d = s.drop_last();
        assert(distinct_ids(d));
        lemma_map_of_update(d, i, c);
        assert(s.update(i, c).drop_last() =~= d.update(i, c));
        assert(s.update(i, c).last() == s.last());
        assert(d[i] == s[i]);
        assert(map_of(d).insert(s[i].spec_id(), c@).insert(s.last().spec_id(), s.last()@)
            =~= map_of(d).insert(s.last().spec_id(), s.last()@).insert(s[i].spec_id(), c@));
    }
}

/// The in-memory registry of viewer connections.
pub struct AppState {
    connections: Vec<Connection>,
}

impl View for AppState {
    type V = Map<Seq<char>, ConnectionView>;

    closed spec fn view(&self) -> Map<Seq<char>, ConnectionView> {
        map_of(self.connections@)
    }
}

impl AppState {
    /// The registry never holds two entries under one id.
    pub closed spec fn wf(&self) -> bool {
        distinct_ids(self.connections@)
    }

    /// An empty registry.
    pub fn new() -> (r: AppState)
        ensures
            r.wf(),
            r@ == Map::<Seq<char>, ConnectionView>::empty(),
    {
        AppState { connections: Vec::new() }
    }

    /// The position of `id` in the backing vector.
    fn find_index(&self, id: &String) -> (r: Option<usize>)
        ensures
            r matches Some(i) ==> i < self.connections@.len() && self.connections@[
                i as int
            ].spec_id() == id@,
            r is None ==> !has_id(self.connections@, id@),
    {
        let n = self.connections.len();
        let mut i: usize = 0;
        while i < n
            invariant
                n == self.connections@.len(),
                0 <= i <= n,
                forall|k: int| 0 <= k < i ==> self.connections@[k].spec_id() != id@,
            decreases n - i,
        {
            if self.connections[i].id.eq(id) {
                return Some(i);
            }
            i += 1;
        }
        None
    }

    /// Drops every connection.
    pub fn reset(&mut self)
        ensures
            final(self).wf(),
            final(self)@ == Map::<Seq<char>, ConnectionView>::empty(),
    {
        self.connections.clear();
    }

    /// Whether a connection with this id is registered.
    pub fn has_connection(&self, id: String) -> (r: bool)
        ensures
            r == self@.contains_key(id@),
    {
        proof {
            lemma_map_of_dom(self.connections@);
        }
        match self.find_index(&id) {
            Some(_) => {
                proof {
                    assert(has_id(self.connections@, id@));
                }
                true
            },
            None => false,
        }
    }

    /// Registers a fresh, empty connection under `id`; an id that is
    /// already present is refused.
    pub fn add_connection(&mut self, id: String) -> (r: Result<(), MyError>)
        requires
            old(self).wf(),
        ensures
            final(self).wf(),
            old(self)@.contains_key(id@) ==> (r matches Err(MyError::RepeatedConnection(e))
                && e@ == id@ && final(self)@ == old(self)@),
            !old(self)@.contains_key(id@) ==> r is Ok && final(self)@ == old(self)@.insert(
                id@,
                empty_connection(),
            ),
    {
        proof {
            lemma_map_of_dom(self.connections@);
        }
        match self.find_index(&id) {
            Some(_) => {
                proof {
                    assert(has_id(self.connections@, id@));
                }
                Err(MyError::RepeatedConnection(id))
            },
            None => {
                let c = Connection { id, whip_offer: None, whep_answer: None };
                proof {
                    lemma_map_of_push(self.connections@, c);
                }
                self.connections.push(c);
                Ok(())
            },
        }
    }

    /// Unregisters `id`; an unknown id is reported as not found.
    pub fn remove_connection(&mut self, id: String) -> (r: Result<(), MyError>)
        requires
            old(self).wf(),
        ensures
            final(self).wf(),
            old(self)@.contains_key(id@) ==> r is Ok && final(self)@ == old(self)@.remove(id@),
            !old(self)@.contains_key(id@) ==> (r matches Err(MyError::ConnectionNotFound(e))
                && e@ == id@ && final(self)@ == old(self)@),
    {
        proof {
            lemma_map_of_dom(self.connections@);
        }
        match self.find_index(&id) {
            Some(i) => {
                proof {
                    assert(has_id(self.connections@, id@));
                    lemma_map_of_remove(self.connections@, i as int);
                    lemma_distinct_remove(self.connections@, i as int);
                }
                self.connections.remove(i);
                Ok(())
            },
            None => Err(MyError::ConnectionNotFound(id)),
        }
    }

    /// A snapshot of the registered ids, in no promised order.
    pub fn list_connections(&self) -> (r: Vec<String>)
        requires
            self.wf(),
        ensures
            forall|k: Seq<char>| #[trigger] self@.contains_key(k) <==> exists|i: int|
                0 <= i < r@.len() && r@[i]@ == k,
            forall|i: int, j: int| 0 <= i < j < r@.len() ==> r@[i]@ != r@[j]@,
    {
        let n = self.connections.len();
        let mut r: Vec<String> = Vec::new();
        let mut i: usize = 0;
        while i < n
            invariant
                n == self.connections@.len(),
                0 <= i <= n,
                r@.len() == i,
                forall|k: int| 0 <= k < i ==> r@[k]@ == self.connections@[k].spec_id(),
            decreases n - i,
        {
            r.push(self.connections[i].id.clone());
            i += 1;
        }
        proof {
            lemma_map_of_dom(self.connections@);
            assert forall|k: Seq<char>| #[trigger] self@.contains_key(k) implies exists|i: int|
                0 <= i < r@.len() && r@[i]@ == k by {
                let i = choose|i: int|
                    0 <= i < self.connections@.len() && self.connections@[i].spec_id() == k;
                assert(r@[i]@ == k);
            }
            assert forall|k: Seq<char>|
                (exists|i: int| 0 <= i < r@.len() && r@[i]@ == k) implies #[trigger] self@.contains_key(
                k,
            ) by {
                let i = choose|i: int| 0 <= i < r@.len() && r@[i]@ == k;
                assert(self.connections@[i].spec_id() == k);
                assert(has_id(self.connections@, k));
            }
        }
        r
    }

    /// A copy of the connection registered under `id`.
    pub fn get_connection(&self, id: String) -> (r: Result<Connection, MyError>)
        requires
            self.wf(),
        ensures
            self@.contains_key(id@) ==> (r matches Ok(c) && c@ == self@[id@] && c.spec_id() == id@),
            !self@.contains_key(id@) ==> (r matches Err(MyError::ConnectionNotFound(e)) && e@
                == id@),
    {
        proof {
            lemma_map_of_dom(self.connections@);
        }
        match self.find_index(&id) {
            Some(i) => {
                proof {
                    assert(has_id(self.connections@, id@));
                    lemma_map_of_index(self.connections@, i as int);
                }
                Ok(self.connections[i].clone())
            },
            None => Err(MyError::ConnectionNotFound(id)),
        }
    }

    /// Saves the WHIP sink's offer for `id`, rewriting its setup role to
    /// `active`, and leaves the answer slot as it was.
    pub fn save_whip_offer(&mut self, id: String, offer: SessionDescription) -> (r: Result<
        (),
        MyError,
    >)
        requires
            old(self).wf(),
        ensures
            final(self).wf(),
            old(self)@.contains_key(id@) ==> r is Ok && final(self)@ == spec_save_whip_offer(
                old(self)@,
                id@,
                offer@,
            ),
            !old(self)@.contains_key(id@) ==> (r matches Err(MyError::ConnectionNotFound(e))
                && e@ == id@ && final(self)@ == old(self)@),
    {
        proof {
            lemma_map_of_dom(self.connections@);
        }
        match self.find_index(&id) {
            Some(i) => {
                proof {
                    assert(has_id(self.connections@, id@));
                    lemma_map_of_index(self.connections@, i as int);
                }
                let mut offer = offer;
                offer.set_as_active();
                let mut c = self.connections[i].clone();
                c.whip_offer = Some(offer);
                proof {
                    lemma_map_of_update(self.connections@, i as int, c);
                }
                self.connections.set(i, c);
                Ok(())
            },
            None => Err(MyError::ConnectionNotFound(id)),
        }
    }

    /// Saves the viewer's answer for `id`, rewriting its setup role to
    /// `passive`, and leaves the offer slot as it was.
    pub fn save_whep_answer(&mut self, id: String, answer: SessionDescription) -> (r: Result<
        (),
        MyError,
    >)
        requires
            old(self).wf(),
        ensures
            final(self).wf(),
            old(self)@.contains_key(id@) ==> r is Ok && final(self)@ == spec_save_whep_answer(
                old(self)@,
                id@,
                answer@,
            ),
            !old(self)@.contains_key(id@) ==> (r matches Err(MyError::ConnectionNotFound(e))
                && e@ == id@ && final(self)@ == old(self)@),
    {
        proof {
            lemma_map_of_dom(self.connections@);
        }
        match self.find_index(&id) {
            Some(i) => {
                proof {
                    assert(has_id(self.connections@, id@));
                    lemma_map_of_index(self.connections@, i as int);
                }
                let mut answer = answer;
                answer.set_as_passive();
                let mut c = self.connections[i].clone();
                c.whep_answer = Some(answer);
                proof {
                    lemma_map_of_update(self.connections@, i as int, c);
                }
                self.connections.set(i, c);
                Ok(())
            },
            None => Err(MyError::ConnectionNotFound(id)),
        }
    }

    /// Resolves the offer half of the rendezvous for `id`: the saved offer
    /// when one is there, and the missed rendezvous otherwise. The caller
    /// waits for the offer notification or its deadline before resolving.
    pub fn wait_on_whip_offer(&self, id: String) -> (r: Result<SessionDescription, MyError>)
        requires
            self.wf(),
        ensures
            !self@.contains_key(id@) ==> (r matches Err(MyError::ConnectionNotFound(e)) && e@
                == id@),
            self@.contains_key(id@) && self@[id@].whip_offer is Some ==> (r matches Ok(sd)
                && Some(sd@) == spec_offer_of(self@, id@)),
            self@.contains_key(id@) && self@[id@].whip_offer is None ==> r matches Err(
                MyError::OfferMissing,
            ),
    {
        proof {
            lemma_map_of_dom(self.connections@);
        }
        match self.find_index(&id) {
            Some(i) => {
                proof {
                    assert(has_id(self.connections@, id@));
                    lemma_map_of_index(self.connections@, i as int);
                }
                match &self.connections[i].whip_offer {
                    Some(sd) => Ok(sd.clone()),
                    None => Err(MyError::OfferMissing),
                }
            },
            None => Err(MyError::ConnectionNotFound(id)),
        }
    }

    /// Resolves the answer half of the rendezvous for `id`: the saved
    /// answer when one is there, and the missed rendezvous otherwise. The
    /// caller waits for the answer notification or its deadline before
    /// resolving.
    pub fn wait_on_whep_answer(&self, id: String) -> (r: Result<SessionDescription, MyError>)
        requires
            self.wf(),
        ensures
            !self@.contains_key(id@) ==> (r matches Err(MyError::ConnectionNotFound(e)) && e@
                == id@),
            self@.contains_key(id@) && self@[id@].whep_answer is Some ==> (r matches Ok(sd)
                && Some(sd@) == spec_answer_of(self@, id@)),
            self@.contains_key(id@) && self@[id@].whep_answer is None ==> r matches Err(
                MyError::AnswerMissing,
            ),
    {
        proof {
            lemma_map_of_dom(self.connections@);
        }
        match self.find_index(&id) {
            Some(i) => {
                proof {
                    assert(has_id(self.connections@, id@));
                    lemma_map_of_index(self.connections@, i as int);
                }
                match &self.connections[i].whep_answer {
                    Some(sd) => Ok(sd.clone()),
                    None => Err(MyError::AnswerMissing),
                }
            },
            None => Err(MyError::ConnectionNotFound(id)),
        }
    }
}

/// Law: right after `add_connection(id)` the id is registered, and right
/// after `remove_connection(id)` it is gone.
pub proof fn lemma_add_remove_membership(m: Map<Seq<char>, ConnectionView>, id: Seq<char>)
    ensures
        m.insert(id, empty_connection()).contains_key(id),
        !m.remove(id).contains_key(id),
{
}

/// Law: after a save for a registered id, the matching wait hands back
/// exactly the saved payload with its setup role rewritten, and the most
/// recent of two saves wins.
pub proof fn lemma_rendezvous_round_trip(
    m: Map<Seq<char>, ConnectionView>,
    id: Seq<char>,
    first: Seq<char>,
    second: Seq<char>,
)
    requires
        m.contains_key(id),
    ensures
        spec_offer_of(spec_save_whip_offer(m, id, first), id) == Some(active_rewrite(first)),
        spec_answer_of(spec_save_whep_answer(m, id, first), id) == Some(passive_rewrite(first)),
        spec_offer_of(spec_save_whip_offer(spec_save_whip_offer(m, id, first), id, second), id)
            == Some(active_rewrite(second)),
{
}

/// Law: while no offer has been saved for a registered id, the offer
/// rendezvous yields nothing, so a wait can only end in the timeout report;
/// likewise for the answer.
pub proof fn lemma_wait_without_save(m: Map<Seq<char>, ConnectionView>, id: Seq<char>)
    requires
        m.contains_key(id),
    ensures
        m[id].whip_offer is None ==> spec_offer_of(m, id) is None,
        m[id].whep_answer is None ==> spec_answer_of(m, id) is None,
{
}

} // verus!
