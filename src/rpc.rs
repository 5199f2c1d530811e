//! The JSON-RPC envelope and the table of calls that this side has issued
//! and that still wait for their response.
use vstd::prelude::*;

use crate::error::Error;

verus! {

broadcast use vstd::seq_lib::group_seq_properties;

/// Identifier of a request: a non-negative integer or a string.
///
/// The caller picks it; this side only ever issues integers.
#[derive(Clone, Debug)]
pub enum RequestId {
    Number(u64),
    Str(String),
}

/// What a response carries: the raw JSON text of a result, or an error.
#[derive(Clone, Debug)]
pub enum Outcome {
    Result(String),
    Error(Error),
}

/// One JSON-RPC message. Parameters and results are raw JSON text, carried
/// without being parsed; `None` stands for absent parameters.
#[derive(Clone, Debug)]
pub enum Message {
    Request { id: RequestId, method: String, params: Option<String> },
    Response { id: RequestId, outcome: Outcome },
    Notification { method: String, params: Option<String> },
}

/// The text of an optional string.
pub open spec fn opt_text(o: Option<String>) -> Option<Seq<char>> {
    match o {
        Some(s) => Some(s@),
        None => None,
    }
}

/// A call that this side issued and whose response has not come yet.
#[derive(Debug)]
pub struct PendingCall {
    /// The id of the request.
    pub id: u64,
    /// The method that was called.
    pub method: String,
    /// The session whose cancellation settles this call, if any.
    pub session: Option<String>,
}

/// What a pending call is, as a value.
pub struct CallView {
    pub id: nat,
    pub method: Seq<char>,
    pub session: Option<Seq<char>>,
}

impl View for PendingCall {
    type V = CallView;

    open spec fn view(&self) -> CallView {
        CallView { id: self.id as nat, method: self.method@, session: opt_text(self.session) }
    }
}

/// The table of pending calls, as a value: the next id to issue and the
/// pending calls, in the order in which they were issued.
pub struct CallTable {
    pub next_id: nat,
    pub calls: Seq<CallView>,
}

/// The events that change the table.
pub enum CallEvent {
    /// A new call of `method` is issued, tagged with `session` if any.
    Issue { method: Seq<char>, session: Option<Seq<char>> },
    /// A response with integer id `id` arrives.
    Reply { id: nat },
    /// The session `target` is cancelled.
    CancelSession { target: Seq<char> },
    /// The connection closes.
    Close,
}

/// The ids issued are increasing along the table, and all below the next id.
pub open spec fn table_wf(t: CallTable) -> bool {
    &&& t.next_id <= u64::MAX
    &&& forall|i: int, j: int| 0 <= i < j < t.calls.len() ==> t.calls[i].id < t.calls[j].id
    &&& forall|i: int| 0 <= i < t.calls.len() ==> t.calls[i].id < t.next_id
}

/// The ids of the pending calls.
pub open spec fn outstanding(t: CallTable) -> Set<nat> {
    Set::new(|id: nat| exists|i: int| 0 <= i < t.calls.len() && t.calls[i].id == id)
}

/// The ids of the pending calls of a session.
pub open spec fn session_ids(t: CallTable, session: Seq<char>) -> Set<nat> {
    Set::new(
        |id: nat|
            exists|i: int|
                0 <= i < t.calls.len() && t.calls[i].id == id && t.calls[i].session == Some(
                    session,
                ),
    )
}

/// Whether a call is not the one with the given id.
pub open spec fn other_id(id: nat) -> spec_fn(CallView) -> bool {
    |c: CallView| c.id != id
}

/// Whether a call does not belong to the given session.
pub open spec fn other_session(session: Seq<char>) -> spec_fn(CallView) -> bool {
    |c: CallView| c.session != Some(session)
}

/// Whether a call belongs to the given session.
pub open spec fn in_session(session: Seq<char>) -> spec_fn(CallView) -> bool {
    |c: CallView| c.session == Some(session)
}

/// The table after an event.
pub open spec fn apply_event(t: CallTable, e: CallEvent) -> CallTable {
    match e {
        CallEvent::Issue { method, session } => {
            if t.next_id < u64::MAX {
                CallTable {
                    next_id: t.next_id + 1,
                    calls: t.calls.push(CallView { id: t.next_id, method, session }),
                }
            } else {
                t
            }
        },
        CallEvent::Reply { id } => CallTable {
            next_id: t.next_id,
            calls: t.calls.filter(other_id(id)),
        },
        CallEvent::CancelSession { target } => CallTable {
            next_id: t.next_id,
            calls: t.calls.filter(other_session(target)),
        },
        CallEvent::Close => CallTable { next_id: t.next_id, calls: Seq::empty() },
    }
}

/// The ids of the calls that an event settles.
pub open spec fn settled_by(t: CallTable, e: CallEvent) -> Set<nat> {
    match e {
        CallEvent::Issue { .. } => Set::empty(),
        CallEvent::Reply { id } => outstanding(t).intersect(set![id]),
        CallEvent::CancelSession { target } => session_ids(t, target),
        CallEvent::Close => outstanding(t),
    }
}

/// The ids that an event issues.
pub open spec fn issued_by(t: CallTable, e: CallEvent) -> Set<nat> {
    match e {
        CallEvent::Issue { .. } => if t.next_id < u64::MAX {
            set![t.next_id]
        } else {
            Set::empty()
        },
        _ => Set::empty(),
    }
}

/// Filtering by a predicate that every element meets leaves the sequence.
pub proof fn lemma_filter_keeps_all(s: Seq<CallView>, p: spec_fn(CallView) -> bool)
    requires
        forall|i: int| 0 <= i < s.len() ==> p(s[i]),
    ensures
        s.filter(p) == s,
    decreases s.len(),
{
    if s.len() > 0 {
        lemma_filter_keeps_all(s.drop_last(), p);
        s.drop_last().lemma_filter_push(s.last(), p);
        assert(s.drop_last().push(s.last()) =~= s);
    }
}

/// Filtering by a predicate that only the element at `k` fails removes it.
pub proof fn lemma_filter_drops_one(s: Seq<CallView>, p: spec_fn(CallView) -> bool, k: int)
    requires
        0 <= k < s.len(),
        !p(s[k]),
        forall|i: int| 0 <= i < s.len() && i != k ==> p(s[i]),
    ensures
        s.filter(p) == s.remove(k),
    decreases s.len(),
{
    s.drop_last().lemma_filter_push(s.last(), p);
    assert(s.drop_last().push(s.last()) =~= s);
    if k == s.len() - 1 {
        lemma_filter_keeps_all(s.drop_last(), p);
        assert(s.remove(k) =~= s.drop_last());
    } else {
        lemma_filter_drops_one(s.drop_last(), p, k);
        assert(s.drop_last().remove(k).push(s.last()) =~= s.remove(k));
    }
}

/// Filtering a well-formed table keeps it well formed.
pub proof fn lemma_filter_wf(t: CallTable, p: spec_fn(CallView) -> bool)
    requires
        table_wf(t),
    ensures
        table_wf(CallTable { next_id: t.next_id, calls: t.calls.filter(p) }),
    decreases t.calls.len(),
{
    let s = t.calls;
    if s.len() > 0 {
        let prev = CallTable { next_id: s.last().id, calls: s.drop_last() };
        lemma_filter_wf(prev, p);
        s.drop_last().lemma_filter_push(s.last(), p);
        assert(s.drop_last().push(s.last()) =~= s);
    }
}

/// The pending ids left by a filter are those of the calls that pass it.
pub proof fn lemma_filter_outstanding(t: CallTable, p: spec_fn(CallView) -> bool)
    requires
        table_wf(t),
    ensures
        forall|id: nat|
            #[trigger] outstanding(CallTable { next_id: t.next_id, calls: t.calls.filter(p) }).contains(id)
                <==> exists|i: int| 0 <= i < t.calls.len() && t.calls[i].id == id && p(t.calls[i]),
{
    let f = t.calls.filter(p);
    assert forall|id: nat|
        #[trigger] outstanding(CallTable { next_id: t.next_id, calls: f }).contains(id) implies
        exists|i: int| 0 <= i < t.calls.len() && t.calls[i].id == id && p(t.calls[i]) by {
        let k = choose|k: int| 0 <= k < f.len() && f[k].id == id;
        t.calls.lemma_filter_pred(p, k);
        assert(f.contains(f[k]));
        t.calls.lemma_filter_contains_rev(p, f[k]);
    }
    assert forall|id: nat|
        (exists|i: int| 0 <= i < t.calls.len() && t.calls[i].id == id && p(t.calls[i])) implies
        #[trigger] outstanding(CallTable { next_id: t.next_id, calls: f }).contains(id) by {
        let i = choose|i: int| 0 <= i < t.calls.len() && t.calls[i].id == id && p(t.calls[i]);
        t.calls.lemma_filter_contains(p, i);
    }
}

/// One event: the table stays well formed, the settled calls were pending,
/// and the pending ids are the old ones less the settled, plus the issued.
pub proof fn lemma_event_step(t: CallTable, e: CallEvent)
    requires
        table_wf(t),
    ensures
        table_wf(apply_event(t, e)),
        settled_by(t, e).subset_of(outstanding(t)),
        outstanding(apply_event(t, e)) == outstanding(t).difference(settled_by(t, e)).union(
            issued_by(t, e),
        ),
        t.next_id <= apply_event(t, e).next_id,
        forall|id: nat|
            #[trigger] issued_by(t, e).contains(id) <==> t.next_id <= id < apply_event(t, e).next_id,
        forall|id: nat| #[trigger] outstanding(t).contains(id) ==> id < t.next_id,
{
    let n = apply_event(t, e);
    match e {
        CallEvent::Issue { method, session } => {
            if t.next_id < u64::MAX {
                let c = CallView { id: t.next_id, method, session };
                assert(n.calls == t.calls.push(c));
                assert(n.calls[t.calls.len() as int] == c);
                assert forall|id: nat| #[trigger] outstanding(n).contains(id) <==> outstanding(
                    t,
                ).insert(t.next_id).contains(id) by {
                    if outstanding(t).contains(id) {
                        let i = choose|i: int| 0 <= i < t.calls.len() && t.calls[i].id == id;
                        assert(n.calls[i] == t.calls[i]);
                    }
                    if outstanding(n).contains(id) && id != t.next_id {
                        let i = choose|i: int| 0 <= i < n.calls.len() && n.calls[i].id == id;
                        assert(i < t.calls.len());
                        assert(t.calls[i] == n.calls[i]);
                    }
                }
                assert(outstanding(n) =~= outstanding(t).insert(t.next_id));
            } else {
                assert(outstanding(n) =~= outstanding(t));
            }
        },
        CallEvent::Reply { id } => {
            lemma_filter_wf(t, other_id(id));
            lemma_filter_outstanding(t, other_id(id));
            assert(outstanding(n) =~= outstanding(t).difference(settled_by(t, e)));
        },
        CallEvent::CancelSession { target } => {
            lemma_filter_wf(t, other_session(target));
            lemma_filter_outstanding(t, other_session(target));
            assert forall|id: nat| #[trigger] outstanding(n).contains(id) <==> outstanding(t).difference(
                settled_by(t, e),
            ).contains(id) by {
                if outstanding(t).contains(id) && !settled_by(t, e).contains(id) {
                    let i = choose|i: int| 0 <= i < t.calls.len() && t.calls[i].id == id;
                    assert(other_session(target)(t.calls[i]));
                }
                if outstanding(n).contains(id) {
                    let i = choose|i: int|
                        0 <= i < t.calls.len() && t.calls[i].id == id && other_session(target)(
                            t.calls[i],
                        );
                    if settled_by(t, e).contains(id) {
                        let j = choose|j: int|
                            0 <= j < t.calls.len() && t.calls[j].id == id && t.calls[j].session
                                == Some(target);
                        assert(i == j) by {
                            if i < j {
                                assert(t.calls[i].id < t.calls[j].id);
                            } else if j < i {
                                assert(t.calls[j].id < t.calls[i].id);
                            }
                        }
                    }
                }
            }
            assert(outstanding(n) =~= outstanding(t).difference(settled_by(t, e)));
        },
        CallEvent::Close => {
            assert(outstanding(n) =~= Set::<nat>::empty());
        },
    }
    assert(outstanding(n) =~= outstanding(t).difference(settled_by(t, e)).union(issued_by(t, e)));
}

/// Whether two strings hold the same text.
fn same_text(a: &String, b: &String) -> (r: bool)
    ensures
        r == (a@ == b@),
{
    a.eq(b)
}

impl PendingCall {
    /// Whether this call is tagged with the session `session`.
    pub fn belongs_to(&self, session: &String) -> (r: bool)
        ensures
            r == (self@.session == Some(session@)),
    {
        match &self.session {
            Some(t) => same_text(t, session),
            None => false,
        }
    }
}

/// The table of pending calls of one connection direction.
pub struct PendingCalls {
    next_id: u64,
    calls: Vec<PendingCall>,
}

impl View for PendingCalls {
    type V = CallTable;

    closed spec fn view(&self) -> CallTable {
        CallTable { next_id: self.next_id as nat, calls: self.calls@.map_values(|c: PendingCall| c@) }
    }
}

impl PendingCalls {
    /// The table is well formed.
    pub open spec fn wf(&self) -> bool {
        table_wf(self@)
    }

    /// An empty table whose first id is 0.
    pub fn new() -> (r: PendingCalls)
        ensures
            r.wf(),
            r@.next_id == 0,
            r@.calls.len() == 0,
    {
        let r = PendingCalls { next_id: 0, calls: Vec::new() };
        assert(r@.calls =~= Seq::<CallView>::empty());
        r
    }

    /// Issues a new call of `method`, tagged with `session` if any: it gets a
    /// fresh id, which no pending call has. `None` when the ids are spent.
    pub fn issue(&mut self, method: &str, session: Option<&str>) -> (r: Option<u64>)
        requires
            old(self).wf(),
        ensures
            final(self).wf(),
            final(self)@ == apply_event(
                old(self)@,
                CallEvent::Issue {
                    method: method@,
                    session: match session {
                        Some(s) => Some(s@),
                        None => None,
                    },
                },
            ),
            r is Some <==> old(self)@.next_id < u64::MAX,
            r matches Some(id) ==> id == old(self)@.next_id && !outstanding(old(self)@).contains(
                id as nat,
            ),
    {
        if self.next_id == u64::MAX {
            return None;
        }
        let id = self.next_id;
        let tag = match session {
            Some(s) => Some(s.to_owned()),
            None => None,
        };
        let call = PendingCall { id, method: method.to_owned(), session: tag };
        self.calls.push(call);
        self.next_id = id + 1;
        proof {
            let o = old(self)@;
            let s_v = match session {
                Some(s) => Some(s@),
                None => None,
            };
            assert(self@.calls =~= o.calls.push(CallView { id: id as nat, method: method@, session: s_v }));
            assert(!outstanding(o).contains(id as nat));
        }
        Some(id)
    }
}


impl PendingCalls {
    /// Takes the call with integer id `id` out of the table, if it is pending.
    pub fn take(&mut self, id: u64) -> (r: Option<PendingCall>)
        requires
            old(self).wf(),
        ensures
            final(self).wf(),
            final(self)@ == apply_event(old(self)@, CallEvent::Reply { id: id as nat }),
            r is Some <==> outstanding(old(self)@).contains(id as nat),
            r matches Some(c) ==> c.id == id && old(self)@.calls.contains(c@),
    {
        let ghost o = self@;
        let mut i: usize = 0;
        while i < self.calls.len()
            invariant
                0 <= i <= self.calls.len(),
                self@ == o,
                o == old(self)@,
                table_wf(o),
                forall|k: int| 0 <= k < i ==> o.calls[k].id != id as nat,
            decreases self.calls.len() - i,
        {
            if self.calls[i].id == id {
                let c = self.calls.remove(i);
                proof {
                    assert(o.calls[i as int].id == id as nat);
                    lemma_filter_drops_one(o.calls, other_id(id as nat), i as int);
                    assert(self@.calls =~= o.calls.remove(i as int));
                    assert(outstanding(o).contains(id as nat));
                    assert(c@ == o.calls[i as int]);
                }
                return Some(c);
            }
            i = i + 1;
        }
        proof {
            lemma_filter_keeps_all(o.calls, other_id(id as nat));
            assert(!outstanding(o).contains(id as nat));
        }
        None
    }

    /// Takes every call tagged with `session` out of the table, in the order
    /// in which they were issued; the others stay, in their order.
    pub fn take_session(&mut self, session: &str) -> (r: Vec<PendingCall>)
        requires
            old(self).wf(),
        ensures
            final(self).wf(),
            final(self)@ == apply_event(old(self)@, CallEvent::CancelSession { target: session@ }),
            r@.map_values(|c: PendingCall| c@) == old(self)@.calls.filter(in_session(session@)),
    {
        let ghost o = self@;
        let ghost keep = other_session(session@);
        let ghost gone = in_session(session@);
        let target = session.to_owned();
        let mut taken: Vec<PendingCall> = Vec::new();
        let mut i: usize = 0;
        let ghost mut j: int = 0;
        while i < self.calls.len()
            invariant
                table_wf(o),
                o == old(self)@,
                0 <= i <= self.calls.len(),
                0 <= j <= o.calls.len(),
                self.calls.len() - i == o.calls.len() - j,
                target@ == session@,
                keep == other_session(session@),
                gone == in_session(session@),
                self@.next_id == o.next_id,
                self@.calls.take(i as int) == o.calls.take(j).filter(keep),
                self@.calls.skip(i as int) == o.calls.skip(j),
                taken@.map_values(|c: PendingCall| c@) == o.calls.take(j).filter(gone),
            decreases self.calls.len() - i,
        {
            let hit = self.calls[i].belongs_to(&target);
            proof {
                assert(self@.calls[i as int] == o.calls[j]) by {
                    assert(self@.calls.skip(i as int)[0] == self@.calls[i as int]);
                    assert(o.calls.skip(j)[0] == o.calls[j]);
                }
                assert(self@.calls[i as int] == self.calls@[i as int]@);
                assert(gone(o.calls[j]) == hit);
                assert(keep(o.calls[j]) == !hit);
                o.calls.take(j).lemma_filter_push(o.calls[j], keep);
                o.calls.take(j).lemma_filter_push(o.calls[j], gone);
                assert(o.calls.take(j + 1) =~= o.calls.take(j).push(o.calls[j]));
            }
            if hit {
                let ghost before = self@.calls;
                let ghost before_taken = taken@.map_values(|c: PendingCall| c@);
                let c = self.calls.remove(i);
                taken.push(c);
                proof {
                    assert(self@.calls =~= before.remove(i as int));
                    assert(self@.calls.take(i as int) =~= before.take(i as int));
                    assert forall|k: int| 0 <= k < self@.calls.len() - i implies
                        #[trigger] self@.calls[i + k] == o.calls[j + 1 + k] by {
                        assert(before.skip(i as int)[k + 1] == o.calls.skip(j)[k + 1]);
                    }
                    assert(self@.calls.skip(i as int) =~= o.calls.skip(j + 1));
                    assert(taken@.map_values(|c: PendingCall| c@) =~= before_taken.push(o.calls[j]));
                    assert(o.calls.take(j + 1).filter(keep) == o.calls.take(j).filter(keep));
                    assert(o.calls.take(j + 1).filter(gone) == o.calls.take(j).filter(gone).push(o.calls[j]));
                    j = j + 1;
                }
            } else {
                proof {
                    assert(self@.calls.take(i + 1) =~= self@.calls.take(i as int).push(o.calls[j]));
                    assert(o.calls.take(j + 1).filter(keep) == o.calls.take(j).filter(keep).push(o.calls[j]));
                    assert(o.calls.take(j + 1).filter(gone) == o.calls.take(j).filter(gone));
                    assert forall|k: int| 0 <= k < self@.calls.len() - i - 1 implies
                        #[trigger] self@.calls[i + 1 + k] == o.calls[j + 1 + k] by {
                        assert(self@.calls.skip(i as int)[k + 1] == o.calls.skip(j)[k + 1]);
                    }
                    assert(self@.calls.skip(i + 1) =~= o.calls.skip(j + 1));
                    j = j + 1;
                }
                i = i + 1;
            }
        }
        proof {
            assert(j == o.calls.len()) by {
                assert(self@.calls.skip(i as int).len() == 0);
            }
            assert(o.calls.take(j) =~= o.calls);
            assert(self@.calls.take(i as int) =~= self@.calls);
            assert(self@.calls == o.calls.filter(keep));
            lemma_filter_wf(o, keep);
        }
        taken
    }
}


/// How a call that this side issued was settled.
#[derive(Debug)]
pub enum CallResult {
    /// The peer answered with this raw JSON result.
    Answered(String),
    /// The peer answered with this error.
    Failed(Error),
    /// The session of the call was cancelled.
    Cancelled,
    /// The connection closed while the call was pending.
    ConnectionClosed,
}

/// A settled call, with how it was settled.
#[derive(Debug)]
pub struct Resolution {
    pub call: PendingCall,
    pub result: CallResult,
}

/// What the dispatch loop does with a response that it read.
#[derive(Debug)]
pub enum ResponseAction {
    /// Hand this resolution to the caller that waits for it.
    Resolve(Resolution),
    /// No pending call has this id: report it; the connection stays up.
    Unmatched(RequestId),
}

/// How the outcome of a response settles the call that it answers.
pub open spec fn result_of(o: Outcome) -> CallResult {
    match o {
        Outcome::Result(t) => CallResult::Answered(t),
        Outcome::Error(e) => CallResult::Failed(e),
    }
}

/// Settles each call, in order, as cancelled or as closed.
fn settle_all(calls: Vec<PendingCall>, closed: bool) -> (r: Vec<Resolution>)
    ensures
        r.len() == calls.len(),
        forall|k: int| 0 <= k < r.len() ==> #[trigger] r[k].call == calls[k],
        forall|k: int|
            0 <= k < r.len() ==> if closed {
                #[trigger] r[k].result is ConnectionClosed
            } else {
                r[k].result is Cancelled
            },
{
    let mut rest = calls;
    let mut out: Vec<Resolution> = Vec::new();
    while rest.len() > 0
        invariant
            out.len() + rest.len() == calls.len(),
            forall|k: int| 0 <= k < rest.len() ==> rest[k] == calls[out.len() + k],
            forall|k: int| 0 <= k < out.len() ==> #[trigger] out[k].call == calls[k],
            forall|k: int|
                0 <= k < out.len() ==> if closed {
                    #[trigger] out[k].result is ConnectionClosed
                } else {
                    out[k].result is Cancelled
                },
        decreases rest.len(),
    {
        let call = rest.remove(0);
        let result = if closed {
            CallResult::ConnectionClosed
        } else {
            CallResult::Cancelled
        };
        out.push(Resolution { call, result });
    }
    out
}

impl PendingCalls {
    /// Takes every call out of the table, in the order in which they were
    /// issued.
    pub fn drain(&mut self) -> (r: Vec<PendingCall>)
        requires
            old(self).wf(),
        ensures
            final(self).wf(),
            final(self)@ == apply_event(old(self)@, CallEvent::Close),
            r@.map_values(|c: PendingCall| c@) == old(self)@.calls,
    {
        let mut taken: Vec<PendingCall> = Vec::new();
        std::mem::swap(&mut self.calls, &mut taken);
        proof {
            assert(self@.calls =~= Seq::<CallView>::empty());
        }
        taken
    }

    /// Settles the call that a response answers. A response whose id is no
    /// pending call's (a string, an id never issued, or one already settled)
    /// settles nothing and is handed back to be reported.
    pub fn settle_response(&mut self, id: RequestId, outcome: Outcome) -> (r: ResponseAction)
        requires
            old(self).wf(),
        ensures
            final(self).wf(),
            match id {
                RequestId::Number(n) => final(self)@ == apply_event(
                    old(self)@,
                    CallEvent::Reply { id: n as nat },
                ),
                RequestId::Str(_) => final(self)@ == old(self)@,
            },
            match r {
                ResponseAction::Resolve(res) => id matches RequestId::Number(n)
                    && outstanding(old(self)@).contains(n as nat) && res.call.id == n
                    && old(self)@.calls.contains(res.call@) && res.result == result_of(outcome),
                ResponseAction::Unmatched(back) => back == id && match id {
                    RequestId::Number(n) => !outstanding(old(self)@).contains(n as nat),
                    RequestId::Str(_) => true,
                },
            },
    {
        match id {
            RequestId::Number(n) => match self.take(n) {
                Some(call) => {
                    let result = match outcome {
                        Outcome::Result(t) => CallResult::Answered(t),
                        Outcome::Error(e) => CallResult::Failed(e),
                    };
                    ResponseAction::Resolve(Resolution { call, result })
                },
                None => ResponseAction::Unmatched(RequestId::Number(n)),
            },
            RequestId::Str(s) => ResponseAction::Unmatched(RequestId::Str(s)),
        }
    }

    /// Cancels a session: every pending call tagged with it is settled as
    /// cancelled, in the order in which they were issued; the other calls
    /// stay pending.
    pub fn cancel_session(&mut self, session: &str) -> (r: Vec<Resolution>)
        requires
            old(self).wf(),
        ensures
            final(self).wf(),
            final(self)@ == apply_event(old(self)@, CallEvent::CancelSession { target: session@ }),
            r@.map_values(|x: Resolution| x.call@) == old(self)@.calls.filter(in_session(session@)),
            forall|k: int| 0 <= k < r.len() ==> #[trigger] r[k].result is Cancelled,
    {
        let taken = self.take_session(session);
        let r = settle_all(taken, false);
        proof {
            assert(r@.map_values(|x: Resolution| x.call@) =~= taken@.map_values(|c: PendingCall| c@));
        }
        r
    }

    /// The connection closed: every pending call is settled as closed, in the
    /// order in which they were issued, and the table is left empty.
    pub fn close(&mut self) -> (r: Vec<Resolution>)
        requires
            old(self).wf(),
        ensures
            final(self).wf(),
            final(self)@ == apply_event(old(self)@, CallEvent::Close),
            r@.map_values(|x: Resolution| x.call@) == old(self)@.calls,
            forall|k: int| 0 <= k < r.len() ==> #[trigger] r[k].result is ConnectionClosed,
    {
        let taken = self.drain();
        let r = settle_all(taken, true);
        proof {
            assert(r@.map_values(|x: Resolution| x.call@) =~= taken@.map_values(|c: PendingCall| c@));
        }
        r
    }
}


/// The table after a sequence of events.
pub open spec fn run_events(t: CallTable, evs: Seq<CallEvent>) -> CallTable
    decreases evs.len(),
{
    if evs.len() == 0 {
        t
    } else {
        apply_event(run_events(t, evs.drop_last()), evs.last())
    }
}

/// How many events of the sequence settle the call `id`.
pub open spec fn settle_count(t: CallTable, evs: Seq<CallEvent>, id: nat) -> nat
    decreases evs.len(),
{
    if evs.len() == 0 {
        0
    } else {
        settle_count(t, evs.drop_last(), id) + if settled_by(
            run_events(t, evs.drop_last()),
            evs.last(),
        ).contains(id) {
            1nat
        } else {
            0nat
        }
    }
}

/// How many events of the sequence issue the id `id`.
pub open spec fn issue_count(t: CallTable, evs: Seq<CallEvent>, id: nat) -> nat
    decreases evs.len(),
{
    if evs.len() == 0 {
        0
    } else {
        issue_count(t, evs.drop_last(), id) + if issued_by(
            run_events(t, evs.drop_last()),
            evs.last(),
        ).contains(id) {
            1nat
        } else {
            0nat
        }
    }
}

/// One for a set member, zero otherwise.
pub open spec fn one_if(b: bool) -> nat {
    if b {
        1
    } else {
        0
    }
}

/// Along any sequence of events, each id is issued once at most, and is
/// settled as often as it was pending at the start or issued, less whether
/// it is still pending at the end.
pub proof fn lemma_run_events(t: CallTable, evs: Seq<CallEvent>, id: nat)
    requires
        table_wf(t),
    ensures
        table_wf(run_events(t, evs)),
        t.next_id <= run_events(t, evs).next_id,
        issue_count(t, evs, id) == one_if(t.next_id <= id < run_events(t, evs).next_id),
        settle_count(t, evs, id) + one_if(outstanding(run_events(t, evs)).contains(id)) == one_if(
            outstanding(t).contains(id),
        ) + issue_count(t, evs, id),
    decreases evs.len(),
{
    if evs.len() > 0 {
        let prev = run_events(t, evs.drop_last());
        lemma_run_events(t, evs.drop_last(), id);
        lemma_event_step(prev, evs.last());
        lemma_event_step(t, CallEvent::Close);
        if outstanding(prev).contains(id) {
            assert(!issued_by(prev, evs.last()).contains(id));
        }
    } else {
        lemma_event_step(t, CallEvent::Close);
    }
}

/// Issued ids are never reused: an event issues only an id that no pending
/// call has, and along any sequence of events each id is issued once at most.
pub proof fn law_ids_are_fresh(t: CallTable, e: CallEvent, evs: Seq<CallEvent>, id: nat)
    requires
        table_wf(t),
    ensures
        issued_by(t, e).disjoint(outstanding(t)),
        issue_count(t, evs, id) <= 1,
{
    lemma_event_step(t, e);
    lemma_run_events(t, evs, id);
}

/// Each call is settled exactly once: along any sequence of events, a call
/// that was pending at the start or issued on the way is settled by one event
/// at most, and by exactly one when it is no longer pending at the end; an id
/// that was never issued is never settled.
pub proof fn law_settled_once(t: CallTable, evs: Seq<CallEvent>, id: nat)
    requires
        table_wf(t),
    ensures
        settle_count(t, evs, id) <= 1,
        settle_count(t, evs, id) == 1 <==> (outstanding(t).contains(id) || issue_count(t, evs, id)
            == 1) && !outstanding(run_events(t, evs)).contains(id),
        !outstanding(t).contains(id) && issue_count(t, evs, id) == 0 ==> settle_count(t, evs, id)
            == 0,
{
    lemma_event_step(t, CallEvent::Close);
    lemma_run_events(t, evs, id);
}

/// Closing the connection settles every pending call and leaves none: after
/// a sequence of events that ends with the close, every call that was
/// pending at the start or issued on the way has been settled exactly once.
pub proof fn law_close_settles_all(t: CallTable, evs: Seq<CallEvent>, id: nat)
    requires
        table_wf(t),
        evs.len() > 0,
        evs.last() == CallEvent::Close,
        outstanding(t).contains(id) || issue_count(t, evs, id) == 1,
    ensures
        settled_by(t, CallEvent::Close) == outstanding(t),
        outstanding(apply_event(t, CallEvent::Close)).is_empty(),
        settle_count(t, evs, id) == 1,
{
    lemma_event_step(t, CallEvent::Close);
    lemma_run_events(t, evs, id);
    let prev = run_events(t, evs.drop_last());
    lemma_run_events(t, evs.drop_last(), id);
    lemma_event_step(prev, CallEvent::Close);
}

/// Cancelling a session settles every pending call of that session, leaves
/// the others pending, and no later event settles those calls again.
pub proof fn law_cancel_settles_session(
    t: CallTable,
    session: Seq<char>,
    later: Seq<CallEvent>,
    id: nat,
)
    requires
        table_wf(t),
        session_ids(t, session).contains(id),
    ensures
        settled_by(t, CallEvent::CancelSession { target: session }) == session_ids(t, session),
        session_ids(apply_event(t, CallEvent::CancelSession { target: session }), session).is_empty(),
        outstanding(apply_event(t, CallEvent::CancelSession { target: session })) == outstanding(
            t,
        ).difference(session_ids(t, session)),
        settle_count(apply_event(t, CallEvent::CancelSession { target: session }), later, id) == 0,
{
    let e = CallEvent::CancelSession { target: session };
    let n = apply_event(t, e);
    lemma_event_step(t, e);
    lemma_event_step(n, CallEvent::Close);
    lemma_run_events(n, later, id);
    assert(outstanding(t).contains(id));
    assert(id < t.next_id);
    assert forall|x: nat| !#[trigger] session_ids(n, session).contains(x) by {
        if session_ids(n, session).contains(x) {
            let i = choose|i: int|
                0 <= i < n.calls.len() && n.calls[i].id == x && n.calls[i].session == Some(session);
            t.calls.lemma_filter_pred(other_session(session), i);
        }
    }
    assert(session_ids(n, session) =~= Set::<nat>::empty());
}

} // verus!
