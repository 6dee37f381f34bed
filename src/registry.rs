use std::collections::HashMap;

use vstd::prelude::*;

use crate::outcome::ProtocolError;
use crate::wire::{CallRequest, CallResponse};

verus! {

broadcast use vstd::std_specs::hash::group_hash_axioms;

/// What a substitute answers: for argument bytes listed in `answers`, the
/// status listed first for them; for any other call, `status`. Every answer
/// carries `output`.
pub struct Substitute {
    pub status: u32,
    pub output: Vec<u8>,
    pub answers: Vec<(Vec<u8>, u32)>,
}

/// The per-input answers as the contracts see them.
pub open spec fn answers_view(a: Seq<(Vec<u8>, u32)>) -> Seq<(Seq<u8>, u32)> {
    a.map_values(|e: (Vec<u8>, u32)| (e.0@, e.1))
}

/// A substitute as the contracts see it: its default status, its output
/// bytes and its per-input answers.
pub open spec fn substitute_view(s: Substitute) -> (u32, Seq<u8>, Seq<(Seq<u8>, u32)>) {
    (s.status, s.output@, answers_view(s.answers@))
}

/// The status listed first for `input` in `answers`, else `default`.
pub open spec fn status_for(answers: Seq<(Seq<u8>, u32)>, input: Seq<u8>, default: u32) -> u32
    decreases answers.len(),
{
    if answers.len() == 0 {
        default
    } else if answers[0].0 == input {
        answers[0].1
    } else {
        status_for(answers.drop_first(), input, default)
    }
}

/// The status that substitute `sub` answers to the argument bytes `input`.
pub open spec fn substitute_status(sub: (u32, Seq<u8>, Seq<(Seq<u8>, u32)>), input: Seq<u8>) -> u32 {
    status_for(sub.2, input, sub.0)
}

fn bytes_equal(a: &Vec<u8>, b: &Vec<u8>) -> (r: bool)
    ensures
        r == (a@ == b@),
{
    if a.len() != b.len() {
        return false;
    }
    let mut i: usize = 0;
    while i < a.len()
        invariant
            0 <= i <= a@.len(),
            a@.len() == b@.len(),
            forall|j: int| 0 <= j < i ==> a@[j] == b@[j],
        decreases a@.len() - i,
    {
        if a[i] != b[i] {
            return false;
        }
        i = i + 1;
    }
    assert(a@ =~= b@);
    true
}

fn answer_status(sub: &Substitute, input: &Vec<u8>) -> (r: u32)
    ensures
        r == substitute_status(substitute_view(*sub), input@),
{
    let ghost all = answers_view(sub.answers@);
    assert(all.subrange(0, all.len() as int) =~= all);
    let mut i: usize = 0;
    while i < sub.answers.len()
        invariant
            0 <= i <= sub.answers@.len(),
            all == answers_view(sub.answers@),
            status_for(all, input@, sub.status) == status_for(
                all.subrange(i as int, all.len() as int),
                input@,
                sub.status,
            ),
        decreases sub.answers@.len() - i,
    {
        let ghost rest = all.subrange(i as int, all.len() as int);
        assert(rest[0] == (sub.answers@[i as int].0@, sub.answers@[i as int].1));
        if bytes_equal(&sub.answers[i].0, input) {
            return sub.answers[i].1;
        }
        assert(rest.drop_first() =~= all.subrange(i + 1, all.len() as int));
        i = i + 1;
    }
    assert(all.subrange(i as int, all.len() as int).len() == 0);
    sub.status
}

/// Substitute handlers that answer calls in place of a host, one per
/// selector, each with a fixed status and output; and the calls they have
/// received.
pub struct SubstituteRegistry {
    handlers: HashMap<u32, Substitute>,
    log: Vec<CallRequest>,
}

/// A call as the substitute sees it: its selector and its argument bytes.
pub open spec fn call_view(c: CallRequest) -> (u32, Seq<u8>) {
    (c.op, c.input@)
}

impl SubstituteRegistry {
    /// The substitute of each selector.
    pub closed spec fn handlers(&self) -> Map<u32, (u32, Seq<u8>, Seq<(Seq<u8>, u32)>)> {
        self.handlers@.map_values(|s: Substitute| substitute_view(s))
    }

    /// The calls that reached a substitute, oldest first.
    pub closed spec fn received(&self) -> Seq<(u32, Seq<u8>)> {
        self.log@.map_values(|c: CallRequest| call_view(c))
    }

    /// A registry in which no selector has a substitute.
    pub fn new() -> (r: Self)
        ensures
            r.handlers() == Map::<u32, (u32, Seq<u8>, Seq<(Seq<u8>, u32)>)>::empty(),
            r.received() == Seq::<(u32, Seq<u8>)>::empty(),
    {
        let r = SubstituteRegistry { handlers: HashMap::new(), log: Vec::new() };
        assert(r.handlers() =~= Map::<u32, (u32, Seq<u8>, Seq<(Seq<u8>, u32)>)>::empty());
        assert(r.received() =~= Seq::<(u32, Seq<u8>)>::empty());
        r
    }

    /// Installs a substitute for `op` that answers `status` with no output,
    /// in place of any earlier one for `op`.
    pub fn register(&mut self, op: u32, status: u32)
        ensures
            final(self).handlers() == old(self).handlers().insert(
                op,
                (status, Seq::<u8>::empty(), Seq::<(Seq<u8>, u32)>::empty()),
            ),
            final(self).received() == old(self).received(),
    {
        let output: Vec<u8> = Vec::new();
        let answers: Vec<(Vec<u8>, u32)> = Vec::new();
        assert(output@ =~= Seq::<u8>::empty());
        assert(answers_view(answers@) =~= Seq::<(Seq<u8>, u32)>::empty());
        self.register_with_answers(op, status, output, answers);
    }

    /// Installs a substitute for `op` that answers `status` and fills the
    /// output buffer with `output`, in place of any earlier one for `op`.
    pub fn register_with_output(&mut self, op: u32, status: u32, output: Vec<u8>)
        ensures
            final(self).handlers() == old(self).handlers().insert(
                op,
                (status, output@, Seq::<(Seq<u8>, u32)>::empty()),
            ),
            final(self).received() == old(self).received(),
    {
        let answers: Vec<(Vec<u8>, u32)> = Vec::new();
        assert(answers_view(answers@) =~= Seq::<(Seq<u8>, u32)>::empty());
        self.register_with_answers(op, status, output, answers);
    }

    /// Installs a substitute for `op` that answers each argument buffer
    /// listed in `answers` with the status listed first for it, any other
    /// buffer with `status`, and always fills the output with `output`; in
    /// place of any earlier one for `op`.
    pub fn register_with_answers(
        &mut self,
        op: u32,
        status: u32,
        output: Vec<u8>,
        answers: Vec<(Vec<u8>, u32)>,
    )
        ensures
            final(self).handlers() == old(self).handlers().insert(
                op,
                (status, output@, answers_view(answers@)),
            ),
            final(self).received() == old(self).received(),
    {
        let ghost before = self.handlers@;
        let sub = Substitute { status, output, answers };
        self.handlers.insert(op, sub);
        assert(self.handlers@.map_values(|s: Substitute| substitute_view(s)) =~= before.map_values(
            |s: Substitute| substitute_view(s),
        ).insert(op, substitute_view(sub)));
    }

    /// Removes every substitute and forgets the calls received.
    pub fn clear(&mut self)
        ensures
            final(self).handlers() == Map::<u32, (u32, Seq<u8>, Seq<(Seq<u8>, u32)>)>::empty(),
            final(self).received() == Seq::<(u32, Seq<u8>)>::empty(),
    {
        self.handlers.clear();
        self.log = Vec::new();
        assert(self.handlers() =~= Map::<u32, (u32, Seq<u8>, Seq<(Seq<u8>, u32)>)>::empty());
        assert(self.received() =~= Seq::<(u32, Seq<u8>)>::empty());
    }

    /// Whether a substitute answers `op`.
    pub fn is_registered(&self, op: u32) -> (r: bool)
        ensures
            r == self.handlers().contains_key(op),
    {
        self.handlers.contains_key(&op)
    }

    /// The calls that reached a substitute, oldest first.
    pub fn received_calls(&self) -> (r: &Vec<CallRequest>)
        ensures
            r@.map_values(|c: CallRequest| call_view(c)) == self.received(),
    {
        &self.log
    }

    /// Routes a call to the substitute of its selector, which records it and
    /// answers the status it has for the call's argument bytes, with its
    /// output. A selector without a substitute is
    /// a protocol failure, and the call reaches nothing.
    pub fn dispatch(&mut self, req: CallRequest) -> (r: Result<CallResponse, ProtocolError>)
        ensures
            final(self).handlers() == old(self).handlers(),
            old(self).handlers().contains_key(req.op) ==> {
                &&& r matches Ok(resp)
                &&& resp.status == substitute_status(old(self).handlers()[req.op], req.input@)
                &&& resp.output@ == old(self).handlers()[req.op].1
                &&& final(self).received() == old(self).received().push(call_view(req))
            },
            !old(self).handlers().contains_key(req.op) ==> {
                &&& r == Err::<CallResponse, _>(ProtocolError::Unregistered { op: req.op })
                &&& final(self).received() == old(self).received()
            },
    {
        match self.handlers.get(&req.op) {
            None => Err(ProtocolError::Unregistered { op: req.op }),
            Some(sub) => {
                let status = answer_status(sub, &req.input);
                let output = sub.output.clone();
                assert(output@ =~= sub.output@);
                let ghost before = self.log@;
                self.log.push(req);
                assert(self.log@.map_values(|c: CallRequest| call_view(c)) =~= before.map_values(
                    |c: CallRequest| call_view(c),
                ).push(call_view(req)));
                Ok(CallResponse { status, output })
            },
        }
    }
}

/// Installing a second substitute for a selector replaces the first: only
/// the newest one's status is answered afterwards, and the other selectors
/// keep theirs.
pub proof fn lemma_register_replaces(
    handlers: Map<u32, (u32, Seq<u8>, Seq<(Seq<u8>, u32)>)>,
    op: u32,
    first: (u32, Seq<u8>, Seq<(Seq<u8>, u32)>),
    second: (u32, Seq<u8>, Seq<(Seq<u8>, u32)>),
)
    ensures
        handlers.insert(op, first).insert(op, second) == handlers.insert(op, second),
        handlers.insert(op, first).insert(op, second)[op] == second,
{
    assert(handlers.insert(op, first).insert(op, second) =~= handlers.insert(op, second));
}

} // verus!
