//! The bounded conversational context of the interactive session.
//!
//! A [`ContextWindow`] retains every user input and every assistant
//! response of the session — that full history is what request
//! assembly sends — and separately keeps a capped display ring of the
//! most recent assistant responses, evicted oldest-first once the
//! configured look-back bound is reached. The bound caps only the
//! display ring, not the request payload.

use vstd::prelude::*;
use crate::llm::request_turns;
use crate::llm::Role;

verus! {

/// Pushing one entry onto a ring of capacity `cap`: the entry goes to
/// the back, and when the ring is already full the oldest entry (the
/// front) leaves.
pub open spec fn ring_push(ring: Seq<Seq<char>>, cap: nat, item: Seq<char>) -> Seq<Seq<char>> {
    if ring.len() < cap {
        ring.push(item)
    } else {
        ring.push(item).drop_first()
    }
}

/// A ring that respects its capacity still does after a push, the push
/// is FIFO: a full ring loses exactly its oldest entry, a ring with
/// room keeps every entry.
pub proof fn lemma_ring_push_fifo(ring: Seq<Seq<char>>, cap: nat, item: Seq<char>)
    requires
        ring.len() <= cap,
    ensures
        ring_push(ring, cap, item).len() <= cap,
        ring.len() < cap ==> ring_push(ring, cap, item) == ring.push(item),
        ring.len() == cap && cap > 0 ==> ring_push(ring, cap, item) == ring.drop_first().push(
            item,
        ),
        cap == 0 ==> ring_push(ring, cap, item) == Seq::<Seq<char>>::empty(),
{
    if ring.len() >= cap {
        assert(ring_push(ring, cap, item) =~= if cap == 0 {
            Seq::<Seq<char>>::empty()
        } else {
            ring.drop_first().push(item)
        });
    }
}

/// The retained state of one interactive session: the configured
/// look-back bound, the full sequences of user inputs and assistant
/// responses, and the capped display ring.
pub struct ContextWindow {
    pub look_back: usize,
    pub inputs: Vec<String>,
    pub responses: Vec<String>,
    pub display_ring: Vec<String>,
}

impl ContextWindow {
    /// Well-formedness: every input has its response except possibly
    /// the latest one, and the display ring respects the look-back
    /// bound.
    pub open spec fn wf(&self) -> bool {
        &&& self.responses@.len() <= self.inputs@.len() <= self.responses@.len() + 1
        &&& self.display_ring@.len() <= self.look_back
    }

    /// Whether the latest input is still waiting for its response.
    pub open spec fn spec_awaiting(&self) -> bool {
        self.inputs@.len() == self.responses@.len() + 1
    }

    /// An empty session with the given look-back bound.
    pub fn new(look_back: usize) -> (w: ContextWindow)
        ensures
            w.wf(),
            !w.spec_awaiting(),
            w.look_back == look_back,
            w.inputs@.len() == 0,
            w.responses@.len() == 0,
            w.display_ring@.len() == 0,
    {
        ContextWindow {
            look_back,
            inputs: Vec::new(),
            responses: Vec::new(),
            display_ring: Vec::new(),
        }
    }

    /// Records one line of user input. The session is then awaiting
    /// the response to it.
    pub fn submit_input(&mut self, input: String)
        requires
            old(self).wf(),
            !old(self).spec_awaiting(),
        ensures
            final(self).wf(),
            final(self).spec_awaiting(),
            final(self).inputs@ == old(self).inputs@.push(input),
            final(self).responses == old(self).responses,
            final(self).display_ring == old(self).display_ring,
            final(self).look_back == old(self).look_back,
    {
        self.inputs.push(input);
    }

    /// The assistant-turn window paired with the inputs: the empty
    /// placeholder for the first exchange, then every prior response
    /// in order.
    pub fn assistant_window(&self) -> (w: Vec<String>)
        ensures
            w.deep_view() == seq![Seq::<char>::empty()] + self.responses.deep_view(),
    {
        let ghost r_all = self.responses.deep_view();
        let mut w: Vec<String> = Vec::new();
        w.push(String::new());
        let n = self.responses.len();
        let mut i: usize = 0;
        while i < n
            invariant
                r_all == self.responses.deep_view(),
                n == r_all.len(),
                n == self.responses@.len(),
                i <= n,
                w.deep_view() == seq![Seq::<char>::empty()] + r_all.take(i as int),
            decreases n - i,
        {
            let ghost head = w.deep_view();
            w.push(self.responses[i].clone());
            i += 1;
            proof {
                assert(w.deep_view() =~= head.push(r_all[i - 1]));
                assert(head.push(r_all[i - 1]) =~= seq![Seq::<char>::empty()] + r_all.take(
                    i as int,
                ));
            }
        }
        proof {
            assert(r_all.take(n as int) =~= r_all);
        }
        w
    }

    /// Records the response to the latest input: it joins the retained
    /// history, and enters the display ring, evicting the oldest entry
    /// when the ring is full.
    pub fn record_response(&mut self, response: String)
        requires
            old(self).wf(),
            old(self).spec_awaiting(),
        ensures
            final(self).wf(),
            !final(self).spec_awaiting(),
            final(self).responses@ == old(self).responses@.push(response),
            final(self).display_ring.deep_view() == ring_push(
                old(self).display_ring.deep_view(),
                old(self).look_back as nat,
                response@,
            ),
            final(self).inputs == old(self).inputs,
            final(self).look_back == old(self).look_back,
    {
        let ghost ring0 = self.display_ring.deep_view();
        let ghost cap = self.look_back as nat;
        self.display_ring.push(response.clone());
        assert(self.display_ring.deep_view() =~= ring0.push(response@));
        if self.display_ring.len() > self.look_back {
            let ghost ring1 = self.display_ring.deep_view();
            self.display_ring.remove(0);
            assert(self.display_ring.deep_view() =~= ring1.drop_first());
        }
        self.responses.push(response);
        proof {
            lemma_ring_push_fifo(ring0, cap, self.display_ring.deep_view().last());
            assert(self.display_ring.deep_view() =~= ring_push(ring0, cap, response@));
        }
    }

    /// The shape of the request assembled at any point where the
    /// session awaits a response, with `n` inputs so far: exactly
    /// `2 * n` turns plus one leading system turn if a system prompt
    /// is set, alternating assistant/user and starting with the empty
    /// placeholder assistant turn.
    pub proof fn lemma_session_request_shape(&self, system: Option<Seq<char>>)
        requires
            self.wf(),
            self.spec_awaiting(),
        ensures
            ({
                let assistants = seq![Seq::<char>::empty()] + self.responses.deep_view();
                let users = self.inputs.deep_view();
                let r = request_turns(system, assistants, users);
                let n = users.len();
                let offset: int = if system is Some {
                    1int
                } else {
                    0int
                };
                &&& r.len() == 2 * n + offset
                &&& (system is Some ==> r[0].role == Role::System)
                &&& r[offset].role == Role::Assistant
                &&& r[offset].content == Seq::<char>::empty()
                &&& forall|j: int|
                    0 <= j < n ==> #[trigger] r[offset + 2 * j].role == Role::Assistant
                &&& forall|j: int|
                    0 <= j < n ==> #[trigger] r[offset + 2 * j + 1].role == Role::User
                        && r[offset + 2 * j + 1].content == users[j]
            }),
    {
        let assistants = seq![Seq::<char>::empty()] + self.responses.deep_view();
        let users = self.inputs.deep_view();
        crate::llm::lemma_request_shape(system, assistants, users);
        let offset: int = if system is Some {
            1int
        } else {
            0int
        };
        let r = request_turns(system, assistants, users);
        assert(r[offset + 2 * 0].role == Role::Assistant && r[offset + 2 * 0].content == assistants[0]);
    }
}

} // verus!
