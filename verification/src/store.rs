//! The bounded, ordered transcript of the conversation.

use crate::message::{views, ConversationMessage, MessageView, Role};
use std::collections::VecDeque;
use vstd::prelude::*;

verus! {

/// The last `n` elements of `s`, or all of `s` when it has no more than `n`.
pub open spec fn keep_last<A>(s: Seq<A>, n: nat) -> Seq<A> {
    if s.len() <= n {
        s
    } else {
        s.subrange(s.len() - n, s.len() as int)
    }
}

/// The transcript that results from appending `turns`, one after another, to
/// a store that holds `initial` and keeps at most `max_history` turns.
pub open spec fn after_appends(
    initial: Seq<MessageView>,
    max_history: nat,
    turns: Seq<MessageView>,
) -> Seq<MessageView>
    decreases turns.len(),
{
    if turns.len() == 0 {
        initial
    } else {
        keep_last(
            after_appends(initial, max_history, turns.drop_last()).push(turns.last()),
            max_history,
        )
    }
}

/// Whatever is appended to a store within its bound, the store then holds
/// the most recent turns of all it was given, as many as the bound admits,
/// in the order in which they came.
pub proof fn lemma_appends_keep_most_recent(
    initial: Seq<MessageView>,
    max_history: nat,
    turns: Seq<MessageView>,
)
    requires
        initial.len() <= max_history,
    ensures
        after_appends(initial, max_history, turns) == keep_last(initial + turns, max_history),
        after_appends(initial, max_history, turns).len() <= max_history,
        after_appends(initial, max_history, turns).len() == if initial.len() + turns.len()
            <= max_history {
            initial.len() + turns.len()
        } else {
            max_history
        },
    decreases turns.len(),
{
    if turns.len() == 0 {
        assert(initial + turns =~= initial);
    } else {
        let front = turns.drop_last();
        lemma_appends_keep_most_recent(initial, max_history, front);
        assert(initial + turns =~= (initial + front).push(turns.last()));
        assert(keep_last(keep_last(initial + front, max_history).push(turns.last()), max_history)
            =~= keep_last((initial + front).push(turns.last()), max_history));
    }
}

/// A store that starts empty holds, after any appends, exactly the most
/// recent of them: all of them up to the bound, the last `max_history` beyond.
pub proof fn lemma_appends_from_empty(max_history: nat, turns: Seq<MessageView>)
    ensures
        after_appends(Seq::empty(), max_history, turns) == keep_last(turns, max_history),
        after_appends(Seq::empty(), max_history, turns).len() == if turns.len() <= max_history {
            turns.len()
        } else {
            max_history
        },
{
    lemma_appends_keep_most_recent(Seq::empty(), max_history, turns);
    assert(Seq::<MessageView>::empty() + turns =~= turns);
}

/// An ordered transcript that never holds more than a fixed number of turns.
/// New turns go to the tail; when the bound is exceeded the oldest leave
/// from the head.
#[derive(Debug)]
pub struct ConversationStore {
    turns: VecDeque<ConversationMessage>,
    max_history: usize,
}

impl View for ConversationStore {
    type V = Seq<MessageView>;

    closed spec fn view(&self) -> Seq<MessageView> {
        views(self.turns@)
    }
}

impl ConversationStore {
    #[verifier::type_invariant]
    spec fn within_bound(&self) -> bool {
        self.turns@.len() <= self.max_history
    }

    /// The largest number of turns the store keeps.
    pub closed spec fn bound(&self) -> nat {
        self.max_history as nat
    }

    /// An empty store that keeps at most `max_history` turns.
    pub fn new(max_history: usize) -> (store: Self)
        ensures
            store@ == Seq::<MessageView>::empty(),
            store.bound() == max_history,
    {
        let store = ConversationStore { turns: VecDeque::new(), max_history };
        assert(store@ =~= Seq::<MessageView>::empty());
        store
    }

    /// The largest number of turns the store keeps.
    pub fn max_history(&self) -> (max_history: usize)
        ensures
            max_history == self.bound(),
    {
        self.max_history
    }

    /// The number of turns held, which never exceeds the bound.
    pub fn len(&self) -> (len: usize)
        ensures
            len == self@.len(),
            len <= self.bound(),
    {
        proof {
            use_type_invariant(self);
        }
        self.turns.len()
    }

    /// True when no turn is held.
    pub fn is_empty(&self) -> (empty: bool)
        ensures
            empty == (self@.len() == 0),
    {
        self.turns.len() == 0
    }

    /// Appends a turn at the tail and evicts from the head whatever exceeds
    /// the bound, so that the newest turns are the ones retained.
    pub fn append(&mut self, role: Role, text: String)
        ensures
            final(self)@ == keep_last(
                old(self)@.push(MessageView { role, text: text@ }),
                old(self).bound(),
            ),
            final(self).bound() == old(self).bound(),
            final(self)@.len() <= final(self).bound(),
    {
        let ghost before = self@;
        let ghost added = MessageView { role, text: text@ };
        // The transcript leaves the store while it may be over the bound.
        let mut turns: VecDeque<ConversationMessage> = VecDeque::new();
        core::mem::swap(&mut self.turns, &mut turns);
        turns.push_back(ConversationMessage::new(role, text));
        assert(views(turns@) =~= before.push(added));
        let ghost pushed = turns@;
        while turns.len() > self.max_history
            invariant
                turns@.len() <= pushed.len(),
                turns@.len() == pushed.len() || turns@.len() >= self.max_history,
                turns@ == pushed.subrange(pushed.len() - turns@.len(), pushed.len() as int),
            decreases turns@.len(),
        {
            let _ = turns.pop_front();
        }
        core::mem::swap(&mut self.turns, &mut turns);
        assert(self@ =~= keep_last(views(pushed), self.max_history as nat));
    }

    /// A copy of the transcript, oldest turn first. The store is unchanged.
    pub fn snapshot(&self) -> (turns: Vec<ConversationMessage>)
        ensures
            views(turns@) == self@,
            turns@.len() == self@.len(),
            turns@.len() <= self.bound(),
    {
        proof {
            use_type_invariant(self);
        }
        let mut turns: Vec<ConversationMessage> = Vec::new();
        let n = self.turns.len();
        let mut i: usize = 0;
        while i < n
            invariant
                n == self.turns@.len(),
                i <= n,
                turns@.len() == i,
                forall|k: int| 0 <= k < i ==> turns@[k]@ == self.turns@[k]@,
            decreases n - i,
        {
            turns.push(self.turns[i].clone());
            i = i + 1;
        }
        assert(views(turns@) =~= self@);
        turns
    }
}

/// Two snapshots of one store, with no append between them, hold the same
/// turns in the same order.
pub proof fn lemma_snapshot_idempotent(
    store: ConversationStore,
    first: Vec<ConversationMessage>,
    second: Vec<ConversationMessage>,
)
    requires
        views(first@) == store@,
        views(second@) == store@,
    ensures
        views(first@) == views(second@),
        first@.len() == second@.len(),
        forall|i: int| 0 <= i < first@.len() ==> first@[i]@ == second@[i]@,
{
    assert(views(first@).len() == first@.len());
    assert(views(second@).len() == second@.len());
    assert forall|i: int| 0 <= i < first@.len() implies first@[i]@ == second@[i]@ by {
        assert(views(first@)[i] == first@[i]@);
        assert(views(second@)[i] == second@[i]@);
    }
}

} // verus!
