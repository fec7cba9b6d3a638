//! Properties of the correlator and the result reader over many messages.
use vstd::prelude::*;
use crate::json::Json;
use crate::message::{IdKey, Message, Notification};
use crate::session::{after, answered_id, route, Route, SessionView};
use crate::typed::{Decode, typed_outcome};

verus! {

/// The state after reading `msgs` in order from state `s`.
pub open spec fn run(s: SessionView, msgs: Seq<Message>) -> SessionView
    decreases msgs.len(),
{
    if msgs.len() == 0 {
        s
    } else {
        run(after(s, msgs[0]), msgs.drop_first())
    }
}

/// The notifications among `msgs`, in their order.
pub open spec fn notifications(msgs: Seq<Message>) -> Seq<Notification>
    decreases msgs.len(),
{
    if msgs.len() == 0 {
        Seq::empty()
    } else {
        match msgs[0] {
            Message::Notification(n) => seq![n] + notifications(msgs.drop_first()),
            _ => notifications(msgs.drop_first()),
        }
    }
}

/// The ids answered by the first `i` of `msgs`.
pub open spec fn answered_ids(msgs: Seq<Message>, i: int) -> Set<IdKey> {
    Set::new(|k: IdKey| exists|j: int| 0 <= j < i && answered_id(#[trigger] msgs[j]) == k)
}

/// `m` is a response or an error.
pub open spec fn is_answer_message(m: Message) -> bool {
    m is Response || m is Error
}

proof fn lemma_run_push(s: SessionView, msgs: Seq<Message>, m: Message)
    ensures
        run(s, msgs.push(m)) == after(run(s, msgs), m),
    decreases msgs.len(),
{
    if msgs.len() == 0 {
        assert(msgs.push(m).drop_first() =~= Seq::<Message>::empty());
        assert(msgs.push(m)[0] == m);
        assert(run(after(s, m), Seq::<Message>::empty()) == after(s, m));
    } else {
        assert(msgs.push(m).drop_first() =~= msgs.drop_first().push(m));
        assert(msgs.push(m)[0] == msgs[0]);
        lemma_run_push(after(s, msgs[0]), msgs.drop_first(), m);
    }
}

/// Responses and errors for requests that wait, with distinct ids, each
/// reach the request with their own id, in whatever order they arrive:
/// the `i`-th is routed to the request with its id, which still has the
/// method it was sent with, and when all are read exactly those requests
/// have stopped waiting.
pub proof fn lemma_answers_reach_own_requests(s: SessionView, msgs: Seq<Message>)
    requires
        forall|i: int| 0 <= i < msgs.len() ==> is_answer_message(#[trigger] msgs[i]),
        forall|i: int, j: int| 0 <= i < msgs.len() && 0 <= j < msgs.len() && i != j
            ==> answered_id(#[trigger] msgs[i]) != answered_id(#[trigger] msgs[j]),
        forall|i: int| 0 <= i < msgs.len() ==> s.requests.contains_key(answered_id(#[trigger] msgs[i])),
    ensures
        forall|i: int| 0 <= i < msgs.len() ==> {
            let before = #[trigger] run(s, msgs.take(i));
            &&& route(before, msgs[i]) == if msgs[i] is Response {
                Route::Completed(answered_id(msgs[i]))
            } else {
                Route::Failed(answered_id(msgs[i]))
            }
            &&& before.requests[answered_id(msgs[i])] == s.requests[answered_id(msgs[i])]
        },
        run(s, msgs).requests == s.requests.remove_keys(answered_ids(msgs, msgs.len() as int)),
        run(s, msgs).queue == s.queue,
        run(s, msgs).approvals == s.approvals,
{
    assert forall|i: int| 0 <= i <= msgs.len() implies {
        let st = #[trigger] run(s, msgs.take(i));
        &&& st.requests == s.requests.remove_keys(answered_ids(msgs, i))
        &&& st.queue == s.queue
        &&& st.approvals == s.approvals
        &&& st.rules == s.rules
    } by {
        lemma_prefix_state(s, msgs, i);
    }
    assert forall|i: int| 0 <= i < msgs.len() implies {
        let before = #[trigger] run(s, msgs.take(i));
        &&& route(before, msgs[i]) == if msgs[i] is Response {
            Route::Completed(answered_id(msgs[i]))
        } else {
            Route::Failed(answered_id(msgs[i]))
        }
        &&& before.requests[answered_id(msgs[i])] == s.requests[answered_id(msgs[i])]
    } by {
        let k = answered_id(msgs[i]);
        assert(!answered_ids(msgs, i).contains(k)) by {
            if answered_ids(msgs, i).contains(k) {
                let j = choose|j: int| 0 <= j < i && answered_id(#[trigger] msgs[j]) == k;
                assert(answered_id(msgs[j]) != answered_id(msgs[i]));
            }
        }
        assert(run(s, msgs.take(i)).requests.contains_key(k));
    }
    assert(msgs.take(msgs.len() as int) =~= msgs);
}

proof fn lemma_prefix_state(s: SessionView, msgs: Seq<Message>, i: int)
    requires
        0 <= i <= msgs.len(),
        forall|i: int| 0 <= i < msgs.len() ==> is_answer_message(#[trigger] msgs[i]),
        forall|i: int, j: int| 0 <= i < msgs.len() && 0 <= j < msgs.len() && i != j
            ==> answered_id(#[trigger] msgs[i]) != answered_id(#[trigger] msgs[j]),
        forall|i: int| 0 <= i < msgs.len() ==> s.requests.contains_key(answered_id(#[trigger] msgs[i])),
    ensures
        run(s, msgs.take(i)).requests == s.requests.remove_keys(answered_ids(msgs, i)),
        run(s, msgs.take(i)).queue == s.queue,
        run(s, msgs.take(i)).approvals == s.approvals,
        run(s, msgs.take(i)).rules == s.rules,
    decreases i,
{
    if i == 0 {
        assert(msgs.take(0) =~= Seq::<Message>::empty());
        assert(answered_ids(msgs, 0) =~= Set::<IdKey>::empty());
        assert(s.requests.remove_keys(Set::<IdKey>::empty()) =~= s.requests);
    } else {
        lemma_prefix_state(s, msgs, i - 1);
        assert(msgs.take(i) =~= msgs.take(i - 1).push(msgs[i - 1]));
        lemma_run_push(s, msgs.take(i - 1), msgs[i - 1]);
        let k = answered_id(msgs[i - 1]);
        let prev = run(s, msgs.take(i - 1));
        assert(!answered_ids(msgs, i - 1).contains(k)) by {
            if answered_ids(msgs, i - 1).contains(k) {
                let j = choose|j: int| 0 <= j < i - 1 && answered_id(#[trigger] msgs[j]) == k;
                assert(answered_id(msgs[j]) != answered_id(msgs[i - 1]));
            }
        }
        assert(prev.requests.contains_key(k));
        assert(answered_ids(msgs, i) =~= answered_ids(msgs, i - 1).insert(k));
        assert(prev.requests.remove(k) =~= s.requests.remove_keys(answered_ids(msgs, i)));
    }
}

/// A response or error whose id no request waits for changes nothing and
/// is reported as unmatched.
pub proof fn lemma_unmatched_answer_is_dropped(s: SessionView, m: Message)
    requires
        is_answer_message(m),
        !s.requests.contains_key(answered_id(m)),
    ensures
        after(s, m) == s,
        route(s, m) == Route::Unmatched(answered_id(m)),
{
}

/// Whatever else is read in between, the queue grows by the notifications
/// read, in the order they were read.
pub proof fn lemma_queue_keeps_emission_order(s: SessionView, msgs: Seq<Message>)
    ensures
        run(s, msgs).queue == s.queue + notifications(msgs),
        run(s, msgs).rules == s.rules,
    decreases msgs.len(),
{
    if msgs.len() == 0 {
        assert(s.queue + Seq::<Notification>::empty() =~= s.queue);
    } else {
        let next = after(s, msgs[0]);
        lemma_queue_keeps_emission_order(next, msgs.drop_first());
        match msgs[0] {
            Message::Notification(n) => {
                assert(s.queue.push(n) + notifications(msgs.drop_first()) =~= s.queue + (seq![n] + notifications(msgs.drop_first())));
            },
            _ => {},
        }
    }
}

/// A result that does not have the expected shape but carries one in
/// `payload` reads as what it carries.
pub proof fn lemma_nested_payload_is_read<T: Decode>(result: Json, payload: Json)
    requires
        T::decoded(result).is_none(),
        result.field("payload"@) == Some(payload),
        T::decoded(payload).is_some(),
    ensures
        typed_outcome::<T>(result) == T::decoded(payload),
{
}

} // verus!
