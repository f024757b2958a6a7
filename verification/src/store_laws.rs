//! What holds of the message store whatever is sent to it.

use crate::store::{
    below, count_after, first_n, history_before, lemma_history_split, strictly_ascending,
    ConversationKey, Record, StoreView,
};
use vstd::prelude::*;

verus! {

/// One request to send: the conversation, the audience and the payload.
pub struct Outgoing {
    pub key: ConversationKey,
    pub audience: Seq<i64>,
    pub payload: Seq<u8>,
}

/// The store after the sends of `requests`, in order. A send that finds no
/// identifier left changes nothing.
pub open spec fn after_sends(store: StoreView, requests: Seq<Outgoing>) -> StoreView
    decreases requests.len(),
{
    if requests.len() == 0 {
        store
    } else {
        let earlier = after_sends(store, requests.drop_last());
        let last = requests.last();
        if earlier.has_room() {
            earlier.append(last.key, last.audience, last.payload)
        } else {
            earlier
        }
    }
}

/// The identifiers that the sends of `requests` return, in order.
pub open spec fn ids_given(store: StoreView, requests: Seq<Outgoing>) -> Seq<i64>
    decreases requests.len(),
{
    if requests.len() == 0 {
        Seq::empty()
    } else {
        let earlier = after_sends(store, requests.drop_last());
        let ids = ids_given(store, requests.drop_last());
        if earlier.has_room() {
            ids.push(earlier.next_id)
        } else {
            ids
        }
    }
}

/// A store with an identifier left stays well formed when a message with a
/// canonical key is appended.
pub proof fn lemma_append_keeps_wf(store: StoreView, key: ConversationKey, audience: Seq<i64>, payload: Seq<u8>)
    requires
        store.wf(),
        store.has_room(),
        key.is_canonical(),
    ensures
        store.append(key, audience, payload).wf(),
{
    let grown = store.append(key, audience, payload);
    assert forall|i: int, j: int| 0 <= i < j < grown.log.len() implies grown.log[i].id < grown.log[j].id by {
        if j < store.log.len() {
            assert(store.log[i].id < store.log[j].id);
        } else {
            assert(store.log[i].id < store.next_id);
        }
    }
}

/// What is written is what is stored: the record that an append adds is
/// the one made from the next identifier and what was handed in, and the
/// records before it stay as they were.
pub proof fn lemma_append_adds_the_pending_record(
    store: StoreView,
    key: ConversationKey,
    audience: Seq<i64>,
    payload: Seq<u8>,
)
    ensures
        store.append(key, audience, payload).log.last() == (Record { id: store.next_id, key, audience, payload }),
        store.append(key, audience, payload).log.drop_last() == store.log,
{
    assert(store.append(key, audience, payload).log.drop_last() =~= store.log);
}

/// Identifiers rise: whatever conversations a sequence of sends goes to, the
/// identifiers it returns rise strictly, each above every identifier that the
/// store held before, so none is ever given twice.
pub proof fn lemma_identifiers_rise(store: StoreView, requests: Seq<Outgoing>)
    requires
        store.wf(),
        forall|i: int| 0 <= i < requests.len() ==> (#[trigger] requests[i]).key.is_canonical(),
    ensures
        after_sends(store, requests).wf(),
        store.next_id <= after_sends(store, requests).next_id,
        forall|i: int|
            0 <= i < ids_given(store, requests).len() ==> store.next_id <= (#[trigger] ids_given(store, requests)[i])
                < after_sends(store, requests).next_id,
        forall|i: int, j: int|
            0 <= i < j < ids_given(store, requests).len() ==> ids_given(store, requests)[i] < ids_given(
                store,
                requests,
            )[j],
        forall|i: int, k: int|
            0 <= i < ids_given(store, requests).len() && 0 <= k < store.log.len() ==> (#[trigger] store.log[k]).id
                < (#[trigger] ids_given(store, requests)[i]),
    decreases requests.len(),
{
    if requests.len() > 0 {
        let shorter = requests.drop_last();
        lemma_identifiers_rise(store, shorter);
        let earlier = after_sends(store, shorter);
        let last = requests.last();
        let before = ids_given(store, shorter);
        let ids = ids_given(store, requests);
        let after = after_sends(store, requests);
        if earlier.has_room() {
            lemma_append_keeps_wf(earlier, last.key, last.audience, last.payload);
            assert(ids == before.push(earlier.next_id));
            assert forall|i: int| 0 <= i < ids.len() implies store.next_id <= (#[trigger] ids[i])
                < after.next_id by {
                if i < before.len() {
                    assert(ids[i] == before[i]);
                }
            }
            assert forall|i: int, j: int| 0 <= i < j < ids.len() implies ids[i] < ids[j] by {
                assert(ids[i] == before[i]);
                if j < before.len() {
                    assert(ids[j] == before[j]);
                }
            }
        } else {
            assert(ids == before);
        }
    }
}

/// The history of a log with one more record: the record first, if it
/// belongs there, then the history of the log.
pub proof fn lemma_history_push(log: Seq<Record>, last: Record, key: ConversationKey, before: Option<i64>)
    ensures
        history_before(log.push(last), key, before) == if last.key == key && below(last.id, before) {
            seq![last] + history_before(log, key, before)
        } else {
            history_before(log, key, before)
        },
{
    let grown = log.push(last);
    lemma_history_split(grown, log.len() as int, key, before);
    assert(grown.skip(log.len() as int) =~= seq![last]);
    assert(grown.take(log.len() as int) =~= log);
    assert(seq![last].skip(1) =~= Seq::<Record>::empty());
    assert(history_before(seq![last].skip(1), key, before) =~= Seq::<Record>::empty());
    if last.key == key && below(last.id, before) {
        assert(history_before(seq![last], key, before) =~= seq![last]);
    } else {
        assert(history_before(seq![last], key, before) =~= Seq::<Record>::empty());
        assert(Seq::<Record>::empty() + history_before(log, key, before) =~= history_before(log, key, before));
    }
}

/// Every record of a history is a record of the log, belongs to the
/// conversation asked for and lies below the bound; and where the log is
/// ordered, identifiers fall strictly along the history.
pub proof fn lemma_history_members(log: Seq<Record>, key: ConversationKey, before: Option<i64>)
    ensures
        forall|k: int|
            0 <= k < history_before(log, key, before).len() ==> {
                let r = #[trigger] history_before(log, key, before)[k];
                r.key == key && below(r.id, before) && log.contains(r)
            },
        strictly_ascending(log) ==> forall|i: int, j: int|
            0 <= i < j < history_before(log, key, before).len() ==> history_before(log, key, before)[i].id
                > history_before(log, key, before)[j].id,
    decreases log.len(),
{
    if log.len() > 0 {
        let rest = log.skip(1);
        lemma_history_members(rest, key, before);
        let older = history_before(rest, key, before);
        let all = history_before(log, key, before);
        assert forall|k: int| 0 <= k < all.len() implies {
            let r = #[trigger] all[k];
            r.key == key && below(r.id, before) && log.contains(r)
        } by {
            if k < older.len() {
                let r = older[k];
                assert(rest.contains(r));
                let at = choose|at: int| 0 <= at < rest.len() && rest[at] == r;
                assert(log[at + 1] == r);
            } else {
                assert(log[0] == all[k]);
            }
        }
        if strictly_ascending(log) {
            assert(strictly_ascending(rest)) by {
                assert forall|i: int, j: int| 0 <= i < j < rest.len() implies rest[i].id < rest[j].id by {
                    assert(log[i + 1].id < log[j + 1].id);
                }
            }
            assert forall|i: int, j: int| 0 <= i < j < all.len() implies all[i].id > all[j].id by {
                if j >= older.len() {
                    let r = older[i];
                    assert(rest.contains(r));
                    let at = choose|at: int| 0 <= at < rest.len() && rest[at] == r;
                    assert(log[0].id < log[at + 1].id);
                }
            }
        }
    }
}

/// No record of an ordered log lies below the identifier of its first record.
proof fn lemma_history_empty_below_first(log: Seq<Record>, key: ConversationKey, floor: i64)
    requires
        forall|i: int| 0 <= i < log.len() ==> (#[trigger] log[i]).id >= floor,
    ensures
        history_before(log, key, Some(floor)).len() == 0,
    decreases log.len(),
{
    if log.len() > 0 {
        let rest = log.skip(1);
        assert forall|i: int| 0 <= i < rest.len() implies (#[trigger] rest[i]).id >= floor by {
            assert(rest[i] == log[i + 1]);
        }
        lemma_history_empty_below_first(rest, key, floor);
    }
}

/// What follows a history's first `shown` records is the history below the
/// identifier of the last of them.
pub proof fn lemma_history_resumes(log: Seq<Record>, key: ConversationKey, before: Option<i64>, shown: int)
    requires
        strictly_ascending(log),
        0 < shown <= history_before(log, key, before).len(),
    ensures
        history_before(log, key, Some(history_before(log, key, before)[shown - 1].id)) == history_before(
            log,
            key,
            before,
        ).skip(shown),
    decreases log.len(),
{
    let all = history_before(log, key, before);
    let rest = log.skip(1);
    let older = history_before(rest, key, before);
    let cursor = all[shown - 1].id;
    assert(strictly_ascending(rest)) by {
        assert forall|i: int, j: int| 0 <= i < j < rest.len() implies rest[i].id < rest[j].id by {
            assert(log[i + 1].id < log[j + 1].id);
        }
    }
    lemma_history_members(rest, key, before);
    if shown <= older.len() {
        lemma_history_resumes(rest, key, before, shown);
        let r = older[shown - 1];
        assert(all[shown - 1] == r);
        assert(rest.contains(r));
        let at = choose|at: int| 0 <= at < rest.len() && rest[at] == r;
        assert(log[0].id < log[at + 1].id);
        assert(below(r.id, before));
        if log[0].key == key && below(log[0].id, before) {
            assert(all.skip(shown) =~= older.skip(shown).push(log[0]));
        } else {
            assert(all.skip(shown) =~= older.skip(shown));
        }
    } else {
        assert(all[shown - 1] == log[0]);
        assert forall|i: int| 0 <= i < rest.len() implies (#[trigger] rest[i]).id >= cursor by {
            assert(log[0].id < log[i + 1].id);
        }
        lemma_history_empty_below_first(rest, key, cursor);
        assert(history_before(rest, key, Some(cursor)) =~= Seq::<Record>::empty());
        assert(all.skip(shown) =~= Seq::<Record>::empty());
    }
}

/// A conversation read page by page: a page of at most `page_size` records
/// below `before`, then the pages below the identifier of that page's last
/// record, until a page comes back empty.
pub open spec fn paged_history(log: Seq<Record>, key: ConversationKey, before: Option<i64>, page_size: nat) -> Seq<
    Record,
>
    decreases history_before(log, key, before).len(),
    when strictly_ascending(log) && page_size > 0
    via paged_history_ends
{
    let page = first_n(history_before(log, key, before), page_size);
    if page.len() == 0 {
        page
    } else {
        page + paged_history(log, key, Some(page.last().id), page_size)
    }
}

#[via_fn]
proof fn paged_history_ends(log: Seq<Record>, key: ConversationKey, before: Option<i64>, page_size: nat) {
    let page = first_n(history_before(log, key, before), page_size);
    if page.len() != 0 {
        lemma_history_resumes(log, key, before, page.len() as int);
    }
}

/// Paging loses nothing: reading a conversation in pages of any size above
/// zero, each below the last identifier of the page before, and joining the
/// pages gives the records, in the order, of one query whose limit is
/// large enough to take them all.
pub proof fn lemma_pagination_round_trip(log: Seq<Record>, key: ConversationKey, before: Option<i64>, page_size: nat)
    requires
        strictly_ascending(log),
        page_size > 0,
    ensures
        paged_history(log, key, before, page_size) == history_before(log, key, before),
        forall|limit: nat|
            limit >= history_before(log, key, before).len() ==> #[trigger] first_n(
                history_before(log, key, before),
                limit,
            ) == history_before(log, key, before),
    decreases history_before(log, key, before).len(),
{
    let all = history_before(log, key, before);
    let page = first_n(all, page_size);
    if page.len() != 0 {
        let shown = page.len() as int;
        lemma_history_resumes(log, key, before, shown);
        lemma_pagination_round_trip(log, key, Some(page.last().id), page_size);
        assert(page =~= all.take(shown));
        assert(all.take(shown) + all.skip(shown) =~= all);
    } else {
        assert(all =~= page);
    }
}

/// Conversations are apart: a message sent to one conversation changes
/// neither the history nor the count of any other.
pub proof fn lemma_partition_isolation(
    store: StoreView,
    sent_to: ConversationKey,
    audience: Seq<i64>,
    payload: Seq<u8>,
    asked: ConversationKey,
    before: Option<i64>,
    after: i64,
)
    requires
        sent_to != asked,
    ensures
        history_before(store.append(sent_to, audience, payload).log, asked, before) == history_before(
            store.log,
            asked,
            before,
        ),
        count_after(store.append(sent_to, audience, payload).log, asked, after) == count_after(
            store.log,
            asked,
            after,
        ),
{
    let last = Record { id: store.next_id, key: sent_to, audience, payload };
    lemma_history_push(store.log, last, asked, before);
    assert(store.log.push(last).drop_last() =~= store.log);
}

/// The two orders of a pair of users name one conversation.
pub proof fn lemma_dm_key_symmetric(a: i64, b: i64)
    ensures
        ConversationKey::spec_dm(a, b) == ConversationKey::spec_dm(b, a),
        ConversationKey::spec_dm(a, b).is_canonical(),
{
}

/// A direct message is found from either side: after `a` has sent `payload`
/// to `b`, the newest message that `b` finds in the conversation with `a`
/// is that message, under the identifier the send returned.
pub proof fn lemma_dm_symmetry(store: StoreView, a: i64, b: i64, payload: Seq<u8>, limit: nat)
    requires
        limit > 0,
    ensures
        ({
            let sent = store.append(ConversationKey::spec_dm(a, b), seq![a, b], payload);
            let page = first_n(history_before(sent.log, ConversationKey::spec_dm(b, a), None), limit);
            page.len() > 0 && page[0].id == store.next_id && page[0].payload == payload
        }),
{
    let key = ConversationKey::spec_dm(a, b);
    let last = Record { id: store.next_id, key, audience: seq![a, b], payload };
    lemma_history_push(store.log, last, ConversationKey::spec_dm(b, a), None);
}

} // verus!
