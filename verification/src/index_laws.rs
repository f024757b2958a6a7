//! What holds of the read index and of the unread count, whatever is sent
//! and acknowledged.

use crate::message::{unread, UnRead};
use crate::read_index::{
    member_upserts, other_upsert, own_upsert, recorded, spec_plan, upserted, upserted_all, IndexTarget, Progress,
    ReadIndexUpsert, RowKey, TableView, UpdateReadIndex,
};
use crate::store::{count_after, ConversationKey, Record, StoreView};
use crate::store_laws::{after_sends, lemma_identifiers_rise, Outgoing};
use vstd::prelude::*;

verus! {

/// Upserts made one after another: the first, then the rest.
pub proof fn lemma_upserted_all_from_first(table: TableView, first: ReadIndexUpsert, rest: Seq<ReadIndexUpsert>)
    ensures
        upserted_all(table, seq![first] + rest) == upserted_all(upserted(table, first), rest),
    decreases rest.len(),
{
    let all = seq![first] + rest;
    if rest.len() == 0 {
        assert(all.drop_last() =~= Seq::<ReadIndexUpsert>::empty());
        assert(all.last() == first);
        assert(upserted_all(table, all.drop_last()) == table);
    } else {
        lemma_upserted_all_from_first(table, first, rest.drop_last());
        assert(all.drop_last() =~= seq![first] + rest.drop_last());
        assert(all.last() == rest.last());
    }
}

/// What the upserts of the other members do: the row of every member but
/// the acting user gets the new latest message and keeps what its user
/// acknowledged; no other row changes.
pub proof fn lemma_member_upserts(table: TableView, members: Seq<i32>, gid: i32, mid: i64, acting: i32, key: RowKey)
    ensures
        recorded(upserted_all(table, member_upserts(members, gid, mid, acting)), key) == if key.target
            == IndexTarget::Group(gid) && key.uid != acting && members.contains(key.uid) {
            Some(other_upsert(key.uid, key.target, mid, acting).outcome(recorded(table, key)))
        } else {
            recorded(table, key)
        },
    decreases members.len(),
{
    if members.len() > 0 {
        let shorter = members.drop_last();
        lemma_member_upserts(table, shorter, gid, mid, acting, key);
        let last = members.last();
        assert(members.contains(key.uid) <==> (shorter.contains(key.uid) || last == key.uid)) by {
            if members.contains(key.uid) {
                let at = choose|at: int| 0 <= at < members.len() && members[at] == key.uid;
                if at < shorter.len() {
                    assert(shorter[at] == key.uid);
                }
            }
            if shorter.contains(key.uid) {
                let at = choose|at: int| 0 <= at < shorter.len() && shorter[at] == key.uid;
                assert(members[at] == key.uid);
            }
            assert(members[members.len() - 1] == last);
        }
        if last != acting {
            let ops = member_upserts(members, gid, mid, acting);
            let earlier = member_upserts(shorter, gid, mid, acting);
            assert(ops.drop_last() =~= earlier);
        }
    } else {
        assert(!members.contains(key.uid));
    }
}

/// What an upsert with a message newer than the row's latest, or for a
/// key without a row, leaves: the message as the latest, by its sender.
pub proof fn lemma_newer_message_becomes_latest(op: ReadIndexUpsert, before: Option<Progress>)
    requires
        before matches Some(row) ==> row.latest_mid < op.latest_mid,
    ensures
        op.outcome(before).latest_mid == op.latest_mid,
        op.outcome(before).uid_of_latest_msg == op.uid_of_latest_msg,
{
}

/// A direct update touches two rows: the acting user's row is
/// acknowledged at the message and the partner's keeps what the partner
/// acknowledged; in both the message becomes the latest if it is newer
/// than what the row held; and no other row changes.
pub proof fn lemma_direct_update(table: TableView, uid: i32, target_uid: i32, mid: i64, key: RowKey)
    requires
        uid != target_uid,
    ensures
        ({
            let after = upserted_all(table, spec_plan(uid, UpdateReadIndex::User { target_uid, mid }, seq![]));
            let own = RowKey { uid, target: IndexTarget::User(target_uid) };
            let partner = RowKey { uid: target_uid, target: IndexTarget::User(uid) };
            &&& recorded(after, own) == Some(own_upsert(uid, own.target, mid).outcome(recorded(table, own)))
            &&& recorded(after, partner) == Some(
                other_upsert(target_uid, partner.target, mid, uid).outcome(recorded(table, partner)),
            )
            &&& recorded(after, own).unwrap().mid == Some(mid)
            &&& recorded(after, partner).unwrap().mid == match recorded(table, partner) {
                Some(row) => row.mid,
                None => None,
            }
            &&& key != own && key != partner ==> recorded(after, key) == recorded(table, key)
        }),
{
    let first = own_upsert(uid, IndexTarget::User(target_uid), mid);
    let second = other_upsert(target_uid, IndexTarget::User(uid), mid, uid);
    let ops = spec_plan(uid, UpdateReadIndex::User { target_uid, mid }, seq![]);
    assert(ops =~= seq![first] + seq![second]);
    lemma_upserted_all_from_first(table, first, seq![second]);
    let middle = upserted(table, first);
    assert(seq![second].drop_last() =~= Seq::<ReadIndexUpsert>::empty());
    assert(seq![second].last() == second);
    assert(upserted_all(middle, seq![second].drop_last()) == middle);
    assert(upserted_all(middle, seq![second]) == upserted(middle, second));
}

/// A group update touches the rows of the members: the acting user's row
/// is acknowledged at the message and every other member's keeps what
/// that member acknowledged; in each the message becomes the latest if it
/// is newer than what the row held; and no other row changes.
pub proof fn lemma_group_update(table: TableView, uid: i32, gid: i32, mid: i64, members: Seq<i32>, key: RowKey)
    ensures
        ({
            let after = upserted_all(table, spec_plan(uid, UpdateReadIndex::Group { target_gid: gid, mid }, members));
            recorded(after, key) == if key.target != IndexTarget::Group(gid) {
                recorded(table, key)
            } else if key.uid == uid {
                Some(own_upsert(uid, key.target, mid).outcome(recorded(table, key)))
            } else if members.contains(key.uid) {
                Some(other_upsert(key.uid, key.target, mid, uid).outcome(recorded(table, key)))
            } else {
                recorded(table, key)
            }
        }),
{
    let first = own_upsert(uid, IndexTarget::Group(gid), mid);
    let rest = member_upserts(members, gid, mid, uid);
    lemma_upserted_all_from_first(table, first, rest);
    lemma_member_upserts(upserted(table, first), members, gid, mid, uid, key);
}

/// The latest message of a row never moves back: whatever message an
/// upsert names, older or newer, every row's latest message is afterwards
/// where it was or further on.
pub proof fn lemma_latest_never_moves_back(table: TableView, op: ReadIndexUpsert, key: RowKey)
    requires
        table.contains_key(key),
    ensures
        upserted(table, op).contains_key(key),
        table[key].latest_mid <= upserted(table, op)[key].latest_mid,
{
}

/// Nor does it move back over any number of upserts, and so over any
/// update of the read index, by a send or by an acknowledgement.
pub proof fn lemma_updates_never_move_latest_back(table: TableView, ops: Seq<ReadIndexUpsert>, key: RowKey)
    requires
        table.contains_key(key),
    ensures
        upserted_all(table, ops).contains_key(key),
        table[key].latest_mid <= upserted_all(table, ops)[key].latest_mid,
    decreases ops.len(),
{
    if ops.len() > 0 {
        lemma_updates_never_move_latest_back(table, ops.drop_last(), key);
        lemma_latest_never_moves_back(upserted_all(table, ops.drop_last()), ops.last(), key);
    }
}

/// How many of the sends of `requests` put a message into conversation `key`.
pub open spec fn sent_to(store: StoreView, requests: Seq<Outgoing>, key: ConversationKey) -> nat
    decreases requests.len(),
{
    if requests.len() == 0 {
        0
    } else {
        let earlier = sent_to(store, requests.drop_last(), key);
        if after_sends(store, requests.drop_last()).has_room() && requests.last().key == key {
            earlier + 1
        } else {
            earlier
        }
    }
}

/// No message of a conversation is newer than the newest one.
proof fn lemma_nothing_newer(log: Seq<Record>, key: ConversationKey, read: i64)
    requires
        forall|i: int| 0 <= i < log.len() && (#[trigger] log[i]).key == key ==> log[i].id <= read,
    ensures
        count_after(log, key, read) == 0,
    decreases log.len(),
{
    if log.len() > 0 {
        let shorter = log.drop_last();
        assert forall|i: int| 0 <= i < shorter.len() && (#[trigger] shorter[i]).key == key implies shorter[i].id
            <= read by {
            assert(shorter[i] == log[i]);
        }
        lemma_nothing_newer(shorter, key, read);
        assert(log.last() == log[log.len() - 1]);
    }
}

/// The unread count is what came since: for a user who acknowledged
/// message `read` when no message of the conversation was newer, what is
/// shown after any sends, to this conversation and to others, is the number
/// of messages sent to this conversation since, and nothing where there is
/// none. For a user who never acknowledged anything, `ALL` is shown
/// whatever was sent.
pub proof fn lemma_unread_counts_what_came(
    store: StoreView,
    requests: Seq<Outgoing>,
    key: ConversationKey,
    read: i64,
)
    requires
        store.wf(),
        forall|i: int| 0 <= i < requests.len() ==> (#[trigger] requests[i]).key.is_canonical(),
        read < store.next_id,
        forall|i: int| 0 <= i < store.log.len() && (#[trigger] store.log[i]).key == key ==> store.log[i].id <= read,
    ensures
        count_after(after_sends(store, requests).log, key, read) == sent_to(store, requests, key),
        unread(Some(read), sent_to(store, requests, key)) == if sent_to(store, requests, key) > 0 {
            Some(UnRead::Part(sent_to(store, requests, key) as usize))
        } else {
            None
        },
        unread(None, sent_to(store, requests, key)) == Some(UnRead::ALL),
    decreases requests.len(),
{
    if requests.len() == 0 {
        lemma_nothing_newer(store.log, key, read);
    } else {
        let shorter = requests.drop_last();
        lemma_unread_counts_what_came(store, shorter, key, read);
        lemma_identifiers_rise(store, shorter);
        let earlier = after_sends(store, shorter);
        let last = requests.last();
        if earlier.has_room() {
            let grown = earlier.append(last.key, last.audience, last.payload);
            assert(grown.log.drop_last() =~= earlier.log);
            assert(grown.log.last().id == earlier.next_id);
        }
    }
}

} // verus!
