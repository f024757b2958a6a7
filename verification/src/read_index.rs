//! The read index: for each user and conversation, the last message the
//! user acknowledged, the latest message of the conversation and who sent it.

use crate::message::{count_dm_unread, count_group_unread, unread, UnRead};
use crate::store::{count_after, ConversationKey, MsgDb};
use vstd::prelude::*;

verus! {

/// A request to move the read index forward: the conversation, named from
/// the acting user's side, and the message reached.
#[derive(Copy, Clone, Debug, PartialEq, Eq, Structural)]
pub enum UpdateReadIndex {
    User { target_uid: i32, mid: i64 },
    Group { target_gid: i32, mid: i64 },
}

/// The conversation of a row, named from the side of the row's user.
#[derive(Copy, Clone, Debug, PartialEq, Eq, Structural)]
pub enum IndexTarget {
    User(i32),
    Group(i32),
}

/// What identifies a row: the user and the conversation. No two rows share it.
#[derive(Copy, Clone, Debug, PartialEq, Eq, Structural)]
pub struct RowKey {
    pub uid: i32,
    pub target: IndexTarget,
}

/// What a row records.
#[derive(Copy, Clone, Debug, PartialEq, Eq, Structural)]
pub struct Progress {
    /// The last message the user acknowledged; none for a user who never read.
    pub mid: Option<i64>,
    /// The latest message of the conversation.
    pub latest_mid: i64,
    /// Who sent the latest message.
    pub uid_of_latest_msg: i32,
}

/// One row as the relational store holds it: exactly one of the two
/// targets is set in a row that this library wrote.
#[derive(Copy, Clone, Debug, PartialEq, Eq, Structural)]
pub struct ReadIndexRow {
    pub uid: i32,
    pub target_uid: Option<i32>,
    pub target_gid: Option<i32>,
    pub mid: Option<i64>,
    pub latest_mid: i64,
    pub uid_of_latest_msg: i32,
}

/// One insert-or-update of a row. Where no row has the key, a row is made
/// with the two latest fields, acknowledged up to `latest_mid` if
/// `acknowledge` and not at all otherwise. Where a row has it, its two
/// latest fields move to the update's only if the update's message is
/// newer than the row's latest, so that the latest message of a row never
/// moves back; and its acknowledgement is overwritten only if
/// `acknowledge`.
#[derive(Copy, Clone, Debug, PartialEq, Eq, Structural)]
pub struct ReadIndexUpsert {
    pub key: RowKey,
    pub latest_mid: i64,
    pub uid_of_latest_msg: i32,
    pub acknowledge: bool,
}

impl ReadIndexUpsert {
    /// What the row under the key records after this upsert, given what it
    /// recorded before, if there was one.
    pub open spec fn outcome(self, before: Option<Progress>) -> Progress {
        match before {
            None => Progress {
                mid: if self.acknowledge {
                    Some(self.latest_mid)
                } else {
                    None
                },
                latest_mid: self.latest_mid,
                uid_of_latest_msg: self.uid_of_latest_msg,
            },
            Some(row) => Progress {
                mid: if self.acknowledge {
                    Some(self.latest_mid)
                } else {
                    row.mid
                },
                latest_mid: if self.latest_mid > row.latest_mid {
                    self.latest_mid
                } else {
                    row.latest_mid
                },
                uid_of_latest_msg: if self.latest_mid > row.latest_mid {
                    self.uid_of_latest_msg
                } else {
                    row.uid_of_latest_msg
                },
            },
        }
    }

    /// What the row under the key records after this upsert, given what it
    /// recorded before, if there was one.
    pub fn apply(&self, before: Option<Progress>) -> (after: Progress)
        ensures
            after == self.outcome(before),
    {
        match before {
            None => Progress {
                mid: if self.acknowledge {
                    Some(self.latest_mid)
                } else {
                    None
                },
                latest_mid: self.latest_mid,
                uid_of_latest_msg: self.uid_of_latest_msg,
            },
            Some(row) => {
                let newer = self.latest_mid > row.latest_mid;
                Progress {
                    mid: if self.acknowledge {
                        Some(self.latest_mid)
                    } else {
                        row.mid
                    },
                    latest_mid: if newer {
                        self.latest_mid
                    } else {
                        row.latest_mid
                    },
                    uid_of_latest_msg: if newer {
                        self.uid_of_latest_msg
                    } else {
                        row.uid_of_latest_msg
                    },
                }
            },
        }
    }
}

/// The table as contracts speak of it: what each key records.
pub type TableView = Map<RowKey, Progress>;

/// What the row under `key` records, if there is one.
pub open spec fn recorded(table: TableView, key: RowKey) -> Option<Progress> {
    if table.contains_key(key) {
        Some(table[key])
    } else {
        None
    }
}

/// The table after one upsert.
pub open spec fn upserted(table: TableView, op: ReadIndexUpsert) -> TableView {
    table.insert(op.key, op.outcome(recorded(table, op.key)))
}

/// The table after the upserts of `ops`, in order.
pub open spec fn upserted_all(table: TableView, ops: Seq<ReadIndexUpsert>) -> TableView
    decreases ops.len(),
{
    if ops.len() == 0 {
        table
    } else {
        upserted(upserted_all(table, ops.drop_last()), ops.last())
    }
}

/// The upsert of the acting user's own row: acknowledged moves to `mid`,
/// and so does latest where `mid` is newer.
pub open spec fn own_upsert(uid: i32, target: IndexTarget, mid: i64) -> ReadIndexUpsert {
    ReadIndexUpsert { key: RowKey { uid, target }, latest_mid: mid, uid_of_latest_msg: uid, acknowledge: true }
}

/// The upsert of another participant's row: latest moves to `mid` where
/// `mid` is newer, what that user acknowledged stays.
pub open spec fn other_upsert(uid: i32, target: IndexTarget, mid: i64, acting: i32) -> ReadIndexUpsert {
    ReadIndexUpsert { key: RowKey { uid, target }, latest_mid: mid, uid_of_latest_msg: acting, acknowledge: false }
}

/// The upserts of the rows of every member but the acting user, in the
/// order of `members`.
pub open spec fn member_upserts(members: Seq<i32>, gid: i32, mid: i64, acting: i32) -> Seq<ReadIndexUpsert>
    decreases members.len(),
{
    if members.len() == 0 {
        Seq::empty()
    } else {
        let earlier = member_upserts(members.drop_last(), gid, mid, acting);
        if members.last() != acting {
            earlier.push(other_upsert(members.last(), IndexTarget::Group(gid), mid, acting))
        } else {
            earlier
        }
    }
}

/// The upserts that an update by user `uid` asks for. For a direct
/// conversation: the user's own row, then the partner's. For a group: the
/// user's own row, then the row of every other member.
pub open spec fn spec_plan(uid: i32, update: UpdateReadIndex, members: Seq<i32>) -> Seq<ReadIndexUpsert> {
    match update {
        UpdateReadIndex::User { target_uid, mid } => seq![
            own_upsert(uid, IndexTarget::User(target_uid), mid),
            other_upsert(target_uid, IndexTarget::User(uid), mid, uid),
        ],
        UpdateReadIndex::Group { target_gid, mid } => seq![own_upsert(uid, IndexTarget::Group(target_gid), mid)]
            + member_upserts(members, target_gid, mid, uid),
    }
}

/// The upserts that an update by user `uid` asks for, in the order in
/// which they are to be made. `members` are the members of the group at
/// this moment; an update for a direct conversation does not look at them.
pub fn plan_read_index(uid: i32, update: UpdateReadIndex, members: &Vec<i32>) -> (ops: Vec<ReadIndexUpsert>)
    ensures
        ops@ == spec_plan(uid, update, members@),
{
    let mut ops: Vec<ReadIndexUpsert> = Vec::new();
    match update {
        UpdateReadIndex::User { target_uid, mid } => {
            ops.push(
                ReadIndexUpsert {
                    key: RowKey { uid, target: IndexTarget::User(target_uid) },
                    latest_mid: mid,
                    uid_of_latest_msg: uid,
                    acknowledge: true,
                },
            );
            ops.push(
                ReadIndexUpsert {
                    key: RowKey { uid: target_uid, target: IndexTarget::User(uid) },
                    latest_mid: mid,
                    uid_of_latest_msg: uid,
                    acknowledge: false,
                },
            );
            assert(ops@ =~= spec_plan(uid, update, members@));
        },
        UpdateReadIndex::Group { target_gid, mid } => {
            ops.push(
                ReadIndexUpsert {
                    key: RowKey { uid, target: IndexTarget::Group(target_gid) },
                    latest_mid: mid,
                    uid_of_latest_msg: uid,
                    acknowledge: true,
                },
            );
            let ghost own = seq![own_upsert(uid, IndexTarget::Group(target_gid), mid)];
            let mut i: usize = 0;
            assert(members@.take(0) =~= Seq::<i32>::empty());
            assert(ops@ =~= own + member_upserts(members@.take(0), target_gid, mid, uid));
            while i < members.len()
                invariant
                    i <= members.len(),
                    own == seq![own_upsert(uid, IndexTarget::Group(target_gid), mid)],
                    ops@ == own + member_upserts(members@.take(i as int), target_gid, mid, uid),
                decreases members.len() - i,
            {
                let ghost earlier = member_upserts(members@.take(i as int), target_gid, mid, uid);
                proof {
                    assert(members@.take(i + 1).drop_last() =~= members@.take(i as int));
                    assert(members@.take(i + 1).last() == members@[i as int]);
                }
                let member: i32 = members[i];
                if member != uid {
                    let op = ReadIndexUpsert {
                        key: RowKey { uid: member, target: IndexTarget::Group(target_gid) },
                        latest_mid: mid,
                        uid_of_latest_msg: uid,
                        acknowledge: false,
                    };
                    ops.push(op);
                    assert(ops@ =~= own + earlier.push(op));
                }
                i += 1;
            }
            assert(members@.take(members.len() as int) =~= members@);
        },
    }
    ops
}

/// One row of the table.
#[derive(Copy, Clone, Debug, PartialEq, Eq, Structural)]
struct Entry {
    key: RowKey,
    progress: Progress,
}

/// The read index held in memory, with the conflict rule of the relational
/// table: one row for each user and conversation, never two.
pub struct ReadIndexTable {
    rows: Vec<Entry>,
}

/// Whether no two of `rows` share a key.
spec fn distinct_keys(rows: Seq<Entry>) -> bool {
    forall|i: int, j: int| 0 <= i < j < rows.len() ==> rows[i].key != rows[j].key
}

/// Whether one of `rows` has the key.
spec fn has_key(rows: Seq<Entry>, key: RowKey) -> bool {
    exists|i: int| 0 <= i < rows.len() && #[trigger] rows[i].key == key
}

/// The place of a row that has the key.
spec fn place_of(rows: Seq<Entry>, key: RowKey) -> int {
    choose|i: int| 0 <= i < rows.len() && #[trigger] rows[i].key == key
}

impl View for ReadIndexTable {
    type V = Map<RowKey, Progress>;

    closed spec fn view(&self) -> Map<RowKey, Progress> {
        Map::new(
            |key: RowKey| has_key(self.rows@, key),
            |key: RowKey| self.rows@[place_of(self.rows@, key)].progress,
        )
    }
}

impl ReadIndexRow {
    /// The conversation of the row, where exactly one target is set.
    pub open spec fn spec_target(self) -> Option<IndexTarget> {
        match (self.target_uid, self.target_gid) {
            (Some(uid), None) => Some(IndexTarget::User(uid)),
            (None, Some(gid)) => Some(IndexTarget::Group(gid)),
            _ => None,
        }
    }

    /// The row that records `progress` under `key`.
    pub open spec fn spec_of(key: RowKey, progress: Progress) -> ReadIndexRow {
        ReadIndexRow {
            uid: key.uid,
            target_uid: match key.target {
                IndexTarget::User(uid) => Some(uid),
                IndexTarget::Group(_) => None,
            },
            target_gid: match key.target {
                IndexTarget::User(_) => None,
                IndexTarget::Group(gid) => Some(gid),
            },
            mid: progress.mid,
            latest_mid: progress.latest_mid,
            uid_of_latest_msg: progress.uid_of_latest_msg,
        }
    }

    /// The row that records `progress` under `key`.
    pub fn of(key: RowKey, progress: Progress) -> (row: ReadIndexRow)
        ensures
            row == Self::spec_of(key, progress),
            row.spec_target() == Some(key.target),
    {
        let (target_uid, target_gid) = match key.target {
            IndexTarget::User(uid) => (Some(uid), None),
            IndexTarget::Group(gid) => (None, Some(gid)),
        };
        ReadIndexRow {
            uid: key.uid,
            target_uid,
            target_gid,
            mid: progress.mid,
            latest_mid: progress.latest_mid,
            uid_of_latest_msg: progress.uid_of_latest_msg,
        }
    }

    /// The conversation of the row; none for a row with both targets or
    /// neither.
    pub fn target(&self) -> (target: Option<IndexTarget>)
        ensures
            target == self.spec_target(),
    {
        match (self.target_uid, self.target_gid) {
            (Some(uid), None) => Some(IndexTarget::User(uid)),
            (None, Some(gid)) => Some(IndexTarget::Group(gid)),
            _ => None,
        }
    }
}

impl ReadIndexTable {
    #[verifier::type_invariant]
    spec fn inv(&self) -> bool {
        distinct_keys(self.rows@)
    }

    /// A table without rows.
    pub fn new() -> (table: ReadIndexTable)
        ensures
            table@ == Map::<RowKey, Progress>::empty(),
    {
        let table = ReadIndexTable { rows: Vec::new() };
        assert(table@ =~= Map::<RowKey, Progress>::empty());
        table
    }

    /// The place of the row under `key`, or the number of rows where there
    /// is none.
    fn find(&self, key: RowKey) -> (at: usize)
        ensures
            at <= self.rows@.len(),
            at < self.rows@.len() ==> self.rows@[at as int].key == key,
            at == self.rows@.len() ==> !has_key(self.rows@, key),
    {
        let mut i: usize = 0;
        while i < self.rows.len()
            invariant
                i <= self.rows.len(),
                forall|k: int| 0 <= k < i ==> self.rows@[k].key != key,
            decreases self.rows.len() - i,
        {
            if self.rows[i].key == key {
                return i;
            }
            i += 1;
        }
        i
    }

    /// The row of user `uid` for the conversation `target`, if there is one.
    pub fn get(&self, uid: i32, target: IndexTarget) -> (row: Option<ReadIndexRow>)
        ensures
            row == match recorded(self@, RowKey { uid, target }) {
                Some(progress) => Some(ReadIndexRow::spec_of(RowKey { uid, target }, progress)),
                None => None,
            },
    {
        proof {
            use_type_invariant(self);
        }
        let key = RowKey { uid, target };
        let at: usize = self.find(key);
        if at < self.rows.len() {
            proof {
                let chosen = place_of(self.rows@, key);
                assert(self.rows@[at as int].key == key);
                assert(chosen == at) by {
                    if chosen < at {
                        assert(self.rows@[chosen].key != self.rows@[at as int].key);
                    } else if chosen > at {
                        assert(self.rows@[at as int].key != self.rows@[chosen].key);
                    }
                }
            }
            Some(ReadIndexRow::of(key, self.rows[at].progress))
        } else {
            None
        }
    }

    /// Makes one upsert: inserts the row where no row has the key, and
    /// where one has, moves its latest fields to a newer message, never
    /// back, and overwrites its acknowledgement only if the upsert says so.
    pub fn upsert(&mut self, op: ReadIndexUpsert)
        ensures
            final(self)@ == upserted(old(self)@, op),
    {
        proof {
            use_type_invariant(&*self);
        }
        let ghost before = self.rows@;
        let ghost table = self@;
        let at: usize = self.find(op.key);
        let mut rows: Vec<Entry> = Vec::new();
        core::mem::swap(&mut self.rows, &mut rows);
        if at < rows.len() {
            let existing: Entry = rows[at];
            let entry = Entry { key: op.key, progress: op.apply(Some(existing.progress)) };
            rows.set(at, entry);
            proof {
                let chosen = place_of(before, op.key);
                assert(before[at as int].key == op.key);
                assert(chosen == at) by {
                    if chosen < at {
                        assert(before[chosen].key != before[at as int].key);
                    } else if chosen > at {
                        assert(before[at as int].key != before[chosen].key);
                    }
                }
                assert(entry.progress == op.outcome(recorded(table, op.key)));
                assert forall|i: int| 0 <= i < rows@.len() implies #[trigger] rows@[i].key == before[i].key by {}
                assert(distinct_keys(rows@)) by {
                    assert forall|i: int, j: int| 0 <= i < j < rows@.len() implies rows@[i].key != rows@[j].key by {
                        assert(before[i].key != before[j].key);
                    }
                }
                lemma_table_after_set(before, rows@, at as int, entry);
            }
        } else {
            let entry = Entry { key: op.key, progress: op.apply(None) };
            rows.push(entry);
            proof {
                assert(!has_key(before, op.key));
                assert(entry.progress == op.outcome(recorded(table, op.key)));
                assert(distinct_keys(rows@)) by {
                    assert forall|i: int, j: int| 0 <= i < j < rows@.len() implies rows@[i].key != rows@[j].key by {
                        if j < before.len() {
                            assert(before[i].key != before[j].key);
                        } else {
                            assert(before[i].key == rows@[i].key);
                            if before[i].key == op.key {
                                assert(has_key(before, op.key));
                            }
                        }
                    }
                }
                lemma_table_after_push(before, rows@, entry);
            }
        }
        core::mem::swap(&mut self.rows, &mut rows);
    }

    /// Makes the upserts of `ops`, in order.
    pub fn upsert_all(&mut self, ops: &Vec<ReadIndexUpsert>)
        ensures
            final(self)@ == upserted_all(old(self)@, ops@),
    {
        let mut i: usize = 0;
        assert(ops@.take(0) =~= Seq::<ReadIndexUpsert>::empty());
        while i < ops.len()
            invariant
                i <= ops.len(),
                self@ == upserted_all(old(self)@, ops@.take(i as int)),
            decreases ops.len() - i,
        {
            proof {
                assert(ops@.take(i + 1).drop_last() =~= ops@.take(i as int));
                assert(ops@.take(i + 1).last() == ops@[i as int]);
            }
            self.upsert(ops[i]);
            i += 1;
        }
        assert(ops@.take(ops.len() as int) =~= ops@);
    }
}

/// The map that rows stand for.
spec fn table_of(rows: Seq<Entry>) -> Map<RowKey, Progress> {
    Map::new(|key: RowKey| has_key(rows, key), |key: RowKey| rows[place_of(rows, key)].progress)
}

proof fn lemma_place(rows: Seq<Entry>, at: int)
    requires
        distinct_keys(rows),
        0 <= at < rows.len(),
    ensures
        has_key(rows, rows[at].key),
        place_of(rows, rows[at].key) == at,
{
    let key = rows[at].key;
    assert(rows[at].key == key);
    let chosen = place_of(rows, key);
    if chosen < at {
        assert(rows[chosen].key != rows[at].key);
    } else if chosen > at {
        assert(rows[at].key != rows[chosen].key);
    }
}

proof fn lemma_table_after_set(before: Seq<Entry>, after: Seq<Entry>, at: int, entry: Entry)
    requires
        distinct_keys(before),
        distinct_keys(after),
        0 <= at < before.len(),
        after == before.update(at, entry),
        entry.key == before[at].key,
    ensures
        table_of(after) == table_of(before).insert(entry.key, entry.progress),
{
    let target = table_of(before).insert(entry.key, entry.progress);
    assert forall|key: RowKey| table_of(after).contains_key(key) <==> target.contains_key(key) by {
        if has_key(after, key) {
            let i = place_of(after, key);
            assert(before[i].key == key);
        }
        if has_key(before, key) {
            let i = place_of(before, key);
            assert(after[i].key == key);
        }
        if key == entry.key {
            assert(after[at].key == key);
        }
    }
    assert forall|key: RowKey| table_of(after).contains_key(key) implies table_of(after)[key] == target[key] by {
        let i = place_of(after, key);
        lemma_place(after, i);
        if key == entry.key {
            lemma_place(after, at);
        } else {
            assert(before[i].key == key);
            lemma_place(before, i);
        }
    }
    assert(table_of(after) =~= target);
}

proof fn lemma_table_after_push(before: Seq<Entry>, after: Seq<Entry>, entry: Entry)
    requires
        distinct_keys(before),
        distinct_keys(after),
        after == before.push(entry),
        !has_key(before, entry.key),
    ensures
        table_of(after) == table_of(before).insert(entry.key, entry.progress),
{
    let target = table_of(before).insert(entry.key, entry.progress);
    assert forall|key: RowKey| table_of(after).contains_key(key) <==> target.contains_key(key) by {
        if has_key(after, key) {
            let i = place_of(after, key);
            if i < before.len() {
                assert(before[i].key == key);
            }
        }
        if has_key(before, key) {
            let i = place_of(before, key);
            assert(after[i].key == key);
        }
        if key == entry.key {
            assert(after[before.len() as int].key == key);
        }
    }
    assert forall|key: RowKey| table_of(after).contains_key(key) implies table_of(after)[key] == target[key] by {
        let i = place_of(after, key);
        lemma_place(after, i);
        if key == entry.key {
            lemma_place(after, before.len() as int);
        } else {
            assert(before[i].key == key);
            lemma_place(before, i);
        }
    }
    assert(table_of(after) =~= target);
}

/// Moves the read index forward as user `uid` asks: makes, in `table`, the
/// upserts that the update asks for. `members` are the members of the group
/// at this moment; an update for a direct conversation does not look at
/// them.
pub fn set_read_index(table: &mut ReadIndexTable, uid: i32, read_index: UpdateReadIndex, members: &Vec<i32>)
    ensures
        final(table)@ == upserted_all(old(table)@, spec_plan(uid, read_index, members@)),
{
    let ops = plan_read_index(uid, read_index, members);
    table.upsert_all(&ops);
}

/// What is shown as unread for a row: nothing for a row with both targets
/// or neither, else what the store counts after the message that the row's
/// user acknowledged.
pub open spec fn spec_unread_of(ri: ReadIndexRow, db: crate::store::StoreView) -> Option<UnRead> {
    match ri.spec_target() {
        Some(IndexTarget::User(target_uid)) => match ri.mid {
            None => Some(UnRead::ALL),
            Some(read) => unread(
                ri.mid,
                count_after(db.log, ConversationKey::spec_dm(ri.uid as i64, target_uid as i64), read),
            ),
        },
        Some(IndexTarget::Group(target_gid)) => match ri.mid {
            None => Some(UnRead::ALL),
            Some(read) => unread(ri.mid, count_after(db.log, ConversationKey::spec_group(target_gid as i64), read)),
        },
        None => None,
    }
}

/// What is unread for the row `ri`: everything, uncounted, for a user
/// who never acknowledged a message of the conversation, whatever it
/// holds; the number of messages after the one the user acknowledged;
/// nothing where there is no such message, and nothing for a row with
/// both targets or neither.
pub fn count_unread(ri: &ReadIndexRow, db: &MsgDb) -> (amount: Option<UnRead>)
    ensures
        amount == spec_unread_of(*ri, db@),
{
    match (ri.target_uid, ri.target_gid) {
        (Some(target_uid), None) => count_dm_unread(ri.uid, target_uid, ri.mid, db),
        (None, Some(target_gid)) => count_group_unread(target_gid, ri.mid, db),
        _ => None,
    }
}

/// What is shown as unread for the row `ri`: `all`, or the count in
/// decimal, or nothing, as `count_unread` finds.
pub fn count_unread_msg(ri: &ReadIndexRow, db: &MsgDb) -> (shown: Option<String>)
    ensures
        match shown {
            Some(text) => spec_unread_of(*ri, db@) matches Some(amount) && text@ == amount.spec_text(),
            None => spec_unread_of(*ri, db@) is None,
        },
{
    match count_unread(ri, db) {
        Some(amount) => Some(amount.to_string()),
        None => None,
    }
}

} // verus!
