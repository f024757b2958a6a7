use crate::error::{Error, StoreFault};
use vstd::prelude::*;

verus! {

/// Names one conversation: a pair of users, whichever wrote first, or a group.
#[derive(Clone, Copy, Debug, PartialEq, Eq, Structural)]
pub enum ConversationKey {
    /// A direct conversation; `low <= high` in every key the store holds.
    Dm { low: i64, high: i64 },
    /// A group conversation.
    Group { gid: i64 },
}

impl ConversationKey {
    /// The key of the direct conversation between `a` and `b`, in either order.
    pub open spec fn spec_dm(a: i64, b: i64) -> ConversationKey {
        if a <= b {
            ConversationKey::Dm { low: a, high: b }
        } else {
            ConversationKey::Dm { low: b, high: a }
        }
    }

    /// The key of group `gid`.
    pub open spec fn spec_group(gid: i64) -> ConversationKey {
        ConversationKey::Group { gid }
    }

    /// A direct key is canonical when its users are in ascending order.
    pub open spec fn is_canonical(self) -> bool {
        match self {
            ConversationKey::Dm { low, high } => low <= high,
            ConversationKey::Group { .. } => true,
        }
    }

    /// The key of the direct conversation between `a` and `b`, in either order.
    #[verifier::when_used_as_spec(spec_dm)]
    pub fn dm(a: i64, b: i64) -> (key: ConversationKey)
        ensures
            key == Self::spec_dm(a, b),
            key.is_canonical(),
    {
        if a <= b {
            ConversationKey::Dm { low: a, high: b }
        } else {
            ConversationKey::Dm { low: b, high: a }
        }
    }

    /// The key of group `gid`.
    #[verifier::when_used_as_spec(spec_group)]
    pub fn group(gid: i64) -> (key: ConversationKey)
        ensures
            key == Self::spec_group(gid),
            key.is_canonical(),
    {
        ConversationKey::Group { gid }
    }

    /// Whether a stored key has its users in ascending order.
    pub fn canonical(&self) -> (ok: bool)
        ensures
            ok == self.is_canonical(),
    {
        match self {
            ConversationKey::Dm { low, high } => *low <= *high,
            ConversationKey::Group { .. } => true,
        }
    }
}

/// One message as contracts speak of it.
pub struct Record {
    pub id: i64,
    pub key: ConversationKey,
    /// The users whose feed the message enters: both users of a direct
    /// message, the members named when a group message was sent.
    pub audience: Seq<i64>,
    pub payload: Seq<u8>,
}

/// One message as the store holds it.
#[derive(Debug)]
pub struct StoredMessage {
    pub id: i64,
    pub key: ConversationKey,
    pub audience: Vec<i64>,
    pub payload: Vec<u8>,
}

impl View for StoredMessage {
    type V = Record;

    open spec fn view(&self) -> Record {
        Record { id: self.id, key: self.key, audience: self.audience@, payload: self.payload@ }
    }
}

/// The records that a vector of stored messages stands for.
pub open spec fn records_of(messages: Seq<StoredMessage>) -> Seq<Record> {
    messages.map_values(|m: StoredMessage| m@)
}

/// A log is ordered when identifiers rise strictly from each record to the next.
pub open spec fn strictly_ascending(log: Seq<Record>) -> bool {
    forall|i: int, j: int| 0 <= i < j < log.len() ==> log[i].id < log[j].id
}

/// The store as contracts speak of it.
pub struct StoreView {
    /// The identifier that the next message will get.
    pub next_id: i64,
    /// Every message ever stored, oldest first.
    pub log: Seq<Record>,
}

impl StoreView {
    /// What holds of every store: identifiers rise strictly along the log,
    /// all lie below the next identifier, and direct keys are canonical.
    pub open spec fn wf(self) -> bool {
        &&& strictly_ascending(self.log)
        &&& forall|i: int| 0 <= i < self.log.len() ==> (#[trigger] self.log[i]).id < self.next_id
        &&& forall|i: int| 0 <= i < self.log.len() ==> (#[trigger] self.log[i]).key.is_canonical()
    }

    /// The store after one more message for `key`, if an identifier is left.
    pub open spec fn append(self, key: ConversationKey, audience: Seq<i64>, payload: Seq<u8>) -> StoreView {
        StoreView {
            next_id: (self.next_id + 1) as i64,
            log: self.log.push(Record { id: self.next_id, key, audience, payload }),
        }
    }

    /// Whether the sequence can still give an identifier.
    pub open spec fn has_room(self) -> bool {
        self.next_id < i64::MAX
    }
}

/// Whether `id` lies below the bound `before`; no bound admits every `id`.
pub open spec fn below(id: i64, before: Option<i64>) -> bool {
    match before {
        Some(b) => id < b,
        None => true,
    }
}

/// Whether `id` lies above the bound `after`; no bound admits every `id`.
pub open spec fn above(id: i64, after: Option<i64>) -> bool {
    match after {
        Some(a) => id > a,
        None => true,
    }
}

/// The messages of conversation `key` with an identifier below `before`,
/// newest first.
pub open spec fn history_before(log: Seq<Record>, key: ConversationKey, before: Option<i64>) -> Seq<Record>
    decreases log.len(),
{
    if log.len() == 0 {
        Seq::empty()
    } else {
        let older = history_before(log.skip(1), key, before);
        if log[0].key == key && below(log[0].id, before) {
            older.push(log[0])
        } else {
            older
        }
    }
}

/// The messages with `user` in their audience and an identifier above
/// `after`, oldest first.
pub open spec fn feed_after(log: Seq<Record>, user: i64, after: Option<i64>) -> Seq<Record>
    decreases log.len(),
{
    if log.len() == 0 {
        Seq::empty()
    } else {
        let earlier = feed_after(log.drop_last(), user, after);
        if log.last().audience.contains(user) && above(log.last().id, after) {
            earlier.push(log.last())
        } else {
            earlier
        }
    }
}

/// How many messages of conversation `key` have an identifier above `after`.
pub open spec fn count_after(log: Seq<Record>, key: ConversationKey, after: i64) -> nat
    decreases log.len(),
{
    if log.len() == 0 {
        0
    } else {
        let earlier = count_after(log.drop_last(), key, after);
        if log.last().key == key && log.last().id > after {
            earlier + 1
        } else {
            earlier
        }
    }
}

/// The first `limit` items of `items`, all of them where there are fewer.
pub open spec fn first_n<A>(items: Seq<A>, limit: nat) -> Seq<A> {
    if limit < items.len() {
        items.take(limit as int)
    } else {
        items
    }
}

/// What a range query hands out for each record: identifier and payload.
pub open spec fn entries(records: Seq<Record>) -> Seq<(i64, Seq<u8>)> {
    records.map_values(|r: Record| (r.id, r.payload))
}

/// A page of a range query as contracts speak of it.
pub open spec fn page_view(page: Seq<(i64, Vec<u8>)>) -> Seq<(i64, Seq<u8>)> {
    page.map_values(|e: (i64, Vec<u8>)| (e.0, e.1@))
}

/// The payload stored under `id`, if the log holds such a message.
pub open spec fn payload_of(log: Seq<Record>, id: i64) -> Option<Seq<u8>> {
    if exists|i: int| 0 <= i < log.len() && log[i].id == id {
        let i = choose|i: int| 0 <= i < log.len() && log[i].id == id;
        Some(log[i].payload)
    } else {
        None
    }
}

/// The identifier that follows those of a log: one more than that of its
/// last record, `FIRST_ID` for a log without records.
pub open spec fn spec_next_after(log: Seq<Record>) -> int {
    if log.len() == 0 {
        FIRST_ID as int
    } else {
        log.last().id + 1
    }
}

/// The embedded message store: one append-only log and the sequence that
/// numbers it.
pub struct MsgDb {
    next_id: i64,
    log: Vec<StoredMessage>,
}

impl View for MsgDb {
    type V = StoreView;

    closed spec fn view(&self) -> StoreView {
        StoreView { next_id: self.next_id, log: records_of(self.log@) }
    }
}

/// The identifier that the first message of a fresh store gets.
pub const FIRST_ID: i64 = 1;

impl MsgDb {
    #[verifier::type_invariant]
    spec fn inv(&self) -> bool {
        self@.wf()
    }

    /// An empty store whose first message will get `FIRST_ID`.
    pub fn new() -> (db: MsgDb)
        ensures
            db@.next_id == FIRST_ID,
            db@.log == Seq::<Record>::empty(),
            db@.wf(),
    {
        let db = MsgDb { next_id: FIRST_ID, log: Vec::new() };
        assert(db@.log =~= Seq::<Record>::empty());
        db
    }

    /// The identifier that the next message will get.
    pub fn next_id(&self) -> (id: i64)
        ensures
            id == self@.next_id,
            self@.wf(),
    {
        proof {
            use_type_invariant(self);
        }
        self.next_id
    }

    fn append(&mut self, key: ConversationKey, audience: Vec<i64>, payload: &[u8]) -> (sent: Result<i64, Error>)
        requires
            key.is_canonical(),
        ensures
            final(self)@.wf(),
            match sent {
                Ok(id) => old(self)@.has_room() && id == old(self)@.next_id && final(self)@ == old(
                    self,
                )@.append(key, audience@, payload@),
                Err(e) => !old(self)@.has_room() && e == Error::Db(StoreFault::SequenceExhausted)
                    && final(self)@ == old(self)@,
            },
    {
        proof {
            use_type_invariant(&*self);
        }
        if self.next_id == i64::MAX {
            return Err(Error::Db(StoreFault::SequenceExhausted));
        }
        let id = self.next_id;
        let ghost before = self@;
        let mut log: Vec<StoredMessage> = Vec::new();
        core::mem::swap(&mut self.log, &mut log);
        log.push(StoredMessage { id, key, audience, payload: vstd::slice::slice_to_vec(payload) });
        self.next_id = id + 1;
        proof {
            let grown = before.log.push(Record { id, key, audience: audience@, payload: payload@ });
            assert(records_of(log@) =~= grown);
            assert(strictly_ascending(grown));
        }
        core::mem::swap(&mut self.log, &mut log);
        Ok(id)
    }

    /// Appends `payload` to the direct conversation of `from` and `to` and
    /// returns the identifier it was given. Both orders of the two users
    /// reach the same conversation. Fails, changing nothing, when the
    /// sequence has no identifier left.
    pub fn send_to_dm(&mut self, from: i64, to: i64, payload: &[u8]) -> (sent: Result<i64, Error>)
        ensures
            final(self)@.wf(),
            match sent {
                Ok(id) => old(self)@.has_room() && id == old(self)@.next_id && final(self)@ == old(
                    self,
                )@.append(ConversationKey::spec_dm(from, to), seq![from, to], payload@),
                Err(e) => !old(self)@.has_room() && e == Error::Db(StoreFault::SequenceExhausted)
                    && final(self)@ == old(self)@,
            },
    {
        let mut audience: Vec<i64> = Vec::new();
        audience.push(from);
        audience.push(to);
        assert(audience@ =~= seq![from, to]);
        self.append(ConversationKey::dm(from, to), audience, payload)
    }

    /// Appends `payload` once to the conversation of group `group_id` and
    /// returns the identifier it was given. The store keeps no membership:
    /// `member_ids` stays with this message alone, as the users whose feed it
    /// enters. Fails, changing nothing, when the sequence has no identifier
    /// left.
    pub fn send_to_group(&mut self, group_id: i64, member_ids: Vec<i64>, payload: &[u8]) -> (sent: Result<i64, Error>)
        ensures
            final(self)@.wf(),
            match sent {
                Ok(id) => old(self)@.has_room() && id == old(self)@.next_id && final(self)@ == old(
                    self,
                )@.append(ConversationKey::spec_group(group_id), member_ids@, payload@),
                Err(e) => !old(self)@.has_room() && e == Error::Db(StoreFault::SequenceExhausted)
                    && final(self)@ == old(self)@,
            },
    {
        self.append(ConversationKey::group(group_id), member_ids, payload)
    }
    /// Up to `limit` messages of one conversation with an identifier below
    /// `before`, newest first.
    fn fetch_before(&self, key: ConversationKey, before: Option<i64>, limit: usize) -> (page: Vec<(i64, Vec<u8>)>)
        ensures
            page_view(page@) == entries(first_n(history_before(self@.log, key, before), limit as nat)),
    {
        let mut page: Vec<(i64, Vec<u8>)> = Vec::new();
        let mut i: usize = self.log.len();
        let ghost log = self@.log;
        assert(log.skip(i as int) =~= Seq::<Record>::empty());
        assert(page_view(page@) =~= entries(history_before(log.skip(i as int), key, before)));
        while i > 0 && page.len() < limit
            invariant
                i <= self.log.len(),
                log == records_of(self.log@),
                page.len() <= limit,
                page_view(page@) == entries(history_before(log.skip(i as int), key, before)),
            decreases i,
        {
            let ghost newer = history_before(log.skip(i as int), key, before);
            let ghost shown = page_view(page@);
            i -= 1;
            let m = &self.log[i];
            let wanted = m.key == key && match before {
                Some(b) => m.id < b,
                None => true,
            };
            proof {
                assert(log.skip(i as int).skip(1) =~= log.skip(i + 1));
                assert(log.skip(i as int)[0] == m@);
            }
            if wanted {
                let payload = m.payload.clone();
                assert(payload@ =~= m.payload@);
                page.push((m.id, payload));
                proof {
                    assert(page_view(page@) =~= shown.push((m.id, m.payload@)));
                    assert(entries(newer.push(m@)) =~= entries(newer).push((m.id, m.payload@)));
                }
            }
        }
        proof {
            lemma_history_split(log, i as int, key, before);
            assert(log.skip(0) =~= log);
            let whole = history_before(log, key, before);
            let newer = history_before(log.skip(i as int), key, before);
            assert(page@.len() == newer.len());
            if limit < whole.len() {
                assert(whole.take(limit as int) =~= newer);
            } else {
                assert(whole =~= newer);
            }
        }
        page
    }

    /// Up to `limit` messages of the direct conversation of `user_a` and
    /// `user_b`, in either order, with an identifier below `before_id` (any
    /// identifier where there is none), newest first. The last identifier of
    /// a page is the `before_id` of the next.
    pub fn fetch_dm_messages_before(&self, user_a: i64, user_b: i64, before_id: Option<i64>, limit: usize) -> (page: Vec<(i64, Vec<u8>)>)
        ensures
            page_view(page@) == entries(
                first_n(history_before(self@.log, ConversationKey::spec_dm(user_a, user_b), before_id), limit as nat),
            ),
    {
        self.fetch_before(ConversationKey::dm(user_a, user_b), before_id, limit)
    }

    /// Up to `limit` messages of group `group_id` with an identifier below
    /// `before_id` (any identifier where there is none), newest first.
    pub fn fetch_group_messages_before(&self, group_id: i64, before_id: Option<i64>, limit: usize) -> (page: Vec<(i64, Vec<u8>)>)
        ensures
            page_view(page@) == entries(
                first_n(history_before(self@.log, ConversationKey::spec_group(group_id), before_id), limit as nat),
            ),
    {
        self.fetch_before(ConversationKey::group(group_id), before_id, limit)
    }

    /// Up to `limit` messages that have `user_id` in their audience, from
    /// every conversation, with an identifier above `after_id` (any
    /// identifier where there is none), oldest first.
    pub fn fetch_user_messages_after(&self, user_id: i64, after_id: Option<i64>, limit: usize) -> (page: Vec<(i64, Vec<u8>)>)
        ensures
            page_view(page@) == entries(first_n(feed_after(self@.log, user_id, after_id), limit as nat)),
    {
        let mut page: Vec<(i64, Vec<u8>)> = Vec::new();
        let mut i: usize = 0;
        let ghost log = self@.log;
        assert(log.take(0) =~= Seq::<Record>::empty());
        assert(page_view(page@) =~= entries(feed_after(log.take(0), user_id, after_id)));
        while i < self.log.len() && page.len() < limit
            invariant
                i <= self.log.len(),
                log == records_of(self.log@),
                page.len() <= limit,
                page_view(page@) == entries(feed_after(log.take(i as int), user_id, after_id)),
            decreases self.log.len() - i,
        {
            let ghost earlier = feed_after(log.take(i as int), user_id, after_id);
            let ghost shown = page_view(page@);
            let m = &self.log[i];
            let wanted = holds(&m.audience, user_id) && match after_id {
                Some(a) => m.id > a,
                None => true,
            };
            proof {
                assert(log.take(i + 1).drop_last() =~= log.take(i as int));
                assert(log.take(i + 1).last() == m@);
            }
            if wanted {
                let payload = m.payload.clone();
                assert(payload@ =~= m.payload@);
                page.push((m.id, payload));
                proof {
                    assert(page_view(page@) =~= shown.push((m.id, m.payload@)));
                    assert(entries(earlier.push(m@)) =~= entries(earlier).push((m.id, m.payload@)));
                }
            }
            i += 1;
        }
        proof {
            lemma_feed_split(log, i as int, user_id, after_id);
            assert(log.take(log.len() as int) =~= log);
            let whole = feed_after(log, user_id, after_id);
            let earlier = feed_after(log.take(i as int), user_id, after_id);
            assert(page@.len() == earlier.len());
            if limit < whole.len() {
                assert(whole.take(limit as int) =~= earlier);
            } else {
                assert(whole =~= earlier);
            }
        }
        page
    }

    /// The payload of the message with identifier `message_id`, if there is one.
    pub fn get(&self, message_id: i64) -> (found: Option<Vec<u8>>)
        ensures
            match found {
                Some(payload) => payload_of(self@.log, message_id) == Some(payload@),
                None => payload_of(self@.log, message_id) is None,
            },
    {
        proof {
            use_type_invariant(self);
        }
        let ghost log = self@.log;
        let mut lo: usize = 0;
        let mut hi: usize = self.log.len();
        while lo < hi
            invariant
                lo <= hi <= self.log.len(),
                log == records_of(self.log@),
                strictly_ascending(log),
                forall|k: int| 0 <= k < lo ==> (#[trigger] log[k]).id < message_id,
                forall|k: int| hi <= k < log.len() ==> (#[trigger] log[k]).id > message_id,
            decreases hi - lo,
        {
            let mid: usize = lo + (hi - lo) / 2;
            let m = &self.log[mid];
            assert(log[mid as int] == m@);
            if m.id == message_id {
                let payload = m.payload.clone();
                assert(payload@ =~= m.payload@);
                proof {
                    let chosen = choose|i: int| 0 <= i < log.len() && log[i].id == message_id;
                    assert(chosen == mid) by {
                        if chosen < mid {
                            assert(log[chosen].id < log[mid as int].id);
                        } else if chosen > mid {
                            assert(log[mid as int].id < log[chosen].id);
                        }
                    }
                }
                return Some(payload);
            } else if m.id < message_id {
                assert forall|k: int| 0 <= k < mid + 1 implies (#[trigger] log[k]).id < message_id by {
                    if k < mid {
                        assert(log[k].id < log[mid as int].id);
                    }
                }
                lo = mid + 1;
            } else {
                assert forall|k: int| mid <= k < log.len() implies (#[trigger] log[k]).id > message_id by {
                    if k > mid {
                        assert(log[mid as int].id < log[k].id);
                    }
                }
                hi = mid;
            }
        }
        None
    }

    /// How many messages of one conversation have an identifier above `after`.
    fn count_newer(&self, key: ConversationKey, after: i64) -> (count: usize)
        ensures
            count == count_after(self@.log, key, after),
    {
        let mut count: usize = 0;
        let mut i: usize = 0;
        let ghost log = self@.log;
        assert(log.take(0) =~= Seq::<Record>::empty());
        while i < self.log.len()
            invariant
                i <= self.log.len(),
                log == records_of(self.log@),
                count <= i,
                count == count_after(log.take(i as int), key, after),
            decreases self.log.len() - i,
        {
            let m = &self.log[i];
            proof {
                assert(log.take(i + 1).drop_last() =~= log.take(i as int));
                assert(log.take(i + 1).last() == m@);
            }
            if m.key == key && m.id > after {
                count += 1;
            }
            i += 1;
        }
        assert(log.take(log.len() as int) =~= log);
        count
    }

    /// How many messages of group `group_id` have an identifier above
    /// `after_id`; 0 for a group without messages and for an `after_id` that
    /// no message has.
    pub fn count_group_messages_after(&self, group_id: i64, after_id: i64) -> (count: usize)
        ensures
            count == count_after(self@.log, ConversationKey::spec_group(group_id), after_id),
    {
        self.count_newer(ConversationKey::group(group_id), after_id)
    }

    /// How many messages of the direct conversation of `from` and `to`, in
    /// either order, have an identifier above `after_id`.
    pub fn count_dm_messages_after(&self, from: i64, to: i64, after_id: i64) -> (count: usize)
        ensures
            count == count_after(self@.log, ConversationKey::spec_dm(from, to), after_id),
    {
        self.count_newer(ConversationKey::dm(from, to), after_id)
    }

    /// Rebuilds a store from the messages of an earlier one and the
    /// identifier it would have given next. Accepted are exactly the logs
    /// that a store can hold; any other is `InvalidData`.
    pub fn restore(next_id: i64, messages: Vec<StoredMessage>) -> (restored: Result<MsgDb, Error>)
        ensures
            match restored {
                Ok(db) => db@ == (StoreView { next_id, log: records_of(messages@) }) && db@.wf(),
                Err(e) => e == Error::InvalidData && !(StoreView { next_id, log: records_of(messages@) }).wf(),
            },
    {
        let ghost log = records_of(messages@);
        let ghost candidate = StoreView { next_id, log };
        let mut i: usize = 0;
        while i < messages.len()
            invariant
                i <= messages.len(),
                log == records_of(messages@),
                candidate == (StoreView { next_id, log }),
                forall|a: int, b: int| 0 <= a < b < i ==> log[a].id < log[b].id,
                forall|a: int| 0 <= a < i ==> (#[trigger] log[a]).id < next_id,
                forall|a: int| 0 <= a < i ==> (#[trigger] log[a]).key.is_canonical(),
            decreases messages.len() - i,
        {
            let m = &messages[i];
            assert(log[i as int] == m@);
            if !m.key.canonical() || m.id >= next_id {
                return Err(Error::InvalidData);
            }
            if i > 0 {
                let previous = &messages[i - 1];
                assert(log[i - 1] == previous@);
                if previous.id >= m.id {
                    return Err(Error::InvalidData);
                }
                assert forall|a: int, b: int| 0 <= a < b < i + 1 implies log[a].id < log[b].id by {
                    if b == i && a < i - 1 {
                        assert(log[a].id < log[i - 1].id);
                    }
                }
            }
            i += 1;
        }
        Ok(MsgDb { next_id, log: messages })
    }

    /// Opens a store on the messages of an earlier one: the next message
    /// gets the identifier after that of the last message, or `FIRST_ID`
    /// where there is none, so that no identifier is given twice. Accepted
    /// are exactly the logs that a store can hold and that leave such an
    /// identifier; any other is `InvalidData`.
    pub fn reopen(messages: Vec<StoredMessage>) -> (reopened: Result<MsgDb, Error>)
        ensures
            match reopened {
                Ok(db) => {
                    &&& db@.log == records_of(messages@)
                    &&& db@.next_id == spec_next_after(records_of(messages@))
                    &&& spec_next_after(records_of(messages@)) <= i64::MAX
                    &&& db@.wf()
                },
                Err(e) => {
                    &&& e == Error::InvalidData
                    &&& spec_next_after(records_of(messages@)) > i64::MAX || !(StoreView {
                        next_id: spec_next_after(records_of(messages@)) as i64,
                        log: records_of(messages@),
                    }).wf()
                },
            },
    {
        let next_id: i64 = if messages.len() == 0 {
            FIRST_ID
        } else {
            let last: i64 = messages[messages.len() - 1].id;
            assert(records_of(messages@).last().id == last);
            if last == i64::MAX {
                return Err(Error::InvalidData);
            }
            last + 1
        };
        Self::restore(next_id, messages)
    }

    /// A copy of every stored message, oldest first: with `next_id`, what
    /// `restore` needs to rebuild this store.
    pub fn records(&self) -> (copy: Vec<StoredMessage>)
        ensures
            records_of(copy@) == self@.log,
    {
        let mut copy: Vec<StoredMessage> = Vec::new();
        let mut i: usize = 0;
        while i < self.log.len()
            invariant
                i <= self.log.len(),
                copy.len() == i,
                forall|k: int| 0 <= k < i ==> (#[trigger] copy@[k])@ == self.log@[k]@,
            decreases self.log.len() - i,
        {
            let m = &self.log[i];
            let audience = m.audience.clone();
            let payload = m.payload.clone();
            assert(audience@ =~= m.audience@);
            assert(payload@ =~= m.payload@);
            copy.push(StoredMessage { id: m.id, key: m.key, audience, payload });
            i += 1;
        }
        assert(records_of(copy@) =~= self@.log);
        copy
    }
}

/// Whether `items` holds `wanted`.
pub fn holds(items: &Vec<i64>, wanted: i64) -> (found: bool)
    ensures
        found == items@.contains(wanted),
{
    let mut i: usize = 0;
    while i < items.len()
        invariant
            i <= items.len(),
            forall|k: int| 0 <= k < i ==> items@[k] != wanted,
        decreases items.len() - i,
    {
        if items[i] == wanted {
            return true;
        }
        i += 1;
    }
    false
}

/// The history of a log is that of its newer part followed by that of its
/// older part.
pub proof fn lemma_history_split(log: Seq<Record>, at: int, key: ConversationKey, before: Option<i64>)
    requires
        0 <= at <= log.len(),
    ensures
        history_before(log, key, before) == history_before(log.skip(at), key, before) + history_before(
            log.take(at),
            key,
            before,
        ),
    decreases log.len(),
{
    if at == 0 {
        assert(log.skip(0) =~= log);
        assert(log.take(0) =~= Seq::<Record>::empty());
        assert(history_before(log, key, before) =~= history_before(log, key, before) + Seq::<Record>::empty());
    } else {
        lemma_history_split(log.skip(1), at - 1, key, before);
        assert(log.skip(1).skip(at - 1) =~= log.skip(at));
        assert(log.take(at).skip(1) =~= log.skip(1).take(at - 1));
        assert(log.take(at)[0] == log[0]);
        let newer = history_before(log.skip(at), key, before);
        let older = history_before(log.skip(1).take(at - 1), key, before);
        if log[0].key == key && below(log[0].id, before) {
            assert((newer + older).push(log[0]) =~= newer + older.push(log[0]));
        }
    }
}

/// The feed of a log is that of its older part followed by that of its
/// newer part.
pub proof fn lemma_feed_split(log: Seq<Record>, at: int, user: i64, after: Option<i64>)
    requires
        0 <= at <= log.len(),
    ensures
        feed_after(log, user, after) == feed_after(log.take(at), user, after) + feed_after(
            log.skip(at),
            user,
            after,
        ),
    decreases log.len(),
{
    if at == log.len() {
        assert(log.take(at) =~= log);
        assert(log.skip(at) =~= Seq::<Record>::empty());
        assert(feed_after(log, user, after) =~= feed_after(log, user, after) + Seq::<Record>::empty());
    } else {
        lemma_feed_split(log.drop_last(), at, user, after);
        assert(log.drop_last().take(at) =~= log.take(at));
        assert(log.skip(at).drop_last() =~= log.drop_last().skip(at));
        assert(log.skip(at).last() == log.last());
        let older = feed_after(log.take(at), user, after);
        let newer = feed_after(log.drop_last().skip(at), user, after);
        if log.last().audience.contains(user) && above(log.last().id, after) {
            assert((older + newer).push(log.last()) =~= older + newer.push(log.last()));
        }
    }
}

} // verus!
