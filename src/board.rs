//! The message repository: records kept in order of their ids, listed
//! newest first, deleted by id.
use vstd::prelude::*;
use crate::error::Fault;

verus! {

/// One stored message.
pub struct Message {
    pub id: u64,
    pub name: String,
    pub body: String,
    pub image_path: Option<String>,
    pub video_path: Option<String>,
}

/// What a message holds, as plain values.
pub ghost struct MessageRecord {
    pub id: u64,
    pub name: Seq<char>,
    pub body: Seq<char>,
    pub image_path: Option<Seq<char>>,
    pub video_path: Option<Seq<char>>,
}

pub open spec fn opt_text(o: Option<String>) -> Option<Seq<char>> {
    match o {
        Some(s) => Some(s@),
        None => None,
    }
}

impl View for Message {
    type V = MessageRecord;

    open spec fn view(&self) -> MessageRecord {
        MessageRecord {
            id: self.id,
            name: self.name@,
            body: self.body@,
            image_path: opt_text(self.image_path),
            video_path: opt_text(self.video_path),
        }
    }
}

fn copy_opt(o: &Option<String>) -> (r: Option<String>)
    ensures
        opt_text(r) == opt_text(*o),
{
    match o {
        Some(s) => Some(s.clone()),
        None => None,
    }
}

impl Message {
    /// A copy of this message.
    pub fn duplicate(&self) -> (r: Message)
        ensures
            r@ == self@,
    {
        Message {
            id: self.id,
            name: self.name.clone(),
            body: self.body.clone(),
            image_path: copy_opt(&self.image_path),
            video_path: copy_opt(&self.video_path),
        }
    }
}

/// The contents of a submission that is about to be stored.
pub struct NewMessage {
    pub name: String,
    pub body: String,
    pub image_path: Option<String>,
    pub video_path: Option<String>,
}

/// The record that `m` becomes under id `id`.
pub open spec fn record_of(id: u64, m: NewMessage) -> MessageRecord {
    MessageRecord {
        id,
        name: m.name@,
        body: m.body@,
        image_path: opt_text(m.image_path),
        video_path: opt_text(m.video_path),
    }
}

/// Ids strictly increase along `s`.
pub open spec fn ids_increasing(s: Seq<MessageRecord>) -> bool {
    forall|i: int, j: int| 0 <= i < j < s.len() ==> s[i].id < s[j].id
}

/// Ids strictly decrease along `s`.
pub open spec fn ids_decreasing(s: Seq<MessageRecord>) -> bool {
    forall|i: int, j: int| 0 <= i < j < s.len() ==> s[i].id > s[j].id
}

/// `s` read from its end to its start.
pub open spec fn newest_first(s: Seq<MessageRecord>) -> Seq<MessageRecord> {
    Seq::new(s.len(), |i: int| s[s.len() - 1 - i])
}

/// `s` without the record whose id is `id`, if there is one.
pub open spec fn without_id(s: Seq<MessageRecord>, id: u64) -> Seq<MessageRecord> {
    s.filter(|m: MessageRecord| m.id != id)
}

/// All messages, in order of insertion, with the id the next one will get.
pub struct MessageBoard {
    messages: Vec<Message>,
    next_id: u64,
}

impl View for MessageBoard {
    type V = Seq<MessageRecord>;

    closed spec fn view(&self) -> Seq<MessageRecord> {
        self.messages@.map_values(|m: Message| m@)
    }
}

impl MessageBoard {
    /// The id that the next insert assigns.
    pub closed spec fn next_id_spec(&self) -> u64 {
        self.next_id
    }

    /// Ids increase with insertion and stay below the next one, which is positive.
    pub closed spec fn wf(&self) -> bool {
        &&& ids_increasing(self@)
        &&& forall|i: int| 0 <= i < self@.len() ==> self@[i].id < self.next_id
        &&& self.next_id >= 1
    }

    /// An empty board; the first id is 1.
    pub fn new() -> (r: MessageBoard)
        ensures
            r.wf(),
            r@ == Seq::<MessageRecord>::empty(),
            r.next_id_spec() == 1,
    {
        let r = MessageBoard { messages: Vec::new(), next_id: 1 };
        assert(r@ =~= Seq::<MessageRecord>::empty());
        r
    }

    /// The id that the next insert assigns.
    pub fn next_id(&self) -> (r: u64)
        ensures
            r == self.next_id_spec(),
    {
        self.next_id
    }

    /// Appends a message under the next id and returns that id. Fails, and
    /// changes nothing, only when the ids are used up.
    pub fn insert(&mut self, m: NewMessage) -> (r: Result<u64, Fault>)
        requires
            old(self).wf(),
        ensures
            final(self).wf(),
            old(self).next_id_spec() == u64::MAX <==> r is Err,
            r matches Err(e) ==> e == Fault::Persistence && final(self)@ == old(self)@
                && final(self).next_id_spec() == old(self).next_id_spec(),
            r matches Ok(id) ==> id == old(self).next_id_spec()
                && final(self)@ == old(self)@.push(record_of(id, m))
                && final(self).next_id_spec() == id + 1,
    {
        if self.next_id == u64::MAX {
            return Err(Fault::Persistence);
        }
        let id = self.next_id;
        let ghost m_rec = record_of(id, m);
        let msg = Message {
            id,
            name: m.name,
            body: m.body,
            image_path: m.image_path,
            video_path: m.video_path,
        };
        assert(msg@ == m_rec);
        self.messages.push(msg);
        self.next_id = id + 1;
        assert(self@ =~= old(self)@.push(m_rec));
        Ok(id)
    }

    /// Brings back a message read from durable storage. Accepted, and
    /// appended, only when its id is at least the next id and below the
    /// largest; the next id then follows it.
    pub fn restore(&mut self, m: Message) -> (r: Result<(), Fault>)
        requires
            old(self).wf(),
        ensures
            final(self).wf(),
            r is Ok <==> old(self).next_id_spec() <= m.id < u64::MAX,
            r is Err ==> final(self)@ == old(self)@
                && final(self).next_id_spec() == old(self).next_id_spec(),
            r is Ok ==> final(self)@ == old(self)@.push(m@)
                && final(self).next_id_spec() == m.id + 1,
    {
        if m.id < self.next_id || m.id == u64::MAX {
            return Err(Fault::Persistence);
        }
        let ghost rec = m@;
        self.next_id = m.id + 1;
        self.messages.push(m);
        assert(self@ =~= old(self)@.push(rec));
        Ok(())
    }

    /// Makes sure no id up to `last` is handed out again (ids of deleted
    /// messages included). Ids already past `last` stay as they are.
    pub fn reserve_through(&mut self, last: u64)
        requires
            old(self).wf(),
        ensures
            final(self).wf(),
            final(self)@ == old(self)@,
            final(self).next_id_spec() == if old(self).next_id_spec() <= last && last < u64::MAX {
                (last + 1) as u64
            } else {
                old(self).next_id_spec()
            },
    {
        if self.next_id <= last && last < u64::MAX {
            self.next_id = last + 1;
        }
    }

    /// Every message, newest (largest id) first.
    pub fn list_all_desc(&self) -> (r: Vec<Message>)
        requires
            self.wf(),
        ensures
            r@.map_values(|m: Message| m@) == newest_first(self@),
            r@.len() == self@.len(),
            forall|i: int| 0 <= i < r@.len() ==> #[trigger] r@[i]@ == self@[self@.len() - 1 - i],
            ids_decreasing(newest_first(self@)),
    {
        let n = self.messages.len();
        let mut r: Vec<Message> = Vec::new();
        let mut k: usize = n;
        while k > 0
            invariant
                n == self.messages@.len(),
                k <= n,
                r@.len() == n - k,
                forall|i: int| 0 <= i < r@.len() ==> r@[i]@ == self.messages@[n - 1 - i]@,
            decreases k,
        {
            k = k - 1;
            r.push(self.messages[k].duplicate());
        }
        assert(r@.map_values(|m: Message| m@) =~= newest_first(self@));
        proof {
            law_newest_first_descends(self@);
        }
        r
    }

    /// The message with id `id`, if there is one.
    pub fn find(&self, id: u64) -> (r: Option<Message>)
        requires
            self.wf(),
        ensures
            r is None <==> forall|i: int| 0 <= i < self@.len() ==> self@[i].id != id,
            r matches Some(m) ==> exists|i: int| 0 <= i < self@.len() && self@[i] == m@ && m.id == id,
    {
        let n = self.messages.len();
        let mut i: usize = 0;
        while i < n
            invariant
                n == self.messages@.len(),
                i <= n,
                forall|j: int| 0 <= j < i ==> self@[j].id != id,
            decreases n - i,
        {
            if self.messages[i].id == id {
                let m = self.messages[i].duplicate();
                assert(self@[i as int] == m@);
                return Some(m);
            }
            i = i + 1;
        }
        None
    }

    /// Removes the message with id `id`. An id that no message has is no
    /// error: nothing changes.
    pub fn delete(&mut self, id: u64)
        requires
            old(self).wf(),
        ensures
            final(self).wf(),
            final(self)@ == without_id(old(self)@, id),
            (forall|i: int| 0 <= i < old(self)@.len() ==> old(self)@[i].id != id) ==> final(self)@ == old(self)@,
            forall|k: int| 0 <= k < old(self)@.len() && old(self)@[k].id == id ==> final(self)@ == old(self)@.remove(k),
            final(self).next_id_spec() == old(self).next_id_spec(),
    {
        let n = self.messages.len();
        let mut i: usize = 0;
        while i < n
            invariant
                n == self.messages@.len(),
                i <= n,
                self.wf(),
                self@ == old(self)@,
                self.next_id == old(self).next_id,
                forall|j: int| 0 <= j < i ==> self@[j].id != id,
            decreases n - i,
        {
            if self.messages[i].id == id {
                let ghost before = self@;
                self.messages.remove(i);
                proof {
                    assert(self@ =~= before.remove(i as int));
                    lemma_without_unique(before, i as int, id);
                    assert forall|a: int, b: int| 0 <= a < b < self@.len() implies self@[a].id < self@[b].id by {
                        let a0 = if a < i { a } else { a + 1 };
                        let b0 = if b < i { b } else { b + 1 };
                        assert(self@[a] == before[a0] && self@[b] == before[b0]);
                    }
                    assert forall|a: int| 0 <= a < self@.len() implies self@[a].id < self.next_id by {
                        let a0 = if a < i { a } else { a + 1 };
                        assert(self@[a] == before[a0]);
                    }
                }
                return;
            }
            i = i + 1;
        }
        proof {
            law_delete_absent_is_noop(self@, id);
        }
    }
}

proof fn lemma_without_unique(s: Seq<MessageRecord>, k: int, id: u64)
    requires
        ids_increasing(s),
        0 <= k < s.len(),
        s[k].id == id,
    ensures
        without_id(s, id) == s.remove(k),
    decreases s.len(),
{
    let f = |m: MessageRecord| m.id != id;
    let p = s.drop_last();
    let last = s.last();
    assert(s =~= p.push(last));
    p.lemma_filter_push(last, f);
    if k == s.len() - 1 {
        assert(s.remove(k) =~= p);
        assert forall|j: int| 0 <= j < p.len() implies p[j].id != id by {
            assert(p[j] == s[j]);
            assert(s[j].id < s[k].id);
        }
        law_delete_absent_is_noop(p, id);
    } else {
        assert(s[k].id < s[s.len() - 1].id);
        assert(p[k] == s[k]);
        assert(ids_increasing(p)) by {
            assert forall|i: int, j: int| 0 <= i < j < p.len() implies p[i].id < p[j].id by {
                assert(p[i] == s[i] && p[j] == s[j]);
            }
        }
        lemma_without_unique(p, k, id);
        assert(s.remove(k) =~= p.remove(k).push(last));
    }
}

/// A message inserted into an empty board is the whole listing, as it was
/// given.
pub proof fn law_round_trip(m: NewMessage)
    ensures
        newest_first(Seq::<MessageRecord>::empty().push(record_of(1, m))) == seq![record_of(1, m)],
{
    assert(newest_first(Seq::<MessageRecord>::empty().push(record_of(1, m))) =~= seq![record_of(1, m)]);
}

/// Reading a board newest first yields strictly decreasing ids.
pub proof fn law_newest_first_descends(s: Seq<MessageRecord>)
    requires
        ids_increasing(s),
    ensures
        ids_decreasing(newest_first(s)),
{
}

/// A new message with an id above all others is listed first, before the
/// previous listing.
pub proof fn law_insert_lists_first(s: Seq<MessageRecord>, m: MessageRecord)
    requires
        ids_increasing(s),
        forall|i: int| 0 <= i < s.len() ==> s[i].id < m.id,
    ensures
        newest_first(s.push(m)) == seq![m] + newest_first(s),
        ids_decreasing(newest_first(s.push(m))),
{
    assert(newest_first(s.push(m)) =~= seq![m] + newest_first(s));
}

/// Deleting an id that no message has leaves the messages as they were.
pub proof fn law_delete_absent_is_noop(s: Seq<MessageRecord>, id: u64)
    requires
        forall|i: int| 0 <= i < s.len() ==> s[i].id != id,
    ensures
        without_id(s, id) == s,
    decreases s.len(),
{
    let f = |m: MessageRecord| m.id != id;
    if s.len() > 0 {
        let p = s.drop_last();
        assert(s =~= p.push(s.last()));
        assert forall|j: int| 0 <= j < p.len() implies p[j].id != id by {
            assert(p[j] == s[j]);
        }
        law_delete_absent_is_noop(p, id);
        p.lemma_filter_push(s.last(), f);
    }
}

} // verus!
