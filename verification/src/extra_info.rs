//! Named facts about a transport: its socket, its addresses, its pipe.

use vstd::prelude::*;
use crate::objects::ObjectId;
use crate::text::same_text;
use crate::transport_start::pipe_facts;

verus! {

/// Objects by name. Of several entries with one name the last one counts.
pub struct ExtraInfo {
    entries: Vec<(String, ObjectId)>,
}

/// What a list of entries says of the names in it. Later entries win.
pub closed spec fn entries_map(entries: Seq<(String, ObjectId)>) -> Map<Seq<char>, ObjectId>
    decreases entries.len(),
{
    if entries.len() == 0 {
        Map::empty()
    } else {
        entries_map(entries.drop_last()).insert(entries.last().0@, entries.last().1)
    }
}

impl View for ExtraInfo {
    type V = Map<Seq<char>, ObjectId>;

    closed spec fn view(&self) -> Map<Seq<char>, ObjectId> {
        entries_map(self.entries@)
    }
}

/// A name that is in no entry is not in the map.
proof fn lemma_absent(entries: Seq<(String, ObjectId)>, name: Seq<char>)
    requires
        forall|i: int| 0 <= i < entries.len() ==> (#[trigger] entries[i]).0@ != name,
    ensures
        !entries_map(entries).contains_key(name),
    decreases entries.len(),
{
    if entries.len() > 0 {
        assert(entries.last() == entries[entries.len() - 1]);
        assert forall|i: int| 0 <= i < entries.drop_last().len() implies (
        #[trigger] entries.drop_last()[i]).0@ != name by {
            assert(entries.drop_last()[i] == entries[i]);
        }
        lemma_absent(entries.drop_last(), name);
    }
}

/// The last entry with a name says what it stands for.
proof fn lemma_present(entries: Seq<(String, ObjectId)>, at: int)
    requires
        0 <= at < entries.len(),
        forall|i: int| at < i < entries.len() ==> (#[trigger] entries[i]).0@ != entries[at].0@,
    ensures
        entries_map(entries).contains_key(entries[at].0@),
        entries_map(entries)[entries[at].0@] == entries[at].1,
    decreases entries.len(),
{
    if at < entries.len() - 1 {
        let front = entries.drop_last();
        assert(entries.last() == entries[entries.len() - 1]);
        assert(front[at] == entries[at]);
        assert forall|i: int| at < i < front.len() implies (#[trigger] front[i]).0@
            != front[at].0@ by {
            assert(front[i] == entries[i]);
        }
        lemma_present(front, at);
    }
}

/// The facts with one more, which replaces what its name stood for.
pub open spec fn with_fact(
    facts: Map<Seq<char>, ObjectId>,
    name: Seq<char>,
    value: ObjectId,
) -> Map<Seq<char>, ObjectId> {
    facts.insert(name, value)
}

/// The facts with others, which win.
pub open spec fn with_facts(
    facts: Map<Seq<char>, ObjectId>,
    other: Map<Seq<char>, ObjectId>,
) -> Map<Seq<char>, ObjectId> {
    facts.union_prefer_right(other)
}

impl ExtraInfo {
    pub fn new() -> (extra: Self)
        ensures
            extra@ == Map::<Seq<char>, ObjectId>::empty(),
    {
        ExtraInfo { entries: Vec::new() }
    }

    pub fn get(&self, name: &str) -> (found: Option<ObjectId>)
        ensures
            found == if self@.contains_key(name@) {
                Some(self@[name@])
            } else {
                None
            },
    {
        let mut left: usize = self.entries.len();
        while left > 0
            invariant
                left <= self.entries@.len(),
                forall|i: int|
                    left <= i < self.entries@.len() ==> (#[trigger] self.entries@[i]).0@ != name@,
            decreases left,
        {
            left -= 1;
            if same_text(self.entries[left].0.as_str(), name) {
                proof {
                    lemma_present(self.entries@, left as int);
                }
                return Some(self.entries[left].1);
            }
        }
        proof {
            lemma_absent(self.entries@, name@);
        }
        None
    }

    /// What was said under the name before is forgotten.
    pub fn insert(&mut self, name: String, value: ObjectId)
        ensures
            final(self)@ == with_fact(old(self)@, name@, value),
    {
        let ghost before = self.entries@;
        self.entries.push((name, value));
        assert(self.entries@.drop_last() =~= before);
    }

    /// Adds all of `other`. What `other` says wins.
    pub fn merge(&mut self, other: ExtraInfo)
        ensures
            final(self)@ == with_facts(old(self)@, other@),
    {
        let ghost start = self@;
        let ghost given = other.entries@;
        let mut rest: Vec<(String, ObjectId)> = other.entries;
        let mut done: usize = 0;
        assert(given.take(0) =~= Seq::empty());
        assert(self@ =~= start.union_prefer_right(entries_map(given.take(0))));
        assert(rest@ =~= given.skip(0));
        let total: usize = rest.len();
        while done < total
            invariant
                done <= total,
                total == given.len(),
                rest@ == given.skip(done as int),
                self@ == start.union_prefer_right(entries_map(given.take(done as int))),
            decreases total - done,
        {
            let ghost entry = given[done as int];
            assert(rest@[0] == entry);
            let (name, value) = rest.remove(0);
            self.insert(name, value);
            proof {
                assert(given.take(done + 1).drop_last() =~= given.take(done as int));
                assert(rest@ =~= given.skip(done + 1));
                assert(self@ =~= start.union_prefer_right(entries_map(given.take(done + 1))));
            }
            done += 1;
        }
        assert(given.take(total as int) =~= given);
    }
}

/// What is said of a socket: itself, and its addresses as far as they could be had.
pub open spec fn socket_facts(
    socket: ObjectId,
    sockname: Option<ObjectId>,
    peername: Option<ObjectId>,
) -> Map<Seq<char>, ObjectId> {
    let base = Map::<Seq<char>, ObjectId>::empty().insert("socket"@, socket);
    let named = match sockname {
        Some(sockname) => base.insert("sockname"@, sockname),
        None => base,
    };
    match peername {
        Some(peername) => named.insert("peername"@, peername),
        None => named,
    }
}

/// The extra info of a pipe transport: the pipe under two names, then what the caller adds.
pub fn pipe_extra(pipe: ObjectId, extra_entries: Option<ExtraInfo>) -> (extra: ExtraInfo)
    ensures
        extra@ == pipe_facts(
            pipe,
            match extra_entries {
                Some(entries) => entries@,
                None => Map::empty(),
            },
        ),
{
    let mut extra = ExtraInfo::new();
    extra.insert("pipe".to_owned(), pipe);
    extra.insert("file".to_owned(), pipe);
    if let Some(entries) = extra_entries {
        extra.merge(entries);
    }
    extra
}

/// The extra info of a socket transport. An address that could not be had is left out.
pub fn make_stream_extra(
    socket: ObjectId,
    sockname: Option<ObjectId>,
    peername: Option<ObjectId>,
) -> (extra: ExtraInfo)
    ensures
        extra@ == socket_facts(socket, sockname, peername),
{
    let mut extra = ExtraInfo::new();
    extra.insert("socket".to_owned(), socket);
    if let Some(sockname) = sockname {
        extra.insert("sockname".to_owned(), sockname);
    }
    if let Some(peername) = peername {
        extra.insert("peername".to_owned(), peername);
    }
    extra
}

} // verus!
