//! The separators of a `readuntil` call and the search for the first one that ends a chunk.

use vstd::prelude::*;
use crate::objects::ExceptionClass;

verus! {

/// `needle` stands in `haystack` from index `at` on.
pub open spec fn occurs_at(haystack: Seq<u8>, needle: Seq<u8>, at: int) -> bool {
    &&& 0 <= at
    &&& at + needle.len() <= haystack.len()
    &&& haystack.subrange(at, at + needle.len()) == needle
}

/// `memchr::memmem::find` returns the index of the first occurrence of the needle, or nothing
/// where the needle does not occur. An empty needle occurs at every index.
pub assume_specification[ memchr::memmem::find ](haystack: &[u8], needle: &[u8]) -> (found: Option<
    usize,
>)
    ensures
        match found {
            Some(at) => occurs_at(haystack@, needle@, at as int) && forall|p: int|
                p < at ==> !occurs_at(haystack@, needle@, p),
            None => forall|p: int| !occurs_at(haystack@, needle@, p),
        },
;

/// Shorter items stand before longer ones.
pub open spec fn sorted_by_len(items: Seq<Seq<u8>>) -> bool {
    forall|i: int, j: int| 0 <= i <= j < items.len() ==> items[i].len() <= items[j].len()
}

/// The items of length `n`, in their order.
pub open spec fn of_len(items: Seq<Seq<u8>>, n: nat) -> Seq<Seq<u8>> {
    items.filter(|item: Seq<u8>| item.len() == n)
}

/// `sorted` holds the items of `items`, shorter ones first, items of one length in the order in
/// which they stood.
pub open spec fn is_stable_sort_by_len(items: Seq<Seq<u8>>, sorted: Seq<Seq<u8>>) -> bool {
    &&& sorted_by_len(sorted)
    &&& forall|n: nat| of_len(sorted, n) == of_len(items, n)
}

/// Some separator stands at the end of `haystack[..end]`, from `start` on.
pub open spec fn separates(separators: Seq<Seq<u8>>, haystack: Seq<u8>, start: int, end: int) -> bool {
    exists|i: int|
        0 <= i < separators.len() && occurs_at(haystack, #[trigger] separators[i], start) && start
            + separators[i].len() == end
}

/// `haystack[..end]` is the shortest prefix that has any separator as a suffix, and
/// `haystack[start..end]` is the shortest such separator.
pub open spec fn is_shortest_match(
    separators: Seq<Seq<u8>>,
    haystack: Seq<u8>,
    start: int,
    end: int,
) -> bool {
    &&& separates(separators, haystack, start, end)
    &&& forall|s: int, e: int|
        #[trigger] separates(separators, haystack, s, e) ==> end < e || (end == e && s <= start)
}

/// No separator occurs in `haystack`.
pub open spec fn is_unseparated(separators: Seq<Seq<u8>>, haystack: Seq<u8>) -> bool {
    forall|s: int, e: int| !#[trigger] separates(separators, haystack, s, e)
}

/// The match that a search for any of the separators ends at.
pub open spec fn shortest_match(separators: Seq<Seq<u8>>, haystack: Seq<u8>) -> Option<(int, int)> {
    if is_unseparated(separators, haystack) {
        None
    } else {
        Some(
            choose|m: (int, int)| #[trigger]
                is_shortest_match(separators, haystack, m.0, m.1),
        )
    }
}

/// At most one match is the shortest.
pub proof fn lemma_shortest_match_is_unique(
    separators: Seq<Seq<u8>>,
    haystack: Seq<u8>,
    start: int,
    end: int,
)
    requires
        is_shortest_match(separators, haystack, start, end),
    ensures
        shortest_match(separators, haystack) == Some((start, end)),
{
    let m = (start, end);
    assert(is_shortest_match(separators, haystack, m.0, m.1));
    let c = choose|m: (int, int)| #[trigger] is_shortest_match(separators, haystack, m.0, m.1);
    assert(is_shortest_match(separators, haystack, c.0, c.1));
    assert(separates(separators, haystack, c.0, c.1));
    assert(separates(separators, haystack, start, end));
}

/// Why a set of separators is refused.
#[derive(Clone, Copy, PartialEq, Eq, Debug, Structural)]
pub enum SeparatorError {
    NoElement,
    EmptyElement,
}

impl SeparatorError {
    pub fn message(&self) -> (text: &'static str)
        ensures
            text@ == match *self {
                SeparatorError::NoElement => "Separator should contain at least one element"@,
                SeparatorError::EmptyElement => "Separator should be at least one-byte string"@,
            },
    {
        match self {
            SeparatorError::NoElement => "Separator should contain at least one element",
            SeparatorError::EmptyElement => "Separator should be at least one-byte string",
        }
    }

    /// The class of the exception that it becomes.
    pub open spec fn class(self) -> ExceptionClass {
        ExceptionClass::ValueError
    }

    pub fn exception(&self) -> (class: ExceptionClass)
        ensures
            class == self.class(),
    {
        ExceptionClass::ValueError
    }
}

/// The `separator` argument of `readuntil`, as far as its Python type tells.
pub enum SeparatorArgument {
    /// No argument, or `None`.
    Default,
    /// One object: its bytes, or nothing where it is not bytes-like.
    One(Option<Vec<u8>>),
    /// A tuple of objects.
    Many(Vec<Option<Vec<u8>>>),
}

/// An object among the separators is not bytes-like.
#[derive(Clone, Copy, PartialEq, Eq, Debug, Structural)]
pub struct SeparatorTypeError;

impl SeparatorTypeError {
    pub fn message(&self) -> (text: &'static str)
        ensures
            text@ == "separator must be bytes, bytearray, or a tuple of them"@,
    {
        "separator must be bytes, bytearray, or a tuple of them"
    }

    /// The class of the exception that it becomes.
    pub open spec fn class(self) -> ExceptionClass {
        ExceptionClass::TypeError
    }

    pub fn exception(&self) -> (class: ExceptionClass)
        ensures
            class == self.class(),
    {
        ExceptionClass::TypeError
    }
}

/// What the argument names.
pub open spec fn are_separators(
    argument: SeparatorArgument,
    items: Result<Vec<Vec<u8>>, SeparatorTypeError>,
) -> bool {
    match argument {
        SeparatorArgument::Default => items matches Ok(items) && items@.len() == 1 && items@[0]@
            == seq![10u8],
        SeparatorArgument::One(None) => items is Err,
        SeparatorArgument::One(Some(bytes)) => items matches Ok(items) && items@ == seq![bytes],
        SeparatorArgument::Many(objects) => match items {
            Ok(items) => items@.len() == objects@.len() && forall|i: int|
                0 <= i < objects@.len() ==> objects@[i] == Some(#[trigger] items@[i]),
            Err(_) => exists|i: int| 0 <= i < objects@.len() && #[trigger] objects@[i] is None,
        },
    }
}

/// Without an argument a line feed separates. An object is taken as it is where it is bytes, and of
/// several all have to be; they keep their order.
pub proof fn law_separators_are_what_was_given(
    argument: SeparatorArgument,
    items: Result<Vec<Vec<u8>>, SeparatorTypeError>,
)
    requires
        are_separators(argument, items),
    ensures
        argument is Default ==> (items matches Ok(items) && items@.len() == 1 && items@[0]@.len()
            == 1 && items@[0]@[0] == 10),
        argument matches SeparatorArgument::One(object) ==> (items is Ok <==> object is Some),
        argument matches SeparatorArgument::One(Some(bytes)) ==> (items matches Ok(items)
            && items@.len() == 1 && items@[0] == bytes),
        argument matches SeparatorArgument::Many(objects) ==> (items matches Ok(items)
            ==> items@.len() == objects@.len() && forall|i: int|
            0 <= i < objects@.len() ==> objects@[i] == Some(#[trigger] items@[i])),
        argument matches SeparatorArgument::Many(objects) ==> (forall|i: int|
            0 <= i < objects@.len() ==> (#[trigger] objects@[i]) is Some) ==> items is Ok,
{
}

/// The byte strings of the argument, in order. A line feed where there is no argument.
pub fn extract_separators(argument: SeparatorArgument) -> (items: Result<
    Vec<Vec<u8>>,
    SeparatorTypeError,
>)
    ensures
        are_separators(argument, items),
{
    match argument {
        SeparatorArgument::Default => {
            let mut line_feed: Vec<u8> = Vec::new();
            line_feed.push(10u8);
            assert(line_feed@ =~= seq![10u8]);
            let mut items: Vec<Vec<u8>> = Vec::new();
            items.push(line_feed);
            Ok(items)
        },
        SeparatorArgument::One(None) => Err(SeparatorTypeError),
        SeparatorArgument::One(Some(bytes)) => {
            let mut items: Vec<Vec<u8>> = Vec::new();
            items.push(bytes);
            assert(items@ =~= seq![bytes]);
            Ok(items)
        },
        SeparatorArgument::Many(objects) => all_bytes(objects),
    }
}

/// The byte strings of the objects, where all of them are bytes-like.
fn all_bytes(objects: Vec<Option<Vec<u8>>>) -> (items: Result<Vec<Vec<u8>>, SeparatorTypeError>)
    ensures
        match items {
            Ok(items) => items@.len() == objects@.len() && forall|i: int|
                0 <= i < objects@.len() ==> objects@[i] == Some(#[trigger] items@[i]),
            Err(_) => exists|i: int| 0 <= i < objects@.len() && #[trigger] objects@[i] is None,
        },
{
    let ghost given = objects@;
    let mut rest: Vec<Option<Vec<u8>>> = objects;
    let mut items: Vec<Vec<u8>> = Vec::new();
    while rest.len() > 0
        invariant
            given == objects@,
            items@.len() + rest@.len() == given.len(),
            forall|i: int| 0 <= i < items@.len() ==> given[i] == Some(#[trigger] items@[i]),
            forall|i: int| 0 <= i < rest@.len() ==> #[trigger] rest@[i] == given[items@.len() + i],
        decreases rest.len(),
    {
        assert(rest@[0] == given[items@.len() as int]);
        let object = rest.remove(0);
        match object {
            Some(bytes) => items.push(bytes),
            None => {
                return Err(SeparatorTypeError);
            },
        }
    }
    Ok(items)
}

/// Separators that were checked: at least one, none of them empty, sorted by length.
pub struct Separators {
    items: Vec<Vec<u8>>,
    min_len: usize,
    max_len: usize,
}

impl View for Separators {
    type V = Seq<Seq<u8>>;

    closed spec fn view(&self) -> Seq<Seq<u8>> {
        self.items.deep_view()
    }
}

impl Separators {
    pub closed spec fn wf(&self) -> bool {
        &&& self@.len() > 0
        &&& sorted_by_len(self@)
        &&& self.min_len == self@.first().len()
        &&& self.max_len == self@.last().len()
        &&& self.min_len > 0
    }

    /// Checks and sorts separators that were given as raw byte strings.
    pub fn new(items: Vec<Vec<u8>>) -> (made: Result<Separators, SeparatorError>)
        ensures
            match made {
                Ok(separators) => separators.wf() && is_stable_sort_by_len(
                    items.deep_view(),
                    separators@,
                ) && items@.len() > 0 && forall|i: int|
                    0 <= i < items@.len() ==> (#[trigger] items@[i])@.len() > 0,
                Err(SeparatorError::NoElement) => items@.len() == 0,
                Err(SeparatorError::EmptyElement) => exists|i: int|
                    0 <= i < items@.len() && (#[trigger] items@[i])@.len() == 0,
            },
    {
        let ghost given = items.deep_view();
        let sorted = sort_by_len(items);
        proof {
            lemma_stable_sort_keeps_membership(given, sorted.deep_view());
        }
        if sorted.len() == 0 {
            proof {
                if given.len() > 0 {
                    assert(given.contains(given[0]));
                }
            }
            return Err(SeparatorError::NoElement);
        }
        let min_len: usize = sorted[0].len();
        let max_len: usize = sorted[sorted.len() - 1].len();
        assert(sorted.deep_view()[0] =~= sorted@[0]@);
        assert(sorted.deep_view().last() =~= sorted@[sorted@.len() - 1]@);
        assert(sorted.deep_view().contains(sorted.deep_view()[0]));
        assert(given.contains(sorted.deep_view()[0]));
        if min_len == 0 {
            proof {
                let i = choose|i: int|
                    0 <= i < given.len() && given[i] == sorted.deep_view()[0];
                assert(given[i] =~= items@[i]@);
            }
            return Err(SeparatorError::EmptyElement);
        }
        proof {
            assert forall|i: int| 0 <= i < items@.len() implies (#[trigger] items@[i])@.len()
                > 0 by {
                assert(given[i] =~= items@[i]@);
                assert(given.contains(given[i]));
                let j = choose|j: int|
                    0 <= j < sorted.deep_view().len() && sorted.deep_view()[j] == given[i];
                assert(sorted.deep_view()[0].len() <= sorted.deep_view()[j].len());
            }
        }
        Ok(Separators { items: sorted, min_len, max_len })
    }

    /// The length of the shortest separator.
    pub fn min_len(&self) -> (len: usize)
        requires
            self.wf(),
        ensures
            len > 0,
            self@.len() > 0,
            len == self@.first().len(),
            forall|i: int| 0 <= i < self@.len() ==> len <= (#[trigger] self@[i]).len(),
    {
        self.min_len
    }

    /// The length of the longest separator.
    pub fn max_len(&self) -> (len: usize)
        requires
            self.wf(),
        ensures
            len > 0,
            self@.len() > 0,
            len == self@.last().len(),
            forall|i: int| 0 <= i < self@.len() ==> (#[trigger] self@[i]).len() <= len,
    {
        self.max_len
    }

    /// Finds the match with the smallest end, and among those with that end the shortest
    /// separator.
    pub fn find_shortest(&self, haystack: &[u8]) -> (found: Option<(usize, usize)>)
        requires
            self.wf(),
        ensures
            match found {
                Some((start, end)) => is_shortest_match(
                    self@,
                    haystack@,
                    start as int,
                    end as int,
                ) && shortest_match(self@, haystack@) == Some((start as int, end as int)),
                None => is_unseparated(self@, haystack@) && shortest_match(self@, haystack@)
                    is None,
            },
    {
        let mut best: Option<(usize, usize)> = None;
        let mut i: usize = 0;
        while i < self.items.len()
            invariant
                self.wf(),
                i <= self.items.len(),
                match best {
                    Some((start, end)) => is_shortest_match(
                        self@.take(i as int),
                        haystack@,
                        start as int,
                        end as int,
                    ),
                    None => is_unseparated(self@.take(i as int), haystack@),
                },
            decreases self.items.len() - i,
        {
            let separator = &self.items[i];
            assert(self@[i as int] =~= separator@);
            let found = memchr::memmem::find(haystack, separator.as_slice());
            let ghost old_best = best;
            if let Some(start) = found {
                assert(start + separator@.len() <= haystack@.len());
                let haystack_len: usize = haystack.len();
                assert(start + separator@.len() <= haystack_len);
                let end: usize = start + separator.len();
                let better = match best {
                    None => true,
                    Some((_, best_end)) => end < best_end,
                };
                if better {
                    best = Some((start, end));
                }
            }
            proof {
                lemma_one_more_separator(self@, haystack@, i as int);
                match old_best {
                    None => {
                        if let Some(start) = found {
                            assert(separates(
                                self@.take(i + 1),
                                haystack@,
                                start as int,
                                start + separator@.len(),
                            ));
                        }
                    },
                    Some((old_start, old_end)) => {
                        lemma_match_separator_is_no_longer(
                            self@,
                            haystack@,
                            i as int,
                            old_start as int,
                            old_end as int,
                        );
                    },
                }
            }
            i += 1;
        }
        assert(self@.take(i as int) =~= self@);
        proof {
            if let Some((start, end)) = best {
                lemma_shortest_match_is_unique(self@, haystack@, start as int, end as int);
            }
        }
        best
    }
}

/// The matches of the first `i + 1` separators are those of the first `i` and those of the last.
proof fn lemma_one_more_separator(separators: Seq<Seq<u8>>, haystack: Seq<u8>, i: int)
    requires
        0 <= i < separators.len(),
    ensures
        forall|s: int, e: int| #[trigger]
            separates(separators.take(i + 1), haystack, s, e) <==> (separates(
                separators.take(i),
                haystack,
                s,
                e,
            ) || (occurs_at(haystack, separators[i], s) && s + separators[i].len() == e)),
{
    assert forall|s: int, e: int| #[trigger]
        separates(separators.take(i + 1), haystack, s, e) <==> (separates(
            separators.take(i),
            haystack,
            s,
            e,
        ) || (occurs_at(haystack, separators[i], s) && s + separators[i].len() == e)) by {
        let more = separators.take(i + 1);
        let fewer = separators.take(i);
        if separates(more, haystack, s, e) {
            let k = choose|k: int|
                0 <= k < more.len() && occurs_at(haystack, #[trigger] more[k], s) && s
                    + more[k].len() == e;
            if k < i {
                assert(fewer[k] == more[k]);
            }
        }
        if separates(fewer, haystack, s, e) {
            let k = choose|k: int|
                0 <= k < fewer.len() && occurs_at(haystack, #[trigger] fewer[k], s) && s
                    + fewer[k].len() == e;
            assert(more[k] == fewer[k]);
        }
        if occurs_at(haystack, separators[i], s) && s + separators[i].len() == e {
            assert(more[i] == separators[i]);
        }
    }
}

/// A match of one of the first `i` separators is no longer than separator `i`.
proof fn lemma_match_separator_is_no_longer(
    separators: Seq<Seq<u8>>,
    haystack: Seq<u8>,
    i: int,
    start: int,
    end: int,
)
    requires
        sorted_by_len(separators),
        0 <= i < separators.len(),
        separates(separators.take(i), haystack, start, end),
    ensures
        end - start <= separators[i].len(),
{
    let fewer = separators.take(i);
    let k = choose|k: int|
        0 <= k < fewer.len() && occurs_at(haystack, #[trigger] fewer[k], start) && start
            + fewer[k].len() == end;
    assert(fewer[k] == separators[k]);
    assert(separators[k].len() <= separators[i].len());
}

/// The items of one length are items.
proof fn lemma_of_len_holds_items(items: Seq<Seq<u8>>, n: nat)
    ensures
        forall|item: Seq<u8>|
            of_len(items, n).contains(item) <==> (items.contains(item) && item.len() == n),
    decreases items.len(),
{
    reveal(Seq::filter);
    let pick = |item: Seq<u8>| item.len() == n;
    if items.len() > 0 {
        let front = items.drop_last();
        lemma_of_len_holds_items(front, n);
        assert forall|item: Seq<u8>|
            of_len(items, n).contains(item) <==> (items.contains(item) && item.len() == n) by {
            assert(items =~= front.push(items.last()));
            if items.contains(item) {
                let k = choose|k: int| 0 <= k < items.len() && items[k] == item;
                if k < front.len() {
                    assert(front[k] == item);
                }
            }
            if front.contains(item) {
                let k = choose|k: int| 0 <= k < front.len() && front[k] == item;
                assert(items[k] == item);
            }
            assert(items[items.len() - 1] == items.last());
            let sub = front.filter(pick);
            assert(sub == of_len(front, n));
            if pick(items.last()) {
                assert(of_len(items, n) == sub.push(items.last()));
                if sub.contains(item) {
                    let k = choose|k: int| 0 <= k < sub.len() && sub[k] == item;
                    assert(sub.push(items.last())[k] == item);
                }
                assert(sub.push(items.last())[sub.len() as int] == items.last());
                if sub.push(items.last()).contains(item) && item != items.last() {
                    let k = choose|k: int|
                        0 <= k < sub.push(items.last()).len() && sub.push(items.last())[k] == item;
                    assert(sub[k] == item);
                }
            } else {
                assert(of_len(items, n) == sub);
            }
        }
    }
}

/// Where no item has length `n` there is nothing to pick.
proof fn lemma_of_len_is_empty(items: Seq<Seq<u8>>, n: nat)
    requires
        forall|k: int| 0 <= k < items.len() ==> (#[trigger] items[k]).len() != n,
    ensures
        of_len(items, n).len() == 0,
{
    lemma_of_len_holds_items(items, n);
    if of_len(items, n).len() > 0 {
        let first = of_len(items, n)[0];
        assert(of_len(items, n).contains(first));
    }
}

/// A stable sort by length holds exactly the items that it was given.
proof fn lemma_stable_sort_keeps_membership(items: Seq<Seq<u8>>, sorted: Seq<Seq<u8>>)
    requires
        is_stable_sort_by_len(items, sorted),
    ensures
        forall|item: Seq<u8>| items.contains(item) <==> sorted.contains(item),
{
    assert forall|item: Seq<u8>| items.contains(item) <==> sorted.contains(item) by {
        lemma_of_len_holds_items(items, item.len());
        lemma_of_len_holds_items(sorted, item.len());
        assert(of_len(items, item.len()) == of_len(sorted, item.len()));
        assert(of_len(items, item.len()).contains(item) == of_len(sorted, item.len()).contains(item));
    }
}

/// Putting `item` behind everything that is no longer than it keeps a stable sort.
proof fn lemma_insert_is_stable(sorted: Seq<Seq<u8>>, at: int, item: Seq<u8>)
    requires
        sorted_by_len(sorted),
        0 <= at <= sorted.len(),
        forall|k: int| 0 <= k < at ==> (#[trigger] sorted[k]).len() <= item.len(),
        forall|k: int| at <= k < sorted.len() ==> (#[trigger] sorted[k]).len() > item.len(),
    ensures
        sorted_by_len(sorted.insert(at, item)),
        forall|n: nat| #[trigger]
            of_len(sorted.insert(at, item), n) == of_len(sorted.push(item), n),
{
    let front = sorted.take(at);
    let back = sorted.skip(at);
    let one = seq![item];
    assert(sorted =~= front + back);
    assert(sorted.insert(at, item) =~= front + one + back);
    assert(sorted.push(item) =~= front + back + one);
    assert forall|n: nat| #[trigger]
        of_len(sorted.insert(at, item), n) == of_len(sorted.push(item), n) by {
        let pick = |x: Seq<u8>| x.len() == n;
        Seq::filter_distributes_over_add(front + one, back, pick);
        Seq::filter_distributes_over_add(front, one, pick);
        Seq::filter_distributes_over_add(front + back, one, pick);
        Seq::filter_distributes_over_add(front, back, pick);
        if n == item.len() {
            lemma_of_len_is_empty(back, n);
        } else {
            lemma_of_len_is_empty(one, n);
        }
        assert(of_len(sorted.insert(at, item), n) =~= of_len(sorted.push(item), n));
    }
}

/// Sorting loses no item and makes none up, and puts shorter ones first.
pub proof fn law_sorting_keeps_the_items(items: Seq<Seq<u8>>, sorted: Seq<Seq<u8>>)
    requires
        is_stable_sort_by_len(items, sorted),
    ensures
        forall|item: Seq<u8>| items.contains(item) <==> sorted.contains(item),
        forall|i: int, j: int|
            0 <= i <= j < sorted.len() ==> (#[trigger] sorted[i]).len() <= (#[trigger] sorted[j]).len(),
{
    lemma_stable_sort_keeps_membership(items, sorted);
}

/// A separator stands where its bytes stand, all of them and in their order.
pub proof fn law_occurrence_is_byte_for_byte(haystack: Seq<u8>, needle: Seq<u8>, at: int)
    ensures
        occurs_at(haystack, needle, at) <==> 0 <= at && at + needle.len() <= haystack.len()
            && forall|i: int| 0 <= i < needle.len() ==> haystack[at + i] == #[trigger] needle[i],
{
    if 0 <= at && at + needle.len() <= haystack.len() {
        let part = haystack.subrange(at, at + needle.len());
        if forall|i: int| 0 <= i < needle.len() ==> haystack[at + i] == #[trigger] needle[i] {
            assert(part =~= needle);
        }
        if part == needle {
            assert forall|i: int| 0 <= i < needle.len() implies haystack[at + i]
                == #[trigger] needle[i] by {
                assert(part[i] == haystack[at + i]);
            }
        }
    }
}

/// Sorts byte strings by length; those of one length keep their order.
pub fn sort_by_len(items: Vec<Vec<u8>>) -> (sorted: Vec<Vec<u8>>)
    ensures
        is_stable_sort_by_len(items.deep_view(), sorted.deep_view()),
        sorted@.len() == items@.len(),
{
    let ghost given = items.deep_view();
    let mut rest: Vec<Vec<u8>> = items;
    let mut sorted: Vec<Vec<u8>> = Vec::new();
    assert(sorted.deep_view() =~= given.take(0));
    let total: usize = rest.len();
    let mut done: usize = 0;
    while done < total
        invariant
            done <= total,
            total == given.len(),
            rest.deep_view() == given.skip(done as int),
            rest@.len() == total - done,
            sorted@.len() == done,
            sorted_by_len(sorted.deep_view()),
            forall|n: nat|
                of_len(sorted.deep_view(), n) == #[trigger] of_len(given.take(done as int), n),
        decreases total - done,
    {
        let ghost rest_before = rest.deep_view();
        let item = rest.remove(0);
        assert(item@ =~= given[done as int]) by {
            assert(rest_before[0] == given[done as int]);
        }
        assert forall|k: int| 0 <= k < rest@.len() implies rest.deep_view()[k] == given.skip(
            done + 1,
        )[k] by {
            assert(rest.deep_view()[k] == rest_before[k + 1]);
        }
        assert(rest.deep_view() =~= given.skip(done + 1));
        let ghost before = sorted.deep_view();
        let mut at: usize = sorted.len();
        while at > 0 && sorted[at - 1].len() > item.len()
            invariant
                at <= sorted@.len(),
                before == sorted.deep_view(),
                forall|k: int| at <= k < before.len() ==> (#[trigger] before[k]).len() > item@.len(),
            decreases at,
        {
            assert(before[at - 1] =~= sorted@[at - 1]@);
            at -= 1;
        }
        let ghost view = item@;
        proof {
            if at > 0 {
                assert(before[at - 1] =~= sorted@[at - 1]@);
            }
            assert forall|k: int| 0 <= k < at implies (#[trigger] before[k]).len() <= view.len() by {
                assert(before[k].len() <= before[at - 1].len());
            }
            lemma_insert_is_stable(before, at as int, view);
        }
        assert(item.deep_view() =~= view);
        let ghost sorted_before = sorted@;
        sorted.insert(at, item);
        assert forall|k: int| 0 <= k < sorted@.len() implies sorted.deep_view()[k] == before.insert(
            at as int,
            view,
        )[k] by {
            if k < at {
                assert(before[k] == sorted_before[k].deep_view());
            } else if k > at {
                assert(before[k - 1] == sorted_before[k - 1].deep_view());
            }
        }
        assert(sorted.deep_view() =~= before.insert(at as int, view));
        proof {
            assert(given.take(done + 1) =~= given.take(done as int).push(view));
            assert forall|n: nat|
                of_len(sorted.deep_view(), n) == #[trigger] of_len(given.take(done + 1), n) by {
                let pick = |x: Seq<u8>| x.len() == n;
                assert(of_len(before.insert(at as int, view), n) == of_len(before.push(view), n));
                assert(of_len(before, n) == of_len(given.take(done as int), n));
                Seq::filter_distributes_over_add(before, seq![view], pick);
                Seq::filter_distributes_over_add(given.take(done as int), seq![view], pick);
                assert(before.push(view) =~= before + seq![view]);
                assert(given.take(done as int).push(view) =~= given.take(done as int) + seq![view]);
            }
        }
        done += 1;
    }
    assert(given.take(total as int) =~= given);
    sorted
}

/// Where a separator occurs, one of the matches is the shortest.
pub proof fn lemma_shortest_match_exists(
    separators: Seq<Seq<u8>>,
    haystack: Seq<u8>,
    start: int,
    end: int,
)
    requires
        separates(separators, haystack, start, end),
    ensures
        exists|s: int, e: int| #[trigger] is_shortest_match(separators, haystack, s, e),
    decreases end, end - start,
{
    if !is_shortest_match(separators, haystack, start, end) {
        let (s, e) = choose|s: int, e: int| #[trigger]
            separates(separators, haystack, s, e) && !(end < e || (end == e && s <= start));
        lemma_shortest_match_exists(separators, haystack, s, e);
    }
}

/// What the search finds is the shortest match that there is.
pub proof fn law_match_is_shortest(
    separators: Seq<Seq<u8>>,
    haystack: Seq<u8>,
    start: int,
    end: int,
)
    requires
        shortest_match(separators, haystack) == Some((start, end)),
    ensures
        is_shortest_match(separators, haystack, start, end),
{
    let (s, e) = choose|s: int, e: int| #[trigger] separates(separators, haystack, s, e);
    lemma_shortest_match_exists(separators, haystack, s, e);
    let (s, e) = choose|s: int, e: int| #[trigger] is_shortest_match(separators, haystack, s, e);
    lemma_shortest_match_is_unique(separators, haystack, s, e);
}

/// The search picks the shortest prefix that ends in a separator: it does end in one, and nothing
/// shorter does.
pub proof fn law_search_picks_the_shortest_prefix(
    separators: Seq<Seq<u8>>,
    haystack: Seq<u8>,
    start: int,
    end: int,
)
    requires
        shortest_match(separators, haystack) == Some((start, end)),
    ensures
        0 <= start <= end <= haystack.len(),
        separates(separators, haystack.take(end), start, end),
        forall|s: int, e: int| #[trigger] separates(separators, haystack, s, e) ==> end <= e,
{
    law_match_is_shortest(separators, haystack, start, end);
    let k = choose|k: int|
        0 <= k < separators.len() && occurs_at(haystack, #[trigger] separators[k], start) && start
            + separators[k].len() == end;
    assert(haystack.take(end).subrange(start, end) =~= haystack.subrange(start, end));
    assert(occurs_at(haystack.take(end), separators[k], start));
}

/// Where no separator occurs, none occurs in what is left after bytes were taken off the front.
pub proof fn law_suffix_is_unseparated(separators: Seq<Seq<u8>>, haystack: Seq<u8>, n: int)
    requires
        is_unseparated(separators, haystack),
        0 <= n <= haystack.len(),
    ensures
        is_unseparated(separators, haystack.skip(n)),
{
    assert forall|s: int, e: int| !#[trigger] separates(separators, haystack.skip(n), s, e) by {
        if separates(separators, haystack.skip(n), s, e) {
            let k = choose|k: int|
                0 <= k < separators.len() && occurs_at(haystack.skip(n), #[trigger] separators[k], s)
                    && s + separators[k].len() == e;
            assert(haystack.skip(n).subrange(s, e) =~= haystack.subrange(s + n, e + n));
            assert(occurs_at(haystack, separators[k], s + n));
            assert(separates(separators, haystack, s + n, e + n));
        }
    }
}

/// What separates the front of a stream separates the stream, and what separates the stream within
/// its front separates the front.
proof fn lemma_front_has_the_early_matches(
    separators: Seq<Seq<u8>>,
    stream: Seq<u8>,
    n: int,
    start: int,
    end: int,
)
    requires
        0 <= n <= stream.len(),
    ensures
        separates(separators, stream.take(n), start, end) <==> (separates(
            separators,
            stream,
            start,
            end,
        ) && end <= n),
{
    let front = stream.take(n);
    if separates(separators, front, start, end) {
        let k = choose|k: int|
            0 <= k < separators.len() && occurs_at(front, #[trigger] separators[k], start) && start
                + separators[k].len() == end;
        assert(front.subrange(start, end) =~= stream.subrange(start, end));
        assert(occurs_at(stream, separators[k], start));
    }
    if separates(separators, stream, start, end) && end <= n {
        let k = choose|k: int|
            0 <= k < separators.len() && occurs_at(stream, #[trigger] separators[k], start) && start
                + separators[k].len() == end;
        assert(front.subrange(start, end) =~= stream.subrange(start, end));
        assert(occurs_at(front, separators[k], start));
    }
}

/// Bytes that come later never change a match: a search of the longer stream finds the same one.
pub proof fn law_later_bytes_keep_the_match(
    separators: Seq<Seq<u8>>,
    haystack: Seq<u8>,
    more: Seq<u8>,
    start: int,
    end: int,
)
    requires
        shortest_match(separators, haystack) == Some((start, end)),
    ensures
        shortest_match(separators, haystack + more) == Some((start, end)),
{
    law_match_is_shortest(separators, haystack, start, end);
    let stream = haystack + more;
    let n = haystack.len() as int;
    assert(stream.take(n) =~= haystack);
    lemma_front_has_the_early_matches(separators, stream, n, start, end);
    assert forall|s: int, e: int| #[trigger] separates(separators, stream, s, e) implies end < e || (
    end == e && s <= start) by {
        lemma_front_has_the_early_matches(separators, stream, n, s, e);
    }
    lemma_shortest_match_is_unique(separators, stream, start, end);
}

/// A match is found as early as possible: with the byte that completes it and with no byte before.
pub proof fn law_match_is_found_with_its_last_byte(
    separators: Seq<Seq<u8>>,
    haystack: Seq<u8>,
    start: int,
    end: int,
    n: int,
)
    requires
        shortest_match(separators, haystack) == Some((start, end)),
        0 <= n <= haystack.len(),
    ensures
        shortest_match(separators, haystack.take(n)) == if n < end {
            None
        } else {
            Some((start, end))
        },
{
    law_match_is_shortest(separators, haystack, start, end);
    let front = haystack.take(n);
    assert forall|s: int, e: int| #[trigger]
        separates(separators, front, s, e) implies n >= end && (end < e || (end == e && s
        <= start)) by {
        lemma_front_has_the_early_matches(separators, haystack, n, s, e);
    }
    if n >= end {
        lemma_front_has_the_early_matches(separators, haystack, n, start, end);
        lemma_shortest_match_is_unique(separators, front, start, end);
    } else {
        assert(is_unseparated(separators, front));
    }
}

} // verus!
