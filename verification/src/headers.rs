//! A list of headers in which no name occurs twice.

use crate::http::HeaderText;
use vstd::prelude::*;
use vstd::string::*;

verus! {

/// Where `name` stands in `list`: the last position that holds it.
pub open spec fn position(list: Seq<HeaderText>, name: Seq<char>) -> Option<int>
    decreases list.len(),
{
    if list.len() == 0 {
        None
    } else if list.last().0 == name {
        Some(list.len() - 1)
    } else {
        position(list.drop_last(), name)
    }
}

/// The list after `name` was given `value`: the pair takes the place of the
/// one that held the name, or is added at the end where there was none.
pub open spec fn with_header(list: Seq<HeaderText>, name: Seq<char>, value: Seq<char>) -> Seq<
    HeaderText,
> {
    match position(list, name) {
        Some(i) => list.update(i, (name, value)),
        None => list.push((name, value)),
    }
}

/// The list after every header of `more` was given to it in turn.
pub open spec fn with_headers(list: Seq<HeaderText>, more: Seq<HeaderText>) -> Seq<HeaderText>
    decreases more.len(),
{
    if more.len() == 0 {
        list
    } else {
        with_header(with_headers(list, more.drop_last()), more.last().0, more.last().1)
    }
}

/// Whether no name occurs twice in `list`.
pub open spec fn names_distinct(list: Seq<HeaderText>) -> bool {
    forall|i: int, j: int| 0 <= i < j < list.len() ==> (#[trigger] list[i]).0 != (#[trigger] list[j]).0
}

/// `position` finds the name wherever it occurs, and nothing where it does not.
pub proof fn lemma_position(list: Seq<HeaderText>, name: Seq<char>)
    ensures
        match position(list, name) {
            Some(i) => 0 <= i < list.len() && list[i].0 == name && forall|k: int|
                i < k < list.len() ==> (#[trigger] list[k]).0 != name,
            None => forall|k: int| 0 <= k < list.len() ==> (#[trigger] list[k]).0 != name,
        },
    decreases list.len(),
{
    if list.len() > 0 && list.last().0 != name {
        lemma_position(list.drop_last(), name);
        assert forall|k: int| 0 <= k < list.len() - 1 implies list[k] == list.drop_last()[k] by {}
    }
}

/// Giving a header to a list without repeated names leaves it without
/// repeated names.
pub proof fn lemma_with_header_distinct(list: Seq<HeaderText>, name: Seq<char>, value: Seq<char>)
    requires
        names_distinct(list),
    ensures
        names_distinct(with_header(list, name, value)),
{
    lemma_position(list, name);
    let next = with_header(list, name, value);
    match position(list, name) {
        Some(p) => {
            assert forall|i: int, j: int| 0 <= i < j < next.len() implies (#[trigger] next[i]).0 != (
            #[trigger] next[j]).0 by {
                assert(list[i].0 != list[j].0);
            }
        },
        None => {
            assert forall|i: int, j: int| 0 <= i < j < next.len() implies (#[trigger] next[i]).0 != (
            #[trigger] next[j]).0 by {
                if j < list.len() {
                    assert(list[i].0 != list[j].0);
                } else {
                    assert(list[i].0 != name);
                }
            }
        },
    }
}

/// The value that `name` has in `list`, if it has one.
pub open spec fn value_of(list: Seq<HeaderText>, name: Seq<char>) -> Option<Seq<char>> {
    match position(list, name) {
        Some(i) => Some(list[i].1),
        None => None,
    }
}

/// A list of headers behaves as a map from names to values: a name that was
/// given a value has that value, every other name has what it had, and the
/// list grows by one only where the name is new.
pub proof fn law_with_header_sets_one_name(
    list: Seq<HeaderText>,
    name: Seq<char>,
    value: Seq<char>,
    other: Seq<char>,
)
    requires
        names_distinct(list),
    ensures
        value_of(with_header(list, name, value), name) == Some(value),
        other != name ==> value_of(with_header(list, name, value), other) == value_of(list, other),
        with_header(list, name, value).len() == if position(list, name) is None {
            list.len() + 1
        } else {
            list.len()
        },
{
    let next = with_header(list, name, value);
    lemma_with_header_distinct(list, name, value);
    lemma_position(list, name);
    lemma_position(next, name);
    lemma_position(list, other);
    lemma_position(next, other);
    match position(list, name) {
        Some(p) => {
            assert(next[p] == (name, value));
        },
        None => {
            assert(next[list.len() as int] == (name, value));
        },
    }
    if other != name {
        match position(list, other) {
            Some(q) => {
                assert(next[q] == list[q]);
                match position(next, other) {
                    Some(r) => {
                        assert(r == q);
                    },
                    None => {},
                }
            },
            None => {
                match position(next, other) {
                    Some(r) => {
                        if r < list.len() {
                            assert(next[r].0 == list[r].0);
                        }
                    },
                    None => {},
                }
            },
        }
    }
}

/// Header names with their values. A name occurs at most once; giving a name
/// a value again replaces the value it had.
#[derive(Debug)]
pub struct Headers {
    entries: Vec<(String, String)>,
}

impl View for Headers {
    type V = Seq<HeaderText>;

    closed spec fn view(&self) -> Seq<HeaderText> {
        Seq::new(self.entries@.len(), |i: int| (self.entries@[i].0@, self.entries@[i].1@))
    }
}

impl Headers {
    /// The invariant of the list: no name occurs twice.
    pub open spec fn wf(&self) -> bool {
        names_distinct(self@)
    }

    /// An empty list.
    pub fn new() -> (headers: Headers)
        ensures
            headers@ == Seq::<HeaderText>::empty(),
            headers.wf(),
    {
        let headers = Headers { entries: Vec::new() };
        assert(headers@ =~= Seq::<HeaderText>::empty());
        headers
    }

    /// The number of headers.
    pub fn len(&self) -> (n: usize)
        ensures
            n == self@.len(),
    {
        self.entries.len()
    }

    /// The name of the header at `index`.
    pub fn name_at(&self, index: usize) -> (name: &str)
        requires
            index < self@.len(),
        ensures
            name@ == self@[index as int].0,
    {
        self.entries[index].0.as_str()
    }

    /// The value of the header at `index`.
    pub fn value_at(&self, index: usize) -> (value: &str)
        requires
            index < self@.len(),
        ensures
            value@ == self@[index as int].1,
    {
        self.entries[index].1.as_str()
    }

    /// The value that `name` has, if it has one.
    pub fn get(&self, name: &str) -> (value: Option<&str>)
        requires
            self.wf(),
        ensures
            match position(self@, name@) {
                Some(i) => value matches Some(v) && v@ == self@[i].1,
                None => value is None,
            },
    {
        let wanted = name.to_owned();
        let mut i: usize = 0;
        while i < self.entries.len()
            invariant
                i <= self.entries.len(),
                wanted@ == name@,
                self.wf(),
                forall|k: int| 0 <= k < i ==> (#[trigger] self@[k]).0 != name@,
            decreases self.entries.len() - i,
        {
            if self.entries[i].0 == wanted {
                proof {
                    lemma_position(self@, name@);
                    assert(self@[i as int].0 == name@);
                }
                return Some(self.entries[i].1.as_str());
            }
            i += 1;
        }
        proof {
            lemma_position(self@, name@);
        }
        None
    }

    /// Gives `name` the value `value`, in place of any value it had.
    pub fn insert(&mut self, name: String, value: String)
        requires
            old(self).wf(),
        ensures
            final(self)@ == with_header(old(self)@, name@, value@),
            final(self).wf(),
    {
        let mut i: usize = 0;
        while i < self.entries.len()
            invariant
                i <= self.entries.len(),
                *self == *old(self),
                self.wf(),
                forall|k: int| 0 <= k < i ==> (#[trigger] self@[k]).0 != name@,
            decreases self.entries.len() - i,
        {
            if self.entries[i].0 == name {
                proof {
                    lemma_position(self@, name@);
                    lemma_with_header_distinct(self@, name@, value@);
                    assert(self@[i as int].0 == name@);
                    assert(position(self@, name@) == Some(i as int));
                }
                self.entries.set(i, (name, value));
                assert(self@ =~= with_header(old(self)@, name@, value@));
                return ;
            }
            i += 1;
        }
        proof {
            lemma_position(self@, name@);
            lemma_with_header_distinct(self@, name@, value@);
        }
        self.entries.push((name, value));
        assert(self@ =~= with_header(old(self)@, name@, value@));
    }

    /// Gives every header of `more` to the list, in the order of `more`.
    pub fn extend(&mut self, more: &Headers)
        requires
            old(self).wf(),
        ensures
            final(self)@ == with_headers(old(self)@, more@),
            final(self).wf(),
    {
        let mut i: usize = 0;
        while i < more.len()
            invariant
                i <= more@.len(),
                self.wf(),
                self@ == with_headers(old(self)@, more@.take(i as int)),
            decreases more@.len() - i,
        {
            let name = more.name_at(i).to_owned();
            let value = more.value_at(i).to_owned();
            self.insert(name, value);
            proof {
                assert(more@.take(i + 1).drop_last() =~= more@.take(i as int));
            }
            i += 1;
        }
        assert(more@.take(more@.len() as int) =~= more@);
    }
}

} // verus!
