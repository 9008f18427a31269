//! Sets of names, kept in ascending order.

use vstd::prelude::*;
use crate::text;

verus! {

/// Each text stands before the ones behind it, so none occurs twice.
pub open spec fn ascending(list: Seq<Seq<char>>) -> bool {
    forall|i: int, j: int|
        0 <= i < j < list.len() ==> text::text_less(#[trigger] list[i], #[trigger] list[j])
}

/// The texts of a finite set in ascending order.
pub open spec fn in_order(set: Set<Seq<char>>) -> Seq<Seq<char>> {
    choose|list: Seq<Seq<char>>| #[trigger] ascending(list) && list.to_set() == set
}

/// A set of names without duplicates.
pub struct NameSet {
    names: Vec<String>,
}

impl View for NameSet {
    type V = Set<Seq<char>>;

    closed spec fn view(&self) -> Set<Seq<char>> {
        text::texts(self.names@).to_set()
    }
}

impl NameSet {
    #[verifier::type_invariant]
    spec fn sorted(self) -> bool {
        ascending(text::texts(self.names@))
    }

    /// The empty set.
    pub fn new() -> (set: NameSet)
        ensures
            set@ == Set::<Seq<char>>::empty(),
    {
        let set = NameSet { names: Vec::new() };
        assert(text::texts(set.names@).to_set() =~= Set::<Seq<char>>::empty());
        set
    }

    /// The number of names.
    pub fn len(&self) -> (n: usize)
        ensures
            self@.finite(),
            n == self@.len(),
    {
        proof {
            use_type_invariant(self);
            lemma_ascending_distinct(text::texts(self.names@));
            text::texts(self.names@).unique_seq_to_set();
        }
        self.names.len()
    }

    /// Whether the set holds no name.
    pub fn is_empty(&self) -> (empty: bool)
        ensures
            empty == (self@ == Set::<Seq<char>>::empty()),
    {
        proof {
            if self.names@.len() == 0 {
                assert(self@ =~= Set::<Seq<char>>::empty());
            } else {
                assert(text::texts(self.names@)[0] == self.names@[0]@);
                assert(self@.contains(text::texts(self.names@)[0]));
            }
        }
        self.names.len() == 0
    }

    /// Where `name` stands, or where it would have to stand.
    fn place(&self, name: &str) -> (k: usize)
        ensures
            k <= self.names@.len(),
            forall|i: int|
                0 <= i < k ==> text::text_less(#[trigger] text::texts(self.names@)[i], name@),
            forall|i: int|
                k <= i < self.names@.len() ==> !text::text_less(
                    #[trigger] text::texts(self.names@)[i],
                    name@,
                ),
    {
        proof {
            use_type_invariant(self);
        }
        let mut k: usize = 0;
        while k < self.names.len() && text::less(self.names[k].as_str(), name)
            invariant
                k <= self.names@.len(),
                ascending(text::texts(self.names@)),
                forall|i: int|
                    0 <= i < k ==> text::text_less(#[trigger] text::texts(self.names@)[i], name@),
            decreases self.names@.len() - k,
        {
            k = k + 1;
        }
        proof {
            let list = text::texts(self.names@);
            assert forall|i: int| k <= i < list.len() implies !text::text_less(
                #[trigger] list[i],
                name@,
            ) by {
                assert(list[k as int] == self.names@[k as int]@);
                if i > k && text::text_less(list[i], name@) {
                    text::lemma_text_less_transitive(list[k as int], list[i], name@);
                }
            }
        }
        k
    }

    /// Whether `name` is in the set.
    pub fn contains(&self, name: &str) -> (found: bool)
        ensures
            found == self@.contains(name@),
    {
        let k = self.place(name);
        proof {
            use_type_invariant(self);
            lemma_place(text::texts(self.names@), name@, k as int);
        }
        k < self.names.len() && text::text_eq(self.names[k].as_str(), name)
    }

    /// Adds `name`.
    pub fn insert(&mut self, name: String)
        ensures
            final(self)@ == old(self)@.insert(name@),
    {
        let k = self.place(name.as_str());
        proof {
            use_type_invariant(&*self);
            lemma_place(text::texts(self.names@), name@, k as int);
        }
        if k < self.names.len() && text::text_eq(self.names[k].as_str(), name.as_str()) {
            assert(self@.insert(name@) =~= self@);
            return;
        }
        let ghost list = text::texts(self.names@);
        let ghost added = name@;
        let mut names: Vec<String> = Vec::new();
        std::mem::swap(&mut names, &mut self.names);
        names.insert(k, name);
        proof {
            assert(text::texts(names@) =~= list.insert(k as int, added));
            lemma_ascending_insert(list, added, k as int);
        }
        self.names = names;
    }

    /// Takes `name` out.
    pub fn remove(&mut self, name: &str)
        ensures
            final(self)@ == old(self)@.remove(name@),
    {
        let k = self.place(name);
        proof {
            use_type_invariant(&*self);
            lemma_place(text::texts(self.names@), name@, k as int);
        }
        if !(k < self.names.len() && text::text_eq(self.names[k].as_str(), name)) {
            assert(self@.remove(name@) =~= self@);
            return;
        }
        let ghost list = text::texts(self.names@);
        let mut names: Vec<String> = Vec::new();
        std::mem::swap(&mut names, &mut self.names);
        let _ = names.remove(k);
        proof {
            assert(text::texts(names@) =~= list.remove(k as int));
            lemma_ascending_remove(list, k as int);
        }
        self.names = names;
    }

    /// The names in ascending order.
    pub fn to_list(&self) -> (list: Vec<String>)
        ensures
            ascending(text::texts(list@)),
            text::texts(list@).to_set() == self@,
            text::texts(list@) == in_order(self@),
    {
        let mut list: Vec<String> = Vec::new();
        let mut i: usize = 0;
        while i < self.names.len()
            invariant
                i <= self.names@.len(),
                list@ == self.names@.take(i as int),
            decreases self.names@.len() - i,
        {
            list.push(self.names[i].clone());
            i = i + 1;
        }
        proof {
            use_type_invariant(self);
            assert(list@ =~= self.names@);
            lemma_in_order(text::texts(list@));
        }
        list
    }
}

/// An ascending list holds nothing twice.
pub proof fn lemma_ascending_distinct(list: Seq<Seq<char>>)
    requires
        ascending(list),
    ensures
        list.no_duplicates(),
{
    assert forall|i: int, j: int|
        0 <= i < list.len() && 0 <= j < list.len() && i != j implies list[i] != list[j] by {
        let (a, b) = if i < j { (i, j) } else { (j, i) };
        assert(text::text_less(list[a], list[b]));
        text::lemma_text_less_total(list[a], list[b]);
    }
}

/// With `k` texts before `name`, it is in the list only if it stands at `k`.
proof fn lemma_place(list: Seq<Seq<char>>, name: Seq<char>, k: int)
    requires
        ascending(list),
        0 <= k <= list.len(),
        forall|i: int| 0 <= i < k ==> text::text_less(#[trigger] list[i], name),
        forall|i: int| k <= i < list.len() ==> !text::text_less(#[trigger] list[i], name),
    ensures
        list.contains(name) <==> k < list.len() && list[k] == name,
{
    if list.contains(name) {
        let i = choose|i: int| 0 <= i < list.len() && list[i] == name;
        text::lemma_text_less_total(name, name);
        if i > k {
            assert(text::text_less(list[k], list[i]));
        }
    }
}

proof fn lemma_ascending_insert(list: Seq<Seq<char>>, name: Seq<char>, k: int)
    requires
        ascending(list),
        !list.contains(name),
        0 <= k <= list.len(),
        forall|i: int| 0 <= i < k ==> text::text_less(#[trigger] list[i], name),
        forall|i: int| k <= i < list.len() ==> !text::text_less(#[trigger] list[i], name),
    ensures
        ascending(list.insert(k, name)),
        list.insert(k, name).to_set() == list.to_set().insert(name),
{
    let next = list.insert(k, name);
    assert forall|i: int, j: int| 0 <= i < j < next.len() implies text::text_less(
        #[trigger] next[i],
        #[trigger] next[j],
    ) by {
        if j < k {
            assert(next[i] == list[i] && next[j] == list[j]);
        } else if j == k {
            assert(next[i] == list[i]);
        } else if i < k {
            assert(next[i] == list[i] && next[j] == list[j - 1]);
        } else if i == k {
            assert(next[j] == list[j - 1]);
            assert(list.contains(list[j - 1]));
            text::lemma_text_less_total(list[j - 1], name);
        } else {
            assert(next[i] == list[i - 1] && next[j] == list[j - 1]);
        }
    }
    assert forall|x: Seq<char>| next.contains(x) <==> list.contains(x) || x == name by {
        if next.contains(x) {
            let i = choose|i: int| 0 <= i < next.len() && next[i] == x;
            if i != k {
                assert(list[if i < k { i } else { i - 1 }] == x);
            }
        }
        if list.contains(x) {
            let i = choose|i: int| 0 <= i < list.len() && list[i] == x;
            assert(next[if i < k { i } else { i + 1 }] == x);
        }
        assert(next[k] == name);
    }
    assert(next.to_set() =~= list.to_set().insert(name));
}

proof fn lemma_ascending_remove(list: Seq<Seq<char>>, k: int)
    requires
        ascending(list),
        0 <= k < list.len(),
    ensures
        ascending(list.remove(k)),
        list.remove(k).to_set() == list.to_set().remove(list[k]),
{
    let next = list.remove(k);
    lemma_ascending_distinct(list);
    assert forall|x: Seq<char>| next.contains(x) <==> list.contains(x) && x != list[k] by {
        if next.contains(x) {
            let i = choose|i: int| 0 <= i < next.len() && next[i] == x;
            assert(list[if i < k { i } else { i + 1 }] == x);
        }
        if list.contains(x) && x != list[k] {
            let i = choose|i: int| 0 <= i < list.len() && list[i] == x;
            assert(next[if i < k { i } else { i - 1 }] == x);
        }
    }
    assert(next.to_set() =~= list.to_set().remove(list[k]));
}

/// Two ascending lists of the same texts are the same list.
pub proof fn lemma_ascending_unique(a: Seq<Seq<char>>, b: Seq<Seq<char>>)
    requires
        ascending(a),
        ascending(b),
        a.to_set() == b.to_set(),
    ensures
        a == b,
    decreases a.len(),
{
    if a.len() == 0 {
        if b.len() > 0 {
            assert(b.to_set().contains(b[0]));
            assert(a.contains(b[0]));
        }
        assert(a =~= b);
    } else {
        assert(a.to_set().contains(a.last()));
        assert(b.contains(a.last()));
        let j = choose|j: int| 0 <= j < b.len() && b[j] == a.last();
        assert(b.to_set().contains(b.last()));
        assert(a.contains(b.last()));
        let i = choose|i: int| 0 <= i < a.len() && a[i] == b.last();
        assert(a.last() == b.last()) by {
            if i < a.len() - 1 && j < b.len() - 1 {
                assert(text::text_less(a[i], a[a.len() - 1]));
                assert(text::text_less(b[j], b[b.len() - 1]));
                text::lemma_text_less_total(a.last(), b.last());
            }
        }
        lemma_ascending_remove(a, a.len() - 1);
        lemma_ascending_remove(b, b.len() - 1);
        lemma_ascending_unique(a.remove(a.len() - 1), b.remove(b.len() - 1));
        assert(a =~= a.remove(a.len() - 1).push(a.last()));
        assert(b =~= b.remove(b.len() - 1).push(b.last()));
    }
}

/// An ascending list is the ordered form of its own set.
pub proof fn lemma_in_order(list: Seq<Seq<char>>)
    requires
        ascending(list),
    ensures
        in_order(list.to_set()) == list,
{
    let set = list.to_set();
    assert(ascending(list) && list.to_set() == set);
    lemma_ascending_unique(in_order(set), list);
}

proof fn lemma_place_exists(list: Seq<Seq<char>>, name: Seq<char>) -> (k: int)
    requires
        ascending(list),
    ensures
        0 <= k <= list.len(),
        forall|i: int| 0 <= i < k ==> text::text_less(#[trigger] list[i], name),
        forall|i: int| k <= i < list.len() ==> !text::text_less(#[trigger] list[i], name),
    decreases list.len(),
{
    if list.len() == 0 {
        0
    } else {
        let head = list.drop_last();
        assert forall|i: int, j: int| 0 <= i < j < head.len() implies text::text_less(
            #[trigger] head[i],
            #[trigger] head[j],
        ) by {
            assert(head[i] == list[i] && head[j] == list[j]);
        }
        let k = lemma_place_exists(head, name);
        assert forall|i: int| 0 <= i < head.len() implies head[i] == #[trigger] list[i] by {}
        if k < head.len() {
            assert(!text::text_less(head[k], name));
            if text::text_less(list.last(), name) {
                assert(text::text_less(list[k], list[list.len() - 1]));
                text::lemma_text_less_transitive(list[k], list.last(), name);
            }
            k
        } else if text::text_less(list.last(), name) {
            k + 1
        } else {
            k
        }
    }
}

/// Every finite set of texts has an ordered form.
pub proof fn lemma_in_order_exists(set: Set<Seq<char>>)
    requires
        set.finite(),
    ensures
        ascending(in_order(set)),
        in_order(set).to_set() == set,
    decreases set.len(),
{
    if set.len() == 0 {
        let list = Seq::<Seq<char>>::empty();
        assert(list.to_set() =~= set);
        assert(ascending(list));
    } else {
        let name = set.choose();
        let rest = set.remove(name);
        lemma_in_order_exists(rest);
        let list = in_order(rest);
        let k = lemma_place_exists(list, name);
        assert(list.contains(name) == list.to_set().contains(name));
        lemma_ascending_insert(list, name, k);
        let longer = list.insert(k, name);
        assert(longer.to_set() =~= set);
        assert(ascending(longer) && longer.to_set() == set);
    }
}

} // verus!
