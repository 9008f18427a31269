//! The bookmarks as they are stored: one id per line, in ascending order.

use vstd::prelude::*;
use crate::names;
use crate::names::NameSet;
use crate::text;

verus! {

/// The file that holds the bookmarks of the user with the home directory `home`.
pub open spec fn bookmarks_file(home: Seq<char>) -> Seq<char> {
    let sep = if home.len() == 0 || home.last() == '/' {
        ""@
    } else {
        "/"@
    };
    home + sep + ".config/ssm-monitor/favorites"@
}

/// The file that holds the bookmarks; without a home directory there is none.
pub fn favorites_path(home: Option<&str>) -> (path: Option<String>)
    ensures
        text::text_opt(path) == (match home {
            Some(h) => Some(bookmarks_file(h@)),
            None => None,
        }),
{
    match home {
        Some(h) => {
            let chars = text::to_chars(h);
            let n: usize = chars.len();
            let sep = if n == 0 || chars[n - 1] == '/' {
                ""
            } else {
                "/"
            };
            Some(text::concat3(h, sep, ".config/ssm-monitor/favorites"))
        },
        None => None,
    }
}

/// The text under which bookmarks are stored.
pub open spec fn stored_text(ids: Set<Seq<char>>) -> Seq<char> {
    text::joined(names::in_order(ids), "\n"@)
}

/// The text under which bookmarks are stored.
pub fn favorites_text(ids: &NameSet) -> (s: String)
    ensures
        s@ == stored_text(ids@),
{
    text::join(&ids.to_list(), "\n")
}

/// The lines of a text without surrounding white space.
pub open spec fn line_ids(contents: Seq<char>) -> Seq<Seq<char>> {
    text::lines_of(contents).map_values(|line: Seq<char>| text::trimmed(line))
}

/// The texts of a list that are not empty, as a set.
pub open spec fn filled(list: Seq<Seq<char>>) -> Set<Seq<char>> {
    Set::new(|id: Seq<char>| id.len() > 0 && list.contains(id))
}

/// The ids that a stored text holds: its lines without surrounding white space, except
/// those that hold nothing else.
pub open spec fn stored_ids(contents: Seq<char>) -> Set<Seq<char>> {
    filled(line_ids(contents))
}

proof fn lemma_filled_push(list: Seq<Seq<char>>, id: Seq<char>)
    ensures
        filled(list.push(id)) == (if id.len() > 0 {
            filled(list).insert(id)
        } else {
            filled(list)
        }),
{
    let longer = list.push(id);
    assert forall|x: Seq<char>| longer.contains(x) <==> list.contains(x) || x == id by {
        if list.contains(x) {
            let k = choose|k: int| 0 <= k < list.len() && list[k] == x;
            assert(longer[k] == x);
        }
        assert(longer[list.len() as int] == id);
    }
    assert(filled(longer) =~= (if id.len() > 0 {
        filled(list).insert(id)
    } else {
        filled(list)
    }));
}

/// The bookmarks that a stored text holds.
pub fn parse_favorites(contents: &str) -> (ids: NameSet)
    ensures
        ids@ == stored_ids(contents@),
{
    let lines = text::split_lines(contents);
    let mut ids = NameSet::new();
    let ghost all = line_ids(contents@);
    let mut i: usize = 0;
    assert(ids@ =~= filled(all.take(0)));
    while i < lines.len()
        invariant
            i <= lines@.len(),
            text::texts(lines@) == text::lines_of(contents@),
            all == line_ids(contents@),
            ids@ == filled(all.take(i as int)),
        decreases lines@.len() - i,
    {
        let id = text::trim(lines[i].as_str());
        proof {
            assert(text::texts(lines@)[i as int] == lines@[i as int]@);
            assert(all.take(i + 1) =~= all.take(i as int).push(id@));
            lemma_filled_push(all.take(i as int), id@);
        }
        if !id.as_str().is_empty() {
            ids.insert(id);
        }
        i = i + 1;
    }
    assert(all.take(i as int) =~= all);
    ids
}

/// Whether an id survives being stored: it is one line, which white space neither begins
/// nor ends.
pub open spec fn storable(id: Seq<char>) -> bool {
    &&& id.len() > 0
    &&& !id.contains('\n')
    &&& text::trimmed(id) == id
}

proof fn lemma_storable_end(id: Seq<char>)
    requires
        storable(id),
    ensures
        id.last() != '\r',
{
    let s = text::trim_start(id);
    text::lemma_trim_end(s);
}

proof fn lemma_lines_of_joined(list: Seq<Seq<char>>)
    requires
        forall|i: int| 0 <= i < list.len() ==> storable(#[trigger] list[i]),
    ensures
        text::lines_of(text::joined(list, "\n"@)) == list,
    decreases list.len(),
{
    reveal_strlit("\n");
    assert("\n"@ =~= seq!['\n']);
    if list.len() == 0 {
        assert(text::lines_of(text::joined(list, "\n"@)) =~= list);
    } else if list.len() == 1 {
        assert(storable(list[0]));
        text::lemma_lines_of_last(list[0]);
        assert(seq![list[0]] =~= list);
    } else {
        let tail = list.drop_first();
        assert forall|i: int| 0 <= i < tail.len() implies storable(#[trigger] tail[i]) by {
            assert(storable(list[i + 1]));
        }
        lemma_lines_of_joined(tail);
        text::lemma_joined_first(list, "\n"@);
        assert(storable(list[0]));
        lemma_storable_end(list[0]);
        text::lemma_lines_of_first(list[0], text::joined(tail, "\n"@));
        assert(seq![list[0]] + tail =~= list);
    }
}

/// Bookmarks that are stored are read back as they were.
pub proof fn law_bookmarks_persist(ids: Set<Seq<char>>)
    requires
        ids.finite(),
        forall|id: Seq<char>| #[trigger] ids.contains(id) ==> storable(id),
    ensures
        stored_ids(stored_text(ids)) == ids,
{
    names::lemma_in_order_exists(ids);
    let list = names::in_order(ids);
    assert forall|i: int| 0 <= i < list.len() implies storable(#[trigger] list[i]) by {
        assert(list.to_set().contains(list[i]));
    }
    lemma_lines_of_joined(list);
    let back = line_ids(stored_text(ids));
    assert forall|i: int| 0 <= i < back.len() implies #[trigger] back[i] == list[i] by {
        assert(storable(list[i]));
    }
    assert(back =~= list);
    assert forall|id: Seq<char>| stored_ids(stored_text(ids)).contains(id) == ids.contains(id) by {
        assert(list.contains(id) == list.to_set().contains(id));
        if ids.contains(id) {
            assert(storable(id));
        }
    }
    assert(stored_ids(stored_text(ids)) =~= ids);
}

} // verus!
