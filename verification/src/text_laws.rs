//! What holds of searching, trimming, splitting, ordering and number formatting.

use vstd::prelude::*;
use crate::names;
use crate::order;
use crate::text;

verus! {

/// A text occurs wherever it is surrounded by other texts, and only there.
pub proof fn law_occurrence(part: Seq<char>, whole: Seq<char>, before: Seq<char>, after: Seq<char>)
    ensures
        whole == before + part + after ==> text::occurs_in(part, whole),
        text::occurs_in(part, whole) ==> exists|u: Seq<char>, v: Seq<char>|
            whole == #[trigger] (u + part + v),
        !text::occurs_in(part, whole) ==> forall|k: int|
            0 <= k <= whole.len() - part.len() ==> #[trigger] whole.subrange(k, k + part.len())
                != part,
{
    if whole == before + part + after {
        let k = before.len() as int;
        assert(whole.subrange(k, k + part.len()) =~= part);
        assert(text::occurs_at(part, whole, k));
    }
    if text::occurs_in(part, whole) {
        let k = choose|k: int| #[trigger] text::occurs_at(part, whole, k);
        let u = whole.take(k);
        let v = whole.skip(k + part.len());
        assert(whole =~= u + part + v);
    } else {
        assert forall|k: int| 0 <= k <= whole.len() - part.len() implies #[trigger] whole.subrange(
            k,
            k + part.len(),
        ) != part by {
            assert(!text::occurs_at(part, whole, k));
        }
    }
}

/// A text begins with another one exactly if the rest follows it.
pub proof fn law_prefix(s: Seq<char>, prefix: Seq<char>, rest: Seq<char>)
    ensures
        s == prefix + rest ==> text::has_prefix(s, prefix),
        text::has_prefix(s, prefix) ==> s == prefix + s.skip(prefix.len() as int),
{
    if s == prefix + rest {
        assert(s.take(prefix.len() as int) =~= prefix);
    }
    if text::has_prefix(s, prefix) {
        assert(s =~= prefix + s.skip(prefix.len() as int));
    }
}

/// Whether a text holds nothing but white space.
pub open spec fn blank(s: Seq<char>) -> bool {
    forall|i: int| 0 <= i < s.len() ==> text::is_whitespace(#[trigger] s[i])
}

/// Whether a text neither begins nor ends with white space.
pub open spec fn tight(s: Seq<char>) -> bool {
    s.len() > 0 ==> !text::is_whitespace(s[0]) && !text::is_whitespace(s[s.len() - 1])
}

proof fn lemma_trim_start(white: Seq<char>, t: Seq<char>)
    requires
        blank(white),
        t.len() > 0 ==> !text::is_whitespace(t[0]),
    ensures
        text::trim_start(white + t) == t,
    decreases white.len(),
{
    if white.len() == 0 {
        assert(white + t =~= t);
    } else {
        assert((white + t).drop_first() =~= white.drop_first() + t);
        assert forall|i: int| 0 <= i < white.drop_first().len() implies text::is_whitespace(
            #[trigger] white.drop_first()[i],
        ) by {
            assert(text::is_whitespace(white[i + 1]));
        }
        lemma_trim_start(white.drop_first(), t);
        assert(text::is_whitespace(white[0]));
    }
}

proof fn lemma_trim_end_of(t: Seq<char>, white: Seq<char>)
    requires
        blank(white),
        t.len() > 0 ==> !text::is_whitespace(t[t.len() - 1]),
    ensures
        text::trim_end(t + white) == t,
    decreases white.len(),
{
    if white.len() == 0 {
        assert(t + white =~= t);
    } else {
        assert((t + white).drop_last() =~= t + white.drop_last());
        assert forall|i: int| 0 <= i < white.drop_last().len() implies text::is_whitespace(
            #[trigger] white.drop_last()[i],
        ) by {
            assert(text::is_whitespace(white[i]));
        }
        lemma_trim_end_of(t, white.drop_last());
        assert(text::is_whitespace(white[white.len() - 1]));
        assert((t + white).last() == white[white.len() - 1]);
    }
}

/// Trimming takes all white space off both ends and nothing else.
pub proof fn law_trimming(before: Seq<char>, t: Seq<char>, after: Seq<char>)
    requires
        blank(before),
        blank(after),
        tight(t),
    ensures
        text::trimmed(before + t + after) == t,
{
    if t.len() > 0 {
        assert(before + t + after =~= before + (t + after));
        lemma_trim_start(before, t + after);
        lemma_trim_end_of(t, after);
    } else {
        let s = before + t + after;
        assert(blank(s)) by {
            assert forall|i: int| 0 <= i < s.len() implies text::is_whitespace(
                #[trigger] s[i],
            ) by {
                if i < before.len() {
                    assert(text::is_whitespace(before[i]));
                } else {
                    assert(s[i] == after[i - before.len()]);
                }
            }
        }
        assert(s =~= s + Seq::<char>::empty());
        lemma_trim_start(s, Seq::empty());
        assert(text::trim_end(Seq::<char>::empty()) =~= t);
    }
}

/// A line feed ends a line, and takes a carriage return before it along; what follows is
/// split in the same way. What stands behind the last line feed is a line if it is not
/// empty.
pub proof fn law_lines(line: Seq<char>, rest: Seq<char>)
    requires
        !line.contains('\n'),
    ensures
        line.len() == 0 || line[line.len() - 1] != '\r' ==> text::lines_of(
            line + seq!['\n'] + rest,
        ) == seq![line] + text::lines_of(rest),
        text::lines_of(line + seq!['\r', '\n'] + rest) == seq![line] + text::lines_of(rest),
        line.len() > 0 ==> text::lines_of(line) == seq![line],
        line.len() == 0 ==> text::lines_of(line) == Seq::<Seq<char>>::empty(),
{
    text::lemma_lines_of_first(line, rest);
    let with_cr = line.push('\r');
    assert(!with_cr.contains('\n')) by {
        assert forall|i: int| 0 <= i < with_cr.len() implies with_cr[i] != '\n' by {
            if i < line.len() {
                assert(line.contains(line[i]));
            }
        }
    }
    text::lemma_lines_of_first(with_cr, rest);
    assert(with_cr + seq!['\n'] + rest =~= line + seq!['\r', '\n'] + rest);
    assert(with_cr.drop_last() =~= line);
    if line.len() > 0 {
        text::lemma_lines_of_last(line);
    }
}

/// Joining puts the separator between neighbours: nothing comes of no text, a text alone
/// stays as it is, and a text before others comes first.
pub proof fn law_joining(list: Seq<Seq<char>>, sep: Seq<char>)
    ensures
        list.len() == 0 ==> text::joined(list, sep) == Seq::<char>::empty(),
        list.len() == 1 ==> text::joined(list, sep) == list[0],
        list.len() >= 2 ==> text::joined(list, sep) == list[0] + sep + text::joined(
            list.drop_first(),
            sep,
        ),
{
    if list.len() >= 2 {
        text::lemma_joined_first(list, sep);
    }
}

/// The position of a text in a list is its first one, and 0 where it does not occur.
pub proof fn law_first_position(list: Seq<Seq<char>>, t: Seq<char>, k: int)
    ensures
        0 <= k < list.len() && list[k] == t && (forall|j: int| 0 <= j < k ==> list[j] != t)
            ==> text::first_index_or_zero(list, t) == k,
        (forall|j: int| 0 <= j < list.len() ==> list[j] != t) ==> text::first_index_or_zero(
            list,
            t,
        ) == 0,
{
    list.index_of_first_ensures(t);
    if 0 <= k < list.len() && list[k] == t {
        assert(list.contains(t));
    }
}

/// Texts are ordered by the first character at which they differ; a text stands before
/// the longer ones that begin with it.
pub proof fn law_text_order(
    common: Seq<char>,
    a: char,
    b: char,
    x: Seq<char>,
    y: Seq<char>,
)
    ensures
        a != b ==> text::text_less(common + seq![a] + x, common + seq![b] + y) == (a < b),
        text::text_less(common, common + seq![a] + x),
        !text::text_less(common + seq![a] + x, common),
        !text::text_less(common, common),
    decreases common.len(),
{
    let p = common + seq![a] + x;
    let q = common + seq![b] + y;
    if common.len() == 0 {
        assert(p[0] == a && q[0] == b);
    } else {
        law_text_order(common.drop_first(), a, b, x, y);
        assert(p.drop_first() =~= common.drop_first() + seq![a] + x);
        assert(q.drop_first() =~= common.drop_first() + seq![b] + y);
    }
}

/// The texts of a finite set in order: each of them once, each before those that are
/// greater.
pub proof fn law_in_order(set: Set<Seq<char>>, t: Seq<char>, i: int, j: int)
    requires
        set.finite(),
    ensures
        names::in_order(set).contains(t) <==> set.contains(t),
        names::in_order(set).len() == set.len(),
        0 <= i < j < names::in_order(set).len() ==> text::text_less(
            names::in_order(set)[i],
            names::in_order(set)[j],
        ),
{
    names::lemma_in_order_exists(set);
    let list = names::in_order(set);
    assert(list.to_set().contains(t) == list.contains(t));
    names::lemma_ascending_distinct(list);
    list.unique_seq_to_set();
}

/// The number that a row of digits stands for.
pub open spec fn number_of(digits: Seq<char>) -> int
    decreases digits.len(),
{
    if digits.len() == 0 {
        0
    } else {
        10 * number_of(digits.drop_last()) + (digits.last() as int - '0' as int)
    }
}

/// The decimal notation of a number consists of digits that stand for the number, the
/// first of which is not zero unless it is the only one.
pub proof fn law_decimal(n: nat)
    ensures
        number_of(text::decimal(n)) == n,
        text::decimal(n).len() > 0,
        forall|i: int|
            0 <= i < text::decimal(n).len() ==> '0' <= #[trigger] text::decimal(n)[i] <= '9',
        text::decimal(n).len() > 1 ==> text::decimal(n)[0] != '0',
    decreases n,
{
    reveal_with_fuel(number_of, 2);
    let s = text::decimal(n);
    if n < 10 {
        assert(s.drop_last() =~= Seq::<char>::empty());
    } else {
        let head = text::decimal(n / 10);
        law_decimal(n / 10);
        assert(s.drop_last() =~= head);
        assert(s[0] == head[0]);
        if head.len() == 1 {
            assert(head.drop_last() =~= Seq::<char>::empty());
            assert(number_of(head) == head[0] as int - '0' as int);
        }
        assert forall|i: int| 0 <= i < s.len() implies '0' <= #[trigger] s[i] <= '9' by {
            if i < head.len() {
                assert(s[i] == head[i]);
            }
        }
    }
}

/// Padding keeps the text and adds spaces behind it up to the width.
pub proof fn law_padding(s: Seq<char>, width: nat, i: int)
    ensures
        text::padded(s, width).len() == (if s.len() < width {
            width
        } else {
            s.len()
        }),
        text::padded(s, width).take(s.len() as int) == s,
        s.len() <= i < text::padded(s, width).len() ==> text::padded(s, width)[i] == ' ',
{
    assert(text::padded(s, width).take(s.len() as int) =~= s);
}

proof fn lemma_filter_insert<A>(s: Seq<A>, k: int, x: A, pred: spec_fn(A) -> bool)
    requires
        0 <= k <= s.len(),
        forall|i: int| k <= i < s.len() && pred(x) ==> !pred(#[trigger] s[i]),
    ensures
        s.insert(k, x).filter(pred) == (if pred(x) {
            s.filter(pred).push(x)
        } else {
            s.filter(pred)
        }),
    decreases s.len(),
{
    reveal(Seq::filter);
    let t = s.insert(k, x);
    if k == s.len() {
        assert(t.drop_last() =~= s);
    } else {
        assert(t.drop_last() =~= s.drop_last().insert(k, x));
        assert(t.last() == s.last());
        assert forall|i: int| k <= i < s.drop_last().len() && pred(x) implies !pred(
            #[trigger] s.drop_last()[i],
        ) by {
            assert(!pred(s[i]));
        }
        lemma_filter_insert(s.drop_last(), k, x, pred);
        if pred(x) {
            assert(!pred(s[s.len() - 1]));
        }
    }
}

/// Sorting leaves items in the order in which they came wherever none of them belongs
/// before another.
pub proof fn law_sorting_keeps_equals<A>(
    s: Seq<A>,
    lt: spec_fn(A, A) -> bool,
    pred: spec_fn(A) -> bool,
)
    requires
        forall|a: A, b: A| pred(a) && pred(b) ==> !(#[trigger] lt(a, b)),
    ensures
        order::stable_sort(s, lt).filter(pred) == s.filter(pred),
    decreases s.len(),
{
    reveal(Seq::filter);
    if s.len() > 0 {
        let t = s.drop_last();
        law_sorting_keeps_equals(t, lt, pred);
        let sorted = order::stable_sort(t, lt);
        order::lemma_put(sorted, s.last(), lt);
        let k = order::put_index(sorted, s.last(), lt);
        assert forall|i: int| k <= i < sorted.len() && pred(s.last()) implies !pred(
            #[trigger] sorted[i],
        ) by {
            assert(lt(s.last(), sorted[i]));
        }
        lemma_filter_insert(sorted, k, s.last(), pred);
    }
}

/// Sorting puts the items in order and neither adds, drops nor repeats any.
pub proof fn law_sorting<A>(s: Seq<A>, lt: spec_fn(A, A) -> bool, i: int, j: int)
    requires
        forall|a: A| !#[trigger] lt(a, a),
        forall|a: A, b: A, c: A| #[trigger] lt(a, b) && #[trigger] lt(b, c) ==> lt(a, c),
        forall|a: A, b: A, c: A| !#[trigger] lt(a, b) && !#[trigger] lt(b, c) ==> !lt(a, c),
    ensures
        order::stable_sort(s, lt).to_multiset() == s.to_multiset(),
        0 <= i < j < s.len() ==> !lt(order::stable_sort(s, lt)[j], order::stable_sort(s, lt)[i]),
    decreases s.len(),
{
    order::lemma_stable_sort(s, lt);
    order::lemma_stable_sort_len(s, lt);
    let out = order::stable_sort(s, lt);
    let p = choose|p: Seq<int>| order::ordered_by(s, out, lt, p);
    if 0 <= i < j < s.len() {
        assert(!lt(out[j], out[i]));
    }
    if s.len() > 0 {
        let t = s.drop_last();
        law_sorting(t, lt, i, j);
        let sorted = order::stable_sort(t, lt);
        order::lemma_put(sorted, s.last(), lt);
        let k = order::put_index(sorted, s.last(), lt);
        broadcast use vstd::seq_lib::group_to_multiset_ensures;
        assert(out.remove(k) =~= sorted);
        assert(out[k] == s.last());
        out.to_multiset_ensures();
        t.to_multiset_ensures();
        assert(s =~= t.push(s.last()));
        assert(out.to_multiset() =~= s.to_multiset());
    }
}

} // verus!
