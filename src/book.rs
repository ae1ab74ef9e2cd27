//! The book record and the helpers that present lists of books.

use vstd::prelude::*;

use crate::help::{after_last, segment_after_last};

verus! {

/// A catalogued PDF document.
#[derive(Clone, Debug)]
pub struct Book {
    /// path to the book in the file system
    pub path: String,
    /// name given to the book
    pub name: String,
    /// the section the book is filed under, if any
    pub section: Option<String>,
    /// whether the book is marked as favourite
    pub favourite: bool,
}

impl Book {
    /// Builds a book from its four fields.
    pub fn init(name: String, path: String, section: Option<String>, favourite: bool) -> (r: Book)
        ensures
            r.name == name,
            r.path == path,
            r.section == section,
            r.favourite == favourite,
    {
        Book { path, name, section, favourite }
    }

    /// A field-by-field copy of the book.
    pub fn duplicate(&self) -> (r: Book)
        ensures
            r == *self,
    {
        let section = match &self.section {
            Some(s) => Some(s.clone()),
            None => None,
        };
        Book { path: self.path.clone(), name: self.name.clone(), section, favourite: self.favourite }
    }
}

/// Lexicographic order on text from position `i` on, comparing characters by
/// their code points (the order of Rust's `String`).
pub open spec fn text_lt_from(a: Seq<char>, b: Seq<char>, i: int) -> bool
    decreases a.len() - i,
{
    if i >= a.len() {
        i < b.len()
    } else if i >= b.len() {
        false
    } else if a[i] != b[i] {
        (a[i] as u32) < (b[i] as u32)
    } else {
        text_lt_from(a, b, i + 1)
    }
}

/// `a` sorts strictly before `b`.
pub open spec fn text_lt(a: Seq<char>, b: Seq<char>) -> bool {
    text_lt_from(a, b, 0)
}

proof fn lemma_text_lt_transitive(a: Seq<char>, b: Seq<char>, c: Seq<char>, i: int)
    requires
        0 <= i,
        text_lt_from(a, b, i),
        text_lt_from(b, c, i),
    ensures
        text_lt_from(a, c, i),
    decreases a.len() - i,
{
    if i < a.len() && i < b.len() && i < c.len() && a[i] == b[i] && b[i] == c[i] {
        lemma_text_lt_transitive(a, b, c, i + 1);
    }
}

proof fn lemma_text_lt_total(a: Seq<char>, b: Seq<char>, i: int)
    requires
        0 <= i <= a.len(),
        i <= b.len(),
        forall|k: int| 0 <= k < i ==> a[k] == b[k],
        a != b,
    ensures
        text_lt_from(a, b, i) || text_lt_from(b, a, i),
    decreases a.len() - i,
{
    if i == a.len() && i == b.len() {
        assert(a =~= b);
    } else if i < a.len() && i < b.len() {
        if a[i] == b[i] {
            lemma_text_lt_total(a, b, i + 1);
        } else {
            vstd::utf8::char_u32_cast(a[i], a[i] as u32);
            vstd::utf8::char_u32_cast(b[i], b[i] as u32);
        }
    }
}

/// Whether `a` sorts strictly before `b`.
pub fn text_less(a: &String, b: &String) -> (r: bool)
    ensures
        r == text_lt(a@, b@),
{
    let sa = a.as_str();
    let sb = b.as_str();
    let na = sa.unicode_len();
    let nb = sb.unicode_len();
    let mut i: usize = 0;
    while i < na && i < nb && sa.get_char(i) == sb.get_char(i)
        invariant
            i <= na,
            i <= nb,
            na == a@.len(),
            nb == b@.len(),
            sa@ == a@,
            sb@ == b@,
            text_lt(a@, b@) == text_lt_from(a@, b@, i as int),
        decreases na - i,
    {
        i = i + 1;
    }
    if i >= na {
        i < nb
    } else if i >= nb {
        false
    } else {
        (sa.get_char(i) as u32) < (sb.get_char(i) as u32)
    }
}

/// The label a book is listed under: its section, or empty text when it has none.
pub open spec fn label_of(b: Book) -> Seq<char> {
    match b.section {
        Some(s) => s@,
        None => Seq::empty(),
    }
}

/// Books without a section, which are listed under the empty label.
pub open spec fn unsectioned_under(l: Seq<char>) -> spec_fn(Book) -> bool {
    |b: Book| b.section is None && l.len() == 0
}

/// Books whose section is exactly `l`.
pub open spec fn sectioned_under(l: Seq<char>) -> spec_fn(Book) -> bool {
    |b: Book|
        match b.section {
            Some(s) => s@ == l,
            None => false,
        }
}

/// The books listed under label `l`, as a stable sort by section orders them:
/// first those without a section (only under the empty label), then those
/// whose section is `l`, each part in input order.
pub open spec fn group_of(books: Seq<Book>, l: Seq<char>) -> Seq<Book> {
    books.filter(unsectioned_under(l)) + books.filter(sectioned_under(l))
}

/// `groups` lists, in strictly increasing label order, one non-empty group
/// for each label that occurs in `books`, holding the books of that label.
pub open spec fn grouped_by_section(books: Seq<Book>, groups: Seq<(String, Vec<Book>)>) -> bool {
    &&& forall|i: int, j: int|
        0 <= i < j < groups.len() ==> text_lt(#[trigger] groups[i].0@, #[trigger] groups[j].0@)
    &&& forall|i: int|
        0 <= i < groups.len() ==> #[trigger] groups[i].1@ == group_of(books, groups[i].0@)
            && groups[i].1@.len() > 0
    &&& forall|k: int| 0 <= k < books.len() ==> has_group(groups, label_of(#[trigger] books[k]))
}

/// Some group of `groups` has label `l`.
pub open spec fn has_group(groups: Seq<(String, Vec<Book>)>, l: Seq<char>) -> bool {
    exists|i: int| 0 <= i < groups.len() && #[trigger] groups[i].0@ == l
}

proof fn lemma_group_nonempty(books: Seq<Book>, k: int)
    requires
        0 <= k < books.len(),
    ensures
        group_of(books, label_of(books[k])).len() > 0,
{
    let l = label_of(books[k]);
    broadcast use Seq::lemma_filter_contains;
    if books[k].section is None {
        assert(unsectioned_under(l)(books[k]));
        assert(books.filter(unsectioned_under(l)).contains(books[k]));
    } else {
        assert(sectioned_under(l)(books[k]));
        assert(books.filter(sectioned_under(l)).contains(books[k]));
    }
}

/// Some group whose label is the label of `b` holds `b`.
pub open spec fn in_own_group(groups: Seq<(String, Vec<Book>)>, b: Book) -> bool {
    exists|i: int|
        0 <= i < groups.len() && #[trigger] groups[i].0@ == label_of(b) && groups[i].1@.contains(b)
}

/// Books are grouped by their label: every book of the input lies in the
/// group whose label is its own, and every book of a group has that group's
/// label. Since labels increase strictly, each book has exactly one group.
pub proof fn lemma_books_in_own_group(books: Seq<Book>, groups: Seq<(String, Vec<Book>)>)
    requires
        grouped_by_section(books, groups),
    ensures
        forall|k: int| 0 <= k < books.len() ==> in_own_group(groups, #[trigger] books[k]),
        forall|i: int, j: int|
            0 <= i < groups.len() && 0 <= j < groups[i].1@.len() ==> label_of(
                #[trigger] groups[i].1@[j],
            ) == groups[i].0@,
{
    broadcast use Seq::lemma_filter_contains, Seq::lemma_filter_pred;

    assert forall|k: int| 0 <= k < books.len() implies in_own_group(groups, #[trigger] books[k]) by {
        assert(has_group(groups, label_of(books[k])));
        let i = choose|i: int| 0 <= i < groups.len() && #[trigger] groups[i].0@ == label_of(books[k]);
        let l = label_of(books[k]);
        let f1 = books.filter(unsectioned_under(l));
        let f2 = books.filter(sectioned_under(l));
        assert(groups[i].1@ == f1 + f2);
        if books[k].section is None {
            assert(unsectioned_under(l)(books[k]));
            assert(f1.contains(books[k]));
            let q = choose|q: int| 0 <= q < f1.len() && f1[q] == books[k];
            assert((f1 + f2)[q] == books[k]);
        } else {
            assert(sectioned_under(l)(books[k]));
            assert(f2.contains(books[k]));
            let q = choose|q: int| 0 <= q < f2.len() && f2[q] == books[k];
            assert((f1 + f2)[f1.len() + q] == books[k]);
        }
    }
    assert forall|i: int, j: int|
        0 <= i < groups.len() && 0 <= j < groups[i].1@.len() implies label_of(
        #[trigger] groups[i].1@[j],
    ) == groups[i].0@ by {
        let l = groups[i].0@;
        let f1 = books.filter(unsectioned_under(l));
        let f2 = books.filter(sectioned_under(l));
        assert(groups[i].1@ == f1 + f2);
        if j < f1.len() {
            assert(unsectioned_under(l)(f1[j]));
            assert(groups[i].1@[j] == f1[j]);
        } else {
            assert(sectioned_under(l)(f2[j - f1.len()]));
            assert(groups[i].1@[j] == f2[j - f1.len()]);
        }
    }
}

/// The text of the book's label.
fn label_text(b: &Book) -> (r: String)
    ensures
        r@ == label_of(*b),
{
    match &b.section {
        Some(s) => s.clone(),
        None => String::new(),
    }
}

/// The texts held by `ls`.
pub open spec fn text_set(ls: Seq<String>) -> Set<Seq<char>> {
    Set::new(|x: Seq<char>| exists|i: int| 0 <= i < ls.len() && #[trigger] ls[i]@ == x)
}

/// The labels of the first `k` books.
pub open spec fn labels_upto(books: Seq<Book>, k: int) -> Set<Seq<char>> {
    Set::new(|x: Seq<char>| exists|q: int| 0 <= q < k && label_of(#[trigger] books[q]) == x)
}

/// Every text of `ls` sorts strictly before the texts after it.
pub open spec fn strictly_sorted(ls: Seq<String>) -> bool {
    forall|i: int, j: int| 0 <= i < j < ls.len() ==> text_lt(#[trigger] ls[i]@, #[trigger] ls[j]@)
}

/// Puts `l` into the sorted list `labels` unless it is there already.
fn insert_label(labels: &mut Vec<String>, l: String)
    requires
        strictly_sorted(old(labels)@),
    ensures
        strictly_sorted(final(labels)@),
        text_set(final(labels)@) == text_set(old(labels)@).insert(l@),
{
    let mut p: usize = 0;
    while p < labels.len() && text_less(&labels[p], &l)
        invariant
            p <= labels.len(),
            forall|i: int| 0 <= i < p ==> text_lt(#[trigger] labels@[i]@, l@),
        decreases labels.len() - p,
    {
        p = p + 1;
    }
    if p < labels.len() && labels[p] == l {
        assert(text_set(labels@) =~= text_set(labels@).insert(l@));
        return;
    }
    let ghost old_ls = labels@;
    proof {
        if p < labels.len() {
            lemma_text_lt_total(labels@[p as int]@, l@, 0);
        }
        assert forall|i: int| p < i < old_ls.len() implies text_lt(l@, #[trigger] old_ls[i]@) by {
            lemma_text_lt_transitive(l@, old_ls[p as int]@, old_ls[i]@, 0);
        }
    }
    labels.insert(p, l);
    proof {
        let ls = labels@;
        assert forall|i: int, j: int| 0 <= i < j < ls.len() implies text_lt(
            #[trigger] ls[i]@,
            #[trigger] ls[j]@,
        ) by {
            if i < p {
                assert(ls[i] == old_ls[i]);
                if j < p {
                    assert(ls[j] == old_ls[j]);
                } else if j > p {
                    assert(ls[j] == old_ls[j - 1]);
                    lemma_text_lt_transitive(ls[i]@, ls[p as int]@, ls[j]@, 0);
                }
            } else if i == p {
                assert(ls[j] == old_ls[j - 1]);
            } else {
                assert(ls[i] == old_ls[i - 1] && ls[j] == old_ls[j - 1]);
            }
        }
        assert forall|x: Seq<char>| #[trigger] text_set(ls).contains(x) <==> text_set(
            old_ls,
        ).insert(ls[p as int]@).contains(x) by {
            if text_set(ls).contains(x) {
                let i = choose|i: int| 0 <= i < ls.len() && #[trigger] ls[i]@ == x;
                if i < p {
                    assert(old_ls[i] == ls[i]);
                } else if i > p {
                    assert(old_ls[i - 1] == ls[i]);
                }
            }
            if text_set(old_ls).contains(x) {
                let i = choose|i: int| 0 <= i < old_ls.len() && #[trigger] old_ls[i]@ == x;
                if i < p {
                    assert(old_ls[i] == ls[i]);
                } else {
                    assert(old_ls[i] == ls[i + 1]);
                }
            }
        }
        assert(text_set(ls) =~= text_set(old_ls).insert(ls[p as int]@));
    }
}

/// The distinct labels of `books`, in strictly increasing order.
fn section_labels(books: &Vec<Book>) -> (labels: Vec<String>)
    ensures
        strictly_sorted(labels@),
        text_set(labels@) == labels_upto(books@, books@.len() as int),
{
    let mut labels: Vec<String> = Vec::new();
    let mut k: usize = 0;
    assert(text_set(labels@) =~= labels_upto(books@, 0));
    while k < books.len()
        invariant
            k <= books.len(),
            strictly_sorted(labels@),
            text_set(labels@) == labels_upto(books@, k as int),
        decreases books.len() - k,
    {
        let l = label_text(&books[k]);
        insert_label(&mut labels, l);
        proof {
            let b = books@;
            assert forall|x: Seq<char>| #[trigger] labels_upto(b, k + 1).contains(x) <==> labels_upto(
                b,
                k as int,
            ).insert(label_of(b[k as int])).contains(x) by {
                if labels_upto(b, k + 1).contains(x) {
                    let q = choose|q: int| 0 <= q < k + 1 && label_of(#[trigger] b[q]) == x;
                    if q < k {
                        assert(labels_upto(b, k as int).contains(x));
                    }
                }
            }
            assert(labels_upto(b, k + 1) =~= labels_upto(b, k as int).insert(label_of(b[k as int])));
        }
        k = k + 1;
    }
    labels
}

/// The books listed under label `l`, in the order of a stable sort by section.
fn books_in_group(books: &Vec<Book>, l: &String) -> (g: Vec<Book>)
    ensures
        g@ == group_of(books@, l@),
{
    let unlabelled = l.as_str().unicode_len() == 0;
    let mut first: Vec<Book> = Vec::new();
    let mut i: usize = 0;
    while i < books.len()
        invariant
            i <= books.len(),
            unlabelled == (l@.len() == 0),
            first@ == books@.take(i as int).filter(unsectioned_under(l@)),
        decreases books.len() - i,
    {
        if unlabelled && books[i].section.is_none() {
            first.push(books[i].duplicate());
        }
        proof {
            assert(books@.take(i + 1).drop_last() =~= books@.take(i as int));
            reveal(Seq::filter);
        }
        i = i + 1;
    }
    let mut second: Vec<Book> = Vec::new();
    i = 0;
    while i < books.len()
        invariant
            i <= books.len(),
            second@ == books@.take(i as int).filter(sectioned_under(l@)),
        decreases books.len() - i,
    {
        let matches = match &books[i].section {
            Some(s) => *s == *l,
            None => false,
        };
        if matches {
            second.push(books[i].duplicate());
        }
        proof {
            assert(books@.take(i + 1).drop_last() =~= books@.take(i as int));
            reveal(Seq::filter);
        }
        i = i + 1;
    }
    assert(books@.take(books@.len() as int) =~= books@);
    first.append(&mut second);
    first
}

/// Groups books by section.
///
/// The books are ordered by section as a stable sort orders them (books
/// without a section first) and cut into runs of equal label, where a book
/// without a section has the empty label. Each run is returned with its
/// label, runs in increasing label order. An empty list gives one empty
/// group with the empty label.
pub fn sort_books_by_section(books: Vec<Book>) -> (r: Vec<(String, Vec<Book>)>)
    ensures
        books@.len() == 0 ==> r@.len() == 1 && r@[0].0@ == Seq::<char>::empty() && r@[0].1@.len()
            == 0,
        books@.len() > 0 ==> grouped_by_section(books@, r@),
{
    if books.len() == 0 {
        let r = vec![(String::new(), Vec::new())];
        return r;
    }
    let labels = section_labels(&books);
    let mut res: Vec<(String, Vec<Book>)> = Vec::new();
    let mut g: usize = 0;
    while g < labels.len()
        invariant
            g <= labels.len(),
            res@.len() == g,
            strictly_sorted(labels@),
            text_set(labels@) == labels_upto(books@, books@.len() as int),
            forall|x: int|
                0 <= x < g ==> #[trigger] res@[x].0@ == labels@[x]@ && res@[x].1@ == group_of(
                    books@,
                    labels@[x]@,
                ),
        decreases labels.len() - g,
    {
        let l = labels[g].clone();
        let group = books_in_group(&books, &l);
        res.push((l, group));
        g = g + 1;
    }
    proof {
        let b = books@;
        assert forall|i: int| 0 <= i < res@.len() implies #[trigger] res@[i].1@ == group_of(
            b,
            res@[i].0@,
        ) && res@[i].1@.len() > 0 by {
            assert(text_set(labels@).contains(labels@[i]@));
            let k = choose|k: int| 0 <= k < b.len() && label_of(#[trigger] b[k]) == labels@[i]@;
            lemma_group_nonempty(b, k);
        }
        assert forall|k: int| 0 <= k < b.len() implies has_group(res@, label_of(#[trigger] b[k])) by {
            assert(labels_upto(b, b.len() as int).contains(label_of(b[k])));
            let i = choose|i: int| 0 <= i < labels@.len() && #[trigger] labels@[i]@ == label_of(b[k]);
            assert(res@[i].0@ == label_of(b[k]));
        }
        assert forall|i: int, j: int| 0 <= i < j < res@.len() implies text_lt(
            #[trigger] res@[i].0@,
            #[trigger] res@[j].0@,
        ) by {
            assert(res@[i].0@ == labels@[i]@ && res@[j].0@ == labels@[j]@);
        }
    }
    res
}

/// Takes the file name from a path: the text after the last `/`, or the
/// whole path when it holds no `/`.
pub fn extract_file_name_from_path(path: &str) -> (r: String)
    ensures
        r@ == after_last(path@, '/'),
{
    segment_after_last(path, '/')
}

/// The line that presents a book: `indent` spaces, then `name[section]: file`,
/// where `section` is empty for a book without one and `file` is the last
/// segment of the path.
pub open spec fn line_of(b: Book, indent: nat) -> Seq<char> {
    Seq::new(indent, |_i: int| ' ') + b.name@ + seq!['['] + label_of(b) + seq![']', ':', ' ']
        + after_last(b.path@, '/')
}

/// Renders a book as one line of a listing, after `indent` spaces.
pub fn format_line(bk: &Book, indent: u16) -> (r: String)
    ensures
        r@ == line_of(*bk, indent as nat),
{
    let mut line = String::new();
    let mut i: u16 = 0;
    while i < indent
        invariant
            i <= indent,
            line@ == Seq::new(i as nat, |_i: int| ' '),
        decreases indent - i,
    {
        proof {
            reveal_strlit(" ");
        }
        line.append(" ");
        assert(line@ =~= Seq::new((i + 1) as nat, |_i: int| ' '));
        i = i + 1;
    }
    proof {
        reveal_strlit("[");
        reveal_strlit("]: ");
    }
    line.append(bk.name.as_str());
    line.append("[");
    let label = label_text(bk);
    line.append(label.as_str());
    line.append("]: ");
    let file = extract_file_name_from_path(bk.path.as_str());
    line.append(file.as_str());
    assert(line@ =~= line_of(*bk, indent as nat));
    line
}

} // verus!
