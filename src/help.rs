//! Helpers on paths and on lists of books.

use vstd::prelude::*;

use crate::book::{sectioned_under, Book};

verus! {

/// The characters of `p` after its last `c`; all of `p` when `c` does not occur.
pub open spec fn after_last(p: Seq<char>, c: char) -> Seq<char>
    decreases p.len(),
{
    if p.len() == 0 {
        p
    } else if p.last() == c {
        Seq::empty()
    } else {
        after_last(p.drop_last(), c).push(p.last())
    }
}

/// A path names a PDF when the text after its last dot is exactly `pdf`
/// (lower case only).
pub open spec fn is_pdf_path(p: Seq<char>) -> bool {
    after_last(p, '.') =~= seq!['p', 'd', 'f']
}

proof fn lemma_after_last_from(p: Seq<char>, c: char, k: int)
    requires
        0 <= k <= p.len(),
        k == 0 || p[k - 1] == c,
        forall|j: int| k <= j < p.len() ==> p[j] != c,
    ensures
        after_last(p, c) == p.subrange(k, p.len() as int),
    decreases p.len(),
{
    if p.len() == k {
        assert(p.subrange(k, k) =~= Seq::<char>::empty());
    } else {
        lemma_after_last_from(p.drop_last(), c, k);
        assert(p.drop_last().subrange(k, p.len() - 1).push(p.last()) =~= p.subrange(
            k,
            p.len() as int,
        ));
    }
}

/// The part of `p` after its last `c`, or the whole of `p` when `c` does not occur.
pub fn segment_after_last(p: &str, c: char) -> (r: String)
    ensures
        r@ == after_last(p@, c),
{
    let n = p.unicode_len();
    let mut k: usize = n;
    while k > 0 && p.get_char(k - 1) != c
        invariant
            k <= n,
            n == p@.len(),
            forall|j: int| k <= j < n ==> p@[j] != c,
        decreases k,
    {
        k = k - 1;
    }
    proof {
        lemma_after_last_from(p@, c, k as int);
    }
    p.substring_char(k, n).to_owned()
}

/// Whether the path names a PDF file: the text after its last dot is `pdf`.
pub fn is_pdf(path: &str) -> (r: bool)
    ensures
        r == is_pdf_path(path@),
{
    let ext = segment_after_last(path, '.');
    let pdf = String::from_str("pdf");
    proof {
        reveal_strlit("pdf");
    }
    assert(pdf@ =~= seq!['p', 'd', 'f']);
    ext == pdf
}

/// The books whose section is exactly `section`, in their input order.
pub fn get_books_with_section(books: Vec<Book>, section: &String) -> (r: Vec<Book>)
    ensures
        r@ == books@.filter(sectioned_under(section@)),
{
    let mut res: Vec<Book> = Vec::new();
    let mut i: usize = 0;
    while i < books.len()
        invariant
            i <= books.len(),
            res@ == books@.take(i as int).filter(sectioned_under(section@)),
        decreases books.len() - i,
    {
        let keep = match &books[i].section {
            Some(s) => *s == *section,
            None => false,
        };
        if keep {
            res.push(books[i].duplicate());
        }
        proof {
            assert(books@.take(i + 1).drop_last() =~= books@.take(i as int));
            reveal(Seq::filter);
        }
        i = i + 1;
    }
    assert(books@.take(books@.len() as int) =~= books@);
    res
}

/// Relies on std's `Path::exists`: whether the file system holds an entry
/// at `path`. What is on disk may change between two calls, so nothing is
/// stated of the answer.
#[verifier::external_body]
pub(crate) fn path_exists(path: &str) -> (r: bool) {
    std::path::Path::new(path).exists()
}

} // verus!
