//! The two command types — `Query` and `WordOrTag` — with their
//! canonical text rendering, equality, cloning, and default value.

use vstd::prelude::*;
use vstd::string::StringExecFns;

use crate::text::dec_digits;
use crate::text::join_spaces;
use crate::text::join_with_spaces;
use crate::text::u64_to_decimal;

verus! {

/// A search term: either a plain word, rendered as its own text, or a
/// tag, rendered with a leading `#`.
#[derive(Debug)]
pub enum WordOrTag {
    Word(String),
    Tag(String),
}

/// A single user command: add a task described by words and annotated
/// with tags, mark the task with the given index done, or search by an
/// ordered list of terms.
#[derive(Debug)]
pub enum Query {
    Add(Vec<String>, Vec<String>),
    Done(u64),
    Search(Vec<WordOrTag>),
}

impl WordOrTag {
    /// The canonical rendering of a term: a word is its text verbatim,
    /// a tag is `#` immediately followed by its text, with no space.
    pub open spec fn render(self) -> Seq<char> {
        match self {
            WordOrTag::Word(w) => w@,
            WordOrTag::Tag(t) => seq!['#'] + t@,
        }
    }

    /// Renders the term, exactly as `render` describes.
    pub fn to_string(&self) -> (r: String)
        ensures
            r@ == self.render(),
    {
        match self {
            WordOrTag::Word(w) => w.clone(),
            WordOrTag::Tag(t) => {
                let mut r = String::from_str("#");
                r.append(t.as_str());
                proof {
                    reveal_strlit("#");
                    assert(r@ =~= seq!['#'] + t@);
                }
                r
            },
        }
    }
}

/// The rendering of a tag list: for each tag, in order, a space, then
/// `#`, then the tag's text. An empty list renders as nothing.
pub open spec fn render_tags(tags: Seq<Seq<char>>) -> Seq<char>
    decreases tags.len(),
{
    if tags.len() == 0 {
        Seq::empty()
    } else {
        render_tags(tags.drop_last()) + seq![' ', '#'] + tags.last()
    }
}

/// The rendering of a term list: for each term, in order, a space then
/// the term's own rendering. An empty list renders as nothing.
pub open spec fn render_terms(terms: Seq<WordOrTag>) -> Seq<char>
    decreases terms.len(),
{
    if terms.len() == 0 {
        Seq::empty()
    } else {
        render_terms(terms.drop_last()) + seq![' '] + terms.last().render()
    }
}

fn tags_to_string(tags: &Vec<String>) -> (r: String)
    ensures
        r@ == render_tags(tags.deep_view()),
{
    let mut r = String::new();
    let mut i: usize = 0;
    while i < tags.len()
        invariant
            i <= tags.len(),
            r@ == render_tags(tags.deep_view().take(i as int)),
        decreases tags.len() - i,
    {
        r.append(" #");
        r.append(tags[i].as_str());
        proof {
            reveal_strlit(" #");
            let dv = tags.deep_view();
            assert(dv.take(i + 1).drop_last() =~= dv.take(i as int));
            assert(r@ =~= render_tags(dv.take(i + 1)));
        }
        i += 1;
    }
    proof {
        assert(tags.deep_view().take(tags@.len() as int) =~= tags.deep_view());
    }
    r
}

fn terms_to_string(terms: &Vec<WordOrTag>) -> (r: String)
    ensures
        r@ == render_terms(terms@),
{
    let mut r = String::new();
    let mut i: usize = 0;
    while i < terms.len()
        invariant
            i <= terms.len(),
            r@ == render_terms(terms@.take(i as int)),
        decreases terms.len() - i,
    {
        r.append(" ");
        r.append(terms[i].to_string().as_str());
        proof {
            reveal_strlit(" ");
            assert(terms@.take(i + 1).drop_last() =~= terms@.take(i as int));
            assert(r@ =~= render_terms(terms@.take(i + 1)));
        }
        i += 1;
    }
    proof {
        assert(terms@.take(terms@.len() as int) =~= terms@);
    }
    r
}

impl Query {
    /// The canonical rendering of a command:
    /// `Add(words, tags)` is `add `, then the words joined by single
    /// spaces inside double quotes, then the rendered tag list;
    /// `Done(index)` is `done ` then the index in decimal;
    /// `Search(terms)` is `search` then the rendered term list.
    pub open spec fn render(self) -> Seq<char> {
        match self {
            Query::Add(words, tags) => "add \""@ + join_spaces(words.deep_view()) + "\""@
                + render_tags(tags.deep_view()),
            Query::Done(index) => "done "@ + dec_digits(index as nat),
            Query::Search(terms) => "search"@ + render_terms(terms@),
        }
    }

    /// Renders the command, exactly as `render` describes.
    pub fn to_string(&self) -> (r: String)
        ensures
            r@ == self.render(),
    {
        match self {
            Query::Add(words, tags) => {
                let mut r = String::from_str("add \"");
                r.append(join_with_spaces(words).as_str());
                r.append("\"");
                r.append(tags_to_string(tags).as_str());
                proof {
                    reveal_strlit("\"");
                    assert(r@ =~= self.render());
                }
                r
            },
            Query::Done(index) => {
                let mut r = String::from_str("done ");
                r.append(u64_to_decimal(*index).as_str());
                r
            },
            Query::Search(terms) => {
                let mut r = String::from_str("search");
                r.append(terms_to_string(terms).as_str());
                r
            },
        }
    }
}

/// Equality of terms: same variant and the same text.
pub open spec fn term_eq(a: WordOrTag, b: WordOrTag) -> bool {
    match (a, b) {
        (WordOrTag::Word(x), WordOrTag::Word(y)) => x@ == y@,
        (WordOrTag::Tag(x), WordOrTag::Tag(y)) => x@ == y@,
        _ => false,
    }
}

/// Equality of queries: same variant and recursively equal payloads;
/// lists compare element by element, order- and length-sensitively.
pub open spec fn query_eq(a: Query, b: Query) -> bool {
    match (a, b) {
        (Query::Add(w1, t1), Query::Add(w2, t2)) => w1.deep_view() == w2.deep_view()
            && t1.deep_view() == t2.deep_view(),
        (Query::Done(i), Query::Done(j)) => i == j,
        (Query::Search(s1), Query::Search(s2)) => s1@.len() == s2@.len() && (forall|k: int|
            0 <= k < s1@.len() ==> term_eq(#[trigger] s1@[k], s2@[k])),
        _ => false,
    }
}

impl PartialEq for WordOrTag {
    fn eq(&self, other: &Self) -> bool {
        match (self, other) {
            (WordOrTag::Word(x), WordOrTag::Word(y)) => x.eq(y),
            (WordOrTag::Tag(x), WordOrTag::Tag(y)) => x.eq(y),
            _ => false,
        }
    }
}

impl vstd::std_specs::cmp::PartialEqSpecImpl for WordOrTag {
    open spec fn obeys_eq_spec() -> bool {
        true
    }

    open spec fn eq_spec(&self, other: &Self) -> bool {
        term_eq(*self, *other)
    }
}

impl Eq for WordOrTag {}

fn string_vecs_eq(a: &Vec<String>, b: &Vec<String>) -> (r: bool)
    ensures
        r == (a.deep_view() == b.deep_view()),
{
    proof {
        assert(a.deep_view().len() == a@.len());
        assert(b.deep_view().len() == b@.len());
    }
    if a.len() != b.len() {
        return false;
    }
    let mut i: usize = 0;
    while i < a.len()
        invariant
            a@.len() == b@.len(),
            i <= a@.len(),
            forall|j: int| 0 <= j < i ==> a.deep_view()[j] == b.deep_view()[j],
        decreases a@.len() - i,
    {
        if !a[i].eq(&b[i]) {
            assert(a.deep_view()[i as int] != b.deep_view()[i as int]);
            return false;
        }
        i += 1;
    }
    proof {
        assert(a.deep_view() =~= b.deep_view());
    }
    true
}

fn term_vecs_eq(a: &Vec<WordOrTag>, b: &Vec<WordOrTag>) -> (r: bool)
    ensures
        r == (a@.len() == b@.len() && (forall|k: int|
            0 <= k < a@.len() ==> term_eq(#[trigger] a@[k], b@[k]))),
{
    if a.len() != b.len() {
        return false;
    }
    let mut i: usize = 0;
    while i < a.len()
        invariant
            a@.len() == b@.len(),
            i <= a@.len(),
            forall|j: int| 0 <= j < i ==> term_eq(#[trigger] a@[j], b@[j]),
        decreases a@.len() - i,
    {
        if !a[i].eq(&b[i]) {
            return false;
        }
        i += 1;
    }
    true
}

impl PartialEq for Query {
    fn eq(&self, other: &Self) -> bool {
        match (self, other) {
            (Query::Add(w1, t1), Query::Add(w2, t2)) => string_vecs_eq(w1, w2) && string_vecs_eq(
                t1,
                t2,
            ),
            (Query::Done(i), Query::Done(j)) => *i == *j,
            (Query::Search(s1), Query::Search(s2)) => term_vecs_eq(s1, s2),
            _ => false,
        }
    }
}

impl vstd::std_specs::cmp::PartialEqSpecImpl for Query {
    open spec fn obeys_eq_spec() -> bool {
        true
    }

    open spec fn eq_spec(&self, other: &Self) -> bool {
        query_eq(*self, *other)
    }
}

impl Eq for Query {}

impl Clone for WordOrTag {
    /// Cloning yields an independently owned term equal to the original.
    fn clone(&self) -> (r: Self)
        ensures
            r == *self,
    {
        match self {
            WordOrTag::Word(w) => WordOrTag::Word(w.clone()),
            WordOrTag::Tag(t) => WordOrTag::Tag(t.clone()),
        }
    }
}

impl Clone for Query {
    /// Cloning yields an independently owned query equal to the original.
    fn clone(&self) -> (r: Self)
        ensures
            query_eq(r, *self),
    {
        match self {
            Query::Add(words, tags) => {
                let r = Query::Add(words.clone(), tags.clone());
                proof {
                    let rw = r->Add_0;
                    let rt = r->Add_1;
                    assert(rw.deep_view() =~= words.deep_view());
                    assert(rt.deep_view() =~= tags.deep_view());
                }
                r
            },
            Query::Done(index) => Query::Done(*index),
            Query::Search(terms) => Query::Search(terms.clone()),
        }
    }
}

impl Default for Query {
    /// The default query is exactly `Done(0)`: an explicit, arbitrary
    /// sentinel, not a meaningful "no task" marker.
    fn default() -> (r: Self)
        ensures
            r == Query::Done(0),
    {
        Query::Done(0)
    }
}

/// Term equality is reflexive.
pub proof fn lemma_term_eq_reflexive(t: WordOrTag)
    ensures
        term_eq(t, t),
{
}

/// Term equality is symmetric.
pub proof fn lemma_term_eq_symmetric(a: WordOrTag, b: WordOrTag)
    ensures
        term_eq(a, b) == term_eq(b, a),
{
}

/// Term equality is transitive.
pub proof fn lemma_term_eq_transitive(a: WordOrTag, b: WordOrTag, c: WordOrTag)
    requires
        term_eq(a, b),
        term_eq(b, c),
    ensures
        term_eq(a, c),
{
}

/// Query equality is reflexive.
pub proof fn lemma_query_eq_reflexive(q: Query)
    ensures
        query_eq(q, q),
{
}

/// Query equality is symmetric.
pub proof fn lemma_query_eq_symmetric(a: Query, b: Query)
    ensures
        query_eq(a, b) == query_eq(b, a),
{
    if query_eq(a, b) {
        if a is Search && b is Search {
            let s1 = a->Search_0;
            let s2 = b->Search_0;
            assert forall|k: int| 0 <= k < s2@.len() implies term_eq(#[trigger] s2@[k], s1@[k]) by {
                lemma_term_eq_symmetric(s1@[k], s2@[k]);
            }
        }
    }
    if query_eq(b, a) {
        if a is Search && b is Search {
            let s1 = a->Search_0;
            let s2 = b->Search_0;
            assert forall|k: int| 0 <= k < s1@.len() implies term_eq(#[trigger] s1@[k], s2@[k]) by {
                lemma_term_eq_symmetric(s2@[k], s1@[k]);
            }
        }
    }
}

/// Query equality is transitive.
pub proof fn lemma_query_eq_transitive(a: Query, b: Query, c: Query)
    requires
        query_eq(a, b),
        query_eq(b, c),
    ensures
        query_eq(a, c),
{
    if a is Search && b is Search && c is Search {
        let s1 = a->Search_0;
        let s2 = b->Search_0;
        let s3 = c->Search_0;
        assert forall|k: int| 0 <= k < s1@.len() implies term_eq(#[trigger] s1@[k], s3@[k]) by {
            lemma_term_eq_transitive(s1@[k], s2@[k], s3@[k]);
        }
    }
}

/// Query equality discriminates variants: equal queries are of the
/// same variant, so values built by different constructors never
/// compare equal.
pub proof fn lemma_query_eq_same_variant(a: Query, b: Query)
    requires
        query_eq(a, b),
    ensures
        (a is Add) == (b is Add),
        (a is Done) == (b is Done),
        (a is Search) == (b is Search),
{
}

} // verus!
