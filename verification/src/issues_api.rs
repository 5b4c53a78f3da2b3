//! The GitHub Issues surface as data: the listed issue shape, the fields a
//! PATCH sends, the request URLs, and the pagination of the listing.

use vstd::prelude::*;
use crate::text::{
    chars_eq, chars_of, decimal, decimal_chars, extend, first_index, first_index_of,
    lemma_first_index_of_shape, split_char, split_chars, string_of, subvec, trim, trim_chars,
    trim_end_char, trim_end_char_chars, trim_start_char, trim_start_char_chars,
};

verus! {

broadcast use vstd::string::group_string_axioms;

/// The slim issue shape returned by create and patch.
#[derive(Debug, Clone)]
pub struct Issue {
    pub number: u64,
    pub state: String,
}

/// One label name on a listed issue.
#[derive(Debug, Clone)]
pub struct GhLabel {
    pub name: String,
}

/// A listed issue. `pull_request` tells a pull request (which the listing
/// also returns) from an issue.
#[derive(Debug, Clone)]
pub struct GhIssue {
    pub number: u64,
    pub title: String,
    pub body: Option<String>,
    pub state: String,
    pub labels: Vec<GhLabel>,
    pub pull_request: bool,
    /// The issue's web URL.
    pub html_url: String,
}

/// Whether some label of `labels` is named `name`.
pub open spec fn labels_contain(labels: Seq<GhLabel>, name: Seq<char>) -> bool {
    exists|i: int| 0 <= i < labels.len() && (#[trigger] labels[i]).name@ == name
}

/// The issue body, or empty when GitHub sent none.
pub open spec fn body_or_empty(body: Option<String>) -> Seq<char> {
    match body {
        Some(b) => b@,
        None => Seq::empty(),
    }
}

impl GhIssue {
    /// Whether the issue carries label `name`.
    pub fn has_label(&self, name: &str) -> (r: bool)
        ensures
            r == labels_contain(self.labels@, name@),
    {
        let want = chars_of(name);
        for i in 0..self.labels.len()
            invariant
                want@ == name@,
                forall|j: int| 0 <= j < i ==> (#[trigger] self.labels@[j]).name@ != name@,
        {
            if chars_eq(&chars_of(self.labels[i].name.as_str()), &want) {
                return true;
            }
        }
        false
    }

    /// The body, or `""` when absent.
    pub fn body_str(&self) -> (r: &str)
        ensures
            r@ == body_or_empty(self.body),
    {
        proof {
            reveal_strlit("");
        }
        match &self.body {
            Some(b) => b.as_str(),
            None => "",
        }
    }

    /// Whether GitHub reports the issue closed.
    pub fn is_closed(&self) -> (r: bool)
        ensures
            r == (self.state@ == "closed"@),
    {
        crate::text::str_eq(self.state.as_str(), "closed")
    }
}

/// The fields of a PATCH; omitted fields are left untouched by GitHub.
#[derive(Debug, Clone)]
pub struct IssuePatch {
    pub title: Option<String>,
    pub body: Option<String>,
    pub state: Option<String>,
}

/// The view of an [`IssuePatch`].
pub struct IssuePatchView {
    pub title: Option<Seq<char>>,
    pub body: Option<Seq<char>>,
    pub state: Option<Seq<char>>,
}

impl View for IssuePatch {
    type V = IssuePatchView;

    open spec fn view(&self) -> IssuePatchView {
        IssuePatchView {
            title: crate::marker::opt_view(self.title),
            body: crate::marker::opt_view(self.body),
            state: crate::marker::opt_view(self.state),
        }
    }
}

/// `<api_base>/repos/<owner>/<name>/issues`.
pub open spec fn issues_url_spec(api_base: Seq<char>, owner: Seq<char>, name: Seq<char>) -> Seq<
    char,
> {
    api_base + "/repos/"@ + owner + "/"@ + name + "/issues"@
}

fn issues_url_chars(api_base: &str, owner: &str, name: &str) -> (r: Vec<char>)
    ensures
        r@ == issues_url_spec(api_base@, owner@, name@),
{
    let mut v = chars_of(api_base);
    extend(&mut v, &chars_of("/repos/"));
    extend(&mut v, &chars_of(owner));
    extend(&mut v, &chars_of("/"));
    extend(&mut v, &chars_of(name));
    extend(&mut v, &chars_of("/issues"));
    v
}

/// The issues collection URL of a repo (POST target).
pub fn issues_url(api_base: &str, owner: &str, name: &str) -> (r: String)
    ensures
        r@ == issues_url_spec(api_base@, owner@, name@),
{
    string_of(&issues_url_chars(api_base, owner, name))
}

/// The URL of one issue (GET and PATCH target).
pub fn issue_url(api_base: &str, owner: &str, name: &str, number: u64) -> (r: String)
    ensures
        r@ == issues_url_spec(api_base@, owner@, name@) + "/"@ + decimal(number as nat),
{
    let mut v = issues_url_chars(api_base, owner, name);
    extend(&mut v, &chars_of("/"));
    extend(&mut v, &decimal_chars(number));
    string_of(&v)
}

/// The first page of the full listing: every state, 100 per page.
pub fn list_url(api_base: &str, owner: &str, name: &str) -> (r: String)
    ensures
        r@ == issues_url_spec(api_base@, owner@, name@) + "?state=all&per_page=100"@,
{
    let mut v = issues_url_chars(api_base, owner, name);
    extend(&mut v, &chars_of("?state=all&per_page=100"));
    string_of(&v)
}

/// The `rel` parameter that marks the next page.
pub open spec fn rel_next() -> Seq<char> {
    "rel=\"next\""@
}

/// The URL of a link segment: trimmed, then stripped of `<` before and `>` after.
pub open spec fn clean_url(u: Seq<char>) -> Seq<char> {
    trim_end_char(trim_start_char(trim(u), '<'), '>')
}

/// The URL a `Link` header part points at when one of its parameters is
/// `rel="next"`.
pub open spec fn part_next_url(part: Seq<char>) -> Option<Seq<char>> {
    let i = first_index_of(part, ';');
    if i < 0 {
        None
    } else {
        let segs = split_char(part.skip(i + 1), ';');
        if exists|k: int| 0 <= k < segs.len() && trim(#[trigger] segs[k]) == rel_next() {
            Some(clean_url(part.take(i)))
        } else {
            None
        }
    }
}

/// The first part, from index `i` on, that names a next page.
pub open spec fn first_next_url(parts: Seq<Seq<char>>, i: int) -> Option<Seq<char>>
    decreases parts.len() - i,
{
    if i < 0 || i >= parts.len() {
        None
    } else {
        match part_next_url(parts[i]) {
            Some(u) => Some(u),
            None => first_next_url(parts, i + 1),
        }
    }
}

/// The `rel="next"` URL of a GitHub `Link` header.
pub open spec fn next_page_url_spec(link_header: Seq<char>) -> Option<Seq<char>> {
    first_next_url(split_char(link_header, ','), 0)
}

fn part_next(part: &Vec<char>) -> (r: Option<Vec<char>>)
    ensures
        match r {
            Some(u) => part_next_url(part@) == Some(u@),
            None => part_next_url(part@) is None,
        },
{
    let i = match first_index(part, ';') {
        Some(i) => i,
        None => {
            return None;
        },
    };
    proof {
        lemma_first_index_of_shape(part@, ';');
    }
    let url_seg = subvec(part, 0, i);
    let rest = subvec(part, i + 1, part.len());
    assert(url_seg@ == part@.take(i as int));
    assert(rest@ == part@.skip(i + 1));
    let segs = split_chars(&rest, ';');
    let rel = chars_of("rel=\"next\"");
    let ghost specs = split_char(rest@, ';');
    for k in 0..segs.len()
        invariant
            segs@.len() == specs.len(),
            forall|j: int| 0 <= j < segs@.len() ==> (#[trigger] segs@[j])@ == specs[j],
            rel@ == rel_next(),
            first_index_of(part@, ';') == i,
            url_seg@ == part@.take(i as int),
            specs == split_char(part@.skip(i + 1), ';'),
            forall|j: int| 0 <= j < k ==> trim(#[trigger] specs[j]) != rel_next(),
    {
        if chars_eq(&trim_chars(&segs[k]), &rel) {
            assert(trim(specs[k as int]) == rel_next());
            let t = trim_chars(&url_seg);
            let t = trim_start_char_chars(&t, '<');
            let u = trim_end_char_chars(&t, '>');
            return Some(u);
        }
    }
    None
}

/// Parse a GitHub `Link` header and return the `rel="next"` URL, if any.
pub fn next_page_url(link_header: &str) -> (r: Option<String>)
    ensures
        crate::marker::opt_view(r) == next_page_url_spec(link_header@),
{
    let parts = split_chars(&chars_of(link_header), ',');
    let ghost specs = split_char(link_header@, ',');
    let mut i: usize = 0;
    while i < parts.len()
        invariant
            parts@.len() == specs.len(),
            specs == split_char(link_header@, ','),
            forall|j: int| 0 <= j < parts@.len() ==> (#[trigger] parts@[j])@ == specs[j],
            i <= parts.len(),
            first_next_url(specs, i as int) == first_next_url(specs, 0),
        decreases parts.len() - i,
    {
        assert(parts@[i as int]@ == specs[i as int]);
        match part_next(&parts[i]) {
            Some(u) => {
                return Some(string_of(&u));
            },
            None => {},
        }
        i += 1;
    }
    None
}

/// The issues of a listed page, pull requests dropped, in order.
pub open spec fn drop_pull_requests(page: Seq<GhIssue>) -> Seq<GhIssue>
    decreases page.len(),
{
    if page.len() == 0 {
        Seq::empty()
    } else if page.last().pull_request {
        drop_pull_requests(page.drop_last())
    } else {
        drop_pull_requests(page.drop_last()).push(page.last())
    }
}

/// Add one listed page to the issues collected so far, dropping pull requests.
pub fn collect_page(all: &mut Vec<GhIssue>, page: Vec<GhIssue>)
    ensures
        final(all)@ == old(all)@ + drop_pull_requests(page@),
{
    let ghost start = all@;
    let ghost p = page@;
    assert(p.len() == page.len());
    let mut page = page;
    let mut k: usize = 0;
    while page.len() > 0
        invariant
            page@.len() + k == p.len(),
            p.len() <= usize::MAX,
            page@ == p.skip(k as int),
            all@ == start + drop_pull_requests(p.take(k as int)),
        decreases page.len(),
    {
        let issue = page.remove(0);
        assert(issue == p[k as int]);
        assert(p.take(k + 1).drop_last() == p.take(k as int));
        assert(p.take(k + 1).last() == p[k as int]);
        if !issue.pull_request {
            all.push(issue);
        }
        k += 1;
        assert(page@ == p.skip(k as int));
    }
    assert(p.take(k as int) == p);
}

/// The next page to fetch, from the listing response's `Link` header.
pub fn next_page(link: Option<&str>) -> (r: Option<String>)
    ensures
        match link {
            Some(h) => crate::marker::opt_view(r) == next_page_url_spec(h@),
            None => r is None,
        },
{
    match link {
        Some(h) => next_page_url(h),
        None => None,
    }
}

} // verus!
