//! Extraction of work records from a results page.
//!
//! The result nodes are those the parser's selector `[role=article]` picks.
//! Every lookup inside a result is a depth-first, pre-order walk below a node
//! for nodes whose attribute has a given value: either the first such node,
//! or all of them in document order.
use vstd::prelude::*;

use crate::dom::{dom_attribute, dom_children, dom_inner_text, dom_select, Document};
use crate::models::{AO3Work, WorkDate, WorkView};
use crate::text::views;

verus! {

broadcast use vstd::seq::group_seq_axioms, Seq::filter_distributes_over_add;

/// One more than the largest node number.
pub open spec fn node_limit() -> int {
    0x1_0000_0000
}

/// What a node must be numbered above to join a walk: the last node
/// listed so far, or the parent `p` when none is.
pub open spec fn listed_bound(listed: Seq<u32>, p: int) -> int {
    if listed.len() > 0 {
        listed.last() as int
    } else {
        p
    }
}

/// Whether the node numbers of `s` strictly increase, so none is repeated.
pub open spec fn increasing(s: Seq<u32>) -> bool {
    forall|i: int, j: int| 0 <= i < j < s.len() ==> s[i] < s[j]
}

/// The nodes of the trees rooted at `cs`, each listed before its
/// descendants, trees in the order of `cs`; `p` is the number of their
/// common parent. A root is part of the walk only when it is numbered above
/// its parent and above every node listed before it.
pub open spec fn forest(html: Seq<char>, cs: Seq<u32>, p: int) -> Seq<u32>
    decreases node_limit() - p, cs.len(),
    when -1 <= p
{
    if cs.len() == 0 {
        Seq::empty()
    } else {
        let c = cs.last();
        let before = forest(html, cs.drop_last(), p);
        if p < c as int && listed_bound(before, p) < c as int {
            before + seq![c] + forest(html, dom_children(html, c), c as int)
        } else {
            before
        }
    }
}

/// A walk lists node numbers in increasing order, all above the parent.
proof fn lemma_forest_increasing(html: Seq<char>, cs: Seq<u32>, p: int)
    requires
        -1 <= p,
    ensures
        increasing(forest(html, cs, p)),
        forall|k: int| 0 <= k < forest(html, cs, p).len() ==> p < #[trigger] forest(html, cs, p)[k],
    decreases node_limit() - p, cs.len(),
{
    if cs.len() > 0 {
        let c = cs.last();
        let before = forest(html, cs.drop_last(), p);
        lemma_forest_increasing(html, cs.drop_last(), p);
        if p < c as int && listed_bound(before, p) < c as int {
            let sub = forest(html, dom_children(html, c), c as int);
            lemma_forest_increasing(html, dom_children(html, c), c as int);
            let all = before + seq![c] + sub;
            assert forall|k: int| 0 <= k < before.len() implies before[k] < c by {
                if k < before.len() - 1 {
                    assert(before[k] < before[before.len() - 1]);
                }
            }
            assert forall|i: int, j: int| 0 <= i < j < all.len() implies all[i] < all[j] by {
                if j < before.len() {
                    assert(all[i] == before[i] && all[j] == before[j]);
                } else if j == before.len() {
                    assert(all[i] == before[i]);
                } else if i < before.len() {
                    assert(all[i] == before[i] && all[j] == sub[j - before.len() - 1]);
                } else if i == before.len() {
                    assert(all[j] == sub[j - before.len() - 1]);
                } else {
                    assert(all[i] == sub[i - before.len() - 1] && all[j] == sub[j - before.len() - 1]);
                }
            }
            assert forall|k: int| 0 <= k < all.len() implies p < #[trigger] all[k] by {
                if k < before.len() {
                    assert(all[k] == before[k]);
                } else if k > before.len() {
                    assert(all[k] == sub[k - before.len() - 1]);
                }
            }
        }
    }
}

/// Keeping some elements of an increasing sequence keeps it increasing.
proof fn lemma_filter_increasing(s: Seq<u32>, pred: spec_fn(u32) -> bool)
    requires
        increasing(s),
    ensures
        increasing(s.filter(pred)),
        forall|k: int| 0 <= k < s.filter(pred).len() ==> s.contains(#[trigger] s.filter(pred)[k]),
    decreases s.len(),
{
    reveal(Seq::filter);
    if s.len() > 0 {
        let rest = s.drop_last();
        assert(increasing(rest));
        lemma_filter_increasing(rest, pred);
        let f = rest.filter(pred);
        assert forall|k: int| 0 <= k < f.len() implies f[k] < s.last() by {
            let j = choose|j: int| 0 <= j < rest.len() && rest[j] == f[k];
            assert(s[j] < s[s.len() - 1]);
        }
        if pred(s.last()) {
            let g = f.push(s.last());
            assert forall|i: int, j: int| 0 <= i < j < g.len() implies g[i] < g[j] by {
                if j < f.len() {
                    assert(g[i] == f[i] && g[j] == f[j]);
                } else {
                    assert(g[i] == f[i]);
                }
            }
            assert forall|k: int| 0 <= k < g.len() implies s.contains(#[trigger] g[k]) by {
                if k < f.len() {
                    let j = choose|j: int| 0 <= j < rest.len() && rest[j] == f[k];
                    assert(s[j] == g[k]);
                } else {
                    assert(s[s.len() - 1] == g[k]);
                }
            }
        } else {
            assert forall|k: int| 0 <= k < f.len() implies s.contains(#[trigger] f[k]) by {
                let j = choose|j: int| 0 <= j < rest.len() && rest[j] == f[k];
                assert(s[j] == f[k]);
            }
        }
    }
}

/// All nodes strictly below `n`, in document order.
pub open spec fn descendants(html: Seq<char>, n: u32) -> Seq<u32> {
    forest(html, dom_children(html, n), n as int)
}

/// Whether a node carries attribute `name` with exactly the value `value`.
pub open spec fn has_attribute(html: Seq<char>, name: Seq<char>, value: Seq<char>) -> spec_fn(u32) -> bool {
    |x: u32| dom_attribute(html, x, name) == Some(value)
}

/// The first element of `s`, if any.
pub open spec fn first_of(s: Seq<u32>) -> Option<u32> {
    if s.len() > 0 {
        Some(s[0])
    } else {
        None
    }
}

/// The first node below `n`, in document order, with `name` set to `value`.
pub open spec fn first_below(html: Seq<char>, n: u32, name: Seq<char>, value: Seq<char>) -> Option<u32> {
    first_of(descendants(html, n).filter(has_attribute(html, name, value)))
}

/// All nodes below `n`, in document order, with `name` set to `value`.
pub open spec fn all_below(html: Seq<char>, n: u32, name: Seq<char>, value: Seq<char>) -> Seq<u32> {
    descendants(html, n).filter(has_attribute(html, name, value))
}

proof fn lemma_filter_one(c: u32, pred: spec_fn(u32) -> bool)
    ensures
        seq![c].filter(pred) == (if pred(c) {
            seq![c]
        } else {
            Seq::<u32>::empty()
        }),
{
    reveal_with_fuel(Seq::filter, 2);
    assert(seq![c].drop_last() =~= Seq::<u32>::empty());
}

proof fn lemma_forest_step(html: Seq<char>, cs: Seq<u32>, p: int, i: int, pred: spec_fn(u32) -> bool)
    requires
        -1 <= p,
        0 <= i < cs.len(),
    ensures
        forest(html, cs.take(i + 1), p).filter(pred) == (if p < cs[i] as int && listed_bound(
            forest(html, cs.take(i), p),
            p,
        ) < cs[i] as int {
            forest(html, cs.take(i), p).filter(pred) + seq![cs[i]].filter(pred) + forest(
                html,
                dom_children(html, cs[i]),
                cs[i] as int,
            ).filter(pred)
        } else {
            forest(html, cs.take(i), p).filter(pred)
        }),
{
    assert(cs.take(i + 1).drop_last() =~= cs.take(i));
    assert(cs.take(i + 1).last() == cs[i]);
}

/// The matches in a prefix of a forest come first among all its matches.
proof fn lemma_forest_prefix_first(html: Seq<char>, cs: Seq<u32>, p: int, k: int, pred: spec_fn(u32) -> bool)
    requires
        -1 <= p,
        0 <= k <= cs.len(),
    ensures
        forest(html, cs.take(k), p).filter(pred).len() > 0 ==> first_of(
            forest(html, cs, p).filter(pred),
        ) == first_of(forest(html, cs.take(k), p).filter(pred)),
    decreases cs.len() - k,
{
    if k < cs.len() {
        lemma_forest_prefix_first(html, cs, p, k + 1, pred);
        lemma_forest_step(html, cs, p, k, pred);
    } else {
        assert(cs.take(k) =~= cs);
    }
}

/// One more root of a walk: it joins when numbered above the parent and the
/// last node listed, and then the last node listed becomes the last of its
/// own walk (or the root itself).
proof fn lemma_walk_step(html: Seq<char>, cs: Seq<u32>, p: int, i: int)
    requires
        -1 <= p,
        0 <= i < cs.len(),
    ensures
        ({
            let before = forest(html, cs.take(i), p);
            let c = cs[i];
            let sub = forest(html, dom_children(html, c), c as int);
            if p < c as int && listed_bound(before, p) < c as int {
                &&& forest(html, cs.take(i + 1), p) == before + seq![c] + sub
                &&& listed_bound(forest(html, cs.take(i + 1), p), p) == listed_bound(sub, c as int)
            } else {
                forest(html, cs.take(i + 1), p) == before
            }
        }),
{
    assert(cs.take(i + 1).drop_last() =~= cs.take(i));
    assert(cs.take(i + 1).last() == cs[i]);
    let before = forest(html, cs.take(i), p);
    let c = cs[i];
    let sub = forest(html, dom_children(html, c), c as int);
    let walked = before + seq![c] + sub;
    if sub.len() > 0 {
        assert(walked.last() == sub.last());
    } else {
        assert(walked.last() == c);
    }
}

/// Appends to `out` every node of the trees rooted at `cs` (children of
/// `p`), in document order.
fn collect_in_forest(doc: &Document, cs: &Vec<u32>, p: i64, out: &mut Vec<u32>)
    requires
        -1 <= p < node_limit(),
    ensures
        final(out)@ == old(out)@ + forest(doc.source(), cs@, p as int),
    decreases node_limit() - p,
{
    let ghost html = doc.source();
    let mut i: usize = 0;
    let mut last: i64 = p;
    assert(cs@.take(0) =~= Seq::<u32>::empty());
    while i < cs.len()
        invariant
            -1 <= p < node_limit(),
            i <= cs@.len(),
            html == doc.source(),
            out@ == old(out)@ + forest(html, cs@.take(i as int), p as int),
            last == listed_bound(forest(html, cs@.take(i as int), p as int), p as int),
            -1 <= last < node_limit(),
        decreases cs@.len() - i,
    {
        let c = cs[i];
        proof {
            lemma_walk_step(html, cs@, p as int, i as int);
        }
        if p < c as i64 && last < c as i64 {
            out.push(c);
            let children = doc.children(c);
            collect_in_forest(doc, &children, c as i64, out);
            let ghost walked = forest(html, cs@.take(i + 1), p as int);
            assert(out@ == old(out)@ + walked);
            assert(out@[out@.len() - 1] == walked.last());
            last = out[out.len() - 1] as i64;
        }
        i = i + 1;
    }
    assert(cs@.take(cs@.len() as int) =~= cs@);
}

/// The first node, in document order, of the trees rooted at `cs` (children
/// of `p`) whose attribute `name` is `value`; the walk stops there. When there
/// is none, the last node walked comes with it (`p` when none was).
fn find_in_forest(doc: &Document, cs: &Vec<u32>, p: i64, name: &str, value: &String) -> (r: (Option<u32>, i64))
    requires
        -1 <= p < node_limit(),
    ensures
        r.0 == first_of(forest(doc.source(), cs@, p as int).filter(has_attribute(doc.source(), name@, value@))),
        r.0 is None ==> r.1 == listed_bound(forest(doc.source(), cs@, p as int), p as int),
    decreases node_limit() - p,
{
    let ghost html = doc.source();
    let ghost pred = has_attribute(html, name@, value@);
    let mut i: usize = 0;
    let mut last: i64 = p;
    assert(cs@.take(0) =~= Seq::<u32>::empty());
    while i < cs.len()
        invariant
            -1 <= p < node_limit(),
            i <= cs@.len(),
            html == doc.source(),
            pred == has_attribute(html, name@, value@),
            forest(html, cs@.take(i as int), p as int).filter(pred).len() == 0,
            last == listed_bound(forest(html, cs@.take(i as int), p as int), p as int),
            -1 <= last < node_limit(),
        decreases cs@.len() - i,
    {
        let c = cs[i];
        proof {
            lemma_forest_step(html, cs@, p as int, i as int, pred);
            lemma_filter_one(c, pred);
            lemma_forest_prefix_first(html, cs@, p as int, i as int + 1, pred);
            lemma_walk_step(html, cs@, p as int, i as int);
        }
        if p < c as i64 && last < c as i64 {
            let found = doc.attribute(c, name);
            let hit = match &found {
                Some(v) => *v == *value,
                None => false,
            };
            if hit {
                return (Some(c), c as i64);
            }
            let children = doc.children(c);
            let below = find_in_forest(doc, &children, c as i64, name, value);
            if below.0.is_some() {
                return below;
            }
            last = below.1;
        }
        i = i + 1;
    }
    assert(cs@.take(cs@.len() as int) =~= cs@);
    (None, last)
}

/// Keeps, in order, the nodes of `nodes` whose attribute `name` is `value`.
fn keep_matching(doc: &Document, nodes: &Vec<u32>, name: &str, value: &String) -> (r: Vec<u32>)
    ensures
        r@ == nodes@.filter(has_attribute(doc.source(), name@, value@)),
{
    let ghost pred = has_attribute(doc.source(), name@, value@);
    let mut out: Vec<u32> = Vec::new();
    let mut i: usize = 0;
    assert(nodes@.take(0) =~= Seq::<u32>::empty());
    while i < nodes.len()
        invariant
            i <= nodes@.len(),
            pred == has_attribute(doc.source(), name@, value@),
            out@ == nodes@.take(i as int).filter(pred),
        decreases nodes@.len() - i,
    {
        let n = nodes[i];
        proof {
            reveal(Seq::filter);
            assert(nodes@.take(i + 1).drop_last() =~= nodes@.take(i as int));
        }
        let found = doc.attribute(n, name);
        let hit = match &found {
            Some(v) => *v == *value,
            None => false,
        };
        if hit {
            out.push(n);
        }
        i = i + 1;
    }
    assert(nodes@.take(nodes@.len() as int) =~= nodes@);
    out
}

/// Every node below `node`, at any depth, in document order.
pub fn get_all_nodes(doc: &Document, node: u32) -> (r: Vec<u32>)
    ensures
        r@ == descendants(doc.source(), node),
        forall|i: int, j: int| 0 <= i < j < r@.len() ==> r@[i] < r@[j],
{
    let children = doc.children(node);
    let mut out: Vec<u32> = Vec::new();
    collect_in_forest(doc, &children, node as i64, &mut out);
    assert(out@ =~= descendants(doc.source(), node));
    proof {
        lemma_forest_increasing(doc.source(), dom_children(doc.source(), node), node as int);
    }
    out
}

/// Every node below `node`, in document order, whose attribute `attrib` is
/// exactly `value`.
pub fn search_all_by_attrib(doc: &Document, node: u32, attrib: &str, value: &String) -> (r: Vec<u32>)
    ensures
        r@ == all_below(doc.source(), node, attrib@, value@),
        forall|i: int, j: int| 0 <= i < j < r@.len() ==> r@[i] < r@[j],
{
    let all = get_all_nodes(doc, node);
    proof {
        lemma_filter_increasing(all@, has_attribute(doc.source(), attrib@, value@));
    }
    keep_matching(doc, &all, attrib, value)
}

/// The first node below `node`, in document order, whose attribute `attrib`
/// is exactly `value`; the search stops at that node.
pub fn search_by_attrib(doc: &Document, node: u32, attrib: &str, value: &String) -> (r: Option<u32>)
    ensures
        r == first_below(doc.source(), node, attrib@, value@),
{
    let children = doc.children(node);
    find_in_forest(doc, &children, node as i64, attrib, value).0
}

/// A part of the results page that extraction depends on.
#[derive(Debug, Clone, Copy, PartialEq, Eq, Structural)]
pub enum Landmark {
    /// The `role="article"` nodes that mark each result.
    WorkList,
    /// The `id` attribute of a result, `work_` followed by the work's number.
    WorkId,
    /// The title link of a result, whose `href` is `/works/<id>`.
    Title,
    /// The node of class `fandoms heading` that holds authors and fandoms.
    FandomsHeading,
}

/// Why a results page could not be read.
#[derive(Debug, Clone, Copy, PartialEq, Eq, Structural)]
pub enum ParsingError {
    /// The landmark is missing.
    CouldNotFind(Landmark),
    /// The landmark is there, but its content does not have the expected shape.
    Malformed(Landmark),
    /// The markup parser refused the page.
    InvalidDocument,
}

pub open spec fn landmark_text(l: Landmark) -> Seq<char> {
    match l {
        Landmark::WorkList => "the list of works."@,
        Landmark::WorkId => "id"@,
        Landmark::Title => "href"@,
        Landmark::FandomsHeading => "class"@,
    }
}

pub open spec fn parsing_error_text(e: ParsingError) -> Seq<char> {
    match e {
        ParsingError::CouldNotFind(l) => "Could not find: "@ + landmark_text(l)
            + "\nThis is a problem with the parsing!"@,
        ParsingError::Malformed(l) => "Malformed: "@ + landmark_text(l)
            + "\nThis is a problem with the parsing!"@,
        ParsingError::InvalidDocument => "The page could not be parsed as HTML"@,
    }
}

impl Landmark {
    /// The name the landmark is reported under: the attribute that is
    /// looked up, or what is missing.
    pub fn name(&self) -> (r: &'static str)
        ensures
            r@ == landmark_text(*self),
    {
        match self {
            Landmark::WorkList => "the list of works.",
            Landmark::WorkId => "id",
            Landmark::Title => "href",
            Landmark::FandomsHeading => "class",
        }
    }
}

impl ParsingError {
    /// The message that describes the error.
    pub fn to_string(&self) -> (r: String)
        ensures
            r@ == parsing_error_text(*self),
    {
        match self {
            ParsingError::CouldNotFind(l) => {
                let mut m = String::from_str("Could not find: ");
                m.append(l.name());
                m.append("\nThis is a problem with the parsing!");
                m
            },
            ParsingError::Malformed(l) => {
                let mut m = String::from_str("Malformed: ");
                m.append(l.name());
                m.append("\nThis is a problem with the parsing!");
                m
            },
            ParsingError::InvalidDocument => String::from_str("The page could not be parsed as HTML"),
        }
    }
}

/// The prefix of a result's `id` attribute.
pub open spec fn work_prefix() -> Seq<char> {
    seq!['w', 'o', 'r', 'k', '_']
}

pub open spec fn is_digit(c: char) -> bool {
    '0' <= c && c <= '9'
}

/// An `id` attribute without its `work_` prefix (unchanged when it has none).
pub open spec fn strip_work_prefix(raw: Seq<char>) -> Seq<char> {
    if raw.len() >= 5 && raw.take(5) == work_prefix() {
        raw.skip(5)
    } else {
        raw
    }
}

pub open spec fn all_digits(s: Seq<char>) -> bool {
    forall|i: int| 0 <= i < s.len() ==> is_digit(#[trigger] s[i])
}

/// The work number carried by an `id` attribute: what follows the `work_`
/// prefix, when that is a non-empty run of decimal digits.
pub open spec fn work_id(raw: Seq<char>) -> Option<Seq<char>> {
    let digits = strip_work_prefix(raw);
    if digits.len() > 0 && all_digits(digits) {
        Some(digits)
    } else {
        None
    }
}

/// Reads the work number out of an `id` attribute.
pub fn parse_work_id(raw: &str) -> (r: Option<String>)
    ensures
        r matches Some(d) ==> work_id(raw@) == Some(d@),
        r is None ==> work_id(raw@) is None,
{
    let n = raw.unicode_len();
    let mut start: usize = 0;
    if n >= 5 && raw.get_char(0) == 'w' && raw.get_char(1) == 'o' && raw.get_char(2) == 'r'
        && raw.get_char(3) == 'k' && raw.get_char(4) == '_' {
        start = 5;
        assert(raw@.take(5) =~= work_prefix());
    } else if n >= 5 {
        assert(raw@.take(5) != work_prefix()) by {
            if raw@.take(5) == work_prefix() {
                assert(raw@.take(5)[0] == raw@[0]);
                assert(raw@.take(5)[1] == raw@[1]);
                assert(raw@.take(5)[2] == raw@[2]);
                assert(raw@.take(5)[3] == raw@[3]);
                assert(raw@.take(5)[4] == raw@[4]);
            }
        }
    }
    let digits = raw.substring_char(start, n);
    assert(digits@ =~= (if start == 5 { raw@.skip(5) } else { raw@ }));
    if n - start == 0 {
        return None;
    }
    let mut i: usize = 0;
    while i < n - start
        invariant
            i <= n - start,
            digits@.len() == n - start,
            digits@ == strip_work_prefix(raw@),
            forall|j: int| 0 <= j < i ==> is_digit(#[trigger] digits@[j]),
        decreases n - start - i,
    {
        let c = digits.get_char(i);
        if !('0' <= c && c <= '9') {
            assert(!is_digit(digits@[i as int]));
            return None;
        }
        i = i + 1;
    }
    Some(String::from_str(digits))
}

/// The address of the work numbered `id` on the archive.
pub open spec fn work_url(id: Seq<char>) -> Seq<char> {
    "https://archiveofourown.org/works/"@ + id
}

/// The texts of the nodes `ns`, in order.
pub open spec fn texts(html: Seq<char>, ns: Seq<u32>) -> Seq<Seq<char>> {
    ns.map_values(|x: u32| dom_inner_text(html, x))
}

/// The record read from result node `n`: its number from its `id`, its
/// title from the first link below it to `/works/<id>`, and its authors
/// (`rel="author"`) and fandoms (`class="tag"`) from anywhere below the
/// first node of class `fandoms heading`; the first missing or malformed
/// landmark is reported instead.
pub open spec fn extract_work(html: Seq<char>, n: u32) -> Result<WorkView, ParsingError> {
    match dom_attribute(html, n, "id"@) {
        None => Err(ParsingError::CouldNotFind(Landmark::WorkId)),
        Some(raw) => match work_id(raw) {
            None => Err(ParsingError::Malformed(Landmark::WorkId)),
            Some(id) => match first_below(html, n, "href"@, "/works/"@ + id) {
                None => Err(ParsingError::CouldNotFind(Landmark::Title)),
                Some(t) => match first_below(html, n, "class"@, "fandoms heading"@) {
                    None => Err(ParsingError::CouldNotFind(Landmark::FandomsHeading)),
                    Some(h) => Ok(
                        WorkView {
                            id,
                            url: work_url(id),
                            title: dom_inner_text(html, t),
                            authors: texts(html, all_below(html, h, "rel"@, "author"@)),
                            date: WorkDate { year: 1970, month: 1, day: 1 },
                            is_complete: false,
                            is_crossover: false,
                            word_count: 0,
                            fandoms: texts(html, all_below(html, h, "class"@, "tag"@)),
                            rating: None,
                        },
                    ),
                },
            },
        },
    }
}

pub open spec fn record_view(r: Result<AO3Work, ParsingError>) -> Result<WorkView, ParsingError> {
    match r {
        Ok(w) => Ok(w@),
        Err(e) => Err(e),
    }
}

/// The inner texts of `nodes`, in order.
fn inner_texts(doc: &Document, nodes: &Vec<u32>) -> (r: Vec<String>)
    ensures
        views(r@) == texts(doc.source(), nodes@),
{
    let mut out: Vec<String> = Vec::new();
    let mut i: usize = 0;
    while i < nodes.len()
        invariant
            i <= nodes@.len(),
            out@.len() == i,
            forall|j: int| 0 <= j < i ==> (#[trigger] out@[j])@ == dom_inner_text(doc.source(), nodes@[j]),
        decreases nodes@.len() - i,
    {
        out.push(doc.inner_text(nodes[i]));
        i = i + 1;
    }
    assert(views(out@) =~= texts(doc.source(), nodes@));
    out
}

/// Reads the record of the result at node `node`.
pub fn parse_search_single_work(doc: &Document, node: u32) -> (r: Result<AO3Work, ParsingError>)
    ensures
        record_view(r) == extract_work(doc.source(), node),
{
    let raw = match doc.attribute(node, "id") {
        Some(raw) => raw,
        None => return Err(ParsingError::CouldNotFind(Landmark::WorkId)),
    };
    let id = match parse_work_id(raw.as_str()) {
        Some(id) => id,
        None => return Err(ParsingError::Malformed(Landmark::WorkId)),
    };
    let href = String::from_str("/works/").concat(id.as_str());
    let title = match search_by_attrib(doc, node, "href", &href) {
        Some(t) => doc.inner_text(t),
        None => return Err(ParsingError::CouldNotFind(Landmark::Title)),
    };
    let heading = match search_by_attrib(doc, node, "class", &String::from_str("fandoms heading")) {
        Some(h) => h,
        None => return Err(ParsingError::CouldNotFind(Landmark::FandomsHeading)),
    };
    let author_nodes = search_all_by_attrib(doc, heading, "rel", &String::from_str("author"));
    let authors = inner_texts(doc, &author_nodes);
    let fandom_nodes = search_all_by_attrib(doc, heading, "class", &String::from_str("tag"));
    let fandoms = inner_texts(doc, &fandom_nodes);
    let url = String::from_str("https://archiveofourown.org/works/").concat(id.as_str());
    Ok(AO3Work::new(id, url, title, authors, fandoms))
}

/// The result nodes of a page: those the selector `[role=article]` picks,
/// in document order.
pub open spec fn articles(html: Seq<char>) -> Seq<u32> {
    match dom_select(html, "[role=article]"@) {
        Some(ns) => ns,
        None => Seq::empty(),
    }
}

/// The records of the result nodes `ns`, in order, or the error of the
/// first one that cannot be read.
pub open spec fn records_in(html: Seq<char>, ns: Seq<u32>) -> Result<Seq<WorkView>, ParsingError>
    decreases ns.len(),
{
    if ns.len() == 0 {
        Ok(Seq::empty())
    } else {
        match records_in(html, ns.drop_last()) {
            Err(e) => Err(e),
            Ok(ws) => match extract_work(html, ns.last()) {
                Err(e) => Err(e),
                Ok(w) => Ok(ws.push(w)),
            },
        }
    }
}

/// What a results page yields: an error when it has no result node at all,
/// else the records of all its results, or the first error among them.
pub open spec fn extract_page(html: Seq<char>) -> Result<Seq<WorkView>, ParsingError> {
    if articles(html).len() == 0 {
        Err(ParsingError::CouldNotFind(Landmark::WorkList))
    } else {
        records_in(html, articles(html))
    }
}

pub open spec fn work_views(v: Seq<AO3Work>) -> Seq<WorkView> {
    v.map_values(|w: AO3Work| w@)
}

pub open spec fn page_view(r: Result<Vec<AO3Work>, ParsingError>) -> Result<Seq<WorkView>, ParsingError> {
    match r {
        Ok(v) => Ok(work_views(v@)),
        Err(e) => Err(e),
    }
}

/// Once a prefix of the results fails, the whole list fails the same way.
proof fn lemma_records_fail_early(html: Seq<char>, ns: Seq<u32>, k: int)
    requires
        0 <= k <= ns.len(),
        records_in(html, ns.take(k)) is Err,
    ensures
        records_in(html, ns) == records_in(html, ns.take(k)),
    decreases ns.len() - k,
{
    if k < ns.len() {
        assert(ns.take(k + 1).drop_last() =~= ns.take(k));
        lemma_records_fail_early(html, ns, k + 1);
    } else {
        assert(ns.take(k) =~= ns);
    }
}

/// The result nodes of the page, in document order.
pub fn find_works(doc: &Document) -> (r: Vec<u32>)
    ensures
        r@ == articles(doc.source()),
        forall|i: int, j: int| 0 <= i < j < r@.len() ==> r@[i] < r@[j],
{
    match doc.select("[role=article]") {
        Some(nodes) => nodes,
        None => Vec::new(),
    }
}

/// Reads every result of the page, giving up at the first one that cannot
/// be read.
pub fn extract_works(doc: &Document) -> (r: Result<Vec<AO3Work>, ParsingError>)
    ensures
        page_view(r) == extract_page(doc.source()),
{
    let nodes = find_works(doc);
    if nodes.len() == 0 {
        return Err(ParsingError::CouldNotFind(Landmark::WorkList));
    }
    let ghost html = doc.source();
    let mut works: Vec<AO3Work> = Vec::new();
    let mut i: usize = 0;
    assert(nodes@.take(0) =~= Seq::<u32>::empty());
    assert(work_views(works@) =~= Seq::<WorkView>::empty());
    while i < nodes.len()
        invariant
            i <= nodes@.len(),
            html == doc.source(),
            nodes@ == articles(html),
            records_in(html, nodes@.take(i as int)) == Ok::<Seq<WorkView>, ParsingError>(work_views(works@)),
        decreases nodes@.len() - i,
    {
        assert(nodes@.take(i + 1).drop_last() =~= nodes@.take(i as int));
        match parse_search_single_work(doc, nodes[i]) {
            Ok(w) => {
                let ghost before = works@;
                works.push(w);
                assert(work_views(works@) =~= work_views(before).push(w@));
            },
            Err(e) => {
                proof {
                    lemma_records_fail_early(html, nodes@, i + 1);
                }
                return Err(e);
            },
        }
        i = i + 1;
    }
    assert(nodes@.take(nodes@.len() as int) =~= nodes@);
    Ok(works)
}

/// Reads every result of the page on its own, so that the caller decides
/// what a result that cannot be read means for the others.
pub fn extract_each_work(doc: &Document) -> (r: Result<Vec<Result<AO3Work, ParsingError>>, ParsingError>)
    ensures
        r is Err <==> articles(doc.source()).len() == 0,
        r matches Err(e) ==> e == ParsingError::CouldNotFind(Landmark::WorkList),
        r matches Ok(v) ==> v@.len() == articles(doc.source()).len() && forall|i: int|
            0 <= i < v@.len() ==> record_view(#[trigger] v@[i]) == extract_work(
                doc.source(),
                articles(doc.source())[i],
            ),
{
    let nodes = find_works(doc);
    if nodes.len() == 0 {
        return Err(ParsingError::CouldNotFind(Landmark::WorkList));
    }
    let mut records: Vec<Result<AO3Work, ParsingError>> = Vec::new();
    let mut i: usize = 0;
    while i < nodes.len()
        invariant
            i <= nodes@.len(),
            nodes@ == articles(doc.source()),
            records@.len() == i,
            forall|j: int|
                0 <= j < i ==> record_view(#[trigger] records@[j]) == extract_work(doc.source(), nodes@[j]),
        decreases nodes@.len() - i,
    {
        records.push(parse_search_single_work(doc, nodes[i]));
        i = i + 1;
    }
    Ok(records)
}

/// Parses a results page and reads all its records, giving up at the first
/// one that cannot be read.
pub fn parse_search(html_code: &str) -> (r: Result<Vec<AO3Work>, ParsingError>)
    ensures
        r == Err::<Vec<AO3Work>, ParsingError>(ParsingError::InvalidDocument) || page_view(r) == extract_page(
            html_code@,
        ),
        html_code@.len() <= 0x3FFF_FFFF ==> page_view(r) == extract_page(html_code@),
{
    match Document::from_html(html_code) {
        Ok(doc) => extract_works(&doc),
        Err(e) => Err(e),
    }
}

/// Parses a results page and reads each of its records on its own.
pub fn parse_search_each(html_code: &str) -> (r: Result<Vec<Result<AO3Work, ParsingError>>, ParsingError>)
    ensures
        r matches Err(e) ==> e == ParsingError::InvalidDocument || (e == ParsingError::CouldNotFind(
            Landmark::WorkList,
        ) && articles(html_code@).len() == 0),
        html_code@.len() <= 0x3FFF_FFFF ==> (r is Err <==> articles(html_code@).len() == 0),
        html_code@.len() <= 0x3FFF_FFFF && r is Err ==> r == Err::<
            Vec<Result<AO3Work, ParsingError>>,
            ParsingError,
        >(ParsingError::CouldNotFind(Landmark::WorkList)),
        r matches Ok(v) ==> v@.len() == articles(html_code@).len() && forall|i: int|
            0 <= i < v@.len() ==> record_view(#[trigger] v@[i]) == extract_work(
                html_code@,
                articles(html_code@)[i],
            ),
{
    match Document::from_html(html_code) {
        Ok(doc) => extract_each_work(&doc),
        Err(e) => Err(e),
    }
}

} // verus!
