use vstd::prelude::*;

use crate::browser::{browser_views, UIBrowser, UIBrowserView};

verus! {

/// Whether `url` parses as an absolute URL.
pub uninterp spec fn url_parses(url: Seq<char>) -> bool;

/// Relies on `url::Url::parse`: whether the text is an absolute URL, which depends on the
/// text alone.
#[verifier::external_body]
fn parse_url_ok(url: &str) -> (r: bool)
    ensures
        r == url_parses(url@),
{
    url::Url::parse(url).is_ok()
}

/// The views of the verdicts of each row's matchers.
pub open spec fn verdict_views(url_matches: Seq<Vec<bool>>) -> Seq<Seq<bool>> {
    url_matches.map_values(|v: Vec<bool>| v@)
}

/// Whether one of row `i`'s matchers accepted the link; a missing verdict counts as no match.
pub open spec fn matched_at(url_matches: Seq<Seq<bool>>, i: int) -> bool {
    0 <= i < url_matches.len() && exists|j: int| 0 <= j < url_matches[i].len() && url_matches[i][j]
}

/// Whether one of the verdicts is a match, looking no further than the first match.
pub fn any_matcher_accepts(verdicts: &Vec<bool>) -> (r: bool)
    ensures
        r == exists|j: int| 0 <= j < verdicts@.len() && verdicts@[j],
{
    let mut j: usize = 0;
    while j < verdicts.len()
        invariant
            j <= verdicts@.len(),
            forall|k: int| 0 <= k < j ==> !verdicts@[k],
        decreases verdicts@.len() - j,
    {
        if verdicts[j] {
            return true;
        }
        j = j + 1;
    }
    false
}

/// A row stays when it is unrestricted, or when the link parsed and one of its matchers
/// accepted it.
pub open spec fn is_kept(b: UIBrowserView, url_valid: bool, matched: bool) -> bool {
    !b.has_priority_ordering() || (url_valid && matched)
}

/// Indices, in increasing order, of the kept rows among the first `n` whose restriction
/// status is `pinned`.
pub open spec fn partition_indices(
    bs: Seq<UIBrowserView>,
    url_valid: bool,
    url_matches: Seq<Seq<bool>>,
    pinned: bool,
    n: int,
) -> Seq<int>
    decreases n,
{
    if n <= 0 {
        Seq::empty()
    } else {
        let prev = partition_indices(bs, url_valid, url_matches, pinned, n - 1);
        if is_kept(bs[n - 1], url_valid, matched_at(url_matches, n - 1))
            && bs[n - 1].has_priority_ordering() == pinned {
            prev.push(n - 1)
        } else {
            prev
        }
    }
}

/// Indices of the rows shown: the kept restricted rows, then the kept unrestricted rows,
/// each group in input order.
pub open spec fn filtered_order(bs: Seq<UIBrowserView>, url_valid: bool, url_matches: Seq<Seq<bool>>) -> Seq<int> {
    partition_indices(bs, url_valid, url_matches, true, bs.len() as int)
        + partition_indices(bs, url_valid, url_matches, false, bs.len() as int)
}

/// The rows at `order`, each stamped with its position counted from `start`.
pub open spec fn rows_at(bs: Seq<UIBrowserView>, order: Seq<int>, start: nat) -> Seq<UIBrowserView> {
    Seq::new(order.len(), |k: int| bs[order[k]].at_filtered_index(start + k as nat))
}

/// The filtered view of `bs`: the rows of [`filtered_order`], each stamped with its position.
pub open spec fn filtered_view(bs: Seq<UIBrowserView>, url_valid: bool, url_matches: Seq<Seq<bool>>) -> Seq<UIBrowserView> {
    rows_at(bs, filtered_order(bs, url_valid, url_matches), 0)
}

proof fn lemma_partition_indices(
    bs: Seq<UIBrowserView>,
    url_valid: bool,
    url_matches: Seq<Seq<bool>>,
    pinned: bool,
    n: int,
)
    requires
        0 <= n <= bs.len(),
    ensures
        ({
            let p = partition_indices(bs, url_valid, url_matches, pinned, n);
            &&& p.len() <= n
            &&& forall|k: int| 0 <= k < p.len() ==> 0 <= #[trigger] p[k] < n
            &&& forall|k: int| 0 <= k < p.len() ==> bs[#[trigger] p[k]].has_priority_ordering() == pinned
            &&& forall|j: int, k: int| 0 <= j < k < p.len() ==> p[j] < p[k]
        }),
    decreases n,
{
    if n > 0 {
        lemma_partition_indices(bs, url_valid, url_matches, pinned, n - 1);
    }
}

/// Appends to `out` the kept rows of one restriction status, stamped with their positions.
fn append_partition(
    out: &mut Vec<UIBrowser>,
    ui_browsers: &Vec<UIBrowser>,
    url_valid: bool,
    url_matches: &Vec<Vec<bool>>,
    pinned: bool,
)
    ensures
        browser_views(final(out)@) == browser_views(old(out)@) + rows_at(
            browser_views(ui_browsers@),
            partition_indices(browser_views(ui_browsers@), url_valid, verdict_views(url_matches@), pinned, ui_browsers@.len() as int),
            old(out)@.len(),
        ),
{
    let ghost bs = browser_views(ui_browsers@);
    let ghost base = out@;
    let mut i: usize = 0;
    while i < ui_browsers.len()
        invariant
            i <= ui_browsers@.len(),
            bs == browser_views(ui_browsers@),
            out@.len() == base.len() + partition_indices(bs, url_valid, verdict_views(url_matches@), pinned, i as int).len(),
            browser_views(out@) =~= browser_views(base) + rows_at(
                bs,
                partition_indices(bs, url_valid, verdict_views(url_matches@), pinned, i as int),
                base.len(),
            ),
        decreases ui_browsers@.len() - i,
    {
        let b = &ui_browsers[i];
        let matched = i < url_matches.len() && any_matcher_accepts(&url_matches[i]);
        proof {
            let ms = verdict_views(url_matches@);
            if (i as int) < ms.len() {
                assert(ms[i as int] == url_matches@[i as int]@);
            }
            assert(matched == matched_at(ms, i as int));
        }
        let keep = !b.has_priority_ordering() || (url_valid && matched);
        let ghost prev_p = partition_indices(bs, url_valid, verdict_views(url_matches@), pinned, i as int);
        let ghost prev_out = out@;
        if keep && b.has_priority_ordering() == pinned {
            let mut c = b.clone();
            c.filtered_index = out.len();
            out.push(c);
            let ghost p = prev_p.push(i as int);
            assert(rows_at(bs, p, base.len()) =~= rows_at(bs, prev_p, base.len()).push(
                bs[i as int].at_filtered_index(base.len() + prev_p.len()),
            ));
            assert(browser_views(out@) =~= browser_views(prev_out).push(c@));
        }
        i = i + 1;
    }
}

/// The rows of `ui_browsers` shown for a link: kept rows (see [`is_kept`]) with the restricted
/// ones first, each group in input order, each row stamped with its position.
/// `url_valid` says whether the link parsed; `url_matches[i][j]` says whether matcher `j` of
/// row `i` accepted it.
pub fn filter_browsers(url_valid: bool, ui_browsers: &Vec<UIBrowser>, url_matches: &Vec<Vec<bool>>) -> (r: Vec<UIBrowser>)
    ensures
        browser_views(r@) == filtered_view(browser_views(ui_browsers@), url_valid, verdict_views(url_matches@)),
{
    let ghost bs = browser_views(ui_browsers@);
    let ghost n = ui_browsers@.len() as int;
    let mut out: Vec<UIBrowser> = Vec::new();
    append_partition(&mut out, ui_browsers, url_valid, url_matches, true);
    let ghost first = out@;
    append_partition(&mut out, ui_browsers, url_valid, url_matches, false);
    proof {
        let pa = partition_indices(bs, url_valid, verdict_views(url_matches@), true, n);
        let pb = partition_indices(bs, url_valid, verdict_views(url_matches@), false, n);
        assert(browser_views(first) =~= rows_at(bs, pa, 0));
        assert(rows_at(bs, pa + pb, 0) =~= rows_at(bs, pa, 0) + rows_at(bs, pb, pa.len()));
    }
    out
}

/// The rows of `ui_browsers` shown for the link `url`, as [`filter_browsers`] gives them for
/// whether `url` parses as an absolute URL.
pub fn get_filtered_browsers(url: &str, ui_browsers: &Vec<UIBrowser>, url_matches: &Vec<Vec<bool>>) -> (r: Vec<UIBrowser>)
    ensures
        browser_views(r@) == filtered_view(browser_views(ui_browsers@), url_parses(url@), verdict_views(url_matches@)),
{
    let url_valid = parse_url_ok(url);
    filter_browsers(url_valid, ui_browsers, url_matches)
}

/// Filtering is a function of its inputs: two results for the same rows, link and verdicts
/// are equal, and every row of a result carries its own position.
pub proof fn lemma_filter_deterministic(
    r1: Seq<UIBrowserView>,
    r2: Seq<UIBrowserView>,
    bs: Seq<UIBrowserView>,
    url: Seq<char>,
    url_matches: Seq<Seq<bool>>,
)
    requires
        r1 == filtered_view(bs, url_parses(url), url_matches),
        r2 == filtered_view(bs, url_parses(url), url_matches),
    ensures
        r1 == r2,
        forall|k: int| 0 <= k < r1.len() ==> #[trigger] r1[k].filtered_index == k,
{
}

/// In a filtered view every restricted row comes before every unrestricted row, and rows
/// of the same kind keep their input order.
pub proof fn lemma_priority_ordering(bs: Seq<UIBrowserView>, url_valid: bool, url_matches: Seq<Seq<bool>>)
    ensures
        ({
            let order = filtered_order(bs, url_valid, url_matches);
            let view = filtered_view(bs, url_valid, url_matches);
            &&& view.len() == order.len()
            &&& forall|k: int| 0 <= k < order.len() ==> 0 <= #[trigger] order[k] < bs.len()
                && view[k] == bs[order[k]].at_filtered_index(k as nat)
            &&& forall|i: int, j: int| 0 <= i < j < view.len() && view[j].has_priority_ordering()
                ==> view[i].has_priority_ordering()
            &&& forall|i: int, j: int| 0 <= i < j < view.len()
                && view[i].has_priority_ordering() == view[j].has_priority_ordering()
                ==> order[i] < order[j]
        }),
{
    let n = bs.len() as int;
    let pa = partition_indices(bs, url_valid, url_matches, true, n);
    let pb = partition_indices(bs, url_valid, url_matches, false, n);
    lemma_partition_indices(bs, url_valid, url_matches, true, n);
    lemma_partition_indices(bs, url_valid, url_matches, false, n);
    let order = filtered_order(bs, url_valid, url_matches);
    assert forall|k: int| 0 <= k < order.len() implies bs[#[trigger] order[k]].has_priority_ordering() == (k < pa.len()) by {
        if k < pa.len() {
            assert(order[k] == pa[k]);
        } else {
            assert(order[k] == pb[k - pa.len()]);
        }
    }
    assert forall|i: int, j: int| 0 <= i < j < order.len()
        && bs[order[i]].has_priority_ordering() == bs[order[j]].has_priority_ordering()
        implies order[i] < order[j] by {
        assert(bs[order[i]].has_priority_ordering() == (i < pa.len()));
        assert(bs[order[j]].has_priority_ordering() == (j < pa.len()));
        if j < pa.len() {
            assert(order[i] == pa[i] && order[j] == pa[j]);
        } else {
            assert(order[i] == pb[i - pa.len()] && order[j] == pb[j - pa.len()]);
        }
    }
}

} // verus!
