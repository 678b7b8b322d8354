//! The catalog query engine: the search, status and tag filters, the sort
//! and the pagination, in that order.

use crate::models::{DAGsQuery, DAGsResponse, DAG};
use crate::sorting::{sorted_is_permutation, sort_dags, stable_sorted, SortField};
use crate::text::{
    chars_eq_ignore_ascii_case, contains_text, eq_ignoring_ascii_case, lowercase_text,
    text_contains, text_eq, to_chars, to_lowercase,
};
use vstd::prelude::*;

verus! {

/// The count reported with a page is the size of the catalog before any
/// filter is applied, not the number of records that pass the filters.
pub const TOTAL_COUNT_IGNORES_FILTERS: bool = true;

/// The page of a query that names none.
pub const DEFAULT_PAGE: usize = 1;

/// The number of records on a page of a query that names none.
pub const DEFAULT_LIMIT: usize = 25;

/// Whether the lowercase form of the record's identifier, owner or
/// description holds `needle`.
pub open spec fn matches_search(d: DAG, needle: Seq<char>) -> bool {
    ||| text_contains(lowercase_text(d.dag_id@), needle)
    ||| text_contains(lowercase_text(d.owner@), needle)
    ||| (d.description matches Some(text) && text_contains(lowercase_text(text@), needle))
}

/// Whether the record passes the status filter with the given keyword. A
/// keyword that is none of the five known ones lets every record pass.
pub open spec fn matches_status(d: DAG, keyword: Seq<char>) -> bool {
    if keyword == "active"@ {
        !d.paused
    } else if keyword == "paused"@ {
        d.paused
    } else if keyword == "success"@ {
        d.success_count > 0 && d.failed_count == 0
    } else if keyword == "failed"@ {
        d.failed_count > 0
    } else if keyword == "running"@ {
        d.running_count > 0
    } else {
        true
    }
}

/// The parts of a text between its commas, from the part that starts at
/// `start` on, where the text is free of commas from `start` to `i`. A text
/// without a comma is one part; two commas in a row hold an empty part.
pub open spec fn split_scan(list: Seq<char>, start: int, i: int) -> Seq<Seq<char>>
    decreases list.len() - i,
{
    if i < 0 || i >= list.len() {
        seq![list.subrange(start, list.len() as int)]
    } else if list[i] == ',' {
        seq![list.subrange(start, i)] + split_scan(list, i + 1, i + 1)
    } else {
        split_scan(list, start, i + 1)
    }
}

/// The parts of a text between its commas.
pub open spec fn split_commas(list: Seq<char>) -> Seq<Seq<char>> {
    split_scan(list, 0, 0)
}

/// Whether the tag equals one of the parts, ignoring the case of ASCII
/// letters.
pub open spec fn tag_among(tag: Seq<char>, parts: Seq<Seq<char>>) -> bool {
    exists|j: int| 0 <= j < parts.len() && eq_ignoring_ascii_case(tag, #[trigger] parts[j])
}

/// Whether any tag of the record is among the requested tags.
pub open spec fn has_tag_among(d: DAG, parts: Seq<Seq<char>>) -> bool {
    exists|k: int| 0 <= k < d.tags@.len() && tag_among((#[trigger] d.tags@[k])@, parts)
}

/// Whether the record passes the tag filter: any of its tags equals any of
/// the tags of the comma-separated list, ignoring the case of ASCII letters.
pub open spec fn matches_tags(d: DAG, list: Seq<char>) -> bool {
    has_tag_among(d, split_commas(list))
}

/// The records that pass the search filter for a lowercase needle.
pub open spec fn search_pred(needle: Seq<char>) -> spec_fn(DAG) -> bool {
    |d: DAG| matches_search(d, needle)
}

/// The records that pass the status filter.
pub open spec fn status_pred(keyword: Seq<char>) -> spec_fn(DAG) -> bool {
    |d: DAG| matches_status(d, keyword)
}

/// The records that pass the tag filter for the requested tags.
pub open spec fn tags_pred(parts: Seq<Seq<char>>) -> spec_fn(DAG) -> bool {
    |d: DAG| has_tag_among(d, parts)
}

/// The field that a sort keyword names; any keyword but `owner`,
/// `last_run` and `next_run` names the identifier.
pub open spec fn sort_field_of(keyword: Seq<char>) -> SortField {
    if keyword == "owner"@ {
        SortField::Owner
    } else if keyword == "last_run"@ {
        SortField::LastRun
    } else if keyword == "next_run"@ {
        SortField::NextRun
    } else {
        SortField::DagId
    }
}

/// The page `page`, counted from 1, of the records at `limit` records a
/// page: empty where the records end before the page starts.
pub open spec fn page_of(s: Seq<DAG>, page: int, limit: int) -> Seq<DAG> {
    let offset = (page - 1) * limit;
    if offset >= s.len() {
        Seq::empty()
    } else if offset + limit >= s.len() {
        s.subrange(offset, s.len() as int)
    } else {
        s.subrange(offset, offset + limit)
    }
}

impl DAGsQuery {
    /// The page asked for, 1 if none is named.
    pub open spec fn page_or_default(self) -> int {
        match self.page {
            Some(p) => p as int,
            None => DEFAULT_PAGE as int,
        }
    }

    /// The number of records a page, 25 if none is named.
    pub open spec fn limit_or_default(self) -> int {
        match self.limit {
            Some(l) => l as int,
            None => DEFAULT_LIMIT as int,
        }
    }

    /// The field to sort by, the identifier if none is named.
    pub open spec fn sort_field(self) -> SortField {
        match self.sort_by {
            Some(keyword) => sort_field_of(keyword@),
            None => SortField::DagId,
        }
    }

    /// Whether the sort is descending: where an order is named and it is
    /// not `asc`.
    pub open spec fn descending(self) -> bool {
        match self.sort_order {
            Some(order) => order@ != "asc"@,
            None => false,
        }
    }

    /// The records that pass the filters of the query, in the order of the
    /// catalog.
    pub open spec fn filtered(self, dags: Seq<DAG>) -> Seq<DAG> {
        let searched = match self.search {
            Some(search) => dags.filter(search_pred(lowercase_text(search@))),
            None => dags,
        };
        let with_status = match self.status {
            Some(keyword) => searched.filter(status_pred(keyword@)),
            None => searched,
        };
        match self.tags {
            Some(list) => with_status.filter(tags_pred(split_commas(list@))),
            None => with_status,
        }
    }

    /// The count reported with the page: the size of the whole catalog
    /// where `TOTAL_COUNT_IGNORES_FILTERS` holds, else the number of records
    /// that pass the filters.
    pub open spec fn total_count(self, dags: Seq<DAG>) -> nat {
        if TOTAL_COUNT_IGNORES_FILTERS {
            dags.len()
        } else {
            self.filtered(dags).len()
        }
    }

    /// The page that the query asks for: the records that pass the filters,
    /// sorted, cut to the page.
    pub open spec fn result(self, dags: Seq<DAG>) -> Seq<DAG> {
        page_of(
            stable_sorted(self.filtered(dags), self.sort_field(), self.descending()),
            self.page_or_default(),
            self.limit_or_default(),
        )
    }
}

/// Whether the record passes the search filter for a needle that is
/// already in lowercase, given the lowercase forms of its identifier, owner
/// and description.
pub fn lowered_fields_match(
    dag_id: &str,
    owner: &str,
    description: Option<&str>,
    needle: &str,
) -> (r: bool)
    ensures
        r == (text_contains(dag_id@, needle@) || text_contains(owner@, needle@) || (
        description matches Some(text) && text_contains(text@, needle@))),
{
    if contains_text(dag_id, needle) {
        return true;
    }
    if contains_text(owner, needle) {
        return true;
    }
    match description {
        Some(text) => contains_text(text, needle),
        None => false,
    }
}

/// Whether the record passes the search filter for a needle that is
/// already in lowercase.
pub fn record_matches_search(d: &DAG, needle: &str) -> (r: bool)
    ensures
        r == matches_search(*d, needle@),
{
    let dag_id = to_lowercase(d.dag_id.as_str());
    let owner = to_lowercase(d.owner.as_str());
    match &d.description {
        Some(text) => {
            let lowered = to_lowercase(text.as_str());
            lowered_fields_match(dag_id.as_str(), owner.as_str(), Some(lowered.as_str()), needle)
        },
        None => lowered_fields_match(dag_id.as_str(), owner.as_str(), None, needle),
    }
}

/// Whether the record passes the status filter with the given keyword.
pub fn record_matches_status(d: &DAG, keyword: &str) -> (r: bool)
    ensures
        r == matches_status(*d, keyword@),
{
    if text_eq(keyword, "active") {
        !d.paused
    } else if text_eq(keyword, "paused") {
        d.paused
    } else if text_eq(keyword, "success") {
        d.success_count > 0 && d.failed_count == 0
    } else if text_eq(keyword, "failed") {
        d.failed_count > 0
    } else if text_eq(keyword, "running") {
        d.running_count > 0
    } else {
        true
    }
}

/// The views of character vectors.
pub open spec fn part_views(parts: Seq<Vec<char>>) -> Seq<Seq<char>> {
    parts.map_values(|p: Vec<char>| p@)
}

/// The parts of a text between its commas.
pub fn comma_parts(list: &str) -> (parts: Vec<Vec<char>>)
    ensures
        part_views(parts@) == split_commas(list@),
{
    let chars = to_chars(list);
    let mut parts: Vec<Vec<char>> = Vec::new();
    let mut current: Vec<char> = Vec::new();
    let mut i: usize = 0;
    let ghost mut start: int = 0;
    assert(part_views(parts@) =~= Seq::<Seq<char>>::empty());
    while i < chars.len()
        invariant
            0 <= start <= i <= chars.len(),
            chars@ == list@,
            current@ == list@.subrange(start, i as int),
            part_views(parts@) + split_scan(list@, start, i as int) == split_commas(list@),
        decreases chars.len() - i,
    {
        let c = chars[i];
        if c == ',' {
            let ghost before = parts@;
            let ghost part = current@;
            parts.push(current);
            current = Vec::new();
            proof {
                assert(part_views(parts@) =~= part_views(before).push(part));
                assert(part_views(before).push(part) + split_scan(list@, i + 1, i + 1)
                    =~= part_views(before) + (seq![part] + split_scan(list@, i + 1, i + 1)));
                start = i + 1;
                assert(current@ =~= list@.subrange(start, i + 1));
            }
        } else {
            current.push(c);
            assert(current@ =~= list@.subrange(start, i + 1));
        }
        i = i + 1;
    }
    let ghost before = parts@;
    let ghost part = current@;
    parts.push(current);
    proof {
        assert(part_views(parts@) =~= part_views(before).push(part));
        assert(part_views(before).push(part) =~= part_views(before) + seq![part]);
    }
    parts
}

/// Whether the tag equals one of the parts, ignoring the case of ASCII
/// letters.
pub fn tag_is_among(tag: &Vec<char>, parts: &Vec<Vec<char>>) -> (r: bool)
    ensures
        r == tag_among(tag@, part_views(parts@)),
{
    let mut j: usize = 0;
    while j < parts.len()
        invariant
            j <= parts.len(),
            forall|m: int|
                0 <= m < j ==> !eq_ignoring_ascii_case(tag@, #[trigger] part_views(parts@)[m]),
        decreases parts.len() - j,
    {
        if chars_eq_ignore_ascii_case(tag, &parts[j]) {
            assert(part_views(parts@)[j as int] == parts@[j as int]@);
            return true;
        }
        assert(part_views(parts@)[j as int] == parts@[j as int]@);
        j = j + 1;
    }
    false
}

/// Whether any tag of the record is among the requested tags.
pub fn record_matches_tags(d: &DAG, parts: &Vec<Vec<char>>) -> (r: bool)
    ensures
        r == has_tag_among(*d, part_views(parts@)),
{
    let mut k: usize = 0;
    while k < d.tags.len()
        invariant
            k <= d.tags@.len(),
            forall|m: int|
                0 <= m < k ==> !tag_among((#[trigger] d.tags@[m])@, part_views(parts@)),
        decreases d.tags@.len() - k,
    {
        let tag = to_chars(d.tags[k].as_str());
        if tag_is_among(&tag, parts) {
            return true;
        }
        k = k + 1;
    }
    false
}

/// The records that pass the search filter, in their order.
pub fn filter_by_search(dags: Vec<DAG>, search: &str) -> (out: Vec<DAG>)
    ensures
        out@ == dags@.filter(search_pred(lowercase_text(search@))),
{
    let needle = to_lowercase(search);
    let ghost all = dags@;
    let ghost pred = search_pred(lowercase_text(search@));
    let mut out: Vec<DAG> = Vec::new();
    proof {
        reveal(Seq::filter);
    }
    for d in it: dags
        invariant
            it.seq() == all,
            needle@ == lowercase_text(search@),
            pred == search_pred(lowercase_text(search@)),
            out@ == all.take(it.index() as int).filter(pred),
    {
        proof {
            reveal(Seq::filter);
            let after = all.take(it.index() + 1);
            assert(after.drop_last() =~= all.take(it.index() as int));
            assert(after.last() == d);
        }
        if record_matches_search(&d, needle.as_str()) {
            out.push(d);
        }
    }
    assert(all.take(all.len() as int) =~= all);
    out
}

/// The records that pass the status filter, in their order.
pub fn filter_by_status(dags: Vec<DAG>, keyword: &str) -> (out: Vec<DAG>)
    ensures
        out@ == dags@.filter(status_pred(keyword@)),
{
    let ghost all = dags@;
    let ghost pred = status_pred(keyword@);
    let mut out: Vec<DAG> = Vec::new();
    proof {
        reveal(Seq::filter);
    }
    for d in it: dags
        invariant
            it.seq() == all,
            pred == status_pred(keyword@),
            out@ == all.take(it.index() as int).filter(pred),
    {
        proof {
            reveal(Seq::filter);
            let after = all.take(it.index() + 1);
            assert(after.drop_last() =~= all.take(it.index() as int));
            assert(after.last() == d);
        }
        if record_matches_status(&d, keyword) {
            out.push(d);
        }
    }
    assert(all.take(all.len() as int) =~= all);
    out
}

/// The records that pass the tag filter, in their order.
pub fn filter_by_tags(dags: Vec<DAG>, list: &str) -> (out: Vec<DAG>)
    ensures
        out@ == dags@.filter(tags_pred(split_commas(list@))),
{
    let parts = comma_parts(list);
    let ghost all = dags@;
    let ghost pred = tags_pred(split_commas(list@));
    let mut out: Vec<DAG> = Vec::new();
    proof {
        reveal(Seq::filter);
    }
    for d in it: dags
        invariant
            it.seq() == all,
            part_views(parts@) == split_commas(list@),
            pred == tags_pred(split_commas(list@)),
            out@ == all.take(it.index() as int).filter(pred),
    {
        proof {
            reveal(Seq::filter);
            let after = all.take(it.index() + 1);
            assert(after.drop_last() =~= all.take(it.index() as int));
            assert(after.last() == d);
        }
        if record_matches_tags(&d, &parts) {
            out.push(d);
        }
    }
    assert(all.take(all.len() as int) =~= all);
    out
}

/// The field that a sort keyword names.
pub fn parse_sort_field(keyword: &str) -> (field: SortField)
    ensures
        field == sort_field_of(keyword@),
{
    if text_eq(keyword, "owner") {
        SortField::Owner
    } else if text_eq(keyword, "last_run") {
        SortField::LastRun
    } else if text_eq(keyword, "next_run") {
        SortField::NextRun
    } else {
        SortField::DagId
    }
}

/// The page `page`, counted from 1, of the records at `limit` records a
/// page.
pub fn paginate(dags: Vec<DAG>, page: usize, limit: usize) -> (out: Vec<DAG>)
    requires
        page >= 1,
    ensures
        out@ == page_of(dags@, page as int, limit as int),
{
    let ghost all = dags@;
    let len = dags.len();
    let mut out: Vec<DAG> = Vec::new();
    let offset = match (page - 1).checked_mul(limit) {
        Some(offset) => offset,
        None => {
            return out;
        },
    };
    if offset >= len {
        return out;
    }
    let end = if limit >= len - offset {
        len
    } else {
        offset + limit
    };
    let mut index: usize = 0;
    for d in it: dags
        invariant
            it.seq() == all,
            index == it.index(),
            offset <= end <= all.len(),
            len == all.len(),
            out@ == all.subrange(
                offset as int,
                if index < offset {
                    offset as int
                } else if index > end {
                    end as int
                } else {
                    index as int
                },
            ),
    {
        if offset <= index && index < end {
            out.push(d);
            assert(out@ =~= all.subrange(offset as int, index + 1));
        }
        index = index + 1;
    }
    out
}

/// Answers a query on a catalog: the records that pass the search, status
/// and tag filters that the query names, sorted by the field and in the
/// direction that it names, cut to the page that it names; with the total
/// count, which is the size of the whole catalog.
pub fn query_dags(dags: Vec<DAG>, query: &DAGsQuery) -> (r: DAGsResponse)
    requires
        query.well_formed(),
    ensures
        r.dags@ == query.result(dags@),
        r.total_count == query.total_count(dags@),
        TOTAL_COUNT_IGNORES_FILTERS ==> r.total_count == dags@.len(),
{
    let catalog_size = dags.len();
    let searched = match &query.search {
        Some(search) => filter_by_search(dags, search.as_str()),
        None => dags,
    };
    let with_status = match &query.status {
        Some(keyword) => filter_by_status(searched, keyword.as_str()),
        None => searched,
    };
    let with_tags = match &query.tags {
        Some(list) => filter_by_tags(with_status, list.as_str()),
        None => with_status,
    };
    let field = match &query.sort_by {
        Some(keyword) => parse_sort_field(keyword.as_str()),
        None => SortField::DagId,
    };
    let descending = match &query.sort_order {
        Some(order) => !text_eq(order.as_str(), "asc"),
        None => false,
    };
    let total_count = if TOTAL_COUNT_IGNORES_FILTERS {
        catalog_size
    } else {
        with_tags.len()
    };
    let sorted = sort_dags(with_tags, field, descending);
    let page = match query.page {
        Some(p) => p,
        None => DEFAULT_PAGE,
    };
    let limit = match query.limit {
        Some(l) => l,
        None => DEFAULT_LIMIT,
    };
    let page_dags = paginate(sorted, page, limit);
    DAGsResponse { dags: page_dags, total_count }
}

/// Every record of a page is a record of the catalog that passes each
/// filter that the query names, and a page holds no more records than the
/// limit.
pub proof fn page_holds_matching_records(dags: Seq<DAG>, query: DAGsQuery, k: int)
    requires
        query.well_formed(),
        0 <= k < query.result(dags).len(),
    ensures
        dags.contains(query.result(dags)[k]),
        query.search matches Some(search) ==> matches_search(
            query.result(dags)[k],
            lowercase_text(search@),
        ),
        query.status matches Some(keyword) ==> matches_status(query.result(dags)[k], keyword@),
        query.tags matches Some(list) ==> matches_tags(query.result(dags)[k], list@),
        query.result(dags).len() <= query.limit_or_default(),
{
    broadcast use vstd::seq_lib::group_to_multiset_ensures;

    let r = query.result(dags)[k];
    let filtered = query.filtered(dags);
    let sorted = stable_sorted(filtered, query.sort_field(), query.descending());
    sorted_is_permutation(filtered, query.sort_field(), query.descending());
    assert(sorted.contains(r));
    assert(sorted.to_multiset().count(r) > 0);
    assert(filtered.contains(r));
    let searched = match query.search {
        Some(search) => dags.filter(search_pred(lowercase_text(search@))),
        None => dags,
    };
    let with_status = match query.status {
        Some(keyword) => searched.filter(status_pred(keyword@)),
        None => searched,
    };
    if let Some(list) = query.tags {
        with_status.lemma_filter_contains_rev(tags_pred(split_commas(list@)), r);
    }
    assert(with_status.contains(r));
    if let Some(keyword) = query.status {
        searched.lemma_filter_contains_rev(status_pred(keyword@), r);
    }
    assert(searched.contains(r));
    if let Some(search) = query.search {
        dags.lemma_filter_contains_rev(search_pred(lowercase_text(search@)), r);
    }
}

/// A page that starts at or after the end of the records that pass the
/// filters is empty.
pub proof fn page_past_the_end_is_empty(dags: Seq<DAG>, query: DAGsQuery)
    requires
        query.well_formed(),
        (query.page_or_default() - 1) * query.limit_or_default() >= query.filtered(dags).len(),
    ensures
        query.result(dags).len() == 0,
{
    sorted_is_permutation(query.filtered(dags), query.sort_field(), query.descending());
}

} // verus!
