//! Web search: the query and the results kept from a search response.
use vstd::prelude::*;
use crate::text::{decimal, u64_text};
use crate::thread_info::opt_view;

verus! {

/// The arguments of a web search.
#[derive(Debug)]
pub struct SearchArgs {
    /// The query.
    pub query: String,
}

/// A search result.
#[derive(Debug)]
pub struct SearchResultItem {
    pub title: String,
    pub link: String,
    /// A short description of the result.
    pub snippet: String,
}

/// The fields of a raw result item that are strings.
#[derive(Debug)]
pub struct RawItem {
    pub title: Option<String>,
    pub link: Option<String>,
    pub snippet: Option<String>,
}

/// A raw item with all three fields.
pub open spec fn complete(i: RawItem) -> bool {
    i.title is Some && i.link is Some && i.snippet is Some
}

/// The results of the raw items that have a title, a link and a snippet, in order.
pub open spec fn complete_items(items: Seq<RawItem>) -> Seq<RawItem>
    decreases items.len(),
{
    if items.len() == 0 {
        Seq::empty()
    } else if complete(items.last()) {
        complete_items(items.drop_last()).push(items.last())
    } else {
        complete_items(items.drop_last())
    }
}

/// The search results of the raw items that have a title, a link and a
/// snippet, in order; the others are dropped.
pub fn collect_results(items: &Vec<RawItem>) -> (r: Vec<SearchResultItem>)
    ensures
        r@.len() == complete_items(items@).len(),
        forall|k: int|
            0 <= k < r@.len() ==> (#[trigger] r@[k]).title@ == complete_items(items@)[k].title->0@
                && r@[k].link@ == complete_items(items@)[k].link->0@ && r@[k].snippet@
                == complete_items(items@)[k].snippet->0@,
{
    let mut r: Vec<SearchResultItem> = Vec::new();
    let mut i: usize = 0;
    while i < items.len()
        invariant
            i <= items.len(),
            r@.len() == complete_items(items@.take(i as int)).len(),
            forall|k: int|
                0 <= k < r@.len() ==> (#[trigger] r@[k]).title@ == complete_items(
                    items@.take(i as int),
                )[k].title->0@ && r@[k].link@ == complete_items(items@.take(i as int))[k].link->0@
                    && r@[k].snippet@ == complete_items(items@.take(i as int))[k].snippet->0@,
        decreases items.len() - i,
    {
        assert(items@.take(i + 1).drop_last() =~= items@.take(i as int));
        let it = &items[i];
        match (&it.title, &it.link, &it.snippet) {
            (Some(t), Some(l), Some(s)) => {
                r.push(SearchResultItem { title: t.clone(), link: l.clone(), snippet: s.clone() });
            },
            _ => {},
        }
        i = i + 1;
    }
    assert(items@.take(items.len() as int) =~= items@);
    r
}

/// What the `url` crate makes of a base URL with query pairs: `Url::parse`
/// of the base, each pair appended in order by `query_pairs_mut`, and the
/// URL's text; `None` where the base does not parse.
pub uninterp spec fn url_with_query_text(base: Seq<char>, pairs: Seq<(Seq<char>, Seq<char>)>) -> Option<Seq<char>>;

/// The texts of pairs of strings.
pub open spec fn pair_texts(pairs: Seq<(String, String)>) -> Seq<(Seq<char>, Seq<char>)> {
    pairs.map_values(|p: (String, String)| (p.0@, p.1@))
}

/// Appends query pairs to a base URL.
/// Trusted: calls `url::Url::parse` on the base and `query_pairs_mut` to
/// append the pairs (form-urlencoded); the contract only names the result,
/// as a function of the base and the pairs.
#[verifier::external_body]
fn url_with_query(base: &str, pairs: &Vec<(String, String)>) -> (r: Option<String>)
    ensures
        opt_view(r) == url_with_query_text(base@, pair_texts(pairs@)),
{
    let mut url = url::Url::parse(base).ok()?;
    url.query_pairs_mut().extend_pairs(pairs.iter().map(|(k, v)| (k.as_str(), v.as_str())));
    Some(url.to_string())
}

/// The settings of the Google custom search.
#[derive(Debug)]
pub struct GoogleSearch {
    pub api_key: String,
    pub search_engine_id: String,
    /// How many results to ask for.
    pub result_number: u8,
}

/// The query of a search: the key, the search engine, the number of results
/// and the query text.
pub open spec fn search_pairs(g: GoogleSearch, query: Seq<char>) -> Seq<(Seq<char>, Seq<char>)> {
    seq![
        ("key"@, g.api_key@),
        ("cx"@, g.search_engine_id@),
        ("num"@, decimal(g.result_number as nat)),
        ("q"@, query),
    ]
}

impl GoogleSearch {
    /// The settings, asking for 5 results unless a number is given.
    pub fn new(api_key: String, search_engine_id: String, result_number: Option<u8>) -> (g: GoogleSearch)
        ensures
            g.api_key == api_key,
            g.search_engine_id == search_engine_id,
            g.result_number == match result_number {
                Some(n) => n,
                None => 5u8,
            },
    {
        let n = match result_number {
            Some(n) => n,
            None => 5,
        };
        GoogleSearch { api_key, search_engine_id, result_number: n }
    }

    /// The request URL of a search for `query`.
    pub fn search_url(&self, query: &str) -> (r: Option<String>)
        ensures
            opt_view(r) == url_with_query_text(
                "https://www.googleapis.com/customsearch/v1"@,
                search_pairs(*self, query@),
            ),
    {
        let mut pairs: Vec<(String, String)> = Vec::new();
        pairs.push((String::from_str("key"), self.api_key.clone()));
        pairs.push((String::from_str("cx"), self.search_engine_id.clone()));
        pairs.push((String::from_str("num"), u64_text(self.result_number as u64)));
        pairs.push((String::from_str("q"), query.to_owned()));
        assert(pair_texts(pairs@) =~= search_pairs(*self, query@));
        url_with_query("https://www.googleapis.com/customsearch/v1", &pairs)
    }
}

} // verus!
