use crate::usecase::status_filter::is_text;
use vstd::prelude::*;

verus! {

/// The pairs of the query of a URL, names and values decoded, in their
/// order, as the `url` crate reads them. Nothing where the text is no URL.
pub uninterp spec fn url_query_pairs(url: Seq<char>) -> Option<
    Seq<(Seq<char>, Seq<char>)>,
>;

/// Pairs of text as mathematical values.
pub open spec fn pair_views(pairs: Seq<(String, String)>) -> Seq<(Seq<char>, Seq<char>)> {
    pairs.map_values(|pair: (String, String)| (pair.0@, pair.1@))
}

/// Parses the text with `url::Url::parse` and collects what `query_pairs`
/// gives. Claimed: the answer depends on the text alone.
#[verifier::external_body]
fn query_pairs(url: &str) -> (pairs: Option<Vec<(String, String)>>)
    ensures
        match pairs {
            Some(list) => url_query_pairs(url@) == Some(pair_views(list@)),
            None => url_query_pairs(url@) is None,
        },
{
    let parsed = url::Url::parse(url).ok()?;
    Some(parsed.query_pairs().into_owned().collect())
}

/// The value of the last pair with the given name.
pub open spec fn last_value_of(pairs: Seq<(Seq<char>, Seq<char>)>, name: Seq<char>) -> Option<
    Seq<char>,
>
    decreases pairs.len(),
{
    if pairs.len() == 0 {
        None
    } else if pairs.last().0 == name {
        Some(pairs.last().1)
    } else {
        last_value_of(pairs.drop_last(), name)
    }
}

/// The status that the pairs of a query ask for: the value of the last
/// pair named `status`.
pub fn status_of_pairs(pairs: &Vec<(String, String)>) -> (status: Option<String>)
    ensures
        match status {
            Some(value) => last_value_of(pair_views(pairs@), "status"@) == Some(value@),
            None => last_value_of(pair_views(pairs@), "status"@) is None,
        },
{
    let ghost all = pair_views(pairs@);
    let mut i: usize = pairs.len();
    proof {
        assert(all.take(i as int) =~= all);
    }
    while i > 0
        invariant
            i <= pairs.len(),
            all == pair_views(pairs@),
            last_value_of(all, "status"@) == last_value_of(all.take(i as int), "status"@),
        decreases i,
    {
        i -= 1;
        proof {
            assert(all.take(i + 1).drop_last() =~= all.take(i as int));
            assert(all.take(i + 1).last() == all[i as int]);
        }
        if is_text(&pairs[i].0, "status") {
            return Some(pairs[i].1.clone());
        }
    }
    None
}

/// The text of an optional header.
pub open spec fn header_view(header: Option<&str>) -> Option<Seq<char>> {
    match header {
        Some(text) => Some(text@),
        None => None,
    }
}

/// The status that a request's headers ask for, given the URL in its
/// `hx-current-url` header, or else in its `referer` header: the value of
/// the last `status` pair of that URL's query.
pub open spec fn status_of_headers(
    hx_current_url: Option<Seq<char>>,
    referer: Option<Seq<char>>,
) -> Option<Seq<char>> {
    let current = if hx_current_url is Some {
        hx_current_url
    } else {
        referer
    };
    match current {
        Some(url) => match url_query_pairs(url) {
            Some(pairs) => last_value_of(pairs, "status"@),
            None => None,
        },
        None => None,
    }
}

/// The status that the page the request came from was showing. A header
/// that holds no URL gives none.
pub fn extract_status_from_header(hx_current_url: Option<&str>, referer: Option<&str>) -> (status:
    Option<String>)
    ensures
        match status {
            Some(value) => status_of_headers(header_view(hx_current_url), header_view(referer))
                == Some(value@),
            None => status_of_headers(header_view(hx_current_url), header_view(referer)) is None,
        },
{
    let current_url = match hx_current_url {
        Some(url) => Some(url),
        None => referer,
    };
    match current_url {
        Some(url) => match query_pairs(url) {
            Some(pairs) => status_of_pairs(&pairs),
            None => None,
        },
        None => None,
    }
}

} // verus!
