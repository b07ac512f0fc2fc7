//! Tools that reach out to the web: a search through the Brave search engine
//! and the fetching of a page.
//!
//! Sending a request is the caller's work. What is found here is what a tool
//! asks for and what it makes of the reply.

use crate::tool::{result_view, Reply, ToolError, ToolErrorView, ToolResult, ToolResultView};
use vstd::prelude::*;

verus! {

/// One result of a web search, as the search engine gave it. A part is
/// `None` where the engine gave no text for it.
#[derive(Debug, PartialEq)]
pub struct SearchHit {
    pub title: Option<String>,
    pub description: Option<String>,
    pub url: Option<String>,
}

/// The mathematical value of a [`SearchHit`].
pub struct SearchHitView {
    pub title: Option<Seq<char>>,
    pub description: Option<Seq<char>>,
    pub url: Option<Seq<char>>,
}

/// The text of a part of a search result, where there is one.
pub open spec fn part_view(part: Option<String>) -> Option<Seq<char>> {
    match part {
        Some(text) => Some(text@),
        None => None,
    }
}

impl View for SearchHit {
    type V = SearchHitView;

    open spec fn view(&self) -> SearchHitView {
        SearchHitView {
            title: part_view(self.title),
            description: part_view(self.description),
            url: part_view(self.url),
        }
    }
}

/// The values of a list of search results, in order.
pub open spec fn hit_views(hits: Seq<SearchHit>) -> Seq<SearchHitView> {
    hits.map_values(|hit: SearchHit| hit@)
}

/// How one search result is shown to the model, or the error for the first
/// part that is missing: the title, then the description, then the address.
pub open spec fn hit_text(hit: SearchHitView) -> ToolResultView {
    match hit.title {
        None => Err(ToolErrorView::Other("web title is not a string"@)),
        Some(title) => match hit.description {
            None => Err(ToolErrorView::Other("web description is not a string"@)),
            Some(description) => match hit.url {
                None => Err(ToolErrorView::Other("web url is not a string"@)),
                Some(url) => Ok(
                    "Title: "@ + title + "\nDescription: "@ + description + "\nURL: "@ + url,
                ),
            },
        },
    }
}

/// How the search results `hits` are shown to the model: one after the
/// other, with an empty line between two. The error of the first result that
/// misses a part, where one does.
pub open spec fn hits_text(hits: Seq<SearchHitView>) -> ToolResultView
    decreases hits.len(),
{
    if hits.len() == 0 {
        Ok(Seq::empty())
    } else {
        match hits_text(hits.drop_last()) {
            Err(error) => Err(error),
            Ok(before) => match hit_text(hits.last()) {
                Err(error) => Err(error),
                Ok(text) => if hits.len() == 1 {
                    Ok(text)
                } else {
                    Ok(before + "\n\n"@ + text)
                },
            },
        }
    }
}

/// What a search comes to: `ExecutionError` where the engine's reply holds
/// no list of results, else the results as text.
pub open spec fn search_text(hits: Option<Seq<SearchHitView>>) -> ToolResultView {
    match hits {
        None => Err(ToolErrorView::ExecutionError),
        Some(hits) => hits_text(hits),
    }
}

/// What the fetching of the page at `url` comes to. That the request failed
/// or was refused is told to the model, with the address.
pub open spec fn fetch_text(url: Seq<char>, reply: Reply<String>) -> ToolResultView {
    match reply {
        Reply::Unsent(error) => Err(
            ToolErrorView::LLMError("Request to "@ + url + " failed: "@ + error@),
        ),
        Reply::Refused(status) => Err(
            ToolErrorView::LLMError("Request to "@ + url + " failed with status: "@ + status@),
        ),
        Reply::Unreadable(error) => Err(ToolErrorView::Other(error@)),
        Reply::Body(body) => Ok(body@),
    }
}

/// Writes one search result as it is shown to the model.
pub fn show_hit(hit: &SearchHit) -> (result: ToolResult)
    ensures
        result_view(result) == hit_text(hit@),
{
    let title = match &hit.title {
        Some(title) => title,
        None => {
            return Err(ToolError::Other(String::from_str("web title is not a string")));
        },
    };
    let description = match &hit.description {
        Some(description) => description,
        None => {
            return Err(ToolError::Other(String::from_str("web description is not a string")));
        },
    };
    let url = match &hit.url {
        Some(url) => url,
        None => {
            return Err(ToolError::Other(String::from_str("web url is not a string")));
        },
    };
    let mut text = String::from_str("Title: ");
    text.append(title.as_str());
    text.append("\nDescription: ");
    text.append(description.as_str());
    text.append("\nURL: ");
    text.append(url.as_str());
    assert(text@ =~= "Title: "@ + title@ + "\nDescription: "@ + description@ + "\nURL: "@ + url@);
    Ok(text)
}

/// A search through the Brave search engine.
pub struct WebSearchToolBox {
    api_key: String,
}

impl WebSearchToolBox {
    /// The key by which the search engine knows the caller.
    pub closed spec fn key(&self) -> Seq<char> {
        self.api_key@
    }

    /// A search on behalf of the holder of `api_key`.
    pub fn new(api_key: &str) -> (toolbox: WebSearchToolBox)
        ensures
            toolbox.key() == api_key@,
    {
        WebSearchToolBox { api_key: String::from_str(api_key) }
    }

    /// The key by which the search engine knows the caller. It is sent in
    /// the header `X-Subscription-Token`.
    pub fn api_key(&self) -> (api_key: &String)
        ensures
            api_key@ == self.key(),
    {
        &self.api_key
    }

    /// The address of the search engine.
    pub fn endpoint() -> (url: &'static str)
        ensures
            url@ == "https://api.search.brave.com/res/v1/web/search"@,
    {
        "https://api.search.brave.com/res/v1/web/search"
    }

    /// The parameters of the request for `query`: the query itself, five
    /// results, and results from the web only.
    pub fn parameters(query: &str) -> (parameters: Vec<(String, String)>)
        ensures
            parameters@.len() == 3,
            parameters@[0].0@ == "q"@ && parameters@[0].1@ == query@,
            parameters@[1].0@ == "count"@ && parameters@[1].1@ == "5"@,
            parameters@[2].0@ == "result_filter"@ && parameters@[2].1@ == "web"@,
    {
        let mut parameters: Vec<(String, String)> = Vec::new();
        parameters.push((String::from_str("q"), String::from_str(query)));
        parameters.push((String::from_str("count"), String::from_str("5")));
        parameters.push((String::from_str("result_filter"), String::from_str("web")));
        parameters
    }

    /// Makes the answer to a search out of the engine's reply. `hits` is the
    /// list of results in the reply, `None` where it held none.
    pub fn web_search(hits: Option<Vec<SearchHit>>) -> (result: ToolResult)
        ensures
            result_view(result) == search_text(
                match hits {
                    Some(hits) => Some(hit_views(hits@)),
                    None => None,
                },
            ),
    {
        let list = match hits {
            Some(list) => list,
            None => {
                return Err(ToolError::ExecutionError);
            },
        };
        let ghost all = hit_views(list@);
        let mut text = String::new();
        let mut i: usize = 0;
        assert(all.take(0) =~= Seq::<SearchHitView>::empty());
        while i < list.len()
            invariant
                i <= list@.len(),
                hits == Some(list),
                all == hit_views(list@),
                hits_text(all.take(i as int)) == Ok::<Seq<char>, ToolErrorView>(text@),
            decreases list@.len() - i,
        {
            proof {
                assert(all.take(i + 1).drop_last() =~= all.take(i as int));
                assert(all.take(i + 1).last() == list@[i as int]@);
            }
            let shown = match show_hit(&list[i]) {
                Ok(shown) => shown,
                Err(error) => {
                    proof {
                        assert(hit_text(all.take(i + 1).last()) is Err);
                        assert(hits_text(all.take(i + 1)) == Err::<Seq<char>, ToolErrorView>(
                            error@,
                        ));
                        lemma_first_failure_stays(all, i + 1);
                    }
                    return Err(error);
                },
            };
            if i > 0 {
                text.append("\n\n");
            }
            text.append(shown.as_str());
            assert(hits_text(all.take(i + 1)) == Ok::<Seq<char>, ToolErrorView>(text@)) by {
                let before = hits_text(all.take(i as int))->Ok_0;
                if i > 0 {
                    assert(text@ =~= before + "\n\n"@ + shown@);
                } else {
                    assert(text@ =~= shown@);
                }
            }
            i = i + 1;
        }
        assert(all.take(i as int) =~= all);
        Ok(text)
    }
}

/// Once showing the first results of a list has failed, showing the whole
/// list fails in the same way.
pub proof fn lemma_first_failure_stays(hits: Seq<SearchHitView>, shown: int)
    requires
        0 <= shown <= hits.len(),
        hits_text(hits.take(shown)) is Err,
    ensures
        hits_text(hits) == hits_text(hits.take(shown)),
    decreases hits.len() - shown,
{
    if shown == hits.len() {
        assert(hits.take(shown) =~= hits);
    } else {
        assert(hits.take(shown + 1).drop_last() =~= hits.take(shown));
        lemma_first_failure_stays(hits, shown + 1);
    }
}

/// The fetching of a page.
pub struct WebFetchToolBox {}

impl WebFetchToolBox {
    /// A fetcher of pages.
    pub fn new() -> WebFetchToolBox {
        WebFetchToolBox {  }
    }

    /// Makes the answer to the fetching of the page at `url` out of the
    /// server's reply.
    pub fn web_fetch(url: &str, reply: Reply<String>) -> (result: ToolResult)
        ensures
            result_view(result) == fetch_text(url@, reply),
    {
        match reply {
            Reply::Unsent(error) => {
                let mut text = String::from_str("Request to ");
                text.append(url);
                text.append(" failed: ");
                text.append(error.as_str());
                assert(text@ =~= "Request to "@ + url@ + " failed: "@ + error@);
                Err(ToolError::LLMError(text))
            },
            Reply::Refused(status) => {
                let mut text = String::from_str("Request to ");
                text.append(url);
                text.append(" failed with status: ");
                text.append(status.as_str());
                assert(text@ =~= "Request to "@ + url@ + " failed with status: "@ + status@);
                Err(ToolError::LLMError(text))
            },
            Reply::Unreadable(error) => Err(ToolError::Other(error)),
            Reply::Body(body) => Ok(body),
        }
    }
}

impl Default for WebFetchToolBox {
    fn default() -> WebFetchToolBox {
        WebFetchToolBox::new()
    }
}

} // verus!
