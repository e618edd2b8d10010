//! The engine's response and request types, the library's error type, and
//! the rules that turn raw responses into results.

use vstd::prelude::*;

use crate::schema::Field;

verus! {

/// One line of a batch-import response.
#[derive(Debug, Clone)]
pub struct ImportResponse {
    pub success: bool,
    pub error: Option<String>,
    pub document: Option<String>,
}

/// A collection as the engine reports it.
#[derive(Debug, Clone)]
pub struct CollectionResponse {
    pub name: String,
    pub num_documents: usize,
    pub fields: Vec<Field>,
    pub default_sorting_field: String,
}

/// The body of a collection-update request.
#[derive(Debug, Clone)]
pub struct CollectionUpdate {
    pub fields: Vec<Field>,
}

/// A multi-search response: one search response per submitted query.
#[derive(Debug, Clone)]
pub struct MultiSearchResponse<T> {
    pub results: Vec<SearchResponse<T>>,
}

/// One search response.
#[derive(Debug, Clone)]
pub struct SearchResponse<T> {
    pub facet_counts: Vec<usize>,
    pub found: usize,
    pub hits: Vec<SearchHit<T>>,
    pub out_of: usize,
    pub page: usize,
    pub request_params: SearchParams,
    pub search_cutoff: bool,
    pub search_time_ms: usize,
}

/// One matching document with its highlights.
#[derive(Debug, Clone)]
pub struct SearchHit<T> {
    pub document: T,
    pub highlights: Vec<SearchHighlight>,
    pub text_match: usize,
}

/// Where and how a hit matched.
#[derive(Debug, Clone)]
pub struct SearchHighlight {
    pub field: String,
    pub indices: Option<Vec<usize>>,
    pub matched_tokens: Vec<MatchedToken>,
    pub snippet: Option<String>,
    pub snippets: Option<Vec<String>>,
}

/// The parameters the engine echoes back with a search response.
#[derive(Debug, Clone)]
pub struct SearchParams {
    pub collection_name: String,
    pub per_page: usize,
    pub q: String,
}

/// A matched token: a single token for a plain field, a token list for an
/// array field.
#[derive(Debug, Clone)]
pub enum MatchedToken {
    Token(String),
    Tokens(Vec<String>),
}

impl MatchedToken {
    pub fn is_token(&self) -> (r: bool)
        ensures
            r == (self is Token),
    {
        matches!(self, MatchedToken::Token(_))
    }

    pub fn is_tokens(&self) -> (r: bool)
        ensures
            r == (self is Tokens),
    {
        matches!(self, MatchedToken::Tokens(_))
    }

    pub fn get_token(&self) -> (r: Option<&String>)
        ensures
            *self matches MatchedToken::Token(t) ==> (r matches Some(v) && *v == t),
            *self is Tokens ==> r is None,
    {
        if let Self::Token(t) = self {
            Some(t)
        } else {
            None
        }
    }

    pub fn get_tokens(&self) -> (r: Option<&Vec<String>>)
        ensures
            *self matches MatchedToken::Tokens(t) ==> (r matches Some(v) && *v == t),
            *self is Token ==> r is None,
    {
        if let Self::Tokens(t) = self {
            Some(t)
        } else {
            None
        }
    }

    pub fn take_token(self) -> (r: Option<String>)
        ensures
            self matches MatchedToken::Token(t) ==> r == Some(t),
            self is Tokens ==> r is None,
    {
        if let Self::Token(t) = self {
            Some(t)
        } else {
            None
        }
    }

    pub fn take_tokens(self) -> (r: Option<Vec<String>>)
        ensures
            self matches MatchedToken::Tokens(t) ==> r == Some(t),
            self is Token ==> r is None,
    {
        if let Self::Tokens(t) = self {
            Some(t)
        } else {
            None
        }
    }
}

/// A request to point an alias at a collection.
#[derive(Debug, Clone)]
pub struct AliasRequest {
    pub collection_name: String,
}

/// One alias as the engine reports it.
#[derive(Debug, Clone)]
pub struct AliasResponse {
    pub name: String,
    pub collection_name: String,
}

/// All aliases.
#[derive(Debug, Clone)]
pub struct AliasListResponse {
    pub aliases: Vec<AliasResponse>,
}

/// One search-engine node's address.
#[derive(Debug, Clone)]
pub struct NodeConfig {
    pub host: String,
    pub port: u16,
    pub protocol: String,
}

impl From<(String, u16, String)> for NodeConfig {
    fn from(parts: (String, u16, String)) -> (r: Self) {
        let (host, port, protocol) = parts;
        Self { host, port, protocol }
    }
}

impl vstd::std_specs::convert::FromSpecImpl<(String, u16, String)> for NodeConfig {
    open spec fn obeys_from_spec() -> bool {
        true
    }

    open spec fn from_spec(parts: (String, u16, String)) -> Self {
        NodeConfig { host: parts.0, port: parts.1, protocol: parts.2 }
    }
}

/// What can go wrong between the library and the engine. Failures of the
/// transport itself carry its description as plain text.
#[derive(Debug)]
pub enum Error {
    /// The request itself failed.
    ActionFailed { detail: String },
    /// The response body was not the JSON the caller expected.
    DeserializeBody { detail: String },
    /// A response line was not valid JSON.
    DeserializeText { text: String, detail: String },
    /// The response parsed neither as a message nor as the expected type.
    ParseFailed { ret_type: String },
    /// A document refused to serialize.
    DocumentToJson { document: String, detail: String },
    /// A batch action left failed documents behind.
    BatchActionFailed { action: String, errors: Vec<(usize, ImportResponse)> },
    /// The engine itself reported an error message.
    TypesenseError { message: String },
    ApiKeyNotFound,
    HostnameNotFound,
    /// The API key cannot be carried in a request header.
    InvalidApiKey { api_key: String },
    /// The transport client could not be built.
    ClientBuildFailed { detail: String },
}

/// A raw engine response: either the expected value, or a bare
/// `{"message": ...}` error object.
#[derive(Debug, Clone)]
pub enum TypesenseResult<T> {
    Message { message: String },
    Response(T),
}

impl<T> TypesenseResult<T> {
    /// A response converts to `Ok`; an error message becomes the engine's
    /// error, carrying the message.
    pub fn into_res(self) -> (r: Result<T, Error>)
        ensures
            self matches TypesenseResult::Response(t) ==> r == Ok::<T, Error>(t),
            self matches TypesenseResult::Message { message } ==> r == Err::<T, Error>(
                Error::TypesenseError { message },
            ),
    {
        match self {
            TypesenseResult::Message { message } => Err(Error::TypesenseError { message }),
            TypesenseResult::Response(ret) => Ok(ret),
        }
    }
}

/// How `errors` relates to the import lines it was drawn from: it lists
/// exactly the indices of the failed lines, in order, each with its response.
pub open spec fn spec_failures_of(
    errors: Seq<(usize, ImportResponse)>,
    imports: Seq<ImportResponse>,
) -> bool {
    &&& forall|k1: int, k2: int|
        0 <= k1 < k2 < errors.len() ==> (#[trigger] errors[k1]).0 < (#[trigger] errors[k2]).0
    &&& forall|k: int|
        0 <= k < errors.len() ==> (#[trigger] errors[k]).0 < imports.len() && imports[
            errors[k].0 as int
        ] == errors[k].1 && !errors[k].1.success
    &&& forall|i: int|
        0 <= i < imports.len() && !(#[trigger] imports[i]).success ==> exists|k: int|
            0 <= k < errors.len() && (#[trigger] errors[k]).0 == i
}

/// Turns the lines of a batch-import response into one result: success
/// only when every line succeeded, else the failed lines with their
/// positions, under the action's name.
pub fn import_into_res(action: &str, imports: Vec<ImportResponse>) -> (r: Result<(), Error>)
    ensures
        r is Ok <==> (forall|i: int| 0 <= i < imports@.len() ==> (#[trigger] imports@[i]).success),
        r matches Err(e) ==> (e matches Error::BatchActionFailed { action: a, errors } && a@
            == action@ && spec_failures_of(errors@, imports@)),
{
    let ghost src = imports@;
    let mut imports = imports;
    let total = imports.len();
    proof {
        assert(src.len() == total);
    }
    let mut errors: Vec<(usize, ImportResponse)> = Vec::new();
    let ghost done: int = 0;
    let mut i: usize = 0;
    while imports.len() > 0
        invariant
            0 <= done <= src.len(),
            src.len() <= usize::MAX,
            i == done,
            imports@ == src.subrange(done, src.len() as int),
            forall|k1: int, k2: int|
                0 <= k1 < k2 < errors@.len() ==> (#[trigger] errors@[k1]).0 < (
                #[trigger] errors@[k2]).0,
            forall|k: int|
                0 <= k < errors@.len() ==> (#[trigger] errors@[k]).0 < done && src[
                    errors@[k].0 as int
                ] == errors@[k].1 && !errors@[k].1.success,
            forall|j: int|
                0 <= j < done && !(#[trigger] src[j]).success ==> exists|k: int|
                    0 <= k < errors@.len() && (#[trigger] errors@[k]).0 == j,
        decreases imports@.len(),
    {
        proof {
            assert(imports@[0] == src[done]);
            assert(imports@.remove(0) =~= src.subrange(done + 1, src.len() as int));
        }
        let import = imports.remove(0);
        let ghost prev_errors = errors@;
        if !import.success {
            errors.push((i, import));
        }
        proof {
            if !src[done].success {
                assert((errors@[errors@.len() - 1]).0 == done);
            }
            assert forall|j: int|
                0 <= j < done + 1 && !(#[trigger] src[j]).success implies exists|k: int|
                0 <= k < errors@.len() && (#[trigger] errors@[k]).0 == j by {
                if j < done {
                    let k = choose|k: int|
                        0 <= k < prev_errors.len() && (#[trigger] prev_errors[k]).0 == j;
                    assert(errors@[k] == prev_errors[k]);
                } else {
                    assert((errors@[errors@.len() - 1]).0 == j);
                }
            };
        }
        i = i + 1;
        proof {
            done = done + 1;
        }
    }

    proof {
        assert(done == src.len());
        if errors@.len() == 0 {
            assert forall|i2: int|
                0 <= i2 < src.len() implies (#[trigger] src[i2]).success by {
                if !src[i2].success {
                    let k = choose|k: int|
                        0 <= k < errors@.len() && (#[trigger] errors@[k]).0 == i2;
                    assert(false);
                }
            };
        } else {
            assert(!src[(errors@[0]).0 as int].success);
        }
    }
    if errors.is_empty() {
        Ok(())
    } else {
        Err(Error::BatchActionFailed { action: action.to_owned(), errors })
    }
}

/// A request URL: the hostname, then each path segment behind one slash.
pub open spec fn spec_url(hostname: Seq<char>, path: Seq<Seq<char>>) -> Seq<char>
    decreases path.len(),
{
    if path.len() == 0 {
        hostname
    } else {
        spec_url(hostname, path.drop_last()) + seq!['/'] + path.last()
    }
}

/// Builds the URL of an API path under a hostname.
pub fn join_url(hostname: &str, path: &Vec<String>) -> (r: String)
    ensures
        r@ == spec_url(hostname@, path.deep_view()),
{
    let mut url = hostname.to_owned();
    let mut i: usize = 0;
    proof {
        assert(path.deep_view().subrange(0, 0) =~= Seq::<Seq<char>>::empty());
    }
    while i < path.len()
        invariant
            i <= path@.len(),
            url@ == spec_url(hostname@, path.deep_view().subrange(0, i as int)),
        decreases path@.len() - i,
    {
        proof {
            assert(path.deep_view().subrange(0, i as int + 1).drop_last() =~~= path.deep_view()
                .subrange(0, i as int));
            assert(path.deep_view().subrange(0, i as int + 1).last() == path@[i as int]@);
        }
        crate::json::push_char(&mut url, '/');
        url.append(path[i].as_str());
        proof {
            assert(url@ =~= spec_url(hostname@, path.deep_view().subrange(0, i as int + 1)));
        }
        i = i + 1;
    }
    proof {
        assert(path.deep_view().subrange(0, path.deep_view().len() as int) =~~= path.deep_view());
    }
    url
}

/// A batch-import body: each document's rendering followed by a newline.
pub open spec fn spec_ndjson(lines: Seq<Seq<char>>) -> Seq<char>
    decreases lines.len(),
{
    if lines.len() == 0 {
        Seq::<char>::empty()
    } else {
        spec_ndjson(lines.drop_last()) + lines.last() + seq!['\n']
    }
}

/// Frames already-rendered documents as a newline-delimited import body,
/// one document per line.
pub fn ndjson_join(lines: &Vec<String>) -> (r: String)
    ensures
        r@ == spec_ndjson(lines.deep_view()),
{
    let mut body = String::new();
    let mut i: usize = 0;
    proof {
        assert(lines.deep_view().subrange(0, 0) =~= Seq::<Seq<char>>::empty());
    }
    while i < lines.len()
        invariant
            i <= lines@.len(),
            body@ == spec_ndjson(lines.deep_view().subrange(0, i as int)),
        decreases lines@.len() - i,
    {
        proof {
            assert(lines.deep_view().subrange(0, i as int + 1).drop_last() =~~= lines.deep_view()
                .subrange(0, i as int));
            assert(lines.deep_view().subrange(0, i as int + 1).last() == lines@[i as int]@);
        }
        body.append(lines[i].as_str());
        crate::json::push_char(&mut body, '\n');
        proof {
            assert(body@ =~= spec_ndjson(lines.deep_view().subrange(0, i as int + 1)));
        }
        i = i + 1;
    }
    proof {
        assert(lines.deep_view().subrange(0, lines.deep_view().len() as int) =~~= lines.deep_view());
    }
    body
}

} // verus!
