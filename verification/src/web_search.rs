//! The web search tool: what it decides before it fetches anything and
//! what it makes of what was fetched.

use vstd::prelude::*;
use vstd::string::*;
use vstd::utf8::decode_utf8;
use vstd::utf8::encode_utf8;
use vstd::utf8::is_char_boundary;
use crate::text::concat2;
use crate::text::contains;
use crate::text::decimal_digits;
use crate::text::is_substring;
use crate::text::lines;
use crate::text::lines_of;
use crate::text::lowercase_of;
use crate::text::push_decimal;
use crate::text::str_eq;
use crate::text::texts;
use crate::text::to_lowercase;
use crate::text::trim;
use crate::text::trimmed;

verus! {

/// Address of the search service used where none is configured.
pub const DEFAULT_SEARXNG_URL: &'static str = "http://192.168.0.137:8080";

/// Seconds after which a request of the tool is given up.
pub const DEFAULT_TIMEOUT_SECS: u64 = 30;

/// How many results of one query are passed on at most.
pub const DEFAULT_NUM_RESULTS: usize = 10;

/// Number of bytes of a page that are passed on at most.
pub const MAX_CONTENT_LENGTH: usize = 50000;

/// How many matching lines of a page are passed on at most.
pub const MAX_MATCHES: usize = 50;

/// Why a tool call failed.
#[derive(Clone, Debug, PartialEq, Eq)]
pub enum FunctionCallError {
    /// The model is told the message and may try again.
    RespondToModel(String),
}

/// The kind of a tool.
#[derive(Clone, Copy, Debug, PartialEq, Eq, Structural)]
pub enum ToolKind {
    Function,
    Mcp,
}

/// What a tool is called with.
#[derive(Clone, Debug, PartialEq, Eq)]
pub enum ToolPayload {
    Function { arguments: String },
    Custom { input: String },
}

/// What a tool hands back.
#[derive(Clone, Debug, PartialEq, Eq)]
pub enum ToolOutput {
    Function { content: String, success: Option<bool> },
}

/// The arguments of a call of the web search tool.
#[derive(Clone, Debug, PartialEq, Eq)]
pub struct WebSearchArgs {
    /// The text to search for.
    pub query: Option<String>,
    /// Several texts to search for.
    pub queries: Option<Vec<String>>,
    /// The page to open.
    pub url: Option<String>,
    /// The text to find in the page.
    pub pattern: Option<String>,
    /// The action asked for; found out from the other fields where absent.
    pub action: Option<String>,
}

/// What the web search tool can do.
#[derive(Clone, Copy, Debug, PartialEq, Eq, Structural)]
pub enum WebSearchActionType {
    Search,
    OpenPage,
    FindInPage,
}

/// One result as the search service reports it.
#[derive(Clone, Debug, PartialEq)]
pub struct SearxngResult {
    pub title: Option<String>,
    pub url: Option<String>,
    pub content: Option<String>,
    pub engine: Option<String>,
    pub engines: Vec<String>,
    pub score: Option<serde_json::Value>,
    pub category: Option<String>,
    pub published_date: Option<String>,
}

/// The answer of the search service to one query.
#[derive(Clone, Debug, PartialEq)]
pub struct SearxngResponse {
    pub results: Vec<SearxngResult>,
    pub query: String,
}

/// One result as the model gets it.
#[derive(Clone, Debug, PartialEq)]
pub struct WebSearchResultItem {
    pub title: String,
    pub url: String,
    pub snippet: String,
    pub engine: Option<String>,
    pub engines: Option<Vec<String>>,
    pub score: Option<serde_json::Value>,
    pub category: Option<String>,
    pub published_date: Option<String>,
}

/// The action that a response reports.
#[derive(Clone, Debug, PartialEq, Eq)]
pub enum WebSearchActionResponse {
    Search { query: Option<String>, queries: Option<Vec<String>> },
    OpenPage { url: String },
    FindInPage { url: String, pattern: String },
}

/// The response of the tool, before it is written out.
#[derive(Clone, Debug, PartialEq)]
pub struct WebSearchCallResponse {
    pub status: String,
    pub action: WebSearchActionResponse,
    pub results: Option<Vec<WebSearchResultItem>>,
    pub page_content: Option<String>,
    pub matches: Option<Vec<String>>,
}

/// What the tool has to fetch for a call.
#[derive(Clone, Debug, PartialEq, Eq)]
pub enum WebSearchPlan {
    /// Ask the search service for each of the queries.
    Search { queries: Vec<String> },
    /// Fetch the page.
    OpenPage { url: String },
    /// Fetch the page and look for the pattern in it.
    FindInPage { url: String, pattern: String },
}

/// How a fetch ended: in the body, or short of it.
#[derive(Debug, PartialEq)]
pub enum Fetched<T> {
    /// The request could not be made; `detail` says why.
    RequestFailed { detail: String },
    /// The server answered with a status that is no success.
    ErrorStatus { status: String },
    /// The body could not be read; `detail` says why.
    BodyFailed { detail: String },
    /// The body.
    Body(T),
}

/// The action that a name stands for, once the name is in lowercase.
pub open spec fn action_by_name(lowered: Seq<char>) -> Option<WebSearchActionType> {
    if lowered == "search"@ {
        Some(WebSearchActionType::Search)
    } else if lowered == "open_page"@ || lowered == "openpage"@ {
        Some(WebSearchActionType::OpenPage)
    } else if lowered == "find_in_page"@ || lowered == "findinpage"@ {
        Some(WebSearchActionType::FindInPage)
    } else {
        None
    }
}

/// The action that the fields of a call point to: a page and a pattern
/// mean to find in the page, a page alone means to open it, and a query or
/// queries mean to search.
pub open spec fn detected_action(args: WebSearchArgs) -> Option<WebSearchActionType> {
    if args.url is Some && args.pattern is Some {
        Some(WebSearchActionType::FindInPage)
    } else if args.url is Some {
        Some(WebSearchActionType::OpenPage)
    } else if args.query is Some || args.queries is Some {
        Some(WebSearchActionType::Search)
    } else {
        None
    }
}

/// The action of a call: the one it names, in whatever case the name is
/// written, and otherwise the one its fields point to.
pub open spec fn chosen_action(args: WebSearchArgs) -> Option<WebSearchActionType> {
    match args.action {
        Some(name) => action_by_name(lowercase_of(name@)),
        None => detected_action(args),
    }
}

/// Text of the error for a call whose action cannot be told.
pub open spec fn undetermined_message(args: WebSearchArgs) -> Seq<char> {
    match args.action {
        Some(name) => "Unknown action type: "@ + name@,
        None => "Unable to determine action type: provide query, url, or url+pattern"@,
    }
}

/// The field whose absence stops a call of the given action, as the error
/// names it; `None` where nothing is missing.
pub open spec fn missing_field(args: WebSearchArgs, action: WebSearchActionType) -> Option<
    Seq<char>,
> {
    match action {
        WebSearchActionType::Search => if args.queries is None && args.query is None {
            Some("Search action requires query or queries field"@)
        } else {
            None
        },
        WebSearchActionType::OpenPage => if args.url is None {
            Some("OpenPage action requires url field"@)
        } else {
            None
        },
        WebSearchActionType::FindInPage => if args.url is None {
            Some("FindInPage action requires url field"@)
        } else if args.pattern is None {
            Some("FindInPage action requires pattern field"@)
        } else {
            None
        },
    }
}

/// Whether `plan` is what a call with the arguments `args` and the action
/// `action` has to fetch, given that no field is missing: the queries
/// given, or else the one query; the page; the page and the pattern.
pub open spec fn plan_fits(args: WebSearchArgs, action: WebSearchActionType, plan: WebSearchPlan) -> bool {
    match action {
        WebSearchActionType::Search => {
            &&& plan matches WebSearchPlan::Search { queries }
            &&& match args.queries {
                Some(given) => queries == given,
                None => args.query is Some && queries@ == seq![args.query->0],
            }
        },
        WebSearchActionType::OpenPage => {
            &&& plan matches WebSearchPlan::OpenPage { url }
            &&& args.url == Some(url)
        },
        WebSearchActionType::FindInPage => {
            &&& plan matches WebSearchPlan::FindInPage { url, pattern }
            &&& args.url == Some(url)
            &&& args.pattern == Some(pattern)
        },
    }
}

/// The web search tool.
pub struct WebSearchHandler {
    searxng_url: String,
}

impl Default for WebSearchHandler {
    fn default() -> (handler: Self)
        ensures
            handler.service_url() == DEFAULT_SEARXNG_URL@,
    {
        Self::new(String::from_str(DEFAULT_SEARXNG_URL))
    }
}

impl WebSearchHandler {
    /// Address of the search service that the tool asks.
    pub closed spec fn service_url(&self) -> Seq<char> {
        self.searxng_url@
    }

    /// A tool that asks the search service at `searxng_url`.
    pub fn new(searxng_url: String) -> (handler: Self)
        ensures
            handler.service_url() == searxng_url@,
    {
        Self { searxng_url }
    }

    /// The kind of the tool: a function.
    pub fn kind(&self) -> (kind: ToolKind)
        ensures
            kind == ToolKind::Function,
    {
        ToolKind::Function
    }

    /// Address at which the search service takes queries.
    pub fn search_url(&self) -> (url: String)
        ensures
            url@ == self.service_url() + "/search"@,
    {
        concat2(self.searxng_url.as_str(), "/search")
    }

    /// The action that a name in lowercase stands for.
    pub fn action_from_name(lowered: &str) -> (action: Option<WebSearchActionType>)
        ensures
            action == action_by_name(lowered@),
    {
        if str_eq(lowered, "search") {
            Some(WebSearchActionType::Search)
        } else if str_eq(lowered, "open_page") || str_eq(lowered, "openpage") {
            Some(WebSearchActionType::OpenPage)
        } else if str_eq(lowered, "find_in_page") || str_eq(lowered, "findinpage") {
            Some(WebSearchActionType::FindInPage)
        } else {
            None
        }
    }

    /// Finds out what a call asks for. An action that the call names
    /// decides, whatever fields are there; a name that stands for no action
    /// is an error. Without a name the fields decide, and a call with
    /// neither page nor query is an error.
    pub fn determine_action(args: &WebSearchArgs) -> (r: Result<
        WebSearchActionType,
        FunctionCallError,
    >)
        ensures
            match r {
                Ok(action) => chosen_action(*args) == Some(action),
                Err(FunctionCallError::RespondToModel(message)) => chosen_action(*args) is None
                    && message@ == undetermined_message(*args),
            },
    {
        match &args.action {
            Some(name) => {
                let lowered = to_lowercase(name.as_str());
                match Self::action_from_name(lowered.as_str()) {
                    Some(action) => Ok(action),
                    None => Err(
                        FunctionCallError::RespondToModel(
                            concat2("Unknown action type: ", name.as_str()),
                        ),
                    ),
                }
            },
            None => {
                if args.url.is_some() && args.pattern.is_some() {
                    Ok(WebSearchActionType::FindInPage)
                } else if args.url.is_some() {
                    Ok(WebSearchActionType::OpenPage)
                } else if args.query.is_some() || args.queries.is_some() {
                    Ok(WebSearchActionType::Search)
                } else {
                    Err(
                        FunctionCallError::RespondToModel(
                            String::from_str(
                                "Unable to determine action type: provide query, url, or url+pattern",
                            ),
                        ),
                    )
                }
            },
        }
    }

    /// The arguments of a call, as the text in which they came. The tool
    /// takes function calls only.
    pub fn arguments_of(payload: ToolPayload) -> (r: Result<String, FunctionCallError>)
        ensures
            match r {
                Ok(arguments) => payload == (ToolPayload::Function { arguments }),
                Err(FunctionCallError::RespondToModel(message)) => !(payload is Function)
                    && message@ == "web_search handler received unsupported payload"@,
            },
    {
        match payload {
            ToolPayload::Function { arguments } => Ok(arguments),
            _ => Err(
                FunctionCallError::RespondToModel(
                    String::from_str("web_search handler received unsupported payload"),
                ),
            ),
        }
    }

    /// Says what a call has to fetch: first the action is found out, then
    /// the fields that the action needs are taken from the call. The call
    /// is refused where the action cannot be told, and where a field that
    /// the action needs is missing.
    pub fn plan(args: WebSearchArgs) -> (r: Result<WebSearchPlan, FunctionCallError>)
        ensures
            match r {
                Ok(plan) => {
                    &&& chosen_action(args) matches Some(action)
                    &&& missing_field(args, action) is None
                    &&& plan_fits(args, action, plan)
                },
                Err(FunctionCallError::RespondToModel(message)) => match chosen_action(args) {
                    None => message@ == undetermined_message(args),
                    Some(action) => missing_field(args, action) == Some(message@),
                },
            },
    {
        let action = match Self::determine_action(&args) {
            Ok(action) => action,
            Err(e) => {
                return Err(e);
            },
        };
        let WebSearchArgs { query, queries, url, pattern, action: _named } = args;
        match action {
            WebSearchActionType::Search => {
                match queries {
                    Some(given) => Ok(WebSearchPlan::Search { queries: given }),
                    None => match query {
                        Some(one) => {
                            let mut queries: Vec<String> = Vec::new();
                            queries.push(one);
                            Ok(WebSearchPlan::Search { queries })
                        },
                        None => Err(
                            FunctionCallError::RespondToModel(
                                String::from_str("Search action requires query or queries field"),
                            ),
                        ),
                    },
                }
            },
            WebSearchActionType::OpenPage => {
                match url {
                    Some(url) => Ok(WebSearchPlan::OpenPage { url }),
                    None => Err(
                        FunctionCallError::RespondToModel(
                            String::from_str("OpenPage action requires url field"),
                        ),
                    ),
                }
            },
            WebSearchActionType::FindInPage => {
                let url = match url {
                    Some(url) => url,
                    None => {
                        return Err(
                            FunctionCallError::RespondToModel(
                                String::from_str("FindInPage action requires url field"),
                            ),
                        );
                    },
                };
                match pattern {
                    Some(pattern) => Ok(WebSearchPlan::FindInPage { url, pattern }),
                    None => Err(
                        FunctionCallError::RespondToModel(
                            String::from_str("FindInPage action requires pattern field"),
                        ),
                    ),
                }
            },
        }
    }
}

/// The text of an optional string, empty where there is none.
pub open spec fn text_or_empty(text: Option<String>) -> Seq<char> {
    match text {
        Some(t) => t@,
        None => Seq::<char>::empty(),
    }
}

/// Whether `item` is the result `found` as the model gets it: missing
/// texts are empty, an empty list of engines is left out, and the rest is
/// passed on as it is.
pub open spec fn item_of(found: SearxngResult, item: WebSearchResultItem) -> bool {
    &&& item.title@ == text_or_empty(found.title)
    &&& item.url@ == text_or_empty(found.url)
    &&& item.snippet@ == text_or_empty(found.content)
    &&& item.engine == found.engine
    &&& item.engines == (if found.engines@.len() == 0 {
        None
    } else {
        Some(found.engines)
    })
    &&& item.score == found.score
    &&& item.category == found.category
    &&& item.published_date == found.published_date
}

/// Whether `items` are the first results of `found`, at most
/// [`DEFAULT_NUM_RESULTS`] of them, in their order.
pub open spec fn items_of(found: Seq<SearxngResult>, items: Seq<WebSearchResultItem>) -> bool {
    &&& items.len() == (if found.len() <= DEFAULT_NUM_RESULTS {
        found.len()
    } else {
        DEFAULT_NUM_RESULTS as nat
    })
    &&& forall|i: int| 0 <= i < items.len() ==> item_of(found[i], #[trigger] items[i])
}

/// The results of all queries that were answered, in the order of the
/// queries; a query that failed adds nothing.
pub open spec fn gathered(outcomes: Seq<Result<Vec<WebSearchResultItem>, FunctionCallError>>) -> Seq<
    WebSearchResultItem,
>
    decreases outcomes.len(),
{
    if outcomes.len() == 0 {
        Seq::<WebSearchResultItem>::empty()
    } else {
        let before = gathered(outcomes.drop_last());
        match outcomes.last() {
            Ok(items) => before + items@,
            Err(_) => before,
        }
    }
}

/// What is passed on of a page whose UTF-8 form is longer than
/// [`MAX_CONTENT_LENGTH`] bytes: the text of its first
/// [`MAX_CONTENT_LENGTH`] bytes and a note that says so.
pub open spec fn truncated_content(content: Seq<char>) -> Seq<char> {
    decode_utf8(encode_utf8(content).subrange(0, MAX_CONTENT_LENGTH as int)) + "...\n[Content truncated at "@
        + decimal_digits(MAX_CONTENT_LENGTH as nat) + " characters]"@
}

/// What is passed on of a page.
pub open spec fn page_content(content: Seq<char>) -> Seq<char> {
    if encode_utf8(content).len() > MAX_CONTENT_LENGTH {
        truncated_content(content)
    } else {
        content
    }
}

/// Whether a page can be cut at [`MAX_CONTENT_LENGTH`] bytes: it is
/// shorter, or no character of it lies across that place.
pub open spec fn can_cut(content: Seq<char>) -> bool {
    encode_utf8(content).len() > MAX_CONTENT_LENGTH ==> is_char_boundary(
        encode_utf8(content),
        MAX_CONTENT_LENGTH as int,
    )
}

/// The line that reports a match: the number of the line, counted from
/// 1, and the line without the white space at its ends.
pub open spec fn match_line(index: int, line: Seq<char>) -> Seq<char> {
    "Line "@ + decimal_digits((index + 1) as nat) + ": "@ + trimmed(line)
}

/// Whether a line holds the pattern, whatever the case of either.
/// `pattern_lower` is the pattern in lowercase.
pub open spec fn line_matches(line: Seq<char>, pattern_lower: Seq<char>) -> bool {
    is_substring(pattern_lower, lowercase_of(line))
}

/// The reports of all lines that hold the pattern, in the order of the
/// lines.
pub open spec fn matching_lines(all: Seq<Seq<char>>, pattern_lower: Seq<char>) -> Seq<Seq<char>>
    decreases all.len(),
{
    if all.len() == 0 {
        Seq::<Seq<char>>::empty()
    } else {
        let before = matching_lines(all.drop_last(), pattern_lower);
        if line_matches(all.last(), pattern_lower) {
            before.push(match_line(all.len() - 1, all.last()))
        } else {
            before
        }
    }
}

/// The note that ends a list of matches that was cut.
pub open spec fn more_matches_note() -> Seq<char> {
    "[... and more matches, showing first "@ + decimal_digits(MAX_MATCHES as nat) + "]"@
}

/// The reports that are passed on: all of them, or the first
/// [`MAX_MATCHES`] and a note that there are more.
pub open spec fn limited_matches(all: Seq<Seq<char>>) -> Seq<Seq<char>> {
    if all.len() > MAX_MATCHES {
        all.take(MAX_MATCHES as int).push(more_matches_note())
    } else {
        all
    }
}

/// The matches of a pattern in a page, as they are passed on.
pub open spec fn page_matches(content: Seq<char>, pattern: Seq<char>) -> Seq<Seq<char>> {
    limited_matches(matching_lines(lines_of(content), lowercase_of(pattern)))
}

fn or_empty(text: Option<String>) -> (r: String)
    ensures
        r@ == text_or_empty(text),
{
    match text {
        Some(t) => t,
        None => String::new(),
    }
}

fn respond(prefix: &str, detail: &str) -> (e: FunctionCallError)
    ensures
        e matches FunctionCallError::RespondToModel(message) && message@ == prefix@ + detail@,
{
    FunctionCallError::RespondToModel(concat2(prefix, detail))
}

impl WebSearchHandler {
    /// One result as the model gets it.
    pub fn result_item(found: SearxngResult) -> (item: WebSearchResultItem)
        ensures
            item_of(found, item),
    {
        let SearxngResult {
            title,
            url,
            content,
            engine,
            engines,
            score,
            category,
            published_date,
        } = found;
        WebSearchResultItem {
            title: or_empty(title),
            url: or_empty(url),
            snippet: or_empty(content),
            engine,
            engines: if engines.len() == 0 {
                None
            } else {
                Some(engines)
            },
            score,
            category,
            published_date,
        }
    }

    /// The first results of an answer of the search service, at most
    /// [`DEFAULT_NUM_RESULTS`], as the model gets them.
    pub fn result_items(response: SearxngResponse) -> (items: Vec<WebSearchResultItem>)
        ensures
            items_of(response.results@, items@),
    {
        let SearxngResponse { results, query: _query } = response;
        let mut rest = results;
        rest.truncate(DEFAULT_NUM_RESULTS);
        let ghost kept = rest@;
        let mut items: Vec<WebSearchResultItem> = Vec::new();
        while rest.len() > 0
            invariant
                items@.len() + rest@.len() == kept.len(),
                rest@ == kept.subrange(items@.len() as int, kept.len() as int),
                forall|i: int| 0 <= i < items@.len() ==> item_of(kept[i], #[trigger] items@[i]),
            decreases rest@.len(),
        {
            let found = rest.remove(0);
            assert(found == kept[items@.len() as int]);
            let item = Self::result_item(found);
            items.push(item);
            assert(rest@ =~= kept.subrange(items@.len() as int, kept.len() as int));
        }
        items
    }

    /// What a query comes to, given how its fetch ended: the results of
    /// the answer, or the error that names what went wrong.
    pub fn execute_search(fetched: Fetched<SearxngResponse>) -> (r: Result<
        Vec<WebSearchResultItem>,
        FunctionCallError,
    >)
        ensures
            match fetched {
                Fetched::Body(response) => r matches Ok(items) && items_of(
                    response.results@,
                    items@,
                ),
                Fetched::RequestFailed { detail } => r matches Err(
                    FunctionCallError::RespondToModel(message),
                ) && message@ == "SearXNG request failed: "@ + detail@,
                Fetched::ErrorStatus { status } => r matches Err(
                    FunctionCallError::RespondToModel(message),
                ) && message@ == "SearXNG returned error status: "@ + status@,
                Fetched::BodyFailed { detail } => r matches Err(
                    FunctionCallError::RespondToModel(message),
                ) && message@ == "Failed to parse SearXNG response: "@ + detail@,
            },
    {
        match fetched {
            Fetched::Body(response) => Ok(Self::result_items(response)),
            Fetched::RequestFailed { detail } => Err(
                respond("SearXNG request failed: ", detail.as_str()),
            ),
            Fetched::ErrorStatus { status } => Err(
                respond("SearXNG returned error status: ", status.as_str()),
            ),
            Fetched::BodyFailed { detail } => Err(
                respond("Failed to parse SearXNG response: ", detail.as_str()),
            ),
        }
    }

    /// What is passed on of a page: the page itself, or, where its UTF-8
    /// form is longer than [`MAX_CONTENT_LENGTH`] bytes, its first
    /// [`MAX_CONTENT_LENGTH`] bytes and a note. A page that cannot be cut
    /// there, because a character lies across that place, is not taken.
    pub fn truncate_content(content: String) -> (r: String)
        requires
            can_cut(content@),
        ensures
            r@ == page_content(content@),
    {
        let whole = content.as_str();
        if whole.as_bytes().len() > MAX_CONTENT_LENGTH {
            let (head, _rest) = whole.split_at(MAX_CONTENT_LENGTH);
            proof {
                let bytes = encode_utf8(content@);
                assert(whole.spec_bytes() == bytes);
                assert(head.spec_bytes() == bytes.subrange(0, MAX_CONTENT_LENGTH as int));
                vstd::utf8::encode_utf8_decode_utf8(head@);
                assert(head@ == decode_utf8(bytes.subrange(0, MAX_CONTENT_LENGTH as int)));
            }
            let mut r = String::from_str(head);
            r.append("...\n[Content truncated at ");
            push_decimal(&mut r, MAX_CONTENT_LENGTH as u64);
            r.append(" characters]");
            r
        } else {
            content
        }
    }

    /// What opening a page comes to, given how its fetch ended: what is
    /// passed on of the page, or the error that names what went wrong.
    pub fn execute_open_page(fetched: Fetched<String>) -> (r: Result<String, FunctionCallError>)
        requires
            fetched matches Fetched::Body(content) ==> can_cut(content@),
        ensures
            match fetched {
                Fetched::Body(content) => r matches Ok(text) && text@ == page_content(content@),
                Fetched::RequestFailed { detail } => r matches Err(
                    FunctionCallError::RespondToModel(message),
                ) && message@ == "Failed to fetch page: "@ + detail@,
                Fetched::ErrorStatus { status } => r matches Err(
                    FunctionCallError::RespondToModel(message),
                ) && message@ == "Page returned error status: "@ + status@,
                Fetched::BodyFailed { detail } => r matches Err(
                    FunctionCallError::RespondToModel(message),
                ) && message@ == "Failed to read page content: "@ + detail@,
            },
    {
        match fetched {
            Fetched::Body(content) => Ok(Self::truncate_content(content)),
            Fetched::RequestFailed { detail } => Err(
                respond("Failed to fetch page: ", detail.as_str()),
            ),
            Fetched::ErrorStatus { status } => Err(
                respond("Page returned error status: ", status.as_str()),
            ),
            Fetched::BodyFailed { detail } => Err(
                respond("Failed to read page content: ", detail.as_str()),
            ),
        }
    }

    /// The report of a line that matched, given its place among the
    /// lines, counted from 0, and its text without the white space at its
    /// ends.
    pub fn match_report(index: usize, trimmed_line: &str) -> (report: String)
        requires
            index < usize::MAX,
        ensures
            report@ == "Line "@ + decimal_digits((index + 1) as nat) + ": "@ + trimmed_line@,
    {
        let mut report = String::from_str("Line ");
        push_decimal(&mut report, (index + 1) as u64);
        report.append(": ");
        report.append(trimmed_line);
        report
    }

    /// The report of a line that matched.
    pub fn format_match(index: usize, line: &str) -> (report: String)
        requires
            index < usize::MAX,
        ensures
            report@ == match_line(index as int, line@),
    {
        Self::match_report(index, trim(line))
    }

    /// Cuts a list of reports to the first [`MAX_MATCHES`] and adds a note
    /// that there are more; a list that is not longer stays as it is.
    pub fn limit_matches(found: Vec<String>) -> (passed_on: Vec<String>)
        ensures
            texts(passed_on@) == limited_matches(texts(found@)),
    {
        let mut found = found;
        if found.len() > MAX_MATCHES {
            let ghost all_found = texts(found@);
            found.truncate(MAX_MATCHES);
            let mut note = String::from_str("[... and more matches, showing first ");
            push_decimal(&mut note, MAX_MATCHES as u64);
            note.append("]");
            found.push(note);
            assert(texts(found@) =~= all_found.take(MAX_MATCHES as int).push(more_matches_note()));
        }
        found
    }

    /// The lines of `content` that hold `pattern`, whatever the case of
    /// either: for each a report with its number and its text, in the order
    /// of the lines; the first [`MAX_MATCHES`] and a note where there are
    /// more.
    pub fn find_matches(content: &str, pattern: &str) -> (found: Vec<String>)
        ensures
            texts(found@) == page_matches(content@, pattern@),
    {
        let mut found: Vec<String> = Vec::new();
        let pattern_lower = to_lowercase(pattern);
        let all = lines(content);
        let mut i: usize = 0;
        while i < all.len()
            invariant
                0 <= i <= all@.len(),
                pattern_lower@ == lowercase_of(pattern@),
                texts(all@) == lines_of(content@),
                texts(found@) == matching_lines(texts(all@).take(i as int), pattern_lower@),
            decreases all@.len() - i,
        {
            let line = all[i].as_str();
            let ghost before = texts(found@);
            proof {
                let upto = texts(all@).take(i as int + 1);
                assert(upto.drop_last() =~= texts(all@).take(i as int));
                assert(upto.last() == line@);
                assert(upto.len() - 1 == i);
            }
            let lowered = to_lowercase(line);
            if contains(lowered.as_str(), pattern_lower.as_str()) {
                let report = Self::format_match(i, line);
                found.push(report);
                assert(texts(found@) =~= before.push(match_line(i as int, line@)));
            }
            i = i + 1;
        }
        proof {
            assert(texts(all@).take(all@.len() as int) =~= texts(all@));
        }
        Self::limit_matches(found)
    }

    /// What finding a pattern in a page comes to, given how the fetch of
    /// the page ended: the matches in what is passed on of the page, or the
    /// error of the fetch.
    pub fn execute_find_in_page(fetched: Fetched<String>, pattern: &str) -> (r: Result<
        Vec<String>,
        FunctionCallError,
    >)
        requires
            fetched matches Fetched::Body(content) ==> can_cut(content@),
        ensures
            match fetched {
                Fetched::Body(content) => r matches Ok(found) && texts(found@) == page_matches(
                    page_content(content@),
                    pattern@,
                ),
                Fetched::RequestFailed { detail } => r matches Err(
                    FunctionCallError::RespondToModel(message),
                ) && message@ == "Failed to fetch page: "@ + detail@,
                Fetched::ErrorStatus { status } => r matches Err(
                    FunctionCallError::RespondToModel(message),
                ) && message@ == "Page returned error status: "@ + status@,
                Fetched::BodyFailed { detail } => r matches Err(
                    FunctionCallError::RespondToModel(message),
                ) && message@ == "Failed to read page content: "@ + detail@,
            },
    {
        match Self::execute_open_page(fetched) {
            Ok(content) => Ok(Self::find_matches(content.as_str(), pattern)),
            Err(e) => Err(e),
        }
    }

    /// The response to a search, given the queries and, for each of them
    /// in turn, what it came to. The results of the queries that were
    /// answered follow one another in the order of the queries; a query
    /// that failed is passed over. The response names the query where there
    /// was one, and the queries where there were several.
    pub fn search_response(
        queries: Vec<String>,
        outcomes: Vec<Result<Vec<WebSearchResultItem>, FunctionCallError>>,
    ) -> (response: WebSearchCallResponse)
        ensures
            response.status@ == "completed"@,
            response.page_content is None,
            response.matches is None,
            response.results matches Some(results) && results@ == gathered(outcomes@),
            response.action matches WebSearchActionResponse::Search { query, queries: several }
                && (match query {
                Some(one) => queries@.len() == 1 && one == queries@[0],
                None => queries@.len() != 1,
            }) && (match several {
                Some(all) => queries@.len() > 1 && all == queries,
                None => queries@.len() <= 1,
            }),
    {
        let mut all_results: Vec<WebSearchResultItem> = Vec::new();
        let mut rest = outcomes;
        let ghost mut done: int = 0;
        while rest.len() > 0
            invariant
                0 <= done <= outcomes@.len(),
                rest@ == outcomes@.subrange(done, outcomes@.len() as int),
                all_results@ == gathered(outcomes@.take(done)),
            decreases rest@.len(),
        {
            let outcome = rest.remove(0);
            proof {
                assert(outcome == outcomes@[done]);
                let upto = outcomes@.take(done + 1);
                assert(upto.drop_last() =~= outcomes@.take(done));
                assert(upto.last() == outcome);
            }
            match outcome {
                Ok(items) => {
                    let mut items = items;
                    all_results.append(&mut items);
                },
                Err(_failed) => {},
            }
            proof {
                done = done + 1;
                assert(rest@ =~= outcomes@.subrange(done, outcomes@.len() as int));
            }
        }
        proof {
            assert(outcomes@.take(outcomes@.len() as int) =~= outcomes@);
        }
        let query = if queries.len() == 1 {
            Some(queries[0].clone())
        } else {
            None
        };
        let several = if queries.len() > 1 {
            Some(queries)
        } else {
            None
        };
        WebSearchCallResponse {
            status: String::from_str("completed"),
            action: WebSearchActionResponse::Search { query, queries: several },
            results: Some(all_results),
            page_content: None,
            matches: None,
        }
    }

    /// The response to the opening of a page, given what is passed on of
    /// it.
    pub fn open_page_response(url: String, content: String) -> (response: WebSearchCallResponse)
        ensures
            response.status@ == "completed"@,
            response.action == (WebSearchActionResponse::OpenPage { url }),
            response.results is None,
            response.page_content == Some(content),
            response.matches is None,
    {
        WebSearchCallResponse {
            status: String::from_str("completed"),
            action: WebSearchActionResponse::OpenPage { url },
            results: None,
            page_content: Some(content),
            matches: None,
        }
    }

    /// The response to a search in a page, given the matches.
    pub fn find_in_page_response(url: String, pattern: String, found: Vec<String>) -> (response:
        WebSearchCallResponse)
        ensures
            response.status@ == "completed"@,
            response.action == (WebSearchActionResponse::FindInPage { url, pattern }),
            response.results is None,
            response.page_content is None,
            response.matches == Some(found),
    {
        WebSearchCallResponse {
            status: String::from_str("completed"),
            action: WebSearchActionResponse::FindInPage { url, pattern },
            results: None,
            page_content: None,
            matches: Some(found),
        }
    }

    /// What the tool hands back, given the response as it was written
    /// out, or why it could not be written.
    pub fn handle(serialized: Result<String, String>) -> (r: Result<ToolOutput, FunctionCallError>)
        ensures
            match serialized {
                Ok(content) => r == Ok::<ToolOutput, FunctionCallError>(
                    ToolOutput::Function { content, success: Some(true) },
                ),
                Err(detail) => r matches Err(FunctionCallError::RespondToModel(message))
                    && message@ == "Failed to serialize response: "@ + detail@,
            },
    {
        match serialized {
            Ok(content) => Ok(ToolOutput::Function { content, success: Some(true) }),
            Err(detail) => Err(respond("Failed to serialize response: ", detail.as_str())),
        }
    }
}

} // verus!
