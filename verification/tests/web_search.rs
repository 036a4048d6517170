use trill_engine::web_search::FunctionCallError;
use trill_engine::web_search::Fetched;
use trill_engine::web_search::SearxngResponse;
use trill_engine::web_search::SearxngResult;
use trill_engine::web_search::ToolKind;
use trill_engine::web_search::ToolOutput;
use trill_engine::web_search::ToolPayload;
use trill_engine::web_search::WebSearchActionResponse;
use trill_engine::web_search::WebSearchActionType;
use trill_engine::web_search::WebSearchArgs;
use trill_engine::web_search::WebSearchHandler;
use trill_engine::web_search::WebSearchPlan;
use trill_engine::web_search::WebSearchResultItem;
use trill_engine::web_search::DEFAULT_SEARXNG_URL;

fn no_args() -> WebSearchArgs {
    WebSearchArgs { query: None, queries: None, url: None, pattern: None, action: None }
}

fn found(title: &str) -> SearxngResult {
    SearxngResult {
        title: Some(title.to_string()),
        url: Some(format!("https://example.com/{title}")),
        content: Some(format!("about {title}")),
        engine: Some("duck".to_string()),
        engines: vec!["duck".to_string()],
        score: Some(serde_json::Value::from(1)),
        category: None,
        published_date: None,
    }
}

fn item(title: &str) -> WebSearchResultItem {
    WebSearchHandler::result_item(found(title))
}

fn respond(text: &str) -> FunctionCallError {
    FunctionCallError::RespondToModel(text.to_string())
}

#[test]
fn test_determine_action_search() {
    let args = WebSearchArgs {
        query: Some("test query".to_string()),
        queries: None,
        url: None,
        pattern: None,
        action: None,
    };

    let action = WebSearchHandler::determine_action(&args).unwrap();
    assert!(matches!(action, WebSearchActionType::Search));
}

#[test]
fn test_determine_action_open_page() {
    let args = WebSearchArgs {
        query: None,
        queries: None,
        url: Some("https://example.com".to_string()),
        pattern: None,
        action: None,
    };

    let action = WebSearchHandler::determine_action(&args).unwrap();
    assert!(matches!(action, WebSearchActionType::OpenPage));
}

#[test]
fn test_determine_action_find_in_page() {
    let args = WebSearchArgs {
        query: None,
        queries: None,
        url: Some("https://example.com".to_string()),
        pattern: Some("search term".to_string()),
        action: None,
    };

    let action = WebSearchHandler::determine_action(&args).unwrap();
    assert!(matches!(action, WebSearchActionType::FindInPage));
}

#[test]
fn test_determine_action_explicit() {
    let args = WebSearchArgs {
        query: Some("test".to_string()),
        queries: None,
        url: Some("https://example.com".to_string()),
        pattern: Some("term".to_string()),
        action: Some("search".to_string()),
    };

    // Even with all fields present, explicit action takes precedence
    let action = WebSearchHandler::determine_action(&args).unwrap();
    assert!(matches!(action, WebSearchActionType::Search));
}

#[test]
fn determine_action_reads_names_in_any_case() {
    for (name, expected) in [
        ("SEARCH", WebSearchActionType::Search),
        ("Open_Page", WebSearchActionType::OpenPage),
        ("openpage", WebSearchActionType::OpenPage),
        ("FIND_IN_PAGE", WebSearchActionType::FindInPage),
        ("FindInPage", WebSearchActionType::FindInPage),
    ] {
        let args = WebSearchArgs { action: Some(name.to_string()), ..no_args() };
        assert_eq!(WebSearchHandler::determine_action(&args), Ok(expected));
    }
}

#[test]
fn determine_action_refuses_unknown_name() {
    let args = WebSearchArgs {
        query: Some("q".to_string()),
        action: Some("Browse".to_string()),
        ..no_args()
    };
    assert_eq!(
        WebSearchHandler::determine_action(&args),
        Err(respond("Unknown action type: Browse"))
    );
}

#[test]
fn determine_action_refuses_empty_call() {
    assert_eq!(
        WebSearchHandler::determine_action(&no_args()),
        Err(respond("Unable to determine action type: provide query, url, or url+pattern"))
    );
}

#[test]
fn determine_action_takes_queries_for_search() {
    let args = WebSearchArgs { queries: Some(vec![]), ..no_args() };
    assert_eq!(WebSearchHandler::determine_action(&args), Ok(WebSearchActionType::Search));
}

#[test]
fn action_from_name_knows_five_names() {
    assert_eq!(WebSearchHandler::action_from_name("search"), Some(WebSearchActionType::Search));
    assert_eq!(WebSearchHandler::action_from_name("open_page"), Some(WebSearchActionType::OpenPage));
    assert_eq!(WebSearchHandler::action_from_name("findinpage"), Some(WebSearchActionType::FindInPage));
    assert_eq!(WebSearchHandler::action_from_name("Search"), None);
    assert_eq!(WebSearchHandler::action_from_name(""), None);
}

#[test]
fn plan_prefers_queries_over_query() {
    let args = WebSearchArgs {
        query: Some("one".to_string()),
        queries: Some(vec!["a".to_string(), "b".to_string()]),
        ..no_args()
    };
    assert_eq!(
        WebSearchHandler::plan(args),
        Ok(WebSearchPlan::Search { queries: vec!["a".to_string(), "b".to_string()] })
    );
}

#[test]
fn plan_wraps_single_query() {
    let args = WebSearchArgs { query: Some("one".to_string()), ..no_args() };
    assert_eq!(
        WebSearchHandler::plan(args),
        Ok(WebSearchPlan::Search { queries: vec!["one".to_string()] })
    );
}

#[test]
fn plan_names_missing_fields() {
    let search = WebSearchArgs { action: Some("search".to_string()), ..no_args() };
    assert_eq!(
        WebSearchHandler::plan(search),
        Err(respond("Search action requires query or queries field"))
    );
    let open = WebSearchArgs { action: Some("open_page".to_string()), ..no_args() };
    assert_eq!(WebSearchHandler::plan(open), Err(respond("OpenPage action requires url field")));
    let find_without_url = WebSearchArgs {
        action: Some("find_in_page".to_string()),
        pattern: Some("p".to_string()),
        ..no_args()
    };
    assert_eq!(
        WebSearchHandler::plan(find_without_url),
        Err(respond("FindInPage action requires url field"))
    );
    let find_without_pattern = WebSearchArgs {
        action: Some("find_in_page".to_string()),
        url: Some("https://example.com".to_string()),
        ..no_args()
    };
    assert_eq!(
        WebSearchHandler::plan(find_without_pattern),
        Err(respond("FindInPage action requires pattern field"))
    );
}

#[test]
fn plan_for_pages() {
    let open = WebSearchArgs { url: Some("https://example.com".to_string()), ..no_args() };
    assert_eq!(
        WebSearchHandler::plan(open),
        Ok(WebSearchPlan::OpenPage { url: "https://example.com".to_string() })
    );
    let find = WebSearchArgs {
        url: Some("https://example.com".to_string()),
        pattern: Some("needle".to_string()),
        ..no_args()
    };
    assert_eq!(
        WebSearchHandler::plan(find),
        Ok(WebSearchPlan::FindInPage {
            url: "https://example.com".to_string(),
            pattern: "needle".to_string()
        })
    );
}

#[test]
fn arguments_of_takes_function_calls_only() {
    assert_eq!(
        WebSearchHandler::arguments_of(ToolPayload::Function { arguments: "{}".to_string() }),
        Ok("{}".to_string())
    );
    assert_eq!(
        WebSearchHandler::arguments_of(ToolPayload::Custom { input: "x".to_string() }),
        Err(respond("web_search handler received unsupported payload"))
    );
}

#[test]
fn handler_knows_its_service() {
    let handler = WebSearchHandler::default();
    assert_eq!(handler.search_url(), format!("{DEFAULT_SEARXNG_URL}/search"));
    assert_eq!(handler.search_url(), "http://192.168.0.137:8080/search");
    assert_eq!(WebSearchHandler::new("http://s".to_string()).search_url(), "http://s/search");
    assert_eq!(handler.kind(), ToolKind::Function);
}

#[test]
fn result_item_fills_missing_texts() {
    let bare = SearxngResult {
        title: None,
        url: None,
        content: None,
        engine: None,
        engines: vec![],
        score: None,
        category: Some("general".to_string()),
        published_date: Some("2024-01-01".to_string()),
    };
    assert_eq!(
        WebSearchHandler::result_item(bare),
        WebSearchResultItem {
            title: String::new(),
            url: String::new(),
            snippet: String::new(),
            engine: None,
            engines: None,
            score: None,
            category: Some("general".to_string()),
            published_date: Some("2024-01-01".to_string()),
        }
    );
    assert_eq!(
        item("a"),
        WebSearchResultItem {
            title: "a".to_string(),
            url: "https://example.com/a".to_string(),
            snippet: "about a".to_string(),
            engine: Some("duck".to_string()),
            engines: Some(vec!["duck".to_string()]),
            score: Some(serde_json::Value::from(1)),
            category: None,
            published_date: None,
        }
    );
}

#[test]
fn result_items_keeps_first_ten() {
    let results: Vec<SearxngResult> = (0..13).map(|i| found(&format!("r{i}"))).collect();
    let items = WebSearchHandler::result_items(SearxngResponse { results, query: "q".to_string() });
    assert_eq!(items.len(), 10);
    for (i, got) in items.iter().enumerate() {
        assert_eq!(got, &item(&format!("r{i}")));
    }
    let few = WebSearchHandler::result_items(SearxngResponse {
        results: vec![found("x"), found("y")],
        query: String::new(),
    });
    assert_eq!(few, vec![item("x"), item("y")]);
}

#[test]
fn execute_search_names_failures() {
    assert_eq!(
        WebSearchHandler::execute_search(Fetched::RequestFailed { detail: "refused".to_string() }),
        Err(respond("SearXNG request failed: refused"))
    );
    assert_eq!(
        WebSearchHandler::execute_search(Fetched::ErrorStatus { status: "502 Bad Gateway".to_string() }),
        Err(respond("SearXNG returned error status: 502 Bad Gateway"))
    );
    assert_eq!(
        WebSearchHandler::execute_search(Fetched::BodyFailed { detail: "eof".to_string() }),
        Err(respond("Failed to parse SearXNG response: eof"))
    );
    assert_eq!(
        WebSearchHandler::execute_search(Fetched::Body(SearxngResponse {
            results: vec![found("x")],
            query: String::new()
        })),
        Ok(vec![item("x")])
    );
}

#[test]
fn truncate_content_leaves_short_pages() {
    assert_eq!(WebSearchHandler::truncate_content("short".to_string()), "short");
    let exact = "a".repeat(50000);
    assert_eq!(WebSearchHandler::truncate_content(exact.clone()), exact);
}

#[test]
fn truncate_content_cuts_long_pages() {
    let long = "b".repeat(50001);
    let cut = WebSearchHandler::truncate_content(long);
    assert_eq!(cut, format!("{}...\n[Content truncated at 50000 characters]", "b".repeat(50000)));
    // two-byte characters: 25000 of them fill the limit exactly
    let wide = "é".repeat(25001);
    let cut = WebSearchHandler::truncate_content(wide);
    assert_eq!(cut, format!("{}...\n[Content truncated at 50000 characters]", "é".repeat(25000)));
}

#[test]
fn execute_open_page_names_failures() {
    assert_eq!(
        WebSearchHandler::execute_open_page(Fetched::RequestFailed { detail: "dns".to_string() }),
        Err(respond("Failed to fetch page: dns"))
    );
    assert_eq!(
        WebSearchHandler::execute_open_page(Fetched::ErrorStatus { status: "404 Not Found".to_string() }),
        Err(respond("Page returned error status: 404 Not Found"))
    );
    assert_eq!(
        WebSearchHandler::execute_open_page(Fetched::BodyFailed { detail: "reset".to_string() }),
        Err(respond("Failed to read page content: reset"))
    );
    assert_eq!(
        WebSearchHandler::execute_open_page(Fetched::Body("page".to_string())),
        Ok("page".to_string())
    );
}

#[test]
fn find_matches_reports_lines() {
    let content = "First line\n  second has Needle here  \r\nthird\nNEEDLE again";
    assert_eq!(
        WebSearchHandler::find_matches(content, "needle"),
        vec!["Line 2: second has Needle here".to_string(), "Line 4: NEEDLE again".to_string()]
    );
    assert_eq!(WebSearchHandler::find_matches(content, "absent"), Vec::<String>::new());
    assert_eq!(WebSearchHandler::find_matches("", "x"), Vec::<String>::new());
}

#[test]
fn find_matches_ignores_case_of_pattern() {
    assert_eq!(
        WebSearchHandler::find_matches("alpha\nbeta", "BETA"),
        vec!["Line 2: beta".to_string()]
    );
}

#[test]
fn find_matches_stops_after_fifty() {
    let content: String = (0..60).map(|i| format!("hit {i}\n")).collect();
    let got = WebSearchHandler::find_matches(&content, "hit");
    assert_eq!(got.len(), 51);
    assert_eq!(got[0], "Line 1: hit 0");
    assert_eq!(got[49], "Line 50: hit 49");
    assert_eq!(got[50], "[... and more matches, showing first 50]");
    let content: String = (0..50).map(|i| format!("hit {i}\n")).collect();
    let got = WebSearchHandler::find_matches(&content, "hit");
    assert_eq!(got.len(), 50);
    assert_eq!(got[49], "Line 50: hit 49");
}

#[test]
fn format_match_counts_from_one() {
    assert_eq!(WebSearchHandler::format_match(0, "  x  "), "Line 1: x");
    assert_eq!(WebSearchHandler::format_match(41, "y"), "Line 42: y");
    assert_eq!(WebSearchHandler::match_report(9, " kept as is "), "Line 10:  kept as is ");
}

#[test]
fn limit_matches_cuts_after_fifty() {
    let many: Vec<String> = (0..51).map(|i| format!("m{i}")).collect();
    let mut expected: Vec<String> = (0..50).map(|i| format!("m{i}")).collect();
    expected.push("[... and more matches, showing first 50]".to_string());
    assert_eq!(WebSearchHandler::limit_matches(many), expected);
    let fifty: Vec<String> = (0..50).map(|i| format!("m{i}")).collect();
    assert_eq!(WebSearchHandler::limit_matches(fifty.clone()), fifty);
    assert_eq!(WebSearchHandler::limit_matches(vec![]), Vec::<String>::new());
}

#[test]
fn execute_find_in_page_passes_errors_on() {
    assert_eq!(
        WebSearchHandler::execute_find_in_page(
            Fetched::ErrorStatus { status: "500 Internal Server Error".to_string() },
            "x"
        ),
        Err(respond("Page returned error status: 500 Internal Server Error"))
    );
    assert_eq!(
        WebSearchHandler::execute_find_in_page(Fetched::Body("a\nxb".to_string()), "X"),
        Ok(vec!["Line 2: xb".to_string()])
    );
}

#[test]
fn search_response_gathers_in_order() {
    let queries = vec!["a".to_string(), "b".to_string(), "c".to_string()];
    let outcomes = vec![
        Ok(vec![item("a1"), item("a2")]),
        Err(respond("SearXNG request failed: x")),
        Ok(vec![item("c1")]),
    ];
    let response = WebSearchHandler::search_response(queries.clone(), outcomes);
    assert_eq!(response.status, "completed");
    assert_eq!(response.results, Some(vec![item("a1"), item("a2"), item("c1")]));
    assert_eq!(response.action, WebSearchActionResponse::Search { query: None, queries: Some(queries) });
    assert_eq!(response.page_content, None);
    assert_eq!(response.matches, None);
}

#[test]
fn search_response_names_single_query() {
    let response = WebSearchHandler::search_response(vec!["only".to_string()], vec![Ok(vec![])]);
    assert_eq!(
        response.action,
        WebSearchActionResponse::Search { query: Some("only".to_string()), queries: None }
    );
    assert_eq!(response.results, Some(vec![]));
    let none = WebSearchHandler::search_response(vec![], vec![]);
    assert_eq!(none.action, WebSearchActionResponse::Search { query: None, queries: None });
}

#[test]
fn page_responses() {
    let open = WebSearchHandler::open_page_response("u".to_string(), "text".to_string());
    assert_eq!(open.status, "completed");
    assert_eq!(open.action, WebSearchActionResponse::OpenPage { url: "u".to_string() });
    assert_eq!(open.page_content, Some("text".to_string()));
    assert_eq!(open.results, None);
    assert_eq!(open.matches, None);
    let find = WebSearchHandler::find_in_page_response(
        "u".to_string(),
        "p".to_string(),
        vec!["Line 1: p".to_string()],
    );
    assert_eq!(
        find.action,
        WebSearchActionResponse::FindInPage { url: "u".to_string(), pattern: "p".to_string() }
    );
    assert_eq!(find.matches, Some(vec!["Line 1: p".to_string()]));
    assert_eq!(find.results, None);
    assert_eq!(find.page_content, None);
}

#[test]
fn handle_wraps_written_response() {
    assert_eq!(
        WebSearchHandler::handle(Ok("{}".to_string())),
        Ok(ToolOutput::Function { content: "{}".to_string(), success: Some(true) })
    );
    assert_eq!(
        WebSearchHandler::handle(Err("key must be a string".to_string())),
        Err(respond("Failed to serialize response: key must be a string"))
    );
}
