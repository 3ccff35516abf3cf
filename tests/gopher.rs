use ghopher::content::{
    Content, PageContentResponse, PageListing, PostContentResponse, PostListing, PublishedDate,
    Settings,
};
use ghopher::document::{check_fits_reflow, frame_document, render_document, REFLOW_WIDTH};
use ghopher::handler::{Action, Connection, Event, Stage};
use ghopher::menu::{render_menu, ServerAddress};
use ghopher::selector::parse_request;
use ghopher::text::push_decimal;

fn server() -> ServerAddress {
    ServerAddress { host: String::from("example.org"), port: 70 }
}

fn blog_settings() -> Settings {
    Settings { title: String::from("My Blog"), description: String::from("Thoughts") }
}

fn about_page() -> PageListing {
    PageListing { slug: String::from("about"), title: String::from("About") }
}

fn hi_post() -> PostListing {
    PostListing {
        slug: String::from("hi"),
        title: String::from("Hi"),
        published_at: PublishedDate { year: 2024, month: 1, day: 2 },
    }
}

fn content(title: &str, html: &str) -> Content {
    Content { title: String::from(title), html: String::from(html) }
}

#[test]
fn parse_strips_crlf() {
    assert_eq!(parse_request("hello\r\n"), Some(String::from("hello")));
}

#[test]
fn parse_discards_search_string() {
    assert_eq!(parse_request("hello\tsearch\r\n"), Some(String::from("hello")));
}

#[test]
fn parse_accepts_bare_lf() {
    assert_eq!(parse_request("hello\n"), Some(String::from("hello")));
}

#[test]
fn parse_empty_read_is_none() {
    assert_eq!(parse_request(""), None);
}

#[test]
fn parse_blank_line_is_root() {
    assert_eq!(parse_request("\r\n"), Some(String::new()));
}

#[test]
fn parse_keeps_leading_and_inner_spaces() {
    assert_eq!(parse_request("  a b \u{3000}\r\n"), Some(String::from("  a b")));
}

#[test]
fn parse_tab_first_is_root() {
    assert_eq!(parse_request("\tquery\r\n"), Some(String::new()));
}

#[test]
fn decimal_pads_to_width() {
    let mut s = String::from("x");
    push_decimal(&mut s, 7, 3);
    push_decimal(&mut s, 12345, 2);
    assert_eq!(s, "x00712345");
}

#[test]
fn date_in_ordinary_range() {
    let mut s = String::new();
    PublishedDate { year: 2024, month: 1, day: 2 }.push_text(&mut s);
    assert_eq!(s, "2024-01-02");
}

#[test]
fn date_with_large_and_negative_years() {
    let mut s = String::new();
    PublishedDate { year: 12345, month: 6, day: 7 }.push_text(&mut s);
    assert_eq!(s, "+12345-06-07");
    let mut t = String::new();
    PublishedDate { year: -1, month: 12, day: 31 }.push_text(&mut t);
    assert_eq!(t, "-0001-12-31");
}

#[test]
fn menu_for_one_page_and_one_post() {
    let menu = render_menu(&blog_settings(), &vec![about_page()], &vec![hi_post()], &server());
    let expected = "iMy Blog\tfake\t(NULL)\t0\r\n\
                    i\tfake\t(NULL)\t0\r\n\
                    iThoughts\tfake\t(NULL)\t0\r\n\
                    i\tfake\t(NULL)\t0\r\n\
                    i\tfake\t(NULL)\t0\r\n\
                    0About\tabout\texample.org\t70\r\n\
                    i\tfake\t(NULL)\t0\r\n\
                    0[2024-01-02] Hi\thi\texample.org\t70\r\n\
                    .\r\n";
    assert_eq!(menu, expected);
}

#[test]
fn menu_keeps_listing_order_and_counts_items() {
    let pages = vec![
        PageListing { slug: String::from("b"), title: String::from("B") },
        PageListing { slug: String::from("a"), title: String::from("A") },
    ];
    let posts = vec![hi_post(), hi_post(), hi_post()];
    let address = ServerAddress { host: String::from("h"), port: 7070 };
    let menu = render_menu(&blog_settings(), &pages, &posts, &address);
    let items: Vec<&str> = menu.split("\r\n").filter(|l| l.starts_with('0')).collect();
    assert_eq!(items.len(), 5);
    assert_eq!(items[0], "0B\tb\th\t7070");
    assert_eq!(items[1], "0A\ta\th\t7070");
    assert!(menu.ends_with("\r\n.\r\n"));
}

#[test]
fn empty_menu_still_terminates() {
    let menu = render_menu(&blog_settings(), &vec![], &vec![], &server());
    assert!(menu.ends_with("i\tfake\t(NULL)\t0\r\n.\r\n"));
    assert_eq!(menu.split("\r\n").filter(|l| l.starts_with('0')).count(), 0);
}

#[test]
fn document_framing() {
    assert_eq!(frame_document("Hi", "body"), "Hi\r\n\r\nbody\r\n");
}

#[test]
fn document_body_is_reflowed() {
    let html = "<p>Hello <b>there</b></p>";
    let doc = render_document(&content("Hi", html));
    let body = august::convert(html, REFLOW_WIDTH);
    assert_eq!(doc, format!("Hi\r\n\r\n{}\r\n", body));
    assert!(!doc.contains("<p>"));
    assert!(doc.starts_with("Hi\r\n"));
}

#[test]
fn lookup_answer_takes_last_document() {
    let found = PostContentResponse { posts: vec![content("A", ""), content("B", "")] };
    assert_eq!(found.into_content().map(|c| c.title), Some(String::from("B")));
    let none = PageContentResponse { pages: vec![] };
    assert!(none.into_content().is_none());
}

#[test]
fn connection_closes_on_empty_read() {
    let mut conn = Connection::new(server());
    assert!(matches!(conn.step(Event::RequestLine(String::new())), Action::Close));
    assert!(matches!(conn.stage, Stage::Finished));
    assert!(matches!(conn.step(Event::ContentFound(content("x", "y"))), Action::Close));
}

#[test]
fn connection_serves_root_menu() {
    let mut conn = Connection::new(server());
    assert!(matches!(conn.step(Event::RequestLine(String::from("\r\n"))), Action::FetchMenu));
    let action = conn.step(Event::MenuFetched(blog_settings(), vec![about_page()], vec![hi_post()]));
    match action {
        Action::Respond(text) => {
            assert!(text.starts_with("iMy Blog\t"));
            assert!(text.ends_with("\r\n.\r\n"));
        }
        _ => panic!("expected a response"),
    }
}

#[test]
fn connection_menu_fetch_failure_closes() {
    let mut conn = Connection::new(server());
    conn.step(Event::RequestLine(String::from("\r\n")));
    assert!(matches!(conn.step(Event::Failed), Action::Close));
}

#[test]
fn connection_serves_post() {
    let mut conn = Connection::new(server());
    match conn.step(Event::RequestLine(String::from("hi\r\n"))) {
        Action::FetchPost(slug) => assert_eq!(slug, "hi"),
        _ => panic!("expected a post lookup"),
    }
    let html = "<p>Hello</p>";
    match conn.step(Event::ContentFound(content("Hi", html))) {
        Action::Respond(text) => {
            assert_eq!(text, format!("Hi\r\n\r\n{}\r\n", august::convert(html, 70)));
            assert_eq!(text.split("\r\n").next(), Some("Hi"));
        }
        _ => panic!("expected a response"),
    }
    assert!(matches!(conn.stage, Stage::Finished));
}

#[test]
fn connection_falls_back_to_page() {
    let mut conn = Connection::new(server());
    conn.step(Event::RequestLine(String::from("about\tq\r\n")));
    match conn.step(Event::Failed) {
        Action::FetchPage(slug) => assert_eq!(slug, "about"),
        _ => panic!("expected a page lookup"),
    }
    assert!(matches!(conn.step(Event::ContentFound(content("About", "x"))), Action::Respond(_)));
}

#[test]
fn connection_unknown_slug_closes_silently() {
    let mut conn = Connection::new(server());
    conn.step(Event::RequestLine(String::from("nope\r\n")));
    assert!(matches!(conn.step(Event::Failed), Action::FetchPage(_)));
    assert!(matches!(conn.step(Event::Failed), Action::Close));
    assert!(matches!(conn.step(Event::Failed), Action::Close));
}

#[test]
fn reflow_check_accepts_plain_html() {
    assert!(check_fits_reflow(&content("Hi", "<p>Hello <b>there</b></p><ul><li>a</li><li>b</li></ul>")));
    assert!(check_fits_reflow(&content("Hi", "<blockquote><p>x</p></blockquote><hr>")));
}

#[test]
fn reflow_check_refuses_tables() {
    let html = "<TABLE><tr><td><blockquote><p>x</p></blockquote></td></tr></TABLE>";
    assert!(!check_fits_reflow(&content("T", html)));
    assert!(!check_fits_reflow(&content("T", "<table><td colspan=\"40\">x</td></table>")));
}

#[test]
fn reflow_check_refuses_too_many_prefixes() {
    let eighteen_items = "<li>x".repeat(18);
    assert!(!check_fits_reflow(&content("L", &format!("<ol>{}</ol>", eighteen_items))));
    let seventeen_items = "<li>x".repeat(17);
    assert!(check_fits_reflow(&content("L", &format!("<ol>{}</ol>", seventeen_items))));
    let deep_quotes = "<blockquote>".repeat(36);
    assert!(!check_fits_reflow(&content("Q", &format!("{}<hr>", deep_quotes))));
}

#[test]
fn connection_closes_on_body_it_cannot_reflow() {
    let mut conn = Connection::new(server());
    conn.step(Event::RequestLine(String::from("t\r\n")));
    let html = "<table><tr><td><blockquote><p>x</p></blockquote></td></tr></table>";
    assert!(matches!(conn.step(Event::ContentFound(content("T", html))), Action::Close));
}

#[test]
fn date_constructor_checks_ranges() {
    assert_eq!(PublishedDate::new(2024, 1, 2), Some(PublishedDate { year: 2024, month: 1, day: 2 }));
    assert_eq!(PublishedDate::new(2024, 13, 2), None);
    assert_eq!(PublishedDate::new(2024, 1, 0), None);
}

// Each test runs on a thread of its own, with the 2 MiB stack that tokio's
// workers also get by default.
fn render_on_small_stack(html: String) -> String {
    render_document(&content("Deep", &html))
}

#[test]
fn reflow_check_bounds_tag_count() {
    let at_limit = format!("{}x", "<div>".repeat(256));
    assert!(check_fits_reflow(&content("D", &at_limit)));
    let over_limit = format!("{}x", "<div>".repeat(257));
    assert!(!check_fits_reflow(&content("D", &over_limit)));
}

#[test]
fn deepest_accepted_nesting_renders() {
    let divs = format!("{}x", "<div>".repeat(256));
    assert!(check_fits_reflow(&content("D", &divs)));
    assert!(render_on_small_stack(divs).contains('x'));
    let spans = format!("{}x", "<span>".repeat(256));
    assert!(check_fits_reflow(&content("S", &spans)));
    assert!(render_on_small_stack(spans).contains('x'));
    let mut reopened = String::new();
    for i in 0..128 {
        reopened.push_str(&format!("<b id={}>", i));
    }
    reopened.push_str(&"<p>x".repeat(128));
    assert!(check_fits_reflow(&content("B", &reopened)));
    assert!(render_on_small_stack(reopened).contains('x'));
}

#[test]
fn reflow_check_matches_whole_tag_names() {
    let links = format!("{}<p>x</p>", "<link rel=a><LISTING>".repeat(12));
    assert!(check_fits_reflow(&content("L", &links)));
    let tables_in_words = "<tablet><blockquotes>x";
    assert!(check_fits_reflow(&content("T", tables_in_words)));
    assert!(!check_fits_reflow(&content("T", "<table\n>x")));
    assert!(!check_fits_reflow(&content("T", "<TaBlE/>")));
}
