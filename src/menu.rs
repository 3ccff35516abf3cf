use vstd::prelude::*;
use vstd::string::*;

use crate::content::{date_text, PageListing, PostListing, Settings};
use crate::text::{decimal, push_decimal};

verus! {

/// Where clients reach this server: the host and port written into the menu's
/// selectable lines.
pub struct ServerAddress {
    pub host: String,
    pub port: u16,
}

/// One line of a Gopher menu.
pub enum MenuLine {
    /// A line that is shown and cannot be selected.
    Info(Seq<char>),
    /// A text document (item type `0`): what is shown, and its selector.
    Document(Seq<char>, Seq<char>),
    /// The lone `.` that ends a menu.
    End,
}

/// The fields that follow the text of an informational line.
pub open spec fn info_tail() -> Seq<char> {
    seq!['\t', 'f', 'a', 'k', 'e', '\t', '(', 'N', 'U', 'L', 'L', ')', '\t', '0', '\r', '\n']
}

/// The bytes of one menu line, CRLF included.
pub open spec fn line_text(line: MenuLine, server: ServerAddress) -> Seq<char> {
    match line {
        MenuLine::Info(text) => seq!['i'] + text + info_tail(),
        MenuLine::Document(display, selector) => seq!['0'] + display + seq!['\t'] + selector
            + seq!['\t'] + server.host@ + seq!['\t'] + decimal(server.port as nat, 1) + seq![
            '\r',
            '\n',
        ],
        MenuLine::End => seq!['.', '\r', '\n'],
    }
}

/// The lines one after the other.
pub open spec fn lines_text(lines: Seq<MenuLine>, server: ServerAddress) -> Seq<char>
    decreases lines.len(),
{
    if lines.len() == 0 {
        Seq::empty()
    } else {
        lines_text(lines.drop_last(), server) + line_text(lines.last(), server)
    }
}

/// How many lines of `lines` a client can select.
pub open spec fn count_documents(lines: Seq<MenuLine>) -> nat
    decreases lines.len(),
{
    if lines.len() == 0 {
        0
    } else {
        count_documents(lines.drop_last()) + if lines.last() is Document {
            1nat
        } else {
            0nat
        }
    }
}

/// The menu line that points at a page.
pub open spec fn page_line(page: PageListing) -> MenuLine {
    MenuLine::Document(page.title@, page.slug@)
}

/// What a post's menu line shows: `[<date>] <title>`.
pub open spec fn post_display(post: PostListing) -> Seq<char> {
    seq!['['] + date_text(post.published_at) + seq![']', ' '] + post.title@
}

/// The menu line that points at a post.
pub open spec fn post_line(post: PostListing) -> MenuLine {
    MenuLine::Document(post_display(post), post.slug@)
}

/// The first five lines: the site's title, a blank, its description, two blanks.
pub open spec fn header_lines(settings: Settings) -> Seq<MenuLine> {
    seq![
        MenuLine::Info(settings.title@),
        MenuLine::Info(Seq::empty()),
        MenuLine::Info(settings.description@),
        MenuLine::Info(Seq::empty()),
        MenuLine::Info(Seq::empty()),
    ]
}

/// One line per page, in the order given.
pub open spec fn page_lines(pages: Seq<PageListing>) -> Seq<MenuLine> {
    Seq::new(pages.len(), |i: int| page_line(pages[i]))
}

/// One line per post, in the order given.
pub open spec fn post_lines(posts: Seq<PostListing>) -> Seq<MenuLine> {
    Seq::new(posts.len(), |i: int| post_line(posts[i]))
}

/// The root menu: header, one line per page in the order given, a blank, one
/// line per post in the order given, and the terminator.
pub open spec fn menu_lines(
    settings: Settings,
    pages: Seq<PageListing>,
    posts: Seq<PostListing>,
) -> Seq<MenuLine> {
    header_lines(settings) + page_lines(pages) + seq![MenuLine::Info(Seq::empty())] + post_lines(
        posts,
    ) + seq![MenuLine::End]
}

/// The bytes of the root menu.
pub open spec fn menu_text(
    settings: Settings,
    pages: Seq<PageListing>,
    posts: Seq<PostListing>,
    server: ServerAddress,
) -> Seq<char> {
    lines_text(menu_lines(settings, pages, posts), server)
}

proof fn lemma_lines_text_push(lines: Seq<MenuLine>, line: MenuLine, server: ServerAddress)
    ensures
        lines_text(lines.push(line), server) == lines_text(lines, server) + line_text(line, server),
{
    assert(lines.push(line).drop_last() =~= lines);
}

proof fn lemma_count_documents_concat(a: Seq<MenuLine>, b: Seq<MenuLine>)
    ensures
        count_documents(a + b) == count_documents(a) + count_documents(b),
    decreases b.len(),
{
    if b.len() > 0 {
        lemma_count_documents_concat(a, b.drop_last());
        assert((a + b).drop_last() =~= a + b.drop_last());
    }
}

proof fn lemma_count_documents_all(lines: Seq<MenuLine>)
    requires
        forall|i: int| 0 <= i < lines.len() ==> lines[i] is Document,
    ensures
        count_documents(lines) == lines.len(),
    decreases lines.len(),
{
    if lines.len() > 0 {
        lemma_count_documents_all(lines.drop_last());
    }
}

proof fn lemma_line_text_ends_with_newline(line: MenuLine, server: ServerAddress)
    ensures
        line_text(line, server).len() >= 3,
        line_text(line, server).last() == '\n',
{
}

/// The root menu always ends with a line that holds exactly `.`: the text ends
/// with `.` and CRLF, and what precedes the `.` ends a line.
pub proof fn lemma_menu_ends_with_terminator(
    settings: Settings,
    pages: Seq<PageListing>,
    posts: Seq<PostListing>,
    server: ServerAddress,
)
    ensures
        ({
            let t = menu_text(settings, pages, posts, server);
            &&& t.len() >= 4
            &&& t.subrange(t.len() - 4, t.len() as int) == seq!['\n', '.', '\r', '\n']
        }),
{
    let lines = menu_lines(settings, pages, posts);
    let before = lines.drop_last();
    assert(before.len() > 0);
    assert(lines.last() == MenuLine::End);
    lemma_line_text_ends_with_newline(before.last(), server);
    let p = lines_text(before, server);
    assert(p == lines_text(before.drop_last(), server) + line_text(before.last(), server));
    let t = menu_text(settings, pages, posts, server);
    assert(t == p + seq!['.', '\r', '\n']);
    assert(t.subrange(t.len() - 4, t.len() as int) =~= seq!['\n', '.', '\r', '\n']);
}

/// The root menu has one selectable line per listed page and per listed post,
/// and no other.
pub proof fn lemma_menu_item_count(
    settings: Settings,
    pages: Seq<PageListing>,
    posts: Seq<PostListing>,
)
    ensures
        count_documents(menu_lines(settings, pages, posts)) == pages.len() + posts.len(),
{
    let h = header_lines(settings);
    let pl = page_lines(pages);
    let blank = seq![MenuLine::Info(Seq::empty())];
    let ql = post_lines(posts);
    let end = seq![MenuLine::End];
    lemma_count_documents_all(pl);
    lemma_count_documents_all(ql);
    lemma_count_documents_concat(h, pl);
    lemma_count_documents_concat(h + pl, blank);
    lemma_count_documents_concat(h + pl + blank, ql);
    lemma_count_documents_concat(h + pl + blank + ql, end);
    reveal_with_fuel(count_documents, 6);
    assert(count_documents(h) == 0);
    assert(count_documents(blank) == 0);
    assert(count_documents(end) == 0);
}

fn push_info(out: &mut String, text: &str, Ghost(server): Ghost<ServerAddress>)
    ensures
        final(out)@ == old(out)@ + line_text(MenuLine::Info(text@), server),
{
    proof {
        reveal_strlit("i");
        reveal_strlit("\tfake\t(NULL)\t0\r\n");
    }
    let ghost start = out@;
    out.append("i");
    out.append(text);
    out.append("\tfake\t(NULL)\t0\r\n");
    assert(out@ =~= start + line_text(MenuLine::Info(text@), server));
}

fn push_document(out: &mut String, display: &str, selector: &str, server: &ServerAddress)
    ensures
        final(out)@ == old(out)@ + line_text(MenuLine::Document(display@, selector@), *server),
{
    proof {
        reveal_strlit("0");
        reveal_strlit("\t");
        reveal_strlit("\r\n");
    }
    let ghost start = out@;
    out.append("0");
    out.append(display);
    out.append("\t");
    out.append(selector);
    out.append("\t");
    out.append(server.host.as_str());
    out.append("\t");
    push_decimal(out, server.port as u32, 1);
    out.append("\r\n");
    assert(out@ =~= start + line_text(MenuLine::Document(display@, selector@), *server));
}

/// Renders the root menu from the site settings and the listings, in the order
/// the CMS returned them.
pub fn render_menu(
    settings: &Settings,
    pages: &Vec<PageListing>,
    posts: &Vec<PostListing>,
    server: &ServerAddress,
) -> (r: String)
    ensures
        r@ == menu_text(*settings, pages@, posts@, *server),
{
    let ghost srv = *server;
    let mut out = String::new();
    let ghost mut lines: Seq<MenuLine> = Seq::empty();
    assert(out@ =~= lines_text(lines, srv));

    push_info(&mut out, settings.title.as_str(), Ghost(srv));
    proof {
        lemma_lines_text_push(lines, MenuLine::Info(settings.title@), srv);
        lines = lines.push(MenuLine::Info(settings.title@));
    }
    push_info(&mut out, "", Ghost(srv));
    proof {
        reveal_strlit("");
        lemma_lines_text_push(lines, MenuLine::Info(Seq::empty()), srv);
        lines = lines.push(MenuLine::Info(Seq::empty()));
    }
    push_info(&mut out, settings.description.as_str(), Ghost(srv));
    proof {
        lemma_lines_text_push(lines, MenuLine::Info(settings.description@), srv);
        lines = lines.push(MenuLine::Info(settings.description@));
    }
    push_info(&mut out, "", Ghost(srv));
    proof {
        lemma_lines_text_push(lines, MenuLine::Info(Seq::empty()), srv);
        lines = lines.push(MenuLine::Info(Seq::empty()));
    }
    push_info(&mut out, "", Ghost(srv));
    proof {
        lemma_lines_text_push(lines, MenuLine::Info(Seq::empty()), srv);
        lines = lines.push(MenuLine::Info(Seq::empty()));
        assert(lines =~= header_lines(*settings));
    }

    let mut i: usize = 0;
    while i < pages.len()
        invariant
            i <= pages@.len(),
            srv == *server,
            lines == header_lines(*settings) + page_lines(pages@.take(i as int)),
            out@ == lines_text(lines, srv),
        decreases pages@.len() - i,
    {
        let page = &pages[i];
        push_document(&mut out, page.title.as_str(), page.slug.as_str(), server);
        proof {
            lemma_lines_text_push(lines, page_line(*page), srv);
            lines = lines.push(page_line(*page));
            assert(page_lines(pages@.take(i + 1)) =~= page_lines(pages@.take(i as int)).push(
                page_line(*page),
            ));
        }
        i = i + 1;
    }
    assert(pages@.take(i as int) =~= pages@);

    push_info(&mut out, "", Ghost(srv));
    proof {
        lemma_lines_text_push(lines, MenuLine::Info(Seq::empty()), srv);
        lines = lines.push(MenuLine::Info(Seq::empty()));
    }

    let mut k: usize = 0;
    while k < posts.len()
        invariant
            k <= posts@.len(),
            srv == *server,
            lines == header_lines(*settings) + page_lines(pages@) + seq![
                MenuLine::Info(Seq::empty()),
            ] + post_lines(posts@.take(k as int)),
            out@ == lines_text(lines, srv),
        decreases posts@.len() - k,
    {
        let post = &posts[k];
        let mut display = String::new();
        proof {
            reveal_strlit("[");
            reveal_strlit("] ");
        }
        display.append("[");
        post.published_at.push_text(&mut display);
        display.append("] ");
        display.append(post.title.as_str());
        assert(display@ =~= post_display(*post));
        push_document(&mut out, display.as_str(), post.slug.as_str(), server);
        proof {
            lemma_lines_text_push(lines, post_line(*post), srv);
            lines = lines.push(post_line(*post));
            assert(post_lines(posts@.take(k + 1)) =~= post_lines(posts@.take(k as int)).push(
                post_line(*post),
            ));
        }
        k = k + 1;
    }
    assert(posts@.take(k as int) =~= posts@);

    proof {
        reveal_strlit(".\r\n");
    }
    let ghost before = out@;
    out.append(".\r\n");
    proof {
        lemma_lines_text_push(lines, MenuLine::End, srv);
        assert(out@ =~= before + line_text(MenuLine::End, srv));
        lines = lines.push(MenuLine::End);
        assert(lines =~= menu_lines(*settings, pages@, posts@));
    }
    out
}

} // verus!
