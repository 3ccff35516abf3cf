use vstd::prelude::*;
use vstd::string::*;
use vstd::utf8::encode_utf8;

use crate::content::Content;

verus! {

/// The column at which document bodies are wrapped, the width of a classic
/// terminal line.
pub const REFLOW_WIDTH: usize = 70;

/// The largest HTML body, in bytes, that the reflow accepts.
pub const MAX_HTML_BYTES: usize = 4294967295;

/// The plain text that `august::convert` makes of `html` at `REFLOW_WIDTH`
/// columns.
pub uninterp spec fn reflowed(html: Seq<char>) -> Seq<char>;

/// Whether the byte `b` is the ASCII letter `lower` in either case.
pub open spec fn letter_matches(b: u8, lower: u8) -> bool {
    b == lower || b + 32 == lower
}

/// Whether a tag name can end at index `j`: at the end of the input, or at a
/// byte that ends a tag name in HTML (whitespace, `/` or `>`).
pub open spec fn name_ends_at(s: Seq<u8>, j: int) -> bool {
    j == s.len() || (0 <= j < s.len() && (s[j] == 9u8 || s[j] == 10u8 || s[j] == 12u8
        || s[j] == 13u8 || s[j] == 32u8 || s[j] == 47u8 || s[j] == 62u8))
}

/// Whether a tag named `name` (ASCII case ignored) begins at index `i`.
pub open spec fn tag_at(s: Seq<u8>, i: int, name: Seq<u8>) -> bool {
    &&& 0 <= i
    &&& i + 1 + name.len() <= s.len()
    &&& s[i] == 60u8
    &&& forall|k: int| 0 <= k < name.len() ==> letter_matches(s[i + 1 + k], name[k])
    &&& name_ends_at(s, i + 1 + name.len())
}

/// How many `<` bytes are among the first `n` bytes of `s`.
pub open spec fn open_count(s: Seq<u8>, n: int) -> nat
    decreases n,
{
    if n <= 0 {
        0
    } else {
        open_count(s, n - 1) + if s[n - 1] == 60u8 {
            1nat
        } else {
            0nat
        }
    }
}

/// The most `<` bytes that a body may hold. Each element of the parsed document
/// is opened by a tag, or implied or reopened by the parser next to one, so this
/// bounds how deeply the document nests, and with it the recursion of the parse
/// and the conversion: at this bound the nesting is half of what a 2 MiB stack
/// (a tokio worker's) was found to take.
pub const MAX_TAGS: usize = 256;

/// How many times `<name` begins among the first `n` bytes of `s`.
pub open spec fn tag_count(s: Seq<u8>, name: Seq<u8>, n: int) -> nat
    decreases n,
{
    if n <= 0 {
        0
    } else {
        tag_count(s, name, n - 1) + if tag_at(s, n - 1, name) {
            1nat
        } else {
            0nat
        }
    }
}

/// `table` in ASCII.
pub open spec fn table_tag() -> Seq<u8> {
    seq![116u8, 97u8, 98u8, 108u8, 101u8]
}

/// `blockquote` in ASCII.
pub open spec fn blockquote_tag() -> Seq<u8> {
    seq![98u8, 108u8, 111u8, 99u8, 107u8, 113u8, 117u8, 111u8, 116u8, 101u8]
}

/// `li` in ASCII.
pub open spec fn li_tag() -> Seq<u8> {
    seq![108u8, 105u8]
}

/// HTML that the reflow renders without running out of width or stack: it holds
/// at most `MAX_TAGS` tags and no table, and its quotes (a two-column prefix
/// each) and list items (at most a four-column prefix each, two digits of
/// numbering and `. `) could not take up more than the whole width even if all
/// were nested in one another.
pub open spec fn reflow_safe(bytes: Seq<u8>) -> bool {
    &&& bytes.len() <= MAX_HTML_BYTES
    &&& open_count(bytes, bytes.len() as int) <= MAX_TAGS
    &&& tag_count(bytes, table_tag(), bytes.len() as int) == 0
    &&& 2 * tag_count(bytes, blockquote_tag(), bytes.len() as int) + 4 * tag_count(
        bytes,
        li_tag(),
        bytes.len() as int,
    ) <= REFLOW_WIDTH
}

/// Relies on `august::convert`: renders HTML as plain text wrapped at
/// `REFLOW_WIDTH` columns, a function of the HTML alone. It panics on input over
/// `u32::MAX` bytes, which the HTML buffer cannot hold, on any table that is
/// narrower than its column separators, and where the prefixes of nested quotes
/// and list items outgrow the width. Its parse and conversion recurse once per
/// level of nesting, with no limit of their own, so a deeply nested body runs
/// out of stack. `reflow_safe` leaves all of those inputs out.
#[verifier::external_body]
fn reflow(html: &str) -> (r: String)
    requires
        reflow_safe(html.spec_bytes()),
    ensures
        r@ == reflowed(html@),
{
    august::convert(html, REFLOW_WIDTH)
}

/// A text document as sent to the client: the title, a blank line, the body and
/// a final line terminator.
pub open spec fn document_text(title: Seq<char>, body: Seq<char>) -> Seq<char> {
    title + seq!['\r', '\n', '\r', '\n'] + body + seq!['\r', '\n']
}

/// Frames an already reflowed body under its title.
pub fn frame_document(title: &str, body: &str) -> (r: String)
    ensures
        r@ == document_text(title@, body@),
{
    proof {
        reveal_strlit("\r\n\r\n");
        reveal_strlit("\r\n");
    }
    let mut out = String::from_str(title);
    out.append("\r\n\r\n");
    out.append(body);
    out.append("\r\n");
    assert(out@ =~= document_text(title@, body@));
    out
}

/// Whether the HTML body can be reflowed.
pub open spec fn fits_reflow(content: Content) -> bool {
    reflow_safe(encode_utf8(content.html@))
}

fn tag_at_exec(s: &[u8], i: usize, name: &Vec<u8>) -> (r: bool)
    ensures
        r == tag_at(s@, i as int, name@),
{
    if i >= s.len() || s.len() - i - 1 < name.len() || s[i] != 60u8 {
        return false;
    }
    let mut k: usize = 0;
    while k < name.len()
        invariant
            i < s@.len(),
            s@.len() == s.len(),
            name@.len() == name.len(),
            i + 1 + name@.len() <= s@.len(),
            k <= name@.len(),
            forall|j: int| 0 <= j < k ==> letter_matches(s@[i + 1 + j], name@[j]),
        decreases name@.len() - k,
    {
        let b = s[i + 1 + k];
        let l = name[k];
        if !(b == l || b as u16 + 32 == l as u16) {
            return false;
        }
        k = k + 1;
    }
    let j = i + 1 + name.len();
    if j == s.len() {
        return true;
    }
    let e = s[j];
    e == 9u8 || e == 10u8 || e == 12u8 || e == 13u8 || e == 32u8 || e == 47u8 || e == 62u8
}

fn count_opens(s: &[u8]) -> (r: usize)
    ensures
        r == open_count(s@, s@.len() as int),
{
    let mut count: usize = 0;
    let mut i: usize = 0;
    while i < s.len()
        invariant
            i <= s@.len(),
            count == open_count(s@, i as int),
            count <= i,
        decreases s@.len() - i,
    {
        if s[i] == 60u8 {
            count = count + 1;
        }
        i = i + 1;
    }
    count
}

fn count_tags(s: &[u8], name: &Vec<u8>) -> (r: usize)
    ensures
        r == tag_count(s@, name@, s@.len() as int),
{
    let mut count: usize = 0;
    let mut i: usize = 0;
    while i < s.len()
        invariant
            i <= s@.len(),
            count == tag_count(s@, name@, i as int),
            count <= i,
        decreases s@.len() - i,
    {
        if tag_at_exec(s, i, name) {
            count = count + 1;
        }
        i = i + 1;
    }
    count
}

/// Whether `render_document` can take the content.
pub fn check_fits_reflow(content: &Content) -> (r: bool)
    ensures
        r == fits_reflow(*content),
{
    let bytes = content.html.as_str().as_bytes();
    if bytes.len() > MAX_HTML_BYTES {
        return false;
    }
    let table: Vec<u8> = vec![116u8, 97u8, 98u8, 108u8, 101u8];
    let blockquote: Vec<u8> = vec![98u8, 108u8, 111u8, 99u8, 107u8, 113u8, 117u8, 111u8, 116u8, 101u8];
    let li: Vec<u8> = vec![108u8, 105u8];
    assert(table@ =~= table_tag());
    assert(blockquote@ =~= blockquote_tag());
    assert(li@ =~= li_tag());
    if count_opens(bytes) > MAX_TAGS {
        return false;
    }
    let tables = count_tags(bytes, &table);
    let quotes = count_tags(bytes, &blockquote);
    let items = count_tags(bytes, &li);
    tables == 0 && quotes <= REFLOW_WIDTH && items <= REFLOW_WIDTH && 2 * quotes + 4 * items
        <= REFLOW_WIDTH
}

/// Renders a page or a post as a text document, its body reflowed at
/// `REFLOW_WIDTH` columns.
pub fn render_document(content: &Content) -> (r: String)
    requires
        fits_reflow(*content),
    ensures
        r@ == document_text(content.title@, reflowed(content.html@)),
{
    let body = reflow(content.html.as_str());
    frame_document(content.title.as_str(), body.as_str())
}

/// Whether a CRLF starts at index `i` of `s`.
pub open spec fn crlf_at(s: Seq<char>, i: int) -> bool {
    0 <= i && i + 1 < s.len() && s[i] == '\r' && s[i + 1] == '\n'
}

/// What precedes the first CRLF of `s`; all of `s` when it holds none.
pub open spec fn first_line(s: Seq<char>) -> Seq<char>
    decreases s.len(),
{
    if s.len() < 2 {
        s
    } else if s[0] == '\r' && s[1] == '\n' {
        Seq::empty()
    } else {
        seq![s[0]] + first_line(s.drop_first())
    }
}

/// A text with no CRLF of its own is the first line of anything that follows it
/// after a CRLF.
pub proof fn lemma_first_line(t: Seq<char>, rest: Seq<char>)
    requires
        forall|i: int| !crlf_at(t, i),
    ensures
        first_line(t + seq!['\r', '\n'] + rest) == t,
    decreases t.len(),
{
    let s = t + seq!['\r', '\n'] + rest;
    if t.len() == 0 {
        assert(s[0] == '\r' && s[1] == '\n');
        assert(t =~= Seq::<char>::empty());
    } else {
        let u = t.drop_first();
        assert forall|i: int| !crlf_at(u, i) by {
            assert(!crlf_at(t, i + 1));
        }
        lemma_first_line(u, rest);
        assert(!crlf_at(t, 0));
        assert(s.drop_first() =~= u + seq!['\r', '\n'] + rest);
        assert(!(s[0] == '\r' && s[1] == '\n'));
        assert(seq![t[0]] + u =~= t);
    }
}

} // verus!
