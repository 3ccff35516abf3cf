use vstd::prelude::*;
use vstd::string::*;

verus! {

/// The characters with the Unicode `White_Space` property, as `char::is_whitespace`
/// documents it.
pub open spec fn is_space(c: char) -> bool {
    ||| ('\u{9}' <= c && c <= '\u{d}')
    ||| c == ' '
    ||| c == '\u{85}'
    ||| c == '\u{a0}'
    ||| c == '\u{1680}'
    ||| ('\u{2000}' <= c && c <= '\u{200a}')
    ||| c == '\u{2028}'
    ||| c == '\u{2029}'
    ||| c == '\u{202f}'
    ||| c == '\u{205f}'
    ||| c == '\u{3000}'
}

/// Index of the first horizontal tab in `s`, or its length when there is none.
pub open spec fn tab_index(s: Seq<char>) -> nat
    decreases s.len(),
{
    if s.len() == 0 || s[0] == '\t' {
        0
    } else {
        1 + tab_index(s.drop_first())
    }
}

/// `s` without its trailing whitespace.
pub open spec fn trim_end(s: Seq<char>) -> Seq<char>
    decreases s.len(),
{
    if s.len() > 0 && is_space(s.last()) {
        trim_end(s.drop_last())
    } else {
        s
    }
}

/// The selector that a request line asks for: what stands before the first tab,
/// without trailing whitespace (the line terminator included).
pub open spec fn selector_of(line: Seq<char>) -> Seq<char> {
    trim_end(line.take(tab_index(line) as int))
}

proof fn lemma_tab_index(s: Seq<char>, i: int)
    requires
        0 <= i <= s.len(),
        forall|j: int| 0 <= j < i ==> s[j] != '\t',
        i == s.len() || s[i] == '\t',
    ensures
        tab_index(s) == i,
    decreases i,
{
    if i > 0 {
        lemma_tab_index(s.drop_first(), i - 1);
    }
}

/// A selector survives the trip through a request line: sent alone, or followed
/// by a tab and a search string, it is parsed back as it was. This holds of
/// selectors without a tab and without trailing whitespace, the ones a client
/// can send at all.
pub proof fn lemma_selector_round_trip(sel: Seq<char>, query: Seq<char>)
    requires
        forall|i: int| 0 <= i < sel.len() ==> sel[i] != '\t',
        sel.len() == 0 || !is_space(sel.last()),
    ensures
        selector_of(sel + seq!['\r', '\n']) == sel,
        selector_of(sel + seq!['\t'] + query + seq!['\r', '\n']) == sel,
{
    assert(trim_end(sel) == sel);
    let plain = sel + seq!['\r', '\n'];
    lemma_tab_index(plain, plain.len() as int);
    assert(plain.take(plain.len() as int) =~= plain);
    assert(plain.drop_last() =~= sel + seq!['\r']);
    assert((sel + seq!['\r']).drop_last() =~= sel);
    assert(trim_end(sel + seq!['\r']) == trim_end(sel));
    let searched = sel + seq!['\t'] + query + seq!['\r', '\n'];
    lemma_tab_index(searched, sel.len() as int);
    assert(searched.take(sel.len() as int) =~= sel);
}

fn is_space_char(c: char) -> (r: bool)
    ensures
        r == is_space(c),
{
    ('\u{9}' <= c && c <= '\u{d}') || c == ' ' || c == '\u{85}' || c == '\u{a0}' || c
        == '\u{1680}' || ('\u{2000}' <= c && c <= '\u{200a}') || c == '\u{2028}' || c
        == '\u{2029}' || c == '\u{202f}' || c == '\u{205f}' || c == '\u{3000}'
}

/// Parses one request line as read from the client. `None` stands for a client
/// that closed the connection before sending anything (nothing was read);
/// otherwise the selector is what precedes the first tab, trailing whitespace
/// and line terminator removed. An empty selector asks for the root menu.
pub fn parse_request(line: &str) -> (r: Option<String>)
    ensures
        r is None <==> line@.len() == 0,
        r matches Some(sel) ==> sel@ == selector_of(line@),
{
    let n = line.unicode_len();
    if n == 0 {
        return None;
    }
    let mut cut: usize = 0;
    while cut < n && line.get_char(cut) != '\t'
        invariant
            n == line@.len(),
            cut <= n,
            forall|j: int| 0 <= j < cut ==> line@[j] != '\t',
        decreases n - cut,
    {
        cut = cut + 1;
    }
    proof {
        lemma_tab_index(line@, cut as int);
    }
    let mut end: usize = cut;
    while end > 0 && is_space_char(line.get_char(end - 1))
        invariant
            n == line@.len(),
            end <= cut <= n,
            cut == tab_index(line@),
            trim_end(line@.take(end as int)) == selector_of(line@),
        decreases end,
    {
        proof {
            let t = line@.take(end as int);
            assert(t.drop_last() =~= line@.take(end - 1));
        }
        end = end - 1;
    }
    proof {
        let t = line@.take(end as int);
        assert(trim_end(t) == t);
    }
    Some(line.substring_char(0, end).to_owned())
}

} // verus!
