use vstd::prelude::*;

use crate::content::{Content, PageListing, PostListing, Settings};
use crate::document::{
    check_fits_reflow, document_text, first_line, fits_reflow, lemma_first_line, reflowed,
    render_document, crlf_at,
};
use crate::menu::{menu_text, render_menu, ServerAddress};
use crate::selector::{parse_request, selector_of};

verus! {

/// Where one connection stands. A connection reads one request, fetches what it
/// needs from the CMS (a post by slug first, then a page by the same slug),
/// answers once and closes.
pub enum Stage {
    AwaitingRequest,
    AwaitingMenu,
    AwaitingPost(String),
    AwaitingPage(String),
    Finished,
}

/// A stage with its slug as a sequence of characters.
pub enum StageView {
    AwaitingRequest,
    AwaitingMenu,
    AwaitingPost(Seq<char>),
    AwaitingPage(Seq<char>),
    Finished,
}

impl View for Stage {
    type V = StageView;

    open spec fn view(&self) -> StageView {
        match self {
            Stage::AwaitingRequest => StageView::AwaitingRequest,
            Stage::AwaitingMenu => StageView::AwaitingMenu,
            Stage::AwaitingPost(s) => StageView::AwaitingPost(s@),
            Stage::AwaitingPage(s) => StageView::AwaitingPage(s@),
            Stage::Finished => StageView::Finished,
        }
    }
}

/// What the connection asks its driver to do next.
pub enum Action {
    /// Fetch the settings, the page listing and the post listing.
    FetchMenu,
    /// Look up a post by slug.
    FetchPost(String),
    /// Look up a page by slug.
    FetchPage(String),
    /// Write these bytes, then close.
    Respond(String),
    /// Close without writing anything.
    Close,
}

/// An action with its text as a sequence of characters.
pub enum ActionView {
    FetchMenu,
    FetchPost(Seq<char>),
    FetchPage(Seq<char>),
    Respond(Seq<char>),
    Close,
}

impl View for Action {
    type V = ActionView;

    open spec fn view(&self) -> ActionView {
        match self {
            Action::FetchMenu => ActionView::FetchMenu,
            Action::FetchPost(s) => ActionView::FetchPost(s@),
            Action::FetchPage(s) => ActionView::FetchPage(s@),
            Action::Respond(s) => ActionView::Respond(s@),
            Action::Close => ActionView::Close,
        }
    }
}

/// What the driver reports back.
pub enum Event {
    /// The line the client sent; empty when it closed before sending anything.
    RequestLine(String),
    /// The site settings and both listings.
    MenuFetched(Settings, Vec<PageListing>, Vec<PostListing>),
    /// The lookup found this post or page.
    ContentFound(Content),
    /// Reading, or any fetch, failed.
    Failed,
}

/// The answer to a found post or page: its document, or closing when the body
/// is one the reflow cannot take.
pub open spec fn respond_with(content: Content) -> (StageView, ActionView) {
    if fits_reflow(content) {
        (
            StageView::Finished,
            ActionView::Respond(
                document_text(content.title@, reflowed(content.html@)),
            ),
        )
    } else {
        (StageView::Finished, ActionView::Close)
    }
}

/// One step of a connection: the next stage and the action to perform.
pub open spec fn transition(stage: StageView, event: Event, server: ServerAddress) -> (
    StageView,
    ActionView,
) {
    match stage {
        StageView::AwaitingRequest => match event {
            Event::RequestLine(line) => {
                let sel = selector_of(line@);
                if line@.len() == 0 {
                    (StageView::Finished, ActionView::Close)
                } else if sel.len() == 0 {
                    (StageView::AwaitingMenu, ActionView::FetchMenu)
                } else {
                    (StageView::AwaitingPost(sel), ActionView::FetchPost(sel))
                }
            },
            _ => (StageView::Finished, ActionView::Close),
        },
        StageView::AwaitingMenu => match event {
            Event::MenuFetched(settings, pages, posts) => (
                StageView::Finished,
                ActionView::Respond(menu_text(settings, pages@, posts@, server)),
            ),
            _ => (StageView::Finished, ActionView::Close),
        },
        StageView::AwaitingPost(slug) => match event {
            Event::ContentFound(content) => respond_with(content),
            Event::Failed => (StageView::AwaitingPage(slug), ActionView::FetchPage(slug)),
            _ => (StageView::Finished, ActionView::Close),
        },
        StageView::AwaitingPage(_) => match event {
            Event::ContentFound(content) => respond_with(content),
            _ => (StageView::Finished, ActionView::Close),
        },
        StageView::Finished => (StageView::Finished, ActionView::Close),
    }
}

/// The stage reached and the actions asked for, from `stage` on, for these events.
pub open spec fn run(stage: StageView, events: Seq<Event>, server: ServerAddress) -> (
    StageView,
    Seq<ActionView>,
)
    decreases events.len(),
{
    if events.len() == 0 {
        (stage, Seq::empty())
    } else {
        let (next, action) = transition(stage, events[0], server);
        let (last, actions) = run(next, events.drop_first(), server);
        (last, seq![action] + actions)
    }
}

/// Once a connection has answered or given up, every further event closes it.
pub proof fn lemma_finished_only_closes(events: Seq<Event>, server: ServerAddress)
    ensures
        run(StageView::Finished, events, server).0 == StageView::Finished,
        forall|i: int|
            0 <= i < events.len() ==> #[trigger] run(StageView::Finished, events, server).1[i]
                == ActionView::Close,
        run(StageView::Finished, events, server).1.len() == events.len(),
    decreases events.len(),
{
    if events.len() > 0 {
        lemma_finished_only_closes(events.drop_first(), server);
        let r = run(StageView::Finished, events, server);
        let rest = run(StageView::Finished, events.drop_first(), server);
        assert(r.1 == seq![ActionView::Close] + rest.1);
        assert forall|i: int| 0 <= i < events.len() implies #[trigger] r.1[i] == ActionView::Close by {
            if i > 0 {
                assert(r.1[i] == rest.1[i - 1]);
            }
        }
    }
}

/// A client that closes before sending anything gets no fetch and no answer:
/// whatever else is reported, the connection only closes.
pub proof fn lemma_empty_request_closes(line: String, more: Seq<Event>, server: ServerAddress)
    requires
        line@.len() == 0,
    ensures
        ({
            let events = seq![Event::RequestLine(line)] + more;
            let (last, actions) = run(StageView::AwaitingRequest, events, server);
            &&& last == StageView::Finished
            &&& actions.len() == events.len()
            &&& forall|i: int| 0 <= i < actions.len() ==> #[trigger] actions[i] == ActionView::Close
        }),
{
    let events = seq![Event::RequestLine(line)] + more;
    assert(events.drop_first() =~= more);
    lemma_finished_only_closes(more, server);
    let r = run(StageView::AwaitingRequest, events, server);
    let rest = run(StageView::Finished, more, server);
    assert(r.1 == seq![ActionView::Close] + rest.1);
    assert forall|i: int| 0 <= i < r.1.len() implies #[trigger] r.1[i] == ActionView::Close by {
        if i > 0 {
            assert(r.1[i] == rest.1[i - 1]);
        }
    }
}

/// A selector that is neither a post nor a page: the post lookup fails, the
/// page lookup by the same slug fails, and the connection closes without
/// writing anything, whatever else is reported.
pub proof fn lemma_unknown_selector_closes(line: String, more: Seq<Event>, server: ServerAddress)
    requires
        selector_of(line@).len() > 0,
    ensures
        ({
            let sel = selector_of(line@);
            let events = seq![Event::RequestLine(line), Event::Failed, Event::Failed] + more;
            let (last, actions) = run(StageView::AwaitingRequest, events, server);
            &&& last == StageView::Finished
            &&& actions.len() == events.len()
            &&& actions[0] == ActionView::FetchPost(sel)
            &&& actions[1] == ActionView::FetchPage(sel)
            &&& forall|i: int| 2 <= i < actions.len() ==> #[trigger] actions[i] == ActionView::Close
        }),
{
    let sel = selector_of(line@);
    let events = seq![Event::RequestLine(line), Event::Failed, Event::Failed] + more;
    assert(line@.len() > 0) by {
        if line@.len() == 0 {
            assert(line@.take(0) =~= Seq::<char>::empty());
        }
    }
    let e1 = events.drop_first();
    let e2 = e1.drop_first();
    let e3 = e2.drop_first();
    assert(e3 =~= more);
    assert(e1[0] == Event::Failed);
    assert(e2[0] == Event::Failed);
    lemma_finished_only_closes(more, server);
    let r3 = run(StageView::Finished, more, server);
    let r2 = run(StageView::AwaitingPage(sel), e2, server);
    let r1 = run(StageView::AwaitingPost(sel), e1, server);
    let r0 = run(StageView::AwaitingRequest, events, server);
    assert(r2.1 == seq![ActionView::Close] + r3.1);
    assert(r1.1 == seq![ActionView::FetchPage(sel)] + r2.1);
    assert(r0.1 == seq![ActionView::FetchPost(sel)] + r1.1);
    assert forall|i: int| 2 <= i < r0.1.len() implies #[trigger] r0.1[i] == ActionView::Close by {
        assert(r0.1[i] == r1.1[i - 1]);
        assert(r1.1[i - 1] == r2.1[i - 2]);
        if i > 2 {
            assert(r2.1[i - 2] == r3.1[i - 3]);
        }
    }
}

/// A selector that names a post is answered with a document whose first line is
/// the post's title (a title that holds no line break of its own).
pub proof fn lemma_post_document_starts_with_title(
    line: String,
    post: Content,
    server: ServerAddress,
)
    requires
        selector_of(line@).len() > 0,
        fits_reflow(post),
        forall|i: int| !crlf_at(post.title@, i),
    ensures
        ({
            let sel = selector_of(line@);
            let events = seq![Event::RequestLine(line), Event::ContentFound(post)];
            let (last, actions) = run(StageView::AwaitingRequest, events, server);
            &&& last == StageView::Finished
            &&& actions.len() == 2
            &&& actions[0] == ActionView::FetchPost(sel)
            &&& actions[1] matches ActionView::Respond(text) && first_line(text) == post.title@
        }),
{
    let sel = selector_of(line@);
    let events = seq![Event::RequestLine(line), Event::ContentFound(post)];
    assert(line@.len() > 0) by {
        if line@.len() == 0 {
            assert(line@.take(0) =~= Seq::<char>::empty());
        }
    }
    let e1 = events.drop_first();
    assert(e1[0] == Event::ContentFound(post));
    assert(e1.drop_first().len() == 0);
    let body = reflowed(post.html@);
    let text = document_text(post.title@, body);
    lemma_first_line(post.title@, seq!['\r', '\n'] + body + seq!['\r', '\n']);
    assert(text =~= post.title@ + seq!['\r', '\n'] + (seq!['\r', '\n'] + body + seq!['\r', '\n']));
    assert(respond_with(post) == (StageView::Finished, ActionView::Respond(text)));
    assert(transition(StageView::AwaitingPost(sel), e1[0], server) == respond_with(post));
    let r2 = run(StageView::Finished, e1.drop_first(), server);
    assert(r2.1 =~= Seq::<ActionView>::empty());
    let r1 = run(StageView::AwaitingPost(sel), e1, server);
    assert(r1.1 == seq![ActionView::Respond(text)] + r2.1);
    assert(r1.1 =~= seq![ActionView::Respond(text)]);
    let r0 = run(StageView::AwaitingRequest, events, server);
    assert(r0.1 =~= seq![ActionView::FetchPost(sel), ActionView::Respond(text)]);
}

/// One accepted connection, from its request to its close.
pub struct Connection {
    pub stage: Stage,
    pub server: ServerAddress,
}

impl Connection {
    /// A connection that waits for its request line.
    pub fn new(server: ServerAddress) -> (r: Connection)
        ensures
            r.stage@ == StageView::AwaitingRequest,
            r.server == server,
    {
        Connection { stage: Stage::AwaitingRequest, server }
    }

    /// Takes what the driver reports and says what to do next.
    pub fn step(&mut self, event: Event) -> (r: Action)
        ensures
            (final(self).stage@, r@) == transition(old(self).stage@, event, old(self).server),
            final(self).server == old(self).server,
    {
        let (next, action) = match &self.stage {
            Stage::AwaitingRequest => match event {
                Event::RequestLine(line) => match parse_request(line.as_str()) {
                    None => (Stage::Finished, Action::Close),
                    Some(sel) => {
                        if sel.as_str().unicode_len() == 0 {
                            (Stage::AwaitingMenu, Action::FetchMenu)
                        } else {
                            (Stage::AwaitingPost(sel.clone()), Action::FetchPost(sel))
                        }
                    },
                },
                _ => (Stage::Finished, Action::Close),
            },
            Stage::AwaitingMenu => match event {
                Event::MenuFetched(settings, pages, posts) => (
                    Stage::Finished,
                    Action::Respond(render_menu(&settings, &pages, &posts, &self.server)),
                ),
                _ => (Stage::Finished, Action::Close),
            },
            Stage::AwaitingPost(slug) => match event {
                Event::ContentFound(content) => (Stage::Finished, respond_with_document(&content)),
                Event::Failed => (Stage::AwaitingPage(slug.clone()), Action::FetchPage(slug.clone())),
                _ => (Stage::Finished, Action::Close),
            },
            Stage::AwaitingPage(_) => match event {
                Event::ContentFound(content) => (Stage::Finished, respond_with_document(&content)),
                _ => (Stage::Finished, Action::Close),
            },
            Stage::Finished => (Stage::Finished, Action::Close),
        };
        self.stage = next;
        action
    }
}

fn respond_with_document(content: &Content) -> (r: Action)
    ensures
        (StageView::Finished, r@) == respond_with(*content),
{
    if check_fits_reflow(content) {
        Action::Respond(render_document(content))
    } else {
        Action::Close
    }
}

} // verus!
