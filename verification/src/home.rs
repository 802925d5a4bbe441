//! The home timeline: the posts loaded so far, the one under the cursor,
//! and how the cursor moves across page boundaries.

use std::collections::VecDeque;
use vstd::prelude::*;
use vstd::string::*;
use crate::event::{Event, KeyCode, KeyPress, Outcome, TerminalEvent};
use crate::text::{strip_all_prefixes, trim_start_matches};

verus! {

/// A moment and the offset from UTC at which it is shown: seconds since
/// the Unix epoch, and seconds east of UTC.
#[derive(Debug, Clone, Copy, PartialEq, Eq, Structural)]
pub struct Timestamp {
    pub unix_seconds: i64,
    pub offset_seconds: i32,
}

/// A link preview attached to a post.
#[derive(Debug, Clone, PartialEq, Eq)]
pub struct Card {
    pub url: String,
    pub title: String,
    pub description: String,
}

/// The post that another post shares.
#[derive(Debug, Clone, PartialEq, Eq)]
pub struct Reblog {
    pub acct: String,
    pub display_name: String,
    pub content: String,
}

/// A post of the timeline, with what the client shows of it.
#[derive(Debug, Clone, PartialEq, Eq)]
pub struct Toot {
    /// The time of posting.
    pub created_at: Timestamp,
    pub acct: String,
    pub display_name: String,
    /// The body, as HTML.
    pub content: String,
    pub url: Option<String>,
    pub reblog: Option<Reblog>,
    pub card: Option<Card>,
}

/// The signed-in account, as far as the timeline needs it.
#[derive(Debug, Clone, PartialEq, Eq)]
pub struct Login {
    pub username: String,
    /// The address of the server, such as `https://example.social`.
    pub base: String,
}

/// What came of fetching the page before or after the loaded posts.
#[derive(Debug, Clone, PartialEq, Eq)]
pub enum PageFetch {
    /// No page has been loaded yet, so there is nothing to continue from.
    NoCurrentPage,
    /// The server could not be asked, or refused.
    Failed,
    /// There is no further page in that direction.
    End,
    /// The posts of the fetched page, in the server's order.
    Items(Vec<Toot>),
}

/// Why the timeline could not do what was asked.
#[derive(Debug, Clone, Copy, PartialEq, Eq, Structural)]
pub enum HomeError {
    NotLoggedIn,
    TimelineFailed,
    NoCurrentPage,
    NextPageFailed,
    PrevPageFailed,
    NoItemSelected,
}

/// What an error says of itself.
pub open spec fn error_message(error: HomeError) -> Seq<char> {
    match error {
        HomeError::NotLoggedIn => "not logged in"@,
        HomeError::TimelineFailed => "failed to load timeline"@,
        HomeError::NoCurrentPage => "no current page"@,
        HomeError::NextPageFailed => "failed to load next page"@,
        HomeError::PrevPageFailed => "failed to load previous page"@,
        HomeError::NoItemSelected => "no item selected"@,
    }
}

impl HomeError {
    /// The message of the error.
    pub fn message(&self) -> (r: &'static str)
        ensures
            r@ == error_message(*self),
    {
        match self {
            HomeError::NotLoggedIn => "not logged in",
            HomeError::TimelineFailed => "failed to load timeline",
            HomeError::NoCurrentPage => "no current page",
            HomeError::NextPageFailed => "failed to load next page",
            HomeError::PrevPageFailed => "failed to load previous page",
            HomeError::NoItemSelected => "no item selected",
        }
    }
}

/// The direction in which a further page lies.
#[derive(Debug, Clone, Copy, PartialEq, Eq, Structural)]
pub enum PageDirection {
    Next,
    Prev,
}

/// What a failed scroll is called, by its direction.
pub open spec fn scroll_context_spec(direction: PageDirection) -> Seq<char> {
    match direction {
        PageDirection::Next => "failed to scroll down"@,
        PageDirection::Prev => "failed to scroll up"@,
    }
}

/// What a failed scroll is called, by its direction.
pub fn scroll_context(direction: PageDirection) -> (r: &'static str)
    ensures
        r@ == scroll_context_spec(direction),
{
    match direction {
        PageDirection::Next => "failed to scroll down",
        PageDirection::Prev => "failed to scroll up",
    }
}

/// The timeline as plain values.
pub struct HomeState {
    pub title: Seq<char>,
    pub items: Seq<Toot>,
    pub status: Seq<char>,
    pub selected: Option<usize>,
}

impl HomeState {
    /// The position of the cursor: the selected index, or 0 where nothing
    /// is selected.
    pub open spec fn index(self) -> usize {
        match self.selected {
            Some(i) => i,
            None => 0,
        }
    }
}

/// The status line for a post: its address, or nothing where it has none.
pub open spec fn status_line(toot: Toot) -> Seq<char> {
    match toot.url {
        Some(url) => url@,
        None => Seq::empty(),
    }
}

/// The title of the timeline of `username` at the server `base`: the
/// user name, `@`, and the server without its scheme.
pub open spec fn title_for(username: Seq<char>, base: Seq<char>) -> Seq<char> {
    username + seq!['@'] + strip_all_prefixes(base, https_scheme())
}

/// The characters of `https://`.
pub open spec fn https_scheme() -> Seq<char> {
    seq!['h', 't', 't', 'p', 's', ':', '/', '/']
}

/// Moving the cursor to `index`: the cursor moves in any case; the status
/// line follows where a post stands at `index`, and the move fails where
/// none does.
pub open spec fn select_spec(s: HomeState, index: usize) -> (HomeState, Result<(), HomeError>) {
    let moved = HomeState { selected: Some(index), ..s };
    if index < s.items.len() {
        (HomeState { status: status_line(s.items[index as int]), ..moved }, Ok(()))
    } else {
        (moved, Err(HomeError::NoItemSelected))
    }
}

/// One step down. Inside the loaded posts the cursor moves and `fetched`
/// is not looked at. At the last post the next page decides: its posts are
/// added behind the loaded ones and the cursor moves onto the first of
/// them; without a further page nothing changes.
pub open spec fn scroll_down_spec(s: HomeState, fetched: PageFetch) -> (
    HomeState,
    Result<(), HomeError>,
) {
    let index = (s.index() + 1) as usize;
    if index < s.items.len() {
        select_spec(s, index)
    } else {
        match fetched {
            PageFetch::NoCurrentPage => (s, Err(HomeError::NoCurrentPage)),
            PageFetch::Failed => (s, Err(HomeError::NextPageFailed)),
            PageFetch::End => (s, Ok(())),
            PageFetch::Items(page) => select_spec(
                HomeState { items: s.items + page@, ..s },
                index,
            ),
        }
    }
}

/// One step up. Below the first post the cursor moves and `fetched` is not
/// looked at. At the first post the previous page decides: its posts are
/// put before the loaded ones and the cursor moves onto the last of them;
/// without a previous page nothing changes.
pub open spec fn scroll_up_spec(s: HomeState, fetched: PageFetch) -> (
    HomeState,
    Result<(), HomeError>,
) {
    if s.index() == 0 {
        match fetched {
            PageFetch::NoCurrentPage => (s, Err(HomeError::NoCurrentPage)),
            PageFetch::Failed => (s, Err(HomeError::PrevPageFailed)),
            PageFetch::End => (s, Ok(())),
            PageFetch::Items(page) => select_spec(
                HomeState { items: page@ + s.items, ..s },
                if page@.len() == 0 {
                    0usize
                } else {
                    (page@.len() - 1) as usize
                },
            ),
        }
    } else {
        select_spec(s, (s.index() - 1) as usize)
    }
}

/// Which scroll a key asks for: an unmodified `j` goes down, an
/// unmodified `k` goes up, and no other key scrolls.
pub open spec fn scroll_of_key(key: KeyPress) -> Option<PageDirection> {
    if key.unmodified && key.code == KeyCode::Char('j') {
        Some(PageDirection::Next)
    } else if key.unmodified && key.code == KeyCode::Char('k') {
        Some(PageDirection::Prev)
    } else {
        None
    }
}

/// Which scroll an event asks for: that of its key, if it is a key press.
pub open spec fn scroll_of_event(event: Event) -> Option<PageDirection> {
    match event {
        Event::Crossterm(TerminalEvent::Key(key)) => scroll_of_key(key),
        _ => None,
    }
}

/// What a key does to the timeline, given the page that was fetched for it.
pub open spec fn handle_key_spec(s: HomeState, key: KeyPress, fetched: PageFetch) -> (
    HomeState,
    Result<Outcome, HomeError>,
) {
    match scroll_of_key(key) {
        Some(direction) => {
            let (after, moved) = match direction {
                PageDirection::Next => scroll_down_spec(s, fetched),
                PageDirection::Prev => scroll_up_spec(s, fetched),
            };
            match moved {
                Ok(_) => (after, Ok(Outcome::Handled)),
                Err(e) => (after, Err(e)),
            }
        },
        None => (s, Ok(Outcome::Ignored)),
    }
}

/// The page that has to be fetched before `event` can be handled, if any.
pub open spec fn page_needed_spec(s: HomeState, event: Event) -> Option<PageDirection> {
    match scroll_of_event(event) {
        Some(PageDirection::Next) => if s.index() + 1 >= s.items.len() {
            Some(PageDirection::Next)
        } else {
            None
        },
        Some(PageDirection::Prev) => if s.index() == 0 {
            Some(PageDirection::Prev)
        } else {
            None
        },
        None => None,
    }
}

/// Scrolling never loses a post: what was loaded before a step down is
/// the beginning of what is loaded after it, and what was loaded before a
/// step up is the end.
pub proof fn lemma_scrolling_keeps_the_posts(s: HomeState, fetched: PageFetch)
    ensures
        s.items.is_prefix_of(scroll_down_spec(s, fetched).0.items),
        s.items.is_suffix_of(scroll_up_spec(s, fetched).0.items),
        scroll_down_spec(s, fetched).0.title == s.title,
        scroll_up_spec(s, fetched).0.title == s.title,
{
    let down = scroll_down_spec(s, fetched).0.items;
    let up = scroll_up_spec(s, fetched).0.items;
    assert(s.items =~= down.subrange(0, s.items.len() as int));
    assert(s.items =~= up.subrange(up.len() - s.items.len(), up.len() as int));
}

/// A step that succeeds and moves the cursor leaves it on a loaded post,
/// with that post's address as the status line.
pub proof fn lemma_cursor_lands_on_a_post(s: HomeState, fetched: PageFetch, down: bool)
    ensures
        ({
            let (after, r) = if down {
                scroll_down_spec(s, fetched)
            } else {
                scroll_up_spec(s, fetched)
            };
            r.is_ok() && after != s ==> after.index() < after.items.len() && after.status
                == status_line(after.items[after.index() as int])
        }),
{
}

/// Inside the loaded posts a step down followed by a step up brings the
/// cursor back, whatever pages were offered.
pub proof fn lemma_down_then_up_returns(s: HomeState, first: PageFetch, second: PageFetch)
    requires
        s.items.len() <= usize::MAX,
        s.index() + 1 < s.items.len(),
    ensures
        scroll_down_spec(s, first).1.is_ok(),
        scroll_down_spec(s, first).0.index() == s.index() + 1,
        scroll_up_spec(scroll_down_spec(s, first).0, second).1.is_ok(),
        scroll_up_spec(scroll_down_spec(s, first).0, second).0.index() == s.index(),
        scroll_up_spec(scroll_down_spec(s, first).0, second).0.items == s.items,
{
}

/// A step up from the top onto a page that holds posts puts the cursor on
/// the last post of that page, directly above the post that was on top.
pub proof fn lemma_up_lands_above_the_old_top(s: HomeState, page: Vec<Toot>)
    requires
        s.index() == 0,
        page@.len() > 0,
        page@.len() <= usize::MAX,
    ensures
        ({
            let (after, r) = scroll_up_spec(s, PageFetch::Items(page));
            &&& r.is_ok()
            &&& after.index() == page@.len() - 1
            &&& after.items[after.index() as int] == page@.last()
            &&& after.items.skip(page@.len() as int) == s.items
        }),
{
    let (after, r) = scroll_up_spec(s, PageFetch::Items(page));
    assert(after.items.skip(page@.len() as int) =~= s.items);
}

/// The home timeline.
pub struct Home {
    title: String,
    items: VecDeque<Toot>,
    status: String,
    selected: Option<usize>,
}

impl Home {
    /// The timeline as plain values.
    pub closed spec fn view(&self) -> HomeState {
        HomeState {
            title: self.title@,
            items: self.items@,
            status: self.status@,
            selected: self.selected,
        }
    }

    /// An empty timeline with nothing selected.
    pub fn new() -> (r: Home)
        ensures
            r@.title.len() == 0,
            r@.items.len() == 0,
            r@.status.len() == 0,
            r@.selected.is_none(),
    {
        Home { title: String::new(), items: VecDeque::new(), status: String::new(), selected: None }
    }

    /// Names the timeline after the signed-in account; fails, and changes
    /// nothing, where nobody is signed in.
    pub fn start(&mut self, login: Option<&Login>) -> (r: Result<(), HomeError>)
        ensures
            match login {
                Some(l) => r == Ok::<(), HomeError>(()) && final(self)@ == (HomeState {
                    title: title_for(l.username@, l.base@),
                    ..old(self)@
                }),
                None => r == Err::<(), HomeError>(HomeError::NotLoggedIn) && final(self)@ == old(
                    self,
                )@,
            },
    {
        match login {
            Some(l) => {
                let server = trim_start_matches(l.base.as_str(), "https://");
                let mut title = l.username.clone();
                title.append("@");
                title.append(server);
                proof {
                    reveal_strlit("https://");
                    reveal_strlit("@");
                    assert("https://"@ =~= https_scheme());
                    assert("@"@ =~= seq!['@']);
                }
                self.title = title;
                Ok(())
            },
            None => Err(HomeError::NotLoggedIn),
        }
    }

    /// Takes in the first page of the timeline. `fetched` holds its posts,
    /// or nothing where loading failed. On success the posts are added
    /// behind those already held and the cursor goes to the top.
    pub fn load_home_timeline(&mut self, fetched: Option<Vec<Toot>>) -> (r: Result<(), HomeError>)
        ensures
            match fetched {
                Some(page) => r == Ok::<(), HomeError>(()) && final(self)@ == (HomeState {
                    items: old(self)@.items + page@,
                    selected: Some(0usize),
                    ..old(self)@
                }),
                None => r == Err::<(), HomeError>(HomeError::TimelineFailed) && final(self)@
                    == old(self)@,
            },
    {
        match fetched {
            Some(page) => {
                self.extend_back(page);
                self.set_list_index(0);
                Ok(())
            },
            None => Err(HomeError::TimelineFailed),
        }
    }

    /// Adds `page` behind the loaded posts.
    fn extend_back(&mut self, page: Vec<Toot>)
        ensures
            final(self)@ == (HomeState { items: old(self)@.items + page@, ..old(self)@ }),
    {
        let mut rest = page;
        let ghost before = self.items@;
        let ghost all = rest@;
        assert(all.subrange(0, 0) =~= Seq::<Toot>::empty());
        assert(before + Seq::<Toot>::empty() =~= before);
        assert(all.subrange(0, all.len() as int) =~= all);
        while rest.len() > 0
            invariant
                rest@.len() <= all.len(),
                rest@ == all.subrange(all.len() - rest@.len(), all.len() as int),
                self.items@ == before + all.subrange(0, all.len() - rest@.len()),
                self.title == old(self).title,
                self.status == old(self).status,
                self.selected == old(self).selected,
            decreases rest.len(),
        {
            let ghost done = all.len() - rest@.len();
            let toot = rest.remove(0);
            self.items.push_back(toot);
            proof {
                assert(rest@ =~= all.subrange(done + 1, all.len() as int));
                assert(self.items@ =~= before + all.subrange(0, done + 1));
            }
        }
        assert(all.subrange(0, all.len() as int) =~= all);
    }

    /// Puts `page` before the loaded posts.
    fn extend_front(&mut self, page: Vec<Toot>)
        ensures
            final(self)@ == (HomeState { items: page@ + old(self)@.items, ..old(self)@ }),
    {
        let mut rest = page;
        let ghost before = self.items@;
        let ghost all = rest@;
        assert(all.subrange(all.len() as int, all.len() as int) =~= Seq::<Toot>::empty());
        assert(Seq::<Toot>::empty() + before =~= before);
        assert(all.subrange(0, all.len() as int) =~= all);
        while rest.len() > 0
            invariant
                rest@.len() <= all.len(),
                rest@ == all.subrange(0, rest@.len() as int),
                self.items@ == all.subrange(rest@.len() as int, all.len() as int) + before,
                self.title == old(self).title,
                self.status == old(self).status,
                self.selected == old(self).selected,
            decreases rest.len(),
        {
            let ghost left = rest@.len() - 1;
            let toot = rest.pop().unwrap();
            self.items.push_front(toot);
            proof {
                assert(rest@ =~= all.subrange(0, left));
                assert(self.items@ =~= all.subrange(left, all.len() as int) + before);
            }
        }
        assert(all.subrange(0, all.len() as int) =~= all);
    }

    /// Moves the cursor to `index`, whatever stands there.
    pub fn set_list_index(&mut self, index: usize)
        ensures
            final(self)@ == (HomeState { selected: Some(index), ..old(self)@ }),
    {
        self.selected = Some(index);
    }

    /// The position of the cursor; 0 where nothing is selected.
    pub fn get_list_index(&self) -> (r: usize)
        ensures
            r == self@.index(),
    {
        match self.selected {
            Some(i) => i,
            None => 0,
        }
    }

    /// Makes the status line that of the post at `selected`; fails, and
    /// changes nothing, where no post stands there.
    pub fn update_status(&mut self, selected: usize) -> (r: Result<(), HomeError>)
        ensures
            selected < old(self)@.items.len() ==> r == Ok::<(), HomeError>(()) && final(self)@ == (HomeState {
                status: status_line(old(self)@.items[selected as int]),
                ..old(self)@
            }),
            selected >= old(self)@.items.len() ==> r == Err::<(), HomeError>(
                HomeError::NoItemSelected,
            ) && final(self)@ == old(self)@,
    {
        if selected < self.items.len() {
            let status = match &self.items[selected].url {
                Some(url) => url.clone(),
                None => String::new(),
            };
            self.status = status;
            Ok(())
        } else {
            Err(HomeError::NoItemSelected)
        }
    }

    /// Moves the cursor to `index` and brings the status line along.
    fn select(&mut self, index: usize) -> (r: Result<(), HomeError>)
        ensures
            (final(self)@, r) == select_spec(old(self)@, index),
    {
        self.set_list_index(index);
        self.update_status(index)
    }

    /// Moves the cursor one post down; see [`scroll_down_spec`].
    pub fn scroll_down(&mut self, fetched: PageFetch) -> (r: Result<(), HomeError>)
        requires
            old(self)@.index() < usize::MAX,
        ensures
            (final(self)@, r) == scroll_down_spec(old(self)@, fetched),
    {
        let index = self.get_list_index() + 1;
        if index >= self.items.len() {
            match fetched {
                PageFetch::NoCurrentPage => {
                    return Err(HomeError::NoCurrentPage);
                },
                PageFetch::Failed => {
                    return Err(HomeError::NextPageFailed);
                },
                PageFetch::End => {
                    return Ok(());
                },
                PageFetch::Items(page) => {
                    self.extend_back(page);
                },
            }
        }
        self.select(index)
    }

    /// Moves the cursor one post up; see [`scroll_up_spec`].
    pub fn scroll_up(&mut self, fetched: PageFetch) -> (r: Result<(), HomeError>)
        ensures
            (final(self)@, r) == scroll_up_spec(old(self)@, fetched),
    {
        let mut index = self.get_list_index();
        if index == 0 {
            match fetched {
                PageFetch::NoCurrentPage => {
                    return Err(HomeError::NoCurrentPage);
                },
                PageFetch::Failed => {
                    return Err(HomeError::PrevPageFailed);
                },
                PageFetch::End => {
                    return Ok(());
                },
                PageFetch::Items(page) => {
                    index = if page.len() == 0 {
                        0
                    } else {
                        page.len() - 1
                    };
                    self.extend_front(page);
                },
            }
        } else {
            index -= 1;
        }
        self.select(index)
    }

    /// Tells which way `event` scrolls, if it does.
    pub fn scroll_direction(event: &Event) -> (r: Option<PageDirection>)
        ensures
            r == scroll_of_event(*event),
    {
        Self::scroll_of(event)
    }

    /// Tells which page has to be fetched before `event` can be handled:
    /// the next one for a step down from the last post, the previous one
    /// for a step up from the first, none otherwise.
    pub fn page_needed(&self, event: &Event) -> (r: Option<PageDirection>)
        ensures
            r == page_needed_spec(self@, *event),
    {
        let index = self.get_list_index();
        match Self::scroll_of(event) {
            Some(PageDirection::Next) => {
                if index >= self.items.len() || index + 1 >= self.items.len() {
                    Some(PageDirection::Next)
                } else {
                    None
                }
            },
            Some(PageDirection::Prev) => {
                if index == 0 {
                    Some(PageDirection::Prev)
                } else {
                    None
                }
            },
            None => None,
        }
    }

    fn scroll_of(event: &Event) -> (r: Option<PageDirection>)
        ensures
            r == scroll_of_event(*event),
    {
        match event {
            Event::Crossterm(TerminalEvent::Key(key)) => {
                if !key.unmodified {
                    return None;
                }
                match key.code {
                    KeyCode::Char(c) => {
                        if c == 'j' {
                            Some(PageDirection::Next)
                        } else if c == 'k' {
                            Some(PageDirection::Prev)
                        } else {
                            None
                        }
                    },
                    _ => None,
                }
            },
            _ => None,
        }
    }

    /// Handles a key press: `j` and `k` scroll, with `fetched` as the page
    /// that [`Home::page_needed`] asked for, and every other key is ignored.
    pub fn handle_key(&mut self, key: &KeyPress, fetched: PageFetch) -> (r: Result<
        Outcome,
        HomeError,
    >)
        requires
            scroll_of_key(*key) == Some(PageDirection::Next) ==> old(self)@.index() < usize::MAX,
        ensures
            (final(self)@, r) == handle_key_spec(old(self)@, *key, fetched),
    {
        let event = Event::Crossterm(TerminalEvent::Key(*key));
        match Self::scroll_of(&event) {
            Some(PageDirection::Next) => {
                match self.scroll_down(fetched) {
                    Ok(_) => Ok(Outcome::Handled),
                    Err(e) => Err(e),
                }
            },
            Some(PageDirection::Prev) => {
                match self.scroll_up(fetched) {
                    Ok(_) => Ok(Outcome::Handled),
                    Err(e) => Err(e),
                }
            },
            None => Ok(Outcome::Ignored),
        }
    }

    /// Handles an event: a key press as [`Home::handle_key`] does, and
    /// nothing else.
    pub fn handle_event(&mut self, event: &Event, fetched: PageFetch) -> (r: Result<
        Outcome,
        HomeError,
    >)
        requires
            scroll_of_event(*event) == Some(PageDirection::Next) ==> old(self)@.index()
                < usize::MAX,
        ensures
            match *event {
                Event::Crossterm(TerminalEvent::Key(key)) => (final(self)@, r) == handle_key_spec(
                    old(self)@,
                    key,
                    fetched,
                ),
                _ => final(self)@ == old(self)@ && r == Ok::<Outcome, HomeError>(Outcome::Ignored),
            },
    {
        match event {
            Event::Crossterm(TerminalEvent::Key(key)) => self.handle_key(key, fetched),
            _ => Ok(Outcome::Ignored),
        }
    }

    /// The title: the account the timeline belongs to.
    pub fn title(&self) -> (r: &str)
        ensures
            r@ == self@.title,
    {
        self.title.as_str()
    }

    /// The status line: the address of the selected post.
    pub fn status(&self) -> (r: &str)
        ensures
            r@ == self@.status,
    {
        self.status.as_str()
    }

    /// The number of loaded posts.
    pub fn len(&self) -> (r: usize)
        ensures
            r == self@.items.len(),
    {
        self.items.len()
    }

    /// The loaded post at `index`, if there is one.
    pub fn item(&self, index: usize) -> (r: Option<&Toot>)
        ensures
            index < self@.items.len() ==> r == Some(&self@.items[index as int]),
            index >= self@.items.len() ==> r.is_none(),
    {
        if index < self.items.len() {
            Some(&self.items[index])
        } else {
            None
        }
    }
}

} // verus!
