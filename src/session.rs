//! The reading session: which page is shown, how far it is scrolled, and which
//! popup is open, driven by key presses.

use vstd::prelude::*;
use vstd::string::StringExecFns;
use crate::progress::ProgressMap;
use crate::metadata::{MetadataField, fields_view, format_metadata, metadata_text, close_hint};
use crate::text::{lines_of, strings_view, visible_lines, window, count_words, decimal, reading_seconds, reading_time_seconds, u128_to_decimal, word_count};

verus! {

broadcast use vstd::string::group_string_axioms;

/// The popup drawn above the page, if any.
#[derive(Debug)]
pub enum Overlay {
    Hidden,
    /// The reading-time estimate for the current page.
    ReadingTime(String),
    /// The document's metadata.
    Metadata(String),
}

/// The plain value of an [`Overlay`].
pub enum OverlayState {
    Hidden,
    ReadingTime(Seq<char>),
    Metadata(Seq<char>),
}

impl View for Overlay {
    type V = OverlayState;

    open spec fn view(&self) -> OverlayState {
        match self {
            Overlay::Hidden => OverlayState::Hidden,
            Overlay::ReadingTime(t) => OverlayState::ReadingTime(t@),
            Overlay::Metadata(t) => OverlayState::Metadata(t@),
        }
    }
}

/// A key the session reacts to (others are `Other`).
#[derive(Debug, Clone, Copy, PartialEq, Eq)]
pub enum Key {
    Left,
    Right,
    Up,
    Down,
    Char(char),
    Other,
}

/// The plain value of a session.
pub struct ReaderState {
    /// The text of every page.
    pub pages: Seq<Seq<char>>,
    /// The page shown, 0-based.
    pub page: nat,
    /// How many lines of the page are scrolled past.
    pub scroll_offset: nat,
    pub words_per_minute: nat,
    pub overlay: OverlayState,
    pub metadata: Seq<(Seq<char>, Seq<Seq<char>>)>,
    /// Whether the session has been asked to end.
    pub exit: bool,
}

impl ReaderState {
    /// The session's invariant: some page exists and the page shown is one of
    /// them, and the reading speed is positive.
    pub open spec fn wf(self) -> bool {
        &&& self.pages.len() > 0
        &&& self.page < self.pages.len()
        &&& self.words_per_minute > 0
    }

    /// The text of the page shown.
    pub open spec fn current_text(self) -> Seq<char> {
        self.pages[self.page as int]
    }
}

/// The page to resume at: the saved page if there is one, moved into range.
pub open spec fn resumed_page(saved: Option<u64>, page_count: nat) -> nat
    recommends
        page_count > 0,
{
    match saved {
        Some(p) => if p < page_count {
            p as nat
        } else {
            (page_count - 1) as nat
        },
        None => 0,
    }
}

/// The text of the reading-time popup.
pub open spec fn reading_time_message(seconds: nat, wpm: nat) -> Seq<char> {
    "Estimated reading time: "@ + decimal(seconds) + " seconds (WPM: "@ + decimal(wpm) + ")\n\n"@
        + close_hint()
}

/// The estimated reading time, in seconds, of the page shown.
pub open spec fn reading_time_of(s: ReaderState) -> nat {
    reading_seconds(word_count(s.current_text()), s.words_per_minute)
}

/// Goes one page forward unless on the last page; the new page is shown from its top.
pub open spec fn next_page_step(s: ReaderState) -> ReaderState {
    if s.page + 1 >= s.pages.len() {
        s
    } else {
        ReaderState { page: s.page + 1, scroll_offset: 0, ..s }
    }
}

/// Goes one page back unless on the first page; the new page is shown from its top.
pub open spec fn previous_page_step(s: ReaderState) -> ReaderState {
    if s.page == 0 {
        s
    } else {
        ReaderState { page: (s.page - 1) as nat, scroll_offset: 0, ..s }
    }
}

/// Scrolls one line up unless at the top.
pub open spec fn scroll_up_step(s: ReaderState) -> ReaderState {
    if s.scroll_offset == 0 {
        s
    } else {
        ReaderState { scroll_offset: (s.scroll_offset - 1) as nat, ..s }
    }
}

/// Scrolls one line down.
pub open spec fn scroll_down_step(s: ReaderState) -> ReaderState {
    ReaderState { scroll_offset: s.scroll_offset + 1, ..s }
}

/// Opens the reading-time popup for the page shown.
pub open spec fn show_reading_time_step(s: ReaderState) -> ReaderState {
    ReaderState {
        overlay: OverlayState::ReadingTime(
            reading_time_message(reading_time_of(s), s.words_per_minute),
        ),
        ..s
    }
}

/// Opens the metadata popup.
pub open spec fn show_metadata_step(s: ReaderState) -> ReaderState {
    ReaderState { overlay: OverlayState::Metadata(metadata_text(s.metadata)), ..s }
}

/// Closes whichever popup is open.
pub open spec fn close_overlay_step(s: ReaderState) -> ReaderState {
    ReaderState { overlay: OverlayState::Hidden, ..s }
}

/// Asks the session to end.
pub open spec fn exit_step(s: ReaderState) -> ReaderState {
    ReaderState { exit: true, ..s }
}

/// The effect of pressing `key`.
pub open spec fn key_step(s: ReaderState, key: Key) -> ReaderState {
    match key {
        Key::Char('q') => exit_step(s),
        Key::Left => previous_page_step(s),
        Key::Right => next_page_step(s),
        Key::Up => scroll_up_step(s),
        Key::Down => scroll_down_step(s),
        Key::Char('s') => show_reading_time_step(s),
        Key::Char('c') => close_overlay_step(s),
        Key::Char('m') => show_metadata_step(s),
        _ => s,
    }
}

/// A reading session over the pages of one document.
pub struct App {
    content: Vec<String>,
    page: usize,
    scroll_offset: usize,
    wpm: u16,
    overlay: Overlay,
    metadata: Vec<MetadataField>,
    exit: bool,
}

impl View for App {
    type V = ReaderState;

    closed spec fn view(&self) -> ReaderState {
        ReaderState {
            pages: self.content@.map_values(|t: String| t@),
            page: self.page as nat,
            scroll_offset: self.scroll_offset as nat,
            words_per_minute: self.wpm as nat,
            overlay: self.overlay@,
            metadata: fields_view(self.metadata@),
            exit: self.exit,
        }
    }
}

/// The page to resume at, from the saved page if any: a saved page beyond the
/// document's end gives its last page.
pub fn resume_page(saved: Option<u64>, page_count: usize) -> (r: usize)
    requires
        page_count > 0,
    ensures
        r == resumed_page(saved, page_count as nat),
        r < page_count,
{
    match saved {
        Some(p) => if p < page_count as u64 {
            p as usize
        } else {
            page_count - 1
        },
        None => 0,
    }
}

impl App {
    /// Starts a session over `pages` at the saved page (clamped into range), or
    /// at the first page, scrolled to the top, with no popup.
    pub fn new(
        pages: Vec<String>,
        metadata: Vec<MetadataField>,
        words_per_minute: u16,
        saved_page: Option<u64>,
    ) -> (r: App)
        requires
            pages@.len() > 0,
            words_per_minute > 0,
        ensures
            r@.wf(),
            r@.pages == pages@.map_values(|t: String| t@),
            r@.page == resumed_page(saved_page, pages@.len()),
            r@.scroll_offset == 0,
            r@.words_per_minute == words_per_minute,
            r@.overlay == OverlayState::Hidden,
            r@.metadata == fields_view(metadata@),
            !r@.exit,
    {
        let page = resume_page(saved_page, pages.len());
        App {
            content: pages,
            page,
            scroll_offset: 0,
            wpm: words_per_minute,
            overlay: Overlay::Hidden,
            metadata,
            exit: false,
        }
    }

    /// The page shown, 0-based.
    pub fn page(&self) -> (r: usize)
        ensures
            r == self@.page,
    {
        self.page
    }

    /// The number of pages.
    pub fn page_count(&self) -> (r: usize)
        ensures
            r == self@.pages.len(),
    {
        self.content.len()
    }

    /// How many lines of the page are scrolled past.
    pub fn scroll_offset(&self) -> (r: usize)
        ensures
            r == self@.scroll_offset,
    {
        self.scroll_offset
    }

    /// The reading speed, in words per minute.
    pub fn words_per_minute(&self) -> (r: u16)
        ensures
            r == self@.words_per_minute,
    {
        self.wpm
    }

    /// The popup drawn above the page.
    pub fn overlay(&self) -> (r: &Overlay)
        ensures
            r@ == self@.overlay,
    {
        &self.overlay
    }

    /// Whether the session has been asked to end.
    pub fn should_exit(&self) -> (r: bool)
        ensures
            r == self@.exit,
    {
        self.exit
    }

    /// The text of the page shown.
    pub fn text(&self) -> (r: &String)
        requires
            self@.wf(),
        ensures
            r@ == self@.current_text(),
    {
        &self.content[self.page]
    }

    /// The lines of the page shown that a viewport of `height` lines holds,
    /// starting at the scroll position.
    pub fn visible_lines(&self, height: usize) -> (r: Vec<String>)
        requires
            self@.wf(),
        ensures
            strings_view(r@) == window(
                lines_of(self@.current_text()),
                self@.scroll_offset,
                height as nat,
            ),
    {
        visible_lines(self.content[self.page].as_str(), self.scroll_offset, height)
    }

    /// Ends the session after the next save of the progress.
    pub fn exit(&mut self)
        ensures
            final(self)@ == exit_step(old(self)@),
    {
        self.exit = true;
    }

    /// Goes to the next page, from its top; nothing happens on the last page.
    pub fn next_page(&mut self)
        requires
            old(self)@.wf(),
        ensures
            final(self)@ == next_page_step(old(self)@),
            final(self)@.wf(),
    {
        let page_count = self.content.len();
        if self.page + 1 < page_count {
            self.page = self.page + 1;
            self.scroll_offset = 0;
        }
    }

    /// Goes to the previous page, from its top; nothing happens on the first page.
    pub fn previous_page(&mut self)
        requires
            old(self)@.wf(),
        ensures
            final(self)@ == previous_page_step(old(self)@),
            final(self)@.wf(),
    {
        if self.page != 0 {
            self.page = self.page - 1;
            self.scroll_offset = 0;
        }
    }

    /// Scrolls one line up; nothing happens at the top.
    pub fn scroll_up(&mut self)
        ensures
            final(self)@ == scroll_up_step(old(self)@),
    {
        if self.scroll_offset > 0 {
            self.scroll_offset = self.scroll_offset - 1;
        }
    }

    /// Scrolls one line down. There is no lower bound: past the page's end the
    /// view is empty, and scrolling up brings the text back.
    pub fn scroll_down(&mut self)
        requires
            old(self)@.scroll_offset < usize::MAX,
        ensures
            final(self)@ == scroll_down_step(old(self)@),
    {
        self.scroll_offset = self.scroll_offset + 1;
    }

    /// The estimated reading time of the page shown, in seconds rounded up.
    pub fn calculate_reading_time(&self) -> (r: u128)
        requires
            self@.wf(),
        ensures
            r == reading_time_of(self@),
    {
        let words = count_words(self.content[self.page].as_str());
        reading_time_seconds(words, self.wpm)
    }

    /// Opens the reading-time popup for the page shown.
    pub fn show_reading_time(&mut self)
        requires
            old(self)@.wf(),
        ensures
            final(self)@ == show_reading_time_step(old(self)@),
    {
        let seconds = self.calculate_reading_time();
        let mut message = String::from_str("Estimated reading time: ");
        message.append(u128_to_decimal(seconds).as_str());
        message.append(" seconds (WPM: ");
        message.append(u128_to_decimal(self.wpm as u128).as_str());
        message.append(")\n\n");
        message.append("Press <C> to close pop-up!");
        self.overlay = Overlay::ReadingTime(message);
    }

    /// The document's metadata, one field per line.
    pub fn format_metadata(&self) -> (r: String)
        ensures
            r@ == metadata_text(self@.metadata),
    {
        format_metadata(&self.metadata)
    }

    /// Opens the metadata popup.
    pub fn show_metadata(&mut self)
        ensures
            final(self)@ == show_metadata_step(old(self)@),
    {
        let text = self.format_metadata();
        self.overlay = Overlay::Metadata(text);
    }

    /// Closes whichever popup is open.
    pub fn close_overlay(&mut self)
        ensures
            final(self)@ == close_overlay_step(old(self)@),
    {
        self.overlay = Overlay::Hidden;
    }

    /// Reacts to one key press: arrows move between pages and scroll, `s` and
    /// `m` open the reading-time and metadata popups, `c` closes them, `q` quits.
    pub fn handle_key_event(&mut self, key: Key)
        requires
            old(self)@.wf(),
            key == Key::Down ==> old(self)@.scroll_offset < usize::MAX,
        ensures
            final(self)@ == key_step(old(self)@, key),
            final(self)@.wf(),
    {
        match key {
            Key::Char('q') => self.exit(),
            Key::Left => self.previous_page(),
            Key::Right => self.next_page(),
            Key::Up => self.scroll_up(),
            Key::Down => self.scroll_down(),
            Key::Char('s') => self.show_reading_time(),
            Key::Char('c') => self.close_overlay(),
            Key::Char('m') => self.show_metadata(),
            _ => {},
        }
    }

    /// Records the page shown as the last page read of the document at `path`.
    pub fn record_progress(&self, progress: &mut ProgressMap, path: &String)
        ensures
            final(progress)@ == old(progress)@.insert(path@, self@.page as u64),
    {
        progress.set(path.clone(), self.page as u64);
    }
}

/// Going to the next page and back again, from a page that is neither the first
/// nor the last, returns to that page, and each move shows its page from the top.
pub proof fn lemma_next_then_previous(s: ReaderState)
    requires
        s.wf(),
        0 < s.page < s.pages.len() - 1,
    ensures
        next_page_step(s).page == s.page + 1,
        next_page_step(s).scroll_offset == 0,
        previous_page_step(next_page_step(s)).page == s.page,
        previous_page_step(next_page_step(s)).scroll_offset == 0,
        next_page_step(s).wf(),
{
}

/// On the last page, going to the next page changes nothing, the scroll
/// position included.
pub proof fn lemma_next_on_last_page(s: ReaderState)
    requires
        s.wf(),
        s.page == s.pages.len() - 1,
    ensures
        next_page_step(s) == s,
{
}

/// On the first page, going to the previous page changes nothing.
pub proof fn lemma_previous_on_first_page(s: ReaderState)
    requires
        s.page == 0,
    ensures
        previous_page_step(s) == s,
{
}

/// Scrolling up at the top changes nothing; scrolling down always moves one
/// line down and changes nothing else.
pub proof fn lemma_scroll(s: ReaderState)
    ensures
        s.scroll_offset == 0 ==> scroll_up_step(s) == s,
        scroll_down_step(s).scroll_offset == s.scroll_offset + 1,
        scroll_down_step(s) == (ReaderState { scroll_offset: s.scroll_offset + 1, ..s }),
{
}

/// Opening the reading-time popup and then closing it leaves no popup open,
/// and leaves the rest of the session as it was.
pub proof fn lemma_reading_time_then_close(s: ReaderState)
    ensures
        close_overlay_step(show_reading_time_step(s)).overlay == OverlayState::Hidden,
        close_overlay_step(show_reading_time_step(s)) == close_overlay_step(s),
{
}

/// A page of as many words as are read in a minute takes sixty seconds to read.
pub proof fn lemma_one_minute_page(s: ReaderState)
    requires
        s.words_per_minute > 0,
        word_count(s.current_text()) == s.words_per_minute,
    ensures
        reading_time_of(s) == 60,
{
    lemma_reading_time_rounding(1, s.words_per_minute);
}

/// A page of exactly `k` minutes' worth of words takes `60 * k` seconds; one word
/// more takes `60 * k` seconds plus the seconds of one word, rounded up.
pub proof fn lemma_reading_time_rounding(k: nat, wpm: nat)
    requires
        wpm > 0,
    ensures
        reading_seconds(k * wpm, wpm) == 60 * k,
        reading_seconds(k * wpm + 1, wpm) == 60 * k + reading_seconds(1, wpm),
{
    assert((k * wpm * 60 + wpm - 1) == (60 * k) * wpm + (wpm - 1)) by (nonlinear_arith);
    vstd::arithmetic::div_mod::lemma_fundamental_div_mod_converse(
        (k * wpm * 60 + wpm - 1) as int,
        wpm as int,
        (60 * k) as int,
        (wpm - 1) as int,
    );
    let q = (60 + wpm - 1) / wpm as int;
    let rem = (60 + wpm - 1) % wpm as int;
    vstd::arithmetic::div_mod::lemma_fundamental_div_mod((60 + wpm - 1) as int, wpm as int);
    assert(((k * wpm + 1) * 60 + wpm - 1) == (60 * k + q) * wpm + rem) by (nonlinear_arith)
        requires
            (60 + wpm - 1) == q * wpm + rem,
    ;
    vstd::arithmetic::div_mod::lemma_fundamental_div_mod_converse(
        ((k * wpm + 1) * 60 + wpm - 1) as int,
        wpm as int,
        (60 * k + q) as int,
        rem,
    );
}

} // verus!
