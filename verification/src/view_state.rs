//! The state behind the terminal views: the selection in a list, the list of
//! media with their query statuses, the loading icon, the counts shown beside
//! the list, the last messages of a catalog build, and what a key does.
use vstd::prelude::*;
use std::sync::Arc;

use crate::api_client::QueryStatus;
use crate::api_manifest::{answered_movie_keys, answered_show_keys, ApiManifest};
use crate::item_table::{item_key, ItemKind};
use crate::catalog::{movie_items, movie_keys, reordered, share, show_items, show_keys, Catalog};
use crate::sorting::is_stable_order;
use crate::media_item::MediaItem;
use crate::text::{decimal_digits, extend_str, push_decimal, string_from_chars};

verus! {

// ---------------------------------------------------------------------------
// Selection in a list
// ---------------------------------------------------------------------------

/// The selection of a list and its scroll offset, with the moves of
/// `ratatui::widgets::ListState`. The selection is not bounded by the list's
/// length here; drawing clamps it.
#[derive(Debug, Clone, Copy, PartialEq, Eq, Structural)]
pub struct ListCursor {
    pub offset: usize,
    pub selected: Option<usize>,
}

impl ListCursor {
    pub fn new() -> (res: Self)
        ensures
            res.offset == 0,
            res.selected is None,
    {
        ListCursor { offset: 0, selected: None }
    }

    /// Selects `index`; clearing the selection also resets the offset.
    pub fn select(&mut self, index: Option<usize>)
        ensures
            final(self).selected == index,
            final(self).offset == if index is None {
                0
            } else {
                old(self).offset
            },
    {
        self.selected = index;
        if index.is_none() {
            self.offset = 0;
        }
    }

    /// The next item, or the first when none is selected.
    pub fn select_next(&mut self)
        ensures
            final(self).selected == Some(
                match old(self).selected {
                    Some(i) => if i == usize::MAX {
                        i
                    } else {
                        (i + 1) as usize
                    },
                    None => 0usize,
                },
            ),
            final(self).offset == old(self).offset,
    {
        let next = match self.selected {
            Some(i) => i.saturating_add(1),
            None => 0,
        };
        self.select(Some(next));
    }

    /// The previous item, or the last when none is selected.
    pub fn select_previous(&mut self)
        ensures
            final(self).selected == Some(
                match old(self).selected {
                    Some(i) => if i == 0 {
                        0usize
                    } else {
                        (i - 1) as usize
                    },
                    None => usize::MAX,
                },
            ),
            final(self).offset == old(self).offset,
    {
        let previous = match self.selected {
            Some(i) => i.saturating_sub(1),
            None => usize::MAX,
        };
        self.select(Some(previous));
    }

    /// Moves the selection down by `amount` (from the first item when none is
    /// selected), stopping at the largest index.
    pub fn scroll_down_by(&mut self, amount: u16)
        ensures
            final(self).selected == Some(
                {
                    let s = match old(self).selected {
                        Some(i) => i as int,
                        None => 0,
                    };
                    if s + amount > usize::MAX {
                        usize::MAX
                    } else {
                        (s + amount) as usize
                    }
                },
            ),
            final(self).offset == old(self).offset,
    {
        let selected = match self.selected {
            Some(i) => i,
            None => 0,
        };
        self.select(Some(selected.saturating_add(amount as usize)));
    }

    /// Moves the selection up by `amount` (from the first item when none is
    /// selected), stopping at the first.
    pub fn scroll_up_by(&mut self, amount: u16)
        ensures
            final(self).selected == Some(
                {
                    let s = match old(self).selected {
                        Some(i) => i as int,
                        None => 0,
                    };
                    if s < amount {
                        0usize
                    } else {
                        (s - amount) as usize
                    }
                },
            ),
            final(self).offset == old(self).offset,
    {
        let selected = match self.selected {
            Some(i) => i,
            None => 0,
        };
        self.select(Some(selected.saturating_sub(amount as usize)));
    }
}

// ---------------------------------------------------------------------------
// The list of media
// ---------------------------------------------------------------------------

/// A media item with the status of its query.
pub struct MediaListItem {
    pub inner: MediaItem,
    pub status: Arc<QueryStatus>,
}

/// The media of a catalog as a list with a selection.
pub struct MediaList {
    pub inner: Vec<MediaListItem>,
    pub cursor: ListCursor,
    /// The height of the area the list was last drawn in.
    pub height: Option<u16>,
}

/// A second handle to the same media item.
pub fn duplicate_item(item: &MediaItem) -> (res: MediaItem)
    ensures
        res == *item,
{
    match item {
        MediaItem::Movie(m) => MediaItem::Movie(share(m)),
        MediaItem::Show(s) => MediaItem::Show(share(s)),
        MediaItem::Episode(e) => MediaItem::Episode(share(e)),
    }
}

/// `status` is what the results hold for `item`, or `NotStarted` when they
/// hold nothing for it.
pub open spec fn listed_status(
    results: Map<(ItemKind, u64, Seq<char>), Arc<QueryStatus>>,
    item: MediaItem,
    status: Arc<QueryStatus>,
) -> bool {
    if results.contains_key(item_key(item)) {
        status == results[item_key(item)]
    } else {
        status == QueryStatus::NotStarted
    }
}

/// `after` is the list `before` filled with the catalog's movies and then its
/// shows, each group sorted (stably) by the titles the recorded answers found,
/// else by search term, each item with its recorded status or `NotStarted`;
/// its selection stays, or is the first item when there was none.
pub open spec fn media_list_updated(
    before: MediaList,
    after: MediaList,
    catalog: Catalog,
    results: Map<(ItemKind, u64, Seq<char>), Arc<QueryStatus>>,
) -> bool {
    &&& exists|mo: Seq<usize>, so: Seq<usize>|
        #![trigger is_stable_order(answered_movie_keys(catalog.movies@, results), mo), is_stable_order(answered_show_keys(catalog.shows@, results), so)]
        is_stable_order(answered_movie_keys(catalog.movies@, results), mo) && is_stable_order(
            answered_show_keys(catalog.shows@, results),
            so,
        ) && after.inner@.map_values(|x: MediaListItem| x.inner) == movie_items(
            reordered(catalog.movies@, mo),
        ) + show_items(reordered(catalog.shows@, so))
    &&& forall|i: int|
        0 <= i < after.inner@.len() ==> listed_status(
            results,
            (#[trigger] after.inner@[i]).inner,
            after.inner@[i].status,
        )
    &&& after.height == before.height
    &&& after.cursor == if before.cursor.selected is None && after.inner@.len() > 0 {
        ListCursor { offset: before.cursor.offset, selected: Some(0) }
    } else {
        before.cursor
    }
}

/// Fills the list with the catalog's movies and then its shows, each group
/// sorted (stably) by the titles the recorded answers found, else by search
/// term, each item with its recorded status or `NotStarted`.
pub fn update_media_list(list: &mut MediaList, catalog: &Catalog, manifest: &ApiManifest)
    ensures
        media_list_updated(*old(list), *final(list), *catalog, manifest@),
{
    let mt = manifest.movie_titles(&catalog.movies);
    let st = manifest.show_titles(&catalog.shows);
    assert(movie_keys(catalog.movies@, mt@) =~= answered_movie_keys(catalog.movies@, manifest@));
    assert(show_keys(catalog.shows@, st@) =~= answered_show_keys(catalog.shows@, manifest@));
    let sorted = catalog.iter_all_sorted(&mt, &st);
    let mut items: Vec<MediaListItem> = Vec::new();
    let mut i: usize = 0;
    while i < sorted.len()
        invariant
            i <= sorted@.len(),
            items@.len() == i,
            forall|j: int| 0 <= j < i ==> (#[trigger] items@[j]).inner == sorted@[j],
            forall|j: int| 0 <= j < i ==> listed_status(manifest@, (#[trigger] items@[j]).inner, items@[j].status),
        decreases sorted.len() - i,
    {
        let status = match manifest.get(&sorted[i]) {
            Some(s) => share(s),
            None => Arc::new(QueryStatus::NotStarted),
        };
        items.push(MediaListItem { inner: duplicate_item(&sorted[i]), status });
        i = i + 1;
    }
    assert(items@.map_values(|x: MediaListItem| x.inner) =~= sorted@);
    list.update_list(items);
}

/// Half the height of the drawn area (nothing before the first drawing).
pub open spec fn half_height(h: Option<u16>) -> u16 {
    match h {
        Some(v) => (v / 2) as u16,
        None => 0,
    }
}

/// The selection after moving down in a list of `len` items: the next item,
/// unless the last is selected; the first when none is.
pub open spec fn list_next(sel: Option<usize>, len: nat) -> Option<usize> {
    match sel {
        Some(i) => if i < len - 1 {
            Some((i + 1) as usize)
        } else {
            Some(i)
        },
        None => Some(0usize),
    }
}

/// The selection after moving up: the previous item, unless the first is
/// selected; the first when none is.
pub open spec fn list_previous(sel: Option<usize>) -> Option<usize> {
    match sel {
        Some(i) => if i >= 1 {
            Some((i - 1) as usize)
        } else {
            Some(i)
        },
        None => Some(0usize),
    }
}

/// Away from the ends of a list, moving down and back up returns to the
/// selected item, and so does moving up and back down.
pub proof fn lemma_list_moves_undo(i: usize, len: nat)
    requires
        len <= usize::MAX,
    ensures
        i + 1 < len ==> list_previous(list_next(Some(i), len)) == Some(i),
        1 <= i < len ==> list_next(list_previous(Some(i)), len) == Some(i),
{
}

impl MediaList {
    pub fn new() -> (res: Self)
        ensures
            res.inner@.len() == 0,
            res.cursor == (ListCursor { offset: 0, selected: None }),
            res.height is None,
    {
        MediaList { inner: Vec::new(), cursor: ListCursor { offset: 0, selected: None }, height: None }
    }

    /// The list with the given selection.
    pub fn with_state(self, state: ListCursor) -> (res: Self)
        ensures
            res.cursor == state,
            res.inner@ == self.inner@,
            res.height == self.height,
    {
        let mut out = self;
        out.cursor = state;
        out
    }

    /// Replaces the items. A selection that still points into the list stays;
    /// without one, the first item is selected if there is any.
    pub fn update_list(&mut self, new: Vec<MediaListItem>)
        ensures
            final(self).inner@ == new@,
            final(self).height == old(self).height,
            final(self).cursor == if old(self).cursor.selected is None && new@.len() > 0 {
                ListCursor { offset: old(self).cursor.offset, selected: Some(0) }
            } else {
                old(self).cursor
            },
    {
        match self.cursor.selected {
            Some(i) => {
                if i < new.len() {
                    self.cursor.select(Some(i));
                }
            },
            None => {
                if new.len() > 0 {
                    self.cursor.select(Some(0));
                }
            },
        }
        self.inner = new;
    }

    /// The next item, unless the last is selected; the first when none is.
    pub fn select_next(&mut self)
        requires
            old(self).cursor.selected is Some ==> old(self).inner@.len() > 0,
        ensures
            final(self).inner@ == old(self).inner@,
            final(self).height == old(self).height,
            final(self).cursor.offset == old(self).cursor.offset,
            final(self).cursor.selected == list_next(old(self).cursor.selected, old(self).inner@.len()),
    {
        match self.cursor.selected {
            Some(index) => {
                if index < self.inner.len() - 1 {
                    self.cursor.select_next();
                }
            },
            None => {
                self.cursor.select(Some(0));
            },
        }
    }

    /// The previous item, unless the first is selected; the first when none is.
    pub fn select_previous(&mut self)
        ensures
            final(self).inner@ == old(self).inner@,
            final(self).height == old(self).height,
            final(self).cursor.offset == old(self).cursor.offset,
            final(self).cursor.selected == list_previous(old(self).cursor.selected),
    {
        match self.cursor.selected {
            Some(index) => {
                if index >= 1 {
                    self.cursor.select_previous();
                }
            },
            None => {
                self.cursor.select(Some(0));
            },
        }
    }

    /// Down by half the drawn height, unless the last item is selected; with
    /// no selection, the item half the height down.
    pub fn half_down(&mut self)
        requires
            old(self).cursor.selected is Some ==> old(self).inner@.len() > 0,
        ensures
            final(self).inner@ == old(self).inner@,
            final(self).height == old(self).height,
            final(self).cursor.offset == old(self).cursor.offset,
            final(self).cursor.selected == half_down_selection(
                old(self).cursor.selected,
                old(self).inner@.len(),
                old(self).height,
            ),
    {
        let height: u16 = match self.height {
            Some(h) => h,
            None => 0,
        };
        match self.cursor.selected {
            Some(index) => {
                if index < self.inner.len() - 1 {
                    self.cursor.scroll_down_by(height / 2);
                }
            },
            None => {
                self.cursor.select(Some((height / 2) as usize));
            },
        }
    }

    /// Up by half the drawn height, unless the first item is selected; with
    /// no selection, the item half the height down.
    pub fn half_up(&mut self)
        ensures
            final(self).inner@ == old(self).inner@,
            final(self).height == old(self).height,
            final(self).cursor.offset == old(self).cursor.offset,
            final(self).cursor.selected == half_up_selection(old(self).cursor.selected, old(self).height),
    {
        let height: u16 = match self.height {
            Some(h) => h,
            None => 0,
        };
        match self.cursor.selected {
            Some(index) => {
                if index >= 1 {
                    self.cursor.scroll_up_by(height / 2);
                }
            },
            None => {
                self.cursor.select(Some((height / 2) as usize));
            },
        }
    }

    /// Selects the first item.
    pub fn goto_top(&mut self)
        ensures
            final(self).inner@ == old(self).inner@,
            final(self).height == old(self).height,
            final(self).cursor == (ListCursor { offset: old(self).cursor.offset, selected: Some(0) }),
    {
        self.cursor.select(Some(0));
    }

    /// Selects one past the last item; drawing clamps it to the last.
    pub fn goto_bottom(&mut self)
        ensures
            final(self).inner@ == old(self).inner@,
            final(self).height == old(self).height,
            final(self).cursor == (ListCursor {
                offset: old(self).cursor.offset,
                selected: Some(old(self).inner@.len() as usize),
            }),
    {
        let n = self.inner.len();
        self.cursor.select(Some(n));
    }

    /// The selected media item, if the selection points into the list.
    pub open spec fn selected_item(self) -> Option<MediaItem> {
        match self.cursor.selected {
            Some(i) => if i < self.inner@.len() {
                Some(self.inner@[i as int].inner)
            } else {
                None
            },
            None => None,
        }
    }

    /// The selected media item, if the selection points into the list.
    pub fn get_selected(&self) -> (res: Option<MediaItem>)
        ensures
            res == self.selected_item(),
            match self.cursor.selected {
                Some(i) => if i < self.inner@.len() {
                    res == Some(self.inner@[i as int].inner)
                } else {
                    res is None
                },
                None => res is None,
            },
    {
        match self.cursor.selected {
            Some(i) => {
                if i < self.inner.len() {
                    Some(duplicate_item(&self.inner[i].inner))
                } else {
                    None
                }
            },
            None => None,
        }
    }

    /// Records the height of the area the list was drawn in.
    pub fn set_height(&mut self, height: u16)
        ensures
            final(self).height == Some(height),
            final(self).inner@ == old(self).inner@,
            final(self).cursor == old(self).cursor,
    {
        self.height = Some(height);
    }
}

// ---------------------------------------------------------------------------
// The loading icon
// ---------------------------------------------------------------------------

/// The frames of the loading icon, in order.
pub open spec fn braille_frame(i: int) -> char {
    if i == 0 {
        '⠇'
    } else if i == 1 {
        '⠋'
    } else if i == 2 {
        '⠙'
    } else if i == 3 {
        '⠸'
    } else if i == 4 {
        '⢰'
    } else if i == 5 {
        '⣠'
    } else if i == 6 {
        '⣄'
    } else {
        '⡆'
    }
}

/// `std::time::Instant::now`: the current instant. Nothing is stated of it.
#[verifier::external_body]
fn instant_now() -> (res: std::time::Instant) {
    std::time::Instant::now()
}

/// `Instant::duration_since` in whole milliseconds: how long after `earlier`
/// the instant `later` is (zero if it is before). Nothing is stated of it:
/// it depends on the clock.
#[verifier::external_body]
fn millis_between(earlier: &std::time::Instant, later: &std::time::Instant) -> (res: u128) {
    later.duration_since(*earlier).as_millis()
}

/// The frame reached from frame `i` after `n` steps.
pub open spec fn frame_after_steps(i: int, n: nat) -> int
    decreases n,
{
    if n == 0 {
        i
    } else {
        (frame_after_steps(i, (n - 1) as nat) + 1) % 8
    }
}

/// Eight steps of the loading icon bring it back to the frame it started on.
pub proof fn lemma_eight_steps_return(i: int)
    requires
        0 <= i < 8,
    ensures
        frame_after_steps(i, 8) == i,
{
    reveal_with_fuel(frame_after_steps, 9);
}

/// An icon that turns through eight frames, at most one step per tenth of a
/// second.
pub struct BrailleLoadingIcon {
    index: usize,
    last: std::time::Instant,
}

impl BrailleLoadingIcon {
    #[verifier::type_invariant]
    spec fn inv(self) -> bool {
        self.index < 8
    }

    /// The frame shown.
    pub closed spec fn frame_index(self) -> int {
        self.index as int
    }

    /// When the icon last stepped (or was made).
    pub closed spec fn last_step(self) -> std::time::Instant {
        self.last
    }

    /// The first frame, now.
    pub fn default() -> (res: Self)
        ensures
            res.frame_index() == 0,
            0 <= res.frame_index() < 8,
    {
        BrailleLoadingIcon { index: 0, last: instant_now() }
    }

    /// Steps to the next frame when at least a tenth of a second has passed
    /// since the last step.
    pub fn tick_next(&mut self)
        ensures
            final(self).frame_index() == old(self).frame_index() && final(self).last_step() == old(
                self,
            ).last_step() || final(self).frame_index() == (old(self).frame_index() + 1) % 8,
            0 <= final(self).frame_index() < 8,
    {
        let now = instant_now();
        let elapsed = millis_between(&self.last, &now);
        self.tick_after(elapsed, now);
    }

    /// The step after `elapsed` milliseconds, at the instant `now`: none before
    /// a tenth of a second, else the next frame.
    pub fn tick_after(&mut self, elapsed: u128, now: std::time::Instant)
        ensures
            elapsed < 100 ==> final(self).frame_index() == old(self).frame_index()
                && final(self).last_step() == old(self).last_step(),
            elapsed >= 100 ==> final(self).frame_index() == (old(self).frame_index() + 1) % 8
                && final(self).last_step() == now,
            0 <= final(self).frame_index() < 8,
    {
        proof {
            use_type_invariant(&*self);
        }
        if elapsed < 100 {
            return ;
        }
        self.index = (self.index + 1) % 8;
        self.last = now;
    }

    /// The frame shown, as a character.
    pub fn frame(&self) -> (res: char)
        ensures
            res == braille_frame(self.frame_index()),
            0 <= self.frame_index() < 8,
    {
        proof {
            use_type_invariant(self);
        }
        match self.index {
            0 => '⠇',
            1 => '⠋',
            2 => '⠙',
            3 => '⠸',
            4 => '⢰',
            5 => '⣠',
            6 => '⣄',
            _ => '⡆',
        }
    }

    /// The frame shown, as text.
    pub fn to_string(&self) -> (res: String)
        ensures
            res@ == seq![braille_frame(self.frame_index())],
    {
        let mut v: Vec<char> = Vec::new();
        v.push(self.frame());
        string_from_chars(&v)
    }
}

/// A cursor that is drawn as a white cell when on, and not at all when off.
#[derive(Debug, Clone, Copy, PartialEq, Eq, Structural)]
pub struct Blinker {
    pub on: bool,
}

impl Blinker {
    /// Off.
    pub fn new() -> (res: Self)
        ensures
            !res.on,
    {
        Blinker { on: false }
    }

    /// What is drawn: a space (drawn white on white) when on, else nothing.
    pub fn text(&self) -> (res: &'static str)
        ensures
            self.on ==> res@ == " "@,
            !self.on ==> res@.len() == 0,
    {
        proof {
            reveal_strlit(" ");
            reveal_strlit("");
        }
        if self.on {
            " "
        } else {
            ""
        }
    }
}

// ---------------------------------------------------------------------------
// How an item shows in the list
// ---------------------------------------------------------------------------

/// The colour of a status label.
#[derive(Debug, Clone, Copy, PartialEq, Eq, Structural)]
pub enum LabelColor {
    Plain,
    Red,
    Green,
}

impl MediaListItem {
    /// The item's name in the list: the title found, else its raw label.
    pub fn name(&self) -> (res: String)
        requires
            self.inner.wf(),
        ensures
            match *self.status {
                QueryStatus::Success(r) => res@ == r.title@,
                _ => res@ == self.inner.raw_label_spec(),
            },
    {
        match &*self.status {
            QueryStatus::Success(response) => response.title.clone(),
            _ => self.inner.raw_media_label(),
        }
    }

    /// The item's name in the list, where it has one.
    pub fn try_name(&self) -> (res: Option<String>)
        ensures
            self.inner.wf() ==> (res matches Some(n) && match *self.status {
                QueryStatus::Success(r) => n@ == r.title@,
                _ => n@ == self.inner.raw_label_spec(),
            }),
            !self.inner.wf() ==> res is None,
    {
        if self.inner.is_labelled() {
            Some(self.name())
        } else {
            None
        }
    }

    /// The label of the item's query: `[Not Started]`, the loading icon while
    /// in progress, a red cross for a failure, a green tick for a success.
    pub fn status_label(&self, icon: &BrailleLoadingIcon) -> (res: (String, LabelColor))
        ensures
            match *self.status {
                QueryStatus::NotStarted => res.0@ == "[Not Started]"@ && res.1 == LabelColor::Plain,
                QueryStatus::InProgress => res.0@ == seq![braille_frame(icon.frame_index())]
                    && res.1 == LabelColor::Plain,
                QueryStatus::Failed(_) => res.0@ == "[ ✗ ]"@ && res.1 == LabelColor::Red,
                QueryStatus::Success(_) => res.0@ == "[ ✓ ]"@ && res.1 == LabelColor::Green,
            },
    {
        match &*self.status {
            QueryStatus::NotStarted => (String::from_str("[Not Started]"), LabelColor::Plain),
            QueryStatus::InProgress => (icon.to_string(), LabelColor::Plain),
            QueryStatus::Failed(_) => (String::from_str("[ ✗ ]"), LabelColor::Red),
            QueryStatus::Success(_) => (String::from_str("[ ✓ ]"), LabelColor::Green),
        }
    }
}

// ---------------------------------------------------------------------------
// The counts beside the list
// ---------------------------------------------------------------------------

/// How many of the statuses are successes.
pub open spec fn count_successes(s: Seq<Option<Arc<QueryStatus>>>) -> nat
    decreases s.len(),
{
    if s.len() == 0 {
        0
    } else {
        count_successes(s.drop_last()) + if s.last() matches Some(st) && *st is Success {
            1nat
        } else {
            0nat
        }
    }
}

/// How many of the statuses are failures.
pub open spec fn count_failures(s: Seq<Option<Arc<QueryStatus>>>) -> nat
    decreases s.len(),
{
    if s.len() == 0 {
        0
    } else {
        count_failures(s.drop_last()) + if s.last() matches Some(st) && *st is Failed {
            1nat
        } else {
            0nat
        }
    }
}

/// Successes and failures together never outnumber the items.
pub proof fn lemma_counts_bounded(s: Seq<Option<Arc<QueryStatus>>>)
    ensures
        count_successes(s) + count_failures(s) <= s.len(),
    decreases s.len(),
{
    if s.len() > 0 {
        lemma_counts_bounded(s.drop_last());
    }
}

/// The lines beside the list: `Successs: {s}/{total}` (green when all
/// succeeded) and `Failures: {f}/{total}` (red when any failed), for the
/// statuses of the catalog's items (`None` where an item has none yet).
pub fn catalog_info(statuses: &Vec<Option<Arc<QueryStatus>>>) -> (res: (String, bool, String, bool))
    ensures
        res.0@ == "Successs: "@ + decimal_digits(count_successes(statuses@)) + "/"@
            + decimal_digits(statuses@.len()),
        res.1 == (count_successes(statuses@) == statuses@.len()),
        res.2@ == "Failures: "@ + decimal_digits(count_failures(statuses@)) + "/"@
            + decimal_digits(statuses@.len()),
        res.3 == (count_failures(statuses@) > 0),
{
    let mut successes: usize = 0;
    let mut failures: usize = 0;
    let mut i: usize = 0;
    while i < statuses.len()
        invariant
            i <= statuses@.len(),
            successes == count_successes(statuses@.subrange(0, i as int)),
            failures == count_failures(statuses@.subrange(0, i as int)),
        decreases statuses.len() - i,
    {
        proof {
            assert(statuses@.subrange(0, i + 1).drop_last() =~= statuses@.subrange(0, i as int));
            lemma_counts_bounded(statuses@.subrange(0, i + 1));
        }
        match &statuses[i] {
            Some(st) => match &**st {
                QueryStatus::Success(_) => {
                    successes = successes + 1;
                },
                QueryStatus::Failed(_) => {
                    failures = failures + 1;
                },
                _ => {},
            },
            None => {},
        }
        i = i + 1;
    }
    proof {
        assert(statuses@.subrange(0, i as int) =~= statuses@);
    }
    let total = statuses.len();
    (
        count_line("Successs: ", successes, total),
        successes == total,
        count_line("Failures: ", failures, total),
        failures > 0,
    )
}

fn count_line(label: &str, n: usize, total: usize) -> (res: String)
    ensures
        res@ == label@ + decimal_digits(n as nat) + "/"@ + decimal_digits(total as nat),
{
    let mut out: Vec<char> = Vec::new();
    extend_str(&mut out, label);
    crate::text::push_decimal_usize(n, &mut out);
    extend_str(&mut out, "/");
    crate::text::push_decimal_usize(total, &mut out);
    string_from_chars(&out)
}

// ---------------------------------------------------------------------------
// The messages of a catalog build
// ---------------------------------------------------------------------------

/// The last two status messages of a catalog build, and whether an error came.
#[derive(Debug)]
pub struct MessageHistory {
    pub last: (Option<String>, Option<String>),
    pub has_received_error: bool,
}

impl MessageHistory {
    pub fn new() -> (res: Self)
        ensures
            res.last.0 is None,
            res.last.1 is None,
            !res.has_received_error,
    {
        MessageHistory { last: (None, None), has_received_error: false }
    }

    /// A message arrives: it becomes the last, the last before it the one before.
    pub fn receive(&mut self, message: String)
        ensures
            final(self).last.0 == old(self).last.1,
            final(self).last.1 == Some(message),
            final(self).has_received_error == old(self).has_received_error,
    {
        let previous = self.last.1.take();
        self.last = (previous, Some(message));
    }

    /// An error arrives, with its text: it is recorded, and shown as the last
    /// message.
    pub fn receive_error(&mut self, error_text: &str)
        ensures
            final(self).last.0 == old(self).last.1,
            final(self).last.1 matches Some(m) && m@ == "Received error from sender: "@
                + error_text@,
            final(self).has_received_error,
    {
        self.has_received_error = true;
        let previous = self.last.1.take();
        let mut out: Vec<char> = Vec::new();
        extend_str(&mut out, "Received error from sender: ");
        extend_str(&mut out, error_text);
        self.last = (previous, Some(string_from_chars(&out)));
    }

    /// Whether the last message is to be drawn: not when it repeats the one
    /// before.
    pub fn shows_new_message(&self) -> (res: bool)
        ensures
            res == !(crate::paths::opt_view(self.last.0) == crate::paths::opt_view(self.last.1)),
    {
        match (&self.last.0, &self.last.1) {
            (Some(a), Some(b)) => !crate::text::strings_equal(a, b),
            (None, None) => false,
            _ => true,
        }
    }
}

// ---------------------------------------------------------------------------
// Keys
// ---------------------------------------------------------------------------

/// What the catalog view shows beside the list.
#[derive(Debug, Clone, Copy, PartialEq, Eq, Structural)]
pub enum InfoState {
    Inactive,
    Generating,
    MediaInfo,
}

/// What a key press does in the catalog view.
#[derive(Debug, Clone, Copy, PartialEq, Eq, Structural)]
pub enum KeyAction {
    GotoTop,
    GotoBottom,
    HalfDown,
    HalfUp,
    SelectNext,
    SelectPrevious,
    /// Logs the items whose names match a test title.
    LogItems,
    GenerateCatalog,
    SendApiRequests,
    Nothing,
}

/// The action of a key (`ctrl` held or not), given what the view shows and
/// whether it has a catalog: `ctrl-g` top, `G` bottom, `ctrl-d`/`ctrl-u` half
/// a page, `j`/`k` next and previous, `p` generates the catalog when nothing
/// is shown or sends the queries once the catalog is there.
pub open spec fn key_action(key: char, ctrl: bool, info: InfoState, has_catalog: bool) -> KeyAction {
    if key == 'g' && ctrl {
        KeyAction::GotoTop
    } else if key == 'G' {
        KeyAction::GotoBottom
    } else if key == 'd' && ctrl {
        KeyAction::HalfDown
    } else if key == 'u' && ctrl {
        KeyAction::HalfUp
    } else if key == 'j' {
        KeyAction::SelectNext
    } else if key == 'k' {
        KeyAction::SelectPrevious
    } else if key == 'o' {
        KeyAction::LogItems
    } else if key == 'p' {
        match info {
            InfoState::Inactive => KeyAction::GenerateCatalog,
            InfoState::Generating => KeyAction::Nothing,
            InfoState::MediaInfo => if has_catalog {
                KeyAction::SendApiRequests
            } else {
                KeyAction::Nothing
            },
        }
    } else {
        KeyAction::Nothing
    }
}

pub fn decide_key(key: char, ctrl: bool, info: InfoState, has_catalog: bool) -> (res: KeyAction)
    ensures
        res == key_action(key, ctrl, info, has_catalog),
{
    if key == 'g' && ctrl {
        KeyAction::GotoTop
    } else if key == 'G' {
        KeyAction::GotoBottom
    } else if key == 'd' && ctrl {
        KeyAction::HalfDown
    } else if key == 'u' && ctrl {
        KeyAction::HalfUp
    } else if key == 'j' {
        KeyAction::SelectNext
    } else if key == 'k' {
        KeyAction::SelectPrevious
    } else if key == 'o' {
        KeyAction::LogItems
    } else if key == 'p' {
        match info {
            InfoState::Inactive => KeyAction::GenerateCatalog,
            InfoState::Generating => KeyAction::Nothing,
            InfoState::MediaInfo => if has_catalog {
                KeyAction::SendApiRequests
            } else {
                KeyAction::Nothing
            },
        }
    } else {
        KeyAction::Nothing
    }
}

/// The selection after `half_down` from `sel`, in a list of `len` items drawn
/// `h` rows high.
pub open spec fn half_down_selection(sel: Option<usize>, len: nat, h: Option<u16>) -> Option<usize> {
    match sel {
        Some(i) => if i < len - 1 {
            Some(
                if i + half_height(h) > usize::MAX {
                    usize::MAX
                } else {
                    (i + half_height(h)) as usize
                },
            )
        } else {
            Some(i)
        },
        None => Some(half_height(h) as usize),
    }
}

/// The selection after `half_up` from `sel`, in a list drawn `h` rows high.
pub open spec fn half_up_selection(sel: Option<usize>, h: Option<u16>) -> Option<usize> {
    match sel {
        Some(i) => if i >= 1 {
            Some(
                if i < half_height(h) {
                    0usize
                } else {
                    (i - half_height(h)) as usize
                },
            )
        } else {
            Some(i)
        },
        None => Some(half_height(h) as usize),
    }
}

/// The selection after a key's action, in a list of `len` items drawn `h`
/// rows high; actions that do not move it leave it.
pub open spec fn moved_selection(action: KeyAction, sel: Option<usize>, len: nat, h: Option<u16>) -> Option<usize> {
    match action {
        KeyAction::GotoTop => Some(0usize),
        KeyAction::GotoBottom => Some(len as usize),
        KeyAction::HalfDown => half_down_selection(sel, len, h),
        KeyAction::HalfUp => half_up_selection(sel, h),
        KeyAction::SelectNext => list_next(sel, len),
        KeyAction::SelectPrevious => list_previous(sel),
        _ => sel,
    }
}

impl MediaList {
    /// Carries out a key's action on the selection: the moves of `goto_top`,
    /// `goto_bottom`, `half_down`, `half_up`, `select_next` and
    /// `select_previous`; other actions leave the list as it is.
    pub fn apply(&mut self, action: KeyAction)
        requires
            (action is SelectNext || action is HalfDown) && old(self).cursor.selected is Some ==> old(
                self,
            ).inner@.len() > 0,
        ensures
            final(self).inner@ == old(self).inner@,
            final(self).height == old(self).height,
            final(self).cursor.offset == old(self).cursor.offset,
            final(self).cursor.selected == moved_selection(
                action,
                old(self).cursor.selected,
                old(self).inner@.len(),
                old(self).height,
            ),
    {
        match action {
            KeyAction::GotoTop => self.goto_top(),
            KeyAction::GotoBottom => self.goto_bottom(),
            KeyAction::HalfDown => self.half_down(),
            KeyAction::HalfUp => self.half_up(),
            KeyAction::SelectNext => self.select_next(),
            KeyAction::SelectPrevious => self.select_previous(),
            _ => {},
        }
    }
}

} // verus!
