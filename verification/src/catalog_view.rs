//! The catalog view as a state machine: what it shows (the catalog, the
//! panel beside the list, the list, the query results and the probes), how
//! each event changes that, and what the caller is then to do.
use vstd::prelude::*;

use crate::api_client::QueryStatus;
use crate::api_manifest::{marked, ApiCall, ApiManifest};
use crate::catalog::{movie_items, show_items, Catalog};
use crate::ffprobe::{FFprobeFailure, FFprobeMediaInfo};
use crate::item_table::{item_key, ItemKind};
use crate::media_item::MediaItem;
use crate::prober::{finished_probe, ProbeResult, Prober};
use crate::view_state::{
    decide_key, key_action, media_list_updated, moved_selection, InfoState, KeyAction, MediaList,
};

verus! {

/// The state of the catalog view.
pub struct CatalogViewState {
    pub catalog: Option<Catalog>,
    pub info: InfoState,
    pub media_list: MediaList,
    pub manifest: ApiManifest,
    pub prober: Prober,
}

/// What happens to the view.
pub enum ViewEvent {
    /// The catalog build finished, with the catalog or without one.
    CatalogBuilt(Option<Catalog>),
    /// A query came back.
    Answered(ApiCall),
    /// A probe of an item's file finished.
    Probed(MediaItem, Result<FFprobeMediaInfo, FFprobeFailure>),
    /// A key was pressed, with or without control held.
    Key(char, bool),
}

/// What the caller is to do after an event.
pub enum ViewAction {
    /// Start building the catalog of the configured directories.
    StartBuild,
    /// Make the queries for these items; their answers are taken once the
    /// manifest sends.
    StageQueries(Vec<MediaItem>),
    /// Probe the file at the path, for the item.
    Probe(MediaItem, String),
    /// Log the catalog's items.
    LogItems,
}

/// A key action that moves the selection down from an item.
pub open spec fn moves_down(a: KeyAction) -> bool {
    a is SelectNext || a is HalfDown
}

/// The action a key press has in the state `s`.
pub open spec fn key_in(s: CatalogViewState, key: char, ctrl: bool) -> KeyAction {
    key_action(key, ctrl, s.info, s.catalog is Some)
}

/// One step of the panel beside the list: media information, once shown,
/// stays, and nothing goes back to showing nothing.
pub open spec fn panel_step(before: InfoState, after: InfoState) -> bool {
    &&& before == InfoState::MediaInfo ==> after == InfoState::MediaInfo
    &&& after == InfoState::Inactive ==> before == InfoState::Inactive
}

/// Over any run of updates, the panel never goes back: from the moment it
/// shows media information it shows nothing else, and once it has shown
/// anything it never again shows nothing. `trace` holds the panel before the
/// first update and after each one.
pub proof fn lemma_panel_never_goes_back(trace: Seq<InfoState>, i: int, j: int)
    requires
        forall|k: int| 0 <= k < trace.len() - 1 ==> #[trigger] panel_step(trace[k], trace[k + 1]),
        0 <= i <= j < trace.len(),
    ensures
        trace[i] == InfoState::MediaInfo ==> trace[j] == InfoState::MediaInfo,
        trace[j] == InfoState::Inactive ==> trace[i] == InfoState::Inactive,
    decreases j - i,
{
    if i < j {
        let k = j - 1;
        lemma_panel_never_goes_back(trace, i, k);
        assert(panel_step(trace[k], trace[k + 1]));
    }
}

/// The items of a catalog, as its queries are staged and sent: its movies,
/// then its shows.
pub open spec fn queried_items(c: Catalog) -> Seq<MediaItem> {
    movie_items(c.movies@) + show_items(c.shows@)
}

/// The list shows the catalog under the results, changed from `before`; with
/// no catalog it stays.
pub open spec fn list_refreshed(
    before: MediaList,
    after: MediaList,
    catalog: Option<Catalog>,
    results: Map<(ItemKind, u64, Seq<char>), std::sync::Arc<QueryStatus>>,
) -> bool {
    match catalog {
        Some(c) => media_list_updated(before, after, c, results),
        None => after == before,
    }
}

fn refresh(list: &mut MediaList, catalog: &Option<Catalog>, manifest: &ApiManifest)
    ensures
        list_refreshed(*old(list), *final(list), *catalog, manifest@),
{
    match catalog {
        Some(c) => crate::view_state::update_media_list(list, c, manifest),
        None => {},
    }
}

impl CatalogViewState {
    /// The view before anything is shown.
    pub fn new() -> (res: Self)
        ensures
            res.catalog is None,
            res.info == InfoState::Inactive,
            res.media_list.inner@.len() == 0,
            res.media_list.cursor.selected is None,
            res.manifest@ == Map::<(ItemKind, u64, Seq<char>), std::sync::Arc<QueryStatus>>::empty(),
            !res.manifest.sending(),
            res.prober@ == Map::<(ItemKind, u64, Seq<char>), ProbeResult>::empty(),
    {
        CatalogViewState {
            catalog: None,
            info: InfoState::Inactive,
            media_list: MediaList::new(),
            manifest: ApiManifest::new(),
            prober: Prober::new(),
        }
    }

    /// The next state after an event, and what the caller is to do.
    /// - A finished build: the catalog (if any) is taken in, the panel shows
    ///   media information, the list shows the catalog, and its queries are
    ///   to be staged.
    /// - An answer: recorded, and the list shown again, once the queries are
    ///   sent; before that it is not taken.
    /// - A finished probe: recorded.
    /// - A key: `p` starts a build when nothing is shown beside the list, or
    ///   sends the queries (each item then in progress) once there is a
    ///   catalog; `o` logs the items; the others move the selection.
    ///
    /// The panel beside the list never goes back: once it shows media
    /// information it keeps showing it, and a build under way is left only
    /// when it finishes.
    pub fn update(&mut self, event: ViewEvent) -> (action: Option<ViewAction>)
        requires
            event matches ViewEvent::Key(k, ctrl) && moves_down(key_in(*old(self), k, ctrl))
                && old(self).media_list.cursor.selected is Some ==> old(self).media_list.inner@.len() > 0,
        ensures
            panel_step(old(self).info, final(self).info),
            old(self).info == InfoState::Generating ==> final(self).info == InfoState::Generating
                || (event is CatalogBuilt && final(self).info == InfoState::MediaInfo),
            event matches ViewEvent::CatalogBuilt(c) ==> {
                &&& final(self).catalog == c
                &&& final(self).info == InfoState::MediaInfo
                &&& final(self).manifest == old(self).manifest
                &&& final(self).prober == old(self).prober
                &&& list_refreshed(old(self).media_list, final(self).media_list, c, old(self).manifest@)
                &&& match c {
                    Some(cat) => action matches Some(ViewAction::StageQueries(items)) && items@
                        == queried_items(cat),
                    None => action is None,
                }
            },
            event matches ViewEvent::Answered(call) ==> {
                &&& action is None
                &&& final(self).catalog == old(self).catalog
                &&& final(self).info == old(self).info
                &&& final(self).prober == old(self).prober
                &&& old(self).manifest.sending() ==> {
                    &&& final(self).manifest@.dom() == old(self).manifest@.dom().insert(item_key(call.item))
                    &&& final(self).manifest@[item_key(call.item)] == call.status
                    &&& forall|k: (ItemKind, u64, Seq<char>)|
                        k != item_key(call.item) && old(self).manifest@.contains_key(k) ==> final(self).manifest@[k]
                            == old(self).manifest@[k]
                    &&& final(self).manifest.sending()
                    &&& list_refreshed(
                        old(self).media_list,
                        final(self).media_list,
                        old(self).catalog,
                        final(self).manifest@,
                    )
                }
                &&& !old(self).manifest.sending() ==> final(self).manifest == old(self).manifest
                    && final(self).media_list == old(self).media_list
            },
            event matches ViewEvent::Probed(item, r) ==> {
                &&& action is None
                &&& final(self).prober@ == old(self).prober@.insert(item_key(item), finished_probe(r))
                &&& final(self).catalog == old(self).catalog
                &&& final(self).info == old(self).info
                &&& final(self).manifest == old(self).manifest
                &&& final(self).media_list == old(self).media_list
            },
            event matches ViewEvent::Key(k, ctrl) ==> {
                &&& final(self).catalog == old(self).catalog
                &&& final(self).prober == old(self).prober
                &&& match key_in(*old(self), k, ctrl) {
                    KeyAction::GenerateCatalog => action matches Some(ViewAction::StartBuild) && final(self).info
                        == InfoState::Generating && final(self).manifest == old(self).manifest
                        && final(self).media_list == old(self).media_list,
                    KeyAction::SendApiRequests => action is None && final(self).info == old(self).info
                        && final(self).manifest.sending() && marked(
                        old(self).manifest@,
                        final(self).manifest@,
                        queried_items(old(self).catalog.unwrap()),
                        QueryStatus::InProgress,
                    ) && list_refreshed(
                        old(self).media_list,
                        final(self).media_list,
                        old(self).catalog,
                        final(self).manifest@,
                    ),
                    KeyAction::LogItems => action matches Some(ViewAction::LogItems) && final(self).info
                        == old(self).info && final(self).manifest == old(self).manifest
                        && final(self).media_list == old(self).media_list,
                    KeyAction::Nothing => action is None && final(self).info == old(self).info
                        && final(self).manifest == old(self).manifest && final(self).media_list
                        == old(self).media_list,
                    a => action is None && final(self).info == old(self).info && final(self).manifest
                        == old(self).manifest && final(self).media_list.inner@ == old(self).media_list.inner@
                        && final(self).media_list.height == old(self).media_list.height
                        && final(self).media_list.cursor.offset == old(self).media_list.cursor.offset
                        && final(self).media_list.cursor.selected == moved_selection(
                        a,
                        old(self).media_list.cursor.selected,
                        old(self).media_list.inner@.len(),
                        old(self).media_list.height,
                    ),
                }
            },
    {
        match event {
            ViewEvent::CatalogBuilt(c) => {
                self.catalog = c;
                self.info = InfoState::MediaInfo;
                refresh(&mut self.media_list, &self.catalog, &self.manifest);
                match &self.catalog {
                    Some(cat) => Some(ViewAction::StageQueries(cat.iter_all())),
                    None => None,
                }
            },
            ViewEvent::Answered(call) => {
                if self.manifest.is_released() {
                    self.manifest.update_api_call(call);
                    refresh(&mut self.media_list, &self.catalog, &self.manifest);
                }
                None
            },
            ViewEvent::Probed(item, r) => {
                self.prober.record(item, r);
                None
            },
            ViewEvent::Key(k, ctrl) => {
                let a = decide_key(k, ctrl, self.info, self.catalog.is_some());
                match a {
                    KeyAction::GenerateCatalog => {
                        self.info = InfoState::Generating;
                        Some(ViewAction::StartBuild)
                    },
                    KeyAction::SendApiRequests => {
                        match &self.catalog {
                            Some(cat) => {
                                let items = cat.iter_all();
                                self.manifest.send_all(&items);
                            },
                            None => {},
                        }
                        refresh(&mut self.media_list, &self.catalog, &self.manifest);
                        None
                    },
                    KeyAction::LogItems => Some(ViewAction::LogItems),
                    KeyAction::Nothing => None,
                    _ => {
                        self.media_list.apply(a);
                        None
                    },
                }
            },
        }
    }

    /// Starts a probe of the selected item's file when none was started:
    /// the probe is marked under way and the file to probe handed back.
    /// Episodes are not probed.
    pub fn probe_selected(&mut self) -> (action: Option<ViewAction>)
        ensures
            final(self).catalog == old(self).catalog,
            final(self).info == old(self).info,
            final(self).manifest == old(self).manifest,
            final(self).media_list == old(self).media_list,
            match old(self).media_list.selected_item() {
                Some(item) => if !(item is Episode) && !old(self).prober@.contains_key(item_key(item)) {
                    &&& action matches Some(ViewAction::Probe(i, path)) && i == item && path@ == item_key(
                        item,
                    ).2
                    &&& final(self).prober@ == old(self).prober@.insert(item_key(item), ProbeResult::InProgress)
                } else {
                    action is None && final(self).prober == old(self).prober
                },
                None => action is None && final(self).prober == old(self).prober,
            },
    {
        match self.media_list.get_selected() {
            Some(item) => {
                let unprobed = match self.prober.get(&item) {
                    Some(_) => false,
                    None => true,
                };
                let episode = match &item {
                    MediaItem::Episode(_) => true,
                    _ => false,
                };
                if unprobed && !episode {
                    let path = self.prober.dispatch(crate::view_state::duplicate_item(&item));
                    Some(ViewAction::Probe(item, path))
                } else {
                    None
                }
            },
            None => None,
        }
    }
}

} // verus!
