//! The probes of the media files behind the listed items: which are under
//! way and what each finished one found.
use vstd::prelude::*;

use crate::ffprobe::{FFprobeFailure, FFprobeMediaInfo};
use crate::item_table::{item_key, ItemKind, ItemTable};
use crate::media_item::MediaItem;

verus! {

/// Where an item's probe stands.
pub enum ProbeResult {
    InProgress,
    Failure(FFprobeFailure),
    Success(FFprobeMediaInfo),
}

/// What a finished probe is recorded as.
pub open spec fn finished_probe(result: Result<FFprobeMediaInfo, FFprobeFailure>) -> ProbeResult {
    match result {
        Ok(info) => ProbeResult::Success(info),
        Err(e) => ProbeResult::Failure(e),
    }
}

/// The probes started, by item.
pub struct Prober {
    probe_results: ItemTable<ProbeResult>,
}

impl View for Prober {
    type V = Map<(ItemKind, u64, Seq<char>), ProbeResult>;

    closed spec fn view(&self) -> Self::V {
        self.probe_results@
    }
}

impl Prober {
    /// No probes yet.
    pub fn new() -> (res: Self)
        ensures
            res@ == Map::<(ItemKind, u64, Seq<char>), ProbeResult>::empty(),
    {
        Prober { probe_results: ItemTable::new() }
    }

    /// Marks the item's probe as under way and gives the file to probe: the
    /// path the item was read from. Only movies and shows are probed.
    pub fn dispatch(&mut self, item: MediaItem) -> (target: String)
        requires
            !(item is Episode),
        ensures
            final(self)@ == old(self)@.insert(item_key(item), ProbeResult::InProgress),
            target@ == item_key(item).2,
    {
        let target = match &item {
            MediaItem::Movie(movie) => movie.src.clone(),
            MediaItem::Show(show) => show.src.clone(),
            MediaItem::Episode(ep) => ep.src.clone(),
        };
        self.probe_results.insert(item, ProbeResult::InProgress);
        target
    }

    /// Records what a finished probe of the item found, in place of its
    /// being under way.
    pub fn record(&mut self, item: MediaItem, result: Result<FFprobeMediaInfo, FFprobeFailure>)
        ensures
            final(self)@ == old(self)@.insert(item_key(item), finished_probe(result)),
    {
        let result = match result {
            Ok(info) => ProbeResult::Success(info),
            Err(e) => ProbeResult::Failure(e),
        };
        self.probe_results.insert(item, result);
    }

    /// Where the item's probe stands, if one was started.
    pub fn get(&self, item: &MediaItem) -> (res: Option<&ProbeResult>)
        ensures
            match res {
                Some(r) => self@.contains_key(item_key(*item)) && *r == self@[item_key(*item)],
                None => !self@.contains_key(item_key(*item)),
            },
    {
        self.probe_results.get(item)
    }
}

} // verus!
