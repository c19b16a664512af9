//! The in-memory cache of infrastructure objects, partitioned by kind.
//!
//! Each partition keeps its objects in insertion order, one per identifier:
//! adding an object whose identifier is already present replaces it in place.
use crate::schema::{DetectorCache, DetectorView, TrackSectionCache, TrackSectionView};
use vstd::prelude::*;

verus! {

/// `i` is the first position of `id` in `ids`.
pub open spec fn first_match(ids: Seq<Seq<char>>, id: Seq<char>, i: int) -> bool {
    &&& 0 <= i < ids.len()
    &&& ids[i] == id
    &&& forall|j: int| 0 <= j < i ==> ids[j] != id
}

/// `id` occurs in `ids`.
pub open spec fn contains_id(ids: Seq<Seq<char>>, id: Seq<char>) -> bool {
    exists|i: int| 0 <= i < ids.len() && ids[i] == id
}

/// The first position of `id` in `ids` (meaningful where `contains_id` holds).
pub open spec fn index_of(ids: Seq<Seq<char>>, id: Seq<char>) -> int {
    choose|i: int| first_match(ids, id, i)
}

pub proof fn lemma_first_match_is_index_of(ids: Seq<Seq<char>>, id: Seq<char>, i: int)
    requires
        first_match(ids, id, i),
    ensures
        index_of(ids, id) == i,
        contains_id(ids, id),
{
    let c = index_of(ids, id);
    assert(first_match(ids, id, c));
    if c < i {
        assert(ids[c] != id);
    } else if i < c {
        assert(ids[i] != id);
    }
}

/// The objects loaded for one validation pass.
pub struct InfraCache {
    track_sections: Vec<TrackSectionCache>,
    detectors: Vec<DetectorCache>,
}

pub struct InfraCacheView {
    pub tracks: Seq<TrackSectionView>,
    pub detectors: Seq<DetectorView>,
}

impl InfraCacheView {
    pub open spec fn track_ids(self) -> Seq<Seq<char>> {
        self.tracks.map_values(|t: TrackSectionView| t.obj_id)
    }

    pub open spec fn detector_ids(self) -> Seq<Seq<char>> {
        self.detectors.map_values(|d: DetectorView| d.obj_id)
    }

    /// A track section with identifier `id` is loaded.
    pub open spec fn has_track(self, id: Seq<char>) -> bool {
        contains_id(self.track_ids(), id)
    }

    /// The track section with identifier `id`.
    pub open spec fn track(self, id: Seq<char>) -> TrackSectionView {
        self.tracks[index_of(self.track_ids(), id)]
    }
}

impl View for InfraCache {
    type V = InfraCacheView;

    closed spec fn view(&self) -> InfraCacheView {
        InfraCacheView {
            tracks: self.track_sections@.map_values(|t: TrackSectionCache| t@),
            detectors: self.detectors@.map_values(|d: DetectorCache| d@),
        }
    }
}

impl InfraCache {
    pub fn new() -> (r: InfraCache)
        ensures
            r@.tracks == Seq::<TrackSectionView>::empty(),
            r@.detectors == Seq::<DetectorView>::empty(),
    {
        let r = InfraCache { track_sections: Vec::new(), detectors: Vec::new() };
        assert(r@.tracks =~= Seq::<TrackSectionView>::empty());
        assert(r@.detectors =~= Seq::<DetectorView>::empty());
        r
    }

    /// The position of the track section `id`, if it is loaded.
    fn find_track_section(&self, id: &String) -> (r: Option<usize>)
        ensures
            r is None <==> !self@.has_track(id@),
            r matches Some(i) ==> first_match(self@.track_ids(), id@, i as int),
    {
        let mut i: usize = 0;
        while i < self.track_sections.len()
            invariant
                i <= self.track_sections@.len(),
                forall|j: int| 0 <= j < i ==> self@.track_ids()[j] != id@,
            decreases self.track_sections@.len() - i,
        {
            if self.track_sections[i].obj_id == *id {
                assert(self@.track_ids()[i as int] == id@);
                return Some(i);
            }
            i = i + 1;
        }
        None
    }

    /// The position of the detector `id`, if it is loaded.
    fn find_detector(&self, id: &String) -> (r: Option<usize>)
        ensures
            r is None <==> !contains_id(self@.detector_ids(), id@),
            r matches Some(i) ==> first_match(self@.detector_ids(), id@, i as int),
    {
        let mut i: usize = 0;
        while i < self.detectors.len()
            invariant
                i <= self.detectors@.len(),
                forall|j: int| 0 <= j < i ==> self@.detector_ids()[j] != id@,
            decreases self.detectors@.len() - i,
        {
            if self.detectors[i].obj_id == *id {
                assert(self@.detector_ids()[i as int] == id@);
                return Some(i);
            }
            i = i + 1;
        }
        None
    }

    /// Whether a track section with identifier `id` is loaded.
    pub fn contains_track_section(&self, id: &String) -> (r: bool)
        ensures
            r == self@.has_track(id@),
    {
        self.find_track_section(id).is_some()
    }

    /// The track section with identifier `id`, if it is loaded.
    pub fn track_section(&self, id: &String) -> (r: Option<&TrackSectionCache>)
        ensures
            r is None <==> !self@.has_track(id@),
            r matches Some(t) ==> t@ == self@.track(id@),
    {
        match self.find_track_section(id) {
            Some(i) => {
                proof {
                    lemma_first_match_is_index_of(self@.track_ids(), id@, i as int);
                }
                Some(&self.track_sections[i])
            },
            None => None,
        }
    }

    /// The detectors, in the order in which they were first added.
    pub fn detectors(&self) -> (r: &Vec<DetectorCache>)
        ensures
            r@.map_values(|d: DetectorCache| d@) == self@.detectors,
    {
        &self.detectors
    }

    /// Adds a track section, replacing the one with the same identifier.
    pub fn add_track_section(&mut self, track: TrackSectionCache)
        ensures
            final(self)@.detectors == old(self)@.detectors,
            old(self)@.has_track(track@.obj_id) ==> final(self)@.tracks == old(self)@.tracks.update(
                index_of(old(self)@.track_ids(), track@.obj_id),
                track@,
            ),
            !old(self)@.has_track(track@.obj_id) ==> final(self)@.tracks == old(self)@.tracks.push(
                track@,
            ),
    {
        match self.find_track_section(&track.obj_id) {
            Some(i) => {
                proof {
                    lemma_first_match_is_index_of(self@.track_ids(), track@.obj_id, i as int);
                }
                self.track_sections.set(i, track);
            },
            None => {
                self.track_sections.push(track);
            },
        }
        proof {
            if old(self)@.has_track(track@.obj_id) {
                assert(final(self)@.tracks =~= old(self)@.tracks.update(
                    index_of(old(self)@.track_ids(), track@.obj_id),
                    track@,
                ));
            } else {
                assert(final(self)@.tracks =~= old(self)@.tracks.push(track@));
            }
        }
    }
    /// Adds a detector, replacing the one with the same identifier.
    pub fn add_detector(&mut self, detector: DetectorCache)
        ensures
            final(self)@.tracks == old(self)@.tracks,
            contains_id(old(self)@.detector_ids(), detector@.obj_id) ==> final(self)@.detectors
                == old(self)@.detectors.update(
                index_of(old(self)@.detector_ids(), detector@.obj_id),
                detector@,
            ),
            !contains_id(old(self)@.detector_ids(), detector@.obj_id) ==> final(self)@.detectors
                == old(self)@.detectors.push(detector@),
    {
        match self.find_detector(&detector.obj_id) {
            Some(i) => {
                proof {
                    lemma_first_match_is_index_of(self@.detector_ids(), detector@.obj_id, i as int);
                }
                self.detectors.set(i, detector);
            },
            None => {
                self.detectors.push(detector);
            },
        }
        proof {
            if contains_id(old(self)@.detector_ids(), detector@.obj_id) {
                assert(final(self)@.detectors =~= old(self)@.detectors.update(
                    index_of(old(self)@.detector_ids(), detector@.obj_id),
                    detector@,
                ));
            } else {
                assert(final(self)@.detectors =~= old(self)@.detectors.push(detector@));
            }
        }
    }
}

} // verus!
