//! Scenes: named, ordered collections of (source, scene item) pairs, and the
//! table of which scene drives each output channel.
use vstd::prelude::*;

use crate::{ObsError, Vec2};

verus! {

/// What is needed to create an engine source.
#[derive(Debug)]
pub struct SourceInfo {
    /// Engine type id of the source.
    pub id: String,
    /// Name of the source, unique within a scene by convention.
    pub name: String,
}

/// A caller's handle on an engine source.
#[derive(Debug, PartialEq, Eq)]
pub struct ObsSourceRef {
    /// Engine handle of the source.
    pub source: u64,
    /// Engine type id of the source.
    pub id: String,
    pub name: String,
}

impl Clone for ObsSourceRef {
    fn clone(&self) -> (r: Self)
        ensures
            r == *self,
    {
        ObsSourceRef { source: self.source, id: self.id.clone(), name: self.name.clone() }
    }
}

/// A caller's handle on an engine filter.
#[derive(Debug, Clone, Copy, PartialEq, Eq, Structural)]
pub struct ObsFilterRef {
    pub filter: u64,
}

/// The engine's placement record of a source within one scene.
#[derive(Debug, Clone, Copy, PartialEq, Eq, Structural)]
pub struct SceneItem {
    /// Engine handle of the scene item.
    pub item: u64,
    pub position: Vec2,
    pub scale: Vec2,
    pub enabled: bool,
}

/// The engine call that attaches a filter to, or detaches it from, a source.
#[derive(Debug, Clone, Copy, PartialEq, Eq, Structural)]
pub struct FilterCall {
    pub source: u64,
    pub filter: u64,
}

/// Bit pattern of the single-precision value 1.0, the engine's initial
/// scale of a new scene item on both axes.
pub const UNIT_SCALE_BITS: u32 = 0x3f80_0000;

/// One entry of a scene's ordered pair list.
pub type SceneEntry = (ObsSourceRef, SceneItem);

/// `i` is the first entry of `s` whose source is named `n`.
pub open spec fn is_first_named(s: Seq<SceneEntry>, n: Seq<char>, i: int) -> bool {
    &&& 0 <= i < s.len()
    &&& s[i].0.name@ == n
    &&& forall|j: int| 0 <= j < i ==> (#[trigger] s[j]).0.name@ != n
}

/// Index of the first entry of `s` whose source is named `n`, if any.
pub open spec fn first_named(s: Seq<SceneEntry>, n: Seq<char>) -> Option<int> {
    if exists|i: int| is_first_named(s, n, i) {
        Some(choose|i: int| is_first_named(s, n, i))
    } else {
        None
    }
}

/// A scene and the ordered list of the sources placed in it.
pub struct ObsSceneRef {
    scene: u64,
    name: String,
    sources: Vec<SceneEntry>,
}

impl ObsSceneRef {
    /// The pair list, in z-order.
    pub closed spec fn entries(&self) -> Seq<SceneEntry> {
        self.sources@
    }

    pub closed spec fn scene_spec(&self) -> u64 {
        self.scene
    }

    pub closed spec fn name_spec(&self) -> Seq<char> {
        self.name@
    }

    /// Wraps a scene that the engine created under `name`, with no sources yet.
    pub fn new(name: String, scene: u64) -> (r: ObsSceneRef)
        ensures
            r.entries() == Seq::<SceneEntry>::empty(),
            r.scene_spec() == scene,
            r.name_spec() == name@,
    {
        ObsSceneRef { scene, name, sources: Vec::new() }
    }

    pub fn name(&self) -> (r: &String)
        ensures
            r@ == self.name_spec(),
    {
        &self.name
    }

    /// The engine handle of the scene.
    pub fn as_ptr(&self) -> (r: u64)
        ensures
            r == self.scene_spec(),
    {
        self.scene
    }

    /// Number of sources in the scene.
    pub fn len(&self) -> (r: usize)
        ensures
            r == self.entries().len(),
    {
        self.sources.len()
    }

    /// Position in the pair list of the first source named `name`.
    fn find_index(&self, name: &str) -> (r: Option<usize>)
        ensures
            match r {
                Some(i) => first_named(self.entries(), name@) == Some(i as int),
                None => first_named(self.entries(), name@) is None,
            },
    {
        let key = name.to_owned();
        let mut i: usize = 0;
        while i < self.sources.len()
            invariant
                0 <= i <= self.sources@.len(),
                key@ == name@,
                forall|j: int| 0 <= j < i ==> (#[trigger] self.sources@[j]).0.name@ != name@,
            decreases self.sources@.len() - i,
        {
            if self.sources[i].0.name == key {
                proof { lemma_first_named_unique(self.entries(), name@, i as int); }
                return Some(i);
            }
            i = i + 1;
        }
        proof {
            if exists|k: int| is_first_named(self.entries(), name@, k) {
                let k = choose|k: int| is_first_named(self.entries(), name@, k);
                assert(self.sources@[k].0.name@ != name@);
            }
        }
        None
    }

    /// Records a source that the engine created from `info` and placed in
    /// this scene. `created` is the engine's answer: the new source's handle
    /// and its scene item's handle, or `None` where the engine rejected the
    /// descriptor. The new pair goes to the end of the list, enabled, at the
    /// origin and with unit scale, as the engine places a new item.
    pub fn add_source(&mut self, info: SourceInfo, created: Option<(u64, u64)>) -> (r: Result<ObsSourceRef, ObsError>)
        ensures
            match created {
                None => {
                    &&& r == Err::<ObsSourceRef, ObsError>(ObsError::SourceCreationFailed)
                    &&& final(self).entries() == old(self).entries()
                },
                Some((source, item)) => {
                    let src = ObsSourceRef { source, id: info.id, name: info.name };
                    &&& r == Ok::<ObsSourceRef, ObsError>(src)
                    &&& final(self).entries() == old(self).entries().push(
                        (src, SceneItem { item, position: Vec2 { x: 0, y: 0 }, scale: unit_scale(), enabled: true }),
                    )
                },
            },
            final(self).scene_spec() == old(self).scene_spec(),
            final(self).name_spec() == old(self).name_spec(),
    {
        match created {
            None => Err(ObsError::SourceCreationFailed),
            Some((source, item)) => {
                let src = ObsSourceRef { source, id: info.id, name: info.name };
                let placed = SceneItem {
                    item,
                    position: Vec2 { x: 0, y: 0 },
                    scale: Vec2 { x: UNIT_SCALE_BITS, y: UNIT_SCALE_BITS },
                    enabled: true,
                };
                let handed = src.clone();
                self.sources.push((src, placed));
                Ok(handed)
            },
        }
    }

    /// The source at position `index` of the pair list.
    pub fn get_source_by_index(&self, index: usize) -> (r: Option<ObsSourceRef>)
        ensures
            index < self.entries().len() ==> r == Some(self.entries()[index as int].0),
            index >= self.entries().len() ==> r is None,
    {
        if index < self.sources.len() {
            Some(self.sources[index].0.clone())
        } else {
            None
        }
    }

    /// The scene item of the first source named `name`, which the engine
    /// removes from the scene and releases before `remove_source` drops the
    /// pair.
    pub fn find_scene_item(&self, name: &str) -> (r: Result<SceneItem, ObsError>)
        ensures
            r == match first_named(self.entries(), name@) {
                Some(i) => Ok::<SceneItem, ObsError>(self.entries()[i].1),
                None => Err::<SceneItem, ObsError>(ObsError::SourceNotFound),
            },
    {
        match self.find_index(name) {
            None => Err(ObsError::SourceNotFound),
            Some(i) => Ok(self.sources[i].1),
        }
    }

    /// Drops the pair of the first source named `name`, once the engine has
    /// removed and released its scene item; returns that item.
    pub fn remove_source(&mut self, name: &str) -> (r: Result<SceneItem, ObsError>)
        ensures
            match first_named(old(self).entries(), name@) {
                None => r == Err::<SceneItem, ObsError>(ObsError::SourceNotFound)
                    && final(self).entries() == old(self).entries(),
                Some(i) => r == Ok::<SceneItem, ObsError>(old(self).entries()[i].1)
                    && final(self).entries() == old(self).entries().remove(i),
            },
            final(self).scene_spec() == old(self).scene_spec(),
            final(self).name_spec() == old(self).name_spec(),
    {
        match self.find_index(name) {
            None => Err(ObsError::SourceNotFound),
            Some(i) => {
                let entry = self.sources.remove(i);
                Ok(entry.1)
            },
        }
    }

    /// Shows or hides the first source named `name`. Only a change of state
    /// is made: where the source already is in the requested state, or no
    /// source has that name, the answer is `SourceNotFound`. On success the
    /// result is the source handle on which the engine sets the new state.
    pub fn enable_source(&mut self, name: &str, enable: bool) -> (r: Result<u64, ObsError>)
        ensures
            match first_named(old(self).entries(), name@) {
                None => r == Err::<u64, ObsError>(ObsError::SourceNotFound)
                    && final(self).entries() == old(self).entries(),
                Some(i) => {
                    let e = old(self).entries()[i];
                    if e.1.enabled == enable {
                        r == Err::<u64, ObsError>(ObsError::SourceNotFound)
                            && final(self).entries() == old(self).entries()
                    } else {
                        r == Ok::<u64, ObsError>(e.0.source)
                            && final(self).entries() == old(self).entries().update(
                            i,
                            (e.0, SceneItem { enabled: enable, ..e.1 }),
                        )
                    }
                },
            },
            final(self).scene_spec() == old(self).scene_spec(),
            final(self).name_spec() == old(self).name_spec(),
    {
        match self.find_index(name) {
            None => Err(ObsError::SourceNotFound),
            Some(i) => {
                if self.sources[i].1.enabled == enable {
                    Err(ObsError::SourceNotFound)
                } else {
                    self.sources[i].1.enabled = enable;
                    Ok(self.sources[i].0.source)
                }
            },
        }
    }

    /// The first source named `name`.
    pub fn get_source_mut(&self, name: &str) -> (r: Option<ObsSourceRef>)
        ensures
            r == match first_named(self.entries(), name@) {
                Some(i) => Some(self.entries()[i].0),
                None => None::<ObsSourceRef>,
            },
    {
        match self.find_index(name) {
            Some(i) => {
                Some(self.sources[i].0.clone())
            },
            None => None,
        }
    }

    /// The engine call that attaches `filter` to the first source named
    /// `source_name`. Whether the filter is attached already is for the
    /// engine to judge.
    pub fn add_source_filter(&self, source_name: &str, filter: &ObsFilterRef) -> (r: Result<FilterCall, ObsError>)
        ensures
            r == match first_named(self.entries(), source_name@) {
                Some(i) => Ok::<FilterCall, ObsError>(FilterCall { source: self.entries()[i].0.source, filter: filter.filter }),
                None => Err::<FilterCall, ObsError>(ObsError::SourceNotFound),
            },
    {
        self.filter_call(source_name, filter)
    }

    /// The engine call that detaches `filter` from the first source named
    /// `source_name`.
    pub fn remove_source_filter(&self, source_name: &str, filter: &ObsFilterRef) -> (r: Result<FilterCall, ObsError>)
        ensures
            r == match first_named(self.entries(), source_name@) {
                Some(i) => Ok::<FilterCall, ObsError>(FilterCall { source: self.entries()[i].0.source, filter: filter.filter }),
                None => Err::<FilterCall, ObsError>(ObsError::SourceNotFound),
            },
    {
        self.filter_call(source_name, filter)
    }

    fn filter_call(&self, source_name: &str, filter: &ObsFilterRef) -> (r: Result<FilterCall, ObsError>)
        ensures
            r == match first_named(self.entries(), source_name@) {
                Some(i) => Ok::<FilterCall, ObsError>(FilterCall { source: self.entries()[i].0.source, filter: filter.filter }),
                None => Err::<FilterCall, ObsError>(ObsError::SourceNotFound),
            },
    {
        match self.find_index(source_name) {
            None => Err(ObsError::SourceNotFound),
            Some(i) => {
                Ok(FilterCall { source: self.sources[i].0.source, filter: filter.filter })
            },
        }
    }

    /// Position of the scene item of the first source named `name`.
    pub fn get_source_position(&self, name: &str) -> (r: Result<Vec2, ObsError>)
        ensures
            r == match first_named(self.entries(), name@) {
                Some(i) => Ok::<Vec2, ObsError>(self.entries()[i].1.position),
                None => Err::<Vec2, ObsError>(ObsError::SourceNotFound),
            },
    {
        match self.find_index(name) {
            None => Err(ObsError::SourceNotFound),
            Some(i) => {
                Ok(self.sources[i].1.position)
            },
        }
    }

    /// Scale of the scene item of the first source named `name`.
    pub fn get_source_scale(&self, name: &str) -> (r: Result<Vec2, ObsError>)
        ensures
            r == match first_named(self.entries(), name@) {
                Some(i) => Ok::<Vec2, ObsError>(self.entries()[i].1.scale),
                None => Err::<Vec2, ObsError>(ObsError::SourceNotFound),
            },
    {
        match self.find_index(name) {
            None => Err(ObsError::SourceNotFound),
            Some(i) => {
                Ok(self.sources[i].1.scale)
            },
        }
    }

    /// Moves the scene item of the first source named `name` to `position`;
    /// the result is the scene item handle on which the engine sets it.
    pub fn set_source_position(&mut self, name: &str, position: Vec2) -> (r: Result<u64, ObsError>)
        ensures
            match first_named(old(self).entries(), name@) {
                None => r == Err::<u64, ObsError>(ObsError::SourceNotFound)
                    && final(self).entries() == old(self).entries(),
                Some(i) => r == Ok::<u64, ObsError>(old(self).entries()[i].1.item)
                    && final(self).entries() == old(self).entries().update(
                    i,
                    (old(self).entries()[i].0, SceneItem { position, ..old(self).entries()[i].1 }),
                ),
            },
            final(self).scene_spec() == old(self).scene_spec(),
            final(self).name_spec() == old(self).name_spec(),
    {
        match self.find_index(name) {
            None => Err(ObsError::SourceNotFound),
            Some(i) => {
                self.sources[i].1.position = position;
                Ok(self.sources[i].1.item)
            },
        }
    }

    /// Rescales the scene item of the first source named `name` to `scale`;
    /// the result is the scene item handle on which the engine sets it.
    pub fn set_source_scale(&mut self, name: &str, scale: Vec2) -> (r: Result<u64, ObsError>)
        ensures
            match first_named(old(self).entries(), name@) {
                None => r == Err::<u64, ObsError>(ObsError::SourceNotFound)
                    && final(self).entries() == old(self).entries(),
                Some(i) => r == Ok::<u64, ObsError>(old(self).entries()[i].1.item)
                    && final(self).entries() == old(self).entries().update(
                    i,
                    (old(self).entries()[i].0, SceneItem { scale, ..old(self).entries()[i].1 }),
                ),
            },
            final(self).scene_spec() == old(self).scene_spec(),
            final(self).name_spec() == old(self).name_spec(),
    {
        match self.find_index(name) {
            None => Err(ObsError::SourceNotFound),
            Some(i) => {
                self.sources[i].1.scale = scale;
                Ok(self.sources[i].1.item)
            },
        }
    }

    /// Makes this scene the one that drives output `channel`, replacing any
    /// scene bound there before.
    pub fn add_and_set(&self, channels: &mut OutputChannels, channel: u32)
        requires
            old(channels).wf(),
        ensures
            final(channels).wf(),
            final(channels).bound() == old(channels).bound().insert(channel, self.scene_spec()),
    {
        channels.bind(channel, self.scene);
    }
}

/// Each channel appears at most once in `s`.
pub open spec fn slots_wf(s: Seq<(u32, u64)>) -> bool {
    forall|i: int, j: int|
        0 <= i < s.len() && 0 <= j < s.len() && i != j ==> (#[trigger] s[i]).0 != (#[trigger] s[j]).0
}

/// The channel-to-scene map that the slot list `s` stands for.
pub open spec fn slots_map(s: Seq<(u32, u64)>) -> Map<u32, u64> {
    Map::new(
        |c: u32| exists|i: int| 0 <= i < s.len() && (#[trigger] s[i]).0 == c,
        |c: u32| s[choose|i: int| 0 <= i < s.len() && (#[trigger] s[i]).0 == c].1,
    )
}

proof fn lemma_slot_value(s: Seq<(u32, u64)>, i: int)
    requires
        slots_wf(s),
        0 <= i < s.len(),
    ensures
        slots_map(s).contains_key(s[i].0),
        slots_map(s)[s[i].0] == s[i].1,
{
    let c = s[i].0;
    assert(exists|k: int| 0 <= k < s.len() && (#[trigger] s[k]).0 == c);
    let j = choose|k: int| 0 <= k < s.len() && (#[trigger] s[k]).0 == c;
    assert(j == i);
}

/// Which scene, by engine handle, drives each output channel.
pub struct OutputChannels {
    slots: Vec<(u32, u64)>,
}

impl OutputChannels {
    /// Each channel appears at most once.
    pub closed spec fn wf(&self) -> bool {
        slots_wf(self.slots@)
    }

    /// The bound scene of each channel that has one.
    pub closed spec fn bound(&self) -> Map<u32, u64> {
        slots_map(self.slots@)
    }

    /// No channel is bound.
    pub fn new() -> (r: OutputChannels)
        ensures
            r.wf(),
            r.bound() == Map::<u32, u64>::empty(),
    {
        let r = OutputChannels { slots: Vec::new() };
        assert(slots_map(r.slots@) =~= Map::<u32, u64>::empty());
        r
    }

    fn slot_of(&self, channel: u32) -> (r: Option<usize>)
        requires
            self.wf(),
        ensures
            match r {
                Some(i) => i < self.slots@.len() && self.slots@[i as int].0 == channel,
                None => !self.bound().contains_key(channel),
            },
    {
        let mut i: usize = 0;
        while i < self.slots.len()
            invariant
                0 <= i <= self.slots@.len(),
                forall|j: int| 0 <= j < i ==> (#[trigger] self.slots@[j]).0 != channel,
            decreases self.slots@.len() - i,
        {
            if self.slots[i].0 == channel {
                return Some(i);
            }
            i = i + 1;
        }
        None
    }

    /// Binds `scene` to `channel`; the last binding of a channel wins.
    pub fn bind(&mut self, channel: u32, scene: u64)
        requires
            old(self).wf(),
        ensures
            final(self).wf(),
            final(self).bound() == old(self).bound().insert(channel, scene),
    {
        let ghost before = self.slots@;
        let ghost goal = slots_map(before).insert(channel, scene);
        match self.slot_of(channel) {
            Some(i) => {
                self.slots.set(i, (channel, scene));
                let ghost after = self.slots@;
                assert(slots_wf(after)) by {
                    assert forall|j: int, k: int|
                        0 <= j < after.len() && 0 <= k < after.len() && j != k
                            implies (#[trigger] after[j]).0 != (#[trigger] after[k]).0 by {
                        assert(before[j].0 != before[k].0);
                    }
                }
                assert forall|c: u32| #[trigger] slots_map(after).contains_key(c) == goal.contains_key(c)
                    && (goal.contains_key(c) ==> slots_map(after)[c] == goal[c]) by {
                    if c == channel {
                        lemma_slot_value(after, i as int);
                    } else if slots_map(after).contains_key(c) {
                        let j = choose|j: int| 0 <= j < after.len() && (#[trigger] after[j]).0 == c;
                        lemma_slot_value(after, j);
                        lemma_slot_value(before, j);
                    } else if slots_map(before).contains_key(c) {
                        let j = choose|j: int| 0 <= j < before.len() && (#[trigger] before[j]).0 == c;
                        assert(after[j].0 == c);
                    }
                }
                assert(slots_map(after) =~= goal);
            },
            None => {
                self.slots.push((channel, scene));
                let ghost after = self.slots@;
                assert(slots_wf(after)) by {
                    assert forall|j: int, k: int|
                        0 <= j < after.len() && 0 <= k < after.len() && j != k
                            implies (#[trigger] after[j]).0 != (#[trigger] after[k]).0 by {
                        if j < before.len() && k < before.len() {
                            assert(before[j].0 != before[k].0);
                        } else if j < before.len() {
                            assert(before[j] == after[j]);
                        } else {
                            assert(before[k] == after[k]);
                        }
                    }
                }
                assert forall|c: u32| #[trigger] slots_map(after).contains_key(c) == goal.contains_key(c)
                    && (goal.contains_key(c) ==> slots_map(after)[c] == goal[c]) by {
                    if c == channel {
                        lemma_slot_value(after, before.len() as int);
                    } else if slots_map(after).contains_key(c) {
                        let j = choose|j: int| 0 <= j < after.len() && (#[trigger] after[j]).0 == c;
                        lemma_slot_value(after, j);
                        lemma_slot_value(before, j);
                    } else if slots_map(before).contains_key(c) {
                        let j = choose|j: int| 0 <= j < before.len() && (#[trigger] before[j]).0 == c;
                        assert(after[j].0 == c);
                    }
                }
                assert(slots_map(after) =~= goal);
            },
        }
    }

    /// The scene bound to `channel`, if any.
    pub fn active_scene(&self, channel: u32) -> (r: Option<u64>)
        requires
            self.wf(),
        ensures
            r == (if self.bound().contains_key(channel) { Some(self.bound()[channel]) } else { None::<u64> }),
    {
        match self.slot_of(channel) {
            Some(i) => {
                proof { lemma_slot_value(self.slots@, i as int); }
                Some(self.slots[i].1)
            },
            None => None,
        }
    }
}

/// The engine's initial scale of a new scene item.
pub open spec fn unit_scale() -> Vec2 {
    Vec2 { x: UNIT_SCALE_BITS, y: UNIT_SCALE_BITS }
}

/// At most one index is the first with a given name.
pub proof fn lemma_first_named_unique(s: Seq<SceneEntry>, n: Seq<char>, i: int)
    requires
        is_first_named(s, n, i),
    ensures
        forall|k: int| #[trigger] is_first_named(s, n, k) ==> k == i,
{
    assert forall|k: int| #[trigger] is_first_named(s, n, k) implies k == i by {
        if k < i {
            assert(s[k].0.name@ != n);
        } else if k > i {
            assert(s[i].0.name@ != n);
        }
    }
}

/// Adding a source named `n` to a scene that holds no source of that name,
/// then removing `n`, gives back the scene as it was: the added pair is the
/// one found and removed, and afterwards no source is named `n`, so a lookup
/// of `n` answers `None` and a second removal `SourceNotFound`.
pub proof fn lemma_add_then_remove(s: Seq<SceneEntry>, e: SceneEntry, n: Seq<char>)
    requires
        forall|j: int| 0 <= j < s.len() ==> (#[trigger] s[j]).0.name@ != n,
        e.0.name@ == n,
    ensures
        first_named(s, n) is None,
        first_named(s.push(e), n) == Some(s.len() as int),
        s.push(e).remove(s.len() as int) == s,
{
    let t = s.push(e);
    assert forall|j: int| 0 <= j < s.len() implies (#[trigger] t[j]).0.name@ != n by {
        assert(t[j] == s[j]);
    }
    assert(is_first_named(t, n, s.len() as int));
    lemma_first_named_unique(t, n, s.len() as int);
    if exists|k: int| is_first_named(s, n, k) {
        let k = choose|k: int| is_first_named(s, n, k);
        assert(s[k].0.name@ != n);
    }
    assert(t.remove(s.len() as int) =~= s);
}

/// Setting the position of the source named `n` and then reading it back
/// gives exactly the position set: the same pair is still the first named
/// `n`, and it holds `p`.
pub proof fn lemma_position_round_trip(s: Seq<SceneEntry>, n: Seq<char>, p: Vec2)
    requires
        first_named(s, n) is Some,
    ensures
        ({
            let i = first_named(s, n)->0;
            let t = s.update(i, (s[i].0, SceneItem { position: p, ..s[i].1 }));
            first_named(t, n) == Some(i) && t[i].1.position == p
        }),
{
    let i = first_named(s, n)->0;
    let t = s.update(i, (s[i].0, SceneItem { position: p, ..s[i].1 }));
    assert forall|j: int| 0 <= j < i implies (#[trigger] t[j]).0.name@ != n by {
        assert(t[j] == s[j]);
    }
    assert(is_first_named(t, n, i));
    lemma_first_named_unique(t, n, i);
}

/// Callers that work on sources of different names do not disturb one
/// another: setting the position of the source named `n1` leaves which pair
/// is first named `n2`, and that pair's position, as they were. So each of
/// several interleaved callers, each setting and reading back the position of
/// its own source, reads exactly what it set last.
pub proof fn lemma_positions_independent(s: Seq<SceneEntry>, n1: Seq<char>, n2: Seq<char>, p: Vec2)
    requires
        n1 != n2,
        first_named(s, n1) is Some,
    ensures
        ({
            let i = first_named(s, n1)->0;
            let t = s.update(i, (s[i].0, SceneItem { position: p, ..s[i].1 }));
            &&& first_named(t, n2) == first_named(s, n2)
            &&& first_named(t, n2) is Some ==> t[first_named(t, n2)->0].1.position
                == s[first_named(s, n2)->0].1.position
        }),
{
    let i = first_named(s, n1)->0;
    let t = s.update(i, (s[i].0, SceneItem { position: p, ..s[i].1 }));
    assert forall|j: int| 0 <= j < s.len() implies (#[trigger] t[j]).0 == s[j].0 by {
        if j == i {
            assert(t[j].0 == s[i].0);
        } else {
            assert(t[j] == s[j]);
        }
    }
    assert forall|k: int| #[trigger] is_first_named(t, n2, k) == is_first_named(s, n2, k) by {
        if 0 <= k < s.len() {
            assert(t[k].0 == s[k].0);
            if is_first_named(s, n2, k) {
                assert forall|j: int| 0 <= j < k implies (#[trigger] t[j]).0.name@ != n2 by {
                    assert(t[j].0 == s[j].0);
                }
            }
            if is_first_named(t, n2, k) {
                assert forall|j: int| 0 <= j < k implies (#[trigger] s[j]).0.name@ != n2 by {
                    assert(t[j].0 == s[j].0);
                }
            }
        }
    }
    if exists|k: int| is_first_named(s, n2, k) {
        let j = choose|k: int| is_first_named(s, n2, k);
        assert(is_first_named(t, n2, j));
        lemma_first_named_unique(t, n2, j);
        lemma_first_named_unique(s, n2, j);
        assert(j != i);
        assert(t[j] == s[j]);
    } else {
        assert(!exists|k: int| is_first_named(t, n2, k));
    }
}

/// Binding scene `a` and then scene `b` to the same channel leaves that
/// channel driven by `b`; other channels keep their scene.
pub proof fn lemma_last_bind_wins(m: Map<u32, u64>, channel: u32, a: u64, b: u64)
    ensures
        m.insert(channel, a).insert(channel, b).contains_key(channel),
        m.insert(channel, a).insert(channel, b)[channel] == b,
        forall|c: u32| c != channel && #[trigger] m.contains_key(c) ==> m.insert(channel, a).insert(channel, b)[c] == m[c],
{
}

} // verus!
