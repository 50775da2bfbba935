//! The top-level context: the dispatcher's lifecycle and the scenes created
//! through it.
use vstd::prelude::*;

use crate::runtime::{ObsRuntime, RuntimeState};
use crate::ObsError;

verus! {

/// What tearing a context down asks for, in this order: release each scene,
/// then resolve each command that never ran with `ObsError::Cancelled`.
pub struct ShutdownPlan {
    /// Engine handles of the scenes to release, oldest first.
    pub scenes: Vec<u64>,
    /// Tickets of the cancelled commands, oldest first.
    pub cancelled: Vec<u64>,
}

/// The dispatcher and the registry of live scenes, by name.
pub struct ObsContext {
    runtime: ObsRuntime,
    scenes: Vec<(String, u64)>,
}

impl ObsContext {
    pub closed spec fn runtime_spec(&self) -> ObsRuntime {
        self.runtime
    }

    /// The registered scenes: name and engine handle, in creation order.
    pub closed spec fn scenes_spec(&self) -> Seq<(Seq<char>, u64)> {
        self.scenes@.map_values(|e: (String, u64)| (e.0@, e.1))
    }

    pub open spec fn wf(&self) -> bool {
        self.runtime_spec().wf()
    }

    pub fn new() -> (r: ObsContext)
        ensures
            r.wf(),
            r.runtime_spec().state_spec() == RuntimeState::Uninitialized,
            r.runtime_spec().pending() == Seq::<u64>::empty(),
            r.runtime_spec().next_ticket_spec() == 0,
            r.scenes_spec() == Seq::<(Seq<char>, u64)>::empty(),
    {
        let r = ObsContext { runtime: ObsRuntime::new(), scenes: Vec::new() };
        assert(r.scenes_spec() =~= Seq::<(Seq<char>, u64)>::empty());
        r
    }

    pub fn runtime(&self) -> (r: &ObsRuntime)
        ensures
            *r == self.runtime_spec(),
    {
        &self.runtime
    }

    /// The dispatcher, for submitting and serving commands; the scenes stay
    /// as they are.
    pub fn runtime_mut(&mut self) -> (r: &mut ObsRuntime)
        ensures
            *r == old(self).runtime_spec(),
            final(self).runtime_spec() == *final(r),
            final(self).scenes_spec() == old(self).scenes_spec(),
    {
        &mut self.runtime
    }

    /// Number of registered scenes.
    pub fn scene_count(&self) -> (r: usize)
        ensures
            r == self.scenes_spec().len(),
    {
        self.scenes.len()
    }

    /// Starts the dispatcher; see `ObsRuntime::start`.
    pub fn start(&mut self) -> (r: bool)
        ensures
            r == (old(self).runtime_spec().state_spec() == RuntimeState::Uninitialized),
            final(self).runtime_spec().state_spec() == (if r {
                RuntimeState::Starting
            } else {
                old(self).runtime_spec().state_spec()
            }),
            final(self).runtime_spec().pending() == old(self).runtime_spec().pending(),
            final(self).runtime_spec().next_ticket_spec() == old(self).runtime_spec().next_ticket_spec(),
            final(self).scenes_spec() == old(self).scenes_spec(),
    {
        self.runtime.start()
    }

    /// Records how the engine's initialization ended; see `ObsRuntime::finish_start`.
    pub fn finish_start(&mut self, initialized: bool)
        ensures
            final(self).runtime_spec().state_spec() == (if old(self).runtime_spec().state_spec() == RuntimeState::Starting {
                if initialized { RuntimeState::Running } else { RuntimeState::Terminated }
            } else {
                old(self).runtime_spec().state_spec()
            }),
            final(self).runtime_spec().pending() == old(self).runtime_spec().pending(),
            final(self).runtime_spec().next_ticket_spec() == old(self).runtime_spec().next_ticket_spec(),
            final(self).scenes_spec() == old(self).scenes_spec(),
    {
        self.runtime.finish_start(initialized)
    }

    /// Whether a scene may be created now: only while the dispatcher runs,
    /// since the engine creates it on its own thread.
    pub fn can_create_scene(&self) -> (r: bool)
        ensures
            r == self.runtime_spec().accepts(),
    {
        match self.runtime.state() {
            RuntimeState::Running => true,
            _ => false,
        }
    }

    /// Registers the scene that the engine created as `scene` under `name`;
    /// refused unless the dispatcher runs. Keeping names unique is the
    /// caller's part.
    pub fn create_scene(&mut self, name: String, scene: u64) -> (r: Result<(), ObsError>)
        ensures
            final(self).runtime_spec() == old(self).runtime_spec(),
            old(self).runtime_spec().accepts() ==> r == Ok::<(), ObsError>(())
                && final(self).scenes_spec() == old(self).scenes_spec().push((name@, scene)),
            !old(self).runtime_spec().accepts() ==> r == Err::<(), ObsError>(ObsError::RuntimeUnavailable)
                && final(self).scenes_spec() == old(self).scenes_spec(),
    {
        if self.can_create_scene() {
            let ghost key = name@;
            self.scenes.push((name, scene));
            assert(self.scenes_spec() =~= old(self).scenes_spec().push((key, scene)));
            Ok(())
        } else {
            Err(ObsError::RuntimeUnavailable)
        }
    }

    /// Engine handle of the first scene registered under `name`.
    pub fn get_scene(&self, name: &str) -> (r: Option<u64>)
        ensures
            match r {
                Some(h) => exists|i: int|
                    0 <= i < self.scenes_spec().len() && self.scenes_spec()[i] == (name@, h)
                        && forall|j: int| 0 <= j < i ==> (#[trigger] self.scenes_spec()[j]).0 != name@,
                None => forall|j: int| 0 <= j < self.scenes_spec().len() ==> (#[trigger] self.scenes_spec()[j]).0 != name@,
            },
    {
        let key = name.to_owned();
        let mut i: usize = 0;
        while i < self.scenes.len()
            invariant
                0 <= i <= self.scenes@.len(),
                key@ == name@,
                forall|j: int| 0 <= j < i ==> (#[trigger] self.scenes_spec()[j]).0 != name@,
            decreases self.scenes@.len() - i,
        {
            if self.scenes[i].0 == key {
                assert(self.scenes_spec()[i as int] == (name@, self.scenes@[i as int].1));
                return Some(self.scenes[i].1);
            }
            i = i + 1;
        }
        None
    }

    /// Takes every registration of `scene` out of the registry, for a scene
    /// that is released on its own before the context shuts down; the rest
    /// keep their order.
    pub fn remove_scene(&mut self, scene: u64)
        ensures
            final(self).runtime_spec() == old(self).runtime_spec(),
            final(self).scenes_spec() == old(self).scenes_spec().filter(|e: (Seq<char>, u64)| e.1 != scene),
    {
        let ghost full = self.scenes_spec();
        let mut kept: Vec<(String, u64)> = Vec::new();
        let mut old_scenes: Vec<(String, u64)> = Vec::new();
        std::mem::swap(&mut old_scenes, &mut self.scenes);
        let mut i: usize = 0;
        while i < old_scenes.len()
            invariant
                0 <= i <= old_scenes@.len(),
                old_scenes@.map_values(|e: (String, u64)| (e.0@, e.1)) == full,
                kept@.map_values(|e: (String, u64)| (e.0@, e.1))
                    == full.subrange(0, i as int).filter(|e: (Seq<char>, u64)| e.1 != scene),
            decreases old_scenes@.len() - i,
        {
            let ghost pre = full.subrange(0, i as int);
            assert(full.subrange(0, i + 1) =~= pre.push(full[i as int]));
            proof {
                reveal(Seq::filter);
                assert(pre.push(full[i as int]).drop_last() =~= pre);
            }
            if old_scenes[i].1 != scene {
                let name = old_scenes[i].0.clone();
                kept.push((name, old_scenes[i].1));
                assert(kept@.map_values(|e: (String, u64)| (e.0@, e.1))
                    =~= full.subrange(0, i as int).filter(|e: (Seq<char>, u64)| e.1 != scene).push(full[i as int]));
            }
            i = i + 1;
        }
        assert(full.subrange(0, i as int) =~= full);
        self.scenes = kept;
    }

    /// Tears the context down: every scene is handed back for release
    /// before the dispatcher terminates, and the commands that never ran
    /// are handed back for cancellation.
    pub fn shutdown(&mut self) -> (plan: ShutdownPlan)
        requires
            old(self).wf(),
        ensures
            final(self).wf(),
            plan.scenes@ == old(self).scenes_spec().map_values(|e: (Seq<char>, u64)| e.1),
            plan.cancelled@ == old(self).runtime_spec().pending(),
            final(self).scenes_spec() == Seq::<(Seq<char>, u64)>::empty(),
            final(self).runtime_spec().state_spec() == RuntimeState::Terminated,
            final(self).runtime_spec().pending() == Seq::<u64>::empty(),
    {
        let mut handles: Vec<u64> = Vec::new();
        let mut i: usize = 0;
        while i < self.scenes.len()
            invariant
                0 <= i <= self.scenes@.len(),
                handles@ == self.scenes@.subrange(0, i as int).map_values(|e: (String, u64)| e.1),
            decreases self.scenes@.len() - i,
        {
            handles.push(self.scenes[i].1);
            assert(self.scenes@.subrange(0, i + 1) =~= self.scenes@.subrange(0, i as int).push(self.scenes@[i as int]));
            i = i + 1;
        }
        assert(self.scenes@.subrange(0, i as int) =~= self.scenes@);
        assert(handles@ =~= old(self).scenes_spec().map_values(|e: (Seq<char>, u64)| e.1));
        self.scenes = Vec::new();
        self.runtime.shutdown();
        let cancelled = self.runtime.terminate();
        assert(self.scenes_spec() =~= Seq::<(Seq<char>, u64)>::empty());
        ShutdownPlan { scenes: handles, cancelled }
    }
}

} // verus!
