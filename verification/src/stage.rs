//! The display objects of the player, as far as calls look at them.
use vstd::prelude::*;

use crate::value::{DisplayObject, Value};

verus! {

/// What a call reads of a display object.
#[derive(Debug)]
pub struct Clip {
    /// Whether it has been taken off the stage.
    pub removed: bool,
    /// The version of the SWF it comes from.
    pub swf_version: u8,
    /// Whether it is a movie clip, rather than a button or a text field.
    pub is_movie_clip: bool,
    /// The script object that stands for it; `undefined` if it has none.
    pub object: Value,
    /// What `_root` means in it.
    pub root: DisplayObject,
    /// What `_parent` means in it: nothing, on a root timeline.
    pub parent: Option<DisplayObject>,
}

/// All display objects.
#[derive(Debug)]
pub struct Stage {
    pub clips: Vec<Clip>,
}

impl Stage {
    /// The display object exists.
    pub open spec fn has(self, clip: DisplayObject) -> bool {
        clip.index < self.clips@.len()
    }

    /// The record of a display object.
    pub open spec fn record(self, clip: DisplayObject) -> Clip {
        self.clips@[clip.index as int]
    }

    /// Roots and parents exist.
    pub open spec fn wf(self) -> bool {
        forall|clip: DisplayObject| #[trigger]
            self.has(clip) ==> {
                &&& self.has(self.record(clip).root)
                &&& self.record(clip).parent matches Some(parent) ==> self.has(parent)
            }
    }

    /// What `_root` evaluates to in a display object.
    pub open spec fn root_value(self, clip: DisplayObject) -> Value {
        self.record(self.record(clip).root).object
    }

    /// What `_parent` evaluates to in a display object, if it has one.
    pub open spec fn parent_value(self, clip: DisplayObject) -> Option<Value> {
        match self.record(clip).parent {
            Some(parent) => Some(self.record(parent).object),
            None => None,
        }
    }

    /// Whether the display object exists.
    pub fn contains(&self, clip: DisplayObject) -> (res: bool)
        ensures
            res == self.has(clip),
    {
        clip.index < self.clips.len()
    }

    /// Whether roots and parents exist.
    pub fn is_consistent(&self) -> (res: bool)
        ensures
            res == self.wf(),
    {
        let mut i: usize = 0;
        while i < self.clips.len()
            invariant
                i <= self.clips@.len(),
                forall|clip: DisplayObject|
                    clip.index < i && #[trigger] self.has(clip) ==> {
                        &&& self.has(self.record(clip).root)
                        &&& self.record(clip).parent matches Some(parent) ==> self.has(parent)
                    },
            decreases self.clips@.len() - i,
        {
            let ghost clip = DisplayObject { index: i };
            assert(self.has(clip));
            if !self.contains(self.clips[i].root) {
                return false;
            }
            if let Some(parent) = self.clips[i].parent {
                if !self.contains(parent) {
                    return false;
                }
            }
            i += 1;
        }
        true
    }

    /// The record of a display object.
    pub fn clip(&self, clip: DisplayObject) -> (res: &Clip)
        requires
            self.has(clip),
        ensures
            *res == self.record(clip),
    {
        &self.clips[clip.index]
    }
}

} // verus!
