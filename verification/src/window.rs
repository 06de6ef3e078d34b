//! The window registry model: live windows keyed by a logical label,
//! with the palette window's fixed configuration.

use vstd::prelude::*;

verus! {

/// Logical identifier of a window in the registry. Labels are unique:
/// at most one live window exists under each label.
#[derive(Clone, Copy, Debug, PartialEq, Eq, Structural)]
pub enum WindowLabel {
    /// The auxiliary command-palette window.
    CommandPalette,
    /// The application's main window.
    Main,
}

/// The parameters a window is created with: title, navigation target,
/// size in logical pixels, and the chrome flags.
#[derive(Clone, Debug, PartialEq, Eq)]
pub struct WindowConfig {
    pub title: String,
    pub url: String,
    pub width: u32,
    pub height: u32,
    pub decorations: bool,
    pub centered: bool,
    pub skip_taskbar: bool,
    pub always_on_top: bool,
}

impl WindowConfig {
    /// The fixed parameters of the palette window: titled "Command Palette",
    /// 600 by 400 logical pixels, undecorated, centered, excluded from the
    /// task switcher, always on top, navigating to "/command-palette".
    pub open spec fn is_palette_config(self) -> bool {
        &&& self.title@ == "Command Palette"@
        &&& self.url@ == "/command-palette"@
        &&& self.width == 600
        &&& self.height == 400
        &&& !self.decorations
        &&& self.centered
        &&& self.skip_taskbar
        &&& self.always_on_top
    }
}

/// The fixed text under which a label is known to the host windowing
/// subsystem; the palette window's identifier is "command-palette".
pub fn label_text(label: WindowLabel) -> (s: &'static str)
    ensures
        label is CommandPalette ==> s@ == "command-palette"@,
        label is Main ==> s@ == "main"@,
{
    match label {
        WindowLabel::CommandPalette => "command-palette",
        WindowLabel::Main => "main",
    }
}

/// The configuration the controller uses for every palette window it creates.
pub fn palette_config() -> (c: WindowConfig)
    ensures
        c.is_palette_config(),
{
    WindowConfig {
        title: String::from_str("Command Palette"),
        url: String::from_str("/command-palette"),
        width: 600,
        height: 400,
        decorations: false,
        centered: true,
        skip_taskbar: true,
        always_on_top: true,
    }
}

/// A live window: its label, an opaque handle distinguishing this instance
/// from earlier ones under the same label, and the configuration it was
/// created with.
#[derive(Clone, Debug, PartialEq, Eq)]
pub struct WindowRecord {
    pub label: WindowLabel,
    pub id: u64,
    pub config: WindowConfig,
}

/// Creating a window failed; the registry is unchanged.
#[derive(Clone, Copy, Debug, PartialEq, Eq, Structural)]
pub enum WindowCreateError {
    /// A window already exists under the requested label.
    DuplicateLabel,
    /// The toolkit refused the create command (resource exhaustion).
    Exhausted,
    /// The host toolkit reported a failure of its own.
    Rejected,
}

/// Closing a window failed because the handle is stale: no window with
/// that handle is alive. Callers treat this as already closed.
#[derive(Clone, Copy, Debug, PartialEq, Eq, Structural)]
pub enum WindowCloseError {
    StaleHandle,
}

/// The window registry: the set of live windows, and the source of truth
/// the controller consults on every event. Labels and handles are unique.
pub struct Registry {
    windows: Vec<WindowRecord>,
    next_id: u64,
}

impl View for Registry {
    type V = Seq<WindowRecord>;

    closed spec fn view(&self) -> Seq<WindowRecord> {
        self.windows@
    }
}

impl Registry {
    /// Handles issued so far are all below this bound; a fresh handle is
    /// available exactly while it is below `u64::MAX`.
    pub closed spec fn fresh_bound(self) -> int {
        self.next_id as int
    }

    /// A fresh handle can still be issued.
    pub open spec fn can_allocate(self) -> bool {
        self.fresh_bound() < u64::MAX
    }

    /// Well-formedness: labels are unique, handles are unique, and every
    /// issued handle lies below the fresh bound.
    pub open spec fn wf(self) -> bool {
        &&& forall|i: int, j: int|
            0 <= i < j < self@.len() ==> (#[trigger] self@[i]).label != (#[trigger] self@[j]).label
        &&& forall|i: int, j: int|
            0 <= i < j < self@.len() ==> (#[trigger] self@[i]).id != (#[trigger] self@[j]).id
        &&& forall|i: int| 0 <= i < self@.len() ==> (#[trigger] self@[i]).id < self.fresh_bound()
    }

    /// The window at position `i` is the palette window.
    pub open spec fn palette_at(self, i: int) -> bool {
        0 <= i < self@.len() && self@[i].label is CommandPalette
    }

    /// Some live window carries the palette label.
    pub open spec fn has_palette(self) -> bool {
        exists|i: int| self.palette_at(i)
    }

    /// An empty registry: no windows, no handles issued.
    pub fn new() -> (r: Registry)
        ensures
            r.wf(),
            r@ == Seq::<WindowRecord>::empty(),
            r.fresh_bound() == 0,
    {
        Registry { windows: Vec::new(), next_id: 0 }
    }

    pub fn len(&self) -> (n: usize)
        ensures
            n == self@.len(),
    {
        self.windows.len()
    }

    pub fn get(&self, i: usize) -> (w: &WindowRecord)
        requires
            i < self@.len(),
        ensures
            *w == self@[i as int],
    {
        &self.windows[i]
    }

    /// Look the label up and return the handle of the live window under it,
    /// if one exists. This query is the controller's only source of state.
    pub fn lookup(&self, label: WindowLabel) -> (r: Option<u64>)
        ensures
            match r {
                Some(id) => exists|i: int|
                    0 <= i < self@.len() && (#[trigger] self@[i]).label == label && self@[i].id == id,
                None => forall|i: int| 0 <= i < self@.len() ==> (#[trigger] self@[i]).label != label,
            },
    {
        let mut i: usize = 0;
        while i < self.windows.len()
            invariant
                i <= self.windows.len(),
                self.windows@ == self@,
                forall|k: int| 0 <= k < i ==> (#[trigger] self@[k]).label != label,
            decreases self.windows.len() - i,
        {
            if self.windows[i].label == label {
                return Some(self.windows[i].id);
            }
            i = i + 1;
        }
        None
    }

    /// Create a window under `label` with the given configuration. Fails,
    /// leaving the registry unchanged, exactly when a window already lives
    /// under that label or no fresh handle is left.
    pub fn create(&mut self, label: WindowLabel, config: WindowConfig) -> (r: Result<
        u64,
        WindowCreateError,
    >)
        requires
            old(self).wf(),
        ensures
            final(self).wf(),
            match r {
                Ok(id) => {
                    &&& id as int == old(self).fresh_bound()
                    &&& final(self)@ == old(self)@.push((WindowRecord { label, id, config }))
                    &&& final(self).fresh_bound() == old(self).fresh_bound() + 1
                    &&& forall|i: int|
                        0 <= i < old(self)@.len() ==> (#[trigger] old(self)@[i]).label != label
                },
                Err(e) => {
                    &&& *final(self) == *old(self)
                    &&& (e == WindowCreateError::DuplicateLabel <==> exists|i: int|
                        0 <= i < old(self)@.len() && (#[trigger] old(self)@[i]).label == label)
                    &&& (e == WindowCreateError::Exhausted <==> !old(self).can_allocate()
                        && forall|i: int|
                        0 <= i < old(self)@.len() ==> (#[trigger] old(self)@[i]).label != label)
                },
            },
            r is Err <==> (!old(self).can_allocate() || exists|i: int|
                0 <= i < old(self)@.len() && (#[trigger] old(self)@[i]).label == label),
    {
        if let Some(_existing) = self.lookup(label) {
            return Err(WindowCreateError::DuplicateLabel);
        }
        if self.next_id == u64::MAX {
            return Err(WindowCreateError::Exhausted);
        }
        let id = self.next_id;
        self.next_id = self.next_id + 1;
        self.windows.push(WindowRecord { label, id, config });
        Ok(id)
    }

    /// Position of the live window with handle `id`, if any.
    fn find_index(&self, id: u64) -> (r: Option<usize>)
        ensures
            match r {
                Some(i) => i < self@.len() && self@[i as int].id == id,
                None => forall|k: int| 0 <= k < self@.len() ==> (#[trigger] self@[k]).id != id,
            },
    {
        let mut i: usize = 0;
        while i < self.windows.len()
            invariant
                i <= self.windows.len(),
                forall|k: int| 0 <= k < i ==> (#[trigger] self@[k]).id != id,
            decreases self.windows.len() - i,
        {
            if self.windows[i].id == id {
                return Some(i);
            }
            i = i + 1;
        }
        None
    }

    /// Close the window with handle `id`. Fails, leaving the registry
    /// unchanged, exactly when no live window carries that handle.
    pub fn close(&mut self, id: u64) -> (r: Result<(), WindowCloseError>)
        requires
            old(self).wf(),
        ensures
            final(self).wf(),
            final(self).fresh_bound() == old(self).fresh_bound(),
            r is Ok <==> exists|i: int|
                0 <= i < old(self)@.len() && (#[trigger] old(self)@[i]).id == id,
            r is Ok ==> exists|i: int|
                0 <= i < old(self)@.len() && (#[trigger] old(self)@[i]).id == id && final(self)@
                    == old(self)@.remove(i),
            r is Err ==> *final(self) == *old(self) && r == Err::<(), WindowCloseError>(
                WindowCloseError::StaleHandle,
            ),
    {
        match self.find_index(id) {
            Some(i) => {
                let ghost pre = self.windows@;
                self.windows.remove(i);
                proof {
                    pre.remove_ensures(i as int);
                    assert forall|a: int, b: int|
                        0 <= a < b < self@.len() implies (#[trigger] self@[a]).label != (
                    #[trigger] self@[b]).label && self@[a].id != self@[b].id by {
                        let a0: int = if a < i { a } else { a + 1 };
                        let b0: int = if b < i { b } else { b + 1 };
                        assert(pre[a0] == self@[a]);
                        assert(pre[b0] == self@[b]);
                    }
                }
                Ok(())
            },
            None => Err(WindowCloseError::StaleHandle),
        }
    }

    /// Close the palette window by means other than the shortcut (for
    /// example, the user dismissing it). Returns whether a palette window
    /// existed; afterwards none does, and no other window is touched.
    pub fn external_close(&mut self) -> (r: bool)
        requires
            old(self).wf(),
        ensures
            final(self).wf(),
            final(self).fresh_bound() == old(self).fresh_bound(),
            !final(self).has_palette(),
            r == old(self).has_palette(),
            !old(self).has_palette() ==> *final(self) == *old(self),
            old(self).has_palette() ==> exists|i: int|
                #[trigger] old(self).palette_at(i) && final(self)@ == old(self)@.remove(i),
    {
        let ghost pre = *self;
        match self.lookup(WindowLabel::CommandPalette) {
            Some(id) => {
                let ghost j = choose|j: int|
                    0 <= j < pre@.len() && (#[trigger] pre@[j]).label == WindowLabel::CommandPalette
                        && pre@[j].id == id;
                let res = self.close(id);
                proof {
                    assert(res is Ok);
                    let i = choose|i: int|
                        0 <= i < pre@.len() && (#[trigger] pre@[i]).id == id && self@ == pre@.remove(
                            i,
                        );
                    assert(i == j) by {
                        if i != j {
                            assert(pre@[i].id != pre@[j].id);
                        }
                    }
                    assert(pre.palette_at(i));
                    lemma_remove_palette(pre, *self, i);
                }
                true
            },
            None => {
                proof {
                    assert forall|k: int| !self.palette_at(k) by {}
                }
                false
            },
        }
    }
}

/// Removing the position that holds the palette window leaves a registry
/// without one: by label uniqueness no second position can hold it.
pub proof fn lemma_remove_palette(pre: Registry, post: Registry, i: int)
    requires
        pre.wf(),
        pre.palette_at(i),
        post@ == pre@.remove(i),
    ensures
        !post.has_palette(),
{
    pre@.remove_ensures(i);
    assert forall|k: int| !post.palette_at(k) by {
        if 0 <= k < post@.len() {
            let k0: int = if k < i {
                k
            } else {
                k + 1
            };
            assert(post@[k] == pre@[k0]);
            if k0 != i {
                assert(pre@[k0].label != pre@[i].label);
            }
        }
    }
}

/// Law: the registry never holds more than one live palette window. Any
/// two positions carrying the palette label are the same position, in any
/// well-formed registry; every registry operation preserves well-formedness.
pub proof fn lemma_at_most_one_palette(r: Registry, i: int, j: int)
    requires
        r.wf(),
        r.palette_at(i),
        r.palette_at(j),
    ensures
        i == j,
{
    if i != j {
        assert(r@[i].label != r@[j].label);
        assert(r@[i].label == r@[j].label);
    }
}

} // verus!
