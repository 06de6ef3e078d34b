//! The window toggle controller: consuming one toggle event, it re-queries
//! the registry for the palette label and closes the window it finds, or
//! creates a new one with the fixed configuration. The registry query is
//! the only source of state; nothing is cached across events.

use vstd::prelude::*;

use crate::shortcut::{Listener, ShortcutEvent, ToggleEvent};
use crate::window::{palette_config, Registry, WindowConfig, WindowCreateError, WindowLabel};

verus! {

/// The command the controller issues for one toggle event.
pub enum Action {
    /// No palette window exists: create one with the fixed configuration.
    CreateNew(WindowConfig),
    /// A palette window exists: close it.
    CloseExisting,
}

/// What one consumed toggle event did to the palette window.
#[derive(Clone, Copy, Debug, PartialEq, Eq, Structural)]
pub enum Toggled {
    /// A palette window was created, with this handle.
    Opened(u64),
    /// The palette window with this handle was closed.
    Closed(u64),
}

/// The controller's decision rule. `palette_exists` is the answer of a
/// registry query for the palette label made immediately before deciding:
/// close the window the registry reported, or create a new one with the
/// fixed configuration.
pub fn decide(palette_exists: bool) -> (a: Action)
    ensures
        a is CloseExisting <==> palette_exists,
        a matches Action::CreateNew(c) ==> c.is_palette_config(),
{
    if palette_exists {
        Action::CloseExisting
    } else {
        Action::CreateNew(palette_config())
    }
}

/// What one consumed press does to the registry: a relation between the
/// state before, the state after, the toolkit's verdict on a create
/// command, and the reported result.
pub open spec fn toggle_post(
    pre: Registry,
    post: Registry,
    create_ok: bool,
    r: Result<Toggled, WindowCreateError>,
) -> bool {
    &&& post.wf()
    &&& (pre.has_palette() || (create_ok && pre.can_allocate())) ==> post.has_palette()
        == toggle_step(pre.has_palette())
    &&& pre.has_palette() ==> {
        &&& exists|i: int|
            #[trigger] pre.palette_at(i) && post@ == pre@.remove(i) && r == Ok::<
                Toggled,
                WindowCreateError,
            >(Toggled::Closed(pre@[i].id))
        &&& post.fresh_bound() == pre.fresh_bound()
    }
    &&& !pre.has_palette() && create_ok && pre.can_allocate() ==> {
        &&& post@.len() == pre@.len() + 1
        &&& post@.subrange(0, pre@.len() as int) == pre@
        &&& post@.last().label is CommandPalette
        &&& post@.last().config.is_palette_config()
        &&& post@.last().id as int == pre.fresh_bound()
        &&& post.fresh_bound() == pre.fresh_bound() + 1
        &&& r == Ok::<Toggled, WindowCreateError>(Toggled::Opened(post@.last().id))
    }
    &&& !pre.has_palette() && !create_ok ==> post == pre && r == Err::<Toggled, WindowCreateError>(
        WindowCreateError::Rejected,
    )
    &&& !pre.has_palette() && create_ok && !pre.can_allocate() ==> post == pre && r == Err::<
        Toggled,
        WindowCreateError,
    >(WindowCreateError::Exhausted)
}

/// Consume one toggle event: query the registry for the palette label and
/// close the window it reports, or create a new one. `create_ok` is the
/// host toolkit's verdict on a create command; a refused create leaves the
/// state as it was and is reported, never retried.
pub fn toggle(reg: &mut Registry, _event: ToggleEvent, create_ok: bool) -> (r: Result<
    Toggled,
    WindowCreateError,
>)
    requires
        old(reg).wf(),
    ensures
        toggle_post(*old(reg), *final(reg), create_ok, r),
{
    let ghost pre = *reg;
    let existing = reg.lookup(WindowLabel::CommandPalette);
    match decide(existing.is_some()) {
        Action::CloseExisting => {
            let id = existing.unwrap();
            let ghost j = choose|j: int|
                0 <= j < pre@.len() && (#[trigger] pre@[j]).label == WindowLabel::CommandPalette
                    && pre@[j].id == id;
            let res = reg.close(id);
            proof {
                assert(res is Ok);
                let i = choose|i: int|
                    0 <= i < pre@.len() && (#[trigger] pre@[i]).id == id && reg@ == pre@.remove(i);
                assert(i == j) by {
                    if i != j {
                        assert(pre@[i].id != pre@[j].id);
                    }
                }
                assert(pre.palette_at(i));
                crate::window::lemma_remove_palette(pre, *reg, i);
            }
            Ok(Toggled::Closed(id))
        },
        Action::CreateNew(config) => {
            proof {
                assert(!pre.has_palette());
            }
            if create_ok {
                let res = reg.create(WindowLabel::CommandPalette, config);
                match res {
                    Ok(id) => {
                        proof {
                            assert(reg@.subrange(0, pre@.len() as int) =~= pre@);
                            assert(reg.palette_at(pre@.len() as int));
                        }
                        Ok(Toggled::Opened(id))
                    },
                    Err(e) => {
                        proof {
                            assert(e == WindowCreateError::Exhausted);
                        }
                        Err(e)
                    },
                }
            } else {
                Err(WindowCreateError::Rejected)
            }
        },
    }
}

/// One full step of the event loop: filter a raw key transition through
/// the listener and, on a press of the bound combination, run the toggle
/// against the registry. Any other transition changes nothing.
pub fn dispatch(listener: &Listener, reg: &mut Registry, e: &ShortcutEvent, create_ok: bool) -> (r:
    Option<Result<Toggled, WindowCreateError>>)
    requires
        old(reg).wf(),
    ensures
        final(reg).wf(),
        r is Some <==> listener.registered && e.state is Pressed && listener.binding.spec_matches(
            *e,
        ),
        r matches Some(res) ==> toggle_post(*old(reg), *final(reg), create_ok, res),
        r is None ==> *final(reg) == *old(reg),
{
    match listener.filter(e) {
        Some(ev) => Some(toggle(reg, ev, create_ok)),
        None => None,
    }
}

/// One press inverts whether the palette is open.
pub open spec fn toggle_step(open: bool) -> bool {
    !open
}

/// Whether the palette is open after `n` fault-free presses, starting from
/// the closed state.
pub open spec fn open_after(n: nat) -> bool
    decreases n,
{
    if n == 0 {
        false
    } else {
        toggle_step(open_after((n - 1) as nat))
    }
}

/// Law: starting from the closed state, after `n` consecutive presses with
/// no external interference the palette window exists iff `n` is odd. Each
/// press realises `toggle_step` on the registry (see `toggle_post`), so
/// the parity carries over to the live window.
pub proof fn lemma_toggle_parity(n: nat)
    ensures
        open_after(n) <==> n % 2 == 1,
    decreases n,
{
    if n > 0 {
        lemma_toggle_parity((n - 1) as nat);
    }
}

/// Law: a press keeps the registry in step with the abstract toggle state.
/// If the palette's existence agrees with `open_after(n)` before a press
/// that the toolkit does not refuse, it agrees with `open_after(n + 1)`
/// after it; with `lemma_toggle_parity` and `Registry::new` (closed, in
/// step with `open_after(0)`), the palette exists after `n` fault-free
/// presses from the start exactly when `n` is odd.
pub proof fn lemma_press_tracks_parity(
    pre: Registry,
    post: Registry,
    create_ok: bool,
    r: Result<Toggled, WindowCreateError>,
    n: nat,
)
    requires
        toggle_post(pre, post, create_ok, r),
        pre.has_palette() || (create_ok && pre.can_allocate()),
        pre.has_palette() == open_after(n),
    ensures
        post.has_palette() == open_after(n + 1),
{
}

/// Law: however the palette disappeared — toggled away or closed by
/// external action — a press on the closed state opens it again whenever
/// the toolkit accepts the create command. The controller re-queries the
/// registry on every event, so it cannot believe a vanished window is
/// still open.
pub proof fn lemma_external_close_resilience(
    pre: Registry,
    post: Registry,
    create_ok: bool,
    r: Result<Toggled, WindowCreateError>,
)
    requires
        !pre.has_palette(),
        create_ok,
        pre.can_allocate(),
        toggle_post(pre, post, create_ok, r),
    ensures
        post.has_palette(),
        r is Ok,
{
    assert(post.palette_at(post@.len() - 1));
}

} // verus!
