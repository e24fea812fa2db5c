//! The records of all live windows and the alias table that goes with them.

use vstd::prelude::*;
use std::collections::BTreeMap;
use crate::alias::lemma_link_keeps_wf;
use crate::alias::lemma_unlink_keeps_wf;
use crate::alias::AliasTable;
use crate::alias::AliasView;
use crate::application::Appearance;
use crate::application::Application;
use crate::foreign::map_get_mut;
use crate::ids::SurfaceId;
use crate::ids::WindowId;
use crate::input::Interaction;
use crate::ordered::ascending_keys;
use crate::ordered::below;
use crate::ordered::lemma_listing_length;
use crate::ordered::lemma_position_counts_smaller;
use crate::ordered::lists_in_order;
use crate::scale::ScaleFactor;
use crate::state::answers;
use crate::state::State;
use crate::state::StateView;
use crate::viewport::DestinationRule;

verus! {

/// The record of one live window: its state, and what draws it.
///
/// `T` is the theme of the application, `R` the renderer and `S` the drawing
/// surface. The manager stores both
/// and hands them back; it never looks inside them.
pub struct Window<T, R, S> {
    /// The protocol's identifier of the window's surface.
    pub id: SurfaceId,
    pub renderer: R,
    pub surface: S,
    pub state: State<T>,
    pub mouse_interaction: Interaction,
}

/// The set of live windows.
///
/// The manager alone makes and drops the records of windows. It keeps them by
/// toolkit id, and beside them the table that links each toolkit id with the
/// protocol id of the window's surface.
pub struct WindowManager<T, R, S> {
    aliases: AliasTable,
    entries: BTreeMap<u64, Window<T, R, S>>,
}

/// What a [`WindowManager`] holds, with `W` the record of a window and ids
/// taken by their numbers.
pub struct ManagerView<W> {
    /// The record of each live window, by toolkit id.
    pub entries: Map<u64, W>,
    /// The links between toolkit ids and protocol ids.
    pub aliases: AliasView,
}

impl<W> ManagerView<W> {
    /// The manager without any window.
    pub open spec fn empty() -> ManagerView<W> {
        ManagerView { entries: Map::empty(), aliases: AliasView::empty() }
    }

    /// Whether the three maps agree: the two directions of the alias table
    /// are inverse to each other, and the table links exactly the windows
    /// that have a record.
    pub open spec fn wf(self) -> bool {
        &&& self.aliases.wf()
        &&& self.entries.dom().finite()
        &&& self.entries.dom() == self.aliases.back_aliases.dom()
    }

    /// Whether no window is live.
    pub open spec fn is_empty(self) -> bool {
        self.entries.dom().is_empty()
    }

    /// Whether the window is live.
    pub open spec fn contains(self, window: WindowId) -> bool {
        self.entries.contains_key(window.0)
    }

    /// The window of a surface.
    pub open spec fn window_of(self, surface: SurfaceId) -> Option<WindowId> {
        self.aliases.window_of(surface)
    }

    /// The surface of a window.
    pub open spec fn surface_of(self, window: WindowId) -> Option<SurfaceId> {
        self.aliases.surface_of(window)
    }

    /// How many live windows have a smaller toolkit id than the given one:
    /// the place of the window when the live windows are taken in ascending
    /// order of their ids.
    pub open spec fn position(self, window: WindowId) -> nat {
        below(self.entries.dom(), window.0).len()
    }

    /// This manager with a new window, linked with its surface.
    pub open spec fn inserted(self, window: WindowId, surface: SurfaceId, record: W) -> ManagerView<
        W,
    > {
        ManagerView {
            entries: self.entries.insert(window.0, record),
            aliases: self.aliases.linked(window, surface),
        }
    }

    /// This manager with another record for the window.
    pub open spec fn with_record(self, window: WindowId, record: W) -> ManagerView<W> {
        ManagerView { entries: self.entries.insert(window.0, record), aliases: self.aliases }
    }

    /// This manager without the window: without its record and without its
    /// link in either direction.
    pub open spec fn removed(self, window: WindowId) -> ManagerView<W> {
        ManagerView {
            entries: self.entries.remove(window.0),
            aliases: self.aliases.unlinked(window),
        }
    }
}

impl<T, R, S> View for WindowManager<T, R, S> {
    type V = ManagerView<Window<T, R, S>>;

    closed spec fn view(&self) -> ManagerView<Window<T, R, S>> {
        ManagerView { entries: self.entries@, aliases: self.aliases@ }
    }
}

impl<T, R, S> WindowManager<T, R, S> {
    /// The manager without any window.
    pub fn new() -> (manager: Self)
        ensures
            manager@ == ManagerView::<Window<T, R, S>>::empty(),
            manager@.wf(),
            manager@.is_empty(),
    {
        WindowManager { aliases: AliasTable::new(), entries: BTreeMap::new() }
    }

    /// Makes the record of a new window and returns it.
    ///
    /// The state of the window is made as [`State::new`] makes it, from
    /// `size`, `destination_rule` and the answers of the application. `create`
    /// is then called once, with the physical width and height that the state
    /// holds, for the drawing surface and the renderer. The window is linked
    /// with `surface` in both directions, and its record starts out with an
    /// idle pointer.
    ///
    /// Neither `id` nor `surface` may be known to the manager: toolkit ids
    /// and protocol ids are handed out once each.
    pub fn insert<A: Application<Theme = T>, F: FnOnce(u32, u32) -> (S, R)>(
        &mut self,
        id: WindowId,
        size: (u32, u32),
        surface: SurfaceId,
        destination_rule: Option<DestinationRule>,
        application: &A,
        create: F,
    ) -> (window: &mut Window<T, R, S>)
        requires
            old(self)@.wf(),
            !old(self)@.contains(id),
            old(self)@.window_of(surface).is_none(),
            create.requires((size.0, size.1)),
        ensures
            window.id == surface,
            window.mouse_interaction == Interaction::Idle,
            create.ensures((size.0, size.1), (window.surface, window.renderer)),
            exists|scale_factor: ScaleFactor, theme: T, appearance: Appearance|
                {
                    &&& answers(application, id, scale_factor, theme, appearance)
                    &&& window.state@ == StateView::initial(
                        id,
                        size,
                        destination_rule,
                        scale_factor,
                        theme,
                        appearance,
                    )
                },
            final(self)@ == old(self)@.inserted(id, surface, *final(window)),
            final(self)@.wf(),
            !final(self)@.is_empty(),
    {
        let state = State::new(id, application, size, destination_rule);
        let physical_size = state.physical_size();
        let (drawing_surface, renderer) = create(physical_size.width, physical_size.height);
        self.aliases.link(id, surface);
        let _ = self.entries.insert(
            id.0,
            Window {
                id: surface,
                renderer,
                surface: drawing_surface,
                state,
                mouse_interaction: Interaction::Idle,
            },
        );
        proof {
            let before = old(self)@;
            let stored = self@.entries;
            assert forall|record: Window<T, R, S>|
                before.inserted(id, surface, record).wf() && stored.insert(id.0, record)
                    == #[trigger] before.inserted(id, surface, record).entries by {
                lemma_insert_keeps_wf(before, id, surface, record);
                assert(stored.insert(id.0, record) =~= before.entries.insert(id.0, record));
            }
            assert forall|record: Window<T, R, S>|
                !(#[trigger] before.inserted(id, surface, record)).is_empty() by {
                assert(before.inserted(id, surface, record).entries.dom().contains(id.0));
            }
        }
        map_get_mut(&mut self.entries, id.0).expect("Get window that was just inserted")
    }

    /// Whether no window is live.
    pub fn is_empty(&self) -> (r: bool)
        ensures
            r == self@.is_empty(),
    {
        self.entries.is_empty()
    }

    /// The toolkit ids of the live windows, in ascending order.
    pub fn ids(&self) -> (ids: Vec<WindowId>)
        ensures
            ids@.len() == self@.entries.dom().len(),
            forall|i: int| 0 <= i < ids@.len() ==> self@.contains(#[trigger] ids@[i]),
            forall|i: int| 0 <= i < ids@.len() ==> self@.position(#[trigger] ids@[i]) == i,
            forall|i: int, j: int| 0 <= i < j < ids@.len() ==> ids@[i].0 < ids@[j].0,
            forall|window: WindowId| self@.contains(window) ==> ids@.contains(window),
    {
        let keys = ascending_keys(&self.entries);
        let mut ids: Vec<WindowId> = Vec::new();
        let mut next: usize = 0;
        while next < keys.len()
            invariant
                next <= keys@.len(),
                ids@.len() == next,
                forall|i: int| 0 <= i < next ==> (#[trigger] ids@[i]).0 == keys@[i],
            decreases keys@.len() - next,
        {
            ids.push(WindowId(keys[next]));
            next = next + 1;
        }
        proof {
            let domain = self@.entries.dom();
            lemma_listing_length(keys@, domain);
            assert forall|i: int| 0 <= i < ids@.len() implies self@.position(#[trigger] ids@[i])
                == i by {
                lemma_position_counts_smaller(keys@, domain, i);
            }
            assert forall|window: WindowId| self@.contains(window) implies ids@.contains(
                window,
            ) by {
                assert(keys@.contains(window.0));
                let i = choose|i: int| 0 <= i < keys@.len() && keys@[i] == window.0;
                assert(ids@[i] == window);
            }
        }
        ids
    }

    /// The live window with exactly `index` live windows of smaller toolkit
    /// id, with its id, and `None` where there are no more than `index` live
    /// windows.
    ///
    /// Counting `index` up from zero until `None` comes back visits every
    /// live window once, in ascending order of the toolkit ids.
    pub fn iter_mut(&mut self, index: usize) -> (item: Option<(WindowId, &mut Window<T, R, S>)>)
        requires
            old(self)@.wf(),
        ensures
            match item {
                Some((id, window)) => {
                    &&& old(self)@.contains(id)
                    &&& old(self)@.position(id) == index
                    &&& *window == old(self)@.entries[id.0]
                    &&& final(self)@ == old(self)@.with_record(id, *final(window))
                },
                None => {
                    &&& old(self)@.entries.dom().len() <= index
                    &&& final(self)@ == old(self)@
                },
            },
            final(self)@.wf(),
    {
        let ids = self.ids();
        if index < ids.len() {
            let id = ids[index];
            match self.get_mut(id) {
                Some(window) => Some((id, window)),
                None => None,
            }
        } else {
            None
        }
    }

    /// The window of a surface, with its id, and `None` for a surface that
    /// the manager does not know.
    pub fn get_mut_alias(&mut self, id: SurfaceId) -> (found: Option<
        (WindowId, &mut Window<T, R, S>),
    >)
        requires
            old(self)@.wf(),
        ensures
            match found {
                Some((window, record)) => {
                    &&& old(self)@.window_of(id) == Some(window)
                    &&& old(self)@.contains(window)
                    &&& *record == old(self)@.entries[window.0]
                    &&& final(self)@ == old(self)@.with_record(window, *final(record))
                },
                None => {
                    &&& old(self)@.window_of(id).is_none()
                    &&& final(self)@ == old(self)@
                },
            },
            final(self)@.wf(),
    {
        let window = match self.aliases.window_of(id) {
            Some(window) => window,
            None => {
                return None;
            },
        };
        assert(self@.aliases.aliases.contains_key(id.0));
        assert(self@.entries.dom().contains(window.0));
        match self.get_mut(window) {
            Some(record) => Some((window, record)),
            None => None,
        }
    }

    /// The protocol id of a window's surface, and `None` for a window that
    /// the manager does not know.
    pub fn get_iced_id(&self, id: WindowId) -> (surface: Option<SurfaceId>)
        ensures
            surface == self@.surface_of(id),
    {
        self.aliases.surface_of(id)
    }

    /// The record of a window, and `None` for a window that the manager does
    /// not know.
    pub fn get_mut(&mut self, id: WindowId) -> (found: Option<&mut Window<T, R, S>>)
        requires
            old(self)@.wf(),
        ensures
            match found {
                Some(window) => {
                    &&& old(self)@.contains(id)
                    &&& *window == old(self)@.entries[id.0]
                    &&& final(self)@ == old(self)@.with_record(id, *final(window))
                },
                None => {
                    &&& !old(self)@.contains(id)
                    &&& final(self)@ == old(self)@
                },
            },
            final(self)@.wf(),
    {
        proof {
            let before = old(self)@;
            assert forall|record: Window<T, R, S>| before.contains(id) implies (
            #[trigger] before.with_record(id, record)).wf() by {
                lemma_replace_keeps_wf(before, id, record);
            }
        }
        map_get_mut(&mut self.entries, id.0)
    }

    /// Drops a window: its record and its link in both directions, in one
    /// step. Returns the record, and `None` for a window that the manager
    /// does not know, which leaves the manager unchanged.
    pub fn remove(&mut self, id: WindowId) -> (removed: Option<Window<T, R, S>>)
        requires
            old(self)@.wf(),
        ensures
            removed == if old(self)@.contains(id) {
                Some(old(self)@.entries[id.0])
            } else {
                None
            },
            final(self)@ == old(self)@.removed(id),
            !old(self)@.contains(id) ==> final(self)@ == old(self)@,
            final(self)@.wf(),
    {
        let _ = self.aliases.unlink(id);
        let removed = self.entries.remove(&id.0);
        proof {
            lemma_remove_keeps_wf(old(self)@, id);
            if !old(self)@.contains(id) {
                assert(self@.entries =~= old(self)@.entries);
            }
        }
        removed
    }
}

impl<T, R, S> Default for WindowManager<T, R, S> {
    fn default() -> (manager: Self)
        ensures
            manager@ == ManagerView::<Window<T, R, S>>::empty(),
            manager@.wf(),
    {
        WindowManager::new()
    }
}

/// A manager stays well formed when a window that it does not know is
/// inserted with a surface that it does not know.
pub proof fn lemma_insert_keeps_wf<W>(
    manager: ManagerView<W>,
    window: WindowId,
    surface: SurfaceId,
    record: W,
)
    requires
        manager.wf(),
        !manager.contains(window),
        manager.window_of(surface).is_none(),
    ensures
        manager.inserted(window, surface, record).wf(),
{
    lemma_link_keeps_wf(manager.aliases, window, surface);
    let after = manager.inserted(window, surface, record);
    assert(after.entries.dom() =~= after.aliases.back_aliases.dom());
}

/// A manager stays well formed when the record of a live window is replaced
/// by another.
pub proof fn lemma_replace_keeps_wf<W>(manager: ManagerView<W>, window: WindowId, record: W)
    requires
        manager.wf(),
        manager.contains(window),
    ensures
        manager.with_record(window, record).wf(),
{
    let after = manager.with_record(window, record);
    assert(after.entries.dom() =~= manager.entries.dom());
}

/// A manager stays well formed when a window is removed, whether it knew the
/// window or not.
pub proof fn lemma_remove_keeps_wf<W>(manager: ManagerView<W>, window: WindowId)
    requires
        manager.wf(),
    ensures
        manager.removed(window).wf(),
{
    lemma_unlink_keeps_wf(manager.aliases, window);
    let after = manager.removed(window);
    assert(after.entries.dom() =~= after.aliases.back_aliases.dom());
}

/// In a well-formed manager every live window has a surface that leads back
/// to it, and every surface that the manager knows leads to a live window
/// whose surface it is.
pub proof fn lemma_aliases_match_entries<W>(manager: ManagerView<W>)
    requires
        manager.wf(),
    ensures
        forall|window: u64| #[trigger]
            manager.entries.contains_key(window) ==> {
                &&& manager.aliases.back_aliases.contains_key(window)
                &&& manager.aliases.aliases.contains_key(manager.aliases.back_aliases[window])
                &&& manager.aliases.aliases[manager.aliases.back_aliases[window]] == window
            },
        forall|surface: u64| #[trigger]
            manager.aliases.aliases.contains_key(surface) ==> {
                &&& manager.entries.contains_key(manager.aliases.aliases[surface])
                &&& manager.aliases.back_aliases.contains_key(manager.aliases.aliases[surface])
                &&& manager.aliases.back_aliases[manager.aliases.aliases[surface]] == surface
            },
        forall|window: u64| #[trigger]
            manager.aliases.back_aliases.contains_key(window) ==> manager.entries.contains_key(
                window,
            ),
{
    assert forall|window: u64| #[trigger] manager.entries.contains_key(window) implies {
        &&& manager.aliases.back_aliases.contains_key(window)
        &&& manager.aliases.aliases.contains_key(manager.aliases.back_aliases[window])
        &&& manager.aliases.aliases[manager.aliases.back_aliases[window]] == window
    } by {
        assert(manager.entries.dom().contains(window));
        assert(manager.aliases.back_aliases.contains_key(window));
    }
    assert forall|surface: u64| #[trigger] manager.aliases.aliases.contains_key(surface) implies {
        &&& manager.entries.contains_key(manager.aliases.aliases[surface])
        &&& manager.aliases.back_aliases.contains_key(manager.aliases.aliases[surface])
        &&& manager.aliases.back_aliases[manager.aliases.aliases[surface]] == surface
    } by {
        let window = manager.aliases.aliases[surface];
        assert(manager.aliases.back_aliases.dom().contains(window));
    }
    assert forall|window: u64| #[trigger]
        manager.aliases.back_aliases.contains_key(window) implies manager.entries.contains_key(
        window,
    ) by {
        assert(manager.aliases.back_aliases.dom().contains(window));
    }
}

/// Right after a window is inserted, its surface resolves to it, it resolves
/// to its surface, and its record is the one that was stored.
pub proof fn lemma_insert_then_resolve<W>(
    manager: ManagerView<W>,
    window: WindowId,
    surface: SurfaceId,
    record: W,
)
    ensures
        manager.inserted(window, surface, record).window_of(surface) == Some(window),
        manager.inserted(window, surface, record).surface_of(window) == Some(surface),
        manager.inserted(window, surface, record).contains(window),
        manager.inserted(window, surface, record).entries[window.0] == record,
{
}

/// An insertion leaves every other window and every other surface as they
/// were.
pub proof fn lemma_insert_leaves_others<W>(
    manager: ManagerView<W>,
    window: WindowId,
    surface: SurfaceId,
    record: W,
    other_window: WindowId,
    other_surface: SurfaceId,
)
    requires
        other_window != window,
        other_surface != surface,
    ensures
        manager.inserted(window, surface, record).contains(other_window) == manager.contains(
            other_window,
        ),
        manager.inserted(window, surface, record).surface_of(other_window) == manager.surface_of(
            other_window,
        ),
        manager.inserted(window, surface, record).window_of(other_surface) == manager.window_of(
            other_surface,
        ),
{
}

/// After a window is removed the manager knows neither the window nor the
/// surface it had, and every other window is as it was.
pub proof fn lemma_remove_forgets<W>(
    manager: ManagerView<W>,
    window: WindowId,
    other_window: WindowId,
)
    requires
        manager.wf(),
        other_window != window,
    ensures
        !manager.removed(window).contains(window),
        manager.removed(window).surface_of(window).is_none(),
        manager.surface_of(window) matches Some(surface) ==> manager.removed(window).window_of(
            surface,
        ).is_none(),
        manager.removed(window).contains(other_window) == manager.contains(other_window),
        manager.removed(window).surface_of(other_window) == manager.surface_of(other_window),
{
    if manager.aliases.back_aliases.contains_key(window.0) {
        let surface = manager.aliases.back_aliases[window.0];
        if manager.aliases.back_aliases.contains_key(other_window.0) {
            assert(manager.aliases.aliases.contains_key(surface));
        }
    }
}

/// The manager without any window is empty and well formed; a manager is no
/// longer empty once a window is inserted; and it is empty again once the
/// only live window is removed.
pub proof fn lemma_emptiness<W>(
    manager: ManagerView<W>,
    window: WindowId,
    surface: SurfaceId,
    record: W,
)
    ensures
        ManagerView::<W>::empty().is_empty(),
        ManagerView::<W>::empty().wf(),
        !manager.inserted(window, surface, record).is_empty(),
        manager.is_empty() ==> manager.inserted(window, surface, record).removed(
            window,
        ).is_empty(),
        (forall|other: WindowId| manager.contains(other) ==> other == window)
            ==> manager.removed(window).is_empty(),
{
    assert(manager.inserted(window, surface, record).entries.dom().contains(window.0));
    if manager.is_empty() {
        let after = manager.inserted(window, surface, record).removed(window);
        assert forall|other: u64| !after.entries.dom().contains(other) by {
            if after.entries.dom().contains(other) {
                assert(manager.entries.dom().contains(other));
            }
        }
        assert(after.entries.dom() =~= Set::empty());
    }
    if forall|other: WindowId| manager.contains(other) ==> other == window {
        let after = manager.removed(window);
        assert forall|other: u64| !after.entries.dom().contains(other) by {
            if after.entries.dom().contains(other) {
                assert(manager.contains(WindowId(other)));
            }
        }
        assert(after.entries.dom() =~= Set::empty());
    }
}

} // verus!
