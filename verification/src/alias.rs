//! The two-way table between toolkit window ids and protocol surface ids.

use vstd::prelude::*;
use std::collections::BTreeMap;
use crate::ids::SurfaceId;
use crate::ids::WindowId;

verus! {

/// A table that links each window with its surface and each surface with its
/// window.
///
/// The table keeps one map for either direction and changes both in one step:
/// a surface leads to a window exactly if that window leads back to it.
pub struct AliasTable {
    aliases: BTreeMap<u64, u64>,
    back_aliases: BTreeMap<u64, u64>,
}

/// What an [`AliasTable`] holds, ids taken by their numbers.
pub struct AliasView {
    /// From the surface to its window.
    pub aliases: Map<u64, u64>,
    /// From the window to its surface.
    pub back_aliases: Map<u64, u64>,
}

impl AliasView {
    /// The table without any link.
    pub open spec fn empty() -> AliasView {
        AliasView { aliases: Map::empty(), back_aliases: Map::empty() }
    }

    /// Whether each map is the inverse of the other.
    pub open spec fn wf(self) -> bool {
        &&& forall|surface: u64| #[trigger]
            self.aliases.contains_key(surface) ==> {
                &&& self.back_aliases.contains_key(self.aliases[surface])
                &&& self.back_aliases[self.aliases[surface]] == surface
            }
        &&& forall|window: u64| #[trigger]
            self.back_aliases.contains_key(window) ==> {
                &&& self.aliases.contains_key(self.back_aliases[window])
                &&& self.aliases[self.back_aliases[window]] == window
            }
    }

    /// Whether the table links the window with a surface.
    pub open spec fn has_window(self, window: WindowId) -> bool {
        self.back_aliases.contains_key(window.0)
    }

    /// Whether the table links the surface with a window.
    pub open spec fn has_surface(self, surface: SurfaceId) -> bool {
        self.aliases.contains_key(surface.0)
    }

    /// The window of a surface.
    pub open spec fn window_of(self, surface: SurfaceId) -> Option<WindowId> {
        if self.aliases.contains_key(surface.0) {
            Some(WindowId(self.aliases[surface.0]))
        } else {
            None
        }
    }

    /// The surface of a window.
    pub open spec fn surface_of(self, window: WindowId) -> Option<SurfaceId> {
        if self.back_aliases.contains_key(window.0) {
            Some(SurfaceId(self.back_aliases[window.0]))
        } else {
            None
        }
    }

    /// This table with the window and the surface linked.
    pub open spec fn linked(self, window: WindowId, surface: SurfaceId) -> AliasView {
        AliasView {
            aliases: self.aliases.insert(surface.0, window.0),
            back_aliases: self.back_aliases.insert(window.0, surface.0),
        }
    }

    /// This table without the window and without the surface it was linked
    /// with.
    pub open spec fn unlinked(self, window: WindowId) -> AliasView {
        if self.back_aliases.contains_key(window.0) {
            AliasView {
                aliases: self.aliases.remove(self.back_aliases[window.0]),
                back_aliases: self.back_aliases.remove(window.0),
            }
        } else {
            self
        }
    }
}

impl View for AliasTable {
    type V = AliasView;

    closed spec fn view(&self) -> AliasView {
        AliasView { aliases: self.aliases@, back_aliases: self.back_aliases@ }
    }
}

impl AliasTable {
    /// The table without any link.
    pub fn new() -> (table: AliasTable)
        ensures
            table@ == AliasView::empty(),
            table@.wf(),
    {
        AliasTable { aliases: BTreeMap::new(), back_aliases: BTreeMap::new() }
    }

    /// Whether the table holds no link.
    pub fn is_empty(&self) -> (r: bool)
        ensures
            r == self@.back_aliases.dom().is_empty(),
    {
        self.back_aliases.is_empty()
    }

    /// The window of a surface, and `None` for a surface that the table does
    /// not know.
    pub fn window_of(&self, surface: SurfaceId) -> (window: Option<WindowId>)
        ensures
            window == self@.window_of(surface),
    {
        match self.aliases.get(&surface.0) {
            Some(window) => Some(WindowId(*window)),
            None => None,
        }
    }

    /// The surface of a window, and `None` for a window that the table does
    /// not know.
    pub fn surface_of(&self, window: WindowId) -> (surface: Option<SurfaceId>)
        ensures
            surface == self@.surface_of(window),
    {
        match self.back_aliases.get(&window.0) {
            Some(surface) => Some(SurfaceId(*surface)),
            None => None,
        }
    }

    /// Links a window with a surface, neither of which the table knows yet.
    pub fn link(&mut self, window: WindowId, surface: SurfaceId)
        requires
            old(self)@.wf(),
            !old(self)@.has_window(window),
            !old(self)@.has_surface(surface),
        ensures
            final(self)@ == old(self)@.linked(window, surface),
            final(self)@.wf(),
    {
        let _ = self.aliases.insert(surface.0, window.0);
        let _ = self.back_aliases.insert(window.0, surface.0);
        proof {
            lemma_link_keeps_wf(old(self)@, window, surface);
        }
    }

    /// Removes the link of a window, in both directions, and returns the
    /// surface that the window was linked with. A window that the table does
    /// not know leaves it unchanged.
    pub fn unlink(&mut self, window: WindowId) -> (surface: Option<SurfaceId>)
        requires
            old(self)@.wf(),
        ensures
            surface == old(self)@.surface_of(window),
            final(self)@ == old(self)@.unlinked(window),
            final(self)@.wf(),
    {
        match self.back_aliases.remove(&window.0) {
            Some(surface) => {
                let _ = self.aliases.remove(&surface);
                proof {
                    lemma_unlink_keeps_wf(old(self)@, window);
                }
                Some(SurfaceId(surface))
            },
            None => {
                assert(self.back_aliases@ =~= old(self).back_aliases@);
                None
            },
        }
    }
}

/// The empty table is well formed and knows no window and no surface.
pub proof fn lemma_empty_table(window: WindowId, surface: SurfaceId)
    ensures
        AliasView::empty().wf(),
        AliasView::empty().window_of(surface).is_none(),
        AliasView::empty().surface_of(window).is_none(),
{
}

/// Linking a window and a surface that a well-formed table does not know
/// leaves the table well formed.
pub proof fn lemma_link_keeps_wf(table: AliasView, window: WindowId, surface: SurfaceId)
    requires
        table.wf(),
        !table.has_window(window),
        !table.has_surface(surface),
    ensures
        table.linked(window, surface).wf(),
{
    let linked = table.linked(window, surface);
    assert forall|s: u64| #[trigger] linked.aliases.contains_key(s) implies {
        &&& linked.back_aliases.contains_key(linked.aliases[s])
        &&& linked.back_aliases[linked.aliases[s]] == s
    } by {
        if s != surface.0 {
            assert(table.aliases.contains_key(s));
            assert(table.back_aliases.contains_key(table.aliases[s]));
        }
    }
    assert forall|w: u64| #[trigger] linked.back_aliases.contains_key(w) implies {
        &&& linked.aliases.contains_key(linked.back_aliases[w])
        &&& linked.aliases[linked.back_aliases[w]] == w
    } by {
        if w != window.0 {
            assert(table.back_aliases.contains_key(w));
            assert(table.aliases.contains_key(table.back_aliases[w]));
        }
    }
}

/// Removing the link of a window leaves a well-formed table well formed.
pub proof fn lemma_unlink_keeps_wf(table: AliasView, window: WindowId)
    requires
        table.wf(),
    ensures
        table.unlinked(window).wf(),
{
    let unlinked = table.unlinked(window);
    if table.back_aliases.contains_key(window.0) {
        let surface = table.back_aliases[window.0];
        assert(table.aliases.contains_key(surface));
        assert forall|s: u64| #[trigger] unlinked.aliases.contains_key(s) implies {
            &&& unlinked.back_aliases.contains_key(unlinked.aliases[s])
            &&& unlinked.back_aliases[unlinked.aliases[s]] == s
        } by {
            assert(table.aliases.contains_key(s));
            assert(table.back_aliases.contains_key(table.aliases[s]));
        }
        assert forall|w: u64| #[trigger] unlinked.back_aliases.contains_key(w) implies {
            &&& unlinked.aliases.contains_key(unlinked.back_aliases[w])
            &&& unlinked.aliases[unlinked.back_aliases[w]] == w
        } by {
            assert(table.back_aliases.contains_key(w));
            assert(table.aliases.contains_key(table.back_aliases[w]));
        }
    }
}

/// In a well-formed table the two lookups undo each other.
pub proof fn lemma_lookups_are_inverse(table: AliasView, window: WindowId, surface: SurfaceId)
    requires
        table.wf(),
    ensures
        table.window_of(surface) == Some(window) <==> table.surface_of(window) == Some(surface),
{
    if table.window_of(surface) == Some(window) {
        assert(table.aliases.contains_key(surface.0));
    }
    if table.surface_of(window) == Some(surface) {
        assert(table.back_aliases.contains_key(window.0));
    }
}

/// Right after a window and a surface are linked, each leads to the other.
pub proof fn lemma_link_then_lookup(table: AliasView, window: WindowId, surface: SurfaceId)
    ensures
        table.linked(window, surface).window_of(surface) == Some(window),
        table.linked(window, surface).surface_of(window) == Some(surface),
{
}

} // verus!
