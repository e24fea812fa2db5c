//! The rendering state of one window.

use vstd::prelude::*;
use iced_core::Color;
use iced_core::Point;
use crate::application::Appearance;
use crate::application::Application;
use crate::ids::WindowId;
use crate::input::cursor_of;
use crate::input::Cursor;
use crate::input::Modifiers;
use crate::input::WindowEvent;
use crate::scale::is_nan_bits;
use crate::scale::same_number;
use crate::scale::ScaleFactor;
use crate::viewport::destination_of;
use crate::viewport::Destination;
use crate::viewport::DestinationRule;
use crate::viewport::PhysicalSize;
use crate::viewport::Viewport;
use crate::viewport::ViewportView;

verus! {

/// The state of one window: what its surface looks like to the renderer and
/// what the window last heard of the pointer and the keyboard. `T` is the
/// theme of the application.
///
/// A window that has a protocol viewport is made with the
/// [`DestinationRule`] of that viewport. Its state then records the
/// destination that the viewport is to have, and every change of the physical
/// size or of the scale factor records it anew. Whoever holds the protocol
/// object reads [`State::destination`] after such a change and passes it on.
pub struct State<T> {
    id: WindowId,
    scale_factor: ScaleFactor,
    viewport: Viewport,
    destination_rule: Option<DestinationRule>,
    destination: Option<Destination>,
    viewport_version: usize,
    theme: T,
    appearance: Appearance,
    mouse_position: Option<Point>,
    modifiers: Modifiers,
}

/// What a [`State`] holds, with `T` the theme of its application.
pub struct StateView<T> {
    /// The toolkit's identifier of the window.
    pub id: WindowId,
    /// The scale factor that the application last asked for.
    pub scale_factor: ScaleFactor,
    /// The viewport: the physical size, and the scale factor it was built
    /// with.
    pub viewport: ViewportView,
    /// The rule of the protocol viewport, if the window has one.
    pub destination_rule: Option<DestinationRule>,
    /// The destination recorded for the protocol viewport.
    pub destination: Option<Destination>,
    /// How often the scale factor has changed, counted modulo the range of
    /// `usize`.
    pub viewport_version: usize,
    /// The theme last taken from the application.
    pub theme: T,
    /// The appearance that the application derived from that theme.
    pub appearance: Appearance,
    /// The last known position of the pointer; `None` while the pointer is
    /// not over the window.
    pub mouse_position: Option<Point>,
    /// The last known keyboard modifiers.
    pub modifiers: Modifiers,
}

/// The version that follows `version`: one more, and zero after the largest.
pub open spec fn next_version(version: usize) -> usize {
    if version == usize::MAX {
        0
    } else {
        (version + 1) as usize
    }
}

/// The destination to record for a window of the given physical size: the
/// one its rule gives, and none without a protocol viewport.
pub open spec fn recorded_destination(
    rule: Option<DestinationRule>,
    size: PhysicalSize,
) -> Option<Destination> {
    match rule {
        Some(rule) => Some(destination_of(rule, size)),
        None => None,
    }
}

impl<T> StateView<T> {
    /// The state of a window as it is made.
    pub open spec fn initial(
        id: WindowId,
        size: (u32, u32),
        destination_rule: Option<DestinationRule>,
        scale_factor: ScaleFactor,
        theme: T,
        appearance: Appearance,
    ) -> StateView<T> {
        let physical_size = PhysicalSize { width: size.0, height: size.1 };
        StateView {
            id,
            scale_factor,
            viewport: ViewportView { physical_size, scale_factor },
            destination_rule,
            destination: recorded_destination(destination_rule, physical_size),
            viewport_version: 0,
            theme,
            appearance,
            mouse_position: None,
            modifiers: Modifiers { bits: 0 },
        }
    }

    /// This state after its window has taken a new physical size.
    pub open spec fn resized(self, width: u32, height: u32) -> StateView<T> {
        let physical_size = PhysicalSize { width, height };
        StateView {
            viewport: ViewportView { physical_size, scale_factor: self.scale_factor },
            destination: recorded_destination(self.destination_rule, physical_size),
            ..self
        }
    }

    /// This state after a run of resizes, taken in the order of the
    /// sequence.
    pub open spec fn resized_through(self, sizes: Seq<(u32, u32)>) -> StateView<T>
        decreases sizes.len(),
    {
        if sizes.len() == 0 {
            self
        } else {
            self.resized_through(sizes.drop_last()).resized(sizes.last().0, sizes.last().1)
        }
    }

    /// This state after an event of its surface.
    pub open spec fn after_event(self, event: WindowEvent) -> StateView<T> {
        match event {
            WindowEvent::CursorLeft => StateView { mouse_position: None, ..self },
            WindowEvent::CursorMoved { position } => StateView {
                mouse_position: Some(position),
                ..self
            },
            WindowEvent::ModifiersChanged(modifiers) => StateView { modifiers, ..self },
            WindowEvent::Other => self,
        }
    }

    /// Whether the application's scale factor is another number than the one
    /// this state holds.
    pub open spec fn scale_changes(self, scale_factor: ScaleFactor) -> bool {
        !same_number(self.scale_factor@, scale_factor@)
    }

    /// This state after it has been reconciled with what the application
    /// answered.
    ///
    /// A changed scale factor rebuilds the viewport at the physical size it
    /// had, records the destination anew and moves the version on by one. The
    /// theme and the appearance are taken over in either case.
    pub open spec fn reconciled(
        self,
        scale_factor: ScaleFactor,
        theme: T,
        appearance: Appearance,
    ) -> StateView<T> {
        if self.scale_changes(scale_factor) {
            StateView {
                scale_factor,
                viewport: ViewportView {
                    physical_size: self.viewport.physical_size,
                    scale_factor,
                },
                destination: recorded_destination(
                    self.destination_rule,
                    self.viewport.physical_size,
                ),
                viewport_version: next_version(self.viewport_version),
                theme,
                appearance,
                ..self
            }
        } else {
            StateView { theme, appearance, ..self }
        }
    }

    /// The cursor that this state reports.
    pub open spec fn cursor(self) -> Cursor {
        cursor_of(self.mouse_position)
    }

    /// Whether the parts of this state agree with each other: the viewport
    /// was built with the scale factor that the state holds, and the recorded
    /// destination is the one that the rule gives for the physical size of
    /// the viewport.
    pub open spec fn consistent(self) -> bool {
        &&& self.viewport.scale_factor == self.scale_factor
        &&& self.destination == recorded_destination(
            self.destination_rule,
            self.viewport.physical_size,
        )
    }
}

/// Whether the three values can be what an application answers when it is
/// asked on behalf of a window: the scale factor for that window, the theme,
/// and the appearance for that very theme.
pub open spec fn answers<A: Application>(
    application: &A,
    window: WindowId,
    scale_factor: ScaleFactor,
    theme: A::Theme,
    appearance: Appearance,
) -> bool {
    &&& call_ensures(A::scale_factor, (application, window), scale_factor)
    &&& call_ensures(A::theme, (application,), theme)
    &&& call_ensures(A::style, (application, &theme), appearance)
}

impl<T> View for State<T> {
    type V = StateView<T>;

    closed spec fn view(&self) -> StateView<T> {
        StateView {
            id: self.id,
            scale_factor: self.scale_factor,
            viewport: self.viewport@,
            destination_rule: self.destination_rule,
            destination: self.destination,
            viewport_version: self.viewport_version,
            theme: self.theme,
            appearance: self.appearance,
            mouse_position: self.mouse_position,
            modifiers: self.modifiers,
        }
    }
}

/// The destination that a rule, if there is one, gives for a physical size.
fn destination_under(rule: Option<DestinationRule>, size: PhysicalSize) -> (destination: Option<
    Destination,
>)
    ensures
        destination == recorded_destination(rule, size),
{
    match rule {
        Some(rule) => Some(rule.destination_for(size)),
        None => None,
    }
}

impl<T> State<T> {
    /// The state of a new window of the given physical size.
    ///
    /// Asks the application for the scale factor of the window, for its
    /// theme, and for the appearance that the theme gives, and makes the
    /// state from the answers as [`State::from_parts`] does.
    /// `destination_rule` is the rule of the window's protocol viewport, and
    /// `None` for a window without one.
    pub fn new<A: Application<Theme = T>>(
        id: WindowId,
        application: &A,
        size: (u32, u32),
        destination_rule: Option<DestinationRule>,
    ) -> (state: Self)
        ensures
            exists|scale_factor: ScaleFactor, theme: T, appearance: Appearance|
                {
                    &&& answers(application, id, scale_factor, theme, appearance)
                    &&& state@ == StateView::initial(
                        id,
                        size,
                        destination_rule,
                        scale_factor,
                        theme,
                        appearance,
                    )
                },
            state@.consistent(),
    {
        let scale_factor = application.scale_factor(id);
        let theme = application.theme();
        let appearance = application.style(&theme);
        let ghost initial = StateView::initial(
            id,
            size,
            destination_rule,
            scale_factor,
            theme,
            appearance,
        );
        let state = State::from_parts(id, size, destination_rule, scale_factor, theme, appearance);
        assert(answers(application, id, scale_factor, theme, appearance) && state@ == initial);
        state
    }

    /// The state of a new window, from what the application answered.
    ///
    /// The viewport has the given physical size and scale factor, the
    /// destination is recorded as the rule gives it, the version is zero, the
    /// pointer is not over the window and no modifier is held.
    pub fn from_parts(
        id: WindowId,
        size: (u32, u32),
        destination_rule: Option<DestinationRule>,
        scale_factor: ScaleFactor,
        theme: T,
        appearance: Appearance,
    ) -> (state: Self)
        ensures
            state@ == StateView::initial(
                id,
                size,
                destination_rule,
                scale_factor,
                theme,
                appearance,
            ),
            state@.consistent(),
    {
        let physical_size = PhysicalSize { width: size.0, height: size.1 };
        let viewport = Viewport::with_physical_size(physical_size, scale_factor);
        let destination = destination_under(destination_rule, physical_size);
        State {
            id,
            scale_factor,
            viewport,
            destination_rule,
            destination,
            viewport_version: 0,
            theme,
            appearance,
            mouse_position: None,
            modifiers: Modifiers::empty(),
        }
    }

    /// The toolkit's identifier of the window.
    pub fn id(&self) -> (id: WindowId)
        ensures
            id == self@.id,
    {
        self.id
    }

    /// The last known keyboard modifiers.
    pub fn modifiers(&self) -> (modifiers: Modifiers)
        ensures
            modifiers == self@.modifiers,
    {
        self.modifiers
    }

    /// Gives the window a new physical size.
    ///
    /// The viewport is replaced by one of that size under the scale factor
    /// that the state holds, and the destination is recorded anew. Whatever
    /// the state held before, it is consistent afterwards.
    pub fn update_view_port(&mut self, width: u32, height: u32)
        ensures
            final(self)@ == old(self)@.resized(width, height),
            final(self)@.viewport.physical_size == (PhysicalSize { width, height }),
            final(self)@.destination == recorded_destination(
                old(self)@.destination_rule,
                PhysicalSize { width, height },
            ),
            final(self)@.consistent(),
    {
        let physical_size = PhysicalSize { width, height };
        let viewport = Viewport::with_physical_size(physical_size, self.scale_factor);
        let destination = destination_under(self.destination_rule, physical_size);
        self.viewport = viewport;
        self.destination = destination;
    }

    /// The viewport.
    pub fn viewport(&self) -> (viewport: &Viewport)
        ensures
            viewport@ == self@.viewport,
    {
        &self.viewport
    }

    /// The physical size of the viewport.
    pub fn physical_size(&self) -> (size: PhysicalSize)
        ensures
            size == self@.viewport.physical_size,
    {
        self.viewport.physical_size()
    }

    /// The scale factor that the viewport was built with.
    pub fn scale_factor(&self) -> (scale_factor: ScaleFactor)
        ensures
            scale_factor == self@.viewport.scale_factor,
    {
        self.viewport.scale_factor()
    }

    /// The rule of the window's protocol viewport, and `None` for a window
    /// without one.
    pub fn destination_rule(&self) -> (rule: Option<DestinationRule>)
        ensures
            rule == self@.destination_rule,
    {
        self.destination_rule
    }

    /// The destination recorded for the protocol viewport, and `None` for a
    /// window without one.
    pub fn destination(&self) -> (destination: Option<Destination>)
        ensures
            destination == self@.destination,
    {
        self.destination
    }

    /// How often the scale factor has changed, counted modulo the range of
    /// `usize`.
    pub fn viewport_version(&self) -> (version: usize)
        ensures
            version == self@.viewport_version,
    {
        self.viewport_version
    }

    /// The colour of text that has no colour of its own.
    pub fn text_color(&self) -> (color: Color)
        ensures
            color == self@.appearance.text_color,
    {
        self.appearance.text_color
    }

    /// The colour behind the contents of the window.
    pub fn background_color(&self) -> (color: Color)
        ensures
            color == self@.appearance.background_color,
    {
        self.appearance.background_color
    }

    /// The theme last taken from the application.
    pub fn theme(&self) -> (theme: &T)
        ensures
            *theme == self@.theme,
    {
        &self.theme
    }

    /// The last known position of the pointer, and `None` while the pointer
    /// is not over the window.
    pub fn mouse_position(&self) -> (position: Option<&Point>)
        ensures
            position == match self@.mouse_position {
                Some(point) => Some(&point),
                None => None,
            },
    {
        self.mouse_position.as_ref()
    }

    /// The cursor: available at the last known position of the pointer, and
    /// unavailable while the pointer is not over the window.
    pub fn cursor(&self) -> (cursor: Cursor)
        ensures
            cursor == self@.cursor(),
    {
        match self.mouse_position {
            Some(point) => Cursor::Available(point),
            None => Cursor::Unavailable,
        }
    }

    /// Takes in an event of the window's surface.
    ///
    /// A pointer that left clears the position, a pointer that moved sets it,
    /// and changed modifiers replace the ones held. Every other event leaves
    /// the state as it is.
    pub fn update(&mut self, event: &WindowEvent)
        ensures
            final(self)@ == old(self)@.after_event(*event),
            old(self)@.consistent() ==> final(self)@.consistent(),
    {
        match event {
            WindowEvent::CursorLeft => {
                self.mouse_position = None;
            },
            WindowEvent::CursorMoved { position } => {
                self.mouse_position = Some(*position);
            },
            WindowEvent::ModifiersChanged(modifiers) => {
                self.modifiers = *modifiers;
            },
            WindowEvent::Other => {},
        }
    }

    /// Reconciles the state with the application, once in every update
    /// cycle.
    ///
    /// Asks the application for the scale factor of the window, for its
    /// theme, and for the appearance that the theme gives, and takes the
    /// answers in as [`State::reconcile`] does.
    pub fn synchronize<A: Application<Theme = T>>(&mut self, application: &A)
        ensures
            exists|scale_factor: ScaleFactor, theme: T, appearance: Appearance|
                {
                    &&& answers(application, old(self)@.id, scale_factor, theme, appearance)
                    &&& final(self)@ == old(self)@.reconciled(scale_factor, theme, appearance)
                },
            old(self)@.consistent() ==> final(self)@.consistent(),
    {
        let scale_factor = application.scale_factor(self.id);
        let theme = application.theme();
        let appearance = application.style(&theme);
        let ghost reconciled = self@.reconciled(scale_factor, theme, appearance);
        self.reconcile(scale_factor, theme, appearance);
        assert(answers(application, old(self)@.id, scale_factor, theme, appearance) && self@
            == reconciled);
    }

    /// Takes in what the application answered.
    ///
    /// Where `scale_factor` is another number than the one held, the viewport
    /// is rebuilt at its physical size under the new factor, the destination
    /// is recorded anew, and the version moves on by one, from the largest
    /// value back to zero. Where it is the same number, viewport, destination
    /// and version stay as they are. The theme and the appearance are taken
    /// over in either case.
    pub fn reconcile(&mut self, scale_factor: ScaleFactor, theme: T, appearance: Appearance)
        ensures
            final(self)@ == old(self)@.reconciled(scale_factor, theme, appearance),
            final(self)@.viewport_version == if old(self)@.scale_changes(scale_factor) {
                next_version(old(self)@.viewport_version)
            } else {
                old(self)@.viewport_version
            },
            old(self)@.consistent() ==> final(self)@.consistent(),
    {
        if self.scale_factor.differs(scale_factor) {
            let physical_size = self.viewport.physical_size();
            let viewport = Viewport::with_physical_size(physical_size, scale_factor);
            let destination = destination_under(self.destination_rule, physical_size);
            self.viewport = viewport;
            self.destination = destination;
            self.viewport_version = self.viewport_version.wrapping_add(1);
            self.scale_factor = scale_factor;
        }
        self.theme = theme;
        self.appearance = appearance;
    }
}

/// Counting a version on is adding one modulo the number of values of
/// `usize`.
pub proof fn lemma_next_version_wraps(version: usize)
    ensures
        next_version(version) == (version + 1) % (usize::MAX + 1),
{
    let count: int = usize::MAX + 1;
    let next: int = version + 1;
    if version == usize::MAX {
        assert(next % count == 0) by (nonlinear_arith)
            requires
                next == count,
                count > 0,
        ;
    } else {
        assert(next % count == next) by (nonlinear_arith)
            requires
                0 <= next < count,
        ;
    }
}

/// A resize decides the physical size and the recorded destination, whatever
/// the state held before, and leaves a consistent state.
pub proof fn lemma_resize_decides<T>(state: StateView<T>, width: u32, height: u32)
    ensures
        state.resized(width, height).viewport.physical_size == (PhysicalSize { width, height }),
        state.resized(width, height).destination == recorded_destination(
            state.destination_rule,
            PhysicalSize { width, height },
        ),
        state.resized(width, height).destination is Some <==> state.destination_rule is Some,
        state.resized(width, height).consistent(),
        state.resized(width, height).resized(width, height) == state.resized(width, height),
{
}

/// After any run of resizes the viewport has the physical size of the last
/// one, and the recorded destination is the one that the rule gives for that
/// size: nothing of an earlier resize is left.
pub proof fn lemma_last_resize_decides<T>(state: StateView<T>, sizes: Seq<(u32, u32)>)
    requires
        sizes.len() > 0,
    ensures
        state.resized_through(sizes).viewport.physical_size == (PhysicalSize {
            width: sizes.last().0,
            height: sizes.last().1,
        }),
        state.resized_through(sizes).destination == recorded_destination(
            state.destination_rule,
            PhysicalSize { width: sizes.last().0, height: sizes.last().1 },
        ),
        state.resized_through(sizes).consistent(),
{
    lemma_resizes_keep_rule(state, sizes.drop_last());
}

/// A run of resizes changes neither the rule of the protocol viewport nor the
/// scale factor.
pub proof fn lemma_resizes_keep_rule<T>(state: StateView<T>, sizes: Seq<(u32, u32)>)
    ensures
        state.resized_through(sizes).destination_rule == state.destination_rule,
        state.resized_through(sizes).scale_factor == state.scale_factor,
        state.resized_through(sizes).viewport_version == state.viewport_version,
    decreases sizes.len(),
{
    if sizes.len() > 0 {
        lemma_resizes_keep_rule(state, sizes.drop_last());
    }
}

/// Reconciling with a scale factor that is the number already held leaves
/// viewport, destination and version as they are and takes over the theme
/// and the appearance; reconciling once more with the same answers changes
/// nothing.
pub proof fn lemma_reconcile_without_change<T>(
    state: StateView<T>,
    scale_factor: ScaleFactor,
    theme: T,
    appearance: Appearance,
)
    requires
        !state.scale_changes(scale_factor),
    ensures
        state.reconciled(scale_factor, theme, appearance) == (StateView {
            theme,
            appearance,
            ..state
        }),
        state.reconciled(scale_factor, theme, appearance).reconciled(
            scale_factor,
            theme,
            appearance,
        ) == state.reconciled(scale_factor, theme, appearance),
{
}

/// Reconciling twice with the same answers leaves what reconciling once
/// leaves, for every scale factor that is a number.
pub proof fn lemma_reconcile_idempotent<T>(
    state: StateView<T>,
    scale_factor: ScaleFactor,
    theme: T,
    appearance: Appearance,
)
    requires
        !is_nan_bits(scale_factor@),
    ensures
        state.reconciled(scale_factor, theme, appearance).reconciled(
            scale_factor,
            theme,
            appearance,
        ) == state.reconciled(scale_factor, theme, appearance),
{
}

/// A scale factor that is a NaN is a change against every state, so that
/// each reconciliation with it moves the version on.
pub proof fn lemma_nan_always_changes<T>(state: StateView<T>, scale_factor: ScaleFactor)
    requires
        is_nan_bits(scale_factor@),
    ensures
        state.scale_changes(scale_factor),
{
}

/// A reconciliation moves the version on by exactly one where the scale
/// factor changes, and leaves it where it does not. The physical size stays
/// in either case, and a consistent state stays consistent.
pub proof fn lemma_reconcile_version<T>(
    state: StateView<T>,
    scale_factor: ScaleFactor,
    theme: T,
    appearance: Appearance,
)
    ensures
        state.scale_changes(scale_factor) ==> state.reconciled(
            scale_factor,
            theme,
            appearance,
        ).viewport_version == (state.viewport_version + 1) % (usize::MAX + 1),
        !state.scale_changes(scale_factor) ==> state.reconciled(
            scale_factor,
            theme,
            appearance,
        ).viewport_version == state.viewport_version,
        state.reconciled(scale_factor, theme, appearance).viewport.physical_size
            == state.viewport.physical_size,
        state.reconciled(scale_factor, theme, appearance).theme == theme,
        state.reconciled(scale_factor, theme, appearance).appearance == appearance,
        state.consistent() ==> state.reconciled(scale_factor, theme, appearance).consistent(),
{
    lemma_next_version_wraps(state.viewport_version);
}

/// After the pointer moved the cursor is available at the position it moved
/// to, and after it left the cursor is unavailable.
pub proof fn lemma_cursor_follows_pointer<T>(state: StateView<T>, position: Point)
    ensures
        state.after_event(WindowEvent::CursorMoved { position }).cursor() == Cursor::Available(
            position,
        ),
        state.after_event(WindowEvent::CursorMoved { position }).after_event(
            WindowEvent::CursorLeft,
        ).cursor() == Cursor::Unavailable,
        state.after_event(WindowEvent::CursorLeft).cursor() == Cursor::Unavailable,
{
}

/// An event touches nothing but the pointer position and the modifiers.
pub proof fn lemma_event_leaves_viewport<T>(state: StateView<T>, event: WindowEvent)
    ensures
        state.after_event(event).viewport == state.viewport,
        state.after_event(event).scale_factor == state.scale_factor,
        state.after_event(event).destination == state.destination,
        state.after_event(event).destination_rule == state.destination_rule,
        state.after_event(event).viewport_version == state.viewport_version,
        state.after_event(event).theme == state.theme,
        state.after_event(event).appearance == state.appearance,
        state.consistent() ==> state.after_event(event).consistent(),
{
}

} // verus!
