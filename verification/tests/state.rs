use iced_core::Color;
use iced_core::Point;
use iced_core::Size;
use shell_windows::Appearance;
use shell_windows::Application;
use shell_windows::Cursor;
use shell_windows::Destination;
use shell_windows::DestinationRule;
use shell_windows::Modifiers;
use shell_windows::PhysicalSize;
use shell_windows::ScaleFactor;
use shell_windows::State;
use shell_windows::WindowEvent;
use shell_windows::WindowId;

#[derive(Clone, Debug, PartialEq)]
enum Theme {
    Light,
    Dark,
}

struct App {
    scale: f64,
    theme: Theme,
    accent: f32,
}

impl App {
    fn with_scale(scale: f64) -> App {
        App { scale, theme: Theme::Light, accent: 0.5 }
    }
}

impl Application for App {
    type Theme = Theme;

    fn scale_factor(&self, window: WindowId) -> ScaleFactor {
        let WindowId(number) = window;
        ScaleFactor::from_bits((self.scale + number as f64 * 0.0).to_bits())
    }

    fn theme(&self) -> Theme {
        self.theme.clone()
    }

    fn style(&self, theme: &Theme) -> Appearance {
        match theme {
            Theme::Light => Appearance {
                background_color: Color::WHITE,
                text_color: Color::from_rgb(0.0, 0.0, self.accent),
            },
            Theme::Dark => Appearance {
                background_color: Color::BLACK,
                text_color: Color::from_rgb(1.0, 1.0, self.accent),
            },
        }
    }
}

fn size(width: u32, height: u32) -> PhysicalSize {
    PhysicalSize { width, height }
}

fn logical_size(state: &State<Theme>) -> Size<f32> {
    let physical = state.physical_size();
    iced_graphics::Viewport::with_physical_size(
        Size::new(physical.width, physical.height),
        f64::from_bits(state.scale_factor().to_bits()),
    )
    .logical_size()
}

#[test]
fn resize_at_scale_one() {
    let app = App::with_scale(1.0);
    let mut state = State::new(WindowId(0), &app, (800, 600), None);
    assert_eq!(state.physical_size(), size(800, 600));
    assert_eq!(logical_size(&state), Size::new(800.0, 600.0));
    state.update_view_port(1024, 768);
    assert_eq!(state.physical_size(), size(1024, 768));
    assert_eq!(logical_size(&state), Size::new(1024.0, 768.0));
    assert_eq!(state.scale_factor().to_bits(), 1.0f64.to_bits());
}

#[test]
fn resize_at_scale_two() {
    let app = App::with_scale(2.0);
    let mut state = State::new(WindowId(0), &app, (800, 600), None);
    assert_eq!(logical_size(&state), Size::new(400.0, 300.0));
    state.update_view_port(1024, 768);
    assert_eq!(state.physical_size(), size(1024, 768));
    assert_eq!(logical_size(&state), Size::new(512.0, 384.0));
}

#[test]
fn new_state_starts_out_blank() {
    let app = App::with_scale(1.5);
    let state = State::new(WindowId(7), &app, (640, 480), Some(DestinationRule::Halved));
    assert_eq!(state.id(), WindowId(7));
    assert_eq!(state.physical_size(), size(640, 480));
    assert_eq!(state.viewport().physical_size(), size(640, 480));
    assert_eq!(state.viewport().scale_factor().to_bits(), 1.5f64.to_bits());
    assert_eq!(state.scale_factor().to_bits(), 1.5f64.to_bits());
    assert_eq!(state.viewport_version(), 0);
    assert_eq!(state.mouse_position(), None);
    assert_eq!(state.cursor(), Cursor::Unavailable);
    assert_eq!(state.modifiers(), Modifiers::empty());
    assert_eq!(state.theme(), &Theme::Light);
    assert_eq!(state.background_color(), Color::WHITE);
    assert_eq!(state.text_color(), Color::from_rgb(0.0, 0.0, 0.5));
    assert_eq!(state.destination_rule(), Some(DestinationRule::Halved));
    assert_eq!(state.destination(), Some(Destination { width: 320, height: 240 }));
}

#[test]
fn new_state_without_protocol_viewport_records_no_destination() {
    let app = App::with_scale(1.0);
    let mut state = State::new(WindowId(1), &app, (640, 480), None);
    assert_eq!(state.destination_rule(), None);
    assert_eq!(state.destination(), None);
    state.update_view_port(10, 20);
    assert_eq!(state.destination(), None);
    let other = App::with_scale(3.0);
    state.synchronize(&other);
    assert_eq!(state.destination(), None);
    assert_eq!(state.physical_size(), size(10, 20));
}

#[test]
fn from_parts_takes_the_answers_as_given() {
    let appearance = Appearance { background_color: Color::BLACK, text_color: Color::WHITE };
    let state: State<Theme> = State::from_parts(
        WindowId(3),
        (1, 2),
        Some(DestinationRule::Whole),
        ScaleFactor::from_bits(0.75f64.to_bits()),
        Theme::Dark,
        appearance,
    );
    assert_eq!(state.id(), WindowId(3));
    assert_eq!(state.physical_size(), size(1, 2));
    assert_eq!(state.scale_factor().to_bits(), 0.75f64.to_bits());
    assert_eq!(state.destination(), Some(Destination { width: 1, height: 2 }));
    assert_eq!(state.theme(), &Theme::Dark);
    assert_eq!(state.background_color(), Color::BLACK);
    assert_eq!(state.text_color(), Color::WHITE);
    assert_eq!(state.viewport_version(), 0);
    assert_eq!(state.cursor(), Cursor::Unavailable);
    assert!(state.modifiers().is_empty());
}

#[test]
fn the_application_is_asked_for_the_window_s_own_scale() {
    struct PerWindow;
    impl Application for PerWindow {
        type Theme = ();

        fn scale_factor(&self, window: WindowId) -> ScaleFactor {
            ScaleFactor::from_bits((window.0 as f64).to_bits())
        }

        fn theme(&self) {}

        fn style(&self, _theme: &()) -> Appearance {
            Appearance { background_color: Color::BLACK, text_color: Color::WHITE }
        }
    }
    let state = State::new(WindowId(3), &PerWindow, (8, 8), None);
    assert_eq!(state.scale_factor().to_bits(), 3.0f64.to_bits());
    let state = State::new(WindowId(4), &PerWindow, (8, 8), None);
    assert_eq!(state.scale_factor().to_bits(), 4.0f64.to_bits());
}

#[test]
fn every_resize_records_the_destination_anew() {
    let app = App::with_scale(1.0);
    let mut state = State::new(WindowId(0), &app, (800, 600), Some(DestinationRule::Halved));
    let sizes = [(1024u32, 768u32), (1, 1), (0, 0), (3, 5), (1024, 768), (u32::MAX, 7), (800, 600)];
    for (width, height) in sizes {
        state.update_view_port(width, height);
        assert_eq!(state.physical_size(), size(width, height));
        assert_eq!(
            state.destination(),
            Some(Destination { width: (width / 2) as i32, height: (height / 2) as i32 })
        );
        assert_eq!(
            state.destination(),
            Some(DestinationRule::Halved.destination_for(state.physical_size()))
        );
        assert_eq!(state.viewport_version(), 0);
        assert_eq!(state.scale_factor().to_bits(), 1.0f64.to_bits());
    }
}

#[test]
fn every_resize_records_the_whole_destination_anew() {
    let app = App::with_scale(2.0);
    let mut state = State::new(WindowId(0), &app, (800, 600), Some(DestinationRule::Whole));
    assert_eq!(state.destination(), Some(Destination { width: 800, height: 600 }));
    for (width, height) in [(1024u32, 768u32), (1, 1), (0, 0), (3, 5), (0x8000_0000, u32::MAX)] {
        state.update_view_port(width, height);
        assert_eq!(state.physical_size(), size(width, height));
        assert_eq!(
            state.destination(),
            Some(Destination { width: width as i32, height: height as i32 })
        );
    }
}

#[test]
fn resize_is_idempotent() {
    let app = App::with_scale(1.25);
    let mut state = State::new(WindowId(0), &app, (800, 600), Some(DestinationRule::Halved));
    state.update_view_port(300, 200);
    let once = (state.physical_size(), state.destination(), state.viewport_version());
    state.update_view_port(300, 200);
    let twice = (state.physical_size(), state.destination(), state.viewport_version());
    assert_eq!(once, twice);
    assert_eq!(once, (size(300, 200), Some(Destination { width: 150, height: 100 }), 0));
}

#[test]
fn resize_keeps_the_current_scale() {
    let mut state = State::new(WindowId(0), &App::with_scale(1.0), (800, 600), None);
    state.synchronize(&App::with_scale(2.0));
    state.update_view_port(100, 50);
    assert_eq!(state.scale_factor().to_bits(), 2.0f64.to_bits());
    assert_eq!(state.viewport().scale_factor().to_bits(), 2.0f64.to_bits());
    assert_eq!(logical_size(&state), Size::new(50.0, 25.0));
}

#[test]
fn pointer_moved_then_left() {
    let mut state = State::new(WindowId(0), &App::with_scale(1.0), (800, 600), None);
    let position = Point::new(12.5, 40.0);
    state.update(&WindowEvent::CursorMoved { position });
    assert_eq!(state.cursor(), Cursor::Available(Point::new(12.5, 40.0)));
    assert_eq!(state.mouse_position(), Some(&Point::new(12.5, 40.0)));
    state.update(&WindowEvent::CursorLeft);
    assert_eq!(state.cursor(), Cursor::Unavailable);
    assert_eq!(state.mouse_position(), None);
}

#[test]
fn pointer_moved_twice_keeps_the_last_position() {
    let mut state = State::new(WindowId(0), &App::with_scale(1.0), (800, 600), None);
    state.update(&WindowEvent::CursorMoved { position: Point::new(1.0, 2.0) });
    state.update(&WindowEvent::CursorMoved { position: Point::new(-3.0, 4.5) });
    assert_eq!(state.cursor(), Cursor::Available(Point::new(-3.0, 4.5)));
}

#[test]
fn pointer_left_without_a_position_is_harmless() {
    let mut state = State::new(WindowId(0), &App::with_scale(1.0), (800, 600), None);
    state.update(&WindowEvent::CursorLeft);
    assert_eq!(state.cursor(), Cursor::Unavailable);
}

#[test]
fn modifiers_are_replaced_whole() {
    let mut state = State::new(WindowId(0), &App::with_scale(1.0), (800, 600), None);
    state.update(&WindowEvent::ModifiersChanged(Modifiers::from_bits(0b100)));
    assert_eq!(state.modifiers(), Modifiers::from_bits(0b100));
    state.update(&WindowEvent::ModifiersChanged(Modifiers::from_bits(0b100_000)));
    assert_eq!(state.modifiers(), Modifiers::from_bits(0b100_000));
    state.update(&WindowEvent::ModifiersChanged(Modifiers::empty()));
    assert!(state.modifiers().is_empty());
}

#[test]
fn events_touch_only_their_own_part() {
    let mut state = State::new(WindowId(0), &App::with_scale(1.0), (800, 600), Some(DestinationRule::Halved));
    state.update(&WindowEvent::ModifiersChanged(Modifiers::from_bits(3)));
    state.update(&WindowEvent::CursorMoved { position: Point::new(5.0, 6.0) });
    assert_eq!(state.modifiers(), Modifiers::from_bits(3));
    state.update(&WindowEvent::ModifiersChanged(Modifiers::from_bits(9)));
    assert_eq!(state.cursor(), Cursor::Available(Point::new(5.0, 6.0)));
    assert_eq!(state.physical_size(), size(800, 600));
    assert_eq!(state.destination(), Some(Destination { width: 400, height: 300 }));
    assert_eq!(state.viewport_version(), 0);
}

#[test]
fn other_events_change_nothing() {
    let mut state = State::new(WindowId(0), &App::with_scale(1.0), (800, 600), Some(DestinationRule::Halved));
    state.update(&WindowEvent::CursorMoved { position: Point::new(5.0, 6.0) });
    state.update(&WindowEvent::ModifiersChanged(Modifiers::from_bits(3)));
    state.update(&WindowEvent::Other);
    assert_eq!(state.cursor(), Cursor::Available(Point::new(5.0, 6.0)));
    assert_eq!(state.modifiers(), Modifiers::from_bits(3));
    assert_eq!(state.physical_size(), size(800, 600));
    assert_eq!(state.viewport_version(), 0);
}

#[test]
fn synchronize_without_change_is_idempotent() {
    let app = App::with_scale(1.5);
    let mut state = State::new(WindowId(0), &app, (800, 600), Some(DestinationRule::Halved));
    state.synchronize(&app);
    let once = (
        state.physical_size(),
        state.scale_factor().to_bits(),
        state.destination(),
        state.viewport_version(),
        state.theme().clone(),
        state.text_color(),
        state.background_color(),
    );
    state.synchronize(&app);
    let twice = (
        state.physical_size(),
        state.scale_factor().to_bits(),
        state.destination(),
        state.viewport_version(),
        state.theme().clone(),
        state.text_color(),
        state.background_color(),
    );
    assert_eq!(once, twice);
    assert_eq!(once.0, size(800, 600));
    assert_eq!(once.1, 1.5f64.to_bits());
    assert_eq!(once.3, 0);
}

#[test]
fn synchronize_after_a_change_is_idempotent() {
    let mut state = State::new(WindowId(0), &App::with_scale(1.0), (800, 600), None);
    let app = App { scale: 2.0, theme: Theme::Dark, accent: 0.25 };
    state.synchronize(&app);
    let once = (state.scale_factor().to_bits(), state.viewport_version(), state.text_color());
    state.synchronize(&app);
    let twice = (state.scale_factor().to_bits(), state.viewport_version(), state.text_color());
    assert_eq!(once, twice);
    assert_eq!(once, (2.0f64.to_bits(), 1, Color::from_rgb(1.0, 1.0, 0.25)));
}

#[test]
fn version_counts_the_changes_of_scale() {
    let mut state = State::new(WindowId(0), &App::with_scale(1.0), (800, 600), None);
    assert_eq!(state.viewport_version(), 0);
    state.synchronize(&App::with_scale(1.0));
    assert_eq!(state.viewport_version(), 0);
    state.synchronize(&App::with_scale(2.0));
    assert_eq!(state.viewport_version(), 1);
    state.synchronize(&App::with_scale(2.0));
    assert_eq!(state.viewport_version(), 1);
    state.synchronize(&App::with_scale(1.0));
    assert_eq!(state.viewport_version(), 2);
    state.synchronize(&App::with_scale(1.25));
    assert_eq!(state.viewport_version(), 3);
    state.synchronize(&App::with_scale(1.25));
    state.synchronize(&App::with_scale(1.25));
    assert_eq!(state.viewport_version(), 3);
}

#[test]
fn change_of_scale_rebuilds_the_viewport_at_its_size() {
    let mut state = State::new(WindowId(0), &App::with_scale(1.0), (800, 600), Some(DestinationRule::Halved));
    state.update_view_port(1000, 500);
    state.synchronize(&App::with_scale(2.0));
    assert_eq!(state.physical_size(), size(1000, 500));
    assert_eq!(state.scale_factor().to_bits(), 2.0f64.to_bits());
    assert_eq!(state.viewport().scale_factor().to_bits(), 2.0f64.to_bits());
    assert_eq!(state.destination(), Some(Destination { width: 500, height: 250 }));
    assert_eq!(logical_size(&state), Size::new(500.0, 250.0));
    assert_eq!(state.viewport_version(), 1);
}

#[test]
fn reconcile_counts_like_synchronize() {
    let appearance = Appearance { background_color: Color::BLACK, text_color: Color::WHITE };
    let mut state: State<Theme> =
        State::from_parts(WindowId(0), (10, 10), None, ScaleFactor::one(), Theme::Light, appearance);
    state.reconcile(ScaleFactor::one(), Theme::Dark, appearance);
    assert_eq!(state.viewport_version(), 0);
    assert_eq!(state.theme(), &Theme::Dark);
    state.reconcile(ScaleFactor::from_bits(3.0f64.to_bits()), Theme::Light, appearance);
    assert_eq!(state.viewport_version(), 1);
    assert_eq!(state.scale_factor().to_bits(), 3.0f64.to_bits());
    assert_eq!(state.theme(), &Theme::Light);
    assert_eq!(state.physical_size(), size(10, 10));
}

#[test]
fn theme_and_appearance_follow_the_application() {
    let mut state = State::new(WindowId(0), &App::with_scale(1.0), (800, 600), None);
    assert_eq!(state.theme(), &Theme::Light);
    state.synchronize(&App { scale: 1.0, theme: Theme::Dark, accent: 0.5 });
    assert_eq!(state.theme(), &Theme::Dark);
    assert_eq!(state.background_color(), Color::BLACK);
    assert_eq!(state.text_color(), Color::from_rgb(1.0, 1.0, 0.5));
    assert_eq!(state.viewport_version(), 0);
}

#[test]
fn appearance_is_taken_anew_even_under_the_same_theme() {
    let mut state = State::new(WindowId(0), &App::with_scale(1.0), (800, 600), None);
    assert_eq!(state.text_color(), Color::from_rgb(0.0, 0.0, 0.5));
    state.synchronize(&App { scale: 1.0, theme: Theme::Light, accent: 0.75 });
    assert_eq!(state.theme(), &Theme::Light);
    assert_eq!(state.text_color(), Color::from_rgb(0.0, 0.0, 0.75));
    assert_eq!(state.viewport_version(), 0);
}

#[test]
fn synchronize_keeps_pointer_and_modifiers() {
    let mut state = State::new(WindowId(0), &App::with_scale(1.0), (800, 600), None);
    state.update(&WindowEvent::CursorMoved { position: Point::new(5.0, 6.0) });
    state.update(&WindowEvent::ModifiersChanged(Modifiers::from_bits(4)));
    state.synchronize(&App::with_scale(2.0));
    assert_eq!(state.cursor(), Cursor::Available(Point::new(5.0, 6.0)));
    assert_eq!(state.modifiers(), Modifiers::from_bits(4));
    assert_eq!(state.id(), WindowId(0));
}

#[test]
fn the_two_zeros_are_no_change_of_scale() {
    let mut state = State::new(WindowId(0), &App::with_scale(0.0), (800, 600), None);
    state.synchronize(&App::with_scale(-0.0));
    assert_eq!(state.viewport_version(), 0);
    assert_eq!(state.scale_factor().to_bits(), 0.0f64.to_bits());
}

#[test]
fn a_nan_scale_is_a_change_every_time() {
    let mut state = State::new(WindowId(0), &App::with_scale(1.0), (800, 600), Some(DestinationRule::Halved));
    state.synchronize(&App::with_scale(f64::NAN));
    assert_eq!(state.viewport_version(), 1);
    state.synchronize(&App::with_scale(f64::NAN));
    assert_eq!(state.viewport_version(), 2);
    assert!(state.scale_factor().is_nan());
    assert_eq!(state.physical_size(), size(800, 600));
    assert_eq!(state.destination(), Some(Destination { width: 400, height: 300 }));
    state.synchronize(&App::with_scale(1.0));
    assert_eq!(state.viewport_version(), 3);
    state.synchronize(&App::with_scale(1.0));
    assert_eq!(state.viewport_version(), 3);
}
