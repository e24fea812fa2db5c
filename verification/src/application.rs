//! What a window asks of the application that it belongs to.

use vstd::prelude::*;
use iced_core::Color;
use crate::ids::WindowId;
use crate::scale::ScaleFactor;

verus! {

/// The colours that a theme gives a window.
#[derive(Clone, Copy, Debug, PartialEq)]
pub struct Appearance {
    /// The colour behind the contents of the window.
    pub background_color: Color,
    /// The colour of text that has no colour of its own.
    pub text_color: Color,
}

/// The application as its windows see it.
///
/// A window asks these three questions when it is made and once in every
/// update cycle. The library promises nothing about the answers and takes
/// them as they come.
pub trait Application {
    /// The theme of the application.
    type Theme;

    /// The scale factor that the application wants for a window.
    fn scale_factor(&self, window: WindowId) -> ScaleFactor;

    /// The current theme.
    fn theme(&self) -> Self::Theme;

    /// The appearance that a theme gives a window.
    fn style(&self, theme: &Self::Theme) -> Appearance;
}

} // verus!
