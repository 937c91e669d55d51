//! An interactive-form and event-composition engine for terminal
//! applications.
//!
//! A screen declares an ordered list of typed fields (headings, text inputs,
//! boolean toggles, read-only displays, searchable select boxes, buttons and
//! status lines). The [`form::Form`] model owns that list and manages
//! cursor-based focus, field visibility, text editing and dropdown/filter
//! popups. Independently built widgets compose through the
//! [`traits::Component`] protocol by merging [`traits::HandleResult`] values
//! up a page stack.
//!
//! The library is agnostic of the terminal backend: key input arrives as the
//! plain [`events::Event`] data type and rendering is reduced to the layout
//! computed by [`form::Form::layout`]; drawing and raw input decoding live
//! outside the library.

pub mod button;
pub mod events;
pub mod form;
pub mod laws;
pub mod layout;
pub mod popup;
pub mod sidebar;
pub mod text_edit;
pub mod text_popup;
pub mod traits;
pub mod widget;
