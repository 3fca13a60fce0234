//! The options that a request to the portal is sent with.

use crate::token::{is_generated, HandleToken};
use vstd::prelude::*;

verus! {

/// The window that a request belongs to.
#[derive(Debug, Copy, Clone, PartialEq, Eq, Structural)]
pub enum WindowIdentifier {
    /// No window.
    Absent,
}

impl Default for WindowIdentifier {
    /// No window.
    fn default() -> (identifier: Self)
        ensures
            identifier == WindowIdentifier::Absent,
    {
        WindowIdentifier::Absent
    }
}

/// The options of a request to pick a color.
#[derive(Debug)]
pub struct ColorOptions {
    handle_token: HandleToken,
}

impl ColorOptions {
    /// The text of the token that names the request.
    pub closed spec fn token(&self) -> Seq<char> {
        self.handle_token@
    }

    /// Options for a request that `handle_token` names.
    pub fn new(handle_token: HandleToken) -> (options: Self)
        ensures
            options.token() == handle_token@,
    {
        ColorOptions { handle_token }
    }

    /// The token that names the request.
    pub fn handle_token(&self) -> (token: &HandleToken)
        ensures
            token@ == self.token(),
    {
        &self.handle_token
    }
}

impl Default for ColorOptions {
    /// Options with a fresh token.
    fn default() -> (options: Self)
        ensures
            is_generated(options.token()),
    {
        ColorOptions { handle_token: HandleToken::default() }
    }
}

/// The options of a request to take a screenshot.
#[derive(Debug)]
pub struct ScreenshotOptions {
    handle_token: HandleToken,
    modal: Option<bool>,
    interactive: Option<bool>,
}

impl ScreenshotOptions {
    /// The text of the token that names the request.
    pub closed spec fn token(&self) -> Seq<char> {
        self.handle_token@
    }

    /// Whether the dialog is to be modal, if that is set.
    pub closed spec fn spec_modal(&self) -> Option<bool> {
        self.modal
    }

    /// Whether the dialog is to be interactive, if that is set.
    pub closed spec fn spec_interactive(&self) -> Option<bool> {
        self.interactive
    }

    /// Options for a request that `handle_token` names.
    pub fn new(handle_token: HandleToken, modal: Option<bool>, interactive: Option<bool>) -> (options:
        Self)
        ensures
            options.token() == handle_token@,
            options.spec_modal() == modal,
            options.spec_interactive() == interactive,
    {
        ScreenshotOptions { handle_token, modal, interactive }
    }

    /// The token that names the request.
    pub fn handle_token(&self) -> (token: &HandleToken)
        ensures
            token@ == self.token(),
    {
        &self.handle_token
    }

    /// Whether the dialog is to be modal, if that is set.
    pub fn modal(&self) -> (modal: Option<bool>)
        ensures
            modal == self.spec_modal(),
    {
        self.modal
    }

    /// Whether the dialog is to be interactive, if that is set.
    pub fn interactive(&self) -> (interactive: Option<bool>)
        ensures
            interactive == self.spec_interactive(),
    {
        self.interactive
    }
}

impl Default for ScreenshotOptions {
    /// Options with a fresh token and nothing else set.
    fn default() -> (options: Self)
        ensures
            is_generated(options.token()),
            options.spec_modal() is None,
            options.spec_interactive() is None,
    {
        ScreenshotOptions { handle_token: HandleToken::default(), modal: None, interactive: None }
    }
}

} // verus!
