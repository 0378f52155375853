//! Chart metadata and the plain records of the proxy: settings, formats,
//! UI attachments, login and session records.

use std::collections::HashMap;
use vstd::prelude::*;

verus! {

/// Rendering switches of a chart.
#[derive(Debug, Clone, Copy, PartialEq, Eq, Structural)]
pub struct ChartSettings {
    pub pe_alpha_extension: bool,
    pub hold_partial_cover: bool,
}

impl ChartSettings {
    pub fn new() -> (r: ChartSettings)
        ensures
            !r.pe_alpha_extension,
            !r.hold_partial_cover,
    {
        ChartSettings { pe_alpha_extension: false, hold_partial_cover: false }
    }
}

/// The source format of a chart.
#[derive(Debug, Clone, Copy, PartialEq, Eq, Structural)]
pub enum ChartFormat {
    Rpe,
    Pec,
    Pgr,
    Pbc,
}

/// A UI element a judge line can be attached to.
#[derive(Debug, Clone, Copy, PartialEq, Eq, Structural)]
pub enum UIElement {
    Pause,
    ComboNumber,
    Combo,
    Score,
    Bar,
    Name,
    Level,
}

pub open spec fn spec_ui_code(e: UIElement) -> u8 {
    match e {
        UIElement::Pause => 1,
        UIElement::ComboNumber => 2,
        UIElement::Combo => 3,
        UIElement::Score => 4,
        UIElement::Bar => 5,
        UIElement::Name => 6,
        UIElement::Level => 7,
    }
}

impl UIElement {
    /// The element's code in chart files: 1 to 7.
    pub fn code(&self) -> (r: u8)
        ensures
            r == spec_ui_code(*self),
    {
        match self {
            UIElement::Pause => 1,
            UIElement::ComboNumber => 2,
            UIElement::Combo => 3,
            UIElement::Score => 4,
            UIElement::Bar => 5,
            UIElement::Name => 6,
            UIElement::Level => 7,
        }
    }

    /// The element of a code, if it names one.
    pub fn from_code(c: u8) -> (r: Option<UIElement>)
        ensures
            match r {
                Some(e) => spec_ui_code(e) == c,
                None => c == 0 || c > 7,
            },
    {
        match c {
            1 => Some(UIElement::Pause),
            2 => Some(UIElement::ComboNumber),
            3 => Some(UIElement::Combo),
            4 => Some(UIElement::Score),
            5 => Some(UIElement::Bar),
            6 => Some(UIElement::Name),
            7 => Some(UIElement::Level),
            _ => None,
        }
    }
}

/// A chart that could not be parsed, with the reason.
#[derive(Debug, Clone)]
pub struct ParseError(pub String);

/// Credentials relayed to the upstream login.
#[derive(Debug, Clone)]
pub struct LoginRequest {
    pub email: String,
    pub password: String,
}

/// The session the proxy keeps for a logged-in browser.
#[derive(Debug, Clone)]
pub struct AuthSession {
    pub id: i32,
    pub token: String,
    pub refresh_token: String,
    /// Expiry, in seconds since the epoch.
    pub exp: usize,
}

/// The `extra.json` of a chart archive: hit-sound overrides by kind name.
#[derive(Debug)]
pub struct ExtraJson {
    pub hitsounds: Option<HashMap<String, String>>,
}

} // verus!
