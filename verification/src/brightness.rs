//! Screen brightness on a desktop host, where there is nothing to control:
//! requests are accepted and the screen reads as fully bright.
//!
//! Brightness is a whole percent, `0..=100`.

use vstd::prelude::*;

verus! {

/// Full brightness, in percent.
pub const FULL_BRIGHTNESS: u8 = 100;

/// Why a brightness request failed.
#[derive(Clone, Debug, PartialEq, Eq)]
pub enum Error {
    /// The host shell reported this failure.
    Tauri(String),
    UnsupportedPlatform,
    Plugin(String),
}

impl Error {
    /// The wording of the error.
    pub open spec fn message_text(&self) -> Seq<char> {
        match self {
            Error::Tauri(message) => message@,
            Error::UnsupportedPlatform => "Platform not supported"@,
            Error::Plugin(message) => "Plugin error: "@ + message@,
        }
    }

    /// The wording of the error.
    pub fn message(&self) -> (text: String)
        ensures
            text@ == self.message_text(),
    {
        match self {
            Error::Tauri(message) => message.clone(),
            Error::UnsupportedPlatform => "Platform not supported".to_owned(),
            Error::Plugin(message) => {
                let mut text = "Plugin error: ".to_owned();
                text.push_str(message.as_str());
                text
            },
        }
    }
}

/// A requested brightness held to `[0, FULL_BRIGHTNESS]`.
pub open spec fn clamped_brightness(value: i64) -> u8 {
    if value <= 0 {
        0
    } else if value >= FULL_BRIGHTNESS {
        FULL_BRIGHTNESS
    } else {
        value as u8
    }
}

/// Holds a requested brightness to `[0, FULL_BRIGHTNESS]`.
pub fn clamp_brightness(value: i64) -> (clamped: u8)
    ensures
        clamped == clamped_brightness(value),
        clamped <= FULL_BRIGHTNESS,
{
    if value <= 0 {
        0
    } else if value >= 100 {
        FULL_BRIGHTNESS
    } else {
        value as u8
    }
}

/// Access to the screen brightness of a desktop host.
#[derive(Clone, Copy, Debug, PartialEq, Eq)]
pub struct ScreenBrightness;

impl ScreenBrightness {
    /// Accepts any request and does nothing.
    pub fn set_brightness(&self, value: i64) -> (done: Result<(), Error>)
        ensures
            done is Ok,
    {
        let _ = value;
        Ok(())
    }

    /// A desktop screen reads as fully bright.
    pub fn get_brightness(&self) -> (brightness: Result<u8, Error>)
        ensures
            brightness == Ok::<u8, Error>(FULL_BRIGHTNESS),
    {
        Ok(FULL_BRIGHTNESS)
    }
}

/// Sets up brightness access. On a desktop host this cannot fail.
pub fn init() -> (access: Result<ScreenBrightness, Error>)
    ensures
        access is Ok,
{
    Ok(ScreenBrightness)
}

} // verus!
