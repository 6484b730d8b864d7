//! How the remote browser is launched.

use crate::text::{decimal, push_decimal};
use vstd::prelude::*;
use vstd::string::*;

verus! {

/// Where the service that launches browsers listens.
pub const SELENIUM_ENDPOINT: &'static str = "http://localhost:4444";

/// The browser program. The open-source build of the same browser never gets
/// past connecting when it joins a call.
pub const BROWSER_BINARY: &'static str = "/usr/bin/google-chrome";

/// Lets media start without a gesture of the user.
pub const AUTOPLAY_ARGUMENT: &'static str = "--autoplay-policy=no-user-gesture-required";

/// Width of the browser window.
pub const WINDOW_WIDTH: u64 = 1920;

/// Height of the browser window.
pub const WINDOW_HEIGHT: u64 = 1080;

/// Preferences of the browser profile, as JSON: every secure origin may use
/// the camera and the microphone without being asked.
pub const MEDIA_PREFERENCES: &'static str =
    "{\"profile\":{\"content_settings\":{\"exceptions\":{\"media_stream_camera\":{\"https://*,*\":{\"setting\":1}},\"media_stream_mic\":{\"https://*,*\":{\"setting\":1}}}}}}";

/// The argument that fixes the size of the window.
pub open spec fn window_size_argument(width: nat, height: nat) -> Seq<char> {
    "--window-size="@ + decimal(width) + ","@ + decimal(height)
}

/// Everything the launch of the remote browser is given.
#[derive(Debug, PartialEq, Eq)]
pub struct LaunchOptions {
    /// Address of the launching service.
    pub endpoint: String,
    /// Path of the browser program.
    pub binary: String,
    /// Command-line arguments of the browser, in order.
    pub arguments: Vec<String>,
    /// The profile's `prefs` option, as JSON.
    pub preferences: String,
}

impl LaunchOptions {
    /// The options of every launch: a window of fixed size in which media may
    /// play by themselves and may use camera and microphone.
    pub fn new() -> (options: LaunchOptions)
        ensures
            options.endpoint@ == SELENIUM_ENDPOINT@,
            options.binary@ == BROWSER_BINARY@,
            options.arguments.deep_view() == seq![
                AUTOPLAY_ARGUMENT@,
                window_size_argument(WINDOW_WIDTH as nat, WINDOW_HEIGHT as nat),
            ],
            options.preferences@ == MEDIA_PREFERENCES@,
    {
        let mut size = String::from_str("--window-size=");
        push_decimal(&mut size, WINDOW_WIDTH);
        size.append(",");
        push_decimal(&mut size, WINDOW_HEIGHT);
        let mut arguments: Vec<String> = Vec::new();
        arguments.push(String::from_str(AUTOPLAY_ARGUMENT));
        arguments.push(size);
        assert(arguments.deep_view() =~= seq![
            AUTOPLAY_ARGUMENT@,
            window_size_argument(WINDOW_WIDTH as nat, WINDOW_HEIGHT as nat),
        ]);
        LaunchOptions {
            endpoint: String::from_str(SELENIUM_ENDPOINT),
            binary: String::from_str(BROWSER_BINARY),
            arguments,
            preferences: String::from_str(MEDIA_PREFERENCES),
        }
    }
}

} // verus!
