//! Response headers for the files of the embedded frontend.
use vstd::prelude::*;
use crate::text::{ends_with, is_suffix};

verus! {

/// Serves the files of the embedded frontend.
#[derive(Clone, Copy, Debug, PartialEq, Eq, Structural)]
pub struct ServeUI;

/// The media type of a file, by the extension of its path.
pub open spec fn content_type_of(path: Seq<char>) -> Seq<char> {
    if is_suffix(path, ".html"@) {
        "text/html; charset=utf-8"@
    } else if is_suffix(path, ".js"@) {
        "application/javascript"@
    } else if is_suffix(path, ".css"@) {
        "text/css"@
    } else if is_suffix(path, ".wasm"@) {
        "application/wasm"@
    } else {
        "application/octet-stream"@
    }
}

/// The caching rule of a file, by the extension of its path.
pub open spec fn cache_control_of(path: Seq<char>) -> Option<Seq<char>> {
    if is_suffix(path, ".html"@) {
        Some("no-cache"@)
    } else if is_suffix(path, ".js"@) || is_suffix(path, ".css"@) || is_suffix(path, ".wasm"@) {
        Some("public, max-age=31536000, immutable"@)
    } else {
        None
    }
}

impl Default for ServeUI {
    fn default() -> (ui: Self)
        ensures
            ui == ServeUI,
    {
        ServeUI
    }
}

impl ServeUI {
    /// A new server of the frontend's files.
    pub fn new() -> (ui: Self)
        ensures
            ui == ServeUI,
    {
        ServeUI
    }

    /// The media type to send with a file: by its extension, and a stream of
    /// bytes where the extension is not known.
    pub fn content_type(path: &str) -> (media: &'static str)
        ensures
            media@ == content_type_of(path@),
    {
        if ends_with(path, ".html") {
            "text/html; charset=utf-8"
        } else if ends_with(path, ".js") {
            "application/javascript"
        } else if ends_with(path, ".css") {
            "text/css"
        } else if ends_with(path, ".wasm") {
            "application/wasm"
        } else {
            "application/octet-stream"
        }
    }

    /// The caching rule to send with a file: pages are never cached, scripts,
    /// styles and modules are cached for a year, and other files get no rule.
    pub fn cache_control(path: &str) -> (rule: Option<&'static str>)
        ensures
            match cache_control_of(path@) {
                Some(text) => rule is Some && rule->Some_0@ == text,
                None => rule is None,
            },
    {
        if ends_with(path, ".html") {
            Some("no-cache")
        } else if ends_with(path, ".js") || ends_with(path, ".css") || ends_with(path, ".wasm") {
            Some("public, max-age=31536000, immutable")
        } else {
            None
        }
    }
}

} // verus!
