//! The server's settings and the headers of its answers.

use vstd::prelude::*;
use vstd::string::*;

use crate::text;
use crate::text::{eq_ignore_ascii_case, same_text};

verus! {

/// The database to open where none is named.
pub const DEFAULT_DATABASE_URL: &'static str = "sqlite:data/monitor.db";

/// The address to listen on.
pub const LISTEN_ADDR: &'static str = "0.0.0.0:8080";

/// Whether a setting asks for cookies that are sent over HTTPS only. They are off unless asked
/// for: over plain HTTP a browser would never send them, and no login would last.
pub open spec fn secure_asked(value: Option<Seq<char>>) -> bool {
    value matches Some(v) && (v == "1"@ || text::equal_ignoring_case(v, "true"@))
}

/// Whether the setting `value`, if there is one, asks for cookies over HTTPS only.
pub fn cookie_secure(value: &Option<String>) -> (r: bool)
    ensures
        r == secure_asked(text::text_view(*value)),
{
    match value {
        Some(v) => same_text(v.as_str(), "1") || eq_ignore_ascii_case(v.as_str(), "true"),
        None => false,
    }
}

/// The headers that every answer carries, as names and values: the page is not to be framed,
/// types are not to be guessed, and scripts and styles come from known places only.
pub open spec fn security_header_list() -> Seq<(Seq<char>, Seq<char>)> {
    seq![
        ("x-content-type-options"@, "nosniff"@),
        ("x-frame-options"@, "DENY"@),
        (
            "content-security-policy"@,
            "default-src 'self'; script-src 'self' 'unsafe-inline' https://cdn.tailwindcss.com; style-src 'self' 'unsafe-inline' https://cdnjs.cloudflare.com; font-src https://cdnjs.cloudflare.com; img-src 'self' data:; connect-src 'self'"@,
        ),
    ]
}

/// The headers that every answer carries, as names and values.
pub fn security_headers() -> (r: Vec<(&'static str, &'static str)>)
    ensures
        r@.map_values(|h: (&'static str, &'static str)| (h.0@, h.1@)) == security_header_list(),
{
    let mut out: Vec<(&'static str, &'static str)> = Vec::new();
    out.push(("x-content-type-options", "nosniff"));
    out.push(("x-frame-options", "DENY"));
    out.push(
        (
            "content-security-policy",
            "default-src 'self'; script-src 'self' 'unsafe-inline' https://cdn.tailwindcss.com; style-src 'self' 'unsafe-inline' https://cdnjs.cloudflare.com; font-src https://cdnjs.cloudflare.com; img-src 'self' data:; connect-src 'self'",
        ),
    );
    assert(out@.map_values(|h: (&'static str, &'static str)| (h.0@, h.1@))
        =~= security_header_list());
    out
}

} // verus!
