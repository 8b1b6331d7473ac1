//! The parts of the plugin ABI that are plain values and decisions.
//!
//! The vtables and trampolines that cross the `extern "C"` boundary live
//! outside the verified library; what they decide is stated here.

use vstd::prelude::*;
use vstd::string::*;
use vstd::utf8::*;

use crate::context::{c_text, spec_c_text};

verus! {

/// Bump when the vtable or any event layout changes in a way that requires
/// recompiling plugins. The framework refuses to load plugins whose
/// manifest reports a different value.
pub const POLYFIELD_ABI_VERSION: u32 = 31;

/// Severity of a log line sent to the host.
#[derive(Debug, Clone, Copy, PartialEq, Eq, Structural)]
pub enum LogLevel {
    Info,
    Warn,
    Error,
}

impl LogLevel {
    /// The value the host ABI uses for this level.
    pub open spec fn raw(self) -> u32 {
        match self {
            LogLevel::Info => 0,
            LogLevel::Warn => 1,
            LogLevel::Error => 2,
        }
    }

    /// The value the host ABI uses for this level: `Info` 0, `Warn` 1,
    /// `Error` 2.
    pub fn code(self) -> (r: u32)
        ensures
            r == self.raw(),
    {
        match self {
            LogLevel::Info => 0,
            LogLevel::Warn => 1,
            LogLevel::Error => 2,
        }
    }
}

/// What an interceptable hook answers the host, given how the plugin's
/// callback ended: its verdict when it returned (`true` forwards the
/// original call, `false` swallows it), and `true` when it panicked, so a
/// crashing plugin never blocks a game call (it fails open).
pub fn intercept_outcome(returned: Option<bool>) -> (r: bool)
    ensures
        r == match returned {
            Some(v) => v,
            None => true,
        },
{
    match returned {
        Some(v) => v,
        None => true,
    }
}

/// The log line reported when a plugin callback panics.
pub open spec fn spec_panic_message(hook: Seq<char>) -> Seq<char> {
    "panicked in "@ + hook + " (caught \u{2014} not propagated)"@
}

/// The log line reported when the callback `hook` panicked; the panic is
/// caught at the ABI boundary and never propagated.
pub fn panic_message(hook: &str) -> (r: String)
    ensures
        r@ == spec_panic_message(hook@),
        r@ == "panicked in "@ + hook@ + " (caught \u{2014} not propagated)"@,
{
    let mut s = String::from_str("panicked in ");
    s.append(hook);
    s.append(" (caught \u{2014} not propagated)");
    s
}

/// The bytes a plugin writes for a text reply into a host buffer of `cap`
/// bytes, and the size it reports, under the host's string convention: the
/// reported size is the UTF-8 length of the text (NUL not counted); the
/// text's bytes are written as far as they fit, closed by a NUL when there
/// is room. Text holding a NUL is sent empty.
pub fn encode_reply(reply: &str, cap: usize) -> (r: (Vec<u8>, usize))
    ensures
        r.1 == encode_utf8(spec_c_text(reply@)).len(),
        r.1 < cap ==> r.0@ == encode_utf8(spec_c_text(reply@)).push(0u8),
        r.1 >= cap ==> r.0@ == encode_utf8(spec_c_text(reply@)).take(cap as int),
        !reply@.contains('\0') ==> r.1 == encode_utf8(reply@).len(),
        !reply@.contains('\0') && r.1 < cap ==> r.0@ == encode_utf8(reply@).push(0u8),
        !reply@.contains('\0') && r.1 >= cap ==> r.0@ == encode_utf8(reply@).take(cap as int),
        reply@.contains('\0') ==> r.1 == 0,
        r.0@.len() <= cap,
{
    let text = c_text(reply);
    proof {
        if reply@.contains('\0') {
            assert(text@ =~= Seq::<char>::empty());
            assert(encode_utf8(text@) =~= Seq::<u8>::empty());
        }
    }
    let bytes = text.as_str().as_bytes();
    let len = bytes.len();
    let n = if len < cap { len } else { cap };
    let mut out: Vec<u8> = Vec::new();
    let mut i: usize = 0;
    while i < n
        invariant
            bytes@ == encode_utf8(text@),
            len == bytes@.len(),
            n <= len,
            i <= n,
            out@ == bytes@.take(i as int),
        decreases n - i,
    {
        out.push(bytes[i]);
        assert(bytes@.take(i + 1) =~= bytes@.take(i as int).push(bytes@[i as int]));
        i = i + 1;
    }
    if len < cap {
        assert(bytes@.take(len as int) =~= bytes@);
        out.push(0u8);
    }
    (out, len)
}

} // verus!
