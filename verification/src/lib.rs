//! Polyfield plugin SDK: the verified core.
//!
//! A plugin implements the SDK's `Plugin` trait and is driven by the
//! framework through a C ABI. This library holds what the SDK computes and
//! decides on its own: the game enumerations, the event payloads, the keys
//! and names it builds for the host, the way it decodes the host's replies
//! and the verdict it returns for an intercepted call.

pub mod abi;
pub mod context;
pub mod events;
pub mod fields;
pub mod game_enums;
pub mod player;
pub mod plugin;
pub mod text;

pub use abi::{LogLevel, POLYFIELD_ABI_VERSION};
pub use plugin::PluginManifest;

use vstd::prelude::*;
use vstd::string::*;

verus! {

/// The rich-text markup that colours `msg`:
/// `"<color=" + color + ">" + msg + "</color>"`.
pub open spec fn spec_color(color: Seq<char>, msg: Seq<char>) -> Seq<char> {
    "<color="@ + color + ">"@ + msg + "</color>"@
}

/// Wrap `msg` in a `<color=...>...</color>` tag for the in-game chat.
///
/// `color_name` accepts any token the game's rich-text parser understands:
/// named colours (`"red"`, `"blue"`, ...) and hex strings (`"#ff0080"`).
pub fn color(color_name: &str, msg: &str) -> (r: String)
    ensures
        r@ == spec_color(color_name@, msg@),
        r@ == "<color="@ + color_name@ + ">"@ + msg@ + "</color>"@,
        r@.len() == color_name@.len() + msg@.len() + 16,
        r@.subrange(8 + color_name@.len() as int, 8 + color_name@.len() + msg@.len() as int) == msg@,
{
    let mut s = String::from_str("<color=");
    s.append(color_name);
    s.append(">");
    s.append(msg);
    s.append("</color>");
    proof {
        lemma_color_markup(color_name@, msg@);
    }
    s
}

/// The markup is the opening tag `<color=`, the colour, `>`, the whole
/// message and the closing tag `</color>`, nothing cut and nothing added:
/// its length is 16 plus the lengths of colour and message, and the text
/// between the tags is the message itself.
pub proof fn lemma_color_markup(color_name: Seq<char>, msg: Seq<char>)
    ensures
        spec_color(color_name, msg).len() == color_name.len() + msg.len() + 16,
        spec_color(color_name, msg).take(7) == seq!['<', 'c', 'o', 'l', 'o', 'r', '='],
        spec_color(color_name, msg).subrange(7, 7 + color_name.len() as int) == color_name,
        spec_color(color_name, msg)[7 + color_name.len() as int] == '>',
        spec_color(color_name, msg).subrange(
            8 + color_name.len() as int,
            8 + color_name.len() + msg.len() as int,
        ) == msg,
        spec_color(color_name, msg).skip(8 + color_name.len() + msg.len() as int) == seq![
            '<',
            '/',
            'c',
            'o',
            'l',
            'o',
            'r',
            '>',
        ],
{
    reveal_strlit("<color=");
    reveal_strlit(">");
    reveal_strlit("</color>");
    let r = spec_color(color_name, msg);
    let c = color_name.len() as int;
    let m = msg.len() as int;
    assert(r.take(7) =~= seq!['<', 'c', 'o', 'l', 'o', 'r', '=']);
    assert(r.subrange(7, 7 + c) =~= color_name);
    assert(r.subrange(8 + c, 8 + c + m) =~= msg);
    assert(r.skip(8 + c + m) =~= seq!['<', '/', 'c', 'o', 'l', 'o', 'r', '>']);
}

} // verus!
