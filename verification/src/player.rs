//! The decisions behind the `Player` handle.
//!
//! The handle itself reads `PlayerControl` fields through the host; what it
//! does with what comes back is stated and proved here: how a slot id is
//! parsed out of a GameObject name, when a player counts as dead, and how a
//! string reply of the host is decoded.

use vstd::prelude::*;
use vstd::string::*;
use vstd::slice::*;
use vstd::utf8::*;

use crate::text::{decimal, lemma_parse_decimal, parse_u32, parse_u32_str, str_eq};

verus! {

/// The prefix of every player GameObject name: `"Player"`.
pub open spec fn slot_prefix() -> Seq<char> {
    "Player"@
}

/// The slot id that a GameObject name spells: the integer `N` of
/// `"Player<N>"`, read as `u32`'s parser reads it, or `0` when the name has
/// another shape.
pub open spec fn spec_slot_id(name: Seq<char>) -> u32 {
    let p = slot_prefix();
    if name.len() >= p.len() && name.take(p.len() as int) == p {
        match parse_u32(name.skip(p.len() as int)) {
            Some(v) => v,
            None => 0,
        }
    } else {
        0
    }
}

/// The player's slot id from its GameObject name (`"Player3"` gives `3`).
/// Returns `0` when the name is not of the `Player<N>` shape.
pub fn slot_id(unity_name: &str) -> (r: u32)
    ensures
        r == spec_slot_id(unity_name@),
{
    let p = "Player";
    let pl = p.unicode_len();
    let n = unity_name.unicode_len();
    if n < pl {
        return 0;
    }
    let head = unity_name.substring_char(0, pl);
    if !str_eq(head, p) {
        return 0;
    }
    let rest = unity_name.substring_char(pl, n);
    assert(unity_name@.take(pl as int) =~= head@);
    assert(unity_name@.skip(pl as int) =~= rest@);
    match parse_u32_str(rest) {
        Some(v) => v,
        None => 0,
    }
}

/// The GameObject name of slot `id`, as the host looks players up:
/// `"Player"` followed by `id` in decimal.
pub open spec fn spec_slot_name(id: u32) -> Seq<char> {
    slot_prefix() + decimal(id as nat)
}

/// Reading the slot id of the name built for slot `id` gives `id` back.
pub proof fn lemma_slot_name_roundtrip(id: u32)
    ensures
        spec_slot_id(spec_slot_name(id)) == id,
{
    let p = slot_prefix();
    let s = spec_slot_name(id);
    assert(s.take(p.len() as int) =~= p);
    assert(s.skip(p.len() as int) =~= decimal(id as nat));
    lemma_parse_decimal(id);
}

/// Whether a player counts as dead: the game flagged it, or its health has
/// dropped to `0` or below (the window before the flag flips).
pub fn is_dead_from(dead_flag: bool, health: i32) -> (r: bool)
    ensures
        r == (dead_flag || health <= 0),
{
    dead_flag || health <= 0
}

/// `bytes` up to, and not including, its first NUL byte (all of it when it
/// holds none).
pub open spec fn until_nul(bytes: Seq<u8>) -> Seq<u8>
    decreases bytes.len(),
{
    if bytes.len() == 0 || bytes[0] == 0 {
        Seq::empty()
    } else {
        seq![bytes[0]] + until_nul(bytes.drop_first())
    }
}

/// The bytes read from a NUL-terminated buffer are a prefix of it that
/// holds no NUL and is followed by a NUL or by the end of the buffer.
pub proof fn lemma_until_nul_is_prefix(bytes: Seq<u8>)
    ensures
        until_nul(bytes).len() <= bytes.len(),
        until_nul(bytes) == bytes.take(until_nul(bytes).len() as int),
        forall|i: int| 0 <= i < until_nul(bytes).len() ==> #[trigger] until_nul(bytes)[i] != 0,
        until_nul(bytes).len() == bytes.len() || bytes[until_nul(bytes).len() as int] == 0,
    decreases bytes.len(),
{
    if bytes.len() == 0 || bytes[0] == 0 {
        assert(bytes.take(0) =~= Seq::<u8>::empty());
    } else {
        let t = bytes.drop_first();
        lemma_until_nul_is_prefix(t);
        let u = until_nul(t);
        let r = until_nul(bytes);
        assert(r == seq![bytes[0]] + u);
        assert(r =~= bytes.take(r.len() as int)) by {
            assert forall|i: int| 0 <= i < r.len() implies r[i] == bytes.take(r.len() as int)[i] by {
                if i > 0 {
                    assert(u[i - 1] == t.take(u.len() as int)[i - 1]);
                }
            }
        }
        assert forall|i: int| 0 <= i < r.len() implies #[trigger] r[i] != 0 by {
            if i > 0 {
                assert(r[i] == u[i - 1]);
            }
        }
        if u.len() < t.len() {
            assert(bytes[r.len() as int] == t[u.len() as int]);
        }
    }
}

/// What `String::from_utf8_lossy` makes of `bytes`: the decoded text, with
/// each invalid sequence replaced by U+FFFD.
pub uninterp spec fn utf8_lossy(bytes: Seq<u8>) -> Seq<char>;

/// Calls `String::from_utf8_lossy` and takes ownership of the result.
/// Claimed: the result is a function of the bytes alone (named
/// `utf8_lossy`), and for valid UTF-8 it is the decoded text. What the
/// replacement of invalid sequences produces is left unsaid.
#[verifier::external_body]
fn from_utf8_lossy(bytes: &[u8]) -> (r: String)
    ensures
        r@ == utf8_lossy(bytes@),
        valid_utf8(bytes@) ==> r@ == decode_utf8(bytes@),
{
    String::from_utf8_lossy(bytes).into_owned()
}

/// The text of a NUL-terminated byte buffer: the bytes before the first
/// NUL (or all of them), decoded as UTF-8 with invalid sequences replaced.
pub open spec fn cstr_text(bytes: Seq<u8>) -> Seq<char> {
    utf8_lossy(until_nul(bytes))
}

/// Decode the text of a NUL-terminated byte buffer.
pub fn cstr_to_string(bytes: &[u8]) -> (r: String)
    ensures
        r@ == cstr_text(bytes@),
        valid_utf8(until_nul(bytes@)) ==> r@ == decode_utf8(until_nul(bytes@)),
{
    let n = bytes.len();
    let mut end: usize = 0;
    assert(bytes@.skip(0) =~= bytes@);
    assert(bytes@.take(0) =~= Seq::<u8>::empty());
    while end < n && bytes[end] != 0
        invariant
            n == bytes@.len(),
            end <= n,
            until_nul(bytes@) == bytes@.take(end as int) + until_nul(bytes@.skip(end as int)),
        decreases n - end,
    {
        let ghost rest = bytes@.skip(end as int);
        assert(rest.drop_first() =~= bytes@.skip(end + 1));
        assert(bytes@.take(end + 1) =~= bytes@.take(end as int) + seq![bytes@[end as int]]);
        end = end + 1;
    }
    assert(until_nul(bytes@.skip(end as int)) =~= Seq::<u8>::empty());
    assert(bytes@.take(end as int) + Seq::<u8>::empty() =~= bytes@.take(end as int));
    let head = slice_subrange(bytes, 0, end);
    assert(head@ =~= until_nul(bytes@));
    from_utf8_lossy(head)
}

/// No byte of the UTF-8 encoding of a NUL-free text is zero.
proof fn lemma_encode_utf8_nonzero(s: Seq<char>)
    requires
        !s.contains('\0'),
    ensures
        forall|i: int| 0 <= i < encode_utf8(s).len() ==> #[trigger] encode_utf8(s)[i] != 0,
    decreases s.len(),
{
    if s.len() > 0 {
        let rest = s.drop_first();
        assert(!rest.contains('\0')) by {
            if rest.contains('\0') {
                let k = choose|k: int| 0 <= k < rest.len() && rest[k] == '\0';
                assert(s[k + 1] == '\0');
            }
        }
        lemma_encode_utf8_nonzero(rest);
        let v = s[0] as u32;
        assert(s[0] != '\0');
        char_u32_cast(s[0], v);
        char_is_scalar(s[0]);
        assert(v != 0) by {
            if v == 0 {
                assert((0u32 as char) == '\0');
            }
        }
        let head = encode_scalar(v);
        assert(forall|i: int| 0 <= i < head.len() ==> #[trigger] head[i] != 0) by {
            if has_width_1_encoding(v) {
                assert((v & 0x7F) as u8 != 0) by (bit_vector)
                    requires
                        0 < v <= 0x7F,
                ;
            } else if has_width_2_encoding(v) {
                assert(0xC0u8 | ((v >> 6) & 0x1F) as u8 != 0) by (bit_vector);
                assert(0x80u8 | (v & 0x3F) as u8 != 0) by (bit_vector);
            } else if has_width_3_encoding(v) {
                assert(0xE0u8 | ((v >> 12) & 0x0F) as u8 != 0) by (bit_vector);
                assert(0x80u8 | ((v >> 6) & 0x3F) as u8 != 0) by (bit_vector);
                assert(0x80u8 | (v & 0x3F) as u8 != 0) by (bit_vector);
            } else {
                assert(0xF0u8 | ((v >> 18) & 0x7) as u8 != 0) by (bit_vector);
                assert(0x80u8 | ((v >> 12) & 0x3F) as u8 != 0) by (bit_vector);
                assert(0x80u8 | ((v >> 6) & 0x3F) as u8 != 0) by (bit_vector);
                assert(0x80u8 | (v & 0x3F) as u8 != 0) by (bit_vector);
            }
        }
        let e = encode_utf8(s);
        assert(e == head + encode_utf8(rest));
        assert forall|i: int| 0 <= i < e.len() implies #[trigger] e[i] != 0 by {
            if i < head.len() {
                assert(e[i] == head[i]);
            } else {
                assert(e[i] == encode_utf8(rest)[i - head.len()]);
            }
        }
    }
}

/// Bytes with no NUL among them, followed by a NUL and anything, read as
/// those bytes.
proof fn lemma_until_nul_prefix(b: Seq<u8>, rest: Seq<u8>)
    requires
        forall|i: int| 0 <= i < b.len() ==> #[trigger] b[i] != 0,
        rest.len() == 0 || rest[0] == 0,
    ensures
        until_nul(b + rest) == b,
    decreases b.len(),
{
    if b.len() == 0 {
        assert(b + rest =~= rest);
        assert(b =~= Seq::<u8>::empty());
    } else {
        let t = b.drop_first();
        assert forall|i: int| 0 <= i < t.len() implies #[trigger] t[i] != 0 by {
            assert(t[i] == b[i + 1]);
        }
        lemma_until_nul_prefix(t, rest);
        assert((b + rest).drop_first() =~= t + rest);
        assert(b[0] != 0);
        assert(seq![b[0]] + t =~= b);
    }
}

/// A NUL-free text sent as its UTF-8 bytes, whether they fill the buffer
/// or a NUL closes them, reads back as that text: the bytes up to the first
/// NUL are exactly its encoding, which is valid UTF-8 and decodes to it.
pub proof fn lemma_utf8_text_readback(text: Seq<char>, rest: Seq<u8>)
    requires
        !text.contains('\0'),
        rest.len() == 0 || rest[0] == 0,
    ensures
        until_nul(encode_utf8(text) + rest) == encode_utf8(text),
        valid_utf8(encode_utf8(text)),
        decode_utf8(encode_utf8(text)) == text,
{
    lemma_encode_utf8_nonzero(text);
    lemma_until_nul_prefix(encode_utf8(text), rest);
    encode_utf8_valid_utf8(text);
    encode_utf8_decode_utf8(text);
}

/// The size of the first buffer offered to a host string getter.
pub const HOST_STRING_STACK_CAP: usize = 256;

/// What to do after the first call of a host string getter.
pub enum HostStringStep {
    /// The text is complete.
    Done(String),
    /// The host needs a buffer of this many bytes: call it again.
    Retry(usize),
}

/// Decide on the first reply of a host string getter, which wrote into
/// `buf` and reported that it needs `need` bytes: `0` means no text, a need
/// that fits means the text is in `buf`, a larger one asks for a second
/// call with a buffer of exactly that size.
pub fn first_string_reply(buf: &[u8], need: usize) -> (r: HostStringStep)
    ensures
        need == 0 ==> (r matches HostStringStep::Done(s) && s@ == Seq::<char>::empty()),
        0 < need <= buf@.len() ==> (r matches HostStringStep::Done(s) && s@ == cstr_text(
            buf@.take(need as int),
        )),
        need > buf@.len() ==> r == HostStringStep::Retry(need),
{
    if need == 0 {
        return HostStringStep::Done(String::new());
    }
    if need <= buf.len() {
        let used = slice_subrange(buf, 0, need);
        assert(used@ =~= buf@.take(need as int));
        return HostStringStep::Done(cstr_to_string(used));
    }
    HostStringStep::Retry(need)
}

/// Decode the second reply of a host string getter: the text is in the
/// first `need` bytes of `buf`, cut to the buffer's size.
pub fn second_string_reply(buf: &[u8], need: usize) -> (r: String)
    ensures
        r@ == cstr_text(buf@.take(if need <= buf@.len() { need as int } else { buf@.len() as int })),
{
    let n = if need <= buf.len() { need } else { buf.len() };
    let used = slice_subrange(buf, 0, n);
    assert(used@ =~= buf@.take(n as int));
    cstr_to_string(used)
}

} // verus!
