//! The decisions behind the `Ctx` handle.
//!
//! `Ctx` forwards requests to the host; the keys it builds, the names it
//! looks up, the way it reads the host's raw replies and the text it hands
//! over are computed here.

use vstd::prelude::*;
use vstd::string::*;

use crate::events::PlayerRef;
use crate::player::spec_slot_name;
use crate::text::u32_to_decimal;

verus! {

/// The key that plugin `plugin_name` stores its own `key` under:
/// `"<plugin>:<key>"`.
pub open spec fn spec_namespaced_key(plugin_name: Seq<char>, key: Seq<char>) -> Seq<char> {
    plugin_name + seq![':'] + key
}

/// The store key of a plugin-private `key`, namespaced by the plugin's name.
pub fn namespaced_key(plugin_name: &str, key: &str) -> (r: String)
    ensures
        r@ == spec_namespaced_key(plugin_name@, key@),
        r@ == plugin_name@ + seq![':'] + key@,
        r@.len() == plugin_name@.len() + 1 + key@.len(),
        r@.skip(plugin_name@.len() + 1 as int) == key@,
{
    let mut s = String::from_str(plugin_name);
    proof {
        reveal_strlit(":");
    }
    s.append(":");
    s.append(key);
    s
}

/// The store key is the plugin's name, one `:` and the short key verbatim:
/// each part can be read back from it.
pub proof fn lemma_namespaced_key_parts(plugin_name: Seq<char>, key: Seq<char>)
    ensures
        spec_namespaced_key(plugin_name, key).len() == plugin_name.len() + 1 + key.len(),
        spec_namespaced_key(plugin_name, key).take(plugin_name.len() as int) == plugin_name,
        spec_namespaced_key(plugin_name, key)[plugin_name.len() as int] == ':',
        spec_namespaced_key(plugin_name, key).skip(plugin_name.len() + 1 as int) == key,
{
    let r = spec_namespaced_key(plugin_name, key);
    assert(r.take(plugin_name.len() as int) =~= plugin_name);
    assert(r.skip(plugin_name.len() + 1 as int) =~= key);
}

/// One plugin's distinct short keys never share a store key.
pub proof fn lemma_namespaced_key_injective(plugin_name: Seq<char>, k1: Seq<char>, k2: Seq<char>)
    requires
        k1 != k2,
    ensures
        spec_namespaced_key(plugin_name, k1) != spec_namespaced_key(plugin_name, k2),
{
    lemma_namespaced_key_parts(plugin_name, k1);
    lemma_namespaced_key_parts(plugin_name, k2);
}

/// Two plugins that use the same short key never share a store key.
pub proof fn lemma_namespaces_isolate(p1: Seq<char>, p2: Seq<char>, key: Seq<char>)
    requires
        p1 != p2,
    ensures
        spec_namespaced_key(p1, key) != spec_namespaced_key(p2, key),
{
    let a = spec_namespaced_key(p1, key);
    let b = spec_namespaced_key(p2, key);
    if a == b {
        assert(a.len() == p1.len() + 1 + key.len());
        assert(b.len() == p2.len() + 1 + key.len());
        assert(a.take(p1.len() as int) =~= p1);
        assert(b.take(p2.len() as int) =~= p2);
    }
}

/// The prefix of the sidecar key that records who last wrote a global key.
pub open spec fn owner_key_prefix() -> Seq<char> {
    "__pf_global_owner:"@
}

/// The sidecar key that records which plugin last wrote global `key`.
pub fn global_owner_key(key: &str) -> (r: String)
    ensures
        r@ == owner_key_prefix() + key@,
        r@ == "__pf_global_owner:"@ + key@,
{
    let mut s = String::from_str("__pf_global_owner:");
    s.append(key);
    s
}

/// The owner key is `__pf_global_owner:` followed by the global key
/// verbatim, so distinct global keys have distinct owner keys.
pub proof fn lemma_global_owner_key_parts(key: Seq<char>, other: Seq<char>)
    ensures
        (owner_key_prefix() + key).len() == 18 + key.len(),
        (owner_key_prefix() + key).skip(18) == key,
        key != other ==> owner_key_prefix() + key != owner_key_prefix() + other,
{
    reveal_strlit("__pf_global_owner:");
    assert((owner_key_prefix() + key).skip(18) =~= key);
    assert((owner_key_prefix() + other).skip(18) =~= other);
}

/// The GameObject name the host looks slot `id` up by: `"Player<id>"`.
pub fn slot_name(id: u32) -> (r: String)
    ensures
        r@ == spec_slot_name(id),
{
    let mut s = String::from_str("Player");
    let digits = u32_to_decimal(id);
    s.append(digits.as_str());
    s
}

/// A host string reply read as an optional value: empty means absent.
pub fn present_text(s: String) -> (r: Option<String>)
    ensures
        r is None <==> s@.len() == 0,
        r matches Some(t) ==> t@ == s@,
{
    if s.unicode_len() == 0 {
        None
    } else {
        Some(s)
    }
}

/// The file name of a plugin's config file: `"<plugin>.toml"`.
pub fn config_file_name(plugin_name: &str) -> (r: String)
    ensures
        r@ == plugin_name@ + ".toml"@,
{
    let mut s = String::from_str(plugin_name);
    s.append(".toml");
    s
}

/// Text that a C string can carry: `s` itself, or empty when `s` holds a
/// NUL character, which no C string can.
pub open spec fn spec_c_text(s: Seq<char>) -> Seq<char> {
    if s.contains('\0') {
        Seq::empty()
    } else {
        s
    }
}

/// Text without a NUL is carried whole, whatever its length; text with one
/// is carried as empty text. Either way the carried text holds no NUL.
pub proof fn lemma_c_text_carries_text(s: Seq<char>)
    ensures
        !s.contains('\0') ==> spec_c_text(s) == s,
        s.contains('\0') ==> spec_c_text(s).len() == 0,
        !spec_c_text(s).contains('\0'),
{
}

/// The text handed to the host as a C string: `s`, or empty when `s` holds
/// a NUL character.
pub fn c_text(s: &str) -> (r: String)
    ensures
        r@ == spec_c_text(s@),
        !r@.contains('\0'),
        !s@.contains('\0') ==> r@ == s@,
        s@.contains('\0') ==> r@.len() == 0,
{
    let n = s.unicode_len();
    let mut i: usize = 0;
    while i < n
        invariant
            n == s@.len(),
            i <= n,
            forall|j: int| 0 <= j < i ==> s@[j] != '\0',
        decreases n - i,
    {
        if s.get_char(i) == '\0' {
            return String::new();
        }
        i = i + 1;
    }
    String::from_str(s)
}

/// A player reference reported by the host, `0` meaning none.
pub fn nonzero_ref(id: PlayerRef) -> (r: Option<PlayerRef>)
    ensures
        r == (if id == 0 { None::<PlayerRef> } else { Some(id) }),
{
    if id == 0 {
        None
    } else {
        Some(id)
    }
}

/// The transport port reported by the host, `0` meaning unresolved.
pub fn port_from_raw(p: u16) -> (r: Option<u16>)
    ensures
        r == (if p == 0 { None::<u16> } else { Some(p) }),
{
    if p == 0 {
        None
    } else {
        Some(p)
    }
}

/// The maximum player count reported by the host, `0` meaning unresolved.
pub fn max_players_from_raw(n: u32) -> (r: Option<u32>)
    ensures
        r == (if n == 0 { None::<u32> } else { Some(n) }),
{
    if n == 0 {
        None
    } else {
        Some(n)
    }
}

/// The current player count reported by the host, `u32::MAX` meaning
/// unresolved; a real count of `0` is `Some(0)`.
pub fn player_count_from_raw(n: u32) -> (r: Option<u32>)
    ensures
        r == (if n == u32::MAX { None::<u32> } else { Some(n) }),
{
    if n == u32::MAX {
        None
    } else {
        Some(n)
    }
}

/// The pieces of `s` between line breaks, as `str::split('\n')` yields
/// them: always at least one, empty pieces included.
pub open spec fn split_lines(s: Seq<char>) -> Seq<Seq<char>>
    decreases s.len(),
{
    if s.len() == 0 {
        seq![Seq::<char>::empty()]
    } else {
        let prev = split_lines(s.drop_last());
        if s.last() == '\n' {
            prev.push(Seq::<char>::empty())
        } else {
            prev.update(prev.len() - 1, prev.last().push(s.last()))
        }
    }
}

/// `pieces` without its empty entries, order kept.
pub open spec fn nonempty_pieces(pieces: Seq<Seq<char>>) -> Seq<Seq<char>>
    decreases pieces.len(),
{
    if pieces.len() == 0 {
        Seq::empty()
    } else {
        let rest = nonempty_pieces(pieces.drop_last());
        if pieces.last().len() > 0 {
            rest.push(pieces.last())
        } else {
            rest
        }
    }
}

/// The map names in the host's newline-separated map-pool text.
pub open spec fn map_pool(raw: Seq<char>) -> Seq<Seq<char>> {
    nonempty_pieces(split_lines(raw))
}

/// Split the host's map-pool text into map names: one per line, empty
/// lines dropped.
pub fn split_map_list(raw: &str) -> (r: Vec<String>)
    ensures
        r@.map_values(|x: String| x@) == map_pool(raw@),
{
    let n = raw.unicode_len();
    let mut out: Vec<String> = Vec::new();
    let mut start: usize = 0;
    let mut i: usize = 0;
    assert(raw@.take(0) =~= Seq::<char>::empty());
    assert(out@.map_values(|x: String| x@) =~= Seq::<Seq<char>>::empty());
    while i < n
        invariant
            n == raw@.len(),
            start <= i <= n,
            split_lines(raw@.take(i as int)).len() > 0,
            split_lines(raw@.take(i as int)).last() == raw@.subrange(start as int, i as int),
            out@.map_values(|x: String| x@) == nonempty_pieces(
                split_lines(raw@.take(i as int)).drop_last(),
            ),
        decreases n - i,
    {
        let c = raw.get_char(i);
        let ghost t = raw@.take(i as int);
        let ghost t2 = raw@.take(i + 1);
        let ghost old_out = out@.map_values(|x: String| x@);
        assert(t2.drop_last() =~= t);
        assert(t2.last() == c);
        if c == '\n' {
            if i > start {
                let piece = String::from_str(raw.substring_char(start, i));
                out.push(piece);
                assert(out@.map_values(|x: String| x@) =~= old_out.push(raw@.subrange(start as int, i as int)));
            }
            assert(split_lines(t2).drop_last() =~= split_lines(t));
            assert(raw@.subrange(i + 1, i + 1) =~= Seq::<char>::empty());
            start = i + 1;
        } else {
            assert(split_lines(t2).drop_last() =~= split_lines(t).drop_last());
            assert(raw@.subrange(start as int, i + 1) =~= raw@.subrange(start as int, i as int).push(c));
        }
        i = i + 1;
    }
    let ghost before = out@.map_values(|x: String| x@);
    assert(raw@.take(n as int) =~= raw@);
    if n > start {
        let piece = String::from_str(raw.substring_char(start, n));
        out.push(piece);
        assert(out@.map_values(|x: String| x@) =~= before.push(raw@.subrange(start as int, n as int)));
    }
    out
}

proof fn lemma_split_lines_no_break(s: Seq<char>)
    ensures
        forall|i: int| 0 <= i < split_lines(s).len() ==> !(#[trigger] split_lines(s)[i]).contains('\n'),
    decreases s.len(),
{
    lemma_split_lines_nonempty(s);
    if s.len() > 0 {
        let d = s.drop_last();
        lemma_split_lines_no_break(d);
        lemma_split_lines_nonempty(d);
        let prev = split_lines(d);
        let r = split_lines(s);
        assert forall|i: int| 0 <= i < r.len() implies !(#[trigger] r[i]).contains('\n') by {
            if i < prev.len() && !(s.last() != '\n' && i == prev.len() - 1) {
                assert(r[i] == prev[i]);
            } else if s.last() == '\n' {
                assert(r[i] == Seq::<char>::empty());
            } else {
                let w = prev.last().push(s.last());
                assert(r[i] == w);
                assert(!prev[prev.len() - 1].contains('\n'));
                if w.contains('\n') {
                    let k = choose|k: int| 0 <= k < w.len() && w[k] == '\n';
                    if k < w.len() - 1 {
                        assert(prev.last()[k] == '\n');
                    }
                }
            }
        }
    }
}

proof fn lemma_nonempty_pieces_keep(p: Seq<Seq<char>>)
    ensures
        forall|i: int| 0 <= i < nonempty_pieces(p).len() ==> (#[trigger] nonempty_pieces(p)[i]).len() > 0
            && exists|j: int| 0 <= j < p.len() && p[j] == nonempty_pieces(p)[i],
    decreases p.len(),
{
    if p.len() > 0 {
        let d = p.drop_last();
        lemma_nonempty_pieces_keep(d);
        let r = nonempty_pieces(p);
        let rd = nonempty_pieces(d);
        assert forall|i: int| 0 <= i < r.len() implies (#[trigger] r[i]).len() > 0
            && exists|j: int| 0 <= j < p.len() && p[j] == r[i] by {
            if i < rd.len() {
                assert(r[i] == rd[i]);
                let j = choose|j: int| 0 <= j < d.len() && d[j] == rd[i];
                assert(p[j] == d[j]);
            } else {
                assert(r[i] == p.last());
                assert(p[p.len() - 1] == r[i]);
            }
        }
    }
}

/// Every map name read from the map-pool text is non-empty and holds no
/// line break.
pub proof fn lemma_map_pool_names(raw: Seq<char>)
    ensures
        forall|i: int| 0 <= i < map_pool(raw).len() ==> (#[trigger] map_pool(raw)[i]).len() > 0
            && !map_pool(raw)[i].contains('\n'),
{
    lemma_split_lines_no_break(raw);
    lemma_nonempty_pieces_keep(split_lines(raw));
    let p = split_lines(raw);
    assert forall|i: int| 0 <= i < map_pool(raw).len() implies (#[trigger] map_pool(raw)[i]).len() > 0
        && !map_pool(raw)[i].contains('\n') by {
        let j = choose|j: int| 0 <= j < p.len() && p[j] == map_pool(raw)[i];
        assert(!p[j].contains('\n'));
    }
}

/// `names` joined with line breaks, as the host lays out the map pool.
pub open spec fn join_lines(names: Seq<Seq<char>>) -> Seq<char>
    decreases names.len(),
{
    if names.len() == 0 {
        Seq::empty()
    } else if names.len() == 1 {
        names[0]
    } else {
        join_lines(names.drop_last()) + seq!['\n'] + names.last()
    }
}

proof fn lemma_split_lines_nonempty(s: Seq<char>)
    ensures
        split_lines(s).len() > 0,
    decreases s.len(),
{
    if s.len() > 0 {
        lemma_split_lines_nonempty(s.drop_last());
    }
}

proof fn lemma_split_lines_single(w: Seq<char>)
    requires
        !w.contains('\n'),
    ensures
        split_lines(w) == seq![w],
    decreases w.len(),
{
    if w.len() > 0 {
        let d = w.drop_last();
        assert(!d.contains('\n')) by {
            if d.contains('\n') {
                let k = choose|k: int| 0 <= k < d.len() && d[k] == '\n';
                assert(w[k] == '\n');
            }
        }
        lemma_split_lines_single(d);
        assert(w[w.len() - 1] != '\n');
        assert(d.push(w.last()) =~= w);
    } else {
        assert(w =~= Seq::<char>::empty());
    }
}

proof fn lemma_split_lines_join(a: Seq<char>, b: Seq<char>)
    ensures
        split_lines(a + seq!['\n'] + b) == split_lines(a) + split_lines(b),
    decreases b.len(),
{
    let s = a + seq!['\n'] + b;
    if b.len() == 0 {
        assert(s.drop_last() =~= a);
        assert(split_lines(a).push(Seq::<char>::empty()) =~= split_lines(a) + split_lines(b));
    } else {
        let bd = b.drop_last();
        assert(s.drop_last() =~= a + seq!['\n'] + bd);
        lemma_split_lines_join(a, bd);
        lemma_split_lines_nonempty(a);
        lemma_split_lines_nonempty(bd);
        let pa = split_lines(a);
        let pb = split_lines(bd);
        let prev = pa + pb;
        if b.last() == '\n' {
            assert(prev.push(Seq::<char>::empty()) =~= pa + pb.push(Seq::<char>::empty()));
        } else {
            assert(prev.last() == pb.last());
            assert(prev.update(prev.len() - 1, prev.last().push(b.last())) =~= pa + pb.update(
                pb.len() - 1,
                pb.last().push(b.last()),
            ));
        }
    }
}

proof fn lemma_nonempty_pieces_append(p: Seq<Seq<char>>, q: Seq<Seq<char>>)
    ensures
        nonempty_pieces(p + q) == nonempty_pieces(p) + nonempty_pieces(q),
    decreases q.len(),
{
    if q.len() == 0 {
        assert(p + q =~= p);
        assert(nonempty_pieces(p) + Seq::<Seq<char>>::empty() =~= nonempty_pieces(p));
    } else {
        assert((p + q).drop_last() =~= p + q.drop_last());
        lemma_nonempty_pieces_append(p, q.drop_last());
        let l = nonempty_pieces(p);
        let r = nonempty_pieces(q.drop_last());
        assert((l + r).push(q.last()) =~= l + r.push(q.last()));
    }
}

/// Map names that are non-empty and hold no line break come back from the
/// map-pool text that lists them one per line, in the same order.
pub proof fn lemma_map_pool_roundtrip(names: Seq<Seq<char>>)
    requires
        forall|i: int| 0 <= i < names.len() ==> #[trigger] names[i].len() > 0,
        forall|i: int| 0 <= i < names.len() ==> !(#[trigger] names[i]).contains('\n'),
    ensures
        map_pool(join_lines(names)) == names,
    decreases names.len(),
{
    if names.len() == 0 {
        assert(join_lines(names) == Seq::<char>::empty());
        assert(split_lines(Seq::<char>::empty()) == seq![Seq::<char>::empty()]);
        assert(nonempty_pieces(Seq::<Seq<char>>::empty()) =~= Seq::<Seq<char>>::empty());
        assert(nonempty_pieces(seq![Seq::<char>::empty()]).len() == 0) by {
            assert(seq![Seq::<char>::empty()].drop_last() =~= Seq::<Seq<char>>::empty());
        }
        assert(names =~= Seq::<Seq<char>>::empty());
    } else if names.len() == 1 {
        let w = names[0];
        lemma_split_lines_single(w);
        assert(seq![w].drop_last() =~= Seq::<Seq<char>>::empty());
        assert(nonempty_pieces(Seq::<Seq<char>>::empty()) == Seq::<Seq<char>>::empty());
        assert(nonempty_pieces(seq![w]) =~= seq![w]);
        assert(Seq::<Seq<char>>::empty().push(w) =~= names);
    } else {
        let init = names.drop_last();
        let w = names.last();
        assert(names[names.len() - 1].len() > 0);
        assert(!names[names.len() - 1].contains('\n'));
        lemma_map_pool_roundtrip(init);
        lemma_split_lines_join(join_lines(init), w);
        lemma_split_lines_single(w);
        lemma_nonempty_pieces_append(split_lines(join_lines(init)), seq![w]);
        assert(seq![w].drop_last() =~= Seq::<Seq<char>>::empty());
        assert(nonempty_pieces(Seq::<Seq<char>>::empty()) == Seq::<Seq<char>>::empty());
        assert(nonempty_pieces(seq![w]) =~= seq![w]);
        assert(init + seq![w] =~= names);
    }
}

} // verus!
