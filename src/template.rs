//! Expansion of `{key}` placeholders in a template against a track.
use vstd::prelude::*;
use crate::text::{from_chars, to_chars};
use crate::track::{Track, TrackView};

verus! {

/// `s` with every occurrence of `p` replaced by `v`, scanning left to right
/// and never letting two replaced occurrences overlap.
pub open spec fn replace_all(s: Seq<char>, p: Seq<char>, v: Seq<char>) -> Seq<char>
    decreases s.len(),
{
    if s.len() == 0 {
        Seq::empty()
    } else if 0 < p.len() <= s.len() && s.subrange(0, p.len() as int) == p {
        v + replace_all(s.subrange(p.len() as int, s.len() as int), p, v)
    } else {
        seq![s[0]] + replace_all(s.drop_first(), p, v)
    }
}

/// The placeholder text for `key`: the key between braces.
pub open spec fn braced(key: Seq<char>) -> Seq<char> {
    seq!['{'] + key + seq!['}']
}

pub open spec fn title_key() -> Seq<char> {
    seq!['t', 'i', 't', 'l', 'e']
}

/// What the placeholder `{key}` stands for: the display name for `title`,
/// else the tag's value, else nothing.
pub open spec fn field_value(track: TrackView, key: Seq<char>) -> Seq<char> {
    if key == title_key() {
        track.name
    } else if track.tags.contains_key(key) {
        track.tags[key]
    } else {
        Seq::empty()
    }
}

/// Where the scan stands after the first `n` characters of `t`: the output
/// buffer, the key buffer, and whether a key is being collected. `{` starts
/// a new key; `}` stops collecting and replaces the placeholder of the key
/// held; any other character joins the key only while one is collected.
pub open spec fn scan(t: Seq<char>, track: TrackView, n: nat) -> (Seq<char>, Seq<char>, bool)
    decreases n,
{
    if n == 0 {
        (t, Seq::empty(), false)
    } else {
        let prev = scan(t, track, (n - 1) as nat);
        let c = t[n - 1];
        if c == '{' {
            (prev.0, Seq::empty(), true)
        } else if c == '}' {
            (replace_all(prev.0, braced(prev.1), field_value(track, prev.1)), prev.1, false)
        } else if prev.2 {
            (prev.0, prev.1.push(c), true)
        } else {
            prev
        }
    }
}

/// The rendering of template `t` for `track`.
pub open spec fn render(t: Seq<char>, track: TrackView) -> Seq<char> {
    scan(t, track, t.len()).0
}

proof fn lemma_scan_inside_placeholder(track: TrackView, key: Seq<char>, m: nat)
    requires
        forall|i: int| 0 <= i < key.len() ==> key[i] != '{' && key[i] != '}',
        1 <= m <= key.len() + 1,
    ensures
        scan(braced(key), track, m) == (braced(key), key.subrange(0, m - 1), true),
    decreases m,
{
    let t = braced(key);
    if m == 1 {
        assert(t[0] == '{');
        assert(scan(t, track, 0) == (t, Seq::<char>::empty(), false));
        assert(key.subrange(0, 0) =~= Seq::<char>::empty());
    } else {
        lemma_scan_inside_placeholder(track, key, (m - 1) as nat);
        assert(t[m - 1] == key[m - 2]);
        assert(key[m - 2] != '{' && key[m - 2] != '}');
        assert(key.subrange(0, m - 2).push(key[m - 2]) =~= key.subrange(0, m - 1));
    }
}

proof fn lemma_replace_all_whole(p: Seq<char>, v: Seq<char>)
    requires
        p.len() > 0,
    ensures
        replace_all(p, p, v) == v,
{
    assert(p.subrange(0, p.len() as int) =~= p);
    assert(p.subrange(p.len() as int, p.len() as int) =~= Seq::<char>::empty());
    assert(replace_all(Seq::<char>::empty(), p, v) == Seq::<char>::empty());
    assert(v + Seq::<char>::empty() =~= v);
}

/// A template made of one placeholder, whose key holds no brace, renders to
/// the value of that key.
pub proof fn lemma_render_single_placeholder(track: TrackView, key: Seq<char>)
    requires
        forall|i: int| 0 <= i < key.len() ==> key[i] != '{' && key[i] != '}',
    ensures
        render(braced(key), track) == field_value(track, key),
{
    let t = braced(key);
    lemma_scan_inside_placeholder(track, key, key.len() + 1);
    assert(key.subrange(0, key.len() as int) =~= key);
    assert(t[key.len() as int + 1] == '}');
    lemma_replace_all_whole(t, field_value(track, key));
}

/// The template `{title}` renders to the track's display name exactly.
pub proof fn lemma_render_title(track: TrackView)
    ensures
        render(braced(title_key()), track) == track.name,
{
    lemma_render_single_placeholder(track, title_key());
}

/// A placeholder whose key is neither `title` nor a tag of the track renders
/// to the empty string.
pub proof fn lemma_render_unknown_key(track: TrackView, key: Seq<char>)
    requires
        forall|i: int| 0 <= i < key.len() ==> key[i] != '{' && key[i] != '}',
        key != title_key(),
        !track.tags.contains_key(key),
    ensures
        render(braced(key), track) == Seq::<char>::empty(),
{
    lemma_render_single_placeholder(track, key);
}

/// Whether `p` occurs in `s` at position `i`.
fn occurs_at(s: &Vec<char>, i: usize, p: &Vec<char>) -> (r: bool)
    requires
        i + p.len() <= s.len(),
    ensures
        r == (s@.subrange(i as int, i + p.len()) == p@),
{
    let mut j: usize = 0;
    while j < p.len()
        invariant
            j <= p.len(),
            i + p.len() <= s.len(),
            forall|k: int| 0 <= k < j ==> s@[i + k] == p@[k],
        decreases p.len() - j,
    {
        if s[i + j] != p[j] {
            assert(s@.subrange(i as int, i + p.len())[j as int] != p@[j as int]);
            return false;
        }
        j = j + 1;
    }
    assert(s@.subrange(i as int, i + p.len()) =~= p@);
    true
}

/// `s` with every occurrence of `p` replaced by `v`.
fn replace_chars(s: &Vec<char>, p: &Vec<char>, v: &Vec<char>) -> (r: Vec<char>)
    requires
        p.len() > 0,
    ensures
        r@ == replace_all(s@, p@, v@),
{
    let mut r: Vec<char> = Vec::new();
    let mut i: usize = 0;
    assert(s@.subrange(0, s.len() as int) =~= s@);
    assert(r@ + replace_all(s@, p@, v@) =~= replace_all(s@, p@, v@));
    while i < s.len()
        invariant
            i <= s.len(),
            p.len() > 0,
            r@ + replace_all(s@.subrange(i as int, s.len() as int), p@, v@) == replace_all(s@, p@, v@),
        decreases s.len() - i,
    {
        let ghost rest = s@.subrange(i as int, s.len() as int);
        if p.len() <= s.len() - i && occurs_at(s, i, p) {
            assert(rest.subrange(0, p.len() as int) =~= s@.subrange(i as int, i + p.len()));
            assert(rest.subrange(p.len() as int, rest.len() as int) =~= s@.subrange(i + p.len(), s.len() as int));
            let ghost r0 = r@;
            let mut j: usize = 0;
            while j < v.len()
                invariant
                    j <= v.len(),
                    r@ == r0 + v@.subrange(0, j as int),
                decreases v.len() - j,
            {
                r.push(v[j]);
                assert(r@ =~= r0 + v@.subrange(0, j + 1));
                j = j + 1;
            }
            assert(v@.subrange(0, v.len() as int) =~= v@);
            assert(r0 + v@ + replace_all(s@.subrange(i + p.len(), s.len() as int), p@, v@)
                =~= r0 + (v@ + replace_all(s@.subrange(i + p.len(), s.len() as int), p@, v@)));
            i = i + p.len();
        } else {
            if p.len() <= s.len() - i {
                assert(rest.subrange(0, p.len() as int) =~= s@.subrange(i as int, i + p.len()));
            }
            assert(rest.drop_first() =~= s@.subrange(i + 1, s.len() as int));
            let ghost r0 = r@;
            r.push(s[i]);
            assert(r0 + (seq![s@[i as int]] + replace_all(s@.subrange(i + 1, s.len() as int), p@, v@))
                =~= r@ + replace_all(s@.subrange(i + 1, s.len() as int), p@, v@));
            i = i + 1;
        }
    }
    assert(r@ + replace_all(s@.subrange(i as int, s.len() as int), p@, v@) =~= r@);
    r
}

fn braced_exec(key: &Vec<char>) -> (r: Vec<char>)
    ensures
        r@ == braced(key@),
{
    let mut r: Vec<char> = Vec::new();
    r.push('{');
    let mut i: usize = 0;
    while i < key.len()
        invariant
            i <= key.len(),
            r@ == seq!['{'] + key@.subrange(0, i as int),
        decreases key.len() - i,
    {
        r.push(key[i]);
        assert(r@ =~= seq!['{'] + key@.subrange(0, i + 1));
        i = i + 1;
    }
    r.push('}');
    assert(r@ =~= braced(key@));
    r
}

fn is_title(key: &Vec<char>) -> (r: bool)
    ensures
        r == (key@ == title_key()),
{
    let r = key.len() == 5 && key[0] == 't' && key[1] == 'i' && key[2] == 't' && key[3] == 'l'
        && key[4] == 'e';
    if r {
        assert(key@ =~= title_key());
    }
    r
}

fn field_value_exec(track: &Track, key: &Vec<char>) -> (r: Vec<char>)
    requires
        track.wf(),
    ensures
        r@ == field_value(track@, key@),
{
    if is_title(key) {
        to_chars(track.get_name())
    } else {
        let k = from_chars(key);
        match track.get(&k) {
            Some(v) => to_chars(v.as_str()),
            None => Vec::new(),
        }
    }
}

/// Replaces every placeholder of `template` with its value for `track`.
///
/// The scan goes left to right. A `{` starts collecting a new key, and the
/// characters up to the next `}` form it; at each `}` the placeholder made of
/// the key held (the empty key if no `{` came before) is replaced throughout
/// the output so far.
pub fn process_template_placeholders(template: &String, track: &Track) -> (r: String)
    requires
        track.wf(),
    ensures
        r@ == render(template@, track@),
{
    let t = to_chars(template.as_str());
    let mut out: Vec<char> = to_chars(template.as_str());
    let mut key: Vec<char> = Vec::new();
    let mut collecting = false;
    let mut i: usize = 0;
    while i < t.len()
        invariant
            i <= t.len(),
            t@ == template@,
            track.wf(),
            (out@, key@, collecting) == scan(t@, track@, i as nat),
        decreases t.len() - i,
    {
        let c = t[i];
        if c == '{' {
            key = Vec::new();
            collecting = true;
        } else if c == '}' {
            let p = braced_exec(&key);
            let v = field_value_exec(track, &key);
            out = replace_chars(&out, &p, &v);
            collecting = false;
        } else if collecting {
            key.push(c);
        }
        i = i + 1;
    }
    from_chars(&out)
}

} // verus!
