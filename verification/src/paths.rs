//! Paths as text with `/` between their parts: joining them, taking them
//! apart, and telling which of them stay below the directory that they
//! start in.

use crate::decimal::chars_of;
use vstd::prelude::*;
use vstd::string::*;

verus! {

/// Where the last segment of `s` starts: behind its last `/`, or at 0.
pub open spec fn segment_start(s: Seq<char>) -> nat
    decreases s.len(),
{
    if s.len() == 0 {
        0
    } else if s.last() == '/' {
        s.len()
    } else {
        segment_start(s.drop_last())
    }
}

/// What follows the last `/` of `s`; all of `s` where it has none.
pub open spec fn last_segment_text(s: Seq<char>) -> Seq<char> {
    s.skip(segment_start(s) as int)
}

proof fn lemma_segment_start(s: Seq<char>, k: int)
    requires
        0 <= k <= s.len(),
        k > 0 ==> s[k - 1] == '/',
        forall|j: int| k <= j < s.len() ==> #[trigger] s[j] != '/',
    ensures
        segment_start(s) == k,
    decreases s.len(),
{
    if s.len() > 0 && k < s.len() {
        let t = s.drop_last();
        assert(s.last() == s[s.len() - 1]);
        assert forall|j: int| k <= j < t.len() implies #[trigger] t[j] != '/' by {
            assert(t[j] == s[j]);
        }
        if k > 0 {
            assert(t[k - 1] == s[k - 1]);
        }
        lemma_segment_start(t, k);
    }
}

/// What follows the last `/` of `s`; all of `s` where it has none.
pub fn last_segment(s: &str) -> (segment: String)
    ensures
        segment@ == last_segment_text(s@),
{
    let chars = chars_of(s);
    let n = chars.len();
    let mut k: usize = n;
    while k > 0 && chars[k - 1] != '/'
        invariant
            k <= n == chars.len(),
            forall|j: int| k <= j < n ==> #[trigger] chars@[j] != '/',
        decreases k,
    {
        k -= 1;
    }
    proof {
        lemma_segment_start(chars@, k as int);
    }
    String::from_str(s.substring_char(k, n))
}

/// `name` resolved against the directory `base`, as paths with `/` between
/// their parts: a `name` that starts at the root stands for itself;
/// otherwise it follows `base`, with a `/` between the two unless `base` is
/// empty or ends with one.
pub open spec fn join_path_text(base: Seq<char>, name: Seq<char>) -> Seq<char> {
    if name.len() > 0 && name[0] == '/' {
        name
    } else if base.len() == 0 || base.last() == '/' {
        base + name
    } else {
        base + "/"@ + name
    }
}

/// `name` resolved against the directory `base`.
pub fn join_path(base: &str, name: &str) -> (path: String)
    ensures
        path@ == join_path_text(base@, name@),
{
    let n = name.unicode_len();
    if n > 0 && name.get_char(0) == '/' {
        return String::from_str(name);
    }
    let b = base.unicode_len();
    let mut path = String::from_str(base);
    if b > 0 && base.get_char(b - 1) != '/' {
        path.append("/");
    }
    path.append(name);
    path
}

/// A path as the standard library writes it for diagnostics: in double
/// quotes, with the characters escaped that need it.
pub uninterp spec fn path_debug(path: Seq<char>) -> Seq<char>;

/// The `Debug` form of `std::path::Path`, made by `format!`.
#[verifier::external_body]
pub(crate) fn quoted_path(path: &str) -> (text: String)
    ensures
        text@ == path_debug(path@),
{
    format!("{:?}", std::path::Path::new(path))
}

/// The parts of a path between its `/`s, the empty ones too.
pub open spec fn path_parts(path: Seq<char>) -> Seq<Seq<char>>
    decreases path.len(),
{
    if path.len() == 0 {
        seq![Seq::empty()]
    } else if path.last() == '/' {
        path_parts(path.drop_last()).push(Seq::empty())
    } else {
        let before = path_parts(path.drop_last());
        before.drop_last().push(before.last().push(path.last()))
    }
}

/// A part that names the directory above.
pub open spec fn is_parent_part(part: Seq<char>) -> bool {
    part == seq!['.', '.']
}

/// A part that leads nowhere: nothing between two `/`, or a single dot.
pub open spec fn is_idle_part(part: Seq<char>) -> bool {
    part.len() == 0 || part == seq!['.']
}

/// How deep below the start one is after going through `parts` from the
/// depth `from`; `None` where the way leads above the start.
pub open spec fn walk(parts: Seq<Seq<char>>, from: nat) -> Option<nat>
    decreases parts.len(),
{
    if parts.len() == 0 {
        Some(from)
    } else if is_idle_part(parts[0]) {
        walk(parts.drop_first(), from)
    } else if is_parent_part(parts[0]) {
        if from == 0 {
            None
        } else {
            walk(parts.drop_first(), (from - 1) as nat)
        }
    } else {
        walk(parts.drop_first(), from + 1)
    }
}

/// The name is safe to unpack: it holds no NUL, does not start at the
/// root, and never leads above the directory that it starts in.
pub open spec fn is_enclosed(name: Seq<char>) -> bool {
    &&& !name.contains('\0')
    &&& !(name.len() > 0 && name[0] == '/')
    &&& walk(path_parts(name), 0) is Some
}

/// The directory that `parts` lead to from `dir`, both as names from the
/// root down; `None` where the way leads above the root.
pub open spec fn resolve(dir: Seq<Seq<char>>, parts: Seq<Seq<char>>) -> Option<Seq<Seq<char>>>
    decreases parts.len(),
{
    if parts.len() == 0 {
        Some(dir)
    } else if is_idle_part(parts[0]) {
        resolve(dir, parts.drop_first())
    } else if is_parent_part(parts[0]) {
        if dir.len() == 0 {
            None
        } else {
            resolve(dir.drop_last(), parts.drop_first())
        }
    } else {
        resolve(dir.push(parts[0]), parts.drop_first())
    }
}

/// A way that never leads above its start ends below it: from any place
/// `below` the directory `root`, parts that can be walked from that depth
/// lead to a place that still has `root` above it.
pub proof fn lemma_walk_stays_below(root: Seq<Seq<char>>, below: Seq<Seq<char>>, parts: Seq<Seq<char>>)
    requires
        walk(parts, below.len()) is Some,
    ensures
        resolve(root + below, parts) matches Some(place) && root.is_prefix_of(place) && place.len()
            == root.len() + walk(parts, below.len()).unwrap(),
    decreases parts.len(),
{
    if parts.len() == 0 {
    } else if is_idle_part(parts[0]) {
        lemma_walk_stays_below(root, below, parts.drop_first());
    } else if is_parent_part(parts[0]) {
        assert((root + below).drop_last() =~= root + below.drop_last());
        lemma_walk_stays_below(root, below.drop_last(), parts.drop_first());
    } else {
        assert((root + below).push(parts[0]) =~= root + below.push(parts[0]));
        lemma_walk_stays_below(root, below.push(parts[0]), parts.drop_first());
    }
}

/// An enclosed name, resolved part by part from the destination, names a
/// place inside the destination.
pub proof fn lemma_enclosed_stays_inside(destination: Seq<Seq<char>>, name: Seq<char>)
    requires
        is_enclosed(name),
    ensures
        resolve(destination, path_parts(name)) matches Some(place) && destination.is_prefix_of(
            place,
        ),
{
    assert(destination + Seq::<Seq<char>>::empty() =~= destination);
    lemma_walk_stays_below(destination, Seq::empty(), path_parts(name));
}

proof fn lemma_parts_nonempty(path: Seq<char>)
    ensures
        path_parts(path).len() >= 1,
    decreases path.len(),
{
    if path.len() > 0 {
        lemma_parts_nonempty(path.drop_last());
    }
}

/// The parts of two paths with a `/` between them are the parts of the
/// first, then those of the second.
pub proof fn lemma_parts_across_slash(a: Seq<char>, b: Seq<char>)
    ensures
        path_parts(a + seq!['/'] + b) == path_parts(a) + path_parts(b),
    decreases b.len(),
{
    let whole = a + seq!['/'] + b;
    if b.len() == 0 {
        assert(whole.drop_last() =~= a);
        assert(path_parts(a) + path_parts(b) =~= path_parts(a).push(Seq::empty()));
    } else {
        let shorter = b.drop_last();
        assert(whole.drop_last() =~= a + seq!['/'] + shorter);
        assert(whole.last() == b.last());
        lemma_parts_across_slash(a, shorter);
        lemma_parts_nonempty(shorter);
        let before = path_parts(a) + path_parts(shorter);
        if b.last() == '/' {
            assert(before.push(Seq::empty()) =~= path_parts(a) + path_parts(b));
        } else {
            assert(before.drop_last() =~= path_parts(a) + path_parts(shorter).drop_last());
            assert(before.last() == path_parts(shorter).last());
            assert(before.drop_last().push(before.last().push(b.last())) =~= path_parts(a)
                + path_parts(b));
        }
    }
}

proof fn lemma_idle_leads_nowhere(dir: Seq<Seq<char>>)
    ensures
        resolve(dir, seq![Seq::<char>::empty()]) == Some(dir),
{
    let idle = seq![Seq::<char>::empty()];
    assert(is_idle_part(idle[0]));
    assert(idle.drop_first() =~= Seq::<Seq<char>>::empty());
    assert(resolve(dir, idle.drop_first()) == Some(dir));
}

/// `resolve`, from a place that may not be there.
pub open spec fn resolve_from(at: Option<Seq<Seq<char>>>, parts: Seq<Seq<char>>) -> Option<
    Seq<Seq<char>>,
> {
    match at {
        Some(dir) => resolve(dir, parts),
        None => None,
    }
}

/// Going through two runs of parts is going through the first and, from
/// where that leads, through the second.
pub proof fn lemma_resolve_in_two(dir: Seq<Seq<char>>, first: Seq<Seq<char>>, second: Seq<Seq<char>>)
    ensures
        resolve(dir, first + second) == resolve_from(resolve(dir, first), second),
    decreases first.len(),
{
    if first.len() == 0 {
        assert(first + second =~= second);
    } else {
        assert((first + second)[0] == first[0]);
        assert((first + second).drop_first() =~= first.drop_first() + second);
        if is_idle_part(first[0]) {
            lemma_resolve_in_two(dir, first.drop_first(), second);
        } else if is_parent_part(first[0]) {
            if dir.len() > 0 {
                lemma_resolve_in_two(dir.drop_last(), first.drop_first(), second);
            }
        } else {
            lemma_resolve_in_two(dir.push(first[0]), first.drop_first(), second);
        }
    }
}

/// An enclosed name resolved against a destination names a place inside
/// the destination: wherever the destination's own path leads from
/// `start`, the joined path leads to that place or below it.
pub proof fn lemma_joined_path_stays_inside(
    start: Seq<Seq<char>>,
    destination: Seq<char>,
    name: Seq<char>,
)
    requires
        is_enclosed(name),
        resolve(start, path_parts(destination)) is Some,
    ensures
        resolve(start, path_parts(join_path_text(destination, name))) matches Some(place)
            && resolve(start, path_parts(destination)).unwrap().is_prefix_of(place),
{
    reveal_strlit("/");
    assert("/"@ =~= seq!['/']);
    let path = join_path_text(destination, name);
    let idle = seq![Seq::<char>::empty()];
    if destination.len() == 0 {
        assert(path =~= name);
        assert(path_parts(destination) =~= idle);
        lemma_idle_leads_nowhere(start);
        lemma_enclosed_stays_inside(start, name);
    } else if destination.last() == '/' {
        let stem = destination.drop_last();
        assert(path =~= stem + seq!['/'] + name);
        lemma_parts_across_slash(stem, name);
        lemma_resolve_in_two(start, path_parts(stem), path_parts(name));
        assert(path_parts(destination) =~= path_parts(stem) + idle);
        lemma_resolve_in_two(start, path_parts(stem), idle);
        let below = resolve(start, path_parts(stem));
        assert(below is Some);
        lemma_idle_leads_nowhere(below.unwrap());
        assert(resolve(start, path_parts(destination)) == below);
        lemma_enclosed_stays_inside(below.unwrap(), name);
    } else {
        assert(path =~= destination + seq!['/'] + name);
        lemma_parts_across_slash(destination, name);
        lemma_resolve_in_two(start, path_parts(destination), path_parts(name));
        lemma_enclosed_stays_inside(resolve(start, path_parts(destination)).unwrap(), name);
    }
}

/// `path` is an enclosed name resolved against `destination`.
pub open spec fn inside(destination: Seq<char>, path: Seq<char>) -> bool {
    exists|name: Seq<char>| is_enclosed(name) && path == #[trigger] join_path_text(destination, name)
}

/// A path that is `inside` a destination names a place inside it:
/// wherever the destination's own path leads from `start`, the path leads
/// to that place or below it.
pub proof fn lemma_inside_resolves_below(
    start: Seq<Seq<char>>,
    destination: Seq<char>,
    path: Seq<char>,
)
    requires
        inside(destination, path),
        resolve(start, path_parts(destination)) is Some,
    ensures
        resolve(start, path_parts(path)) matches Some(place) && resolve(
            start,
            path_parts(destination),
        ).unwrap().is_prefix_of(place),
{
    let name = choose|name: Seq<char>|
        is_enclosed(name) && path == #[trigger] join_path_text(destination, name);
    lemma_joined_path_stays_inside(start, destination, name);
}

} // verus!
