use crate::decimal::{
    all_digits, decimal_digits, decimal_value, format_decimal, is_digit, is_digit_char,
    lemma_decimal_digits_read_back, read_decimal,
};
use vstd::prelude::*;
use vstd::string::StrSliceExecFns;
use vstd::string::StringExecFns;

verus! {

/// The length of `#Scene`.
const MARKER_LEN: usize = 6;

/// The word `Scene` that opens the label of a scene.
pub open spec fn scene_tag() -> Seq<char> {
    seq!['S', 'c', 'e', 'n', 'e']
}

/// The six characters `#Scene` that stand between a path and the number of
/// one of its scenes.
pub open spec fn scene_marker() -> Seq<char> {
    seq!['#'] + scene_tag()
}

/// The label of scene `index`: `Scene`, then the number in base ten.
pub open spec fn scene_label_text(index: nat) -> Seq<char> {
    scene_tag() + decimal_digits(index)
}

/// How many decimal digits `s` ends with.
pub open spec fn trailing_digits(s: Seq<char>) -> nat
    decreases s.len(),
{
    if s.len() > 0 && is_digit(s.last()) {
        trailing_digits(s.drop_last()) + 1
    } else {
        0
    }
}

/// Whether `s` is `path`, then `#Scene`, then `digits`, where `digits` is a
/// run of at least one decimal digit that writes a number within `usize`.
pub open spec fn is_scene_path(s: Seq<char>, path: Seq<char>, digits: Seq<char>) -> bool {
    &&& s == path + scene_marker() + digits
    &&& digits.len() > 0
    &&& all_digits(digits)
    &&& decimal_value(digits) <= usize::MAX
}

/// The asset path and the scene number that `s` names.
///
/// Where `s` ends in `#Scene` and a number, the path is what stands before
/// that ending and the number is the one written. Any other `s` is a path
/// as a whole and names scene 0.
pub open spec fn scene_split(s: Seq<char>) -> (Seq<char>, nat) {
    let digits = s.skip(s.len() - trailing_digits(s));
    let head = s.take(s.len() - trailing_digits(s));
    if digits.len() > 0 && decimal_value(digits) <= usize::MAX && scene_marker().is_suffix_of(head) {
        (head.take(head.len() - scene_marker().len()), decimal_value(digits))
    } else {
        (s, 0)
    }
}

/// The run of digits at the end of `s` is no longer than `s`, holds digits
/// only, and the character before it is no digit.
pub proof fn lemma_trailing_digits(s: Seq<char>)
    ensures
        trailing_digits(s) <= s.len(),
        all_digits(s.skip(s.len() - trailing_digits(s))),
        trailing_digits(s) < s.len() ==> !is_digit(s[s.len() - trailing_digits(s) - 1]),
    decreases s.len(),
{
    if s.len() > 0 && is_digit(s.last()) {
        let t = s.drop_last();
        lemma_trailing_digits(t);
        let n = trailing_digits(t);
        let tail = s.skip(s.len() - trailing_digits(s));
        assert forall|i: int| 0 <= i < tail.len() implies is_digit(#[trigger] tail[i]) by {
            if i < n {
                assert(tail[i] == t.skip(t.len() - n)[i]);
            }
        }
    }
}

/// A run of digits behind `head` adds its length to the digits that `head`
/// ends with.
proof fn lemma_trailing_digits_append(head: Seq<char>, digits: Seq<char>)
    requires
        all_digits(digits),
    ensures
        trailing_digits(head + digits) == trailing_digits(head) + digits.len(),
    decreases digits.len(),
{
    if digits.len() == 0 {
        assert(head + digits =~= head);
    } else {
        let s = head + digits;
        assert(s.last() == digits.last());
        assert(s.drop_last() =~= head + digits.drop_last());
        lemma_trailing_digits_append(head, digits.drop_last());
    }
}

/// A string made of a path, `#Scene` and a number splits into that path
/// and that number, whatever the path holds.
pub proof fn lemma_scene_split_joined(s: Seq<char>, path: Seq<char>, digits: Seq<char>)
    requires
        is_scene_path(s, path, digits),
    ensures
        scene_split(s) == (path, decimal_value(digits)),
{
    let head = path + scene_marker();
    assert(head.last() == 'e');
    assert(trailing_digits(head) == 0);
    assert(s =~= head + digits);
    lemma_trailing_digits_append(head, digits);
    assert(s.skip(s.len() - trailing_digits(s)) =~= digits);
    assert(s.take(s.len() - trailing_digits(s)) =~= head);
    assert(head.subrange(head.len() - 6, head.len() as int) =~= scene_marker());
    assert(head.take(head.len() - 6) =~= path);
}

/// A string that is no path followed by `#Scene` and a number within
/// `usize` is a path as a whole, and names scene 0.
pub proof fn lemma_scene_split_whole(s: Seq<char>)
    requires
        forall|path: Seq<char>, digits: Seq<char>| !is_scene_path(s, path, digits),
    ensures
        scene_split(s) == (s, 0nat),
{
    lemma_trailing_digits(s);
    let digits = s.skip(s.len() - trailing_digits(s));
    let head = s.take(s.len() - trailing_digits(s));
    if digits.len() > 0 && decimal_value(digits) <= usize::MAX && scene_marker().is_suffix_of(head) {
        let path = head.take(head.len() - 6);
        assert(s =~= path + scene_marker() + digits);
        assert(is_scene_path(s, path, digits));
    }
}

/// Splitting gives back a path and a scene number that were joined by `#`
/// and the scene's label.
pub proof fn lemma_scene_split_label(path: Seq<char>, index: nat)
    requires
        index <= usize::MAX,
    ensures
        scene_split(path + seq!['#'] + scene_label_text(index)) == (path, index),
{
    lemma_decimal_digits_read_back(index);
    let digits = decimal_digits(index);
    let s = path + seq!['#'] + scene_label_text(index);
    assert(s =~= path + scene_marker() + digits);
    lemma_scene_split_joined(s, path, digits);
}

/// The path that a string splits into is the string's beginning, and the
/// scene number fits in `usize`.
pub proof fn lemma_scene_split_bounds(s: Seq<char>)
    ensures
        scene_split(s).0.is_prefix_of(s),
        scene_split(s).1 <= usize::MAX,
{
    lemma_trailing_digits(s);
}

/// The characters of `s`, one by one.
fn chars_of(s: &str) -> (cs: Vec<char>)
    ensures
        cs@ == s@,
{
    let mut cs: Vec<char> = Vec::new();
    for c in it: s.chars()
        invariant
            it.seq() == s@,
            cs@ == s@.take(it.index() as int),
    {
        cs.push(c);
        assert(cs@ =~= s@.take(it.index() + 1));
    }
    assert(cs@ =~= s@);
    cs
}

/// Where the run of digits at the end of `cs` begins.
fn digits_start(cs: &Vec<char>) -> (start: usize)
    ensures
        start == cs.len() - trailing_digits(cs@),
{
    let mut start: usize = cs.len();
    assert(cs@.take(start as int) =~= cs@);
    while start > 0 && is_digit_char(cs[start - 1])
        invariant
            start <= cs.len(),
            trailing_digits(cs@) == trailing_digits(cs@.take(start as int)) + (cs.len() - start),
        decreases start,
    {
        assert(cs@.take(start as int).drop_last() =~= cs@.take(start - 1));
        start = start - 1;
    }
    start
}

/// Whether `#Scene` stands in `cs` right before index `end`.
fn marker_before(cs: &Vec<char>, end: usize) -> (r: bool)
    requires
        end <= cs.len(),
    ensures
        r == scene_marker().is_suffix_of(cs@.take(end as int)),
{
    if end < MARKER_LEN {
        return false;
    }
    let at: usize = end - MARKER_LEN;
    let r = cs[at] == '#' && cs[at + 1] == 'S' && cs[at + 2] == 'c' && cs[at + 3] == 'e' && cs[at
        + 4] == 'n' && cs[at + 5] == 'e';
    proof {
        let head = cs@.take(end as int);
        let tail = head.subrange(head.len() - 6, head.len() as int);
        assert(tail[0] == cs@[at + 0] && tail[1] == cs@[at + 1] && tail[2] == cs@[at + 2]);
        assert(tail[3] == cs@[at + 3] && tail[4] == cs@[at + 4] && tail[5] == cs@[at + 5]);
        if r {
            assert(tail =~= scene_marker());
        }
    }
    r
}

/// Splits a scene path into the asset path and the number of the scene.
///
/// `models/helmet.gltf#Scene2` names scene 2 of `models/helmet.gltf`. A path
/// without such an ending, or with a number too large for `usize`, is taken
/// as it stands and names scene 0.
pub fn parse_scene(scene_path: &str) -> (r: (String, usize))
    ensures
        r.0@ == scene_split(scene_path@).0,
        r.1 == scene_split(scene_path@).1,
{
    let cs = chars_of(scene_path);
    let start = digits_start(&cs);
    proof {
        lemma_trailing_digits(cs@);
    }
    if start < cs.len() && marker_before(&cs, start) {
        if let Some(index) = read_decimal(&cs, start) {
            let path = scene_path.substring_char(0, start - MARKER_LEN);
            return (path.to_owned(), index);
        }
    }
    (scene_path.to_owned(), 0)
}

/// The label under which a glTF file holds its scene `index`.
pub fn scene_label(index: usize) -> (r: String)
    ensures
        r@ == scene_label_text(index as nat),
{
    proof {
        reveal_strlit("Scene");
    }
    let mut r = String::from_str("Scene");
    assert(r@ =~= scene_tag());
    let digits = format_decimal(index);
    r.append(digits.as_str());
    r
}

} // verus!
