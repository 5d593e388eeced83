//! Label handling for the level catalog.
//!
//! Levels are authored in an external editor; each element carries a
//! label such as `wall-3`, `goal-1`, `launch-pad` or `name`.  The
//! catalog loader walks the document; the label grammar — splitting a
//! `key-index` label, parsing the index, classifying an element — lives
//! here, together with the stable ordering of indexed elements.

use vstd::prelude::*;
use vstd::string::StrSliceExecFns;

verus! {

/// An ASCII decimal digit.
pub open spec fn is_digit(c: char) -> bool {
    48 <= c as u32 <= 57
}

/// Numeric value of one digit.
pub open spec fn digit_val(c: char) -> int {
    c as u32 - 48
}

/// Every character is a digit.
pub open spec fn all_digits(s: Seq<char>) -> bool {
    forall|i: int| 0 <= i < s.len() ==> is_digit(#[trigger] s[i])
}

/// Numeric value of a digit string, most significant digit first.
pub open spec fn digits_val(s: Seq<char>) -> int
    decreases s.len(),
{
    if s.len() == 0 {
        0
    } else {
        digits_val(s.drop_last()) * 10 + digit_val(s.last())
    }
}

/// The digit part of a decimal index: the whole string, less an
/// optional leading `+`.
pub open spec fn digits_of(s: Seq<char>) -> Seq<char> {
    if s.len() > 0 && s[0] == '+' {
        s.skip(1)
    } else {
        s
    }
}

/// What parsing a decimal index accepts: an optional leading `+`, then
/// at least one digit, denoting a value that fits the index type.
pub open spec fn parse_usize_spec(s: Seq<char>) -> Option<int> {
    let digits = digits_of(s);
    if digits.len() > 0 && all_digits(digits) && digits_val(digits) <= usize::MAX {
        Some(digits_val(digits))
    } else {
        None
    }
}

/// A digit string's value is non-negative.
proof fn lemma_digits_val_nonneg(s: Seq<char>)
    requires
        all_digits(s),
    ensures
        digits_val(s) >= 0,
    decreases s.len(),
{
    if s.len() > 0 {
        assert(is_digit(s.last()));
        lemma_digits_val_nonneg(s.drop_last());
    }
}

/// Extending a digit string never shrinks its value.
proof fn lemma_digits_val_prefix(s: Seq<char>, k: int)
    requires
        all_digits(s),
        0 <= k <= s.len(),
    ensures
        digits_val(s) >= digits_val(s.take(k)),
    decreases s.len() - k,
{
    if k == s.len() {
        assert(s.take(k) =~= s);
    } else {
        assert(s.take(k + 1).drop_last() =~= s.take(k));
        assert(s.take(k + 1).last() == s[k]);
        assert(is_digit(s[k]));
        assert(forall|i: int| 0 <= i < s.take(k).len() ==> is_digit(#[trigger] s.take(k)[i]));
        lemma_digits_val_nonneg(s.take(k));
        assert(digits_val(s.take(k + 1)) >= digits_val(s.take(k)));
        lemma_digits_val_prefix(s, k + 1);
    }
}

/// Parse a decimal index, exactly as the label grammar defines it:
/// `None` on an empty or non-digit string and on overflow.
pub fn parse_usize(s: &str) -> (r: Option<usize>)
    ensures
        r is Some <==> parse_usize_spec(s@) is Some,
        r matches Some(v) ==> parse_usize_spec(s@) == Some(v as int),
{
    let len = s.unicode_len();
    let mut start: usize = 0;
    if len > 0 && s.get_char(0) == '+' {
        start = 1;
    }
    let ghost digits: Seq<char> = digits_of(s@);
    assert(digits =~= s@.skip(start as int));
    if start >= len {
        return None;
    }
    let mut val: usize = 0;
    let mut j: usize = start;
    while j < len
        invariant
            start <= j <= len,
            len == s@.len(),
            start < len,
            start <= 1,
            digits == digits_of(s@),
            digits =~= s@.skip(start as int),
            forall|k: int| start <= k < j ==> is_digit(#[trigger] s@[k]),
            val == digits_val(s@.subrange(start as int, j as int)),
        decreases len - j,
    {
        let c = s.get_char(j);
        let u = c as u32;
        if u < 48 || u > 57 {
            proof {
                assert(digits[j - start] == s@[j as int]);
                assert(!is_digit(digits[j - start]));
                assert(!all_digits(digits));
            }
            return None;
        }
        let ghost prefix = s@.subrange(start as int, j as int);
        let ghost prefix1 = s@.subrange(start as int, j as int + 1);
        proof {
            assert(prefix1.drop_last() =~= prefix);
            assert(prefix1.last() == s@[j as int]);
            assert(is_digit(s@[j as int]));
            assert(digit_val(s@[j as int]) == u - 48);
            assert(digits_val(prefix1) == digits_val(prefix) * 10 + digit_val(prefix1.last()));
        }
        let d = (u - 48) as usize;
        if val > (usize::MAX - d) / 10 {
            proof {
                let m = usize::MAX as int;
                assert(10 * val + d > m) by (nonlinear_arith)
                    requires
                        val > (m - d) / 10,
                        0 <= d <= 9,
                        m >= 9,
                ;
                if all_digits(digits) {
                    lemma_digits_val_prefix(digits, j - start + 1);
                    assert(digits.take(j - start + 1) =~= prefix1);
                    assert(digits_val(digits) > usize::MAX);
                }
            }
            return None;
        }
        proof {
            let m = usize::MAX as int;
            assert(10 * val + d <= m) by (nonlinear_arith)
                requires
                    val <= (m - d) / 10,
                    0 <= d <= 9,
                    m >= 9,
                    val >= 0,
            ;
        }
        val = val * 10 + d;
        j = j + 1;
    }
    proof {
        assert(s@.subrange(start as int, len as int) =~= digits);
        assert(forall|i: int| 0 <= i < digits.len() ==> is_digit(#[trigger] digits[i]));
    }
    Some(val)
}

/// Index of the first `-`, or the length when there is none.
pub open spec fn dash_index(s: Seq<char>) -> int
    decreases s.len(),
{
    if s.len() == 0 {
        0
    } else if s[0] == '-' {
        0
    } else {
        1 + dash_index(s.skip(1))
    }
}

/// What splitting a `key-index` label yields: the key before the first
/// `-` and the parsed decimal index after it, or nothing when either
/// part is missing or malformed.
pub open spec fn spec_split_pos(s: Seq<char>) -> Option<(Seq<char>, int)> {
    let i = dash_index(s);
    if i < s.len() {
        match parse_usize_spec(s.subrange(i + 1, s.len() as int)) {
            Some(v) => Some((s.subrange(0, i), v)),
            None => None,
        }
    } else {
        None
    }
}

/// Split a `key-index` label at its first `-` and parse the index.
pub fn split_pos<'a>(value: &'a str) -> (r: Option<(&'a str, usize)>)
    ensures
        r is Some <==> spec_split_pos(value@) is Some,
        r matches Some((key, pos)) ==> spec_split_pos(value@) == Some((key@, pos as int)),
{
    let len = value.unicode_len();
    let mut i: usize = 0;
    proof {
        assert(value@.skip(0) =~= value@);
    }
    while i < len
        invariant
            0 <= i <= len,
            len == value@.len(),
            dash_index(value@) == i + dash_index(value@.skip(i as int)),
            forall|k: int| 0 <= k < i ==> value@[k] != '-',
        decreases len - i,
    {
        let c = value.get_char(i);
        proof {
            assert(value@.skip(i as int)[0] == value@[i as int]);
            assert(value@.skip(i as int).skip(1) =~= value@.skip(i as int + 1));
        }
        if c == '-' {
            assert(dash_index(value@) == i);
            let key = value.substring_char(0, i);
            let digits = value.substring_char(i + 1, len);
            proof {
                assert(key@ =~= value@.subrange(0, i as int));
                assert(digits@ =~= value@.subrange(i as int + 1, len as int));
            }
            return match parse_usize(digits) {
                Some(pos) => Some((key, pos)),
                None => None,
            };
        }
        i = i + 1;
    }
    proof {
        assert(value@.skip(len as int).len() == 0);
        assert(dash_index(value@) == len);
    }
    None
}

/// Strip the ordering indices off an indexed list: sort stably by index
/// (equal indices keep their relative order) and return the values.
pub fn sort_vec<A>(vec: Vec<(usize, A)>) -> (r: Vec<A>)
    ensures
        r@ == seconds(stable_sort(vec@)),
{
    let mut rest = vec;
    let ghost orig = rest@;
    let n0 = rest.len();
    assert(orig.len() == n0);
    let mut sorted: Vec<(usize, A)> = Vec::new();
    let mut i: usize = 0;
    proof {
        assert(orig.skip(0) =~= orig);
        assert(orig.take(0) =~= Seq::<(usize, A)>::empty());
    }
    while rest.len() > 0
        invariant
            0 <= i <= orig.len(),
            orig.len() <= usize::MAX,
            rest@ =~= orig.skip(i as int),
            sorted@ == stable_sort(orig.take(i as int)),
            keys_sorted(sorted@),
        decreases rest.len(),
    {
        let x = rest.remove(0);
        proof {
            assert(orig.skip(i as int)[0] == orig[i as int]);
            assert(orig.skip(i as int).skip(1) =~= orig.skip(i as int + 1));
            assert(orig.take(i as int + 1).drop_last() =~= orig.take(i as int));
            assert(orig.take(i as int + 1).last() == orig[i as int]);
        }
        let key = x.0;
        let mut pos = sorted.len();
        while pos > 0 && sorted[pos - 1].0 > key
            invariant
                0 <= pos <= sorted@.len(),
                forall|k: int| pos <= k < sorted@.len() ==> (#[trigger] sorted@[k]).0 > key,
            decreases pos,
        {
            pos = pos - 1;
        }
        let ghost prev = sorted@;
        sorted.insert(pos, x);
        proof {
            lemma_stable_insert_at(prev, x, pos as int);
            assert(sorted@ =~= prev.take(pos as int) + seq![x] + prev.skip(pos as int));
            assert(sorted@ == stable_insert(prev, x));
            assert forall|a: int, b: int|
                0 <= a <= b < sorted@.len() implies (sorted@[a]).0 <= (sorted@[b]).0 by {
                if b > pos {
                    assert(sorted@[b] == prev[b - 1]);
                }
                if a > pos {
                    assert(sorted@[a] == prev[a - 1]);
                }
            }
        }
        i = i + 1;
    }
    proof {
        assert(orig.take(i as int) =~= orig);
    }
    let mut r: Vec<A> = Vec::new();
    let ghost full = sorted@;
    let m0 = sorted.len();
    assert(full.len() == m0);
    let mut j: usize = 0;
    proof {
        assert(full.skip(0) =~= full);
    }
    while sorted.len() > 0
        invariant
            0 <= j <= full.len(),
            full.len() <= usize::MAX,
            sorted@ =~= full.skip(j as int),
            r@.len() == j,
            forall|k: int| 0 <= k < j ==> r@[k] == (#[trigger] full[k]).1,
        decreases sorted.len(),
    {
        let p = sorted.remove(0);
        proof {
            assert(full.skip(j as int)[0] == full[j as int]);
            assert(full.skip(j as int).skip(1) =~= full.skip(j as int + 1));
        }
        r.push(p.1);
        j = j + 1;
    }
    proof {
        assert(r@ =~= seconds(full));
    }
    r
}

/// Character-for-character string equality.
pub fn chars_eq(a: &str, b: &str) -> (r: bool)
    ensures
        r == (a@ == b@),
{
    let n = a.unicode_len();
    let m = b.unicode_len();
    if n != m {
        return false;
    }
    let mut i: usize = 0;
    while i < n
        invariant
            0 <= i <= n,
            n == a@.len(),
            n == b@.len(),
            forall|k: int| 0 <= k < i ==> a@[k] == b@[k],
        decreases n - i,
    {
        if a.get_char(i) != b.get_char(i) {
            return false;
        }
        i = i + 1;
    }
    proof {
        assert(a@ =~= b@);
    }
    true
}

/// `s` begins with `prefix`.
pub open spec fn spec_starts_with(s: Seq<char>, prefix: Seq<char>) -> bool {
    s.len() >= prefix.len() && s.subrange(0, prefix.len() as int) == prefix
}

/// Prefix test, character for character.
pub fn starts_with(s: &str, prefix: &str) -> (r: bool)
    ensures
        r == spec_starts_with(s@, prefix@),
{
    let n = s.unicode_len();
    let m = prefix.unicode_len();
    if n < m {
        return false;
    }
    let mut i: usize = 0;
    while i < m
        invariant
            0 <= i <= m,
            n == s@.len(),
            m == prefix@.len(),
            m <= n,
            forall|k: int| 0 <= k < i ==> s@[k] == prefix@[k],
        decreases m - i,
    {
        if s.get_char(i) != prefix.get_char(i) {
            proof {
                assert(s@.subrange(0, m as int)[i as int] != prefix@[i as int]);
            }
            return false;
        }
        i = i + 1;
    }
    proof {
        assert(s@.subrange(0, m as int) =~= prefix@);
    }
    true
}

/// What one labelled element of a level document is.
#[derive(Clone, Copy, Debug, PartialEq, Eq)]
pub enum LabelKind {
    /// The screen rectangle that anchors the level's coordinates.
    ScreenBox,
    /// A wall (any label starting with `wall-`).
    Wall,
    /// The launch pad.
    LaunchPad,
    /// One goal, with its place in the required order.
    Goal(usize),
    /// The level's display name.
    LevelName,
    /// Anything else; the loader ignores it.
    Unknown,
}

/// The tail of the label grammar, after walls, the pad and goals.
pub open spec fn spec_classify_tail(s: Seq<char>) -> LabelKind {
    if s == "name"@ {
        LabelKind::LevelName
    } else if s == "Screen"@ {
        LabelKind::ScreenBox
    } else {
        LabelKind::Unknown
    }
}

/// The label grammar of a level document's elements, tried in the
/// loader's order: a `wall-` prefix, the pad, a `goal-index`, the name,
/// the screen anchor.
pub open spec fn spec_classify(s: Seq<char>) -> LabelKind {
    if spec_starts_with(s, "wall-"@) {
        LabelKind::Wall
    } else if s == "launch-pad"@ {
        LabelKind::LaunchPad
    } else {
        match spec_split_pos(s) {
            Some(kp) => if kp.0 == "goal"@ {
                LabelKind::Goal(kp.1 as usize)
            } else {
                spec_classify_tail(s)
            },
            None => spec_classify_tail(s),
        }
    }
}

/// Classify one labelled element of a level document.
pub fn classify_label(label: &str) -> (r: LabelKind)
    ensures
        r == spec_classify(label@),
{
    if starts_with(label, "wall-") {
        return LabelKind::Wall;
    }
    if chars_eq(label, "launch-pad") {
        return LabelKind::LaunchPad;
    }
    match split_pos(label) {
        Some((key, pos)) => {
            if chars_eq(key, "goal") {
                return LabelKind::Goal(pos);
            }
        },
        None => {},
    }
    if chars_eq(label, "name") {
        LabelKind::LevelName
    } else if chars_eq(label, "Screen") {
        LabelKind::ScreenBox
    } else {
        LabelKind::Unknown
    }
}

/// The keys of an indexed list are in non-decreasing order.
pub open spec fn keys_sorted<A>(s: Seq<(usize, A)>) -> bool {
    forall|i: int, j: int| 0 <= i <= j < s.len() ==> (#[trigger] s[i]).0 <= (#[trigger] s[j]).0
}

/// The values of an indexed list, in order.
pub open spec fn seconds<A>(s: Seq<(usize, A)>) -> Seq<A> {
    s.map_values(|p: (usize, A)| p.1)
}

/// Insert one element behind every element whose key is less than or
/// equal to its own: the insertion step of a stable sort.
pub open spec fn stable_insert<A>(s: Seq<(usize, A)>, x: (usize, A)) -> Seq<(usize, A)>
    decreases s.len(),
{
    if s.len() == 0 {
        seq![x]
    } else if s.last().0 <= x.0 {
        s.push(x)
    } else {
        stable_insert(s.drop_last(), x).push(s.last())
    }
}

/// Sort an indexed list stably by key: insert the elements in their
/// given order, each behind the existing elements with equal keys.
pub open spec fn stable_sort<A>(s: Seq<(usize, A)>) -> Seq<(usize, A)>
    decreases s.len(),
{
    if s.len() == 0 {
        Seq::empty()
    } else {
        stable_insert(stable_sort(s.drop_last()), s.last())
    }
}

/// On a sorted list, the stable insert lands exactly where a back-to-
/// front scan stops: before the suffix of strictly greater keys.
proof fn lemma_stable_insert_at<A>(s: Seq<(usize, A)>, x: (usize, A), pos: int)
    requires
        keys_sorted(s),
        0 <= pos <= s.len(),
        forall|k: int| pos <= k < s.len() ==> (#[trigger] s[k]).0 > x.0,
        pos > 0 ==> s[pos - 1].0 <= x.0,
    ensures
        stable_insert(s, x) == s.take(pos) + seq![x] + s.skip(pos),
    decreases s.len() - pos,
{
    if pos == s.len() {
        if s.len() == 0 {
            assert(stable_insert(s, x) =~= s.take(pos) + seq![x] + s.skip(pos));
        } else {
            assert(s.last().0 <= x.0);
            assert(stable_insert(s, x) == s.push(x));
            assert(s.push(x) =~= s.take(pos) + seq![x] + s.skip(pos));
        }
    } else {
        assert(s[s.len() - 1].0 > x.0);
        let t = s.drop_last();
        assert(forall|k: int| pos <= k < t.len() ==> (#[trigger] t[k]).0 > x.0);
        assert(pos > 0 ==> t[pos - 1].0 <= x.0);
        lemma_stable_insert_at(t, x, pos);
        assert(stable_insert(s, x) == stable_insert(t, x).push(s.last()));
        assert(stable_insert(t, x).push(s.last()) =~= s.take(pos) + seq![x] + s.skip(pos));
    }
}

} // verus!
