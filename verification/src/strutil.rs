//! Small verified string utilities shared by the signal and path layers.

use vstd::prelude::*;
use vstd::string::StrSliceExecFns;

verus! {

/// Appends one character to a string.
///
/// Relies on `String::push`: appends exactly the given character and changes
/// nothing else.
#[verifier::external_body]
pub fn push_char(s: &mut String, c: char)
    ensures
        final(s)@ == old(s)@.push(c),
{
    s.push(c);
}

/// The code point of `c`, with an ASCII upper-case letter folded to its
/// lower-case counterpart.
pub open spec fn lower_char_spec(c: char) -> int {
    let n = c as int;
    if 65 <= n && n <= 90 {
        n + 32
    } else {
        n
    }
}

/// Character sequences that are equal up to ASCII case.
pub open spec fn chars_eq_ignore_ascii_case(a: Seq<char>, b: Seq<char>) -> bool {
    a.len() == b.len() && forall|i: int|
        0 <= i < a.len() ==> lower_char_spec(a[i]) == lower_char_spec(b[i])
}

fn lower_char(c: char) -> (r: u32)
    ensures
        r == lower_char_spec(c),
{
    let n = c as u32;
    if 65 <= n && n <= 90 {
        n + 32
    } else {
        n
    }
}

/// Compares two strings for equality up to ASCII case.
pub fn str_eq_ignore_ascii_case(a: &str, b: &str) -> (r: bool)
    ensures
        r == chars_eq_ignore_ascii_case(a@, b@),
{
    let a_len = a.unicode_len();
    let b_len = b.unicode_len();
    if a_len != b_len {
        return false;
    }
    let mut i: usize = 0;
    while i < a_len
        invariant
            a_len == a@.len(),
            b_len == b@.len(),
            a_len == b_len,
            0 <= i <= a_len,
            forall|j: int| 0 <= j < i ==> lower_char_spec(a@[j]) == lower_char_spec(b@[j]),
        decreases a_len - i,
    {
        let ca = a.get_char(i);
        let cb = b.get_char(i);
        if lower_char(ca) != lower_char(cb) {
            assert(lower_char_spec(a@[i as int]) != lower_char_spec(b@[i as int]));
            return false;
        }
        i = i + 1;
    }
    true
}

/// The decimal digit character for a value below ten.
pub open spec fn digit_char(d: int) -> char {
    if d == 0 {
        '0'
    } else if d == 1 {
        '1'
    } else if d == 2 {
        '2'
    } else if d == 3 {
        '3'
    } else if d == 4 {
        '4'
    } else if d == 5 {
        '5'
    } else if d == 6 {
        '6'
    } else if d == 7 {
        '7'
    } else if d == 8 {
        '8'
    } else {
        '9'
    }
}

/// The decimal rendering of a non-negative value, most significant digit
/// first.
pub open spec fn nat_decimal_chars(n: nat) -> Seq<char>
    decreases n,
{
    if n < 10 {
        seq![digit_char(n as int)]
    } else {
        nat_decimal_chars(n / 10).push(digit_char((n % 10) as int))
    }
}

/// The decimal rendering of a signed value: a minus sign for a negative
/// value, then the digits of its magnitude.
pub open spec fn decimal_chars(v: int) -> Seq<char> {
    if v < 0 {
        seq!['-'] + nat_decimal_chars((-v) as nat)
    } else {
        nat_decimal_chars(v as nat)
    }
}

fn digit_char_exec(d: u64) -> (r: char)
    requires
        d < 10,
    ensures
        r == digit_char(d as int),
{
    if d == 0 {
        '0'
    } else if d == 1 {
        '1'
    } else if d == 2 {
        '2'
    } else if d == 3 {
        '3'
    } else if d == 4 {
        '4'
    } else if d == 5 {
        '5'
    } else if d == 6 {
        '6'
    } else if d == 7 {
        '7'
    } else if d == 8 {
        '8'
    } else {
        '9'
    }
}

fn nat_to_decimal(n: u64) -> (s: String)
    ensures
        s@ == nat_decimal_chars(n as nat),
    decreases n,
{
    if n < 10 {
        let mut s = String::new();
        push_char(&mut s, digit_char_exec(n));
        proof {
            assert(s@ =~= nat_decimal_chars(n as nat));
        }
        s
    } else {
        let mut s = nat_to_decimal(n / 10);
        push_char(&mut s, digit_char_exec(n % 10));
        s
    }
}

/// Renders a signed value in decimal, as the platform's default formatting
/// of an integer does.
pub fn i64_to_decimal_string(v: i64) -> (s: String)
    ensures
        s@ == decimal_chars(v as int),
{
    if v < 0 {
        let magnitude: u64 = (-(v as i128)) as u64;
        let mut s = String::new();
        push_char(&mut s, '-');
        let digits = nat_to_decimal(magnitude);
        s.append(digits.as_str());
        proof {
            assert(s@ =~= decimal_chars(v as int));
        }
        s
    } else {
        nat_to_decimal(v as u64)
    }
}

/// ASCII whitespace, as trimming understands it.
pub open spec fn is_space_char(c: char) -> bool {
    c == ' ' || c == '\t' || c == '\n' || c == '\r'
}

/// The index of the first character that is not ASCII whitespace (the length
/// when all of them are).
pub open spec fn first_non_space(s: Seq<char>) -> int
    decreases s.len(),
{
    if s.len() == 0 {
        0
    } else if is_space_char(s[0]) {
        1 + first_non_space(s.drop_first())
    } else {
        0
    }
}

/// One past the index of the last character that is not ASCII whitespace
/// (zero when all of them are).
pub open spec fn last_non_space_end(s: Seq<char>) -> int
    decreases s.len(),
{
    if s.len() == 0 {
        0
    } else if is_space_char(s[s.len() - 1]) {
        last_non_space_end(s.drop_last())
    } else {
        s.len() as int
    }
}

/// `s` with leading and trailing ASCII whitespace removed.
pub open spec fn trim_spec(s: Seq<char>) -> Seq<char> {
    if first_non_space(s) <= last_non_space_end(s) {
        s.subrange(first_non_space(s), last_non_space_end(s))
    } else {
        Seq::empty()
    }
}

proof fn lemma_first_non_space(s: Seq<char>)
    ensures
        0 <= first_non_space(s) <= s.len(),
        forall|k: int| 0 <= k < first_non_space(s) ==> is_space_char(s[k]),
        first_non_space(s) < s.len() ==> !is_space_char(s[first_non_space(s)]),
    decreases s.len(),
{
    if s.len() == 0 {
    } else if is_space_char(s[0]) {
        lemma_first_non_space(s.drop_first());
        assert forall|k: int| 0 <= k < first_non_space(s) implies is_space_char(s[k]) by {
            if k > 0 {
                assert(s.drop_first()[k - 1] == s[k]);
            }
        }
        if first_non_space(s) < s.len() {
            assert(s.drop_first()[first_non_space(s) - 1] == s[first_non_space(s)]);
        }
    }
}

proof fn lemma_last_non_space_end(s: Seq<char>)
    ensures
        0 <= last_non_space_end(s) <= s.len(),
        forall|k: int| last_non_space_end(s) <= k < s.len() ==> is_space_char(s[k]),
        last_non_space_end(s) > 0 ==> !is_space_char(s[last_non_space_end(s) - 1]),
    decreases s.len(),
{
    if s.len() == 0 {
    } else if is_space_char(s[s.len() - 1]) {
        lemma_last_non_space_end(s.drop_last());
        assert forall|k: int| last_non_space_end(s) <= k < s.len() implies is_space_char(s[k]) by {
            if k < s.len() - 1 {
                assert(s.drop_last()[k] == s[k]);
            }
        }
        if last_non_space_end(s) > 0 {
            assert(s.drop_last()[last_non_space_end(s) - 1] == s[last_non_space_end(s) - 1]);
        }
    }
}

fn is_space_char_exec(c: char) -> (r: bool)
    ensures
        r == is_space_char(c),
{
    c == ' ' || c == '\t' || c == '\n' || c == '\r'
}

/// Removes leading and trailing ASCII whitespace from a string.
pub fn trim_str(s: &str) -> (r: String)
    ensures
        r@ == trim_spec(s@),
{
    proof {
        lemma_first_non_space(s@);
        lemma_last_non_space_end(s@);
    }
    let len = s.unicode_len();
    let mut i: usize = 0;
    while i < len
        invariant_except_break
            len == s@.len(),
            0 <= i <= len,
            forall|k: int| 0 <= k < i ==> is_space_char(s@[k]),
        ensures
            len == s@.len(),
            0 <= i <= len,
            forall|k: int| 0 <= k < i ==> is_space_char(s@[k]),
            i < len ==> !is_space_char(s@[i as int]),
        decreases len - i,
    {
        if !is_space_char_exec(s.get_char(i)) {
            break;
        }
        i = i + 1;
    }
    proof {
        // The scan's stopping point is exactly the first non-space index.
        if i < first_non_space(s@) {
            assert(is_space_char(s@[i as int]));
            assert(false);
        }
        if first_non_space(s@) < i {
            assert(is_space_char(s@[first_non_space(s@)]));
            assert(false);
        }
    }
    let mut j: usize = len;
    while j > i
        invariant_except_break
            len == s@.len(),
            i <= j <= len,
            i == first_non_space(s@),
            forall|k: int| j <= k < len ==> is_space_char(s@[k]),
        ensures
            len == s@.len(),
            i <= j <= len,
            forall|k: int| j <= k < len ==> is_space_char(s@[k]),
            j > i ==> !is_space_char(s@[j - 1]),
        decreases j,
    {
        if !is_space_char_exec(s.get_char(j - 1)) {
            break;
        }
        j = j - 1;
    }
    proof {
        // The backward scan's stopping point is one past the last non-space
        // index, unless everything from `i` on is whitespace.
        if j == i {
            if last_non_space_end(s@) > i {
                assert(is_space_char(s@[last_non_space_end(s@) - 1]));
                assert(false);
            }
            assert(trim_spec(s@) =~= s@.subrange(i as int, j as int));
        } else {
            if j < last_non_space_end(s@) {
                assert(is_space_char(s@[j as int]));
                assert(false);
            }
            if last_non_space_end(s@) < j {
                assert(is_space_char(s@[j - 1]));
                assert(false);
            }
            assert(trim_spec(s@) =~= s@.subrange(i as int, j as int));
        }
    }
    let trimmed = s.substring_char(i, j);
    trimmed.to_owned()
}

/// The index of the first character that differs from `c` (the length when
/// none does).
pub open spec fn first_not_char(s: Seq<char>, c: char) -> int
    decreases s.len(),
{
    if s.len() == 0 {
        0
    } else if s[0] == c {
        1 + first_not_char(s.drop_first(), c)
    } else {
        0
    }
}

/// One past the index of the last character that differs from `c` (zero
/// when none does).
pub open spec fn last_not_char_end(s: Seq<char>, c: char) -> int
    decreases s.len(),
{
    if s.len() == 0 {
        0
    } else if s[s.len() - 1] == c {
        last_not_char_end(s.drop_last(), c)
    } else {
        s.len() as int
    }
}

/// `s` with every leading and trailing repetition of `c` removed.
pub open spec fn trim_char_spec(s: Seq<char>, c: char) -> Seq<char> {
    if first_not_char(s, c) <= last_not_char_end(s, c) {
        s.subrange(first_not_char(s, c), last_not_char_end(s, c))
    } else {
        Seq::empty()
    }
}

proof fn lemma_first_not_char(s: Seq<char>, c: char)
    ensures
        0 <= first_not_char(s, c) <= s.len(),
        forall|k: int| 0 <= k < first_not_char(s, c) ==> s[k] == c,
        first_not_char(s, c) < s.len() ==> s[first_not_char(s, c)] != c,
    decreases s.len(),
{
    if s.len() == 0 {
    } else if s[0] == c {
        lemma_first_not_char(s.drop_first(), c);
        assert forall|k: int| 0 <= k < first_not_char(s, c) implies s[k] == c by {
            if k > 0 {
                assert(s.drop_first()[k - 1] == s[k]);
            }
        }
        if first_not_char(s, c) < s.len() {
            assert(s.drop_first()[first_not_char(s, c) - 1] == s[first_not_char(s, c)]);
        }
    }
}

proof fn lemma_last_not_char_end(s: Seq<char>, c: char)
    ensures
        0 <= last_not_char_end(s, c) <= s.len(),
        forall|k: int| last_not_char_end(s, c) <= k < s.len() ==> s[k] == c,
        last_not_char_end(s, c) > 0 ==> s[last_not_char_end(s, c) - 1] != c,
    decreases s.len(),
{
    if s.len() == 0 {
    } else if s[s.len() - 1] == c {
        lemma_last_not_char_end(s.drop_last(), c);
        assert forall|k: int| last_not_char_end(s, c) <= k < s.len() implies s[k] == c by {
            if k < s.len() - 1 {
                assert(s.drop_last()[k] == s[k]);
            }
        }
        if last_not_char_end(s, c) > 0 {
            assert(s.drop_last()[last_not_char_end(s, c) - 1] == s[last_not_char_end(s, c) - 1]);
        }
    }
}

/// Removes every leading and trailing repetition of `c` from a string.
pub fn trim_char_str(s: &str, c: char) -> (r: String)
    ensures
        r@ == trim_char_spec(s@, c),
{
    proof {
        lemma_first_not_char(s@, c);
        lemma_last_not_char_end(s@, c);
    }
    let len = s.unicode_len();
    let mut i: usize = 0;
    while i < len
        invariant_except_break
            len == s@.len(),
            0 <= i <= len,
            forall|k: int| 0 <= k < i ==> s@[k] == c,
        ensures
            len == s@.len(),
            0 <= i <= len,
            forall|k: int| 0 <= k < i ==> s@[k] == c,
            i < len ==> s@[i as int] != c,
        decreases len - i,
    {
        if s.get_char(i) != c {
            break;
        }
        i = i + 1;
    }
    proof {
        if i < first_not_char(s@, c) {
            assert(s@[i as int] == c);
            assert(false);
        }
        if first_not_char(s@, c) < i {
            assert(s@[first_not_char(s@, c)] == c);
            assert(false);
        }
    }
    let mut j: usize = len;
    while j > i
        invariant_except_break
            len == s@.len(),
            i <= j <= len,
            i == first_not_char(s@, c),
            forall|k: int| j <= k < len ==> s@[k] == c,
        ensures
            len == s@.len(),
            i <= j <= len,
            forall|k: int| j <= k < len ==> s@[k] == c,
            j > i ==> s@[j - 1] != c,
        decreases j,
    {
        if s.get_char(j - 1) != c {
            break;
        }
        j = j - 1;
    }
    proof {
        if j == i {
            if last_not_char_end(s@, c) > i {
                assert(s@[last_not_char_end(s@, c) - 1] == c);
                assert(false);
            }
            assert(trim_char_spec(s@, c) =~= s@.subrange(i as int, j as int));
        } else {
            if j < last_not_char_end(s@, c) {
                assert(s@[j as int] == c);
                assert(false);
            }
            if last_not_char_end(s@, c) < j {
                assert(s@[j - 1] == c);
                assert(false);
            }
            assert(trim_char_spec(s@, c) =~= s@.subrange(i as int, j as int));
        }
    }
    let trimmed = s.substring_char(i, j);
    trimmed.to_owned()
}

/// Whether some character of `s` is `c`.
pub fn str_contains_char(s: &str, c: char) -> (r: bool)
    ensures
        r == s@.contains(c),
{
    let len = s.unicode_len();
    let mut i: usize = 0;
    while i < len
        invariant
            len == s@.len(),
            0 <= i <= len,
            forall|k: int| 0 <= k < i ==> s@[k] != c,
        decreases len - i,
    {
        if s.get_char(i) == c {
            proof {
                assert(s@[i as int] == c);
            }
            return true;
        }
        i = i + 1;
    }
    proof {
        assert forall|k: int| 0 <= k < s@.len() implies s@[k] != c by {}
    }
    false
}

/// `needle` occurs in `hay` as a contiguous run of characters.
pub open spec fn contains_seq(hay: Seq<char>, needle: Seq<char>) -> bool {
    exists|i: int|
        0 <= i && i + needle.len() <= hay.len() && #[trigger] hay.subrange(
            i,
            i + needle.len() as int,
        ) == needle
}

fn match_at(hay: &str, needle: &str, i: usize) -> (r: bool)
    requires
        i + needle@.len() <= hay@.len(),
    ensures
        r == (hay@.subrange(i as int, i as int + needle@.len() as int) == needle@),
{
    let hay_len = hay.unicode_len();
    let needle_len = needle.unicode_len();
    let ghost sub = hay@.subrange(i as int, i as int + needle@.len() as int);
    let mut j: usize = 0;
    while j < needle_len
        invariant
            hay_len == hay@.len(),
            needle_len == needle@.len(),
            i + needle_len <= hay_len,
            sub == hay@.subrange(i as int, i as int + needle@.len() as int),
            0 <= j <= needle_len,
            forall|t: int| 0 <= t < j ==> hay@[i + t] == needle@[t],
        decreases needle_len - j,
    {
        if hay.get_char(i + j) != needle.get_char(j) {
            proof {
                assert(sub[j as int] == hay@[i + j]);
                if sub == needle@ {
                    assert(sub[j as int] == needle@[j as int]);
                }
            }
            return false;
        }
        j = j + 1;
    }
    proof {
        assert forall|t: int| 0 <= t < sub.len() implies sub[t] == needle@[t] by {
            assert(sub[t] == hay@[i + t]);
        }
        assert(sub =~= needle@);
    }
    true
}

/// Whether `needle` occurs in `hay` as a contiguous run of characters.
pub fn str_contains_str(hay: &str, needle: &str) -> (r: bool)
    ensures
        r == contains_seq(hay@, needle@),
{
    let hay_len = hay.unicode_len();
    let needle_len = needle.unicode_len();
    if needle_len > hay_len {
        return false;
    }
    if needle_len == 0 {
        proof {
            assert(hay@.subrange(0, 0 + needle@.len() as int) =~= needle@);
        }
        return true;
    }
    let bound = hay_len - needle_len;
    let mut i: usize = 0;
    while i <= bound
        invariant
            hay_len == hay@.len(),
            needle_len == needle@.len(),
            1 <= needle_len <= hay_len,
            bound == hay_len - needle_len,
            0 <= i <= bound + 1,
            forall|k: int|
                0 <= k < i ==> #[trigger] hay@.subrange(k, k + needle@.len() as int) != needle@,
        decreases bound + 1 - i,
    {
        if match_at(hay, needle, i) {
            proof {
                assert(0 <= i as int && i as int + needle@.len() <= hay@.len() && hay@.subrange(
                    i as int,
                    i as int + needle@.len() as int,
                ) == needle@);
            }
            return true;
        }
        i = i + 1;
    }
    proof {
        if contains_seq(hay@, needle@) {
            let w = choose|w: int|
                0 <= w && w + needle@.len() <= hay@.len() && #[trigger] hay@.subrange(
                    w,
                    w + needle@.len() as int,
                ) == needle@;
            assert(hay@.subrange(w, w + needle@.len() as int) != needle@);
        }
    }
    false
}

/// Compares two strings for exact equality.
pub fn str_eq(a: &str, b: &str) -> (r: bool)
    ensures
        r == (a@ == b@),
{
    let a_len = a.unicode_len();
    let b_len = b.unicode_len();
    if a_len != b_len {
        return false;
    }
    let mut i: usize = 0;
    while i < a_len
        invariant
            a_len == a@.len(),
            b_len == b@.len(),
            a_len == b_len,
            0 <= i <= a_len,
            forall|j: int| 0 <= j < i ==> a@[j] == b@[j],
        decreases a_len - i,
    {
        let ca = a.get_char(i);
        let cb = b.get_char(i);
        if ca != cb {
            assert(a@[i as int] != b@[i as int]);
            return false;
        }
        i = i + 1;
    }
    assert(a@ =~= b@);
    true
}

} // verus!
