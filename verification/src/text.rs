//! Text primitives: every string the library shows, compares or stores is
//! reasoned about as the sequence of its characters.

use vstd::prelude::*;
use vstd::string::StringExecFns;

verus! {

/// `String::push` appends one character at the end of the text.
pub assume_specification[ String::push ](s: &mut String, c: char)
    ensures
        final(s)@ == old(s)@.push(c),
;

/// The characters with the Unicode `White_Space` property.
pub open spec fn is_white(c: char) -> bool {
    ||| 0x9 <= c as u32 <= 0xD
    ||| c == ' '
    ||| c as u32 == 0x85
    ||| c as u32 == 0xA0
    ||| c as u32 == 0x1680
    ||| 0x2000 <= c as u32 <= 0x200A
    ||| c as u32 == 0x2028
    ||| c as u32 == 0x2029
    ||| c as u32 == 0x202F
    ||| c as u32 == 0x205F
    ||| c as u32 == 0x3000
}

/// Whether `c` is white space.
pub fn white(c: char) -> (r: bool)
    ensures
        r == is_white(c),
{
    let n: u32 = c as u32;
    (n >= 0x9 && n <= 0xD) || n == 0x20 || n == 0x85 || n == 0xA0 || n == 0x1680 || (n >= 0x2000
        && n <= 0x200A) || n == 0x2028 || n == 0x2029 || n == 0x202F || n == 0x205F || n == 0x3000
}

/// The characters of `s`, in order.
pub fn chars_of(s: &str) -> (r: Vec<char>)
    ensures
        r@ == s@,
{
    let mut out: Vec<char> = Vec::new();
    for c in it: s.chars()
        invariant
            it.seq() == s@,
            out@ == s@.take(it.index() as int),
    {
        proof {
            assert(s@.take(it.index() as int).push(c) =~= s@.take(it.index() as int + 1));
        }
        out.push(c);
    }
    assert(s@.take(s@.len() as int) =~= s@);
    out
}

/// The text made of the characters `from..to` of `v`.
pub fn text_of(v: &Vec<char>, from: usize, to: usize) -> (r: String)
    requires
        from <= to <= v@.len(),
    ensures
        r@ == v@.subrange(from as int, to as int),
{
    let mut out = String::new();
    let mut i: usize = from;
    while i < to
        invariant
            from <= i <= to <= v@.len(),
            out@ == v@.subrange(from as int, i as int),
        decreases to - i,
    {
        out.push(v[i]);
        i = i + 1;
        assert(v@.subrange(from as int, i - 1).push(v@[i - 1]) =~= v@.subrange(
            from as int,
            i as int,
        ));
    }
    out
}

/// Whether the two texts are equal.
pub fn same(a: &str, b: &str) -> (r: bool)
    ensures
        r == (a@ == b@),
{
    let x = chars_of(a);
    let y = chars_of(b);
    if x.len() != y.len() {
        return false;
    }
    let mut i: usize = 0;
    while i < x.len()
        invariant
            x@ == a@,
            y@ == b@,
            x.len() == y.len(),
            i <= x.len(),
            forall|j: int| 0 <= j < i ==> x@[j] == y@[j],
        decreases x.len() - i,
    {
        if x[i] != y[i] {
            assert(a@[i as int] != b@[i as int]);
            return false;
        }
        i = i + 1;
    }
    assert(a@ =~= b@);
    true
}

/// `a` followed by `b`.
pub fn cat2(a: &str, b: &str) -> (r: String)
    ensures
        r@ == a@ + b@,
{
    let mut s = String::from_str(a);
    s.append(b);
    s
}

/// `a`, `b` and `c` in a row.
pub fn cat3(a: &str, b: &str, c: &str) -> (r: String)
    ensures
        r@ == a@ + b@ + c@,
{
    let mut s = String::from_str(a);
    s.append(b);
    s.append(c);
    s
}

/// `a`, `b`, `c` and `d` in a row.
pub fn cat4(a: &str, b: &str, c: &str, d: &str) -> (r: String)
    ensures
        r@ == a@ + b@ + c@ + d@,
{
    let mut s = cat3(a, b, c);
    s.append(d);
    s
}

/// `a` to `e` in a row.
pub fn cat5(a: &str, b: &str, c: &str, d: &str, e: &str) -> (r: String)
    ensures
        r@ == a@ + b@ + c@ + d@ + e@,
{
    let mut s = cat4(a, b, c, d);
    s.append(e);
    s
}

/// The owned copy of `s`.
pub fn owned(s: &str) -> (r: String)
    ensures
        r@ == s@,
{
    String::from_str(s)
}

/// A copy of an optional text.
pub fn copy_opt(o: &Option<String>) -> (r: Option<String>)
    ensures
        r == *o,
{
    match o {
        Some(s) => Some(s.clone()),
        None => None,
    }
}

/// The characters of an optional text.
pub open spec fn opt_view(o: Option<String>) -> Option<Seq<char>> {
    match o {
        Some(s) => Some(s@),
        None => None,
    }
}

/// The characters of each text of a list.
pub open spec fn texts_view(v: Seq<String>) -> Seq<Seq<char>> {
    v.map_values(|s: String| s@)
}

// ---------------------------------------------------------------------------
// Trimming
// ---------------------------------------------------------------------------

/// Whether every character is white space.
pub open spec fn all_white(s: Seq<char>) -> bool {
    forall|i: int| 0 <= i < s.len() ==> is_white(#[trigger] s[i])
}

/// `t` is `s` without the white space at its two ends: what was taken off is
/// white, and `t` neither begins nor ends with white space.
pub open spec fn is_trim_of(t: Seq<char>, s: Seq<char>) -> bool {
    &&& exists|i: int, j: int|
        0 <= i <= j <= s.len() && t == #[trigger] s.subrange(i, j) && all_white(s.subrange(0, i))
            && all_white(s.subrange(j, s.len() as int))
    &&& t.len() > 0 ==> !is_white(t[0]) && !is_white(t.last())
}

/// `s` without its leading white space.
pub open spec fn trim_start(s: Seq<char>) -> Seq<char>
    decreases s.len(),
{
    if s.len() > 0 && is_white(s[0]) {
        trim_start(s.skip(1))
    } else {
        s
    }
}

/// `s` without its trailing white space.
pub open spec fn trim_end(s: Seq<char>) -> Seq<char>
    decreases s.len(),
{
    if s.len() > 0 && is_white(s.last()) {
        trim_end(s.drop_last())
    } else {
        s
    }
}

/// `s` without the white space at its two ends.
pub open spec fn trimmed(s: Seq<char>) -> Seq<char> {
    trim_end(trim_start(s))
}

proof fn lemma_trim_start_cut(s: Seq<char>)
    ensures
        exists|i: int|
            0 <= i <= s.len() && trim_start(s) == #[trigger] s.skip(i) && all_white(s.take(i)),
        trim_start(s).len() > 0 ==> !is_white(trim_start(s)[0]),
    decreases s.len(),
{
    if s.len() > 0 && is_white(s[0]) {
        lemma_trim_start_cut(s.skip(1));
        let i = choose|i: int|
            0 <= i <= s.skip(1).len() && trim_start(s.skip(1)) == #[trigger] s.skip(1).skip(i)
                && all_white(s.skip(1).take(i));
        assert(s.skip(1).skip(i) =~= s.skip(i + 1));
        assert forall|k: int| 0 <= k < s.take(i + 1).len() implies is_white(
            #[trigger] s.take(i + 1)[k],
        ) by {
            if k > 0 {
                assert(s.skip(1).take(i)[k - 1] == s[k]);
            }
        }
    } else {
        assert(s.skip(0) =~= s);
        assert(all_white(s.take(0)));
    }
}

proof fn lemma_trim_end_cut(s: Seq<char>)
    ensures
        exists|j: int|
            0 <= j <= s.len() && trim_end(s) == #[trigger] s.take(j) && all_white(s.skip(j)),
        trim_end(s).len() > 0 ==> !is_white(trim_end(s).last()),
    decreases s.len(),
{
    if s.len() > 0 && is_white(s.last()) {
        lemma_trim_end_cut(s.drop_last());
        let j = choose|j: int|
            0 <= j <= s.drop_last().len() && trim_end(s.drop_last())
                == #[trigger] s.drop_last().take(j) && all_white(s.drop_last().skip(j));
        assert(s.drop_last().take(j) =~= s.take(j));
        assert forall|k: int| 0 <= k < s.skip(j).len() implies is_white(#[trigger] s.skip(j)[k]) by {
            if k < s.skip(j).len() - 1 {
                assert(s.drop_last().skip(j)[k] == s[j + k]);
            }
        }
    } else {
        assert(s.take(s.len() as int) =~= s);
        assert(all_white(s.skip(s.len() as int)));
    }
}

/// Trimming takes white space off the two ends and nothing else, and leaves
/// none there.
pub proof fn law_trimmed_is_trim(s: Seq<char>)
    ensures
        is_trim_of(trimmed(s), s),
{
    lemma_trim_start_cut(s);
    let a = trim_start(s);
    let i = choose|i: int|
        0 <= i <= s.len() && trim_start(s) == #[trigger] s.skip(i) && all_white(s.take(i));
    lemma_trim_end_cut(a);
    let j = choose|j: int|
        0 <= j <= a.len() && trim_end(a) == #[trigger] a.take(j) && all_white(a.skip(j));
    let t = trimmed(s);
    assert(t =~= s.subrange(i, i + j));
    assert(s.subrange(0, i) =~= s.take(i));
    assert(s.subrange(i + j, s.len() as int) =~= a.skip(j));
    if t.len() > 0 {
        assert(t[0] == a[0]);
    }
}

proof fn lemma_trim_start_steps(s: Seq<char>, i: int)
    requires
        0 <= i <= s.len(),
        all_white(s.take(i)),
    ensures
        trim_start(s) == trim_start(s.skip(i)),
    decreases i,
{
    if i == 0 {
        assert(s.skip(0) =~= s);
    } else {
        assert(s.take(i)[0] == s[0]);
        assert forall|k: int| 0 <= k < s.skip(1).take(i - 1).len() implies is_white(
            #[trigger] s.skip(1).take(i - 1)[k],
        ) by {
            assert(s.take(i)[k + 1] == s.skip(1).take(i - 1)[k]);
        }
        lemma_trim_start_steps(s.skip(1), i - 1);
        assert(s.skip(1).skip(i - 1) =~= s.skip(i));
    }
}

proof fn lemma_trim_end_steps(s: Seq<char>, j: int)
    requires
        0 <= j <= s.len(),
        all_white(s.skip(j)),
    ensures
        trim_end(s) == trim_end(s.take(j)),
    decreases s.len() - j,
{
    if j == s.len() {
        assert(s.take(j) =~= s);
    } else {
        assert(s.skip(j)[s.len() - j - 1] == s.last());
        assert forall|k: int| 0 <= k < s.drop_last().skip(j).len() implies is_white(
            #[trigger] s.drop_last().skip(j)[k],
        ) by {
            assert(s.skip(j)[k] == s.drop_last().skip(j)[k]);
        }
        lemma_trim_end_steps(s.drop_last(), j);
        assert(s.drop_last().take(j) =~= s.take(j));
    }
}

/// `s` without the white space at its two ends.
pub fn trim(s: &str) -> (r: String)
    ensures
        r@ == trimmed(s@),
{
    let v = chars_of(s);
    let mut i: usize = 0;
    while i < v.len() && white(v[i])
        invariant
            v@ == s@,
            i <= v.len(),
            all_white(v@.take(i as int)),
        decreases v.len() - i,
    {
        assert forall|k: int| 0 <= k < v@.take(i + 1).len() implies is_white(
            #[trigger] v@.take(i + 1)[k],
        ) by {
            if k < i {
                assert(v@.take(i as int)[k] == v@[k]);
            }
        }
        i = i + 1;
    }
    let ghost a = v@.skip(i as int);
    proof {
        lemma_trim_start_steps(v@, i as int);
        assert(trim_start(v@) == a);
    }
    let mut j: usize = v.len();
    assert(all_white(v@.skip(v@.len() as int)));
    while j > i && white(v[j - 1])
        invariant
            v@ == s@,
            i <= j <= v.len(),
            all_white(v@.skip(j as int)),
        decreases j,
    {
        assert forall|k: int| 0 <= k < v@.skip(j - 1).len() implies is_white(
            #[trigger] v@.skip(j - 1)[k],
        ) by {
            if k > 0 {
                assert(v@.skip(j as int)[k - 1] == v@[j + k - 1]);
            }
        }
        j = j - 1;
    }
    proof {
        assert(a.skip(j - i) =~= v@.skip(j as int));
        lemma_trim_end_steps(a, j - i);
        assert(a.take(j - i) =~= v@.subrange(i as int, j as int));
        if j > i {
            assert(a.take(j - i).last() == v@[j - 1]);
        }
    }
    text_of(&v, i, j)
}

// ---------------------------------------------------------------------------
// Searching
// ---------------------------------------------------------------------------

/// Whether `p` stands in `s` at position `i`.
pub open spec fn occurs_at(s: Seq<char>, p: Seq<char>, i: int) -> bool {
    0 <= i && i + p.len() <= s.len() && s.subrange(i, i + p.len()) == p
}

/// Whether `p` stands somewhere in `s`.
pub open spec fn occurs(s: Seq<char>, p: Seq<char>) -> bool {
    exists|i: int| occurs_at(s, p, i)
}

fn matches_at(v: &Vec<char>, p: &Vec<char>, i: usize) -> (r: bool)
    requires
        i <= v.len(),
    ensures
        r == occurs_at(v@, p@, i as int),
{
    if p.len() > v.len() - i {
        return false;
    }
    let mut k: usize = 0;
    while k < p.len()
        invariant
            i + p.len() <= v.len(),
            k <= p.len(),
            forall|m: int| 0 <= m < k ==> v@[i + m] == p@[m],
        decreases p.len() - k,
    {
        if v[i + k] != p[k] {
            assert(v@.subrange(i as int, i + p@.len())[k as int] != p@[k as int]);
            return false;
        }
        k = k + 1;
    }
    assert(v@.subrange(i as int, i + p@.len()) =~= p@);
    true
}

/// Whether `p` stands somewhere in `s`.
pub fn has(s: &str, p: &str) -> (r: bool)
    ensures
        r == occurs(s@, p@),
{
    let v = chars_of(s);
    let q = chars_of(p);
    let mut i: usize = 0;
    loop
        invariant
            v@ == s@,
            q@ == p@,
            i <= v.len(),
            forall|k: int| 0 <= k < i ==> !occurs_at(s@, p@, k),
        decreases v.len() - i,
    {
        if matches_at(&v, &q, i) {
            return true;
        }
        if i == v.len() {
            assert forall|k: int| !occurs_at(s@, p@, k) by {
                if k > v.len() {
                }
            }
            return false;
        }
        i = i + 1;
    }
}

/// Whether `s` begins with `p`.
pub open spec fn begins_with(s: Seq<char>, p: Seq<char>) -> bool {
    occurs_at(s, p, 0)
}

/// Whether `s` begins with `p`.
pub fn starts_with(s: &str, p: &str) -> (r: bool)
    ensures
        r == begins_with(s@, p@),
{
    let v = chars_of(s);
    let q = chars_of(p);
    matches_at(&v, &q, 0)
}

/// `s` with every leftmost, non-overlapping occurrence of the non-empty `p`
/// replaced by `w`, reading from position `i`.
pub open spec fn replaced_from(s: Seq<char>, p: Seq<char>, w: Seq<char>, i: int) -> Seq<char>
    decreases s.len() - i,
    when 0 <= i && p.len() > 0
{
    if i >= s.len() {
        Seq::empty()
    } else if occurs_at(s, p, i) {
        w + replaced_from(s, p, w, i + p.len())
    } else {
        seq![s[i]] + replaced_from(s, p, w, i + 1)
    }
}

/// `s` with every leftmost, non-overlapping occurrence of the non-empty `p`
/// replaced by `w`.
pub fn replace(s: &str, p: &str, w: &str) -> (r: String)
    requires
        p@.len() > 0,
    ensures
        r@ == replaced_from(s@, p@, w@, 0),
{
    let v = chars_of(s);
    let q = chars_of(p);
    let mut out = String::new();
    let mut i: usize = 0;
    assert(Seq::<char>::empty() + replaced_from(s@, p@, w@, 0) =~= replaced_from(s@, p@, w@, 0));
    while i < v.len()
        invariant
            v@ == s@,
            q@ == p@,
            q@.len() > 0,
            i <= v.len(),
            replaced_from(s@, p@, w@, 0) == out@ + replaced_from(s@, p@, w@, i as int),
        decreases v.len() - i,
    {
        let ghost before = out@;
        if matches_at(&v, &q, i) {
            out.append(w);
            i = i + q.len();
            assert(before + (w@ + replaced_from(s@, p@, w@, i as int)) =~= out@ + replaced_from(
                s@,
                p@,
                w@,
                i as int,
            ));
        } else {
            out.push(v[i]);
            i = i + 1;
            assert(before + (seq![s@[i - 1]] + replaced_from(s@, p@, w@, i as int)) =~= out@
                + replaced_from(s@, p@, w@, i as int));
        }
    }
    assert(out@ + replaced_from(s@, p@, w@, i as int) =~= out@);
    out
}

/// What follows the last `/` of `s`, or all of it when it has none.
pub open spec fn after_last_slash(s: Seq<char>) -> Seq<char>
    decreases s.len(),
{
    if s.len() == 0 || s.last() == '/' {
        Seq::empty()
    } else {
        after_last_slash(s.drop_last()).push(s.last())
    }
}

/// What follows the last `/` of `s`, or all of it when it has none.
pub fn last_segment(s: &str) -> (r: String)
    ensures
        r@ == after_last_slash(s@),
{
    let v = chars_of(s);
    let mut i: usize = v.len();
    assert(v@.take(i as int) =~= v@);
    assert(v@.skip(v@.len() as int) =~= Seq::<char>::empty());
    assert(after_last_slash(v@) + Seq::<char>::empty() =~= after_last_slash(v@));
    while i > 0 && v[i - 1] != '/'
        invariant
            v@ == s@,
            i <= v.len(),
            after_last_slash(s@) == after_last_slash(v@.take(i as int)) + v@.skip(i as int),
        decreases i,
    {
        proof {
            let h = v@.take(i as int);
            assert(h.drop_last() =~= v@.take(i - 1));
            assert(after_last_slash(h) + v@.skip(i as int) =~= after_last_slash(v@.take(i - 1))
                + v@.skip(i - 1));
        }
        i = i - 1;
    }
    proof {
        let h = v@.take(i as int);
        assert(after_last_slash(h) =~= Seq::<char>::empty());
        assert(v@.subrange(i as int, v@.len() as int) =~= v@.skip(i as int));
    }
    text_of(&v, i, v.len())
}

// ---------------------------------------------------------------------------
// Numbers
// ---------------------------------------------------------------------------

/// The decimal digit `d`.
pub open spec fn digit(d: int) -> char {
    (0x30 + d) as char
}

/// `n` in decimal, without leading zeros.
pub open spec fn decimal_view(n: nat) -> Seq<char>
    decreases n,
{
    if n < 10 {
        seq![digit(n as int)]
    } else {
        decimal_view(n / 10).push(digit((n % 10) as int))
    }
}

/// A number of 32 bits has at most ten digits.
pub proof fn lemma_decimal_u32(n: nat)
    requires
        n <= u32::MAX,
    ensures
        1 <= decimal_view(n).len() <= 10,
{
    reveal_with_fuel(decimal_view, 10);
}

fn digit_char(d: u64) -> (c: char)
    requires
        d < 10,
    ensures
        c == digit(d as int),
{
    let b: u8 = 0x30 + d as u8;
    b as char
}

/// `n` in decimal, without leading zeros.
pub fn decimal(n: u64) -> (r: String)
    ensures
        r@ == decimal_view(n as nat),
    decreases n,
{
    if n < 10 {
        let mut s = String::new();
        s.push(digit_char(n));
        assert(s@ =~= decimal_view(n as nat));
        s
    } else {
        let mut s = decimal(n / 10);
        s.push(digit_char(n % 10));
        s
    }
}

/// `n` in decimal, without leading zeros.
pub fn decimal_usize(n: usize) -> (r: String)
    ensures
        r@ == decimal_view(n as nat),
{
    decimal(n as u64)
}

// ---------------------------------------------------------------------------
// ASCII
// ---------------------------------------------------------------------------

/// An ASCII letter.
pub open spec fn is_ascii_letter(c: char) -> bool {
    0x41 <= c as u32 <= 0x5A || 0x61 <= c as u32 <= 0x7A
}

/// Whether `c` is an ASCII letter.
pub fn ascii_letter(c: char) -> (r: bool)
    ensures
        r == is_ascii_letter(c),
{
    let n: u32 = c as u32;
    (n >= 0x41 && n <= 0x5A) || (n >= 0x61 && n <= 0x7A)
}

/// An ASCII letter or digit.
pub open spec fn is_ascii_alnum(c: char) -> bool {
    is_ascii_letter(c) || 0x30 <= c as u32 <= 0x39
}

/// Whether `c` is an ASCII letter or digit.
pub fn ascii_alnum(c: char) -> (r: bool)
    ensures
        r == is_ascii_alnum(c),
{
    let n: u32 = c as u32;
    ascii_letter(c) || (n >= 0x30 && n <= 0x39)
}

/// The upper-case form of an ASCII letter; any other character as it is.
pub open spec fn ascii_upper(c: char) -> char {
    if 0x61 <= c as u32 <= 0x7A {
        (c as u32 - 0x20) as char
    } else {
        c
    }
}

/// Whether the two texts are equal once ASCII letters are in upper case.
pub open spec fn equal_ignoring_case(a: Seq<char>, b: Seq<char>) -> bool {
    a.map_values(|c: char| ascii_upper(c)) == b.map_values(|c: char| ascii_upper(c))
}

fn upper(c: char) -> (r: char)
    ensures
        r == ascii_upper(c),
{
    let n: u32 = c as u32;
    if n >= 0x61 && n <= 0x7A {
        let b: u8 = (n - 0x20) as u8;
        b as char
    } else {
        c
    }
}

/// Whether the two texts are equal once ASCII letters are in upper case.
pub fn same_ignoring_case(a: &str, b: &str) -> (r: bool)
    ensures
        r == equal_ignoring_case(a@, b@),
{
    let x = chars_of(a);
    let y = chars_of(b);
    let ghost ua = a@.map_values(|c: char| ascii_upper(c));
    let ghost ub = b@.map_values(|c: char| ascii_upper(c));
    if x.len() != y.len() {
        assert(ua.len() != ub.len());
        return false;
    }
    let mut i: usize = 0;
    while i < x.len()
        invariant
            x@ == a@,
            y@ == b@,
            x.len() == y.len(),
            i <= x.len(),
            ua == a@.map_values(|c: char| ascii_upper(c)),
            ub == b@.map_values(|c: char| ascii_upper(c)),
            forall|j: int| 0 <= j < i ==> ascii_upper(x@[j]) == ascii_upper(y@[j]),
        decreases x.len() - i,
    {
        if upper(x[i]) != upper(y[i]) {
            assert(ua[i as int] != ub[i as int]);
            return false;
        }
        i = i + 1;
    }
    assert(ua =~= ub);
    true
}

// ---------------------------------------------------------------------------
// Order
// ---------------------------------------------------------------------------

proof fn lemma_code(c: char)
    ensures
        (c as u32) as int == c as int,
{
}

/// Dictionary order by code point.
pub open spec fn lex_le(a: Seq<char>, b: Seq<char>) -> bool
    decreases a.len(),
{
    if a.len() == 0 {
        true
    } else if b.len() == 0 {
        false
    } else if a[0] != b[0] {
        (a[0] as int) < (b[0] as int)
    } else {
        lex_le(a.skip(1), b.skip(1))
    }
}

/// Of two texts one comes first.
pub proof fn lemma_lex_total(a: Seq<char>, b: Seq<char>)
    ensures
        lex_le(a, b) || lex_le(b, a),
    decreases a.len(),
{
    if a.len() > 0 && b.len() > 0 && a[0] == b[0] {
        lemma_lex_total(a.skip(1), b.skip(1));
    }
}

/// Dictionary order is transitive.
pub proof fn lemma_lex_trans(a: Seq<char>, b: Seq<char>, c: Seq<char>)
    requires
        lex_le(a, b),
        lex_le(b, c),
    ensures
        lex_le(a, c),
    decreases a.len(),
{
    if a.len() > 0 && b.len() > 0 && c.len() > 0 && a[0] == b[0] && b[0] == c[0] {
        lemma_lex_trans(a.skip(1), b.skip(1), c.skip(1));
    }
}

/// Two texts that come before each other are equal.
pub proof fn lemma_lex_antisym(a: Seq<char>, b: Seq<char>)
    requires
        lex_le(a, b),
        lex_le(b, a),
    ensures
        a == b,
    decreases a.len(),
{
    if a.len() > 0 && b.len() > 0 {
        lemma_lex_antisym(a.skip(1), b.skip(1));
        assert(a =~= seq![a[0]] + a.skip(1));
        assert(b =~= seq![b[0]] + b.skip(1));
    } else {
        assert(a =~= b);
    }
}

/// Whether `a` comes before `b`, or equals it, in dictionary order.
pub fn text_le(a: &str, b: &str) -> (r: bool)
    ensures
        r == lex_le(a@, b@),
{
    let x = chars_of(a);
    let y = chars_of(b);
    let mut i: usize = 0;
    assert(x@.skip(0) =~= x@);
    assert(y@.skip(0) =~= y@);
    while i < x.len() && i < y.len()
        invariant
            x@ == a@,
            y@ == b@,
            i <= x.len(),
            i <= y.len(),
            lex_le(a@, b@) == lex_le(x@.skip(i as int), y@.skip(i as int)),
        decreases x.len() - i,
    {
        let c: char = x[i];
        let d: char = y[i];
        let p: u32 = c as u32;
        let q: u32 = d as u32;
        proof {
            lemma_code(c);
            lemma_code(d);
        }
        assert(x@.skip(i as int)[0] == x@[i as int]);
        assert(y@.skip(i as int)[0] == y@[i as int]);
        if p != q {
            return p < q;
        }
        assert(x@.skip(i as int).skip(1) =~= x@.skip(i + 1));
        assert(y@.skip(i as int).skip(1) =~= y@.skip(i + 1));
        i = i + 1;
    }
    i == x.len()
}

// ---------------------------------------------------------------------------
// Lists
// ---------------------------------------------------------------------------

/// These texts, with a separator between any two.
pub open spec fn joined(s: Seq<Seq<char>>, separator: Seq<char>) -> Seq<char>
    decreases s.len(),
{
    if s.len() == 0 {
        Seq::empty()
    } else if s.len() == 1 {
        s[0]
    } else {
        joined(s.drop_last(), separator) + separator + s.last()
    }
}

/// These texts, with a separator between any two.
pub fn join(v: &Vec<String>, separator: &str) -> (r: String)
    ensures
        r@ == joined(texts_view(v@), separator@),
{
    let ghost all = texts_view(v@);
    let mut s = String::new();
    let mut i: usize = 0;
    assert(all.take(0) =~= Seq::<Seq<char>>::empty());
    while i < v.len()
        invariant
            i <= v@.len(),
            all == texts_view(v@),
            s@ == joined(all.take(i as int), separator@),
        decreases v@.len() - i,
    {
        proof {
            assert(all.take(i + 1).drop_last() =~= all.take(i as int));
            assert(all.take(i + 1).last() == v@[i as int]@);
        }
        if i > 0 {
            s.append(separator);
        } else {
            assert(s@ =~= Seq::<char>::empty());
        }
        s.append(v[i].as_str());
        assert(s@ =~= joined(all.take(i + 1), separator@));
        i = i + 1;
    }
    assert(all.take(i as int) =~= all);
    s
}

} // verus!
