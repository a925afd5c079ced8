//! Text helpers over `String`/`&str`, specified over their `Seq<char>` views.
use vstd::prelude::*;

verus! {

// ---------------------------------------------------------------------------
// Specifications
// ---------------------------------------------------------------------------

/// `s` begins with `p`.
pub open spec fn seq_starts_with(s: Seq<char>, p: Seq<char>) -> bool {
    p.len() <= s.len() && s.subrange(0, p.len() as int) == p
}

/// `s` ends with `p`.
pub open spec fn seq_ends_with(s: Seq<char>, p: Seq<char>) -> bool {
    p.len() <= s.len() && s.subrange(s.len() - p.len(), s.len() as int) == p
}

/// `p` occurs in `s` at position `i`.
pub open spec fn occurs_at(s: Seq<char>, p: Seq<char>, i: int) -> bool {
    0 <= i && i + p.len() <= s.len() && s.subrange(i, i + p.len()) == p
}

/// `p` occurs somewhere in `s` as a contiguous piece.
pub open spec fn seq_contains(s: Seq<char>, p: Seq<char>) -> bool {
    exists|i: int| occurs_at(s, p, i)
}

/// `list` joined with `sep` between consecutive elements.
pub open spec fn seq_join(list: Seq<Seq<char>>, sep: Seq<char>) -> Seq<char>
    decreases list.len(),
{
    if list.len() == 0 {
        Seq::empty()
    } else if list.len() == 1 {
        list[0]
    } else {
        seq_join(list.drop_last(), sep) + sep + list.last()
    }
}

/// The digit character for `d` in base 16, lower case (and so also base 10).
pub open spec fn digit_char(d: nat) -> char {
    if d < 10 {
        ((d + 48) as u8) as char
    } else {
        ((d - 10 + 97) as u8) as char
    }
}

/// The numeral of `n` in `base` (no leading zeros; `0` for zero), lower-case digits.
pub open spec fn numeral(n: nat, base: nat) -> Seq<char>
    recommends
        2 <= base <= 16,
    decreases n,
{
    if base < 2 || n < base {
        seq![digit_char(n)]
    } else {
        proof {
            assert(n / base < n) by (nonlinear_arith)
                requires
                    base >= 2,
                    n >= base,
            ;
        }
        numeral(n / base, base).push(digit_char(n % base))
    }
}

/// Drops one trailing carriage return.
pub open spec fn strip_cr(l: Seq<char>) -> Seq<char> {
    if l.len() > 0 && l.last() == '\r' {
        l.drop_last()
    } else {
        l
    }
}

/// Splitting of text into lines: each `\n` ends a line (and a `\r` right before it is
/// dropped); a last piece without a final `\n` is a line of its own when non-empty.
/// `cur` is the line being read and `acc` the lines already complete.
pub open spec fn lines_scan(s: Seq<char>, cur: Seq<char>, acc: Seq<Seq<char>>) -> Seq<Seq<char>>
    decreases s.len(),
{
    if s.len() == 0 {
        if cur.len() == 0 {
            acc
        } else {
            acc.push(cur)
        }
    } else if s[0] == '\n' {
        lines_scan(s.drop_first(), Seq::empty(), acc.push(strip_cr(cur)))
    } else {
        lines_scan(s.drop_first(), cur.push(s[0]), acc)
    }
}

/// The lines of `s`, as `str::lines` yields them.
pub open spec fn lines_of(s: Seq<char>) -> Seq<Seq<char>> {
    lines_scan(s, Seq::empty(), Seq::empty())
}

/// Splitting of `s` at every `c` (as `str::split` with a `char`): the pieces between
/// separators, empty ones included; `cur` is the piece being read, `acc` those done.
pub open spec fn split_scan(s: Seq<char>, c: char, cur: Seq<char>, acc: Seq<Seq<char>>) -> Seq<
    Seq<char>,
>
    decreases s.len(),
{
    if s.len() == 0 {
        acc.push(cur)
    } else if s[0] == c {
        split_scan(s.drop_first(), c, Seq::empty(), acc.push(cur))
    } else {
        split_scan(s.drop_first(), c, cur.push(s[0]), acc)
    }
}

/// The pieces of `s` between occurrences of `c`.
pub open spec fn split_on(s: Seq<char>, c: char) -> Seq<Seq<char>> {
    split_scan(s, c, Seq::empty(), Seq::empty())
}

/// The views of a sequence of strings.
pub open spec fn views(v: Seq<String>) -> Seq<Seq<char>> {
    v.map_values(|x: String| x@)
}

/// The number of bytes of the UTF-8 encoding of `s` (what `str::len` counts).
pub open spec fn utf8_len(s: Seq<char>) -> int {
    vstd::utf8::encode_utf8(s).len() as int
}

/// UTF-8 lengths add up over concatenation.
pub proof fn lemma_utf8_len_concat(a: Seq<char>, b: Seq<char>)
    ensures
        utf8_len(a + b) == utf8_len(a) + utf8_len(b),
    decreases a.len(),
{
    if a.len() == 0 {
        assert(a + b =~= b);
    } else {
        lemma_utf8_len_concat(a.drop_first(), b);
        assert((a + b).drop_first() =~= a.drop_first() + b);
        assert((a + b)[0] == a[0]);
    }
}

/// The UTF-8 length of one character.
fn char_utf8_width(c: char) -> (w: usize)
    ensures
        w == utf8_len(seq![c]),
        1 <= w <= 4,
{
    let v = c as u32;
    proof {
        vstd::utf8::char_is_scalar(c);
        assert(seq![c].drop_first() =~= Seq::<char>::empty());
        reveal_with_fuel(vstd::utf8::encode_utf8, 2);
        assert(vstd::utf8::encode_utf8(seq![c]) =~= vstd::utf8::encode_scalar(v));
    }
    if v <= 0x7F {
        1
    } else if v <= 0x7FF {
        2
    } else if v <= 0xFFFF {
        3
    } else {
        4
    }
}

/// The UTF-8 length of `s` if it is at most `bound`; the flag tells whether it is more.
pub fn utf8_len_upto(s: &str, bound: usize) -> (r: (usize, bool))
    ensures
        r.1 == (utf8_len(s@) > bound),
        !r.1 ==> r.0 == utf8_len(s@),
{
    let cs = chars_of(s);
    let mut total: usize = 0;
    let mut i: usize = 0;
    assert(cs@.take(0) =~= Seq::<char>::empty());
    while i < cs.len()
        invariant
            cs@ == s@,
            i <= cs@.len(),
            total == utf8_len(cs@.take(i as int)),
            total <= bound,
        decreases cs@.len() - i,
    {
        let w = char_utf8_width(cs[i]);
        proof {
            assert(cs@.take(i + 1) =~= cs@.take(i as int) + seq![cs@[i as int]]);
            lemma_utf8_len_concat(cs@.take(i as int), seq![cs@[i as int]]);
        }
        if w > bound - total {
            proof {
                assert(cs@ =~= cs@.take(i + 1) + cs@.skip(i + 1));
                lemma_utf8_len_concat(cs@.take(i + 1), cs@.skip(i + 1));
            }
            return (0, true);
        }
        total = total + w;
        i = i + 1;
    }
    assert(cs@.take(cs@.len() as int) =~= cs@);
    (total, false)
}

// ---------------------------------------------------------------------------
// Trusted std items
// ---------------------------------------------------------------------------

/// Appends one character: `String::push`, whose documentation says it appends the
/// given `char` to the end of the `String`.
#[verifier::external_body]
pub(crate) fn push_char(s: &mut String, c: char)
    ensures
        final(s)@ == old(s)@.push(c),
{
    s.push(c);
}

/// What `str::to_lowercase` returns for a string: Unicode lower-casing, a function of
/// the characters alone.
pub uninterp spec fn unicode_lowercase(s: Seq<char>) -> Seq<char>;

/// `str::to_lowercase`. The contract names the result (Unicode case mapping, which
/// takes Unicode's tables to state) and says nothing more of it.
#[verifier::external_body]
pub(crate) fn to_lowercase(s: &str) -> (r: String)
    ensures
        r@ == unicode_lowercase(s@),
{
    s.to_lowercase()
}

/// What `char::is_alphanumeric` returns: Unicode's Alphabetic or Numeric property.
pub uninterp spec fn unicode_is_alphanumeric(c: char) -> bool;

/// `char::is_alphanumeric`; the contract names the result (a Unicode property).
#[verifier::external_body]
pub(crate) fn is_alphanumeric(c: char) -> (r: bool)
    ensures
        r == unicode_is_alphanumeric(c),
{
    c.is_alphanumeric()
}

/// Whether `c` has Unicode's White_Space property, which `char::is_whitespace` tests:
/// the controls U+0009 to U+000D, the space U+0020, U+0085, U+00A0, U+1680, the spaces
/// U+2000 to U+200A, the separators U+2028 and U+2029, U+202F, U+205F and U+3000.
pub open spec fn unicode_is_whitespace(c: char) -> bool {
    let n = c as u32;
    ||| 0x9 <= n <= 0xD
    ||| n == 0x20
    ||| n == 0x85
    ||| n == 0xA0
    ||| n == 0x1680
    ||| 0x2000 <= n <= 0x200A
    ||| n == 0x2028
    ||| n == 0x2029
    ||| n == 0x202F
    ||| n == 0x205F
    ||| n == 0x3000
}

/// Whether `c` is white space (see [`unicode_is_whitespace`]).
pub(crate) fn is_whitespace(c: char) -> (r: bool)
    ensures
        r == unicode_is_whitespace(c),
{
    let n = c as u32;
    (0x9 <= n && n <= 0xD) || n == 0x20 || n == 0x85 || n == 0xA0 || n == 0x1680 || (0x2000 <= n
        && n <= 0x200A) || n == 0x2028 || n == 0x2029 || n == 0x202F || n == 0x205F || n == 0x3000
}

/// What `<str as Debug>::fmt` prints for a string: it in double quotes, with special
/// characters escaped.
pub uninterp spec fn debug_quoted(s: Seq<char>) -> Seq<char>;

/// `format!("{:?}", s)`; the contract names the printed text (the escaping rules are
/// not restated).
#[verifier::external_body]
pub(crate) fn debug_text(s: &str) -> (r: String)
    ensures
        r@ == debug_quoted(s@),
{
    format!("{:?}", s)
}

// ---------------------------------------------------------------------------
// Verified helpers
// ---------------------------------------------------------------------------

/// The characters of `s`, in order.
pub fn chars_of(s: &str) -> (r: Vec<char>)
    ensures
        r@ == s@,
{
    let mut r: Vec<char> = Vec::new();
    for c in it: s.chars()
        invariant
            r@ == it.seq().take(it.index() as int),
    {
        r.push(c);
    }
    r
}

/// A string made of the characters `cs[from..to]`.
pub fn string_of_range(cs: &Vec<char>, from: usize, to: usize) -> (r: String)
    requires
        from <= to <= cs@.len(),
    ensures
        r@ == cs@.subrange(from as int, to as int),
{
    let mut r = String::new();
    let mut i: usize = from;
    while i < to
        invariant
            from <= i <= to <= cs@.len(),
            r@ == cs@.subrange(from as int, i as int),
        decreases to - i,
    {
        push_char(&mut r, cs[i]);
        assert(cs@.subrange(from as int, i + 1) == cs@.subrange(from as int, i as int).push(
            cs@[i as int],
        ));
        i = i + 1;
    }
    r
}

/// A string made of the characters `cs`.
pub fn string_of(cs: &Vec<char>) -> (r: String)
    ensures
        r@ == cs@,
{
    let r = string_of_range(cs, 0, cs.len());
    assert(cs@.subrange(0, cs@.len() as int) == cs@);
    r
}

/// A copy of `s` as an owned string.
pub fn owned(s: &str) -> (r: String)
    ensures
        r@ == s@,
{
    s.to_owned()
}

/// `a` followed by `b`.
pub fn concat(a: &str, b: &str) -> (r: String)
    ensures
        r@ == a@ + b@,
{
    let mut r = a.to_owned();
    r.append(b);
    r
}

/// `a`, `b` and `c` one after another.
pub fn concat3(a: &str, b: &str, c: &str) -> (r: String)
    ensures
        r@ == a@ + b@ + c@,
{
    let mut r = a.to_owned();
    r.append(b);
    r.append(c);
    r
}

/// Whether `cs[at..]` begins with `p`.
fn matches_at(cs: &Vec<char>, p: &Vec<char>, at: usize) -> (r: bool)
    requires
        at <= cs@.len(),
    ensures
        r == (at + p@.len() <= cs@.len() && cs@.subrange(at as int, at + p@.len()) == p@),
{
    let n: usize = cs.len();
    if p.len() > n - at {
        return false;
    }
    let mut j: usize = 0;
    while j < p.len()
        invariant
            n == cs@.len(),
            at + p@.len() <= cs@.len(),
            j <= p@.len(),
            forall|k: int| 0 <= k < j ==> cs@[at + k] == p@[k],
        decreases p@.len() - j,
    {
        if cs[at + j] != p[j] {
            assert(cs@.subrange(at as int, at + p@.len())[j as int] != p@[j as int]);
            return false;
        }
        j = j + 1;
    }
    assert(cs@.subrange(at as int, at + p@.len()) =~= p@);
    true
}

/// Whether two strings hold the same characters.
pub fn str_eq(a: &str, b: &str) -> (r: bool)
    ensures
        r == (a@ == b@),
{
    let x = chars_of(a);
    let y = chars_of(b);
    if x.len() != y.len() {
        return false;
    }
    let r = matches_at(&x, &y, 0);
    assert(x@.subrange(0, y@.len() as int) =~= x@);
    r
}

/// Whether `s` begins with `p` (`str::starts_with` with a string pattern).
pub fn starts_with(s: &str, p: &str) -> (r: bool)
    ensures
        r == seq_starts_with(s@, p@),
{
    let x = chars_of(s);
    let y = chars_of(p);
    matches_at(&x, &y, 0)
}

/// Whether `s` ends with `p` (`str::ends_with` with a string pattern).
pub fn ends_with(s: &str, p: &str) -> (r: bool)
    ensures
        r == seq_ends_with(s@, p@),
{
    let x = chars_of(s);
    let y = chars_of(p);
    if y.len() > x.len() {
        return false;
    }
    matches_at(&x, &y, x.len() - y.len())
}

/// Whether `p` occurs in `s` (`str::contains` with a string pattern).
pub fn contains(s: &str, p: &str) -> (r: bool)
    ensures
        r == seq_contains(s@, p@),
{
    let x = chars_of(s);
    let y = chars_of(p);
    if y.len() > x.len() {
        return false;
    }
    let last: usize = x.len() - y.len();
    let mut i: usize = 0;
    loop
        invariant
            x@ == s@,
            y@ == p@,
            last == x@.len() - y@.len(),
            i <= last,
            forall|k: int| 0 <= k < i ==> !occurs_at(s@, p@, k),
        decreases last - i,
    {
        if matches_at(&x, &y, i) {
            assert(occurs_at(s@, p@, i as int));
            return true;
        }
        if i == last {
            assert forall|k: int| !occurs_at(s@, p@, k) by {
                if 0 <= k && k + p@.len() <= s@.len() {
                    assert(k <= i);
                }
            }
            return false;
        }
        i = i + 1;
    }
}

/// Whether the character `c` occurs in `s`.
pub fn contains_char(s: &str, c: char) -> (r: bool)
    ensures
        r == s@.contains(c),
{
    let x = chars_of(s);
    let mut i: usize = 0;
    while i < x.len()
        invariant
            x@ == s@,
            i <= x@.len(),
            forall|k: int| 0 <= k < i ==> x@[k] != c,
        decreases x@.len() - i,
    {
        if x[i] == c {
            return true;
        }
        i = i + 1;
    }
    false
}

/// The elements of `list` with `sep` between consecutive ones (`[String]::join`).
pub fn join(list: &Vec<String>, sep: &str) -> (r: String)
    ensures
        r@ == seq_join(views(list@), sep@),
{
    let mut r = String::new();
    let mut i: usize = 0;
    while i < list.len()
        invariant
            i <= list@.len(),
            r@ == seq_join(views(list@.take(i as int)), sep@),
        decreases list@.len() - i,
    {
        proof {
            let next = views(list@.take(i + 1));
            assert(next.drop_last() =~= views(list@.take(i as int)));
            assert(next.last() == list@[i as int]@);
            if i == 0 {
                assert(next =~= seq![list@[0]@]);
            }
        }
        if i != 0 {
            r.append(sep);
        }
        r.append(list[i].as_str());
        i = i + 1;
    }
    assert(list@.take(list@.len() as int) =~= list@);
    r
}

/// The numeral of `n` in `base` (2 to 16), lower-case digits, as `{}` and `{:x}` print it.
pub fn numeral_text(n: u128, base: u128) -> (r: String)
    requires
        2 <= base <= 16,
    ensures
        r@ == numeral(n as nat, base as nat),
    decreases n,
{
    if n < base {
        let mut r = String::new();
        push_char(&mut r, digit(n));
        r
    } else {
        assert(n / base < n) by (nonlinear_arith)
            requires
                base >= 2,
                n >= base,
        ;
        let mut r = numeral_text(n / base, base);
        push_char(&mut r, digit(n % base));
        r
    }
}

/// The digit character of `d`.
fn digit(d: u128) -> (c: char)
    requires
        d < 16,
    ensures
        c == digit_char(d as nat),
{
    if d < 10 {
        ((d + 48) as u8) as char
    } else {
        ((d - 10 + 97) as u8) as char
    }
}

/// The lines of `s`, as `str::lines` yields them.
pub fn lines(s: &str) -> (r: Vec<String>)
    ensures
        views(r@) == lines_of(s@),
{
    let cs = chars_of(s);
    let mut acc: Vec<String> = Vec::new();
    let mut start: usize = 0;
    let mut i: usize = 0;
    assert(cs@.skip(0) =~= cs@);
    assert(cs@.subrange(0, 0) =~= Seq::<char>::empty());
    assert(views(acc@) =~= Seq::<Seq<char>>::empty());
    while i < cs.len()
        invariant
            cs@ == s@,
            start <= i <= cs@.len(),
            forall|k: int| start <= k < i ==> cs@[k] != '\n',
            lines_of(s@) == lines_scan(cs@.skip(i as int), cs@.subrange(start as int, i as int), views(acc@)),
        decreases cs@.len() - i,
    {
        let ghost rest = cs@.skip(i as int);
        assert(rest[0] == cs@[i as int]);
        assert(rest.drop_first() =~= cs@.skip(i + 1));
        if cs[i] == '\n' {
            let mut end: usize = i;
            if end > start && cs[end - 1] == '\r' {
                end = end - 1;
            }
            let line = string_of_range(&cs, start, end);
            proof {
                let cur = cs@.subrange(start as int, i as int);
                assert(line@ == strip_cr(cur)) by {
                    if cur.len() > 0 && cur.last() == '\r' {
                        assert(cur.drop_last() =~= cs@.subrange(start as int, end as int));
                    } else {
                        assert(cur =~= cs@.subrange(start as int, end as int));
                    }
                }
                assert(views(acc@.push(line)) =~= views(acc@).push(line@));
                assert(cs@.subrange((i + 1) as int, (i + 1) as int) =~= Seq::<char>::empty());
            }
            acc.push(line);
            i = i + 1;
            start = i;
        } else {
            assert(cs@.subrange(start as int, i + 1) =~= cs@.subrange(start as int, i as int).push(
                cs@[i as int],
            ));
            i = i + 1;
        }
    }
    assert(cs@.skip(i as int) =~= Seq::<char>::empty());
    if start < i {
        let line = string_of_range(&cs, start, i);
        assert(views(acc@.push(line)) =~= views(acc@).push(line@));
        acc.push(line);
    }
    acc
}

/// The pieces of `s` between occurrences of `c` (`str::split` with a `char`).
pub fn split_char(s: &str, c: char) -> (r: Vec<String>)
    ensures
        views(r@) == split_on(s@, c),
{
    let cs = chars_of(s);
    let mut acc: Vec<String> = Vec::new();
    let mut start: usize = 0;
    let mut i: usize = 0;
    assert(cs@.skip(0) =~= cs@);
    assert(cs@.subrange(0, 0) =~= Seq::<char>::empty());
    assert(views(acc@) =~= Seq::<Seq<char>>::empty());
    while i < cs.len()
        invariant
            cs@ == s@,
            start <= i <= cs@.len(),
            split_on(s@, c) == split_scan(cs@.skip(i as int), c, cs@.subrange(start as int, i as int), views(acc@)),
        decreases cs@.len() - i,
    {
        let ghost rest = cs@.skip(i as int);
        assert(rest[0] == cs@[i as int]);
        assert(rest.drop_first() =~= cs@.skip(i + 1));
        if cs[i] == c {
            let piece = string_of_range(&cs, start, i);
            assert(views(acc@.push(piece)) =~= views(acc@).push(piece@));
            assert(cs@.subrange((i + 1) as int, (i + 1) as int) =~= Seq::<char>::empty());
            acc.push(piece);
            i = i + 1;
            start = i;
        } else {
            assert(cs@.subrange(start as int, i + 1) =~= cs@.subrange(start as int, i as int).push(
                cs@[i as int],
            ));
            i = i + 1;
        }
    }
    assert(cs@.skip(i as int) =~= Seq::<char>::empty());
    let piece = string_of_range(&cs, start, i);
    assert(views(acc@.push(piece)) =~= views(acc@).push(piece@));
    acc.push(piece);
    acc
}

/// The first `n` characters of `s` (all of them when it has fewer).
pub fn take_chars(s: &str, n: usize) -> (r: String)
    ensures
        r@ == s@.take(if n < s@.len() { n as int } else { s@.len() as int }),
{
    let cs = chars_of(s);
    let k: usize = if n < cs.len() { n } else { cs.len() };
    string_of_range(&cs, 0, k)
}

} // verus!
