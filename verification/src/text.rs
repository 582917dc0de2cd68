//! Text: white space, trimming, searching, joining and decimal numerals.

use vstd::prelude::*;
use vstd::string::*;

verus! {

broadcast use group_string_axioms;

/// Whether `c` has the Unicode property White_Space.
pub open spec fn white_space(c: char) -> bool {
    ||| '\u{9}' <= c <= '\u{d}'
    ||| c == '\u{20}'
    ||| c == '\u{85}'
    ||| c == '\u{a0}'
    ||| c == '\u{1680}'
    ||| '\u{2000}' <= c <= '\u{200a}'
    ||| c == '\u{2028}'
    ||| c == '\u{2029}'
    ||| c == '\u{202f}'
    ||| c == '\u{205f}'
    ||| c == '\u{3000}'
}

/// A text of white space only; the empty text is one.
pub open spec fn blank(s: Seq<char>) -> bool {
    forall|i: int| 0 <= i < s.len() ==> white_space(#[trigger] s[i])
}

/// `s` without its leading white space.
pub open spec fn trimmed_start(s: Seq<char>) -> Seq<char>
    decreases s.len(),
{
    if s.len() > 0 && white_space(s.first()) {
        trimmed_start(s.drop_first())
    } else {
        s
    }
}

/// `s` without its trailing white space.
pub open spec fn trimmed_end(s: Seq<char>) -> Seq<char>
    decreases s.len(),
{
    if s.len() > 0 && white_space(s.last()) {
        trimmed_end(s.drop_last())
    } else {
        s
    }
}

/// `s` without white space at either end.
pub open spec fn trimmed(s: Seq<char>) -> Seq<char> {
    trimmed_end(trimmed_start(s))
}

/// Whether `needle` stands somewhere in `hay`.
pub open spec fn occurs(needle: Seq<char>, hay: Seq<char>) -> bool {
    exists|i: int| #[trigger] occurs_at(needle, hay, i)
}

/// Whether `needle` stands in `hay` from position `i` on.
pub open spec fn occurs_at(needle: Seq<char>, hay: Seq<char>, i: int) -> bool {
    &&& 0 <= i <= hay.len() - needle.len()
    &&& hay.subrange(i, i + needle.len()) == needle
}

/// Whether `a` comes before `b` in the order of their first characters that differ.
pub open spec fn text_less(a: Seq<char>, b: Seq<char>) -> bool
    decreases a.len(),
{
    if b.len() == 0 {
        false
    } else if a.len() == 0 {
        true
    } else if a.first() != b.first() {
        a.first() < b.first()
    } else {
        text_less(a.drop_first(), b.drop_first())
    }
}

/// The decimal digit for `d`, for `d` under ten.
pub open spec fn digit(d: nat) -> char {
    if d == 0 {
        '0'
    } else if d == 1 {
        '1'
    } else if d == 2 {
        '2'
    } else if d == 3 {
        '3'
    } else if d == 4 {
        '4'
    } else if d == 5 {
        '5'
    } else if d == 6 {
        '6'
    } else if d == 7 {
        '7'
    } else if d == 8 {
        '8'
    } else {
        '9'
    }
}

/// The decimal numeral of `n`, without leading zeros.
pub open spec fn decimal(n: nat) -> Seq<char>
    decreases n,
{
    if n < 10 {
        seq![digit(n)]
    } else {
        decimal(n / 10).push(digit(n % 10))
    }
}

/// The decimal numeral of `n`, with a sign where `n` is negative.
pub open spec fn signed_decimal(n: int) -> Seq<char> {
    if n < 0 {
        "-"@ + decimal((-n) as nat)
    } else {
        decimal(n as nat)
    }
}

/// The texts of `parts` in order, with `separator` between each two.
pub open spec fn joined(parts: Seq<Seq<char>>, separator: Seq<char>) -> Seq<char>
    decreases parts.len(),
{
    if parts.len() == 0 {
        Seq::empty()
    } else if parts.len() == 1 {
        parts[0]
    } else {
        joined(parts.drop_last(), separator) + separator + parts.last()
    }
}

/// The views of some strings.
pub open spec fn views(strings: Seq<String>) -> Seq<Seq<char>> {
    strings.map_values(|s: String| s@)
}

/// The view of an optional string.
pub open spec fn optional_view(s: Option<String>) -> Option<Seq<char>> {
    match s {
        Some(s) => Some(s@),
        None => None,
    }
}

/// Whether `c` has the Unicode property White_Space.
pub fn is_white_space(c: char) -> (r: bool)
    ensures
        r == white_space(c),
{
    ('\u{9}' <= c && c <= '\u{d}') || c == '\u{20}' || c == '\u{85}' || c == '\u{a0}' || c
        == '\u{1680}' || ('\u{2000}' <= c && c <= '\u{200a}') || c == '\u{2028}' || c == '\u{2029}'
        || c == '\u{202f}' || c == '\u{205f}' || c == '\u{3000}'
}

/// A copy of an optional string.
pub fn copy_optional(s: &Option<String>) -> (r: Option<String>)
    ensures
        r == *s,
{
    match s {
        Some(s) => Some(s.clone()),
        None => None,
    }
}

/// The characters of `s`.
pub fn characters(s: &str) -> (r: Vec<char>)
    ensures
        r@ == s@,
{
    let mut r: Vec<char> = Vec::new();
    for c in it: s.chars()
        invariant
            it.seq() == s@,
            r@ == s@.take(it.index() as int),
    {
        r.push(c);
        assert(s@.take(it.index() + 1) =~= s@.take(it.index() as int).push(c));
    }
    assert(s@.take(s@.len() as int) =~= s@);
    r
}

/// Whether `s` holds white space only.
pub fn is_blank(s: &str) -> (r: bool)
    ensures
        r == blank(s@),
{
    for c in it: s.chars()
        invariant
            it.seq() == s@,
            forall|i: int| 0 <= i < it.index() ==> white_space(#[trigger] s@[i]),
    {
        if !is_white_space(c) {
            assert(!white_space(s@[it.index() as int]));
            return false;
        }
    }
    true
}

/// A text trimmed at its start is the rest from its first character that is no white space.
proof fn lemma_trimmed_start(s: Seq<char>, from: int)
    requires
        0 <= from <= s.len(),
        blank(s.take(from)),
        from < s.len() ==> !white_space(s[from]),
    ensures
        trimmed_start(s) == s.skip(from),
    decreases from,
{
    if from == 0 {
        assert(s.skip(0) =~= s);
    } else {
        assert(s.take(from)[0] == s[0]);
        let t = s.drop_first();
        assert forall|i: int| 0 <= i < from - 1 implies white_space(#[trigger] t.take(from - 1)[i]) by {
            assert(t.take(from - 1)[i] == s.take(from)[i + 1]);
        }
        lemma_trimmed_start(t, from - 1);
        assert(t.skip(from - 1) =~= s.skip(from));
    }
}

/// A text trimmed at its end is what stands up to its last character that is no white space.
proof fn lemma_trimmed_end(s: Seq<char>, to: int)
    requires
        0 <= to <= s.len(),
        blank(s.skip(to)),
        to > 0 ==> !white_space(s[to - 1]),
    ensures
        trimmed_end(s) == s.take(to),
    decreases s.len(),
{
    if to == s.len() {
        assert(s.take(to) =~= s);
    } else {
        assert(s.skip(to)[s.len() - to - 1] == s.last());
        let t = s.drop_last();
        assert forall|i: int| 0 <= i < t.len() - to implies white_space(#[trigger] t.skip(to)[i]) by {
            assert(t.skip(to)[i] == s.skip(to)[i]);
        }
        lemma_trimmed_end(t, to);
        assert(t.take(to) =~= s.take(to));
    }
}

/// The number of white space characters that `s` starts with.
spec fn leading(s: Seq<char>) -> int
    decreases s.len(),
{
    if s.len() > 0 && white_space(s.first()) {
        1 + leading(s.drop_first())
    } else {
        0
    }
}

proof fn lemma_leading(s: Seq<char>)
    ensures
        0 <= leading(s) <= s.len(),
        blank(s.take(leading(s))),
        leading(s) < s.len() ==> !white_space(s[leading(s)]),
    decreases s.len(),
{
    if s.len() > 0 && white_space(s.first()) {
        let t = s.drop_first();
        lemma_leading(t);
        assert forall|i: int| 0 <= i < leading(s) implies white_space(
            #[trigger] s.take(leading(s))[i],
        ) by {
            if i > 0 {
                assert(s.take(leading(s))[i] == t.take(leading(t))[i - 1]);
            }
        }
    }
}

proof fn lemma_trimmed_end_keeps(s: Seq<char>, i: int)
    requires
        0 <= i < s.len(),
        !white_space(s[i]),
    ensures
        i < trimmed_end(s).len() <= s.len(),
        trimmed_end(s)[i] == s[i],
    decreases s.len(),
{
    if white_space(s.last()) {
        lemma_trimmed_end_keeps(s.drop_last(), i);
    }
}

/// Trimming a text leaves nothing exactly where the text is blank.
pub proof fn law_blank_trims_to_nothing(s: Seq<char>)
    ensures
        blank(s) <==> trimmed(s).len() == 0,
{
    lemma_leading(s);
    let n = leading(s);
    lemma_trimmed_start(s, n);
    if blank(s) {
        if n < s.len() {
            assert(white_space(s[n]));
        }
    } else {
        if n == s.len() {
            assert(s.take(n) =~= s);
        }
        assert(s.skip(n)[0] == s[n]);
        lemma_trimmed_end_keeps(s.skip(n), 0);
    }
}

/// `s` without white space at either end.
pub fn trim(s: &str) -> (r: &str)
    ensures
        r@ == trimmed(s@),
{
    let all: Vec<char> = characters(s);
    let mut from: usize = 0;
    while from < all.len() && is_white_space(all[from])
        invariant
            all@ == s@,
            from <= all.len(),
            blank(s@.take(from as int)),
        decreases all.len() - from,
    {
        proof {
            assert forall|i: int| 0 <= i < from + 1 implies white_space(
                #[trigger] s@.take(from + 1)[i],
            ) by {
                if i < from {
                    assert(s@.take(from + 1)[i] == s@.take(from as int)[i]);
                }
            }
        }
        from += 1;
    }
    let mut to: usize = all.len();
    assert(blank(s@.skip(to as int)));
    while to > from && is_white_space(all[to - 1])
        invariant
            all@ == s@,
            from <= to <= all.len(),
            blank(s@.skip(to as int)),
        decreases to,
    {
        proof {
            assert forall|i: int| 0 <= i < s@.len() - to + 1 implies white_space(
                #[trigger] s@.skip(to - 1)[i],
            ) by {
                if i > 0 {
                    assert(s@.skip(to - 1)[i] == s@.skip(to as int)[i - 1]);
                }
            }
        }
        to -= 1;
    }
    proof {
        lemma_trimmed_start(s@, from as int);
        let t = s@.skip(from as int);
        let n = to - from;
        assert(t.skip(n) =~= s@.skip(to as int));
        lemma_trimmed_end(t, n);
        assert(t.take(n) =~= s@.subrange(from as int, to as int));
    }
    s.substring_char(from, to)
}

/// Whether `needle` stands somewhere in `hay`.
pub fn contains(hay: &str, needle: &str) -> (r: bool)
    ensures
        r == occurs(needle@, hay@),
{
    let h: Vec<char> = characters(hay);
    let n: Vec<char> = characters(needle);
    if n.len() > h.len() {
        assert forall|i: int| !#[trigger] occurs_at(needle@, hay@, i) by {}
        return false;
    }
    let last: usize = h.len() - n.len();
    let mut i: usize = 0;
    while i <= last
        invariant
            h@ == hay@,
            n@ == needle@,
            last == h.len() - n.len(),
            i <= last + 1,
            forall|k: int| k < i ==> !#[trigger] occurs_at(needle@, hay@, k),
        decreases last + 1 - i,
    {
        let mut j: usize = 0;
        while j < n.len() && h[i + j] == n[j]
            invariant
                h@ == hay@,
                n@ == needle@,
                last == h.len() - n.len(),
                i <= last,
                j <= n.len(),
                forall|k: int| 0 <= k < j ==> h@[i + k] == #[trigger] n@[k],
            decreases n.len() - j,
        {
            j += 1;
        }
        if j == n.len() {
            assert(hay@.subrange(i as int, i + needle@.len()) =~= needle@);
            assert(occurs_at(needle@, hay@, i as int));
            return true;
        }
        proof {
            if occurs_at(needle@, hay@, i as int) {
                assert(hay@.subrange(i as int, i + needle@.len())[j as int] == needle@[j as int]);
            }
        }
        if i == last {
            assert forall|k: int| !#[trigger] occurs_at(needle@, hay@, k) by {}
            return false;
        }
        i += 1;
    }
    false
}

/// The decimal digit for `d`.
fn digit_text(d: u64) -> (r: &'static str)
    requires
        d < 10,
    ensures
        r@ == seq![digit(d as nat)],
{
    proof {
        reveal_strlit("0");
        reveal_strlit("1");
        reveal_strlit("2");
        reveal_strlit("3");
        reveal_strlit("4");
        reveal_strlit("5");
        reveal_strlit("6");
        reveal_strlit("7");
        reveal_strlit("8");
        reveal_strlit("9");
    }
    let r: &'static str = match d {
        0 => "0",
        1 => "1",
        2 => "2",
        3 => "3",
        4 => "4",
        5 => "5",
        6 => "6",
        7 => "7",
        8 => "8",
        _ => "9",
    };
    assert(r@ =~= seq![digit(d as nat)]);
    r
}

/// The decimal numeral of `n`.
pub fn decimal_text(n: u64) -> (r: String)
    ensures
        r@ == decimal(n as nat),
    decreases n,
{
    if n < 10 {
        digit_text(n).to_owned()
    } else {
        let mut r: String = decimal_text(n / 10);
        r.append(digit_text(n % 10));
        assert(decimal((n / 10) as nat) + seq![digit((n % 10) as nat)] =~= decimal(
            (n / 10) as nat,
        ).push(digit((n % 10) as nat)));
        r
    }
}

/// The decimal numeral of `n`, with a sign where `n` is negative.
pub fn signed_decimal_text(n: i64) -> (r: String)
    ensures
        r@ == signed_decimal(n as int),
{
    if n < 0 {
        let magnitude: u64 = (-(n as i128)) as u64;
        "-".to_owned().concat(decimal_text(magnitude).as_str())
    } else {
        decimal_text(n as u64)
    }
}

/// The texts of `parts` in order, with `separator` between each two.
pub fn join(parts: &Vec<String>, separator: &str) -> (r: String)
    ensures
        r@ == joined(views(parts@), separator@),
{
    let mut r: String = String::new();
    let mut i: usize = 0;
    assert(views(parts@).take(0) =~= Seq::<Seq<char>>::empty());
    while i < parts.len()
        invariant
            i <= parts.len(),
            r@ == joined(views(parts@).take(i as int), separator@),
        decreases parts.len() - i,
    {
        let ghost before = views(parts@).take(i as int);
        let ghost after = views(parts@).take(i + 1);
        assert(after.drop_last() =~= before);
        assert(after.last() == parts@[i as int]@);
        if i > 0 {
            r.append(separator);
        } else {
            assert(Seq::<char>::empty() + parts@[0]@ =~= parts@[0]@);
        }
        r.append(parts[i].as_str());
        i += 1;
    }
    assert(views(parts@).take(parts@.len() as int) =~= views(parts@));
    r
}

/// Whether `a` comes before `b`.
pub fn text_precedes(a: &str, b: &str) -> (r: bool)
    ensures
        r == text_less(a@, b@),
{
    let x: Vec<char> = characters(a);
    let y: Vec<char> = characters(b);
    let mut i: usize = 0;
    assert(a@.skip(0) =~= a@);
    assert(b@.skip(0) =~= b@);
    while i < x.len() && i < y.len()
        invariant
            x@ == a@,
            y@ == b@,
            i <= x@.len(),
            i <= y@.len(),
            text_less(a@, b@) == text_less(a@.skip(i as int), b@.skip(i as int)),
        decreases x@.len() - i,
    {
        assert(a@.skip(i as int).first() == x@[i as int]);
        assert(b@.skip(i as int).first() == y@[i as int]);
        if x[i] != y[i] {
            return x[i] < y[i];
        }
        assert(a@.skip(i as int).drop_first() =~= a@.skip(i + 1));
        assert(b@.skip(i as int).drop_first() =~= b@.skip(i + 1));
        i += 1;
    }
    i < y.len()
}

/// Texts are totally ordered.
pub proof fn law_text_order_is_total(a: Seq<char>, b: Seq<char>, c: Seq<char>)
    ensures
        !text_less(a, a),
        text_less(a, b) ==> !text_less(b, a),
        text_less(a, b) || text_less(b, a) || a == b,
        text_less(a, b) && text_less(b, c) ==> text_less(a, c),
    decreases a.len(),
{
    if a.len() > 0 {
        law_text_order_is_total(a.drop_first(), b.drop_first(), c.drop_first());
        if b.len() > 0 && a.first() == b.first() && a.drop_first() == b.drop_first() {
            assert(a =~= seq![a.first()] + a.drop_first());
            assert(b =~= seq![b.first()] + b.drop_first());
        }
    } else if b.len() == 0 {
        assert(a =~= b);
    }
}

/// Blank is what holds no character but white space.
pub proof fn law_blank_is_white_space_only(s: Seq<char>)
    ensures
        blank(s) <==> !exists|i: int| 0 <= i < s.len() && !white_space(#[trigger] s[i]),
        s.len() == 0 ==> blank(s),
{
}

/// A trimmed text is a stretch of the text with nothing but white space before and behind it, and
/// it neither begins nor ends with white space.
pub proof fn law_trimming_takes_white_space_off_the_ends(s: Seq<char>)
    ensures
        exists|from: int, to: int|
            0 <= from <= to <= s.len() && #[trigger] s.subrange(from, to) == trimmed(s) && (forall|
                i: int,
            |
                0 <= i < from || to <= i < s.len() ==> white_space(#[trigger] s[i])),
        trimmed(s).len() > 0 ==> !white_space(trimmed(s).first()) && !white_space(
            trimmed(s).last(),
        ),
{
    let n = lemma_trimmed_start_splits(s);
    let t = trimmed_start(s);
    let m = lemma_trimmed_end_splits(t);
    assert(s.subrange(n, n + m) =~= trimmed(s));
    assert forall|i: int| 0 <= i < n || n + m <= i < s.len() implies white_space(
        #[trigger] s[i],
    ) by {
        if i >= n + m {
            assert(t[i - n] == s[i]);
        }
    }
    if trimmed(s).len() > 0 {
        assert(trimmed(s).first() == t.first());
    }
}

proof fn lemma_trimmed_start_splits(s: Seq<char>) -> (n: int)
    ensures
        0 <= n <= s.len(),
        trimmed_start(s) == s.skip(n),
        forall|i: int| 0 <= i < n ==> white_space(#[trigger] s[i]),
        n < s.len() ==> !white_space(s[n]),
    decreases s.len(),
{
    if s.len() > 0 && white_space(s.first()) {
        let rest = s.drop_first();
        let m = lemma_trimmed_start_splits(rest);
        assert(rest.skip(m) =~= s.skip(m + 1));
        assert forall|i: int| 0 <= i < m + 1 implies white_space(#[trigger] s[i]) by {
            if i > 0 {
                assert(rest[i - 1] == s[i]);
            }
        }
        m + 1
    } else {
        assert(s.skip(0) =~= s);
        0
    }
}

proof fn lemma_trimmed_end_splits(s: Seq<char>) -> (n: int)
    ensures
        0 <= n <= s.len(),
        trimmed_end(s) == s.take(n),
        forall|i: int| n <= i < s.len() ==> white_space(#[trigger] s[i]),
        n > 0 ==> !white_space(s[n - 1]),
    decreases s.len(),
{
    if s.len() > 0 && white_space(s.last()) {
        let rest = s.drop_last();
        let m = lemma_trimmed_end_splits(rest);
        assert(rest.take(m) =~= s.take(m));
        assert forall|i: int| m <= i < s.len() implies white_space(#[trigger] s[i]) by {
            if i < rest.len() {
                assert(rest[i] == s[i]);
            }
        }
        m
    } else {
        assert(s.take(s.len() as int) =~= s);
        s.len() as int
    }
}

/// A text occurs in another exactly where it is a stretch of it.
pub proof fn law_occurring_is_being_a_stretch(needle: Seq<char>, hay: Seq<char>)
    ensures
        occurs(needle, hay) <==> exists|from: int, to: int|
            0 <= from <= to <= hay.len() && #[trigger] hay.subrange(from, to) == needle,
        occurs(needle, hay) ==> needle.len() <= hay.len(),
{
    if occurs(needle, hay) {
        let i = choose|i: int| #[trigger] occurs_at(needle, hay, i);
        assert(hay.subrange(i, i + needle.len()) == needle);
    }
    if exists|from: int, to: int|
        0 <= from <= to <= hay.len() && #[trigger] hay.subrange(from, to) == needle {
        let (from, to) = choose|from: int, to: int|
            0 <= from <= to <= hay.len() && #[trigger] hay.subrange(from, to) == needle;
        assert(occurs_at(needle, hay, from));
    }
}

/// A numeral's last character is the digit for the units, and what stands before it is the numeral
/// for the tens; a number under ten has one digit.
pub proof fn law_numeral_stands_for_its_number(n: nat)
    ensures
        decimal(n).len() > 0,
        decimal(n).last() as int == '0' as int + n % 10,
        n < 10 ==> decimal(n).len() == 1,
        n >= 10 ==> decimal(n).drop_last() == decimal(n / 10),
{
    if n >= 10 {
        assert(decimal(n).drop_last() =~= decimal(n / 10));
    }
}

/// A negative number is a minus sign before the numeral of its magnitude.
pub proof fn law_negative_numeral_has_a_sign(n: int)
    ensures
        n >= 0 ==> signed_decimal(n) == decimal(n as nat),
        n < 0 ==> signed_decimal(n) == seq!['-'] + decimal((-n) as nat),
{
    reveal_strlit("-");
    assert("-"@ =~= seq!['-']);
}

/// Joining puts the separator between each two parts, and nothing else.
pub proof fn law_joining_separates_parts(
    parts: Seq<Seq<char>>,
    part: Seq<char>,
    separator: Seq<char>,
)
    ensures
        joined(Seq::empty(), separator).len() == 0,
        joined(seq![part], separator) == part,
        parts.len() > 0 ==> joined(parts.push(part), separator) == joined(parts, separator)
            + separator + part,
{
    assert(parts.push(part).drop_last() =~= parts);
}

/// Of two texts the one comes before the other that is a proper beginning of it, or that has the
/// lesser character where they first differ.
pub proof fn law_text_order_goes_by_the_first_difference(a: Seq<char>, b: Seq<char>, k: int)
    requires
        0 <= k <= a.len(),
        0 <= k <= b.len(),
        forall|i: int| 0 <= i < k ==> #[trigger] a[i] == b[i],
    ensures
        k == a.len() && k < b.len() ==> text_less(a, b),
        k == b.len() ==> !text_less(a, b),
        k < a.len() && k < b.len() && a[k] < b[k] ==> text_less(a, b),
        k < a.len() && k < b.len() && a[k] > b[k] ==> !text_less(a, b),
    decreases k,
{
    if k > 0 {
        let x = a.drop_first();
        let y = b.drop_first();
        assert(a[0] == b[0]);
        assert forall|i: int| 0 <= i < k - 1 implies #[trigger] x[i] == y[i] by {
            assert(a[i + 1] == b[i + 1]);
        }
        law_text_order_goes_by_the_first_difference(x, y, k - 1);
    }
}

/// The views of strings are those of each, in their order.
pub proof fn law_views_show_each_string(strings: Seq<String>, string: Option<String>)
    ensures
        views(strings).len() == strings.len(),
        forall|i: int| 0 <= i < strings.len() ==> #[trigger] views(strings)[i] == strings[i]@,
        optional_view(string) is Some <==> string is Some,
        string matches Some(s) ==> optional_view(string) == Some(s@),
{
}

} // verus!
