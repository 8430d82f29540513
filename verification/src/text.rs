//! Character-level text helpers: splitting a string into characters,
//! escaping of angle brackets, decimal rendering of integers and substring search.
use vstd::prelude::*;
use vstd::string::*;

verus! {

/// Appends one character to a string (`String::push`).
#[verifier::external_body]
pub(crate) fn push_char(s: &mut String, c: char)
    ensures
        final(s)@ == old(s)@.push(c),
{
    s.push(c)
}

/// The characters of a string slice, in order.
pub fn chars_of(s: &str) -> (r: Vec<char>)
    ensures
        r@ == s@,
{
    let mut out: Vec<char> = Vec::new();
    for c in it: s.chars()
        invariant
            out@ == it.seq().take(it.index() as int),
    {
        out.push(c);
    }
    out
}

// ---------------------------------------------------------------------------
// Escaping of angle brackets
// ---------------------------------------------------------------------------

/// The entity that stands for `<`.
pub open spec fn lt_entity() -> Seq<char> {
    seq!['&', 'l', 't', ';']
}

/// The entity that stands for `>`.
pub open spec fn gt_entity() -> Seq<char> {
    seq!['&', 'g', 't', ';']
}

/// Every occurrence of the character `c` in `s` replaced by `by`.
pub open spec fn replace_char(s: Seq<char>, c: char, by: Seq<char>) -> Seq<char>
    decreases s.len(),
{
    if s.len() == 0 {
        Seq::<char>::empty()
    } else {
        replace_char(s.drop_last(), c, by) + (if s.last() == c {
            by
        } else {
            seq![s.last()]
        })
    }
}

/// What one character becomes when angle brackets are escaped.
pub open spec fn escape_char(c: char) -> Seq<char> {
    if c == '<' {
        lt_entity()
    } else if c == '>' {
        gt_entity()
    } else {
        seq![c]
    }
}

/// The text with `<` written as `&lt;` and `>` written as `&gt;`; every other character
/// is kept as it is.
pub open spec fn escape_text(s: Seq<char>) -> Seq<char>
    decreases s.len(),
{
    if s.len() == 0 {
        Seq::<char>::empty()
    } else {
        escape_text(s.drop_last()) + escape_char(s.last())
    }
}

proof fn lemma_replace_char_concat(a: Seq<char>, b: Seq<char>, c: char, by: Seq<char>)
    ensures
        replace_char(a + b, c, by) == replace_char(a, c, by) + replace_char(b, c, by),
    decreases b.len(),
{
    if b.len() == 0 {
        assert(a + b =~= a);
        assert(replace_char(a, c, by) + replace_char(b, c, by) =~= replace_char(a, c, by));
    } else {
        assert((a + b).drop_last() =~= a + b.drop_last());
        assert((a + b).last() == b.last());
        lemma_replace_char_concat(a, b.drop_last(), c, by);
        let tail = if b.last() == c { by } else { seq![b.last()] };
        assert(replace_char(a, c, by) + replace_char(b.drop_last(), c, by) + tail
            =~= replace_char(a, c, by) + (replace_char(b.drop_last(), c, by) + tail));
    }
}

/// Escaping one character at a time gives the same text as replacing every `<` by `&lt;`
/// and then every `>` by `&gt;`.
pub proof fn lemma_escape_is_two_replacements(s: Seq<char>)
    ensures
        escape_text(s) == replace_char(replace_char(s, '<', lt_entity()), '>', gt_entity()),
    decreases s.len(),
{
    if s.len() > 0 {
        lemma_escape_is_two_replacements(s.drop_last());
        let x = s.last();
        let first = replace_char(s.drop_last(), '<', lt_entity());
        let piece = if x == '<' { lt_entity() } else { seq![x] };
        lemma_replace_char_concat(first, piece, '>', gt_entity());
        if x == '<' {
            let l = lt_entity();
            assert(l.drop_last().drop_last().drop_last().drop_last() =~= Seq::<char>::empty());
            assert(replace_char(l, '>', gt_entity()) =~= l) by {
                reveal_with_fuel(replace_char, 5);
            }
        } else {
            assert(seq![x].drop_last() =~= Seq::<char>::empty());
            assert(replace_char(seq![x], '>', gt_entity()) =~= escape_char(x)) by {
                reveal_with_fuel(replace_char, 2);
            }
        }
    }
}

/// Escaped text holds no angle bracket.
pub proof fn lemma_escape_has_no_angle_brackets(s: Seq<char>)
    ensures
        forall|i: int|
            0 <= i < escape_text(s).len() ==> #[trigger] escape_text(s)[i] != '<' && escape_text(
                s,
            )[i] != '>',
    decreases s.len(),
{
    if s.len() > 0 {
        lemma_escape_has_no_angle_brackets(s.drop_last());
        let a = escape_text(s.drop_last());
        let b = escape_char(s.last());
        assert forall|i: int| 0 <= i < escape_text(s).len() implies #[trigger] escape_text(s)[i]
            != '<' && escape_text(s)[i] != '>' by {
            if i < a.len() {
                assert(escape_text(s)[i] == a[i]);
            } else {
                assert(escape_text(s)[i] == b[i - a.len()]);
            }
        }
    }
}

/// Appends `s` to `out` with its angle brackets escaped.
pub fn push_escaped(out: &mut String, s: &str)
    ensures
        final(out)@ == old(out)@ + escape_text(s@),
{
    let chars = chars_of(s);
    let n = chars.len();
    let ghost start = out@;
    assert(chars@.take(0) =~= Seq::<char>::empty());
    for i in 0..n
        invariant
            n == chars@.len(),
            chars@ == s@,
            out@ == start + escape_text(chars@.take(i as int)),
    {
        let c = chars[i];
        assert(chars@.take(i + 1).drop_last() =~= chars@.take(i as int));
        assert(chars@.take(i + 1).last() == c);
        if c == '<' {
            proof {
                reveal_strlit("&lt;");
            }
            out.append("&lt;");
            assert("&lt;"@ =~= lt_entity());
        } else if c == '>' {
            proof {
                reveal_strlit("&gt;");
            }
            out.append("&gt;");
            assert("&gt;"@ =~= gt_entity());
        } else {
            push_char(out, c);
        }
        assert(out@ =~= start + escape_text(chars@.take(i + 1)));
    }
    assert(chars@.take(n as int) =~= chars@);
}

/// The text with its angle brackets escaped, as a new string.
pub fn escape_angle_brackets(s: &str) -> (r: String)
    ensures
        r@ == escape_text(s@),
{
    let mut out = String::new();
    push_escaped(&mut out, s);
    out
}

// ---------------------------------------------------------------------------
// Decimal rendering
// ---------------------------------------------------------------------------

/// The character of a decimal digit.
pub open spec fn digit_char(d: nat) -> char {
    if d == 0 {
        '0'
    } else if d == 1 {
        '1'
    } else if d == 2 {
        '2'
    } else if d == 3 {
        '3'
    } else if d == 4 {
        '4'
    } else if d == 5 {
        '5'
    } else if d == 6 {
        '6'
    } else if d == 7 {
        '7'
    } else if d == 8 {
        '8'
    } else {
        '9'
    }
}

/// The decimal digits of a natural number, most significant first, without leading zeros.
pub open spec fn decimal_digits(n: nat) -> Seq<char>
    decreases n,
{
    if n < 10 {
        seq![digit_char(n)]
    } else {
        decimal_digits(n / 10).push(digit_char(n % 10))
    }
}

/// The decimal rendering of an integer: its digits, after a minus sign when it is negative.
pub open spec fn decimal_text(i: int) -> Seq<char> {
    if i < 0 {
        seq!['-'] + decimal_digits((-i) as nat)
    } else {
        decimal_digits(i as nat)
    }
}

fn digit(d: u64) -> (c: char)
    requires
        d < 10,
    ensures
        c == digit_char(d as nat),
{
    if d == 0 {
        '0'
    } else if d == 1 {
        '1'
    } else if d == 2 {
        '2'
    } else if d == 3 {
        '3'
    } else if d == 4 {
        '4'
    } else if d == 5 {
        '5'
    } else if d == 6 {
        '6'
    } else if d == 7 {
        '7'
    } else if d == 8 {
        '8'
    } else {
        '9'
    }
}

fn push_digits(out: &mut String, n: u64)
    ensures
        final(out)@ == old(out)@ + decimal_digits(n as nat),
    decreases n,
{
    if n >= 10 {
        push_digits(out, n / 10);
    }
    push_char(out, digit(n % 10));
    proof {
        if n >= 10 {
            assert(decimal_digits(n as nat) == decimal_digits((n / 10) as nat).push(
                digit_char((n % 10) as nat),
            ));
        }
    }
    assert(out@ =~= old(out)@ + decimal_digits(n as nat));
}

/// Appends the decimal rendering of `i` to `out`.
pub fn push_decimal(out: &mut String, i: i64)
    ensures
        final(out)@ == old(out)@ + decimal_text(i as int),
{
    if i < 0 {
        push_char(out, '-');
        let magnitude: u64 = if i == i64::MIN {
            9223372036854775808u64
        } else {
            (-i) as u64
        };
        push_digits(out, magnitude);
        assert(out@ =~= old(out)@ + decimal_text(i as int));
    } else {
        push_digits(out, i as u64);
    }
}

/// The decimal rendering of `i` as a new string.
pub fn decimal_string(i: i64) -> (r: String)
    ensures
        r@ == decimal_text(i as int),
{
    let mut out = String::new();
    push_decimal(&mut out, i);
    out
}

// ---------------------------------------------------------------------------
// Substring search
// ---------------------------------------------------------------------------

/// `pat` occurs in `text` starting at position `i`.
pub open spec fn occurs_at(text: Seq<char>, pat: Seq<char>, i: int) -> bool {
    0 <= i && i + pat.len() <= text.len() && text.subrange(i, i + pat.len()) == pat
}

/// `pat` occurs somewhere in `text` (the empty pattern occurs in every text).
pub open spec fn contains_text(text: Seq<char>, pat: Seq<char>) -> bool {
    exists|i: int| occurs_at(text, pat, i)
}

/// Whether `pat` occurs in `text`.
pub fn contains_str(text: &str, pat: &str) -> (r: bool)
    ensures
        r == contains_text(text@, pat@),
{
    let t = chars_of(text);
    let p = chars_of(pat);
    let n = t.len();
    let m = p.len();
    if m > n {
        assert forall|i: int| !occurs_at(text@, pat@, i) by {}
        return false;
    }
    let mut i: usize = 0;
    while i <= n - m
        invariant
            t@ == text@,
            p@ == pat@,
            n == t@.len(),
            m == p@.len(),
            m <= n,
            i <= n - m + 1,
            forall|k: int| 0 <= k < i ==> !occurs_at(text@, pat@, k),
        decreases n - m + 1 - i,
    {
        let mut j: usize = 0;
        let mut same = true;
        while j < m
            invariant
                t@ == text@,
                p@ == pat@,
                n == t@.len(),
                m == p@.len(),
                i + m <= n,
                j <= m,
                same ==> forall|l: int| 0 <= l < j ==> t@[i + l] == p@[l],
                !same ==> exists|l: int| 0 <= l < m && t@[i + l] != p@[l],
            decreases m - j,
        {
            if t[i + j] != p[j] {
                same = false;
            }
            j = j + 1;
        }
        if same {
            assert(text@.subrange(i as int, i + m) =~= pat@);
            assert(occurs_at(text@, pat@, i as int));
            return true;
        } else {
            let ghost l = choose|l: int| 0 <= l < m && t@[i + l] != p@[l];
            assert(text@.subrange(i as int, i + m)[l] != pat@[l]);
        }
        i = i + 1;
    }
    assert forall|k: int| !occurs_at(text@, pat@, k) by {
        if 0 <= k < i {
        }
    }
    false
}

} // verus!
