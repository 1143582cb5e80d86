//! Text handling: Unicode whitespace and trimming, the display width of text
//! in the interface, shortening with an ellipsis, and decimal numbers.
use vstd::prelude::*;
use vstd::string::*;

verus! {

/// Unicode `White_Space`, the set that `char::is_whitespace` tests.
pub open spec fn is_whitespace(c: char) -> bool {
    let v = c as u32;
    ||| 0x09 <= v <= 0x0d
    ||| v == 0x20
    ||| v == 0x85
    ||| v == 0xa0
    ||| v == 0x1680
    ||| 0x2000 <= v <= 0x200a
    ||| v == 0x2028
    ||| v == 0x2029
    ||| v == 0x202f
    ||| v == 0x205f
    ||| v == 0x3000
}

/// `s` without its leading whitespace.
pub open spec fn trim_start(s: Seq<char>) -> Seq<char>
    decreases s.len(),
{
    if s.len() > 0 && is_whitespace(s[0]) {
        trim_start(s.drop_first())
    } else {
        s
    }
}

/// `s` without its trailing whitespace.
pub open spec fn trim_end(s: Seq<char>) -> Seq<char>
    decreases s.len(),
{
    if s.len() > 0 && is_whitespace(s.last()) {
        trim_end(s.drop_last())
    } else {
        s
    }
}

/// `s` without leading and trailing whitespace, as `str::trim` gives it.
pub open spec fn trimmed(s: Seq<char>) -> Seq<char> {
    trim_end(trim_start(s))
}

/// Text that holds nothing but whitespace.
pub open spec fn is_blank(s: Seq<char>) -> bool {
    trimmed(s).len() == 0
}

/// Text that neither starts nor ends with whitespace.
pub open spec fn has_no_outer_whitespace(s: Seq<char>) -> bool {
    s.len() > 0 ==> !is_whitespace(s[0]) && !is_whitespace(s.last())
}

pub open spec fn char_width(c: char) -> nat {
    if (c as u32) < 128 {
        1
    } else {
        2
    }
}

/// The number of columns that `s` takes: one per ASCII character, two per
/// other character.
pub open spec fn text_width(s: Seq<char>) -> nat
    decreases s.len(),
{
    if s.len() == 0 {
        0
    } else {
        text_width(s.drop_last()) + char_width(s.last())
    }
}

/// The longest prefix of `s` whose width does not exceed `w`.
pub open spec fn longest_prefix_within(s: Seq<char>, w: nat) -> Seq<char> {
    s.take(prefix_len_within(s, w) as int)
}

pub open spec fn prefix_len_within(s: Seq<char>, w: nat) -> nat
    decreases s.len(),
{
    if s.len() == 0 || char_width(s[0]) > w {
        0
    } else {
        1 + prefix_len_within(s.drop_first(), (w - char_width(s[0])) as nat)
    }
}

/// `value` if it fits in `max_width` columns; otherwise its longest prefix
/// that fits in `max_width - 3` columns (no fewer than zero) followed by "...".
pub open spec fn ellipsized(value: Seq<char>, max_width: nat) -> Seq<char> {
    if text_width(value) <= max_width {
        value
    } else {
        longest_prefix_within(value, if max_width >= 3 { (max_width - 3) as nat } else { 0 })
            + seq!['.', '.', '.']
    }
}

pub open spec fn digit_char(d: int) -> char {
    if d == 0 {
        '0'
    } else if d == 1 {
        '1'
    } else if d == 2 {
        '2'
    } else if d == 3 {
        '3'
    } else if d == 4 {
        '4'
    } else if d == 5 {
        '5'
    } else if d == 6 {
        '6'
    } else if d == 7 {
        '7'
    } else if d == 8 {
        '8'
    } else {
        '9'
    }
}

/// The decimal digits of `n`, without leading zeros.
pub open spec fn decimal(n: nat) -> Seq<char>
    decreases n,
{
    if n < 10 {
        seq![digit_char(n as int)]
    } else {
        decimal(n / 10).push(digit_char((n % 10) as int))
    }
}

/// `n` in decimal, zero-padded on the left to at least `width` digits.
pub open spec fn zero_padded(n: nat, width: nat) -> Seq<char> {
    let digits = decimal(n);
    if digits.len() >= width {
        digits
    } else {
        Seq::new((width - digits.len()) as nat, |i: int| '0') + digits
    }
}

/// A signed integer as `{}` writes it.
pub open spec fn signed_decimal(n: int) -> Seq<char> {
    if n < 0 {
        seq!['-'] + decimal((-n) as nat)
    } else {
        decimal(n as nat)
    }
}

// ---------------------------------------------------------------------------
// Lemmas
// ---------------------------------------------------------------------------

proof fn lemma_trim_start_skip(s: Seq<char>, i: int)
    requires
        0 <= i < s.len(),
        is_whitespace(s[i]),
    ensures
        trim_start(s.subrange(i, s.len() as int)) == trim_start(s.subrange(i + 1, s.len() as int)),
{
    assert(s.subrange(i, s.len() as int).drop_first() =~= s.subrange(i + 1, s.len() as int));
}

proof fn lemma_trim_start_stop(s: Seq<char>)
    requires
        s.len() == 0 || !is_whitespace(s[0]),
    ensures
        trim_start(s) == s,
{
}

proof fn lemma_trim_end_skip(s: Seq<char>, lo: int, hi: int)
    requires
        0 <= lo < hi <= s.len(),
        is_whitespace(s[hi - 1]),
    ensures
        trim_end(s.subrange(lo, hi)) == trim_end(s.subrange(lo, hi - 1)),
{
    assert(s.subrange(lo, hi).drop_last() =~= s.subrange(lo, hi - 1));
}

/// Text without outer whitespace is its own trimmed form.
pub proof fn lemma_trimmed_plain(s: Seq<char>)
    requires
        has_no_outer_whitespace(s),
    ensures
        trimmed(s) == s,
{
}

proof fn lemma_trim_start_result(s: Seq<char>)
    ensures
        trim_start(s).len() == 0 || !is_whitespace(trim_start(s)[0]),
        trim_start(s).len() <= s.len(),
    decreases s.len(),
{
    if s.len() > 0 && is_whitespace(s[0]) {
        lemma_trim_start_result(s.drop_first());
    }
}

proof fn lemma_trim_end_result(s: Seq<char>)
    ensures
        trim_end(s).len() == 0 || !is_whitespace(trim_end(s).last()),
        trim_end(s).len() <= s.len(),
        trim_end(s) == s.take(trim_end(s).len() as int),
    decreases s.len(),
{
    if s.len() > 0 && is_whitespace(s.last()) {
        lemma_trim_end_result(s.drop_last());
        assert(s.drop_last().take(trim_end(s).len() as int) =~= s.take(trim_end(s).len() as int));
    } else {
        assert(s.take(s.len() as int) =~= s);
    }
}

/// Trimming leaves text without outer whitespace, so trimming twice is
/// trimming once.
pub proof fn lemma_trimmed_idempotent(s: Seq<char>)
    ensures
        has_no_outer_whitespace(trimmed(s)),
        trimmed(trimmed(s)) == trimmed(s),
{
    let a = trim_start(s);
    lemma_trim_start_result(s);
    lemma_trim_end_result(a);
    let b = trim_end(a);
    if b.len() > 0 {
        assert(b[0] == a[0]);
    }
    lemma_trimmed_plain(b);
}

proof fn lemma_text_width_prefix(s: Seq<char>, j: int)
    requires
        0 <= j <= s.len(),
    ensures
        text_width(s.take(j)) <= text_width(s),
    decreases s.len(),
{
    if j < s.len() {
        lemma_text_width_prefix(s.drop_last(), j);
        assert(s.drop_last().take(j) =~= s.take(j));
    } else {
        assert(s.take(j) =~= s);
    }
}

proof fn lemma_text_width_push(s: Seq<char>, c: char)
    ensures
        text_width(s.push(c)) == text_width(s) + char_width(c),
{
    assert(s.push(c).drop_last() =~= s);
}

proof fn lemma_prefix_len_bound(s: Seq<char>, w: nat)
    ensures
        prefix_len_within(s, w) <= s.len(),
        text_width(s.take(prefix_len_within(s, w) as int)) <= w,
        prefix_len_within(s, w) < s.len() ==> text_width(s.take(prefix_len_within(s, w) as int))
            + char_width(s[prefix_len_within(s, w) as int]) > w,
    decreases s.len(),
{
    if s.len() == 0 || char_width(s[0]) > w {
        assert(s.take(0) =~= Seq::<char>::empty());
    } else {
        let w2 = (w - char_width(s[0])) as nat;
        let t = s.drop_first();
        lemma_prefix_len_bound(t, w2);
        let k = prefix_len_within(t, w2);
        lemma_width_prepend(s[0], t.take(k as int));
        assert(seq![s[0]] + t.take(k as int) =~= s.take(k + 1 as int));
        if k < t.len() {
            assert(s[k + 1 as int] == t[k as int]);
        }
    }
}

proof fn lemma_width_prepend(c: char, s: Seq<char>)
    ensures
        text_width(seq![c] + s) == char_width(c) + text_width(s),
    decreases s.len(),
{
    if s.len() == 0 {
        assert(seq![c] + s =~= seq![c]);
        assert(seq![c].drop_last() =~= Seq::<char>::empty());
        assert(seq![c].last() == c);
        assert(text_width(Seq::<char>::empty()) == 0);
    } else {
        lemma_width_prepend(c, s.drop_last());
        assert((seq![c] + s).drop_last() =~= seq![c] + s.drop_last());
        assert((seq![c] + s).last() == s.last());
    }
}

/// A shortened text is no wider than the limit when the limit leaves room
/// for the three dots.
pub proof fn lemma_ellipsized_width(value: Seq<char>, max_width: nat)
    requires
        max_width >= 3,
    ensures
        text_width(ellipsized(value, max_width)) <= max_width,
{
    if text_width(value) > max_width {
        let w = (max_width - 3) as nat;
        lemma_prefix_len_bound(value, w);
        let p = longest_prefix_within(value, w);
        lemma_text_width_push(p, '.');
        lemma_text_width_push(p.push('.'), '.');
        lemma_text_width_push(p.push('.').push('.'), '.');
        assert(p + seq!['.', '.', '.'] =~= p.push('.').push('.').push('.'));
    }
}

// ---------------------------------------------------------------------------
// Executable text functions
// ---------------------------------------------------------------------------

/// Appends one character, as `String::push` does.
#[verifier::external_body]
pub(crate) fn push_char(s: &mut String, c: char)
    ensures
        final(s)@ == old(s)@.push(c),
{
    s.push(c);
}

/// Whether `c` is Unicode whitespace.
pub fn char_is_whitespace(c: char) -> (r: bool)
    ensures
        r == is_whitespace(c),
{
    let v = c as u32;
    (0x09 <= v && v <= 0x0d) || v == 0x20 || v == 0x85 || v == 0xa0 || v == 0x1680 || (0x2000
        <= v && v <= 0x200a) || v == 0x2028 || v == 0x2029 || v == 0x202f || v == 0x205f || v
        == 0x3000
}

/// `s` without leading and trailing whitespace.
pub fn trim(s: &str) -> (r: String)
    ensures
        r@ == trimmed(s@),
{
    let n = s.unicode_len();
    let mut lo: usize = 0;
    assert(s@.subrange(0, n as int) =~= s@);
    while lo < n && char_is_whitespace(s.get_char(lo))
        invariant
            n == s@.len(),
            lo <= n,
            trim_start(s@) == trim_start(s@.subrange(lo as int, n as int)),
        decreases n - lo,
    {
        proof {
            lemma_trim_start_skip(s@, lo as int);
        }
        lo = lo + 1;
    }
    proof {
        if lo < n {
            lemma_trim_start_stop(s@.subrange(lo as int, n as int));
        }
    }
    let mut hi: usize = n;
    while hi > lo && char_is_whitespace(s.get_char(hi - 1))
        invariant
            n == s@.len(),
            lo <= hi <= n,
            trimmed(s@) == trim_end(s@.subrange(lo as int, hi as int)),
        decreases hi - lo,
    {
        proof {
            lemma_trim_end_skip(s@, lo as int, hi as int);
        }
        hi = hi - 1;
    }
    let part = s.substring_char(lo, hi);
    part.to_owned()
}

/// Whether `s` holds nothing but whitespace.
pub fn is_blank_text(s: &str) -> (r: bool)
    ensures
        r == is_blank(s@),
{
    let t = trim(s);
    t.as_str().unicode_len() == 0
}

/// Whether two texts are equal, character for character.
pub fn text_equal(a: &str, b: &str) -> (r: bool)
    ensures
        r == (a@ == b@),
{
    let n = a.unicode_len();
    if n != b.unicode_len() {
        return false;
    }
    let mut i: usize = 0;
    while i < n
        invariant
            n == a@.len(),
            n == b@.len(),
            i <= n,
            forall|j: int| 0 <= j < i ==> a@[j] == b@[j],
        decreases n - i,
    {
        if a.get_char(i) != b.get_char(i) {
            return false;
        }
        i = i + 1;
    }
    assert(a@ =~= b@);
    true
}

/// The display width of one character: 1 for ASCII, 2 otherwise.
pub fn character_display_width(character: char) -> (r: usize)
    ensures
        r == char_width(character),
{
    if (character as u32) < 128 {
        1
    } else {
        2
    }
}

/// The display width of `value`, or `usize::MAX` if it were wider than that.
pub fn display_width(value: &str) -> (r: usize)
    ensures
        r == (if text_width(value@) <= usize::MAX {
            text_width(value@)
        } else {
            usize::MAX as nat
        }),
{
    let n = value.unicode_len();
    let mut w: usize = 0;
    let mut i: usize = 0;
    while i < n
        invariant
            n == value@.len(),
            i <= n,
            w == (if text_width(value@.take(i as int)) <= usize::MAX {
                text_width(value@.take(i as int))
            } else {
                usize::MAX as nat
            }),
        decreases n - i,
    {
        let c = value.get_char(i);
        proof {
            lemma_text_width_push(value@.take(i as int), c);
            assert(value@.take(i as int).push(c) =~= value@.take(i + 1));
        }
        let cw = character_display_width(c);
        if w > usize::MAX - cw {
            w = usize::MAX;
        } else {
            w = w + cw;
        }
        i = i + 1;
    }
    assert(value@.take(n as int) =~= value@);
    w
}

/// Whether `value` fits in `max_width` columns.
fn fits_width(value: &str, max_width: usize) -> (r: bool)
    ensures
        r == (text_width(value@) <= max_width),
{
    let n = value.unicode_len();
    let mut w: usize = 0;
    let mut i: usize = 0;
    while i < n
        invariant
            n == value@.len(),
            i <= n,
            w == text_width(value@.take(i as int)),
            w <= max_width,
        decreases n - i,
    {
        let c = value.get_char(i);
        proof {
            lemma_text_width_push(value@.take(i as int), c);
            assert(value@.take(i as int).push(c) =~= value@.take(i + 1));
        }
        let cw = character_display_width(c);
        if cw > max_width - w {
            proof {
                lemma_text_width_prefix(value@, i + 1);
            }
            return false;
        }
        w = w + cw;
        i = i + 1;
    }
    assert(value@.take(n as int) =~= value@);
    true
}

/// `value` unchanged if it fits in `max_width` columns, else shortened to fit
/// in `max_width - 3` columns and followed by "...".
pub fn truncate_with_ellipsis(value: &str, max_width: usize) -> (r: String)
    ensures
        r@ == ellipsized(value@, max_width as nat),
{
    if fits_width(value, max_width) {
        return value.to_owned();
    }
    let target_width = if max_width >= 3 {
        max_width - 3
    } else {
        0
    };
    let n = value.unicode_len();
    let mut text = String::new();
    let mut width: usize = 0;
    let mut i: usize = 0;
    let ghost full = value@;
    let ghost goal = prefix_len_within(full, target_width as nat);
    proof {
        lemma_prefix_walk(full, target_width as nat, 0);
    }
    while i < n
        invariant
            n == full.len(),
            full == value@,
            i <= n,
            text@ == full.take(i as int),
            width == text_width(full.take(i as int)),
            width <= target_width,
            i <= goal,
            goal == prefix_len_within(full, target_width as nat),
            prefix_len_within(full.skip(i as int), (target_width - width) as nat) + i == goal,
        ensures
            text@ == full.take(i as int),
            i == goal,
        decreases n - i,
    {
        let c = value.get_char(i);
        let cw = character_display_width(c);
        if cw > target_width - width {
            proof {
                assert(full.skip(i as int)[0] == c);
                assert(full.skip(i as int).len() > 0);
                assert(prefix_len_within(full.skip(i as int), (target_width - width) as nat) == 0);
            }
            break;
        }
        proof {
            lemma_text_width_push(full.take(i as int), c);
            assert(full.take(i as int).push(c) =~= full.take(i + 1));
            assert(full.skip(i as int).drop_first() =~= full.skip(i + 1));
            if i + 1 == n {
                assert(full.skip(n as int) =~= Seq::<char>::empty());
            }
            assert(full.skip(i as int)[0] == c);
        }
        push_char(&mut text, c);
        width = width + cw;
        i = i + 1;
    }
    text.append("...");
    proof {
        reveal_strlit("...");
    }
    text
}

proof fn lemma_prefix_walk(s: Seq<char>, w: nat, i: int)
    requires
        i == 0,
    ensures
        prefix_len_within(s.skip(i), w) + i == prefix_len_within(s, w),
        prefix_len_within(s, w) <= s.len(),
{
    assert(s.skip(0) =~= s);
    lemma_prefix_len_bound(s, w);
}

/// The character of decimal digit `d`.
pub fn digit(d: u64) -> (r: char)
    requires
        d < 10,
    ensures
        r == digit_char(d as int),
{
    if d == 0 {
        '0'
    } else if d == 1 {
        '1'
    } else if d == 2 {
        '2'
    } else if d == 3 {
        '3'
    } else if d == 4 {
        '4'
    } else if d == 5 {
        '5'
    } else if d == 6 {
        '6'
    } else if d == 7 {
        '7'
    } else if d == 8 {
        '8'
    } else {
        '9'
    }
}

/// Appends the decimal digits of `n`.
pub fn push_decimal(out: &mut String, n: u64)
    ensures
        final(out)@ == old(out)@ + decimal(n as nat),
    decreases n,
{
    if n < 10 {
        push_char(out, digit(n));
        assert(old(out)@.push(digit_char(n as int)) =~= old(out)@ + decimal(n as nat));
    } else {
        push_decimal(out, n / 10);
        push_char(out, digit(n % 10));
        assert(old(out)@ + decimal((n / 10) as nat) + seq![digit_char((n % 10) as int)]
            =~= old(out)@ + decimal(n as nat));
    }
}

proof fn lemma_decimal_len(n: nat, k: nat)
    ensures
        n < 10 ==> decimal(n).len() == 1,
        10 <= n < 100 ==> decimal(n).len() == 2,
        100 <= n < 1000 ==> decimal(n).len() == 3,
        1000 <= n ==> decimal(n).len() >= 4,
        decimal(n).len() >= 1,
    decreases n,
{
    if n >= 10 {
        lemma_decimal_len(n / 10, k);
    }
}

/// Appends `n` in decimal, zero-padded to at least `width` digits.
pub fn push_zero_padded(out: &mut String, n: u64, width: u64)
    requires
        width <= 4,
    ensures
        final(out)@ == old(out)@ + zero_padded(n as nat, width as nat),
{
    proof {
        lemma_decimal_len(n as nat, 0);
    }
    let len: u64 = if n < 10 {
        1
    } else if n < 100 {
        2
    } else if n < 1000 {
        3
    } else {
        4
    };
    let mut k: u64 = len;
    let ghost start = out@;
    while k < width
        invariant
            len <= k <= width || (k == len && width < len),
            out@ == start + Seq::new((k - len) as nat, |i: int| '0'),
            old(out)@ == start,
        decreases width - k,
    {
        push_char(out, '0');
        assert(start + Seq::new((k - len) as nat, |i: int| '0') + seq!['0'] =~= start + Seq::new(
            (k + 1 - len) as nat,
            |i: int| '0',
        ));
        k = k + 1;
    }
    let ghost mid = out@;
    push_decimal(out, n);
    proof {
        let digits = decimal(n as nat);
        if digits.len() >= width {
            assert(k == len);
            assert(Seq::new(0nat, |i: int| '0') =~= Seq::<char>::empty());
            assert(out@ =~= start + digits);
        } else {
            assert(digits.len() == len);
            assert(out@ =~= start + (Seq::new((width - digits.len()) as nat, |i: int| '0')
                + digits));
        }
    }
}

/// Appends a signed integer as `{}` writes it.
pub fn push_signed(out: &mut String, n: i64)
    ensures
        final(out)@ == old(out)@ + signed_decimal(n as int),
{
    if n < 0 {
        push_char(out, '-');
        let m: u64 = if n == i64::MIN {
            9223372036854775808u64
        } else {
            (-n) as u64
        };
        push_decimal(out, m);
        assert(old(out)@.push('-') + decimal(m as nat) =~= old(out)@ + signed_decimal(n as int));
    } else {
        push_decimal(out, n as u64);
    }
}

} // verus!
