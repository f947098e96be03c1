//! Text: comparing, cutting and joining it, and writing numbers out.
use vstd::prelude::*;
use vstd::string::*;

verus! {

/// `String::push` appends the character it is given.
pub assume_specification[ String::push ](s: &mut String, ch: char)
    ensures
        final(s)@ == old(s)@.push(ch),
;

/// The character is white space: it has Unicode's `White_Space` property.
pub open spec fn white_space(c: char) -> bool {
    let n = c as u32;
    ||| 0x9 <= n <= 0xd
    ||| n == 0x20
    ||| n == 0x85
    ||| n == 0xa0
    ||| n == 0x1680
    ||| 0x2000 <= n <= 0x200a
    ||| n == 0x2028
    ||| n == 0x2029
    ||| n == 0x202f
    ||| n == 0x205f
    ||| n == 0x3000
}

/// `char::is_whitespace` tells the characters that have Unicode's `White_Space`
/// property from all others.
pub assume_specification[ char::is_whitespace ](c: char) -> (r: bool)
    ensures
        r == white_space(c),
;

/// The view of an optional text.
pub open spec fn opt_view(s: Option<String>) -> Option<Seq<char>> {
    match s {
        Some(t) => Some(t@),
        None => None,
    }
}

/// An optional text, or `default` where there is none.
pub open spec fn or_text(s: Option<Seq<char>>, default: Seq<char>) -> Seq<char> {
    match s {
        Some(t) => t,
        None => default,
    }
}

/// The text, where there is any.
pub open spec fn non_empty(s: String) -> Option<String> {
    if s@.len() == 0 {
        None
    } else {
        Some(s)
    }
}

/// The text, where there is any.
pub fn if_not_empty(s: &String) -> (r: Option<String>)
    ensures
        r == non_empty(*s),
{
    if s.as_str().is_empty() {
        None
    } else {
        Some(s.clone())
    }
}

/// An optional text, or none at all.
pub fn or_empty(s: &Option<String>) -> (r: String)
    ensures
        r@ == or_text(opt_view(*s), Seq::empty()),
{
    match s {
        Some(t) => t.clone(),
        None => String::new(),
    }
}

/// The two texts are the same.
pub fn same_text(a: &str, b: &str) -> (r: bool)
    ensures
        r == (a@ == b@),
{
    a.to_owned() == b.to_owned()
}

/// The characters of a text.
pub fn chars_of(s: &str) -> (r: Vec<char>)
    ensures
        r@ == s@,
{
    let mut r: Vec<char> = Vec::new();
    for c in it: s.chars()
        invariant
            r@ == s@.take(it.index()),
            it.seq() == s@,
    {
        r.push(c);
        assert(s@.take(it.index() + 1) =~= s@.take(it.index()).push(c));
    }
    assert(s@.take(s@.len() as int) =~= s@);
    r
}

/// The text made of the characters from index `from` up to index `to`.
pub fn text_of(chars: &Vec<char>, from: usize, to: usize) -> (r: String)
    requires
        from <= to <= chars.len(),
    ensures
        r@ == chars@.subrange(from as int, to as int),
{
    let mut r: String = String::new();
    let mut i: usize = from;
    while i < to
        invariant
            from <= i <= to <= chars.len(),
            r@ == chars@.subrange(from as int, i as int),
        decreases to - i,
    {
        r.push(chars[i]);
        assert(chars@.subrange(from as int, i + 1) =~= chars@.subrange(from as int, i as int).push(
            chars[i as int],
        ));
        i += 1;
    }
    r
}

/// The text before the white space that it ends in.
pub open spec fn trim_end(s: Seq<char>) -> Seq<char>
    decreases s.len(),
{
    if s.len() > 0 && white_space(s.last()) {
        trim_end(s.drop_last())
    } else {
        s
    }
}

/// The text behind the white space that it starts with.
pub open spec fn trim_start(s: Seq<char>) -> Seq<char>
    decreases s.len(),
{
    if s.len() > 0 && white_space(s[0]) {
        trim_start(s.drop_first())
    } else {
        s
    }
}

/// The text without the white space around it.
pub open spec fn trimmed(s: Seq<char>) -> Seq<char> {
    trim_start(trim_end(s))
}

/// The text before the run of `c` that it ends in.
pub open spec fn strip_end(s: Seq<char>, c: char) -> Seq<char>
    decreases s.len(),
{
    if s.len() > 0 && s.last() == c {
        strip_end(s.drop_last(), c)
    } else {
        s
    }
}

/// `pat` stands in `s` at index `i`.
pub open spec fn occurs_at(s: Seq<char>, pat: Seq<char>, i: int) -> bool {
    0 <= i && i + pat.len() <= s.len() && s.subrange(i, i + pat.len()) == pat
}

/// The last place, from index `i` down, at which `pat` stands in `s`.
pub open spec fn last_occurrence(s: Seq<char>, pat: Seq<char>, i: int) -> Option<int>
    decreases i + 1,
{
    if i < 0 {
        None
    } else if occurs_at(s, pat, i) {
        Some(i)
    } else {
        last_occurrence(s, pat, i - 1)
    }
}

/// What follows the last `pat` in `s`; all of `s` where there is none.
pub open spec fn after_last(s: Seq<char>, pat: Seq<char>) -> Seq<char> {
    match last_occurrence(s, pat, s.len() as int) {
        Some(i) => s.skip(i + pat.len()),
        None => s,
    }
}

/// The character for a decimal digit.
pub open spec fn digit_char(d: nat) -> char {
    (48 + d) as char
}

/// A number written in decimal digits.
pub open spec fn digits(n: nat) -> Seq<char>
    decreases n,
{
    if n < 10 {
        seq![digit_char(n)]
    } else {
        digits(n / 10).push(digit_char(n % 10))
    }
}

/// An integer written in decimal.
pub open spec fn decimal(n: int) -> Seq<char> {
    if n < 0 {
        seq!['-'] + digits((-n) as nat)
    } else {
        digits(n as nat)
    }
}

/// `n` zeros.
pub open spec fn zeros(n: nat) -> Seq<char> {
    Seq::new(n, |i: int| '0')
}

/// An integer written in decimal, in at least `width` characters: zeros fill
/// up between the sign and the digits.
pub open spec fn zero_padded(n: int, width: nat) -> Seq<char> {
    let sign = if n < 0 {
        seq!['-']
    } else {
        Seq::<char>::empty()
    };
    let body = digits(if n < 0 {
        (-n) as nat
    } else {
        n as nat
    });
    let fill = if sign.len() + body.len() < width {
        (width - sign.len() - body.len()) as nat
    } else {
        0
    };
    sign + zeros(fill) + body
}

/// The text without the white space around it.
pub fn trim(s: &str) -> (r: String)
    ensures
        r@ == trimmed(s@),
{
    let chars = chars_of(s);
    let mut to: usize = chars.len();
    assert(s@.take(to as int) =~= s@);
    while to > 0 && chars[to - 1].is_whitespace()
        invariant
            to <= chars.len(),
            chars@ == s@,
            trim_end(s@) == trim_end(s@.take(to as int)),
        ensures
            to <= chars.len(),
            trim_end(s@) == s@.take(to as int),
        decreases to,
    {
        assert(s@.take(to as int).drop_last() =~= s@.take(to - 1));
        to -= 1;
    }
    let mut from: usize = 0;
    assert(s@.subrange(0, to as int) =~= s@.take(to as int));
    while from < to && chars[from].is_whitespace()
        invariant
            from <= to <= chars.len(),
            chars@ == s@,
            trimmed(s@) == trim_start(s@.subrange(from as int, to as int)),
        ensures
            from <= to <= chars.len(),
            trimmed(s@) == s@.subrange(from as int, to as int),
        decreases to - from,
    {
        assert(s@.subrange(from as int, to as int).drop_first() =~= s@.subrange(
            from + 1,
            to as int,
        ));
        from += 1;
    }
    text_of(&chars, from, to)
}

/// The text before the run of `c` that it ends in.
pub fn trim_end_matches(s: &str, c: char) -> (r: String)
    ensures
        r@ == strip_end(s@, c),
{
    let chars = chars_of(s);
    let mut to: usize = chars.len();
    assert(s@.take(to as int) =~= s@);
    while to > 0 && chars[to - 1] == c
        invariant
            to <= chars.len(),
            chars@ == s@,
            strip_end(s@, c) == strip_end(s@.take(to as int), c),
        ensures
            to <= chars.len(),
            strip_end(s@, c) == s@.take(to as int),
        decreases to,
    {
        assert(s@.take(to as int).drop_last() =~= s@.take(to - 1));
        to -= 1;
    }
    assert(s@.subrange(0, to as int) =~= s@.take(to as int));
    text_of(&chars, 0, to)
}

/// Whether the character stands in the text.
pub fn contains_char(s: &str, c: char) -> (r: bool)
    ensures
        r == s@.contains(c),
{
    let chars = chars_of(s);
    let mut i: usize = 0;
    while i < chars.len()
        invariant
            i <= chars.len(),
            chars@ == s@,
            forall|j: int| 0 <= j < i ==> #[trigger] s@[j] != c,
        decreases chars.len() - i,
    {
        if chars[i] == c {
            assert(s@[i as int] == c);
            return true;
        }
        i += 1;
    }
    false
}

/// The text before the first `c` and the text behind it.
pub fn split_once(s: &str, c: char) -> (r: Option<(String, String)>)
    ensures
        match (r, s@.index_of_first(c)) {
            (Some((a, b)), Some(i)) => a@ == s@.take(i) && b@ == s@.skip(i + 1),
            (None, None) => true,
            _ => false,
        },
{
    let chars = chars_of(s);
    proof {
        s@.index_of_first_ensures(c);
    }
    let mut i: usize = 0;
    while i < chars.len()
        invariant
            i <= chars.len(),
            chars@ == s@,
            forall|j: int| 0 <= j < i ==> #[trigger] s@[j] != c,
            match s@.index_of_first(c) {
                Some(k) => 0 <= k < s@.len() && s@[k] == c && forall|j: int|
                    0 <= j < k < s@.len() ==> s@[j] != c,
                None => forall|j: int| 0 <= j < s@.len() ==> s@[j] != c,
            },
        decreases chars.len() - i,
    {
        if chars[i] == c {
            assert(s@[i as int] == c);
            assert(s@.subrange(0, i as int) =~= s@.take(i as int));
            assert(s@.subrange(i + 1, s@.len() as int) =~= s@.skip(i + 1));
            return Some((text_of(&chars, 0, i), text_of(&chars, i + 1, chars.len())));
        }
        i += 1;
    }
    None
}

fn stands_at(s: &Vec<char>, pat: &Vec<char>, i: usize) -> (r: bool)
    requires
        i <= s.len(),
    ensures
        r == occurs_at(s@, pat@, i as int),
{
    if pat.len() > s.len() - i {
        return false;
    }
    let mut j: usize = 0;
    while j < pat.len()
        invariant
            j <= pat.len(),
            i + pat.len() <= s.len(),
            forall|k: int| 0 <= k < j ==> s[i + k] == #[trigger] pat[k],
        decreases pat.len() - j,
    {
        if s[i + j] != pat[j] {
            assert(s@.subrange(i as int, i + pat.len())[j as int] == s[i + j]);
            return false;
        }
        j += 1;
    }
    assert(s@.subrange(i as int, i + pat.len()) =~= pat@);
    true
}

/// What follows the last `pat` in `s`; all of `s` where there is none.
pub fn text_after_last(s: &str, pat: &str) -> (r: String)
    ensures
        r@ == after_last(s@, pat@),
{
    let chars = chars_of(s);
    let pattern = chars_of(pat);
    let mut i: usize = chars.len();
    while i > 0 && !stands_at(&chars, &pattern, i)
        invariant
            i <= chars.len(),
            chars@ == s@,
            pattern@ == pat@,
            last_occurrence(s@, pat@, s@.len() as int) == last_occurrence(s@, pat@, i as int),
        ensures
            i <= chars.len(),
            last_occurrence(s@, pat@, s@.len() as int) == last_occurrence(s@, pat@, i as int),
            i == 0 || occurs_at(s@, pat@, i as int),
        decreases i,
    {
        i -= 1;
    }
    if stands_at(&chars, &pattern, i) {
        assert(s@.subrange(i + pat@.len(), s@.len() as int) =~= s@.skip(i + pat@.len()));
        text_of(&chars, i + pattern.len(), chars.len())
    } else {
        reveal_with_fuel(last_occurrence, 2);
        s.to_owned()
    }
}

fn digits_of(n: u64) -> (r: String)
    ensures
        r@ == digits(n as nat),
    decreases n,
{
    let mut r: String = if n < 10 {
        String::new()
    } else {
        digits_of(n / 10)
    };
    let d: u8 = (n % 10) as u8;
    r.push((48u8 + d) as char);
    assert(n < 10 ==> r@ =~= digits(n as nat));
    r
}

/// An integer written in decimal.
pub fn decimal_of(n: i64) -> (r: String)
    ensures
        r@ == decimal(n as int),
{
    if n < 0 {
        let mut r: String = String::new();
        r.push('-');
        let body: String = if n == i64::MIN {
            digits_of(9223372036854775808u64)
        } else {
            digits_of((-n) as u64)
        };
        r.append(body.as_str());
        assert(r@ =~= decimal(n as int));
        r
    } else {
        digits_of(n as u64)
    }
}

/// An integer written in decimal, in at least `width` characters.
pub fn zero_padded_of(n: i32, width: usize) -> (r: String)
    ensures
        r@ == zero_padded(n as int, width as nat),
{
    let mut r: String = String::new();
    if n < 0 {
        r.push('-');
    }
    let magnitude: u64 = if n < 0 {
        (-(n as i64)) as u64
    } else {
        n as u64
    };
    let ghost sign = r@;
    let body: String = digits_of(magnitude);
    let mut length: usize = r.as_str().unicode_len();
    let body_length: usize = body.as_str().unicode_len();
    proof {
        lemma_few_digits(magnitude as nat);
    }
    let ghost mut filled: nat = 0;
    while length + body_length < width
        invariant
            r@ == sign + zeros(filled),
            length == sign.len() + filled,
            sign.len() <= 1,
            body_length == body@.len() <= 20,
            length <= width || filled == 0,
            filled > 0 ==> length + body_length <= width,
        decreases width - length,
    {
        r.push('0');
        length += 1;
        proof {
            assert(sign + zeros(filled + 1) =~= (sign + zeros(filled)).push('0'));
            filled = filled + 1;
        }
    }
    r.append(body.as_str());
    r
}

proof fn lemma_few_digits(n: nat)
    requires
        n <= u64::MAX,
    ensures
        digits(n).len() <= 20,
{
    reveal_with_fuel(digits, 21);
}

/// Text `a` sorts behind text `b`, character by character; a text sorts behind
/// its own beginning.
pub open spec fn sorts_behind(a: Seq<char>, b: Seq<char>) -> bool
    decreases a.len(),
{
    if a.len() == 0 {
        false
    } else if b.len() == 0 {
        true
    } else if a[0] != b[0] {
        a[0] as u32 > b[0] as u32
    } else {
        sorts_behind(a.skip(1), b.skip(1))
    }
}

/// Whether the text `a` sorts behind the text `b`.
pub fn is_behind(a: &str, b: &str) -> (r: bool)
    ensures
        r == sorts_behind(a@, b@),
{
    let a = chars_of(a);
    let b = chars_of(b);
    let mut i: usize = 0;
    assert(a@.skip(0) =~= a@);
    assert(b@.skip(0) =~= b@);
    while i < a.len() && i < b.len() && a[i] == b[i]
        invariant
            i <= a.len(),
            i <= b.len(),
            sorts_behind(a@, b@) == sorts_behind(a@.skip(i as int), b@.skip(i as int)),
        decreases a.len() - i,
    {
        assert(a@.skip(i as int).skip(1) =~= a@.skip(i + 1));
        assert(b@.skip(i as int).skip(1) =~= b@.skip(i + 1));
        i += 1;
    }
    if i == a.len() {
        false
    } else if i == b.len() {
        true
    } else {
        a[i] as u32 > b[i] as u32
    }
}

/// What is taken off a text's ends is white space, all of it, and nothing of
/// what stands between is lost.
pub proof fn law_trimmed_is_the_middle(s: Seq<char>)
    ensures
        exists|a: int, b: int|
            {
                &&& 0 <= a <= b <= s.len()
                &&& trimmed(s) == #[trigger] s.subrange(a, b)
                &&& forall|i: int| 0 <= i < a || b <= i < s.len() ==> white_space(#[trigger] s[i])
                &&& a < b ==> !white_space(s[a]) && !white_space(s[b - 1])
            },
{
    let b = lemma_trim_end(s);
    let a = lemma_trim_start(trim_end(s));
    assert(s.subrange(a, b) =~= s.take(b).skip(a));
    assert forall|i: int| 0 <= i < a implies white_space(#[trigger] s[i]) by {
        assert(trim_end(s)[i] == s[i]);
    }
    if a < b {
        assert(trim_end(s)[a] == s[a]);
        assert(trim_end(s).last() == s[b - 1]);
    }
}

proof fn lemma_trim_end(s: Seq<char>) -> (b: int)
    ensures
        0 <= b <= s.len(),
        trim_end(s) == s.take(b),
        forall|i: int| b <= i < s.len() ==> white_space(#[trigger] s[i]),
        b > 0 ==> !white_space(s[b - 1]),
    decreases s.len(),
{
    if s.len() > 0 && white_space(s.last()) {
        let b = lemma_trim_end(s.drop_last());
        assert(s.drop_last().take(b) =~= s.take(b));
        assert forall|i: int| b <= i < s.len() implies white_space(#[trigger] s[i]) by {
            if i < s.len() - 1 {
                assert(s.drop_last()[i] == s[i]);
            }
        }
        if b > 0 {
            assert(s.drop_last()[b - 1] == s[b - 1]);
        }
        b
    } else {
        assert(s.take(s.len() as int) =~= s);
        s.len() as int
    }
}

proof fn lemma_trim_start(s: Seq<char>) -> (a: int)
    ensures
        0 <= a <= s.len(),
        trim_start(s) == s.skip(a),
        forall|i: int| 0 <= i < a ==> white_space(#[trigger] s[i]),
        a < s.len() ==> !white_space(s[a]),
    decreases s.len(),
{
    if s.len() > 0 && white_space(s[0]) {
        let rest = s.drop_first();
        let a = lemma_trim_start(rest);
        assert(rest.skip(a) =~= s.skip(a + 1));
        assert forall|i: int| 0 <= i < a + 1 implies white_space(#[trigger] s[i]) by {
            if i > 0 {
                assert(rest[i - 1] == s[i]);
            }
        }
        if a < rest.len() {
            assert(rest[a] == s[a + 1]);
        }
        a + 1
    } else {
        assert(s.skip(0) =~= s);
        0
    }
}

/// Stripping takes the character off the end as often as it stands there, and
/// takes nothing else.
pub proof fn law_strip_end_takes_all_of_the_end(s: Seq<char>, c: char)
    ensures
        ({
            let n = strip_end(s, c).len() as int;
            &&& n <= s.len()
            &&& strip_end(s, c) == s.take(n)
            &&& forall|i: int| n <= i < s.len() ==> #[trigger] s[i] == c
            &&& n > 0 ==> s[n - 1] != c
        }),
    decreases s.len(),
{
    if s.len() > 0 && s.last() == c {
        let front = s.drop_last();
        law_strip_end_takes_all_of_the_end(front, c);
        let n = strip_end(front, c).len() as int;
        assert(front.take(n) =~= s.take(n));
        assert forall|i: int| n <= i < s.len() implies #[trigger] s[i] == c by {
            if i < front.len() {
                assert(front[i] == s[i]);
            }
        }
        if n > 0 {
            assert(front[n - 1] == s[n - 1]);
        }
    } else {
        assert(s.take(s.len() as int) =~= s);
    }
}

proof fn lemma_last_occurrence(s: Seq<char>, pat: Seq<char>, from: int)
    ensures
        match last_occurrence(s, pat, from) {
            Some(i) => 0 <= i <= from && occurs_at(s, pat, i) && forall|j: int|
                i < j <= from ==> !#[trigger] occurs_at(s, pat, j),
            None => forall|j: int| 0 <= j <= from ==> !#[trigger] occurs_at(s, pat, j),
        },
    decreases from + 1,
{
    if from >= 0 && !occurs_at(s, pat, from) {
        lemma_last_occurrence(s, pat, from - 1);
    }
}

/// What follows the last occurrence of a pattern is the rest of the text behind
/// it, and the pattern occurs nowhere behind that; a text without the pattern
/// stays as it is.
pub proof fn law_after_last_follows_the_pattern(s: Seq<char>, pat: Seq<char>)
    ensures
        (exists|i: int|
            {
                &&& 0 <= i <= s.len() - pat.len()
                &&& #[trigger] s.subrange(i, i + pat.len()) == pat
                &&& after_last(s, pat) == s.skip(i + pat.len())
                &&& forall|j: int|
                    i < j <= s.len() - pat.len() ==> #[trigger] s.subrange(j, j + pat.len()) != pat
            }) || {
            &&& after_last(s, pat) == s
            &&& forall|j: int|
                0 <= j <= s.len() - pat.len() ==> #[trigger] s.subrange(j, j + pat.len()) != pat
        },
{
    lemma_last_occurrence(s, pat, s.len() as int);
    match last_occurrence(s, pat, s.len() as int) {
        Some(i) => {
            assert(s.subrange(i, i + pat.len()) == pat);
            assert forall|j: int| i < j <= s.len() - pat.len() implies #[trigger] s.subrange(
                j,
                j + pat.len(),
            ) != pat by {
                assert(!occurs_at(s, pat, j));
            }
        },
        None => {
            assert forall|j: int| 0 <= j <= s.len() - pat.len() implies #[trigger] s.subrange(
                j,
                j + pat.len(),
            ) != pat by {
                assert(!occurs_at(s, pat, j));
            }
        },
    }
}

/// A number is written with its digits, the highest first, and a minus sign
/// where it is negative.
pub proof fn law_decimal_writes_the_digits(n: int)
    ensures
        0 <= n < 10 ==> decimal(n) == seq![(48 + n) as char],
        n >= 10 ==> decimal(n) == decimal(n / 10).push((48 + n % 10) as char),
        n < 0 ==> decimal(n) == seq!['-'] + decimal(-n),
{
    if n >= 10 {
        assert((n / 10) as nat == n as nat / 10);
        assert((n % 10) as nat == n as nat % 10);
    }
}

/// Padding puts zeros in front of a number's digits until there are enough
/// characters, and changes nothing where there are.
pub proof fn law_padding_fills_with_zeros(n: int, width: nat)
    requires
        n >= 0,
    ensures
        ({
            let text = zero_padded(n, width);
            let fill = text.len() - decimal(n).len();
            &&& fill >= 0
            &&& text.len() == if decimal(n).len() < width {
                width
            } else {
                decimal(n).len()
            }
            &&& text.skip(fill) == decimal(n)
            &&& forall|i: int| 0 <= i < fill ==> #[trigger] text[i] == '0'
        }),
{
    let fill = zero_padded(n, width).len() - decimal(n).len();
    assert(zero_padded(n, width).skip(fill) =~= decimal(n));
}

/// Of two texts one sorts behind the other by the first character in which they
/// differ, or because it goes on where the other ends.
pub proof fn law_first_difference_decides(a: Seq<char>, b: Seq<char>, k: int)
    requires
        0 <= k <= a.len(),
        k <= b.len(),
        forall|i: int| 0 <= i < k ==> a[i] == b[i],
        k < a.len() && k < b.len() ==> a[k] != b[k],
    ensures
        k < a.len() && k < b.len() ==> sorts_behind(a, b) == (a[k] as u32 > b[k] as u32),
        k == b.len() ==> sorts_behind(a, b) == (a.len() > b.len()),
        k == a.len() ==> !sorts_behind(a, b),
    decreases k,
{
    if k > 0 {
        let (x, y) = (a.skip(1), b.skip(1));
        assert forall|i: int| 0 <= i < k - 1 implies x[i] == y[i] by {
            assert(a[i + 1] == b[i + 1]);
        }
        assert(a[0] == b[0]);
        law_first_difference_decides(x, y, k - 1);
    }
}

/// A text that is given is taken as it is, an empty one for none.
pub proof fn law_empty_text_is_none(s: String, t: Option<String>, default: Seq<char>)
    ensures
        non_empty(s) is None <==> s@.len() == 0,
        non_empty(s) matches Some(u) ==> u == s,
        t matches Some(u) ==> opt_view(t) == Some(u@) && or_text(opt_view(t), default) == u@,
        t is None ==> opt_view(t) is None && or_text(opt_view(t), default) == default,
{
}

/// White space is a tab, a line feed, a vertical tab, a form feed, a carriage
/// return, a blank, a next-line mark, or one of the wider blanks and line and
/// paragraph separators, and no letter or digit.
pub proof fn law_white_space_is_listed(c: char)
    ensures
        c == '\t' || c == '\n' || c == '\r' || c == ' ' ==> white_space(c),
        white_space(c) <==> {
            let n = c as u32;
            ||| 9 <= n <= 13
            ||| n == 32
            ||| n == 133
            ||| n == 160
            ||| n == 5760
            ||| 8192 <= n <= 8202
            ||| n == 8232
            ||| n == 8233
            ||| n == 8239
            ||| n == 8287
            ||| n == 12288
        },
        'a' <= c <= 'z' || 'A' <= c <= 'Z' || '0' <= c <= '9' || c == '/' || c == '-'
            ==> !white_space(c),
{
}

} // verus!
