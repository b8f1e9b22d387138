//! The text helpers of the instruction table generator: operand expressions for the getter and
//! setter of each operand, number recognition, and cycle counts.
use vstd::prelude::*;
use vstd::string::StrSliceExecFns;
use vstd::string::StringExecFns;

verus! {

// ---------------------------------------------------------------------------------------------
// Characters and numbers
// ---------------------------------------------------------------------------------------------

/// Unicode `White_Space`.
pub open spec fn is_ws(c: char) -> bool {
    ||| '\u{9}' <= c <= '\u{d}'
    ||| c == ' '
    ||| c == '\u{85}'
    ||| c == '\u{a0}'
    ||| c == '\u{1680}'
    ||| '\u{2000}' <= c <= '\u{200a}'
    ||| c == '\u{2028}'
    ||| c == '\u{2029}'
    ||| c == '\u{202f}'
    ||| c == '\u{205f}'
    ||| c == '\u{3000}'
}

/// `s` without its leading white space.
pub open spec fn trim_start_spec(s: Seq<char>) -> Seq<char>
    decreases s.len(),
{
    if s.len() > 0 && is_ws(s[0]) {
        trim_start_spec(s.drop_first())
    } else {
        s
    }
}

/// `s` without its trailing white space.
pub open spec fn trim_end_spec(s: Seq<char>) -> Seq<char>
    decreases s.len(),
{
    if s.len() > 0 && is_ws(s.last()) {
        trim_end_spec(s.drop_last())
    } else {
        s
    }
}

/// `s` without leading or trailing white space.
pub open spec fn trim_spec(s: Seq<char>) -> Seq<char> {
    trim_end_spec(trim_start_spec(s))
}

pub open spec fn is_digit(c: char) -> bool {
    '0' <= c <= '9'
}

/// The value of a string of decimal digits.
pub open spec fn digits_value(d: Seq<char>) -> nat
    decreases d.len(),
{
    if d.len() == 0 {
        0
    } else {
        digits_value(d.drop_last()) * 10 + ((d.last() as int - '0' as int) as nat)
    }
}

/// The digits of a number in decimal, without a sign: what `parse::<usize>` accepts is an
/// optional `+` and these.
pub open spec fn unsigned_digits(t: Seq<char>) -> Seq<char> {
    if t.len() > 0 && t[0] == '+' {
        t.drop_first()
    } else {
        t
    }
}

/// Whether `t` is a `usize` in decimal: an optional `+`, then at least one digit, of a value
/// that fits.
pub open spec fn parses_usize(t: Seq<char>) -> bool {
    let d = unsigned_digits(t);
    &&& d.len() > 0
    &&& forall|i: int| 0 <= i < d.len() ==> is_digit(#[trigger] d[i])
    &&& digits_value(d) <= usize::MAX
}

/// Whether `s` is a number: a `usize` in decimal once white space is trimmed.
pub open spec fn is_num_spec(s: Seq<char>) -> bool {
    parses_usize(trim_spec(s))
}

/// The decimal digits of `n`.
pub open spec fn decimal(n: nat) -> Seq<char>
    decreases n,
{
    if n < 10 {
        seq![((n + '0' as nat) as char)]
    } else {
        decimal(n / 10).push(((n % 10 + '0' as nat) as char))
    }
}

fn is_ws_char(c: char) -> (r: bool)
    ensures
        r == is_ws(c),
{
    ('\u{9}' <= c && c <= '\u{d}') || c == ' ' || c == '\u{85}' || c == '\u{a0}' || c
        == '\u{1680}' || ('\u{2000}' <= c && c <= '\u{200a}') || c == '\u{2028}' || c == '\u{2029}'
        || c == '\u{202f}' || c == '\u{205f}' || c == '\u{3000}'
}

proof fn lemma_trim_start_skip(s: Seq<char>, i: int)
    requires
        0 <= i <= s.len(),
        forall|j: int| 0 <= j < i ==> is_ws(#[trigger] s[j]),
    ensures
        trim_start_spec(s) == trim_start_spec(s.subrange(i, s.len() as int)),
    decreases i,
{
    if i > 0 {
        assert(s.drop_first() =~= s.subrange(1, s.len() as int));
        lemma_trim_start_skip(s.drop_first(), i - 1);
        assert(s.drop_first().subrange(i - 1, s.drop_first().len() as int) =~= s.subrange(
            i,
            s.len() as int,
        ));
    } else {
        assert(s.subrange(0, s.len() as int) =~= s);
    }
}

proof fn lemma_trim_end_skip(s: Seq<char>, j: int)
    requires
        0 <= j <= s.len(),
        forall|k: int| j <= k < s.len() ==> is_ws(#[trigger] s[k]),
    ensures
        trim_end_spec(s) == trim_end_spec(s.subrange(0, j)),
    decreases s.len() - j,
{
    if j < s.len() {
        assert(s.drop_last() =~= s.subrange(0, s.len() - 1));
        lemma_trim_end_skip(s.drop_last(), j);
        assert(s.drop_last().subrange(0, j) =~= s.subrange(0, j));
    } else {
        assert(s.subrange(0, j) =~= s);
    }
}

proof fn lemma_digits_value_push(d: Seq<char>, i: int)
    requires
        0 <= i < d.len(),
    ensures
        digits_value(d.subrange(0, i + 1)) == digits_value(d.subrange(0, i)) * 10 + ((d[i] as int
            - '0' as int) as nat),
{
    assert(d.subrange(0, i + 1).drop_last() =~= d.subrange(0, i));
}

/// Whether the text, trimmed of white space, is a `usize` in decimal.
pub fn is_num(s: &str) -> (r: bool)
    ensures
        r == is_num_spec(s@),
{
    let n = s.unicode_len();
    // Leading white space.
    let mut i: usize = 0;
    while i < n && is_ws_char(s.get_char(i))
        invariant
            n == s@.len(),
            i <= n,
            forall|j: int| 0 <= j < i ==> is_ws(#[trigger] s@[j]),
        decreases n - i,
    {
        i = i + 1;
    }
    proof {
        lemma_trim_start_skip(s@, i as int);
    }
    let ghost t0 = s@.subrange(i as int, n as int);
    assert(trim_start_spec(s@) == t0) by {
        if i < n {
            assert(t0[0] == s@[i as int]);
        }
    }
    // Trailing white space.
    let mut j: usize = n;
    while j > i && is_ws_char(s.get_char(j - 1))
        invariant
            n == s@.len(),
            i <= j <= n,
            t0 == s@.subrange(i as int, n as int),
            forall|k: int| j <= k < n ==> is_ws(#[trigger] s@[k]),
        decreases j - i,
    {
        j = j - 1;
    }
    let ghost t = s@.subrange(i as int, j as int);
    assert(trim_spec(s@) == t) by {
        lemma_trim_end_skip(t0, (j - i) as int);
        assert(t0.subrange(0, (j - i) as int) =~= t);
        if j > i {
            assert(t.last() == s@[j - 1]);
        }
    }
    // An optional `+`, then digits.
    let mut k = i;
    if k < j && s.get_char(k) == '+' {
        k = k + 1;
    }
    let ghost d = s@.subrange(k as int, j as int);
    assert(unsigned_digits(t) =~= d);
    if k >= j {
        return false;
    }
    let mut value: usize = 0;
    let mut p = k;
    while p < j
        invariant
            n == s@.len(),
            k <= p <= j <= n,
            d == s@.subrange(k as int, j as int),
            trim_spec(s@) == t,
            unsigned_digits(t) == d,
            forall|q: int| 0 <= q < p - k ==> is_digit(#[trigger] d[q]),
            value == digits_value(d.subrange(0, p - k)),
        decreases j - p,
    {
        let c = s.get_char(p);
        if !('0' <= c && c <= '9') {
            assert(!is_digit(d[p - k]));
            return false;
        }
        let digit = (c as u32 - '0' as u32) as usize;
        proof {
            lemma_digits_value_push(d, p - k);
        }
        match value.checked_mul(10) {
            Some(v10) => match v10.checked_add(digit) {
                Some(v) => {
                    value = v;
                },
                None => {
                    proof {
                        lemma_digits_value_prefix(d, p - k + 1);
                    }
                    return false;
                },
            },
            None => {
                proof {
                    lemma_digits_value_prefix(d, p - k + 1);
                }
                return false;
            },
        }
        p = p + 1;
    }
    assert(d.subrange(0, (j - k) as int) =~= d);
    true
}

/// A number's digits are worth at least what any prefix of them is.
proof fn lemma_digits_value_prefix(d: Seq<char>, i: int)
    requires
        0 <= i <= d.len(),
    ensures
        digits_value(d.subrange(0, i)) <= digits_value(d),
    decreases d.len() - i,
{
    if i < d.len() {
        lemma_digits_value_prefix(d, i + 1);
        lemma_digits_value_push(d, i);
    } else {
        assert(d.subrange(0, i) =~= d);
    }
}

// ---------------------------------------------------------------------------------------------
// Text
// ---------------------------------------------------------------------------------------------

/// Whether two texts are equal.
pub fn str_eq(s: &str, t: &str) -> (r: bool)
    ensures
        r == (s@ == t@),
{
    let n = s.unicode_len();
    if n != t.unicode_len() {
        return false;
    }
    let mut i: usize = 0;
    while i < n
        invariant
            n == s@.len() == t@.len(),
            i <= n,
            forall|j: int| 0 <= j < i ==> s@[j] == t@[j],
        decreases n - i,
    {
        if s.get_char(i) != t.get_char(i) {
            return false;
        }
        i = i + 1;
    }
    assert(s@ =~= t@);
    true
}

/// Whether `s` starts with `p`.
pub fn starts_with(s: &str, p: &str) -> (r: bool)
    ensures
        r == p@.is_prefix_of(s@),
{
    let n = p.unicode_len();
    if n > s.unicode_len() {
        return false;
    }
    let mut i: usize = 0;
    while i < n
        invariant
            n == p@.len() <= s@.len(),
            i <= n,
            forall|j: int| 0 <= j < i ==> s@[j] == p@[j],
        decreases n - i,
    {
        if s.get_char(i) != p.get_char(i) {
            return false;
        }
        i = i + 1;
    }
    assert(p@ =~= s@.subrange(0, n as int));
    true
}

/// The index of the first `c` at or after `from`, or the length of `s`.
pub open spec fn find_from(s: Seq<char>, from: int, c: char) -> int
    decreases s.len() - from,
{
    if from >= s.len() {
        s.len() as int
    } else if s[from] == c {
        from
    } else {
        find_from(s, from + 1, c)
    }
}

pub proof fn lemma_find_from_bounds(s: Seq<char>, from: int, c: char)
    requires
        0 <= from <= s.len(),
    ensures
        from <= find_from(s, from, c) <= s.len(),
        find_from(s, from, c) < s.len() ==> s[find_from(s, from, c)] == c,
    decreases s.len() - from,
{
    if from < s.len() && s[from] != c {
        lemma_find_from_bounds(s, from + 1, c);
    }
}

fn find_char(s: &str, from: usize, c: char) -> (r: usize)
    requires
        from <= s@.len(),
    ensures
        r == find_from(s@, from as int, c),
{
    let n = s.unicode_len();
    let mut i = from;
    while i < n && s.get_char(i) != c
        invariant
            n == s@.len(),
            from <= i <= n,
            find_from(s@, i as int, c) == find_from(s@, from as int, c),
        decreases n - i,
    {
        i = i + 1;
    }
    i
}

/// A one-character text for a decimal digit.
fn digit_str(d: usize) -> (r: &'static str)
    requires
        d < 10,
    ensures
        r@ == seq![((d + '0' as nat) as char)],
{
    if d == 0 {
        proof {
            reveal_strlit("0");
        }
        "0"
    } else if d == 1 {
        proof {
            reveal_strlit("1");
        }
        "1"
    } else if d == 2 {
        proof {
            reveal_strlit("2");
        }
        "2"
    } else if d == 3 {
        proof {
            reveal_strlit("3");
        }
        "3"
    } else if d == 4 {
        proof {
            reveal_strlit("4");
        }
        "4"
    } else if d == 5 {
        proof {
            reveal_strlit("5");
        }
        "5"
    } else if d == 6 {
        proof {
            reveal_strlit("6");
        }
        "6"
    } else if d == 7 {
        proof {
            reveal_strlit("7");
        }
        "7"
    } else if d == 8 {
        proof {
            reveal_strlit("8");
        }
        "8"
    } else {
        proof {
            reveal_strlit("9");
        }
        "9"
    }
}

/// Appends `n` in decimal.
fn append_decimal(out: &mut String, n: usize)
    ensures
        final(out)@ == old(out)@ + decimal(n as nat),
    decreases n,
{
    if n >= 10 {
        append_decimal(out, n / 10);
    }
    out.append(digit_str(n % 10));
}

/// `n` in decimal.
pub fn to_decimal(n: usize) -> (r: String)
    ensures
        r@ == decimal(n as nat),
{
    let mut out = String::new();
    append_decimal(&mut out, n);
    assert(Seq::<char>::empty() + decimal(n as nat) =~= decimal(n as nat));
    out
}

// ---------------------------------------------------------------------------------------------
// Operand expressions
// ---------------------------------------------------------------------------------------------

/// The operand between the first `+` and the next one, of an operand written as an offset
/// plus an operand.
pub open spec fn offset_arg(s: Seq<char>) -> Seq<char> {
    let p1 = find_from(s, 0, '+');
    s.subrange(p1 + 1, find_from(s, p1 + 1, '+'))
}

/// The operand inside parentheses.
pub open spec fn inner(s: Seq<char>) -> Seq<char> {
    s.subrange(1, s.len() - 1)
}

/// The operands `eval_getter` accepts: an offset needs a `+` after it, and parentheses
/// need something to close over, ending in an ASCII character.
pub open spec fn getter_ok(s: Seq<char>) -> bool
    decreases s.len(),
{
    if s == "nz"@ || s == "nc"@ || s == "z"@ || s == "cf"@ || s == "d8"@ || s == "a8"@ || s
        == "r8"@ || s == "d16"@ || s == "a16"@ {
        true
    } else if "0x"@.is_prefix_of(s) {
        let p1 = find_from(s, 0, '+');
        proof {
            lemma_find_from_bounds(s, 0, '+');
            if p1 < s.len() {
                lemma_find_from_bounds(s, p1 + 1, '+');
            }
        }
        p1 < s.len() && getter_ok(offset_arg(s))
    } else if is_num_spec(s) {
        true
    } else if "("@.is_prefix_of(s) {
        s.len() >= 2 && (s.last() as int) < 128 && getter_ok(inner(s))
    } else {
        true
    }
}

/// The expression that reads an operand: a flag condition, an immediate fetched after the
/// opcode, an offset plus an operand, a number, memory at an operand's address (with the
/// access width `b`), or a register.
pub open spec fn getter_spec(s: Seq<char>, b: nat) -> Seq<char>
    decreases s.len(),
{
    if s == "nz"@ {
        "!self.get_zf()"@
    } else if s == "nc"@ {
        "!self.get_cf()"@
    } else if s == "z"@ {
        "self.get_zf()"@
    } else if s == "cf"@ {
        "self.get_cf()"@
    } else if s == "d8"@ || s == "a8"@ || s == "r8"@ {
        "self.fetch8()"@
    } else if s == "d16"@ || s == "a16"@ {
        "self.fetch16()"@
    } else if "0x"@.is_prefix_of(s) {
        let p1 = find_from(s, 0, '+');
        proof {
            lemma_find_from_bounds(s, 0, '+');
            if p1 < s.len() {
                lemma_find_from_bounds(s, p1 + 1, '+');
            }
        }
        if p1 < s.len() {
            s.subrange(0, p1) + "+"@ + getter_spec(offset_arg(s), b) + " as u16"@
        } else {
            Seq::empty()
        }
    } else if is_num_spec(s) {
        s
    } else if "("@.is_prefix_of(s) {
        if s.len() >= 2 {
            "{ let x = "@ + getter_spec(inner(s), b) + "; self.get"@ + decimal(b) + "(x) }"@
        } else {
            Seq::empty()
        }
    } else {
        "self.get_"@ + s + "()"@
    }
}

/// The expression that reads operand `s` with access width `b`.
pub fn eval_getter(s: &str, b: usize) -> (r: String)
    requires
        getter_ok(s@),
    ensures
        r@ == getter_spec(s@, b as nat),
    decreases s@.len(),
{
    if str_eq(s, "nz") {
        String::from_str("!self.get_zf()")
    } else if str_eq(s, "nc") {
        String::from_str("!self.get_cf()")
    } else if str_eq(s, "z") {
        String::from_str("self.get_zf()")
    } else if str_eq(s, "cf") {
        String::from_str("self.get_cf()")
    } else if str_eq(s, "d8") || str_eq(s, "a8") || str_eq(s, "r8") {
        String::from_str("self.fetch8()")
    } else if str_eq(s, "d16") || str_eq(s, "a16") {
        String::from_str("self.fetch16()")
    } else if starts_with(s, "0x") {
        let n = s.unicode_len();
        let p1 = find_char(s, 0, '+');
        proof {
            lemma_find_from_bounds(s@, 0, '+');
        }
        let p2 = find_char(s, p1 + 1, '+');
        proof {
            lemma_find_from_bounds(s@, p1 + 1, '+');
        }
        let offset = s.substring_char(0, p1);
        let arg = s.substring_char(p1 + 1, p2);
        let a = eval_getter(arg, b);
        let mut out = String::from_str(offset);
        out.append("+");
        out.append(a.as_str());
        out.append(" as u16");
        out
    } else if is_num(s) {
        String::from_str(s)
    } else if starts_with(s, "(") {
        let n = s.unicode_len();
        let a = eval_getter(s.substring_char(1, n - 1), b);
        let mut out = String::from_str("{ let x = ");
        out.append(a.as_str());
        out.append("; self.get");
        append_decimal(&mut out, b);
        out.append("(x) }");
        out
    } else {
        let mut out = String::from_str("self.get_");
        out.append(s);
        out.append("()");
        out
    }
}

/// The operands `eval_setter` accepts.
pub open spec fn setter_ok(s: Seq<char>) -> bool {
    "("@.is_prefix_of(s) ==> s.len() >= 2 && (s.last() as int) < 128 && getter_ok(inner(s))
}

/// The start of the call that writes an operand, up to its value: memory at an operand's
/// address (with the access width `b`), or a register.
pub open spec fn setter_spec(s: Seq<char>, b: nat) -> Seq<char> {
    if "("@.is_prefix_of(s) {
        "let x = "@ + getter_spec(inner(s), b) + "; self.set"@ + decimal(b) + "(x, "@
    } else {
        "self.set_"@ + s + "("@
    }
}

/// The start of the call that writes operand `s` with access width `b`.
pub fn eval_setter(s: &str, b: usize) -> (r: String)
    requires
        setter_ok(s@),
    ensures
        r@ == setter_spec(s@, b as nat),
{
    if starts_with(s, "(") {
        let n = s.unicode_len();
        let a = eval_getter(s.substring_char(1, n - 1), b);
        let mut out = String::from_str("let x = ");
        out.append(a.as_str());
        out.append("; self.set");
        append_decimal(&mut out, b);
        out.append("(x, ");
        out
    } else {
        let mut out = String::from_str("self.set_");
        out.append(s);
        out.append("(");
        out
    }
}

// ---------------------------------------------------------------------------------------------
// Cycle counts
// ---------------------------------------------------------------------------------------------

/// The cycles an instruction takes: one count, or two for a conditional instruction (taken,
/// not taken).
#[derive(Debug, Clone, Copy, PartialEq, Eq, Structural)]
pub enum Time {
    One(usize),
    Two(usize, usize),
}

/// The value of a `usize` in decimal.
pub open spec fn usize_value(t: Seq<char>) -> usize {
    digits_value(unsigned_digits(t)) as usize
}

/// The cycle counts `parse_time` accepts: one number, or two separated by `/`.
pub open spec fn time_ok(s: Seq<char>) -> bool {
    let p1 = find_from(s, 0, '/');
    if p1 < s.len() {
        parses_usize(s.subrange(0, p1)) && parses_usize(s.subrange(p1 + 1, find_from(s, p1 + 1, '/')))
    } else {
        parses_usize(s)
    }
}

/// The cycle counts written in `s`; with more than one `/`, the first two numbers.
pub open spec fn time_spec(s: Seq<char>) -> Time {
    let p1 = find_from(s, 0, '/');
    if p1 < s.len() {
        Time::Two(
            usize_value(s.subrange(0, p1)),
            usize_value(s.subrange(p1 + 1, find_from(s, p1 + 1, '/'))),
        )
    } else {
        Time::One(usize_value(s))
    }
}

/// Parses the `usize` in decimal at `s[from..to]`.
fn parse_usize(s: &str, from: usize, to: usize) -> (r: usize)
    requires
        from <= to <= s@.len(),
        parses_usize(s@.subrange(from as int, to as int)),
    ensures
        r == usize_value(s@.subrange(from as int, to as int)),
{
    let ghost t = s@.subrange(from as int, to as int);
    let mut k = from;
    if s.get_char(k) == '+' {
        k = k + 1;
    }
    let ghost d = s@.subrange(k as int, to as int);
    assert(unsigned_digits(t) =~= d);
    let mut value: usize = 0;
    let mut p = k;
    while p < to
        invariant
            to <= s@.len(),
            k <= p <= to,
            d == s@.subrange(k as int, to as int),
            forall|q: int| 0 <= q < d.len() ==> is_digit(#[trigger] d[q]),
            digits_value(d) <= usize::MAX,
            value == digits_value(d.subrange(0, p - k)),
        decreases to - p,
    {
        let c = s.get_char(p);
        assert(is_digit(d[p - k]));
        let digit = (c as u32 - '0' as u32) as usize;
        proof {
            lemma_digits_value_push(d, p - k);
            lemma_digits_value_prefix(d, p - k + 1);
        }
        value = value * 10 + digit;
        p = p + 1;
    }
    assert(d.subrange(0, (to - k) as int) =~= d);
    value
}

/// Parses the cycle counts of an instruction.
pub fn parse_time(s: &str) -> (r: Time)
    requires
        time_ok(s@),
    ensures
        r == time_spec(s@),
{
    let n = s.unicode_len();
    let p1 = find_char(s, 0, '/');
    proof {
        lemma_find_from_bounds(s@, 0, '/');
    }
    if p1 < n {
        let p2 = find_char(s, p1 + 1, '/');
        proof {
            lemma_find_from_bounds(s@, p1 + 1, '/');
        }
        Time::Two(parse_usize(s, 0, p1), parse_usize(s, p1 + 1, p2))
    } else {
        assert(s@.subrange(0, n as int) =~= s@);
        Time::One(parse_usize(s, 0, n))
    }
}

} // verus!
