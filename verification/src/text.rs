//! The JSON text of the article endpoints, parsed into values.
//!
//! The payloads these endpoints return are shallow: scalars, arrays of
//! scalars, and flat objects. The grammar here covers exactly that shape:
//! the spec functions are the grammar, and each parser is proved to return
//! precisely what its spec function states, on every input.

use vstd::prelude::*;

use crate::json::{JScalar, JScalarV, JItem, JItemV, JObj};

verus! {

/// A JSON whitespace character.
pub open spec fn spec_is_ws(c: char) -> bool {
    c == ' ' || c == '\t' || c == '\n' || c == '\r'
}

/// A decimal digit.
pub open spec fn spec_is_digit(c: char) -> bool {
    '0' <= c && c <= '9'
}

/// The value of a digit character.
pub open spec fn spec_digit_val(c: char) -> int {
    c as int - '0' as int
}

/// The first position at or after `i` that holds no whitespace.
pub open spec fn spec_skip_ws(s: Seq<char>, i: int) -> int
    decreases s.len() - i,
{
    if i < 0 || i >= s.len() {
        i
    } else if spec_is_ws(s[i]) {
        spec_skip_ws(s, i + 1)
    } else {
        i
    }
}

/// Advances past whitespace.
pub fn skip_ws(s: &Vec<char>, i: usize) -> (r: usize)
    requires
        i <= s@.len(),
    ensures
        r == spec_skip_ws(s@, i as int),
        i <= r <= s@.len(),
{
    let n = s.len();
    let mut j = i;
    while j < n
        invariant
            n == s@.len(),
            i <= j <= n,
            spec_skip_ws(s@, i as int) == spec_skip_ws(s@, j as int),
        decreases n - j,
    {
        let c = s[j];
        if !(c == ' ' || c == '\t' || c == '\n' || c == '\r') {
            return j;
        }
        j += 1;
    }
    j
}

/// The character an escape letter stands for, if it is one the grammar
/// takes: quote, backslash, slash, and the usual control abbreviations.
pub open spec fn spec_esc_char(e: char) -> Option<char> {
    if e == '"' { Some('"') }
    else if e == '\\' { Some('\\') }
    else if e == '/' { Some('/') }
    else if e == 'n' { Some('\n') }
    else if e == 't' { Some('\t') }
    else if e == 'r' { Some('\r') }
    else if e == 'b' { Some('\u{8}') }
    else if e == 'f' { Some('\u{c}') }
    else { None::<char> }
}

/// The rest of a string literal from `i` (past the opening quote): the
/// characters up to the closing quote, escapes resolved, and the position
/// after that quote. Unescaped control characters and unknown escapes are
/// refused.
pub open spec fn spec_string_body(s: Seq<char>, i: int) -> Option<(Seq<char>, int)>
    decreases s.len() - i,
{
    if i < 0 || i >= s.len() {
        None
    } else {
        let c = s[i];
        if c == '"' {
            Some((Seq::<char>::empty(), i + 1))
        } else if c == '\\' {
            if i + 1 < s.len() {
                match spec_esc_char(s[i + 1]) {
                    Some(u) => match spec_string_body(s, i + 2) {
                        Some(t) => Some((seq![u] + t.0, t.1)),
                        None => None,
                    },
                    None => None,
                }
            } else {
                None
            }
        } else if (c as u32) < 32 {
            None
        } else {
            match spec_string_body(s, i + 1) {
                Some(t) => Some((seq![c] + t.0, t.1)),
                None => None,
            }
        }
    }
}

/// Prefixes the parsed characters of `o` with `pre`.
pub open spec fn prepend_chars(pre: Seq<char>, o: Option<(Seq<char>, int)>) -> Option<(Seq<char>, int)> {
    match o {
        Some(t) => Some((pre + t.0, t.1)),
        None => None,
    }
}

/// The escape resolution, executably.
fn esc_char(e: char) -> (r: Option<char>)
    ensures
        r == spec_esc_char(e),
{
    if e == '"' { Some('"') }
    else if e == '\\' { Some('\\') }
    else if e == '/' { Some('/') }
    else if e == 'n' { Some('\n') }
    else if e == 't' { Some('\t') }
    else if e == 'r' { Some('\r') }
    else if e == 'b' { Some('\u{8}') }
    else if e == 'f' { Some('\u{c}') }
    else { None }
}

/// Reads a string literal's remainder from `i`, past the opening quote,
/// exactly as `spec_string_body` states it.
pub fn parse_string_body(s: &Vec<char>, i: usize) -> (r: Option<(Vec<char>, usize)>)
    requires
        i <= s@.len(),
    ensures
        match r {
            Some(t) => spec_string_body(s@, i as int) == Some((t.0@, t.1 as int))
                && i < t.1 <= s@.len(),
            None => spec_string_body(s@, i as int) is None,
        },
{
    let n = s.len();
    let mut out: Vec<char> = Vec::new();
    let mut j = i;
    while j < n
        invariant
            n == s@.len(),
            i <= j <= n,
            spec_string_body(s@, i as int) == prepend_chars(out@, spec_string_body(s@, j as int)),
        decreases n - j,
    {
        let c = s[j];
        if c == '"' {
            proof {
                assert(out@ + Seq::<char>::empty() =~= out@);
            }
            return Some((out, j + 1));
        } else if c == '\\' {
            if j + 1 < n {
                match esc_char(s[j + 1]) {
                    Some(u) => {
                        proof {
                            assert forall|t: Option<(Seq<char>, int)>|
                                prepend_chars(out@, prepend_chars(seq![u], t))
                                    == prepend_chars(out@.push(u), t) by {
                                match t {
                                    Some(p) => {
                                        assert(out@ + (seq![u] + p.0) =~= out@.push(u) + p.0);
                                    },
                                    None => {},
                                }
                            }
                        }
                        out.push(u);
                        j += 2;
                    },
                    None => {
                        return None;
                    },
                }
            } else {
                return None;
            }
        } else if (c as u32) < 32 {
            return None;
        } else {
            proof {
                assert forall|t: Option<(Seq<char>, int)>|
                    prepend_chars(out@, prepend_chars(seq![c], t))
                        == prepend_chars(out@.push(c), t) by {
                    match t {
                        Some(p) => {
                            assert(out@ + (seq![c] + p.0) =~= out@.push(c) + p.0);
                        },
                        None => {},
                    }
                }
            }
            out.push(c);
            j += 1;
        }
    }
    None
}

// ---------------------------------------------------------------------------
// Numbers
// ---------------------------------------------------------------------------

/// The end of the digit run that starts at `i`.
pub open spec fn spec_digits_end(s: Seq<char>, i: int) -> int
    decreases s.len() - i,
{
    if i < 0 || i >= s.len() {
        i
    } else if spec_is_digit(s[i]) {
        spec_digits_end(s, i + 1)
    } else {
        i
    }
}

/// The value of the digits `s[i..e]`, most significant first.
pub open spec fn spec_digits_val(s: Seq<char>, i: int, e: int) -> int
    decreases e - i,
{
    if e <= i {
        0
    } else {
        spec_digits_val(s, i, e - 1) * 10 + spec_digit_val(s[e - 1])
    }
}

/// Powers of ten.
pub open spec fn pow10(n: nat) -> int
    decreases n,
{
    if n == 0 {
        1
    } else {
        10 * pow10((n - 1) as nat)
    }
}

/// A JSON integer at `i`: an optional minus sign and one to eighteen
/// digits (the magnitudes the article payloads carry), its value, and the
/// position after it.
pub open spec fn spec_parse_int(s: Seq<char>, i: int) -> Option<(int, int)> {
    let neg = 0 <= i < s.len() && s[i] == '-';
    let d0 = if neg { i + 1 } else { i };
    let e = spec_digits_end(s, d0);
    if e - d0 < 1 || e - d0 > 18 {
        None
    } else if neg {
        Some((-spec_digits_val(s, d0, e), e))
    } else {
        Some((spec_digits_val(s, d0, e), e))
    }
}

/// A digit run's value is bounded by the power of ten of its length.
proof fn lemma_digits_val_bound(s: Seq<char>, i: int, e: int)
    requires
        i <= e <= s.len(),
        0 <= i,
        forall|k: int| i <= k < e ==> spec_is_digit(#[trigger] s[k]),
    ensures
        0 <= spec_digits_val(s, i, e) < pow10((e - i) as nat),
    decreases e - i,
{
    if e > i {
        lemma_digits_val_bound(s, i, e - 1);
    }
}

/// The digit run from `i` stays within `[i, s.len()]` and is all digits.
proof fn lemma_digits_end_bounds(s: Seq<char>, i: int)
    requires
        0 <= i <= s.len(),
    ensures
        i <= spec_digits_end(s, i) <= s.len(),
        forall|k: int| i <= k < spec_digits_end(s, i) ==> spec_is_digit(#[trigger] s[k]),
    decreases s.len() - i,
{
    if i < s.len() && spec_is_digit(s[i]) {
        lemma_digits_end_bounds(s, i + 1);
    }
}

/// Reads a JSON integer at `i`, exactly as `spec_parse_int` states it.
pub fn parse_int(s: &Vec<char>, i: usize) -> (r: Option<(i64, usize)>)
    requires
        i <= s@.len(),
    ensures
        match r {
            Some(t) => spec_parse_int(s@, i as int) == Some((t.0 as int, t.1 as int))
                && i < t.1 <= s@.len(),
            None => spec_parse_int(s@, i as int) is None,
        },
{
    let n = s.len();
    let neg = i < n && s[i] == '-';
    let d0 = if neg { i + 1 } else { i };
    proof {
        reveal_with_fuel(pow10, 20);
    }
    let mut j = d0;
    let mut acc: i64 = 0;
    while j < n && '0' <= s[j] && s[j] <= '9'
        invariant
            n == s@.len(),
            i <= d0 <= n,
            neg == (0 <= (i as int) && (i as int) < s@.len() && s@[i as int] == '-'),
            d0 as int == (if neg { i as int + 1 } else { i as int }),
            d0 <= j <= n,
            j - d0 <= 18,
            spec_digits_end(s@, d0 as int) == spec_digits_end(s@, j as int),
            acc == spec_digits_val(s@, d0 as int, j as int),
            0 <= acc < pow10((j - d0) as nat),
            pow10(18) == 1000000000000000000,
            forall|k: int| d0 <= k < j ==> spec_is_digit(#[trigger] s@[k]),
        decreases n - j,
    {
        if j - d0 == 18 {
            proof {
                assert(spec_digits_end(s@, j as int) == spec_digits_end(s@, j as int + 1));
                lemma_digits_end_bounds(s@, j as int + 1);
                assert(spec_digits_end(s@, d0 as int) - d0 > 18);
                assert(spec_parse_int(s@, i as int) is None);
            }
            return None;
        }
        proof {
            assert(pow10((j - d0 + 1) as nat) == 10 * pow10((j - d0) as nat));
            assert(pow10((j - d0 + 1) as nat) <= pow10(18)) by {
                lemma_pow10_mono((j - d0 + 1) as nat, 18);
            }
        }
        let c = s[j];
        let d: i64 = (c as u32 as i64) - ('0' as u32 as i64);
        acc = acc * 10 + d;
        j += 1;
    }
    if j == d0 {
        return None;
    }
    if neg {
        Some((-acc, j))
    } else {
        Some((acc, j))
    }
}

/// Powers of ten grow with the exponent.
proof fn lemma_pow10_mono(a: nat, b: nat)
    requires
        a <= b,
    ensures
        pow10(a) <= pow10(b),
        1 <= pow10(a),
    decreases b,
{
    if a < b {
        lemma_pow10_mono(a, (b - 1) as nat);
        assert(pow10(b) == 10 * pow10((b - 1) as nat));
    } else if a == b && b > 0 {
        lemma_pow10_mono((a - 1) as nat, (b - 1) as nat);
    }
}

// ---------------------------------------------------------------------------
// Scalars
// ---------------------------------------------------------------------------

/// A scalar JSON value at `i`: a keyword, a number, or a string, with the
/// position after it.
pub open spec fn spec_parse_scalar(s: Seq<char>, i: int) -> Option<(JScalarV, int)> {
    if i < 0 || i >= s.len() {
        None
    } else {
        let c = s[i];
        if c == 'n' {
            if i + 4 <= s.len() && s[i + 1] == 'u' && s[i + 2] == 'l' && s[i + 3] == 'l' {
                Some((JScalarV::Null, i + 4))
            } else {
                None
            }
        } else if c == 't' {
            if i + 4 <= s.len() && s[i + 1] == 'r' && s[i + 2] == 'u' && s[i + 3] == 'e' {
                Some((JScalarV::Bool(true), i + 4))
            } else {
                None
            }
        } else if c == 'f' {
            if i + 5 <= s.len() && s[i + 1] == 'a' && s[i + 2] == 'l' && s[i + 3] == 's'
                && s[i + 4] == 'e' {
                Some((JScalarV::Bool(false), i + 5))
            } else {
                None
            }
        } else if c == '"' {
            match spec_string_body(s, i + 1) {
                Some(t) => Some((JScalarV::Str(t.0), t.1)),
                None => None,
            }
        } else if c == '-' || spec_is_digit(c) {
            match spec_parse_int(s, i) {
                Some(t) => Some((JScalarV::Int(t.0), t.1)),
                None => None,
            }
        } else {
            None
        }
    }
}

/// Reads a scalar at `i`, exactly as `spec_parse_scalar` states it.
pub fn parse_scalar(s: &Vec<char>, i: usize) -> (r: Option<(JScalar, usize)>)
    requires
        i <= s@.len(),
    ensures
        match r {
            Some(t) => spec_parse_scalar(s@, i as int) == Some((t.0@, t.1 as int))
                && i < t.1 <= s@.len(),
            None => spec_parse_scalar(s@, i as int) is None,
        },
{
    let n = s.len();
    if i >= n {
        return None;
    }
    let c = s[i];
    if c == 'n' {
        if n - i >= 4 && s[i + 1] == 'u' && s[i + 2] == 'l' && s[i + 3] == 'l' {
            Some((JScalar::Null, i + 4))
        } else {
            None
        }
    } else if c == 't' {
        if n - i >= 4 && s[i + 1] == 'r' && s[i + 2] == 'u' && s[i + 3] == 'e' {
            Some((JScalar::Bool(true), i + 4))
        } else {
            None
        }
    } else if c == 'f' {
        if n - i >= 5 && s[i + 1] == 'a' && s[i + 2] == 'l' && s[i + 3] == 's' && s[i + 4] == 'e' {
            Some((JScalar::Bool(false), i + 5))
        } else {
            None
        }
    } else if c == '"' {
        match parse_string_body(s, i + 1) {
            Some(t) => Some((JScalar::Str(crate::json::chars_to_string(&t.0)), t.1)),
            None => None,
        }
    } else if c == '-' || ('0' <= c && c <= '9') {
        match parse_int(s, i) {
            Some(t) => Some((JScalar::Int(t.0), t.1)),
            None => None,
        }
    } else {
        None
    }
}

// ---------------------------------------------------------------------------
// Lists and objects
// ---------------------------------------------------------------------------

/// `i`, though never before `lo` nor past the end of `s`. The parsers
/// below only ever pass positions already in that range, so this changes
/// nothing on a real run; it makes the grammar's progress plain.
pub open spec fn advance_to(s: Seq<char>, lo: int, i: int) -> int {
    let a = if i > lo { i } else { lo };
    if a <= s.len() {
        a
    } else {
        s.len() as int
    }
}

/// Prefixes the parsed elements of `o` with `pre`.
pub open spec fn prepend_parsed<T>(pre: Seq<T>, o: Option<(Seq<T>, int)>) -> Option<(Seq<T>, int)> {
    match o {
        Some(t) => Some((pre + t.0, t.1)),
        None => None,
    }
}

/// Prefixing twice is prefixing with the concatenation.
proof fn lemma_prepend_assoc<T>(a: Seq<T>, b: Seq<T>, o: Option<(Seq<T>, int)>)
    ensures
        prepend_parsed(a, prepend_parsed(b, o)) == prepend_parsed(a + b, o),
{
    match o {
        Some(t) => {
            assert(a + (b + t.0) =~= (a + b) + t.0);
        },
        None => {},
    }
}

/// Prefixing with nothing changes nothing.
proof fn lemma_prepend_nil<T>(o: Option<(Seq<T>, int)>)
    ensures
        prepend_parsed(Seq::<T>::empty(), o) == o,
{
    match o {
        Some(t) => {
            assert(Seq::<T>::empty() + t.0 =~= t.0);
        },
        None => {},
    }
}

/// The elements of a scalar array from the first element at `i` to the
/// closing bracket: scalars separated by commas.
pub open spec fn spec_scalar_items(s: Seq<char>, i: int) -> Option<(Seq<JScalarV>, int)>
    decreases s.len() - i,
{
    if i < 0 || i >= s.len() {
        None
    } else {
        match spec_parse_scalar(s, i) {
            None => None,
            Some(t) => {
                let k = advance_to(s, i + 1, spec_skip_ws(s, advance_to(s, i + 1, t.1)));
                if k < s.len() && s[k] == ']' {
                    Some((seq![t.0], k + 1))
                } else if k < s.len() && s[k] == ',' {
                    let m = advance_to(s, k + 1, spec_skip_ws(s, k + 1));
                    match spec_scalar_items(s, m) {
                        Some(rest) => Some((seq![t.0] + rest.0, rest.1)),
                        None => None,
                    }
                } else {
                    None
                }
            },
        }
    }
}

/// A scalar array at `i`: bracket, elements, bracket.
pub open spec fn spec_parse_scalar_array(s: Seq<char>, i: int) -> Option<(Seq<JScalarV>, int)> {
    if 0 <= i && i < s.len() && s[i] == '[' {
        let k = advance_to(s, i + 1, spec_skip_ws(s, i + 1));
        if k < s.len() && s[k] == ']' {
            Some((Seq::<JScalarV>::empty(), k + 1))
        } else {
            spec_scalar_items(s, k)
        }
    } else {
        None
    }
}

/// Reads scalar array elements from `i`, exactly as `spec_scalar_items`
/// states it.
fn parse_scalar_items(s: &Vec<char>, i: usize) -> (r: Option<(Vec<JScalar>, usize)>)
    requires
        i <= s@.len(),
    ensures
        match r {
            Some(t) => spec_scalar_items(s@, i as int)
                == Some((t.0@.map_values(|x: JScalar| x@), t.1 as int)) && i < t.1 <= s@.len(),
            None => spec_scalar_items(s@, i as int) is None,
        },
{
    let n = s.len();
    let mut out: Vec<JScalar> = Vec::new();
    let mut j = i;
    proof {
        lemma_prepend_nil(spec_scalar_items(s@, i as int));
        assert(out@.map_values(|x: JScalar| x@) =~= Seq::<JScalarV>::empty());
    }
    loop
        invariant
            n == s@.len(),
            i <= j <= n,
            spec_scalar_items(s@, i as int) == prepend_parsed(
                out@.map_values(|x: JScalar| x@),
                spec_scalar_items(s@, j as int),
            ),
        decreases n - j,
    {
        let ghost om = out@.map_values(|x: JScalar| x@);
        match parse_scalar(s, j) {
            None => {
                return None;
            },
            Some((v, j2)) => {
                let k = skip_ws(s, j2);
                proof {
                    assert(advance_to(s@, j as int + 1, j2 as int) == j2 as int);
                    assert(advance_to(s@, j as int + 1, spec_skip_ws(s@, j2 as int)) == k as int);
                }
                if k < n && s[k] == ']' {
                    let ghost vv = v@;
                    out.push(v);
                    proof {
                        assert(out@.map_values(|x: JScalar| x@) =~= om + seq![vv]);
                        assert(om + seq![vv] + Seq::<JScalarV>::empty() =~= om + seq![vv]);
                    }
                    return Some((out, k + 1));
                } else if k < n && s[k] == ',' {
                    let m = skip_ws(s, k + 1);
                    proof {
                        assert(advance_to(s@, k as int + 1, spec_skip_ws(s@, k as int + 1))
                            == m as int);
                        assert(spec_scalar_items(s@, j as int)
                            == prepend_parsed(seq![v@], spec_scalar_items(s@, m as int)));
                        lemma_prepend_assoc(om, seq![v@], spec_scalar_items(s@, m as int));
                    }
                    let ghost vv = v@;
                    out.push(v);
                    proof {
                        assert(out@.map_values(|x: JScalar| x@) =~= om + seq![vv]);
                    }
                    j = m;
                } else {
                    return None;
                }
            },
        }
    }
}

/// Reads a scalar array at `i`, exactly as `spec_parse_scalar_array`
/// states it.
pub fn parse_scalar_array(s: &Vec<char>, i: usize) -> (r: Option<(Vec<JScalar>, usize)>)
    requires
        i <= s@.len(),
    ensures
        match r {
            Some(t) => spec_parse_scalar_array(s@, i as int)
                == Some((t.0@.map_values(|x: JScalar| x@), t.1 as int)) && i < t.1 <= s@.len(),
            None => spec_parse_scalar_array(s@, i as int) is None,
        },
{
    let n = s.len();
    if i < n && s[i] == '[' {
        let k = skip_ws(s, i + 1);
        proof {
            assert(advance_to(s@, i as int + 1, spec_skip_ws(s@, i as int + 1)) == k as int);
        }
        if k < n && s[k] == ']' {
            let out: Vec<JScalar> = Vec::new();
            proof {
                assert(out@.map_values(|x: JScalar| x@) =~= Seq::<JScalarV>::empty());
            }
            Some((out, k + 1))
        } else {
            parse_scalar_items(s, k)
        }
    } else {
        None
    }
}

/// The members of a flat scalar object from the first key at `i` to the
/// closing brace: string keys, colons, scalar values, commas between.
pub open spec fn spec_sobj_members(s: Seq<char>, i: int) -> Option<(Seq<(Seq<char>, JScalarV)>, int)>
    decreases s.len() - i,
{
    if i < 0 || i >= s.len() {
        None
    } else if s[i] != '"' {
        None
    } else {
        match spec_string_body(s, i + 1) {
            None => None,
            Some(key) => {
                let c = advance_to(s, i + 1, spec_skip_ws(s, advance_to(s, i + 1, key.1)));
                if c < s.len() && s[c] == ':' {
                    let v0 = advance_to(s, c + 1, spec_skip_ws(s, c + 1));
                    match spec_parse_scalar(s, v0) {
                        None => None,
                        Some(val) => {
                            let k = advance_to(s, v0, spec_skip_ws(s, advance_to(s, v0, val.1)));
                            if k < s.len() && s[k] == '}' {
                                Some((seq![(key.0, val.0)], k + 1))
                            } else if k < s.len() && s[k] == ',' {
                                let m = advance_to(s, k + 1, spec_skip_ws(s, k + 1));
                                match spec_sobj_members(s, m) {
                                    Some(rest) => Some((seq![(key.0, val.0)] + rest.0, rest.1)),
                                    None => None,
                                }
                            } else {
                                None
                            }
                        },
                    }
                } else {
                    None
                }
            },
        }
    }
}

/// A flat scalar object at `i`: brace, members, brace.
pub open spec fn spec_parse_sobj(s: Seq<char>, i: int) -> Option<(Seq<(Seq<char>, JScalarV)>, int)> {
    if 0 <= i && i < s.len() && s[i] == '{' {
        let k = advance_to(s, i + 1, spec_skip_ws(s, i + 1));
        if k < s.len() && s[k] == '}' {
            Some((Seq::<(Seq<char>, JScalarV)>::empty(), k + 1))
        } else {
            spec_sobj_members(s, k)
        }
    } else {
        None
    }
}

/// Reads flat object members from `i`, exactly as `spec_sobj_members`
/// states it.
fn parse_sobj_members(s: &Vec<char>, i: usize) -> (r: Option<(Vec<(String, JScalar)>, usize)>)
    requires
        i <= s@.len(),
    ensures
        match r {
            Some(t) => spec_sobj_members(s@, i as int)
                == Some((crate::json::sobj_view(t.0@), t.1 as int)) && i < t.1 <= s@.len(),
            None => spec_sobj_members(s@, i as int) is None,
        },
{
    let n = s.len();
    let mut out: Vec<(String, JScalar)> = Vec::new();
    let mut j = i;
    proof {
        lemma_prepend_nil(spec_sobj_members(s@, i as int));
        assert(crate::json::sobj_view(out@) =~= Seq::<(Seq<char>, JScalarV)>::empty());
    }
    loop
        invariant
            n == s@.len(),
            i <= j <= n,
            spec_sobj_members(s@, i as int) == prepend_parsed(
                crate::json::sobj_view(out@),
                spec_sobj_members(s@, j as int),
            ),
        decreases n - j,
    {
        let ghost om = crate::json::sobj_view(out@);
        if j >= n || s[j] != '"' {
            return None;
        }
        match parse_string_body(s, j + 1) {
            None => {
                return None;
            },
            Some((key_chars, ke)) => {
                let c = skip_ws(s, ke);
                proof {
                    assert(advance_to(s@, j as int + 1, ke as int) == ke as int);
                    assert(advance_to(s@, j as int + 1, spec_skip_ws(s@, ke as int)) == c as int);
                }
                if !(c < n && s[c] == ':') {
                    return None;
                }
                let v0 = skip_ws(s, c + 1);
                proof {
                    assert(advance_to(s@, c as int + 1, spec_skip_ws(s@, c as int + 1))
                        == v0 as int);
                }
                match parse_scalar(s, v0) {
                    None => {
                        return None;
                    },
                    Some((v, ve)) => {
                        let k = skip_ws(s, ve);
                        proof {
                            assert(advance_to(s@, v0 as int, ve as int) == ve as int);
                            assert(advance_to(s@, v0 as int, spec_skip_ws(s@, ve as int))
                                == k as int);
                        }
                        let key = crate::json::chars_to_string(&key_chars);
                        let ghost kk = key@;
                        let ghost vv = v@;
                        if k < n && s[k] == '}' {
                            out.push((key, v));
                            proof {
                                assert(crate::json::sobj_view(out@) =~= om + seq![(kk, vv)]);
                                assert(om + seq![(kk, vv)] + Seq::<(Seq<char>, JScalarV)>::empty()
                                    =~= om + seq![(kk, vv)]);
                            }
                            return Some((out, k + 1));
                        } else if k < n && s[k] == ',' {
                            let m = skip_ws(s, k + 1);
                            proof {
                                assert(advance_to(s@, k as int + 1, spec_skip_ws(s@, k as int + 1))
                                    == m as int);
                                assert(spec_sobj_members(s@, j as int) == prepend_parsed(
                                    seq![(kk, vv)],
                                    spec_sobj_members(s@, m as int),
                                ));
                                lemma_prepend_assoc(om, seq![(kk, vv)],
                                    spec_sobj_members(s@, m as int));
                            }
                            out.push((key, v));
                            proof {
                                assert(crate::json::sobj_view(out@) =~= om + seq![(kk, vv)]);
                            }
                            j = m;
                        } else {
                            return None;
                        }
                    },
                }
            },
        }
    }
}

/// Reads a flat scalar object at `i`, exactly as `spec_parse_sobj` states
/// it.
pub fn parse_sobj(s: &Vec<char>, i: usize) -> (r: Option<(Vec<(String, JScalar)>, usize)>)
    requires
        i <= s@.len(),
    ensures
        match r {
            Some(t) => spec_parse_sobj(s@, i as int)
                == Some((crate::json::sobj_view(t.0@), t.1 as int)) && i < t.1 <= s@.len(),
            None => spec_parse_sobj(s@, i as int) is None,
        },
{
    let n = s.len();
    if i < n && s[i] == '{' {
        let k = skip_ws(s, i + 1);
        proof {
            assert(advance_to(s@, i as int + 1, spec_skip_ws(s@, i as int + 1)) == k as int);
        }
        if k < n && s[k] == '}' {
            let out: Vec<(String, JScalar)> = Vec::new();
            proof {
                assert(crate::json::sobj_view(out@) =~= Seq::<(Seq<char>, JScalarV)>::empty());
            }
            Some((out, k + 1))
        } else {
            parse_sobj_members(s, k)
        }
    } else {
        None
    }
}

// ---------------------------------------------------------------------------
// Member values and article objects
// ---------------------------------------------------------------------------

/// A member value at `i`: a scalar, a scalar array, or a flat scalar
/// object, as the article payloads carry them.
pub open spec fn spec_parse_item(s: Seq<char>, i: int) -> Option<(JItemV, int)> {
    if i < 0 || i >= s.len() {
        None
    } else if s[i] == '[' {
        match spec_parse_scalar_array(s, i) {
            Some(t) => Some((JItemV::Arr(t.0), t.1)),
            None => None,
        }
    } else if s[i] == '{' {
        match spec_parse_sobj(s, i) {
            Some(t) => Some((JItemV::Obj(t.0), t.1)),
            None => None,
        }
    } else {
        match spec_parse_scalar(s, i) {
            Some(t) => Some((JItemV::Scalar(t.0), t.1)),
            None => None,
        }
    }
}

/// Reads a member value at `i`, exactly as `spec_parse_item` states it.
pub fn parse_item(s: &Vec<char>, i: usize) -> (r: Option<(JItem, usize)>)
    requires
        i <= s@.len(),
    ensures
        match r {
            Some(t) => spec_parse_item(s@, i as int) == Some((t.0@, t.1 as int))
                && i < t.1 <= s@.len(),
            None => spec_parse_item(s@, i as int) is None,
        },
{
    let n = s.len();
    if i >= n {
        return None;
    }
    let c = s[i];
    if c == '[' {
        match parse_scalar_array(s, i) {
            Some((v, e)) => Some((JItem::Arr(v), e)),
            None => None,
        }
    } else if c == '{' {
        match parse_sobj(s, i) {
            Some((v, e)) => Some((JItem::Obj(v), e)),
            None => None,
        }
    } else {
        match parse_scalar(s, i) {
            Some((v, e)) => Some((JItem::Scalar(v), e)),
            None => None,
        }
    }
}

/// The members of an article object from the first key at `i` to the
/// closing brace.
pub open spec fn spec_obj_members(s: Seq<char>, i: int) -> Option<(Seq<(Seq<char>, JItemV)>, int)>
    decreases s.len() - i,
{
    if i < 0 || i >= s.len() {
        None
    } else if s[i] != '"' {
        None
    } else {
        match spec_string_body(s, i + 1) {
            None => None,
            Some(key) => {
                let c = advance_to(s, i + 1, spec_skip_ws(s, advance_to(s, i + 1, key.1)));
                if c < s.len() && s[c] == ':' {
                    let v0 = advance_to(s, c + 1, spec_skip_ws(s, c + 1));
                    match spec_parse_item(s, v0) {
                        None => None,
                        Some(val) => {
                            let k = advance_to(s, v0, spec_skip_ws(s, advance_to(s, v0, val.1)));
                            if k < s.len() && s[k] == '}' {
                                Some((seq![(key.0, val.0)], k + 1))
                            } else if k < s.len() && s[k] == ',' {
                                let m = advance_to(s, k + 1, spec_skip_ws(s, k + 1));
                                match spec_obj_members(s, m) {
                                    Some(rest) => Some((seq![(key.0, val.0)] + rest.0, rest.1)),
                                    None => None,
                                }
                            } else {
                                None
                            }
                        },
                    }
                } else {
                    None
                }
            },
        }
    }
}

/// An article object at `i`: brace, members, brace.
pub open spec fn spec_parse_obj(s: Seq<char>, i: int) -> Option<(Seq<(Seq<char>, JItemV)>, int)> {
    if 0 <= i && i < s.len() && s[i] == '{' {
        let k = advance_to(s, i + 1, spec_skip_ws(s, i + 1));
        if k < s.len() && s[k] == '}' {
            Some((Seq::<(Seq<char>, JItemV)>::empty(), k + 1))
        } else {
            spec_obj_members(s, k)
        }
    } else {
        None
    }
}

/// The view of article object members under construction.
pub open spec fn obj_fields_view(v: Seq<(String, JItem)>) -> Seq<(Seq<char>, JItemV)> {
    v.map_values(|p: (String, JItem)| (p.0@, p.1@))
}

/// Reads article object members from `i`, exactly as `spec_obj_members`
/// states it.
fn parse_obj_members(s: &Vec<char>, i: usize) -> (r: Option<(Vec<(String, JItem)>, usize)>)
    requires
        i <= s@.len(),
    ensures
        match r {
            Some(t) => spec_obj_members(s@, i as int)
                == Some((obj_fields_view(t.0@), t.1 as int)) && i < t.1 <= s@.len(),
            None => spec_obj_members(s@, i as int) is None,
        },
{
    let n = s.len();
    let mut out: Vec<(String, JItem)> = Vec::new();
    let mut j = i;
    proof {
        lemma_prepend_nil(spec_obj_members(s@, i as int));
        assert(obj_fields_view(out@) =~= Seq::<(Seq<char>, JItemV)>::empty());
    }
    loop
        invariant
            n == s@.len(),
            i <= j <= n,
            spec_obj_members(s@, i as int) == prepend_parsed(
                obj_fields_view(out@),
                spec_obj_members(s@, j as int),
            ),
        decreases n - j,
    {
        let ghost om = obj_fields_view(out@);
        if j >= n || s[j] != '"' {
            return None;
        }
        match parse_string_body(s, j + 1) {
            None => {
                return None;
            },
            Some((key_chars, ke)) => {
                let c = skip_ws(s, ke);
                proof {
                    assert(advance_to(s@, j as int + 1, ke as int) == ke as int);
                    assert(advance_to(s@, j as int + 1, spec_skip_ws(s@, ke as int)) == c as int);
                }
                if !(c < n && s[c] == ':') {
                    return None;
                }
                let v0 = skip_ws(s, c + 1);
                proof {
                    assert(advance_to(s@, c as int + 1, spec_skip_ws(s@, c as int + 1))
                        == v0 as int);
                }
                match parse_item(s, v0) {
                    None => {
                        return None;
                    },
                    Some((v, ve)) => {
                        let k = skip_ws(s, ve);
                        proof {
                            assert(advance_to(s@, v0 as int, ve as int) == ve as int);
                            assert(advance_to(s@, v0 as int, spec_skip_ws(s@, ve as int))
                                == k as int);
                        }
                        let key = crate::json::chars_to_string(&key_chars);
                        let ghost kk = key@;
                        let ghost vv = v@;
                        if k < n && s[k] == '}' {
                            out.push((key, v));
                            proof {
                                assert(obj_fields_view(out@) =~= om + seq![(kk, vv)]);
                                assert(om + seq![(kk, vv)] + Seq::<(Seq<char>, JItemV)>::empty()
                                    =~= om + seq![(kk, vv)]);
                            }
                            return Some((out, k + 1));
                        } else if k < n && s[k] == ',' {
                            let m = skip_ws(s, k + 1);
                            proof {
                                assert(advance_to(s@, k as int + 1, spec_skip_ws(s@, k as int + 1))
                                    == m as int);
                                assert(spec_obj_members(s@, j as int) == prepend_parsed(
                                    seq![(kk, vv)],
                                    spec_obj_members(s@, m as int),
                                ));
                                lemma_prepend_assoc(om, seq![(kk, vv)],
                                    spec_obj_members(s@, m as int));
                            }
                            out.push((key, v));
                            proof {
                                assert(obj_fields_view(out@) =~= om + seq![(kk, vv)]);
                            }
                            j = m;
                        } else {
                            return None;
                        }
                    },
                }
            },
        }
    }
}

/// Reads an article object at `i`, exactly as `spec_parse_obj` states it.
pub fn parse_obj(s: &Vec<char>, i: usize) -> (r: Option<(JObj, usize)>)
    requires
        i <= s@.len(),
    ensures
        match r {
            Some(t) => spec_parse_obj(s@, i as int) == Some((t.0@, t.1 as int))
                && i < t.1 <= s@.len(),
            None => spec_parse_obj(s@, i as int) is None,
        },
{
    let n = s.len();
    if i < n && s[i] == '{' {
        let k = skip_ws(s, i + 1);
        proof {
            assert(advance_to(s@, i as int + 1, spec_skip_ws(s@, i as int + 1)) == k as int);
        }
        if k < n && s[k] == '}' {
            let o = JObj { fields: Vec::new() };
            proof {
                assert(o@ =~= Seq::<(Seq<char>, JItemV)>::empty());
            }
            Some((o, k + 1))
        } else {
            match parse_obj_members(s, k) {
                Some((fields, e)) => {
                    let o = JObj { fields };
                    Some((o, e))
                },
                None => None,
            }
        }
    } else {
        None
    }
}

// ---------------------------------------------------------------------------
// Documents
// ---------------------------------------------------------------------------

/// The elements of an article array from the first object at `i` to the
/// closing bracket.
pub open spec fn spec_article_items(s: Seq<char>, i: int) -> Option<(Seq<Seq<(Seq<char>, JItemV)>>, int)>
    decreases s.len() - i,
{
    if i < 0 || i >= s.len() {
        None
    } else {
        match spec_parse_obj(s, i) {
            None => None,
            Some(t) => {
                let k = advance_to(s, i + 1, spec_skip_ws(s, advance_to(s, i + 1, t.1)));
                if k < s.len() && s[k] == ']' {
                    Some((seq![t.0], k + 1))
                } else if k < s.len() && s[k] == ',' {
                    let m = advance_to(s, k + 1, spec_skip_ws(s, k + 1));
                    match spec_article_items(s, m) {
                        Some(rest) => Some((seq![t.0] + rest.0, rest.1)),
                        None => None,
                    }
                } else {
                    None
                }
            },
        }
    }
}

/// An article array at `i`: bracket, objects, bracket.
pub open spec fn spec_parse_articles_array(s: Seq<char>, i: int) -> Option<(Seq<Seq<(Seq<char>, JItemV)>>, int)> {
    if 0 <= i && i < s.len() && s[i] == '[' {
        let k = advance_to(s, i + 1, spec_skip_ws(s, i + 1));
        if k < s.len() && s[k] == ']' {
            Some((Seq::<Seq<(Seq<char>, JItemV)>>::empty(), k + 1))
        } else {
            spec_article_items(s, k)
        }
    } else {
        None
    }
}

/// Reads article array elements from `i`, exactly as `spec_article_items`
/// states it.
fn parse_article_items(s: &Vec<char>, i: usize) -> (r: Option<(Vec<JObj>, usize)>)
    requires
        i <= s@.len(),
    ensures
        match r {
            Some(t) => spec_article_items(s@, i as int)
                == Some((t.0@.map_values(|o: JObj| o@), t.1 as int))
                && i < t.1 <= s@.len(),
            None => spec_article_items(s@, i as int) is None,
        },
{
    let n = s.len();
    let mut out: Vec<JObj> = Vec::new();
    let mut j = i;
    proof {
        lemma_prepend_nil(spec_article_items(s@, i as int));
        assert(out@.map_values(|o: JObj| o@)
            =~= Seq::<Seq<(Seq<char>, JItemV)>>::empty());
    }
    loop
        invariant
            n == s@.len(),
            i <= j <= n,
            spec_article_items(s@, i as int) == prepend_parsed(
                out@.map_values(|o: JObj| o@),
                spec_article_items(s@, j as int),
            ),
        decreases n - j,
    {
        let ghost om = out@.map_values(|o: JObj| o@);
        match parse_obj(s, j) {
            None => {
                return None;
            },
            Some((o, j2)) => {
                let k = skip_ws(s, j2);
                proof {
                    assert(advance_to(s@, j as int + 1, j2 as int) == j2 as int);
                    assert(advance_to(s@, j as int + 1, spec_skip_ws(s@, j2 as int)) == k as int);
                }
                let ghost ov = o@;
                if k < n && s[k] == ']' {
                    out.push(o);
                    proof {
                        assert(out@.map_values(|x: JObj| x@) =~= om + seq![ov]);
                        assert(om + seq![ov] + Seq::<Seq<(Seq<char>, JItemV)>>::empty()
                            =~= om + seq![ov]);
                    }
                    return Some((out, k + 1));
                } else if k < n && s[k] == ',' {
                    let m = skip_ws(s, k + 1);
                    proof {
                        assert(advance_to(s@, k as int + 1, spec_skip_ws(s@, k as int + 1))
                            == m as int);
                        assert(spec_article_items(s@, j as int)
                            == prepend_parsed(seq![ov], spec_article_items(s@, m as int)));
                        lemma_prepend_assoc(om, seq![ov], spec_article_items(s@, m as int));
                    }
                    out.push(o);
                    proof {
                        assert(out@.map_values(|x: JObj| x@) =~= om + seq![ov]);
                    }
                    j = m;
                } else {
                    return None;
                }
            },
        }
    }
}

/// A whole document holding one article object, surrounding whitespace
/// allowed, nothing after it.
pub open spec fn spec_article_doc(s: Seq<char>) -> Option<Seq<(Seq<char>, JItemV)>> {
    let i = advance_to(s, 0, spec_skip_ws(s, 0));
    match spec_parse_obj(s, i) {
        Some(t) => if advance_to(s, t.1, spec_skip_ws(s, t.1)) == s.len() {
            Some(t.0)
        } else {
            None
        },
        None => None,
    }
}

/// A whole document holding an array of article objects, surrounding
/// whitespace allowed, nothing after it.
pub open spec fn spec_articles_doc(s: Seq<char>) -> Option<Seq<Seq<(Seq<char>, JItemV)>>> {
    let i = advance_to(s, 0, spec_skip_ws(s, 0));
    match spec_parse_articles_array(s, i) {
        Some(t) => if advance_to(s, t.1, spec_skip_ws(s, t.1)) == s.len() {
            Some(t.0)
        } else {
            None
        },
        None => None,
    }
}

/// Parses a document holding one article object, exactly as
/// `spec_article_doc` states it.
pub fn parse_article_text(s: &Vec<char>) -> (r: Option<JObj>)
    ensures
        match r {
            Some(o) => spec_article_doc(s@) == Some(o@),
            None => spec_article_doc(s@) is None,
        },
{
    let i = skip_ws(s, 0);
    proof {
        assert(advance_to(s@, 0, spec_skip_ws(s@, 0)) == i as int);
    }
    match parse_obj(s, i) {
        Some((o, e)) => {
            let k = skip_ws(s, e);
            proof {
                assert(advance_to(s@, e as int, spec_skip_ws(s@, e as int)) == k as int);
            }
            if k == s.len() {
                Some(o)
            } else {
                None
            }
        },
        None => None,
    }
}

/// Parses a document holding an array of article objects, exactly as
/// `spec_articles_doc` states it.
pub fn parse_articles_text(s: &Vec<char>) -> (r: Option<Vec<JObj>>)
    ensures
        match r {
            Some(v) => spec_articles_doc(s@)
                == Some(v@.map_values(|o: JObj| o@)),
            None => spec_articles_doc(s@) is None,
        },
{
    let i = skip_ws(s, 0);
    proof {
        assert(advance_to(s@, 0, spec_skip_ws(s@, 0)) == i as int);
    }
    let n = s.len();
    if i < n && s[i] == '[' {
        let k = skip_ws(s, i + 1);
        proof {
            assert(advance_to(s@, i as int + 1, spec_skip_ws(s@, i as int + 1)) == k as int);
        }
        let arr = if k < n && s[k] == ']' {
            let out: Vec<JObj> = Vec::new();
            proof {
                assert(out@.map_values(|o: JObj| o@)
                    =~= Seq::<Seq<(Seq<char>, JItemV)>>::empty());
            }
            Some((out, k + 1))
        } else {
            parse_article_items(s, k)
        };
        match arr {
            Some((v, e)) => {
                let k2 = skip_ws(s, e);
                proof {
                    assert(advance_to(s@, e as int, spec_skip_ws(s@, e as int)) == k2 as int);
                }
                if k2 == n {
                    Some(v)
                } else {
                    None
                }
            },
            None => None,
        }
    } else {
        None
    }
}

} // verus!
