//! The parser: source text to syntax tree.
//!
//! Every production exists twice: a spec function over `Seq<char>` that *is*
//! the grammar, and an executable function over `&str` proven to return
//! exactly what the spec function says.  A production yields one of three
//! outcomes: a parsed value with the index after it, a recoverable miss
//! (the caller tries its next alternative), or a hard failure (a committed
//! construct — an opened block, string or argument list — turned out
//! malformed, and no alternative may be tried).
//!
//! Termination: the scanners never move backwards, so every recursive call
//! stands under an index guard whose dead branch is unreachable; the guards
//! only make the termination measure evident.

use vstd::prelude::*;

use crate::expr::{
    view_expr, view_exprs, view_idents, view_ifstate, Block, Expr, ExprS, Float, FloatS, Ident,
    IfState, IfStateS, Literal, LiteralS, OrElse, OrElseS,
};
use vstd::string::StrSliceExecFns;
use vstd::string::StringExecFns;

verus! {

/// A parse outcome: a value and the index after it, a recoverable miss, or
/// a hard failure past the point of no return.
pub enum Parsed<T> {
    Found(T, usize),
    Miss,
    Fail,
}

/// The ghost mirror of a parse outcome.
pub enum ParsedS<T> {
    Found(T, int),
    Miss,
    Fail,
}

/// The executable outcome `r` is exactly the ghost outcome `sp`, with the
/// value carried across by the view `f`.
pub open spec fn agrees<T, TS>(r: Parsed<T>, sp: ParsedS<TS>, f: spec_fn(T) -> TS) -> bool {
    match r {
        Parsed::Found(v, j) => sp matches ParsedS::Found(vs, js) && f(v) == vs && j == js,
        Parsed::Miss => sp is Miss,
        Parsed::Fail => sp is Fail,
    }
}

/// A found outcome lies strictly after `i` and within the input.
pub open spec fn found_after<T>(r: Parsed<T>, i: int, len: int) -> bool {
    r matches Parsed::Found(_, j) ==> i < j <= len
}

/// A found outcome lies at or after `i` and within the input.
pub open spec fn found_from<T>(r: Parsed<T>, i: int, len: int) -> bool {
    r matches Parsed::Found(_, j) ==> i <= j <= len
}

pub open spec fn is_ws_char(c: char) -> bool {
    c == ' ' || c == '\t' || c == '\r' || c == '\n'
}

pub open spec fn is_sp_char(c: char) -> bool {
    c == ' ' || c == '\t'
}

pub open spec fn is_digit(c: char) -> bool {
    '0' <= c && c <= '9'
}

pub open spec fn is_ident_start(c: char) -> bool {
    ('a' <= c && c <= 'z') || ('A' <= c && c <= 'Z') || c == '_'
}

pub open spec fn is_ident_char(c: char) -> bool {
    is_ident_start(c) || is_digit(c)
}

/// The index after the whitespace run starting at `i`.
pub open spec fn ws_end(s: Seq<char>, i: int) -> int
    decreases s.len() - i,
{
    if 0 <= i < s.len() && is_ws_char(s[i]) {
        ws_end(s, i + 1)
    } else {
        i
    }
}

/// The index after the run of spaces and tabs starting at `i`.
pub open spec fn sp_end(s: Seq<char>, i: int) -> int
    decreases s.len() - i,
{
    if 0 <= i < s.len() && is_sp_char(s[i]) {
        sp_end(s, i + 1)
    } else {
        i
    }
}

/// The index after the digit run starting at `i`.
pub open spec fn digits_end(s: Seq<char>, i: int) -> int
    decreases s.len() - i,
{
    if 0 <= i < s.len() && is_digit(s[i]) {
        digits_end(s, i + 1)
    } else {
        i
    }
}

/// The index after the identifier-character run starting at `i`.
pub open spec fn ident_end(s: Seq<char>, i: int) -> int
    decreases s.len() - i,
{
    if 0 <= i < s.len() && is_ident_char(s[i]) {
        ident_end(s, i + 1)
    } else {
        i
    }
}

/// The word `kw` occurs in `s` at position `i`.
pub open spec fn kw_at(s: Seq<char>, i: int, kw: Seq<char>) -> bool {
    0 <= i && i + kw.len() <= s.len() && s.subrange(i, i + kw.len() as int) == kw
}

/// Skip whitespace.
pub fn ws(s: &str, i: usize) -> (j: usize)
    requires
        i <= s@.len(),
    ensures
        j == ws_end(s@, i as int),
        i <= j <= s@.len(),
    decreases s@.len() - i,
{
    if i < s.unicode_len() {
        let c = s.get_char(i);
        if c == ' ' || c == '\t' || c == '\r' || c == '\n' {
            return ws(s, i + 1);
        }
    }
    i
}

/// Skip spaces and tabs.
pub fn sp(s: &str, i: usize) -> (j: usize)
    requires
        i <= s@.len(),
    ensures
        j == sp_end(s@, i as int),
        i <= j <= s@.len(),
    decreases s@.len() - i,
{
    if i < s.unicode_len() {
        let c = s.get_char(i);
        if c == ' ' || c == '\t' {
            return sp(s, i + 1);
        }
    }
    i
}

/// Skip digits.
fn digits(s: &str, i: usize) -> (j: usize)
    requires
        i <= s@.len(),
    ensures
        j == digits_end(s@, i as int),
        i <= j <= s@.len(),
    decreases s@.len() - i,
{
    if i < s.unicode_len() {
        let c = s.get_char(i);
        if '0' <= c && c <= '9' {
            return digits(s, i + 1);
        }
    }
    i
}

/// Skip identifier characters.
fn ident_chars(s: &str, i: usize) -> (j: usize)
    requires
        i <= s@.len(),
    ensures
        j == ident_end(s@, i as int),
        i <= j <= s@.len(),
    decreases s@.len() - i,
{
    if i < s.unicode_len() {
        let c = s.get_char(i);
        if ('a' <= c && c <= 'z') || ('A' <= c && c <= 'Z') || c == '_' || ('0' <= c && c
            <= '9') {
            return ident_chars(s, i + 1);
        }
    }
    i
}

/// Does the word `kw` occur at position `i`?
pub fn has_kw(s: &str, i: usize, kw: &str) -> (b: bool)
    requires
        i <= s@.len(),
    ensures
        b == kw_at(s@, i as int, kw@),
{
    let slen = s.unicode_len();
    let n = kw.unicode_len();
    if n > slen - i {
        return false;
    }
    let mut k: usize = 0;
    while k < n
        invariant
            i + n <= slen,
            slen == s@.len(),
            n == kw@.len(),
            k <= n,
            forall|t: int| 0 <= t < k ==> s@[i + t] == kw@[t],
        decreases n - k,
    {
        if s.get_char(i + k) != kw.get_char(k) {
            proof {
                assert(s@.subrange(i as int, i + n) != kw@) by {
                    assert(s@.subrange(i as int, i + n)[k as int] == s@[i + k]);
                }
            }
            return false;
        }
        k = k + 1;
    }
    proof {
        assert(s@.subrange(i as int, i + n) =~= kw@);
    }
    true
}

/// The numeric value of a digit run `s[i..j]`, most significant first.
pub open spec fn digits_val(s: Seq<char>, i: int, j: int) -> int
    decreases j - i,
{
    if i >= j {
        0
    } else {
        digits_val(s, i, j - 1) * 10 + (s[j - 1] as u32 - '0' as u32)
    }
}

/// The value of a digit run is never negative.
proof fn lemma_digits_val_nonneg(s: Seq<char>, i: int, j: int)
    requires
        forall|t: int| i <= t < j ==> is_digit(#[trigger] s[t]),
    ensures
        digits_val(s, i, j) >= 0,
    decreases j - i,
{
    if i < j {
        lemma_digits_val_nonneg(s, i, j - 1);
    }
}

/// Extending a digit run to the right never shrinks its value.
proof fn lemma_digits_val_mono(s: Seq<char>, i: int, k: int, j: int)
    requires
        i <= k <= j,
        forall|t: int| i <= t < j ==> is_digit(#[trigger] s[t]),
    ensures
        digits_val(s, i, k) <= digits_val(s, i, j),
    decreases j - k,
{
    if k < j {
        lemma_digits_val_mono(s, i, k, j - 1);
        lemma_digits_val_nonneg(s, i, j - 1);
    }
}

/// A boolean literal: the word `true` or the word `false`.
pub open spec fn spec_bool_lit(s: Seq<char>, i: int) -> ParsedS<bool> {
    if kw_at(s, i, "true"@) {
        ParsedS::Found(true, i + 4)
    } else if kw_at(s, i, "false"@) {
        ParsedS::Found(false, i + 5)
    } else {
        ParsedS::Miss
    }
}

pub fn bool_lit(s: &str, i: usize) -> (r: Parsed<bool>)
    requires
        i <= s@.len() <= usize::MAX,
    ensures
        agrees(r, spec_bool_lit(s@, i as int), |b: bool| b),
        found_after(r, i as int, s@.len() as int),
{
    if has_kw(s, i, "true") {
        proof {
            reveal_strlit("true");
        }
        Parsed::Found(true, i + 4)
    } else if has_kw(s, i, "false") {
        proof {
            reveal_strlit("false");
        }
        Parsed::Found(false, i + 5)
    } else {
        Parsed::Miss
    }
}

/// An integer literal: an optional minus sign (whitespace may follow it),
/// then digits.  A value beyond the 64-bit signed range is a miss, not a
/// value.
pub open spec fn spec_int_lit(s: Seq<char>, i: int) -> ParsedS<i64> {
    let neg = 0 <= i < s.len() && s[i] == '-';
    let j0 = if neg {
        ws_end(s, i + 1)
    } else {
        i
    };
    let j1 = digits_end(s, j0);
    if j1 == j0 {
        ParsedS::Miss
    } else {
        let m = digits_val(s, j0, j1);
        if m > i64::MAX {
            ParsedS::Miss
        } else {
            ParsedS::Found(
                if neg {
                    (-m) as i64
                } else {
                    m as i64
                },
                j1,
            )
        }
    }
}

/// Accumulate the value of the digits `s[j0..j1]`, missing on overflow.
fn digits_to_i64(s: &str, j0: usize, j1: usize) -> (r: Option<i64>)
    requires
        j0 <= j1 <= s@.len(),
        forall|t: int| j0 <= t < j1 ==> is_digit(#[trigger] s@[t]),
    ensures
        match r {
            Some(v) => v == digits_val(s@, j0 as int, j1 as int) && v >= 0,
            None => digits_val(s@, j0 as int, j1 as int) > i64::MAX,
        },
{
    let mut acc: i64 = 0;
    let mut k: usize = j0;
    while k < j1
        invariant
            j0 <= k <= j1 <= s@.len(),
            forall|t: int| j0 <= t < j1 ==> is_digit(#[trigger] s@[t]),
            acc == digits_val(s@, j0 as int, k as int),
            acc >= 0,
        decreases j1 - k,
    {
        let c = s.get_char(k);
        let d: i64 = (c as u32 as i64) - 48;
        proof {
            assert(is_digit(s@[k as int]));
            assert(0 <= d <= 9);
        }
        let next = match acc.checked_mul(10) {
            Some(m) => match m.checked_add(d) {
                Some(v) => v,
                None => {
                    proof {
                        lemma_digits_val_mono(s@, j0 as int, k + 1, j1 as int);
                    }
                    return None;
                },
            },
            None => {
                proof {
                    lemma_digits_val_nonneg(s@, j0 as int, k as int);
                    lemma_digits_val_mono(s@, j0 as int, k + 1, j1 as int);
                }
                return None;
            },
        };
        acc = next;
        k = k + 1;
    }
    Some(acc)
}

pub fn int_lit(s: &str, i: usize) -> (r: Parsed<i64>)
    requires
        i <= s@.len() <= usize::MAX,
    ensures
        agrees(r, spec_int_lit(s@, i as int), |v: i64| v),
        found_after(r, i as int, s@.len() as int),
{
    let neg = i < s.unicode_len() && s.get_char(i) == '-';
    let j0 = if neg {
        ws(s, i + 1)
    } else {
        i
    };
    let j1 = digits(s, j0);
    if j1 == j0 {
        return Parsed::Miss;
    }
    proof {
        lemma_digits_in_run(s@, j0 as int, j1 as int);
    }
    match digits_to_i64(s, j0, j1) {
        Some(m) => Parsed::Found(
            if neg {
                -m
            } else {
                m
            },
            j1,
        ),
        None => Parsed::Miss,
    }
}

/// Every character strictly inside a scanned digit run is a digit.
proof fn lemma_digits_in_run(s: Seq<char>, i: int, j: int)
    requires
        j == digits_end(s, i),
    ensures
        forall|t: int| i <= t < j ==> is_digit(#[trigger] s[t]),
    decreases j - i,
{
    if 0 <= i < s.len() && is_digit(s[i]) && digits_end(s, i + 1) == j && i < j {
        lemma_digits_in_run(s, i + 1, j);
    }
}

/// A float literal: an optional minus sign, digits, a dot, and optional
/// fraction digits — except that a dot immediately followed by an
/// identifier is member access, not an empty fraction.
pub open spec fn spec_float_lit(s: Seq<char>, i: int) -> ParsedS<FloatS> {
    let neg = 0 <= i < s.len() && s[i] == '-';
    let j0 = if neg {
        ws_end(s, i + 1)
    } else {
        i
    };
    let j1 = digits_end(s, j0);
    if j1 == j0 || !(j1 < s.len() && s[j1] == '.') {
        ParsedS::Miss
    } else {
        let j2 = digits_end(s, j1 + 1);
        if j2 == j1 + 1 && j2 < s.len() && is_ident_start(s[j2]) {
            ParsedS::Miss
        } else {
            ParsedS::Found(
                FloatS {
                    neg,
                    int_part: s.subrange(j0, j1),
                    frac_part: s.subrange(j1 + 1, j2),
                },
                j2,
            )
        }
    }
}

pub fn float_lit(s: &str, i: usize) -> (r: Parsed<Float>)
    requires
        i <= s@.len() <= usize::MAX,
    ensures
        agrees(
            r,
            spec_float_lit(s@, i as int),
            |f: Float| FloatS { neg: f.neg, int_part: f.int_part@, frac_part: f.frac_part@ },
        ),
        found_after(r, i as int, s@.len() as int),
{
    let neg = i < s.unicode_len() && s.get_char(i) == '-';
    let j0 = if neg {
        ws(s, i + 1)
    } else {
        i
    };
    let j1 = digits(s, j0);
    if j1 == j0 || !(j1 < s.unicode_len() && s.get_char(j1) == '.') {
        return Parsed::Miss;
    }
    let j2 = digits(s, j1 + 1);
    if j2 == j1 + 1 && j2 < s.unicode_len() {
        let c = s.get_char(j2);
        if ('a' <= c && c <= 'z') || ('A' <= c && c <= 'Z') || c == '_' {
            return Parsed::Miss;
        }
    }
    let int_part = String::from_str(s.substring_char(j0, j1));
    let frac_part = String::from_str(s.substring_char(j1 + 1, j2));
    Parsed::Found(Float { neg, int_part, frac_part }, j2)
}

/// The position of the closing quote of a string opened before `i`, or the
/// end of the input if there is none.
pub open spec fn str_scan(s: Seq<char>, i: int) -> int
    decreases s.len() - i,
{
    if 0 <= i < s.len() {
        if s[i] == '"' {
            i
        } else {
            str_scan(s, i + 1)
        }
    } else {
        i
    }
}

fn str_scan_exec(s: &str, i: usize) -> (j: usize)
    requires
        i <= s@.len(),
    ensures
        j == str_scan(s@, i as int),
        i <= j <= s@.len(),
    decreases s@.len() - i,
{
    if i < s.unicode_len() {
        if s.get_char(i) == '"' {
            i
        } else {
            str_scan_exec(s, i + 1)
        }
    } else {
        i
    }
}

/// A string literal: a quote, any characters that are not a quote, and a
/// closing quote.  An opened string that never closes is a hard failure.
pub open spec fn spec_string_lit(s: Seq<char>, i: int) -> ParsedS<Seq<char>> {
    if !(0 <= i < s.len() && s[i] == '"') {
        ParsedS::Miss
    } else {
        let e = str_scan(s, i + 1);
        if e < s.len() {
            ParsedS::Found(s.subrange(i + 1, e), e + 1)
        } else {
            ParsedS::Fail
        }
    }
}

pub fn string_lit(s: &str, i: usize) -> (r: Parsed<String>)
    requires
        i <= s@.len() <= usize::MAX,
    ensures
        agrees(r, spec_string_lit(s@, i as int), |t: String| t@),
        found_after(r, i as int, s@.len() as int),
{
    if !(i < s.unicode_len() && s.get_char(i) == '"') {
        return Parsed::Miss;
    }
    let e = str_scan_exec(s, i + 1);
    if e < s.unicode_len() {
        Parsed::Found(String::from_str(s.substring_char(i + 1, e)), e + 1)
    } else {
        Parsed::Fail
    }
}

/// An identifier: a letter or underscore, then letters, digits and
/// underscores.
pub open spec fn spec_ident(s: Seq<char>, i: int) -> ParsedS<Seq<char>> {
    if 0 <= i < s.len() && is_ident_start(s[i]) {
        let e = ident_end(s, i + 1);
        ParsedS::Found(s.subrange(i, e), e)
    } else {
        ParsedS::Miss
    }
}

pub fn ident(s: &str, i: usize) -> (r: Parsed<Ident>)
    requires
        i <= s@.len() <= usize::MAX,
    ensures
        agrees(r, spec_ident(s@, i as int), |id: Ident| id.0@),
        found_after(r, i as int, s@.len() as int),
{
    if i < s.unicode_len() {
        let c = s.get_char(i);
        if ('a' <= c && c <= 'z') || ('A' <= c && c <= 'Z') || c == '_' {
            let e = ident_chars(s, i + 1);
            return Parsed::Found(Ident(String::from_str(s.substring_char(i, e))), e);
        }
    }
    Parsed::Miss
}


/// The trailing delimiter of an argument or parameter list: optional
/// whitespace, an optional trailing comma, and the closing character.
/// Inside a committed list, anything else is a hard failure.
pub open spec fn spec_close(s: Seq<char>, i: int, c: char) -> ParsedS<()> {
    let j = ws_end(s, i);
    if 0 <= j < s.len() && s[j] == c {
        ParsedS::Found((), j + 1)
    } else if 0 <= j < s.len() && s[j] == ',' {
        let k = ws_end(s, j + 1);
        if 0 <= k < s.len() && s[k] == c {
            ParsedS::Found((), k + 1)
        } else {
            ParsedS::Fail
        }
    } else {
        ParsedS::Fail
    }
}

fn close(s: &str, i: usize, c: char) -> (r: Parsed<()>)
    requires
        i <= s@.len() <= usize::MAX,
    ensures
        agrees(r, spec_close(s@, i as int, c), |u: ()| u),
        found_from(r, i as int, s@.len() as int),
{
    let j = ws(s, i);
    if j < s.unicode_len() && s.get_char(j) == c {
        Parsed::Found((), j + 1)
    } else if j < s.unicode_len() && s.get_char(j) == ',' {
        let k = ws(s, j + 1);
        if k < s.unicode_len() && s.get_char(k) == c {
            Parsed::Found((), k + 1)
        } else {
            Parsed::Fail
        }
    } else {
        Parsed::Fail
    }
}

/// Zero or more expressions separated by commas (whitespace around each
/// comma).  A separator followed by no expression is left unconsumed; a
/// hard failure inside an expression is passed on.
pub open spec fn spec_exprs_sep0(s: Seq<char>, i: int) -> ParsedS<Seq<ExprS>>
    decreases s.len() - i, 30int,
{
    match crate::parse_binop::spec_bin_expr(s, i) {
        ParsedS::Found(e, j) => {
            if i < j <= s.len() {
                match spec_exprs_tail(s, j) {
                    ParsedS::Found(rest, k) => ParsedS::Found(seq![e] + rest, k),
                    _ => ParsedS::Fail,
                }
            } else {
                ParsedS::Found(seq![e], j)
            }
        },
        ParsedS::Miss => ParsedS::Found(Seq::empty(), i),
        ParsedS::Fail => ParsedS::Fail,
    }
}

/// The expressions after the first, each preceded by a comma.
pub open spec fn spec_exprs_tail(s: Seq<char>, i: int) -> ParsedS<Seq<ExprS>>
    decreases s.len() - i, 31int,
{
    let j = ws_end(s, i);
    if 0 <= j < s.len() && s[j] == ',' {
        let k = ws_end(s, j + 1);
        if i < k <= s.len() {
            match crate::parse_binop::spec_bin_expr(s, k) {
                ParsedS::Found(e, m) => {
                    if i < m <= s.len() {
                        match spec_exprs_tail(s, m) {
                            ParsedS::Found(rest, end) => ParsedS::Found(seq![e] + rest, end),
                            _ => ParsedS::Fail,
                        }
                    } else {
                        ParsedS::Found(seq![e], m)
                    }
                },
                ParsedS::Miss => ParsedS::Found(Seq::empty(), i),
                ParsedS::Fail => ParsedS::Fail,
            }
        } else {
            ParsedS::Fail
        }
    } else {
        ParsedS::Found(Seq::empty(), i)
    }
}

fn exprs_sep0(s: &str, i: usize) -> (r: Parsed<Vec<Expr>>)
    requires
        i <= s@.len() <= usize::MAX,
    ensures
        agrees(r, spec_exprs_sep0(s@, i as int), |v: Vec<Expr>| view_exprs(v@)),
        found_from(r, i as int, s@.len() as int),
    decreases s@.len() - i, 30int,
{
    match crate::parse_binop::bin_expr(s, i) {
        Parsed::Found(e, j) => {
            match exprs_tail(s, j) {
                Parsed::Found(mut rest, k) => {
                    let ghost pre = rest@;
                    rest.insert(0, e);
                    proof {
                        assert(rest@ =~= seq![e] + pre);
                        crate::expr::lemma_view_exprs_cons(e, pre);
                    }
                    Parsed::Found(rest, k)
                },
                _ => Parsed::Fail,
            }
        },
        Parsed::Miss => {
            let v: Vec<Expr> = Vec::new();
            proof {
                assert(view_exprs(v@) =~= Seq::<ExprS>::empty());
            }
            Parsed::Found(v, i)
        },
        Parsed::Fail => Parsed::Fail,
    }
}

fn exprs_tail(s: &str, i: usize) -> (r: Parsed<Vec<Expr>>)
    requires
        i <= s@.len() <= usize::MAX,
    ensures
        agrees(r, spec_exprs_tail(s@, i as int), |v: Vec<Expr>| view_exprs(v@)),
        found_from(r, i as int, s@.len() as int),
    decreases s@.len() - i, 31int,
{
    let j = ws(s, i);
    if j < s.unicode_len() && s.get_char(j) == ',' {
        let k = ws(s, j + 1);
        match crate::parse_binop::bin_expr(s, k) {
            Parsed::Found(e, m) => {
                match exprs_tail(s, m) {
                    Parsed::Found(mut rest, end) => {
                        let ghost pre = rest@;
                        rest.insert(0, e);
                        proof {
                            assert(rest@ =~= seq![e] + pre);
                            crate::expr::lemma_view_exprs_cons(e, pre);
                        }
                        Parsed::Found(rest, end)
                    },
                    _ => Parsed::Fail,
                }
            },
            Parsed::Miss => {
                let v: Vec<Expr> = Vec::new();
                proof {
                    assert(view_exprs(v@) =~= Seq::<ExprS>::empty());
                }
                Parsed::Found(v, i)
            },
            Parsed::Fail => Parsed::Fail,
        }
    } else {
        let v: Vec<Expr> = Vec::new();
        proof {
            assert(view_exprs(v@) =~= Seq::<ExprS>::empty());
        }
        Parsed::Found(v, i)
    }
}

/// A bracketed, comma-separated expression list.  The opening bracket
/// commits.
pub open spec fn spec_list(s: Seq<char>, i: int) -> ParsedS<Seq<ExprS>>
    decreases s.len() - i, 2int,
{
    if 0 <= i < s.len() && s[i] == '[' {
        let j = ws_end(s, i + 1);
        if i < j && j <= s.len() {
            match spec_exprs_sep0(s, j) {
                ParsedS::Found(es, k) => {
                    match spec_close(s, k, ']') {
                        ParsedS::Found(u, end) => ParsedS::Found(es, end),
                        _ => ParsedS::Fail,
                    }
                },
                _ => ParsedS::Fail,
            }
        } else {
            ParsedS::Fail
        }
    } else {
        ParsedS::Miss
    }
}

fn list(s: &str, i: usize) -> (r: Parsed<Vec<Expr>>)
    requires
        i <= s@.len() <= usize::MAX,
    ensures
        agrees(r, spec_list(s@, i as int), |v: Vec<Expr>| view_exprs(v@)),
        found_after(r, i as int, s@.len() as int),
    decreases s@.len() - i, 2int,
{
    if i < s.unicode_len() && s.get_char(i) == '[' {
        let j = ws(s, i + 1);
        match exprs_sep0(s, j) {
            Parsed::Found(es, k) => {
                match close(s, k, ']') {
                    Parsed::Found(u, end) => Parsed::Found(es, end),
                    _ => Parsed::Fail,
                }
            },
            _ => Parsed::Fail,
        }
    } else {
        Parsed::Miss
    }
}

/// A parenthesised, comma-separated argument list.  The opening parenthesis
/// commits.
pub open spec fn spec_fn_args(s: Seq<char>, i: int) -> ParsedS<Seq<ExprS>>
    decreases s.len() - i, 2int,
{
    if 0 <= i < s.len() && s[i] == '(' {
        let j = ws_end(s, i + 1);
        if i < j && j <= s.len() {
            match spec_exprs_sep0(s, j) {
                ParsedS::Found(es, k) => {
                    match spec_close(s, k, ')') {
                        ParsedS::Found(u, end) => ParsedS::Found(es, end),
                        _ => ParsedS::Fail,
                    }
                },
                _ => ParsedS::Fail,
            }
        } else {
            ParsedS::Fail
        }
    } else {
        ParsedS::Miss
    }
}

pub(crate) fn fn_args(s: &str, i: usize) -> (r: Parsed<Vec<Expr>>)
    requires
        i <= s@.len() <= usize::MAX,
    ensures
        agrees(r, spec_fn_args(s@, i as int), |v: Vec<Expr>| view_exprs(v@)),
        found_after(r, i as int, s@.len() as int),
    decreases s@.len() - i, 2int,
{
    if i < s.unicode_len() && s.get_char(i) == '(' {
        let j = ws(s, i + 1);
        match exprs_sep0(s, j) {
            Parsed::Found(es, k) => {
                match close(s, k, ')') {
                    Parsed::Found(u, end) => Parsed::Found(es, end),
                    _ => Parsed::Fail,
                }
            },
            _ => Parsed::Fail,
        }
    } else {
        Parsed::Miss
    }
}

/// A call: a name directly followed (after whitespace) by an argument list.
pub open spec fn spec_fn_call(s: Seq<char>, i: int) -> ParsedS<(Seq<char>, Seq<ExprS>)>
    decreases s.len() - i, 3int,
{
    match spec_ident(s, i) {
        ParsedS::Found(id, j) => {
            let j1 = ws_end(s, j);
            if i < j1 && j1 <= s.len() {
                match spec_fn_args(s, j1) {
                    ParsedS::Found(args, k) => ParsedS::Found((id, args), k),
                    ParsedS::Miss => ParsedS::Miss,
                    ParsedS::Fail => ParsedS::Fail,
                }
            } else {
                ParsedS::Fail
            }
        },
        _ => ParsedS::Miss,
    }
}

pub(crate) fn fn_call(s: &str, i: usize) -> (r: Parsed<(Ident, Vec<Expr>)>)
    requires
        i <= s@.len() <= usize::MAX,
    ensures
        agrees(
            r,
            spec_fn_call(s@, i as int),
            |p: (Ident, Vec<Expr>)| (p.0.0@, view_exprs(p.1@)),
        ),
        found_after(r, i as int, s@.len() as int),
    decreases s@.len() - i, 3int,
{
    match ident(s, i) {
        Parsed::Found(id, j) => {
            let j1 = ws(s, j);
            match fn_args(s, j1) {
                Parsed::Found(args, k) => Parsed::Found((id, args), k),
                Parsed::Miss => Parsed::Miss,
                Parsed::Fail => Parsed::Fail,
            }
        },
        _ => Parsed::Miss,
    }
}

/// A literal: `null`, a boolean, a float, an integer, a string, or a list,
/// tried in that order.
pub open spec fn spec_literal(s: Seq<char>, i: int) -> ParsedS<LiteralS>
    decreases s.len() - i, 3int,
{
    if kw_at(s, i, "null"@) {
        ParsedS::Found(LiteralS::Null, i + 4)
    } else {
        match spec_bool_lit(s, i) {
            ParsedS::Found(b, j) => ParsedS::Found(LiteralS::Bool(b), j),
            _ => match spec_float_lit(s, i) {
                ParsedS::Found(f, j) => ParsedS::Found(LiteralS::Float(f), j),
                _ => match spec_int_lit(s, i) {
                    ParsedS::Found(v, j) => ParsedS::Found(LiteralS::Int(v), j),
                    _ => match spec_string_lit(s, i) {
                        ParsedS::Found(t, j) => ParsedS::Found(LiteralS::String(t), j),
                        ParsedS::Fail => ParsedS::Fail,
                        ParsedS::Miss => match spec_list(s, i) {
                            ParsedS::Found(es, j) => ParsedS::Found(LiteralS::List(es), j),
                            ParsedS::Miss => ParsedS::Miss,
                            ParsedS::Fail => ParsedS::Fail,
                        },
                    },
                },
            },
        }
    }
}

fn literal(s: &str, i: usize) -> (r: Parsed<Literal>)
    requires
        i <= s@.len() <= usize::MAX,
    ensures
        agrees(r, spec_literal(s@, i as int), |l: Literal| crate::expr::view_literal(l)),
        found_after(r, i as int, s@.len() as int),
    decreases s@.len() - i, 3int,
{
    if has_kw(s, i, "null") {
        proof {
            reveal_strlit("null");
        }
        return Parsed::Found(Literal::Null, i + 4);
    }
    match bool_lit(s, i) {
        Parsed::Found(b, j) => { return Parsed::Found(Literal::Bool(b), j); },
        _ => {},
    }
    match float_lit(s, i) {
        Parsed::Found(f, j) => { return Parsed::Found(Literal::Float(f), j); },
        _ => {},
    }
    match int_lit(s, i) {
        Parsed::Found(v, j) => { return Parsed::Found(Literal::Int(v), j); },
        _ => {},
    }
    match string_lit(s, i) {
        Parsed::Found(t, j) => Parsed::Found(Literal::String(t), j),
        Parsed::Fail => Parsed::Fail,
        Parsed::Miss => {
            match list(s, i) {
                Parsed::Found(es, j) => Parsed::Found(Literal::List(es), j),
                Parsed::Miss => Parsed::Miss,
                Parsed::Fail => Parsed::Fail,
            }
        },
    }
}

/// An atom: a literal, a call, or a bare identifier, tried in that order.
pub open spec fn spec_atom(s: Seq<char>, i: int) -> ParsedS<ExprS>
    decreases s.len() - i, 4int,
{
    match spec_literal(s, i) {
        ParsedS::Found(l, j) => ParsedS::Found(ExprS::Literal(l), j),
        ParsedS::Fail => ParsedS::Fail,
        ParsedS::Miss => match spec_fn_call(s, i) {
            ParsedS::Found(p, j) => ParsedS::Found(ExprS::FuncCall(p.0, p.1), j),
            ParsedS::Fail => ParsedS::Fail,
            ParsedS::Miss => match spec_ident(s, i) {
                ParsedS::Found(id, j) => ParsedS::Found(ExprS::Ident(id), j),
                _ => ParsedS::Miss,
            },
        },
    }
}

#[verifier::rlimit(50)]
pub(crate) fn atom(s: &str, i: usize) -> (r: Parsed<Expr>)
    requires
        i <= s@.len() <= usize::MAX,
    ensures
        agrees(r, spec_atom(s@, i as int), |e: Expr| view_expr(e)),
        found_after(r, i as int, s@.len() as int),
    decreases s@.len() - i, 4int,
{
    match literal(s, i) {
        Parsed::Found(l, j) => Parsed::Found(Expr::Literal(l), j),
        Parsed::Fail => Parsed::Fail,
        Parsed::Miss => match fn_call(s, i) {
            Parsed::Found(p, j) => {
                let (name, args) = p;
                Parsed::Found(Expr::FuncCall(name, args), j)
            },
            Parsed::Fail => Parsed::Fail,
            Parsed::Miss => match ident(s, i) {
                Parsed::Found(id, j) => Parsed::Found(Expr::Ident(id), j),
                _ => Parsed::Miss,
            },
        },
    }
}



/// A comma-separated parameter list: zero or more identifiers.  It never
/// fails; a trailing separator with no name after it is left unconsumed.
pub open spec fn spec_params(s: Seq<char>, i: int) -> (Seq<Seq<char>>, int)
    decreases s.len() - i, 1int,
{
    match spec_ident(s, i) {
        ParsedS::Found(id, j) => {
            if i < j <= s.len() {
                let pr = spec_params_tail(s, j);
                (seq![id] + pr.0, pr.1)
            } else {
                (seq![id], j)
            }
        },
        _ => (Seq::empty(), i),
    }
}

/// The parameters after the first, each preceded by a comma.
pub open spec fn spec_params_tail(s: Seq<char>, i: int) -> (Seq<Seq<char>>, int)
    decreases s.len() - i, 2int,
{
    let j = ws_end(s, i);
    if 0 <= j < s.len() && s[j] == ',' {
        let k = ws_end(s, j + 1);
        match spec_ident(s, k) {
            ParsedS::Found(id, m) => {
                if i < m <= s.len() {
                    let pr = spec_params_tail(s, m);
                    (seq![id] + pr.0, pr.1)
                } else {
                    (seq![id], m)
                }
            },
            _ => (Seq::empty(), i),
        }
    } else {
        (Seq::empty(), i)
    }
}

fn params(s: &str, i: usize) -> (r: (Vec<Ident>, usize))
    requires
        i <= s@.len() <= usize::MAX,
    ensures
        view_idents(r.0@) == spec_params(s@, i as int).0,
        r.1 == spec_params(s@, i as int).1,
        i <= r.1 <= s@.len(),
    decreases s@.len() - i, 1int,
{
    match ident(s, i) {
        Parsed::Found(id, j) => {
            let (mut rest, end) = params_tail(s, j);
            let ghost pre = rest@;
            rest.insert(0, id);
            proof {
                assert(rest@ =~= seq![id] + pre);
                crate::expr::lemma_view_idents_cons(id, pre);
            }
            (rest, end)
        },
        _ => {
            let v: Vec<Ident> = Vec::new();
            proof {
                assert(view_idents(v@) =~= Seq::<Seq<char>>::empty());
            }
            (v, i)
        },
    }
}

fn params_tail(s: &str, i: usize) -> (r: (Vec<Ident>, usize))
    requires
        i <= s@.len() <= usize::MAX,
    ensures
        view_idents(r.0@) == spec_params_tail(s@, i as int).0,
        r.1 == spec_params_tail(s@, i as int).1,
        i <= r.1 <= s@.len(),
    decreases s@.len() - i, 2int,
{
    let j = ws(s, i);
    if j < s.unicode_len() && s.get_char(j) == ',' {
        let k = ws(s, j + 1);
        match ident(s, k) {
            Parsed::Found(id, m) => {
                let (mut rest, end) = params_tail(s, m);
                let ghost pre = rest@;
                rest.insert(0, id);
                proof {
                    assert(rest@ =~= seq![id] + pre);
                    crate::expr::lemma_view_idents_cons(id, pre);
                }
                (rest, end)
            },
            _ => {
                let v: Vec<Ident> = Vec::new();
                proof {
                    assert(view_idents(v@) =~= Seq::<Seq<char>>::empty());
                }
                (v, i)
            },
        }
    } else {
        let v: Vec<Ident> = Vec::new();
        proof {
            assert(view_idents(v@) =~= Seq::<Seq<char>>::empty());
        }
        (v, i)
    }
}

/// A brace-delimited block of statements.  The opening brace commits: a
/// malformed interior or a missing closing brace is a hard failure.
pub open spec fn spec_block(s: Seq<char>, i: int) -> ParsedS<Seq<ExprS>>
    decreases s.len() - i, 12int,
{
    if 0 <= i < s.len() && s[i] == '{' {
        let j = ws_end(s, i + 1);
        if i < j <= s.len() {
            match spec_block_items(s, j) {
                ParsedS::Found(items, k) => {
                    if 0 <= k < s.len() && s[k] == '}' {
                        ParsedS::Found(items, k + 1)
                    } else {
                        ParsedS::Fail
                    }
                },
                _ => ParsedS::Fail,
            }
        } else {
            ParsedS::Fail
        }
    } else {
        ParsedS::Miss
    }
}

/// Zero or more statements, each surrounded by whitespace.
pub open spec fn spec_block_items(s: Seq<char>, i: int) -> ParsedS<Seq<ExprS>>
    decreases s.len() - i, 30int,
{
    let j = ws_end(s, i);
    if i <= j <= s.len() {
        match spec_statement(s, j) {
            ParsedS::Found(e, k) => {
                let k2 = ws_end(s, k);
                if i < k2 <= s.len() {
                    match spec_block_items(s, k2) {
                        ParsedS::Found(rest, end) => ParsedS::Found(seq![e] + rest, end),
                        _ => ParsedS::Fail,
                    }
                } else {
                    ParsedS::Found(seq![e], k2)
                }
            },
            ParsedS::Miss => ParsedS::Found(Seq::empty(), i),
            ParsedS::Fail => ParsedS::Fail,
        }
    } else {
        ParsedS::Fail
    }
}

fn block(s: &str, i: usize) -> (r: Parsed<Block>)
    requires
        i <= s@.len() <= usize::MAX,
    ensures
        agrees(r, spec_block(s@, i as int), |b: Block| view_exprs(b.0@)),
        found_after(r, i as int, s@.len() as int),
    decreases s@.len() - i, 12int,
{
    if i < s.unicode_len() && s.get_char(i) == '{' {
        let j = ws(s, i + 1);
        match block_items(s, j) {
            Parsed::Found(items, k) => {
                if k < s.unicode_len() && s.get_char(k) == '}' {
                    Parsed::Found(Block(items), k + 1)
                } else {
                    Parsed::Fail
                }
            },
            _ => Parsed::Fail,
        }
    } else {
        Parsed::Miss
    }
}

fn block_items(s: &str, i: usize) -> (r: Parsed<Vec<Expr>>)
    requires
        i <= s@.len() <= usize::MAX,
    ensures
        agrees(r, spec_block_items(s@, i as int), |v: Vec<Expr>| view_exprs(v@)),
        found_from(r, i as int, s@.len() as int),
    decreases s@.len() - i, 30int,
{
    let j = ws(s, i);
    match statement(s, j) {
        Parsed::Found(e, k) => {
            let k2 = ws(s, k);
            match block_items(s, k2) {
                Parsed::Found(mut rest, end) => {
                    let ghost pre = rest@;
                    rest.insert(0, e);
                    proof {
                        assert(rest@ =~= seq![e] + pre);
                        crate::expr::lemma_view_exprs_cons(e, pre);
                    }
                    Parsed::Found(rest, end)
                },
                _ => Parsed::Fail,
            }
        },
        Parsed::Miss => {
            let v: Vec<Expr> = Vec::new();
            proof {
                assert(view_exprs(v@) =~= Seq::<ExprS>::empty());
            }
            Parsed::Found(v, i)
        },
        Parsed::Fail => Parsed::Fail,
    }
}

/// A while loop: the keyword commits; condition, then body block.
pub open spec fn spec_while(s: Seq<char>, i: int) -> ParsedS<ExprS>
    decreases s.len() - i, 12int,
{
    if i + 5 <= s.len() && kw_at(s, i, "while"@) {
        let j = ws_end(s, i + 5);
        if i < j <= s.len() {
            match crate::parse_binop::spec_bin_expr(s, j) {
                ParsedS::Found(c, k) => {
                    let k1 = ws_end(s, k);
                    if i < k1 <= s.len() {
                        match spec_block(s, k1) {
                            ParsedS::Found(b, e) => ParsedS::Found(
                                ExprS::While { condition: Box::new(c), block: b },
                                e,
                            ),
                            _ => ParsedS::Fail,
                        }
                    } else {
                        ParsedS::Fail
                    }
                },
                _ => ParsedS::Fail,
            }
        } else {
            ParsedS::Fail
        }
    } else {
        ParsedS::Miss
    }
}

fn while_loop(s: &str, i: usize) -> (r: Parsed<Expr>)
    requires
        i <= s@.len() <= usize::MAX,
    ensures
        agrees(r, spec_while(s@, i as int), |e: Expr| view_expr(e)),
        found_after(r, i as int, s@.len() as int),
    decreases s@.len() - i, 12int,
{
    let slen = s.unicode_len();
    if 5 <= slen - i && has_kw(s, i, "while") {
        proof {
            reveal_strlit("while");
        }
        let j = ws(s, i + 5);
        match crate::parse_binop::bin_expr(s, j) {
            Parsed::Found(c, k) => {
                let k1 = ws(s, k);
                match block(s, k1) {
                    Parsed::Found(b, e) => Parsed::Found(
                        Expr::While { condition: Box::new(c), block: b },
                        e,
                    ),
                    _ => Parsed::Fail,
                }
            },
            _ => Parsed::Fail,
        }
    } else {
        Parsed::Miss
    }
}

/// A for loop: the keyword commits; loop name, `in`, iterated expression,
/// body block.
pub open spec fn spec_for(s: Seq<char>, i: int) -> ParsedS<ExprS>
    decreases s.len() - i, 12int,
{
    if i + 3 <= s.len() && kw_at(s, i, "for"@) {
        let j = ws_end(s, i + 3);
        match spec_ident(s, j) {
            ParsedS::Found(id, k) => {
                let k1 = ws_end(s, k);
                if k1 + 2 <= s.len() && kw_at(s, k1, "in"@) {
                    let k2 = ws_end(s, k1 + 2);
                    if i < k2 <= s.len() {
                        match crate::parse_binop::spec_bin_expr(s, k2) {
                            ParsedS::Found(it, k3) => {
                                let k4 = ws_end(s, k3);
                                if i < k4 <= s.len() {
                                    match spec_block(s, k4) {
                                        ParsedS::Found(b, e) => ParsedS::Found(
                                            ExprS::For {
                                                ident: id,
                                                iter: Box::new(it),
                                                block: b,
                                            },
                                            e,
                                        ),
                                        _ => ParsedS::Fail,
                                    }
                                } else {
                                    ParsedS::Fail
                                }
                            },
                            _ => ParsedS::Fail,
                        }
                    } else {
                        ParsedS::Fail
                    }
                } else {
                    ParsedS::Fail
                }
            },
            _ => ParsedS::Fail,
        }
    } else {
        ParsedS::Miss
    }
}

fn for_loop(s: &str, i: usize) -> (r: Parsed<Expr>)
    requires
        i <= s@.len() <= usize::MAX,
    ensures
        agrees(r, spec_for(s@, i as int), |e: Expr| view_expr(e)),
        found_after(r, i as int, s@.len() as int),
    decreases s@.len() - i, 12int,
{
    let slen = s.unicode_len();
    if 3 <= slen - i && has_kw(s, i, "for") {
        proof {
            reveal_strlit("for");
        }
        let j = ws(s, i + 3);
        match ident(s, j) {
            Parsed::Found(id, k) => {
                let k1 = ws(s, k);
                if 2 <= slen - k1 && has_kw(s, k1, "in") {
                    proof {
                        reveal_strlit("in");
                    }
                    let k2 = ws(s, k1 + 2);
                    match crate::parse_binop::bin_expr(s, k2) {
                        Parsed::Found(it, k3) => {
                            let k4 = ws(s, k3);
                            match block(s, k4) {
                                Parsed::Found(b, e) => Parsed::Found(
                                    Expr::For { ident: id, iter: Box::new(it), block: b },
                                    e,
                                ),
                                _ => Parsed::Fail,
                            }
                        },
                        _ => Parsed::Fail,
                    }
                } else {
                    Parsed::Fail
                }
            },
            _ => Parsed::Fail,
        }
    } else {
        Parsed::Miss
    }
}

/// An if-statement: the keyword commits; condition and body block, then an
/// optional else-arm holding either a chained if-statement or a block.
pub open spec fn spec_if(s: Seq<char>, i: int) -> ParsedS<IfStateS>
    decreases s.len() - i, 12int,
{
    if i + 2 <= s.len() && kw_at(s, i, "if"@) {
        let j = ws_end(s, i + 2);
        if i < j <= s.len() {
            match crate::parse_binop::spec_bin_expr(s, j) {
                ParsedS::Found(c, k) => {
                    let k1 = ws_end(s, k);
                    if i < k1 <= s.len() {
                        match spec_block(s, k1) {
                            ParsedS::Found(body, e) => {
                                let e1 = ws_end(s, e);
                                if e1 + 4 <= s.len() && kw_at(s, e1, "else"@) {
                                    let e2 = ws_end(s, e1 + 4);
                                    if i < e2 <= s.len() {
                                        match spec_if(s, e2) {
                                            ParsedS::Found(inner, e3) => ParsedS::Found(
                                                IfStateS {
                                                    condition: Box::new(c),
                                                    body,
                                                    or_else: OrElseS::IfState(Box::new(inner)),
                                                },
                                                e3,
                                            ),
                                            _ => match spec_block(s, e2) {
                                                ParsedS::Found(b2, e4) => ParsedS::Found(
                                                    IfStateS {
                                                        condition: Box::new(c),
                                                        body,
                                                        or_else: OrElseS::Block(b2),
                                                    },
                                                    e4,
                                                ),
                                                ParsedS::Miss => ParsedS::Miss,
                                                ParsedS::Fail => ParsedS::Fail,
                                            },
                                        }
                                    } else {
                                        ParsedS::Fail
                                    }
                                } else {
                                    ParsedS::Found(
                                        IfStateS {
                                            condition: Box::new(c),
                                            body,
                                            or_else: OrElseS::Nothing,
                                        },
                                        e,
                                    )
                                }
                            },
                            _ => ParsedS::Fail,
                        }
                    } else {
                        ParsedS::Fail
                    }
                },
                _ => ParsedS::Fail,
            }
        } else {
            ParsedS::Fail
        }
    } else {
        ParsedS::Miss
    }
}

fn if_statement(s: &str, i: usize) -> (r: Parsed<IfState>)
    requires
        i <= s@.len() <= usize::MAX,
    ensures
        agrees(r, spec_if(s@, i as int), |f: IfState| view_ifstate(f)),
        found_after(r, i as int, s@.len() as int),
    decreases s@.len() - i, 12int,
{
    let slen = s.unicode_len();
    if 2 <= slen - i && has_kw(s, i, "if") {
        proof {
            reveal_strlit("if");
        }
        let j = ws(s, i + 2);
        match crate::parse_binop::bin_expr(s, j) {
            Parsed::Found(c, k) => {
                let k1 = ws(s, k);
                match block(s, k1) {
                    Parsed::Found(body, e) => {
                        let e1 = ws(s, e);
                        if 4 <= slen - e1 && has_kw(s, e1, "else") {
                            proof {
                                reveal_strlit("else");
                            }
                            let e2 = ws(s, e1 + 4);
                            match if_statement(s, e2) {
                                Parsed::Found(inner, e3) => Parsed::Found(
                                    IfState {
                                        condition: Box::new(c),
                                        body,
                                        or_else: OrElse::IfState(Box::new(inner)),
                                    },
                                    e3,
                                ),
                                _ => match block(s, e2) {
                                    Parsed::Found(b2, e4) => Parsed::Found(
                                        IfState {
                                            condition: Box::new(c),
                                            body,
                                            or_else: OrElse::Block(b2),
                                        },
                                        e4,
                                    ),
                                    Parsed::Miss => Parsed::Miss,
                                    Parsed::Fail => Parsed::Fail,
                                },
                            }
                        } else {
                            Parsed::Found(
                                IfState { condition: Box::new(c), body, or_else: OrElse::Nothing },
                                e,
                            )
                        }
                    },
                    _ => Parsed::Fail,
                }
            },
            _ => Parsed::Fail,
        }
    } else {
        Parsed::Miss
    }
}

/// A function definition: the keyword commits; name, parameter list in
/// parentheses, body block.
pub open spec fn spec_fndef(s: Seq<char>, i: int) -> ParsedS<ExprS>
    decreases s.len() - i, 12int,
{
    if i + 2 <= s.len() && kw_at(s, i, "fn"@) {
        let j = ws_end(s, i + 2);
        match spec_ident(s, j) {
            ParsedS::Found(name, k) => {
                let k1 = ws_end(s, k);
                if 0 <= k1 < s.len() && s[k1] == '(' {
                    let k2 = ws_end(s, k1 + 1);
                    let pr = spec_params(s, k2);
                    match spec_close(s, pr.1, ')') {
                        ParsedS::Found(u, k4) => {
                            let k5 = ws_end(s, k4);
                            if i < k5 <= s.len() {
                                match spec_block(s, k5) {
                                    ParsedS::Found(body, e) => ParsedS::Found(
                                        ExprS::Function { name, params: pr.0, body },
                                        e,
                                    ),
                                    _ => ParsedS::Fail,
                                }
                            } else {
                                ParsedS::Fail
                            }
                        },
                        _ => ParsedS::Fail,
                    }
                } else {
                    ParsedS::Fail
                }
            },
            _ => ParsedS::Fail,
        }
    } else {
        ParsedS::Miss
    }
}

fn function_def(s: &str, i: usize) -> (r: Parsed<Expr>)
    requires
        i <= s@.len() <= usize::MAX,
    ensures
        agrees(r, spec_fndef(s@, i as int), |e: Expr| view_expr(e)),
        found_after(r, i as int, s@.len() as int),
    decreases s@.len() - i, 12int,
{
    let slen = s.unicode_len();
    if 2 <= slen - i && has_kw(s, i, "fn") {
        proof {
            reveal_strlit("fn");
        }
        let j = ws(s, i + 2);
        match ident(s, j) {
            Parsed::Found(name, k) => {
                let k1 = ws(s, k);
                if k1 < slen && s.get_char(k1) == '(' {
                    let k2 = ws(s, k1 + 1);
                    let (ps, k3) = params(s, k2);
                    match close(s, k3, ')') {
                        Parsed::Found(u, k4) => {
                            let k5 = ws(s, k4);
                            match block(s, k5) {
                                Parsed::Found(body, e) => Parsed::Found(
                                    Expr::Function { name, params: ps, body },
                                    e,
                                ),
                                _ => Parsed::Fail,
                            }
                        },
                        _ => Parsed::Fail,
                    }
                } else {
                    Parsed::Fail
                }
            },
            _ => Parsed::Fail,
        }
    } else {
        Parsed::Miss
    }
}

/// An assignment statement: a name, `=`, an expression, and a semicolon.
/// Nothing commits: any piece missing lets the next alternative try.
pub open spec fn spec_set_eq(s: Seq<char>, i: int) -> ParsedS<ExprS>
    decreases s.len() - i, 12int,
{
    match spec_ident(s, i) {
        ParsedS::Found(id, j) => {
            let j1 = ws_end(s, j);
            if 0 <= j1 < s.len() && s[j1] == '=' {
                let j2 = ws_end(s, j1 + 1);
                if i < j2 <= s.len() {
                    match crate::parse_binop::spec_bin_expr(s, j2) {
                        ParsedS::Found(e, k) => {
                            if 0 <= k < s.len() && s[k] == ';' {
                                ParsedS::Found(ExprS::SetEq(id, Box::new(e)), k + 1)
                            } else {
                                ParsedS::Miss
                            }
                        },
                        ParsedS::Miss => ParsedS::Miss,
                        ParsedS::Fail => ParsedS::Fail,
                    }
                } else {
                    ParsedS::Fail
                }
            } else {
                ParsedS::Miss
            }
        },
        _ => ParsedS::Miss,
    }
}

fn set_eq(s: &str, i: usize) -> (r: Parsed<Expr>)
    requires
        i <= s@.len() <= usize::MAX,
    ensures
        agrees(r, spec_set_eq(s@, i as int), |e: Expr| view_expr(e)),
        found_after(r, i as int, s@.len() as int),
    decreases s@.len() - i, 12int,
{
    match ident(s, i) {
        Parsed::Found(id, j) => {
            let j1 = ws(s, j);
            if j1 < s.unicode_len() && s.get_char(j1) == '=' {
                let j2 = ws(s, j1 + 1);
                match crate::parse_binop::bin_expr(s, j2) {
                    Parsed::Found(e, k) => {
                        if k < s.unicode_len() && s.get_char(k) == ';' {
                            Parsed::Found(Expr::SetEq(id, Box::new(e)), k + 1)
                        } else {
                            Parsed::Miss
                        }
                    },
                    Parsed::Miss => Parsed::Miss,
                    Parsed::Fail => Parsed::Fail,
                }
            } else {
                Parsed::Miss
            }
        },
        _ => Parsed::Miss,
    }
}

/// A statement: a block, a loop, an if-statement, a function definition, an
/// assignment, or an expression closed by a semicolon — tried in that
/// order, with committed constructs cutting the alternatives off.
pub open spec fn spec_statement(s: Seq<char>, i: int) -> ParsedS<ExprS>
    decreases s.len() - i, 20int,
{
    match spec_block(s, i) {
        ParsedS::Found(b, j) => ParsedS::Found(ExprS::Block(b), j),
        ParsedS::Fail => ParsedS::Fail,
        ParsedS::Miss => match spec_while(s, i) {
            ParsedS::Found(e, j) => ParsedS::Found(e, j),
            ParsedS::Fail => ParsedS::Fail,
            ParsedS::Miss => match spec_for(s, i) {
                ParsedS::Found(e, j) => ParsedS::Found(e, j),
                ParsedS::Fail => ParsedS::Fail,
                ParsedS::Miss => match spec_if(s, i) {
                    ParsedS::Found(f, j) => ParsedS::Found(ExprS::IfState(f), j),
                    ParsedS::Fail => ParsedS::Fail,
                    ParsedS::Miss => match spec_fndef(s, i) {
                        ParsedS::Found(e, j) => ParsedS::Found(e, j),
                        ParsedS::Fail => ParsedS::Fail,
                        ParsedS::Miss => match spec_set_eq(s, i) {
                            ParsedS::Found(e, j) => ParsedS::Found(e, j),
                            ParsedS::Fail => ParsedS::Fail,
                            ParsedS::Miss => match crate::parse_binop::spec_bin_expr(s, i) {
                                ParsedS::Found(e, j) => {
                                    let k = ws_end(s, j);
                                    if 0 <= k < s.len() && s[k] == ';' {
                                        ParsedS::Found(e, k + 1)
                                    } else {
                                        ParsedS::Miss
                                    }
                                },
                                ParsedS::Miss => ParsedS::Miss,
                                ParsedS::Fail => ParsedS::Fail,
                            },
                        },
                    },
                },
            },
        },
    }
}

pub(crate) fn statement(s: &str, i: usize) -> (r: Parsed<Expr>)
    requires
        i <= s@.len() <= usize::MAX,
    ensures
        agrees(r, spec_statement(s@, i as int), |e: Expr| view_expr(e)),
        found_after(r, i as int, s@.len() as int),
    decreases s@.len() - i, 20int,
{
    match block(s, i) {
        Parsed::Found(b, j) => { return Parsed::Found(Expr::Block(b), j); },
        Parsed::Fail => { return Parsed::Fail; },
        Parsed::Miss => {},
    }
    match while_loop(s, i) {
        Parsed::Found(e, j) => { return Parsed::Found(e, j); },
        Parsed::Fail => { return Parsed::Fail; },
        Parsed::Miss => {},
    }
    match for_loop(s, i) {
        Parsed::Found(e, j) => { return Parsed::Found(e, j); },
        Parsed::Fail => { return Parsed::Fail; },
        Parsed::Miss => {},
    }
    match if_statement(s, i) {
        Parsed::Found(f, j) => { return Parsed::Found(Expr::IfState(f), j); },
        Parsed::Fail => { return Parsed::Fail; },
        Parsed::Miss => {},
    }
    match function_def(s, i) {
        Parsed::Found(e, j) => { return Parsed::Found(e, j); },
        Parsed::Fail => { return Parsed::Fail; },
        Parsed::Miss => {},
    }
    match set_eq(s, i) {
        Parsed::Found(e, j) => { return Parsed::Found(e, j); },
        Parsed::Fail => { return Parsed::Fail; },
        Parsed::Miss => {},
    }
    match crate::parse_binop::bin_expr(s, i) {
        Parsed::Found(e, j) => {
            let k = ws(s, j);
            if k < s.unicode_len() && s.get_char(k) == ';' {
                Parsed::Found(e, k + 1)
            } else {
                Parsed::Miss
            }
        },
        Parsed::Miss => Parsed::Miss,
        Parsed::Fail => Parsed::Fail,
    }
}

/// The parse error: the input holds no well-formed statement.
#[derive(Debug, Clone, Copy, PartialEq, Eq)]
pub struct ParseError;

/// What parsing a whole input yields: the first statement after leading
/// whitespace, or nothing.
pub open spec fn spec_parse(s: Seq<char>) -> Option<ExprS> {
    let i = ws_end(s, 0);
    if 0 <= i <= s.len() {
        match spec_statement(s, i) {
            ParsedS::Found(e, j) => Some(e),
            _ => Option::None,
        }
    } else {
        Option::None
    }
}

/// Parse one statement from the start of the input.  Text after the
/// statement is ignored, as the grammar's callers expect.
pub fn parse(input: &str) -> (r: Result<Expr, ParseError>)
    ensures
        match r {
            Ok(e) => spec_parse(input@) == Some(view_expr(e)),
            Err(_) => spec_parse(input@) is None,
        },
{
    let slen = input.unicode_len();
    let i = ws(input, 0);
    match statement(input, i) {
        Parsed::Found(e, j) => Ok(e),
        _ => Err(ParseError),
    }
}


} // verus!
