//! The expression grammar: binary operators with standard precedence.
//!
//! Lowest first: comparison (`==`, `||`, `&&`), then additive (`+`, `-`),
//! then multiplicative (`*`, `/`), then member and method access (`.`), then
//! atoms and parenthesised expressions.  Every layer folds left-associatively,
//! and an operator commits: once one is read, a missing right operand is a
//! hard failure.
//!
//! Around a factor only spaces and tabs are skipped, not line breaks; the
//! statement grammar decides where lines may break.

use vstd::prelude::*;

use crate::expr::{view_expr, Expr, ExprS};
use crate::parse::{
    agrees, atom, found_after, found_from, fn_call, has_kw, ident, kw_at, sp, sp_end,
    spec_atom, spec_fn_call, spec_ident, Parsed, ParsedS,
};
use vstd::string::StrSliceExecFns;

verus! {

/// A full expression: the comparison layer.
pub open spec fn spec_bin_expr(s: Seq<char>, i: int) -> ParsedS<ExprS>
    decreases s.len() - i, 10int,
{
    spec_comparison(s, i)
}

/// The comparison layer: additive expressions joined by `==`, `||`, `&&`.
pub open spec fn spec_comparison(s: Seq<char>, i: int) -> ParsedS<ExprS>
    decreases s.len() - i, 9int,
{
    match spec_plus_minus(s, i) {
        ParsedS::Found(v, j) => {
            if i < j <= s.len() {
                spec_cmp_tail(s, j, v)
            } else {
                ParsedS::Found(v, j)
            }
        },
        ParsedS::Miss => ParsedS::Miss,
        ParsedS::Fail => ParsedS::Fail,
    }
}

/// Fold further comparison-level operators onto `acc`, left to right.
pub open spec fn spec_cmp_tail(s: Seq<char>, i: int, acc: ExprS) -> ParsedS<ExprS>
    decreases s.len() - i, 30int,
{
    if i + 2 <= s.len() && kw_at(s, i, "=="@) {
        match spec_plus_minus(s, i + 2) {
            ParsedS::Found(v, k) => {
                let acc2 = ExprS::EqEq(Box::new(acc), Box::new(v));
                if i < k <= s.len() {
                    spec_cmp_tail(s, k, acc2)
                } else {
                    ParsedS::Found(acc2, k)
                }
            },
            _ => ParsedS::Fail,
        }
    } else if i + 2 <= s.len() && kw_at(s, i, "||"@) {
        match spec_plus_minus(s, i + 2) {
            ParsedS::Found(v, k) => {
                let acc2 = ExprS::Or(Box::new(acc), Box::new(v));
                if i < k <= s.len() {
                    spec_cmp_tail(s, k, acc2)
                } else {
                    ParsedS::Found(acc2, k)
                }
            },
            _ => ParsedS::Fail,
        }
    } else if i + 2 <= s.len() && kw_at(s, i, "&&"@) {
        match spec_plus_minus(s, i + 2) {
            ParsedS::Found(v, k) => {
                let acc2 = ExprS::And(Box::new(acc), Box::new(v));
                if i < k <= s.len() {
                    spec_cmp_tail(s, k, acc2)
                } else {
                    ParsedS::Found(acc2, k)
                }
            },
            _ => ParsedS::Fail,
        }
    } else {
        ParsedS::Found(acc, i)
    }
}

/// The additive layer: multiplicative expressions joined by `+` and `-`.
pub open spec fn spec_plus_minus(s: Seq<char>, i: int) -> ParsedS<ExprS>
    decreases s.len() - i, 8int,
{
    match spec_mul_div(s, i) {
        ParsedS::Found(v, j) => {
            if i < j <= s.len() {
                spec_pm_tail(s, j, v)
            } else {
                ParsedS::Found(v, j)
            }
        },
        ParsedS::Miss => ParsedS::Miss,
        ParsedS::Fail => ParsedS::Fail,
    }
}

/// Fold further `+` and `-` operators onto `acc`, left to right.
pub open spec fn spec_pm_tail(s: Seq<char>, i: int, acc: ExprS) -> ParsedS<ExprS>
    decreases s.len() - i, 30int,
{
    if 0 <= i < s.len() && (s[i] == '+' || s[i] == '-') {
        match spec_mul_div(s, i + 1) {
            ParsedS::Found(v, k) => {
                let acc2 = if s[i] == '+' {
                    ExprS::Add(Box::new(acc), Box::new(v))
                } else {
                    ExprS::Sub(Box::new(acc), Box::new(v))
                };
                if i < k <= s.len() {
                    spec_pm_tail(s, k, acc2)
                } else {
                    ParsedS::Found(acc2, k)
                }
            },
            _ => ParsedS::Fail,
        }
    } else {
        ParsedS::Found(acc, i)
    }
}

/// The multiplicative layer: member expressions joined by `*` and `/`.
pub open spec fn spec_mul_div(s: Seq<char>, i: int) -> ParsedS<ExprS>
    decreases s.len() - i, 7int,
{
    match spec_get_item(s, i) {
        ParsedS::Found(v, j) => {
            if i < j <= s.len() {
                spec_md_tail(s, j, v)
            } else {
                ParsedS::Found(v, j)
            }
        },
        ParsedS::Miss => ParsedS::Miss,
        ParsedS::Fail => ParsedS::Fail,
    }
}

/// Fold further `*` and `/` operators onto `acc`, left to right.
pub open spec fn spec_md_tail(s: Seq<char>, i: int, acc: ExprS) -> ParsedS<ExprS>
    decreases s.len() - i, 30int,
{
    if 0 <= i < s.len() && (s[i] == '*' || s[i] == '/') {
        match spec_get_item(s, i + 1) {
            ParsedS::Found(v, k) => {
                let acc2 = if s[i] == '*' {
                    ExprS::Mul(Box::new(acc), Box::new(v))
                } else {
                    ExprS::Div(Box::new(acc), Box::new(v))
                };
                if i < k <= s.len() {
                    spec_md_tail(s, k, acc2)
                } else {
                    ParsedS::Found(acc2, k)
                }
            },
            _ => ParsedS::Fail,
        }
    } else {
        ParsedS::Found(acc, i)
    }
}

/// The member layer: a factor followed by `.name` attribute accesses and
/// `.name(args)` method calls.
pub open spec fn spec_get_item(s: Seq<char>, i: int) -> ParsedS<ExprS>
    decreases s.len() - i, 6int,
{
    match spec_factor(s, i) {
        ParsedS::Found(v, j) => {
            if i < j <= s.len() {
                spec_member_tail(s, j, v)
            } else {
                ParsedS::Found(v, j)
            }
        },
        ParsedS::Miss => ParsedS::Miss,
        ParsedS::Fail => ParsedS::Fail,
    }
}

/// Fold further member accesses onto `acc`.  A dot commits: what follows
/// must be a method call or an attribute name.
pub open spec fn spec_member_tail(s: Seq<char>, i: int, acc: ExprS) -> ParsedS<ExprS>
    decreases s.len() - i, 30int,
{
    if 0 <= i < s.len() && s[i] == '.' {
        match spec_fn_call(s, i + 1) {
            ParsedS::Found(pair, k) => {
                let acc2 = ExprS::MethodCall(Box::new(acc), pair.0, pair.1);
                if i < k <= s.len() {
                    spec_member_tail(s, k, acc2)
                } else {
                    ParsedS::Found(acc2, k)
                }
            },
            ParsedS::Miss => match spec_ident(s, i + 1) {
                ParsedS::Found(id, k) => {
                    let acc2 = ExprS::GetItem(Box::new(acc), id);
                    if i < k <= s.len() {
                        spec_member_tail(s, k, acc2)
                    } else {
                        ParsedS::Found(acc2, k)
                    }
                },
                _ => ParsedS::Fail,
            },
            ParsedS::Fail => ParsedS::Fail,
        }
    } else {
        ParsedS::Found(acc, i)
    }
}

/// A factor: an atom or a parenthesised expression, with spaces and tabs
/// allowed on either side.
pub open spec fn spec_factor(s: Seq<char>, i: int) -> ParsedS<ExprS>
    decreases s.len() - i, 5int,
{
    let j0 = sp_end(s, i);
    if i <= j0 <= s.len() {
        match spec_atom(s, j0) {
            ParsedS::Found(e, k) => {
                if 0 <= k <= s.len() {
                    ParsedS::Found(e, sp_end(s, k))
                } else {
                    ParsedS::Found(e, k)
                }
            },
            ParsedS::Miss => {
                if 0 <= j0 < s.len() && s[j0] == '(' {
                    match spec_bin_expr(s, j0 + 1) {
                        ParsedS::Found(e, k) => {
                            if 0 <= k < s.len() && s[k] == ')' {
                                ParsedS::Found(e, sp_end(s, k + 1))
                            } else {
                                ParsedS::Miss
                            }
                        },
                        ParsedS::Miss => ParsedS::Miss,
                        ParsedS::Fail => ParsedS::Fail,
                    }
                } else {
                    ParsedS::Miss
                }
            },
            ParsedS::Fail => ParsedS::Fail,
        }
    } else {
        ParsedS::Fail
    }
}

/// A full expression, at run time.
pub fn bin_expr(s: &str, i: usize) -> (r: Parsed<Expr>)
    requires
        i <= s@.len() <= usize::MAX,
    ensures
        agrees(r, spec_bin_expr(s@, i as int), |e: Expr| view_expr(e)),
        found_after(r, i as int, s@.len() as int),
    decreases s@.len() - i, 10int,
{
    comparison(s, i)
}

fn comparison(s: &str, i: usize) -> (r: Parsed<Expr>)
    requires
        i <= s@.len() <= usize::MAX,
    ensures
        agrees(r, spec_comparison(s@, i as int), |e: Expr| view_expr(e)),
        found_after(r, i as int, s@.len() as int),
    decreases s@.len() - i, 9int,
{
    match plus_minus(s, i) {
        Parsed::Found(v, j) => cmp_tail(s, j, v),
        Parsed::Miss => Parsed::Miss,
        Parsed::Fail => Parsed::Fail,
    }
}

fn cmp_tail(s: &str, i: usize, acc: Expr) -> (r: Parsed<Expr>)
    requires
        i <= s@.len() <= usize::MAX,
    ensures
        agrees(r, spec_cmp_tail(s@, i as int, view_expr(acc)), |e: Expr| view_expr(e)),
        found_from(r, i as int, s@.len() as int),
    decreases s@.len() - i, 30int,
{
    let slen = s.unicode_len();
    if 2 <= slen - i && has_kw(s, i, "==") {
        match plus_minus(s, i + 2) {
            Parsed::Found(v, k) => cmp_tail(s, k, Expr::EqEq(Box::new((acc, v)))),
            _ => Parsed::Fail,
        }
    } else if 2 <= slen - i && has_kw(s, i, "||") {
        match plus_minus(s, i + 2) {
            Parsed::Found(v, k) => cmp_tail(s, k, Expr::Or(Box::new((acc, v)))),
            _ => Parsed::Fail,
        }
    } else if 2 <= slen - i && has_kw(s, i, "&&") {
        match plus_minus(s, i + 2) {
            Parsed::Found(v, k) => cmp_tail(s, k, Expr::And(Box::new((acc, v)))),
            _ => Parsed::Fail,
        }
    } else {
        Parsed::Found(acc, i)
    }
}

/// The additive layer, at run time.
pub fn plus_minus(s: &str, i: usize) -> (r: Parsed<Expr>)
    requires
        i <= s@.len() <= usize::MAX,
    ensures
        agrees(r, spec_plus_minus(s@, i as int), |e: Expr| view_expr(e)),
        found_after(r, i as int, s@.len() as int),
    decreases s@.len() - i, 8int,
{
    match mul_div(s, i) {
        Parsed::Found(v, j) => pm_tail(s, j, v),
        Parsed::Miss => Parsed::Miss,
        Parsed::Fail => Parsed::Fail,
    }
}

fn pm_tail(s: &str, i: usize, acc: Expr) -> (r: Parsed<Expr>)
    requires
        i <= s@.len() <= usize::MAX,
    ensures
        agrees(r, spec_pm_tail(s@, i as int, view_expr(acc)), |e: Expr| view_expr(e)),
        found_from(r, i as int, s@.len() as int),
    decreases s@.len() - i, 30int,
{
    if i < s.unicode_len() {
        let c = s.get_char(i);
        if c == '+' || c == '-' {
            return match mul_div(s, i + 1) {
                Parsed::Found(v, k) => {
                    let acc2 = if c == '+' {
                        Expr::Add(Box::new((acc, v)))
                    } else {
                        Expr::Sub(Box::new((acc, v)))
                    };
                    pm_tail(s, k, acc2)
                },
                _ => Parsed::Fail,
            };
        }
    }
    Parsed::Found(acc, i)
}

fn mul_div(s: &str, i: usize) -> (r: Parsed<Expr>)
    requires
        i <= s@.len() <= usize::MAX,
    ensures
        agrees(r, spec_mul_div(s@, i as int), |e: Expr| view_expr(e)),
        found_after(r, i as int, s@.len() as int),
    decreases s@.len() - i, 7int,
{
    match get_item(s, i) {
        Parsed::Found(v, j) => md_tail(s, j, v),
        Parsed::Miss => Parsed::Miss,
        Parsed::Fail => Parsed::Fail,
    }
}

fn md_tail(s: &str, i: usize, acc: Expr) -> (r: Parsed<Expr>)
    requires
        i <= s@.len() <= usize::MAX,
    ensures
        agrees(r, spec_md_tail(s@, i as int, view_expr(acc)), |e: Expr| view_expr(e)),
        found_from(r, i as int, s@.len() as int),
    decreases s@.len() - i, 30int,
{
    if i < s.unicode_len() {
        let c = s.get_char(i);
        if c == '*' || c == '/' {
            return match get_item(s, i + 1) {
                Parsed::Found(v, k) => {
                    let acc2 = if c == '*' {
                        Expr::Mul(Box::new((acc, v)))
                    } else {
                        Expr::Div(Box::new((acc, v)))
                    };
                    md_tail(s, k, acc2)
                },
                _ => Parsed::Fail,
            };
        }
    }
    Parsed::Found(acc, i)
}

/// The member layer, at run time.
fn get_item(s: &str, i: usize) -> (r: Parsed<Expr>)
    requires
        i <= s@.len() <= usize::MAX,
    ensures
        agrees(r, spec_get_item(s@, i as int), |e: Expr| view_expr(e)),
        found_after(r, i as int, s@.len() as int),
    decreases s@.len() - i, 6int,
{
    match factor(s, i) {
        Parsed::Found(v, j) => member_tail(s, j, v),
        Parsed::Miss => Parsed::Miss,
        Parsed::Fail => Parsed::Fail,
    }
}

fn member_tail(s: &str, i: usize, acc: Expr) -> (r: Parsed<Expr>)
    requires
        i <= s@.len() <= usize::MAX,
    ensures
        agrees(r, spec_member_tail(s@, i as int, view_expr(acc)), |e: Expr| view_expr(e)),
        found_from(r, i as int, s@.len() as int),
    decreases s@.len() - i, 30int,
{
    if i < s.unicode_len() && s.get_char(i) == '.' {
        match fn_call(s, i + 1) {
            Parsed::Found(pair, k) => {
                let (name, args) = pair;
                member_tail(s, k, Expr::MethodCall(Box::new(acc), name, args))
            },
            Parsed::Miss => match ident(s, i + 1) {
                Parsed::Found(id, k) => member_tail(s, k, Expr::GetItem(Box::new(acc), id)),
                _ => Parsed::Fail,
            },
            Parsed::Fail => Parsed::Fail,
        }
    } else {
        Parsed::Found(acc, i)
    }
}

fn factor(s: &str, i: usize) -> (r: Parsed<Expr>)
    requires
        i <= s@.len() <= usize::MAX,
    ensures
        agrees(r, spec_factor(s@, i as int), |e: Expr| view_expr(e)),
        found_after(r, i as int, s@.len() as int),
    decreases s@.len() - i, 5int,
{
    let j0 = sp(s, i);
    match atom(s, j0) {
        Parsed::Found(e, k) => Parsed::Found(e, sp(s, k)),
        Parsed::Miss => {
            if j0 < s.unicode_len() && s.get_char(j0) == '(' {
                match bin_expr(s, j0 + 1) {
                    Parsed::Found(e, k) => {
                        if k < s.unicode_len() && s.get_char(k) == ')' {
                            Parsed::Found(e, sp(s, k + 1))
                        } else {
                            Parsed::Miss
                        }
                    },
                    Parsed::Miss => Parsed::Miss,
                    Parsed::Fail => Parsed::Fail,
                }
            } else {
                Parsed::Miss
            }
        },
        Parsed::Fail => Parsed::Fail,
    }
}

} // verus!
