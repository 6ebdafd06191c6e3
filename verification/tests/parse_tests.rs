use pettyscript::expr::{Block, Expr, Float, Ident, IfState, Literal, OrElse};
use pettyscript::parse::parse;

fn id(name: &str) -> Ident {
    Ident(name.to_string())
}

fn ident_expr(name: &str) -> Expr {
    Expr::Ident(id(name))
}

fn int_lit(n: i64) -> Expr {
    Expr::Literal(Literal::Int(n))
}

fn boolean(b: bool) -> Expr {
    Expr::Literal(Literal::Bool(b))
}

fn string(s: &str) -> Expr {
    Expr::Literal(Literal::String(s.to_string()))
}

fn float(neg: bool, int_part: &str, frac_part: &str) -> Expr {
    Expr::Literal(Literal::Float(Float {
        neg,
        int_part: int_part.to_string(),
        frac_part: frac_part.to_string(),
    }))
}

fn list(items: Vec<Expr>) -> Expr {
    Expr::Literal(Literal::List(items))
}

fn block_expr(items: Vec<Expr>) -> Expr {
    Expr::Block(Block(items))
}

fn call(name: &str, args: Vec<Expr>) -> Expr {
    Expr::FuncCall(id(name), args)
}

fn e_add(a: Expr, b: Expr) -> Expr {
    Expr::Add(Box::new((a, b)))
}

fn e_sub(a: Expr, b: Expr) -> Expr {
    Expr::Sub(Box::new((a, b)))
}

#[test]
fn test_literal_null() {
    assert_eq!(parse(" null ; "), Ok(Expr::Literal(Literal::Null)));
}

#[test]
fn test_literal_bool() {
    assert_eq!(parse(" true ;"), Ok(boolean(true)));
    assert_eq!(parse(" false ; "), Ok(boolean(false)));
}

#[test]
fn test_literal_float() {
    assert_eq!(parse("1.123 ;"), Ok(float(false, "1", "123")));
    assert_eq!(parse("- 1.123 ;"), Ok(float(true, "1", "123")));
}

#[test]
fn test_literal_int() {
    assert_eq!(parse("1 ;"), Ok(int_lit(1)));
    assert_eq!(parse("- 42 ;"), Ok(int_lit(-42)));
}

#[test]
fn test_literal_str() {
    assert_eq!(parse(r#" "Hello, World!"; "#), Ok(string("Hello, World!")));
}

#[test]
fn test_list() {
    assert_eq!(parse(" [  ] ; "), Ok(list(vec![])));
    assert_eq!(
        parse(" [ 1 , 2.5 , [ 2 , ] , ] ; "),
        Ok(list(vec![int_lit(1), float(false, "2", "5"), list(vec![int_lit(2)])]))
    );
}

#[test]
fn test_parse_block() {
    assert_eq!(parse(r#" { }; "#), Ok(block_expr(vec![])));
    assert_eq!(
        parse(r#" { "hello"; 1; {} }"#),
        Ok(block_expr(vec![string("hello"), int_lit(1), block_expr(vec![])]))
    );
}

#[test]
fn test_while_loop() {
    assert_eq!(
        parse(r#" while true { }"#),
        Ok(Expr::While { condition: Box::new(boolean(true)), block: Block(vec![]) })
    );
    assert_eq!(
        parse(r#" while false { "hello"; 1; }"#),
        Ok(Expr::While {
            condition: Box::new(boolean(false)),
            block: Block(vec![string("hello"), int_lit(1)]),
        })
    );
}

#[test]
fn test_for_loop() {
    assert_eq!(
        parse(r#" for i in [1, 2, 3] {}"#),
        Ok(Expr::For {
            ident: id("i"),
            iter: Box::new(list(vec![int_lit(1), int_lit(2), int_lit(3)])),
            block: Block(vec![]),
        })
    );
    assert_eq!(
        parse(r#" for i in iter { 1; [2, 3]; }"#),
        Ok(Expr::For {
            ident: id("i"),
            iter: Box::new(ident_expr("iter")),
            block: Block(vec![int_lit(1), list(vec![int_lit(2), int_lit(3)])]),
        })
    );
}

#[test]
fn test_ident() {
    assert_eq!(parse(r#" hello_world ; "#), Ok(ident_expr("hello_world")));
    assert_eq!(parse(r#" _asdF1; "#), Ok(ident_expr("_asdF1")));
}

#[test]
fn test_if_statement() {
    assert_eq!(
        parse(r#"if true { "hello"; }"#),
        Ok(Expr::IfState(IfState {
            condition: Box::new(boolean(true)),
            body: Block(vec![string("hello")]),
            or_else: OrElse::Nothing,
        }))
    );
    assert_eq!(
        parse(r#"if false { "hello"; } else { "goodbye"; }"#),
        Ok(Expr::IfState(IfState {
            condition: Box::new(boolean(false)),
            body: Block(vec![string("hello")]),
            or_else: OrElse::Block(Block(vec![string("goodbye")])),
        }))
    );
}

#[test]
fn test_fn_def() {
    assert_eq!(
        parse(r#"fn func (arg1, arg2) { "hello"; } "#),
        Ok(Expr::Function {
            name: id("func"),
            params: vec![id("arg1"), id("arg2")],
            body: Block(vec![string("hello")]),
        })
    );
}

#[test]
fn test_set_eq() {
    assert_eq!(parse(r#"hello = 10;"#), Ok(Expr::SetEq(id("hello"), Box::new(int_lit(10)))));
    assert_eq!(
        parse(r#"hello = "hello";"#),
        Ok(Expr::SetEq(id("hello"), Box::new(string("hello"))))
    );
    assert_eq!(
        parse(r#"hello = [1, 2, bye];"#),
        Ok(Expr::SetEq(
            id("hello"),
            Box::new(list(vec![int_lit(1), int_lit(2), ident_expr("bye")]))
        ))
    );
}

#[test]
fn test_fn_call() {
    assert_eq!(parse("foo();"), Ok(call("foo", vec![])));
    assert_eq!(parse("bar(1, 2);"), Ok(call("bar", vec![int_lit(1), int_lit(2)])));
    assert_eq!(parse("baz(foo());"), Ok(call("baz", vec![call("foo", vec![])])));
}

#[test]
fn test_long_fn() {
    assert_eq!(
        parse(
            r#"
        fn foo(bar, baz) {
            for i in range(bar) {
                if i {
                    print(baz);
                } else{
                    print("sadness");
                }
            }
        }"#
        ),
        Ok(Expr::Function {
            name: id("foo"),
            params: vec![id("bar"), id("baz")],
            body: Block(vec![Expr::For {
                ident: id("i"),
                iter: Box::new(call("range", vec![ident_expr("bar")])),
                block: Block(vec![Expr::IfState(IfState {
                    condition: Box::new(ident_expr("i")),
                    body: Block(vec![call("print", vec![ident_expr("baz")])]),
                    or_else: OrElse::Block(Block(vec![call(
                        "print",
                        vec![string("sadness")]
                    )])),
                })]),
            }]),
        })
    );
}

#[test]
fn test_binop() {
    assert_eq!(parse("1 + 2;"), Ok(Expr::Add(Box::new((int_lit(1), int_lit(2))))));
    assert_eq!(parse("1 - 2;"), Ok(Expr::Sub(Box::new((int_lit(1), int_lit(2))))));
    assert_eq!(parse("1 * 2;"), Ok(Expr::Mul(Box::new((int_lit(1), int_lit(2))))));
    assert_eq!(parse("1 / 2;"), Ok(Expr::Div(Box::new((int_lit(1), int_lit(2))))));
    assert_eq!(parse("1 == 2;"), Ok(Expr::EqEq(Box::new((int_lit(1), int_lit(2))))));
    assert_eq!(parse("1 && 2;"), Ok(Expr::And(Box::new((int_lit(1), int_lit(2))))));
    assert_eq!(parse("1 || 2;"), Ok(Expr::Or(Box::new((int_lit(1), int_lit(2))))));
    assert_eq!(parse("1.get;"), Ok(Expr::GetItem(Box::new(int_lit(1)), id("get"))));
    assert_eq!(
        parse("1.get(0);"),
        Ok(Expr::MethodCall(Box::new(int_lit(1)), id("get"), vec![int_lit(0)]))
    );
    assert_eq!(parse("(1 + 2);"), Ok(e_add(int_lit(1), int_lit(2))));
    assert_eq!(parse("1 + (2 - 3);"), Ok(e_add(int_lit(1), e_sub(int_lit(2), int_lit(3)))));
    assert_eq!(parse("(1 + 2) - 3;"), Ok(e_sub(e_add(int_lit(1), int_lit(2)), int_lit(3))));
}

#[test]
fn test_parse_errors() {
    // no statement at all
    assert!(parse("???").is_err());
    assert!(parse("").is_err());
    // a missing semicolon after an expression statement
    assert!(parse("1 + 2").is_err());
    // an opened string that never closes is committed and fails hard
    assert!(parse("\"abc").is_err());
    // an opened block with a malformed interior
    assert!(parse("{ 1; ").is_err());
    // an integer beyond the signed 64-bit range has no value
    assert!(parse("99999999999999999999;").is_err());
    assert!(parse("9223372036854775808;").is_err());
    // a keyword prefix commits: this is read as a for loop, not an assignment
    assert!(parse("fork = 1;").is_err());
}

#[test]
fn test_parse_edges() {
    // the largest representable magnitudes
    assert_eq!(parse("9223372036854775807;"), Ok(int_lit(i64::MAX)));
    assert_eq!(parse("- 9223372036854775807;"), Ok(int_lit(-i64::MAX)));
    // an empty fraction is a float unless an identifier follows the dot
    assert_eq!(parse("1. ;"), Ok(float(false, "1", "")));
    // text after the first statement is ignored
    assert_eq!(parse("1; trailing text"), Ok(int_lit(1)));
    // an empty argument list with a trailing comma inside a list
    assert_eq!(parse("[ 1 , ];"), Ok(list(vec![int_lit(1)])));
    // precedence: multiplication binds tighter than addition
    assert_eq!(
        parse("1 + 2 * 3;"),
        Ok(e_add(int_lit(1), Expr::Mul(Box::new((int_lit(2), int_lit(3))))))
    );
    // left association
    assert_eq!(
        parse("1 - 2 - 3;"),
        Ok(e_sub(e_sub(int_lit(1), int_lit(2)), int_lit(3)))
    );
}
