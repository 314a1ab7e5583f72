use lox::parser::{AstPrinter, Expr};
use lox::token::Token;
use lox::token_type::TokenType;

#[test]
fn basic_expression() {
    let expression = Expr::Binary {
        left: Box::new(Expr::Unary {
            operator: Token::new(TokenType::Minus, "-".to_string(), "".to_string(), 1),
            right: Box::new(Expr::Literal {
                value: "123".to_string(),
            }),
        }),
        operator: Token::new(TokenType::Star, "*".to_string(), "".to_string(), 1),
        right: Box::new(Expr::Grouping {
            expression: Box::new(Expr::Literal {
                value: "45.67".to_string(),
            }),
        }),
    };
    let ast_printer = AstPrinter;
    let res = ast_printer.print(expression);
    println!("===> {}", res);
    assert_eq!("(* (- 123) (group 45.67))".to_string(), res);
}

#[test]
fn empty_literal_prints_nil() {
    let res = AstPrinter.print(Expr::Literal { value: String::new() });
    assert_eq!(res, "nil");
    let res = AstPrinter.print(Expr::Grouping {
        expression: Box::new(Expr::Literal { value: String::new() }),
    });
    assert_eq!(res, "(group nil)");
}

#[test]
fn literal_prints_as_it_is() {
    let res = AstPrinter.print(Expr::Literal { value: "x y".to_string() });
    assert_eq!(res, "x y");
}

#[test]
fn nested_binary_expression() {
    let one = Expr::Literal { value: "1".to_string() };
    let two = Expr::Literal { value: "2".to_string() };
    let three = Expr::Literal { value: "3".to_string() };
    let sum = Expr::Binary {
        left: Box::new(one),
        operator: Token::new(TokenType::Plus, "+".to_string(), String::new(), 1),
        right: Box::new(two),
    };
    let whole = Expr::Binary {
        left: Box::new(sum),
        operator: Token::new(TokenType::EqualEqual, "==".to_string(), String::new(), 1),
        right: Box::new(three),
    };
    assert_eq!(AstPrinter.print(whole), "(== (+ 1 2) 3)");
}
