use lox::lexer::{lookup_keyword, message_text, Lexer};
use lox::grammar::ErrorKind;
use lox::token::{copy_tokens, Token};
use lox::token_type::TokenType;

fn scan(source: &str) -> Result<Vec<Token>, (usize, String)> {
    Lexer::new(source).scan_tokens()
}

fn kinds(source: &str) -> Vec<TokenType> {
    scan(source).unwrap().iter().map(|t| t.token_type).collect()
}

fn lexemes(source: &str) -> Vec<String> {
    scan(source).unwrap().iter().map(|t| t.lexeme.clone()).collect()
}

fn lines(source: &str) -> Vec<usize> {
    scan(source).unwrap().iter().map(|t| t.line).collect()
}

#[test]
fn empty_input_is_only_eof() {
    let tokens = scan("").unwrap();
    assert_eq!(tokens.len(), 1);
    assert_eq!(tokens[0].token_type, TokenType::EOF);
    assert_eq!(tokens[0].lexeme, "");
    assert_eq!(tokens[0].literal, "");
    assert_eq!(tokens[0].line, 1);
}

#[test]
fn sum_of_two_numbers() {
    let tokens = scan("1+2").unwrap();
    assert_eq!(
        kinds("1+2"),
        vec![TokenType::Number, TokenType::Plus, TokenType::Number, TokenType::EOF]
    );
    assert_eq!(tokens[0].lexeme, "1");
    assert_eq!(tokens[0].literal, "1");
    assert_eq!(tokens[1].lexeme, "+");
    assert_eq!(tokens[1].literal, "");
    assert_eq!(tokens[2].lexeme, "2");
    assert_eq!(tokens[2].literal, "2");
    assert_eq!(tokens[3].lexeme, "");
}

#[test]
fn comment_makes_no_token() {
    let tokens = scan("// comment\n123").unwrap();
    assert_eq!(tokens.len(), 2);
    assert_eq!(tokens[0].token_type, TokenType::Number);
    assert_eq!(tokens[0].literal, "123");
    assert_eq!(tokens[0].line, 2);
    assert_eq!(tokens[1].token_type, TokenType::EOF);
    assert_eq!(tokens[1].line, 2);
}

#[test]
fn comment_at_end_of_text() {
    assert_eq!(kinds("1 // one"), vec![TokenType::Number, TokenType::EOF]);
    assert_eq!(kinds("//"), vec![TokenType::EOF]);
    assert_eq!(kinds("// a\n// b\n"), vec![TokenType::EOF]);
    assert_eq!(lines("// a\n// b\n"), vec![3]);
}

#[test]
fn slash_alone_divides() {
    assert_eq!(
        kinds("6/3"),
        vec![TokenType::Number, TokenType::Slash, TokenType::Number, TokenType::EOF]
    );
    assert_eq!(kinds("/"), vec![TokenType::Slash, TokenType::EOF]);
}

#[test]
fn string_literal_payload_has_no_quotes() {
    let tokens = scan("\"abc\"").unwrap();
    assert_eq!(tokens.len(), 2);
    assert_eq!(tokens[0].token_type, TokenType::String);
    assert_eq!(tokens[0].lexeme, "\"abc\"");
    assert_eq!(tokens[0].literal, "abc");
    assert_eq!(tokens[0].line, 1);
}

#[test]
fn empty_string_literal() {
    let tokens = scan("\"\"").unwrap();
    assert_eq!(tokens[0].token_type, TokenType::String);
    assert_eq!(tokens[0].lexeme, "\"\"");
    assert_eq!(tokens[0].literal, "");
}

#[test]
fn escapes_are_not_interpreted() {
    let tokens = scan("\"a\\n\"").unwrap();
    assert_eq!(tokens[0].literal, "a\\n");
    assert_eq!(tokens[0].line, 1);
    assert_eq!(tokens[1].line, 1);
}

#[test]
fn unterminated_string_fails() {
    assert_eq!(scan("\"abc").err(), Some((1, "Unterminated string.".to_string())));
    assert_eq!(scan("\"").err(), Some((1, "Unterminated string.".to_string())));
}

#[test]
fn unterminated_string_reports_last_line() {
    assert_eq!(scan("1\n\"ab\nc\n").err(), Some((4, "Unterminated string.".to_string())));
}

#[test]
fn unexpected_character_fails() {
    assert_eq!(scan("@").err(), Some((1, "Unexpected character".to_string())));
    assert_eq!(scan("1 +\n2 # 3").err(), Some((2, "Unexpected character".to_string())));
}

#[test]
fn first_failure_wins() {
    assert_eq!(scan("@ \n \"abc").err(), Some((1, "Unexpected character".to_string())));
    assert_eq!(scan("\n\"abc\n @").err(), Some((3, "Unterminated string.".to_string())));
}

#[test]
fn failure_keeps_no_token_list() {
    let mut lexer = Lexer::new("1 + @");
    assert!(lexer.scan_tokens().is_err());
}

#[test]
fn bang_with_and_without_equal() {
    assert_eq!(kinds("!="), vec![TokenType::BangEqual, TokenType::EOF]);
    assert_eq!(kinds("!"), vec![TokenType::Bang, TokenType::EOF]);
    assert_eq!(lexemes("!="), vec!["!=".to_string(), String::new()]);
    assert_eq!(lexemes("!"), vec!["!".to_string(), String::new()]);
}

#[test]
fn all_operators() {
    assert_eq!(
        kinds("! != = == < <= > >="),
        vec![
            TokenType::Bang,
            TokenType::BangEqual,
            TokenType::Equal,
            TokenType::EqualEqual,
            TokenType::Lesser,
            TokenType::LesserEqual,
            TokenType::Greater,
            TokenType::GreaterEqual,
            TokenType::EOF
        ]
    );
    assert_eq!(
        kinds("==="),
        vec![TokenType::EqualEqual, TokenType::Equal, TokenType::EOF]
    );
    assert_eq!(
        kinds("!!="),
        vec![TokenType::Bang, TokenType::BangEqual, TokenType::EOF]
    );
}

#[test]
fn all_punctuation() {
    assert_eq!(
        kinds("(){},.-+;*/"),
        vec![
            TokenType::LeftParen,
            TokenType::RightParen,
            TokenType::LeftBrace,
            TokenType::RightBrace,
            TokenType::Comma,
            TokenType::Dot,
            TokenType::Minus,
            TokenType::Plus,
            TokenType::Semicolon,
            TokenType::Star,
            TokenType::Slash,
            TokenType::EOF
        ]
    );
}

#[test]
fn number_with_fraction() {
    let tokens = scan("3.14").unwrap();
    assert_eq!(tokens.len(), 2);
    assert_eq!(tokens[0].token_type, TokenType::Number);
    assert_eq!(tokens[0].lexeme, "3.14");
    assert_eq!(tokens[0].literal, "3.14");
}

#[test]
fn trailing_dot_is_its_own_token() {
    let tokens = scan("3.").unwrap();
    assert_eq!(
        kinds("3."),
        vec![TokenType::Number, TokenType::Dot, TokenType::EOF]
    );
    assert_eq!(tokens[0].literal, "3");
    assert_eq!(tokens[1].lexeme, ".");
}

#[test]
fn number_takes_one_fraction() {
    assert_eq!(
        lexemes("1.2.3"),
        vec!["1.2".to_string(), ".".to_string(), "3".to_string(), String::new()]
    );
    assert_eq!(
        lexemes(".5"),
        vec![".".to_string(), "5".to_string(), String::new()]
    );
    assert_eq!(
        lexemes("12.x"),
        vec!["12".to_string(), ".".to_string(), "x".to_string(), String::new()]
    );
}

#[test]
fn keyword_prefix_is_an_identifier() {
    let tokens = scan("classroom").unwrap();
    assert_eq!(tokens.len(), 2);
    assert_eq!(tokens[0].token_type, TokenType::Identifier);
    assert_eq!(tokens[0].lexeme, "classroom");
    assert_eq!(tokens[0].literal, "");
    let tokens = scan("class").unwrap();
    assert_eq!(tokens.len(), 2);
    assert_eq!(tokens[0].token_type, TokenType::Class);
    assert_eq!(tokens[0].lexeme, "class");
}

#[test]
fn all_reserved_words() {
    assert_eq!(
        kinds("and class else false for fun if nil or print return super this true var while"),
        vec![
            TokenType::And,
            TokenType::Class,
            TokenType::Else,
            TokenType::False,
            TokenType::For,
            TokenType::Fun,
            TokenType::If,
            TokenType::Nil,
            TokenType::Or,
            TokenType::Print,
            TokenType::Return,
            TokenType::Super,
            TokenType::This,
            TokenType::True,
            TokenType::Var,
            TokenType::While,
            TokenType::EOF
        ]
    );
}

#[test]
fn reserved_words_are_case_sensitive() {
    assert_eq!(kinds("Class"), vec![TokenType::Identifier, TokenType::EOF]);
    assert_eq!(kinds("WHILE"), vec![TokenType::Identifier, TokenType::EOF]);
    assert_eq!(kinds("nil_"), vec![TokenType::Identifier, TokenType::EOF]);
    assert_eq!(kinds("or2"), vec![TokenType::Identifier, TokenType::EOF]);
}

#[test]
fn identifiers_take_underscores_and_digits() {
    assert_eq!(
        lexemes("_a1 b_2"),
        vec!["_a1".to_string(), "b_2".to_string(), String::new()]
    );
    assert_eq!(
        lexemes("1a"),
        vec!["1".to_string(), "a".to_string(), String::new()]
    );
}

#[test]
fn letters_beyond_ascii_make_identifiers() {
    let tokens = scan("caf\u{e9} = 1").unwrap();
    assert_eq!(tokens[0].token_type, TokenType::Identifier);
    assert_eq!(tokens[0].lexeme, "caf\u{e9}");
    assert_eq!(tokens[1].token_type, TokenType::Equal);
    let tokens = scan("\u{3b1}\u{3b2}").unwrap();
    assert_eq!(tokens[0].token_type, TokenType::Identifier);
    assert_eq!(tokens[0].lexeme, "\u{3b1}\u{3b2}");
}

#[test]
fn symbols_beyond_ascii_are_unexpected() {
    assert_eq!(scan("\u{d7}").err(), Some((1, "Unexpected character".to_string())));
    assert_eq!(scan("a\u{d7}").err(), Some((1, "Unexpected character".to_string())));
    assert_eq!(scan("\n\u{2192}").err(), Some((2, "Unexpected character".to_string())));
}

#[test]
fn text_beyond_ascii_inside_strings_and_comments() {
    let tokens = scan("\"\u{2603}\u{d7}\" // \u{2192}\n1").unwrap();
    assert_eq!(tokens[0].token_type, TokenType::String);
    assert_eq!(tokens[0].literal, "\u{2603}\u{d7}");
    assert_eq!(tokens[1].token_type, TokenType::Number);
    assert_eq!(tokens[1].line, 2);
}

#[test]
fn blanks_are_skipped() {
    assert_eq!(kinds(" \t\r "), vec![TokenType::EOF]);
    assert_eq!(lines(" \t\r "), vec![1]);
    assert_eq!(
        lexemes("a \t b"),
        vec!["a".to_string(), "b".to_string(), String::new()]
    );
}

#[test]
fn lines_count_newlines() {
    assert_eq!(lines("a\nb\n\nc"), vec![1, 2, 4, 4]);
    assert_eq!(lines("\n\n"), vec![3]);
    assert_eq!(lines("a\r\nb"), vec![1, 2, 2]);
}

#[test]
fn line_of_each_token_is_newlines_before_it_plus_one() {
    let source = "var a = 1;\n// c\nprint a\n  + \"x\ny\" ;\nwhile";
    let tokens = scan(source).unwrap();
    let chars: Vec<char> = source.chars().collect();
    let mut from = 0;
    for t in tokens.iter().filter(|t| t.token_type != TokenType::EOF) {
        let lexeme: Vec<char> = t.lexeme.chars().collect();
        let at = (from..chars.len())
            .find(|&i| chars[i..].starts_with(&lexeme))
            .unwrap();
        let before = chars[..at].iter().filter(|&&c| c == '\n').count();
        assert_eq!(t.line, before + 1);
        from = at + lexeme.len();
    }
}

#[test]
fn string_over_lines_stands_on_its_first_line() {
    let tokens = scan("\"a\nb\" c").unwrap();
    assert_eq!(tokens[0].token_type, TokenType::String);
    assert_eq!(tokens[0].literal, "a\nb");
    assert_eq!(tokens[0].line, 1);
    assert_eq!(tokens[1].token_type, TokenType::Identifier);
    assert_eq!(tokens[1].line, 2);
    assert_eq!(tokens[2].token_type, TokenType::EOF);
    assert_eq!(tokens[2].line, 2);
}

#[test]
fn lexemes_are_slices_of_the_source() {
    let source = "fun f(a, b) { return a >= b.c; } // end\n\"s\" 1.5 _x";
    let tokens = scan(source).unwrap();
    let mut from = 0;
    let mut joined = String::new();
    for t in tokens.iter().filter(|t| t.token_type != TokenType::EOF) {
        let at = source[from..].find(t.lexeme.as_str()).unwrap() + from;
        assert_eq!(&source[at..at + t.lexeme.len()], t.lexeme);
        assert!(source[from..at]
            .chars()
            .all(|c| c == ' ' || c == '\n' || "// end".contains(c)));
        from = at + t.lexeme.len();
        joined.push_str(&t.lexeme);
    }
    assert_eq!(joined, "funf(a,b){returna>=b.c;}\"s\"1.5_x");
}

#[test]
fn scanning_twice_gives_the_same() {
    let source = "var x = (1 + 2) * 3.5; // c\nprint \"hi\";";
    let first = scan(source).unwrap();
    let second = scan(source).unwrap();
    assert_eq!(first.len(), second.len());
    for (a, b) in first.iter().zip(second.iter()) {
        assert_eq!(a.token_type, b.token_type);
        assert_eq!(a.lexeme, b.lexeme);
        assert_eq!(a.literal, b.literal);
        assert_eq!(a.line, b.line);
    }
    assert_eq!(scan("a @").err(), scan("a @").err());
}

#[test]
fn exactly_one_eof_and_it_is_last() {
    let tokens = scan("a b\nc").unwrap();
    let n = tokens
        .iter()
        .filter(|t| t.token_type == TokenType::EOF)
        .count();
    assert_eq!(n, 1);
    let last = tokens.last().unwrap();
    assert_eq!(last.token_type, TokenType::EOF);
    assert_eq!(last.lexeme, "");
    assert_eq!(last.literal, "");
    assert_eq!(last.line, 2);
}

#[test]
fn a_finished_scanner_adds_only_eof() {
    let mut lexer = Lexer::new("a");
    assert_eq!(lexer.scan_tokens().unwrap().len(), 2);
    let again = lexer.scan_tokens().unwrap();
    assert_eq!(again.len(), 3);
    assert_eq!(again[2].token_type, TokenType::EOF);
}

#[test]
fn keyword_lookup() {
    let chars: Vec<char> = "xwhile fun".chars().collect();
    assert_eq!(lookup_keyword(&chars, 1, 6), Some(TokenType::While));
    assert_eq!(lookup_keyword(&chars, 0, 6), None);
    assert_eq!(lookup_keyword(&chars, 7, 10), Some(TokenType::Fun));
    assert_eq!(lookup_keyword(&chars, 7, 9), None);
    assert_eq!(lookup_keyword(&chars, 3, 3), None);
}

#[test]
fn failure_messages() {
    assert_eq!(message_text(ErrorKind::UnexpectedCharacter), "Unexpected character");
    assert_eq!(message_text(ErrorKind::UnterminatedString), "Unterminated string.");
}

#[test]
fn copies_are_independent_and_equal() {
    let tokens = scan("a 1").unwrap();
    let copy = copy_tokens(&tokens);
    assert_eq!(copy.len(), 3);
    assert_eq!(copy[0].lexeme, "a");
    assert_eq!(copy[1].literal, "1");
    assert_eq!(copy[2].token_type, TokenType::EOF);
}
