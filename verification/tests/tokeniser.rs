use japl::errors::TokenizeError;
use japl::lexer::FloatBits;
use japl::tokeniser::literal_kind::as_escaped;
use japl::tokeniser::{
    valid_identifier, Brackets, Keywords, LiteralKind, Operators, Token, Tokeniser,
};

fn float_of(text: &str) -> Option<FloatBits> {
    text.parse::<f64>().ok().map(|x| FloatBits { double: x.to_bits(), single: (x as f32).to_bits() })
}

fn token(text: &str) -> Result<Token, TokenizeError> {
    Token::try_from(text, float_of(text))
}

fn literal(text: &str) -> Result<LiteralKind, TokenizeError> {
    LiteralKind::try_from(text, float_of(text))
}

fn tokenise(expr: &str) -> Result<Vec<Token>, TokenizeError> {
    let mut scanner = Tokeniser::new();
    for c in expr.chars() {
        let pending = scanner.pending();
        let mut extended = pending.clone();
        extended.push(c);
        scanner.feed(c, float_of(&pending), float_of(&extended))?;
    }
    let pending = scanner.pending();
    scanner.finish(float_of(&pending))
}

#[test]
fn hello_world() {
    let string = "fn main() -> i32 {\n    print(\"Hello world\");\n    return 0;\n}\n";
    let expected: Vec<Token> = [
        "fn",
        "main",
        "(",
        ")",
        "->",
        "i32",
        "{",
        "print",
        "(",
        "\"Hello world\"",
        ")",
        ";",
        "return",
        "0",
        ";",
        "}",
    ]
    .into_iter()
    .map(token)
    .map(Result::unwrap)
    .collect();

    let tokens = tokenise(string.trim()).unwrap();

    assert!(tokens.into_iter().eq(expected.into_iter()))
}

#[test]
fn hello_world_token_by_token() {
    assert_eq!(
        tokenise("fn main() -> i32 { print(\"Hello world\"); return 0; }"),
        Ok(vec![
            Token::Keyword(Keywords::Fn),
            Token::Identifier("main".to_string()),
            Token::Bracket(Brackets::OpenParen),
            Token::Bracket(Brackets::CloseParen),
            Token::Operator(Operators::Arrow),
            Token::Keyword(Keywords::I32),
            Token::Bracket(Brackets::OpenCurly),
            Token::Identifier("print".to_string()),
            Token::Bracket(Brackets::OpenParen),
            Token::Literal(LiteralKind::String("Hello world".to_string())),
            Token::Bracket(Brackets::CloseParen),
            Token::Operator(Operators::End),
            Token::Keyword(Keywords::Return),
            Token::Literal(LiteralKind::Integer(0)),
            Token::Operator(Operators::End),
            Token::Bracket(Brackets::CloseCurly),
        ])
    );
}

#[test]
fn brackets_are_read() {
    let table = [
        ("(", Brackets::OpenParen),
        (")", Brackets::CloseParen),
        ("[", Brackets::OpenSquare),
        ("]", Brackets::CloseSquare),
        ("{", Brackets::OpenCurly),
        ("}", Brackets::CloseCurly),
    ];
    for (text, bracket) in table {
        assert_eq!(Brackets::try_from(text), Ok(bracket));
    }
    for text in ["", "<", "((", "x"] {
        assert_eq!(Brackets::try_from(text), Err(TokenizeError::InvalidToken(text.to_string())));
    }
}

#[test]
fn operators_are_read() {
    let table = [
        ("+", Operators::Add),
        ("-", Operators::Sub),
        ("*", Operators::Mul),
        ("/", Operators::Div),
        ("%", Operators::Mod),
        ("=", Operators::Assign),
        ("+=", Operators::AddAssign),
        ("-=", Operators::SubAssign),
        ("*=", Operators::MulAssign),
        ("/=", Operators::DivAssign),
        ("%=", Operators::ModAssign),
        ("&", Operators::BitAnd),
        ("|", Operators::BitOr),
        ("^", Operators::BitXor),
        ("&&", Operators::And),
        ("||", Operators::Or),
        ("!", Operators::Not),
        ("<", Operators::LessThan),
        (">", Operators::GreaterThan),
        ("==", Operators::Equals),
        ("<=", Operators::LessThanEquals),
        (">=", Operators::GreaterThanEquals),
        ("!=", Operators::NotEquals),
        (".", Operators::Dot),
        (";", Operators::End),
        ("->", Operators::Arrow),
        (",", Operators::Comma),
    ];
    for (text, operator) in table {
        assert_eq!(Operators::try_from(text), Ok(operator));
    }
    for text in ["", "=>", "===", "++", "<-", ":"] {
        assert_eq!(Operators::try_from(text), Err(TokenizeError::InvalidToken(text.to_string())));
    }
}

#[test]
fn keywords_are_read() {
    let table = [
        ("fn", Keywords::Fn, false),
        ("while", Keywords::While, false),
        ("for", Keywords::For, false),
        ("if", Keywords::If, false),
        ("else", Keywords::Else, false),
        ("return", Keywords::Return, false),
        ("break", Keywords::Break, false),
        ("continue", Keywords::Continue, false),
        ("true", Keywords::True, false),
        ("false", Keywords::False, false),
        ("const", Keywords::Const, true),
        ("i8", Keywords::I8, true),
        ("i16", Keywords::I16, true),
        ("i32", Keywords::I32, true),
        ("i64", Keywords::I64, true),
        ("i128", Keywords::I128, true),
        ("u8", Keywords::U8, true),
        ("u16", Keywords::U16, true),
        ("u32", Keywords::U32, true),
        ("u64", Keywords::U64, true),
        ("u128", Keywords::U128, true),
        ("char", Keywords::Character, true),
        ("bool", Keywords::Boolean, true),
    ];
    for (text, keyword, declares) in table {
        assert_eq!(Keywords::try_from(text), Ok(keyword));
        assert_eq!(keyword.is_keyword(), declares);
    }
    for text in ["", "Fn", "int", "i256", "elif"] {
        assert_eq!(Keywords::try_from(text), Err(TokenizeError::InvalidKeyword(text.to_string())));
    }
}

#[test]
fn escape_letters_are_read() {
    assert_eq!(as_escaped('n'), Ok('\n'));
    assert_eq!(as_escaped('t'), Ok('\t'));
    assert_eq!(as_escaped('r'), Ok('\r'));
    assert_eq!(as_escaped('0'), Ok('\0'));
    assert_eq!(as_escaped('x'), Err(TokenizeError::InvalidLiteral("\\x".to_string())));
    assert_eq!(as_escaped('\\'), Err(TokenizeError::InvalidLiteral("\\\\".to_string())));
}

#[test]
fn literals_of_the_structured_language_are_read() {
    assert_eq!(literal("12"), Ok(LiteralKind::Integer(12)));
    assert_eq!(literal("-12"), Ok(LiteralKind::Integer(-12)));
    assert_eq!(literal("-9223372036854775808"), Ok(LiteralKind::Integer(i64::MIN)));
    assert_eq!(
        literal("9223372036854775808"),
        Ok(LiteralKind::Float(FloatBits {
            double: 9223372036854775808f64.to_bits(),
            single: 9223372036854775808f32.to_bits(),
        }))
    );
    assert_eq!(
        literal("2.5"),
        Ok(LiteralKind::Float(FloatBits { double: 2.5f64.to_bits(), single: 2.5f32.to_bits() }))
    );
    assert_eq!(literal("'a'"), Ok(LiteralKind::Character('a')));
    assert_eq!(literal("'''"), Ok(LiteralKind::Character('\'')));
    assert_eq!(literal("'\\'"), Ok(LiteralKind::Character('\\')));
    assert_eq!(literal("'\\n'"), Ok(LiteralKind::Character('\n')));
    assert_eq!(literal("'\\0'"), Ok(LiteralKind::Character('\0')));
    assert_eq!(literal("'\\q'"), Err(TokenizeError::InvalidLiteral("\\q".to_string())));
    assert_eq!(literal("'é'"), Err(TokenizeError::InvalidLiteral("'é'".to_string())));
    assert_eq!(literal("'ab'"), Err(TokenizeError::InvalidLiteral("'ab'".to_string())));
    assert_eq!(literal("''"), Err(TokenizeError::InvalidLiteral("''".to_string())));
    assert_eq!(literal("\"hi\""), Ok(LiteralKind::String("hi".to_string())));
    assert_eq!(literal("\"é\""), Ok(LiteralKind::String("é".to_string())));
    assert_eq!(literal("\"a b\""), Ok(LiteralKind::String("a b".to_string())));
    assert_eq!(literal("\"\"\""), Ok(LiteralKind::String("\"".to_string())));
    assert_eq!(literal("\"\""), Err(TokenizeError::InvalidLiteral("\"\"".to_string())));
    assert_eq!(literal("\""), Err(TokenizeError::InvalidLiteral("\"".to_string())));
    assert_eq!(literal("\"hi"), Err(TokenizeError::InvalidLiteral("\"hi".to_string())));
    assert_eq!(literal("true"), Err(TokenizeError::InvalidLiteral("true".to_string())));
    assert_eq!(literal(""), Err(TokenizeError::InvalidLiteral(String::new())));
    assert_eq!(LiteralKind::String("s".to_string()).duplicate(), LiteralKind::String("s".to_string()));
}

#[test]
fn tokens_try_literal_keyword_operator_bracket_identifier() {
    assert_eq!(token("7"), Ok(Token::Literal(LiteralKind::Integer(7))));
    assert_eq!(token("true"), Ok(Token::Keyword(Keywords::True)));
    assert_eq!(token("while"), Ok(Token::Keyword(Keywords::While)));
    assert_eq!(token("<="), Ok(Token::Operator(Operators::LessThanEquals)));
    assert_eq!(token("["), Ok(Token::Bracket(Brackets::OpenSquare)));
    assert_eq!(token("main"), Ok(Token::Identifier("main".to_string())));
    assert_eq!(token("_x1"), Ok(Token::Identifier("_x1".to_string())));
    assert_eq!(token("'\\q'"), Err(TokenizeError::InvalidToken("'\\q'".to_string())));
    assert_eq!(token("1x"), Err(TokenizeError::InvalidToken("1x".to_string())));
    assert_eq!(token(""), Err(TokenizeError::InvalidToken(String::new())));
    assert_eq!(token("#"), Err(TokenizeError::InvalidToken("#".to_string())));
    assert_eq!(token("main").unwrap().duplicate(), Token::Identifier("main".to_string()));
    assert!(valid_identifier("snake_case_9"));
    assert!(!valid_identifier("9lives"));
    assert!(!valid_identifier(""));
}

#[test]
fn a_minus_behind_an_operator_stands_alone() {
    assert_eq!(
        tokenise("a = -5"),
        Ok(vec![
            Token::Identifier("a".to_string()),
            Token::Operator(Operators::Assign),
            Token::Operator(Operators::Sub),
            Token::Literal(LiteralKind::Integer(5)),
        ])
    );
    assert_eq!(
        tokenise("a -5"),
        Ok(vec![Token::Identifier("a".to_string()), Token::Literal(LiteralKind::Integer(-5))])
    );
    assert_eq!(
        tokenise("a - b"),
        Ok(vec![
            Token::Identifier("a".to_string()),
            Token::Operator(Operators::Sub),
            Token::Identifier("b".to_string()),
        ])
    );
    assert_eq!(
        tokenise("x-=1"),
        Ok(vec![
            Token::Identifier("x".to_string()),
            Token::Operator(Operators::SubAssign),
            Token::Literal(LiteralKind::Integer(1)),
        ])
    );
}

#[test]
fn quoted_text_keeps_its_white_space() {
    assert_eq!(
        tokenise("x = \"a  b\" ; c = ' '"),
        Ok(vec![
            Token::Identifier("x".to_string()),
            Token::Operator(Operators::Assign),
            Token::Literal(LiteralKind::String("a  b".to_string())),
            Token::Operator(Operators::End),
            Token::Identifier("c".to_string()),
            Token::Operator(Operators::Assign),
            Token::Literal(LiteralKind::Character(' ')),
        ])
    );
    assert_eq!(
        tokenise("'\\n'"),
        Ok(vec![Token::Literal(LiteralKind::Character('\n'))])
    );
}

#[test]
fn what_is_no_token_is_reported_where_a_word_ends() {
    assert_eq!(tokenise(""), Ok(vec![]));
    assert_eq!(tokenise("   "), Ok(vec![]));
    assert_eq!(tokenise("#"), Err(TokenizeError::InvalidToken(String::new())));
    assert_eq!(tokenise("a#"), Err(TokenizeError::InvalidToken("#".to_string())));
    assert_eq!(tokenise("\"open"), Err(TokenizeError::InvalidToken("\"open".to_string())));
    assert_eq!(
        tokenise("1.5e3x"),
        Ok(vec![
            Token::Literal(LiteralKind::Float(FloatBits {
                double: 1.5f64.to_bits(),
                single: 1.5f32.to_bits(),
            })),
            Token::Identifier("e3x".to_string()),
        ])
    );
    let mut scanner = Tokeniser::new();
    assert_eq!(scanner.feed('#', None, None), Err(TokenizeError::InvalidToken(String::new())));
    assert_eq!(scanner.pending(), String::new());
    assert_eq!(scanner.feed(' ', None, None), Ok(()));
    assert_eq!(
        TokenizeError::InvalidToken("#".to_string()).message(),
        "Invalid token: #".to_string()
    );
    assert_eq!(
        TokenizeError::InvalidLiteral("'".to_string()).message(),
        "Invalid literal: '".to_string()
    );
    assert_eq!(
        TokenizeError::InvalidKeyword("k".to_string()).message(),
        "Invalid keyword: k".to_string()
    );
}
