use japl::error::JAPLError;
use japl::lexer::{Keyword, Literal, Symbol, Token};
use japl::parser::convert::{
    get_ident_name, get_label_name, get_register_name, get_value, get_variable_type,
};
use japl::parser::parse;
use japl::runtime::{BinOperator, Instruction, LabelTable, RegisterName, Type, UnOperator, Value};

fn kw(keyword: Keyword) -> Token {
    Token::Keyword(keyword)
}

fn id(name: &str) -> Token {
    Token::Identifier(name.to_string())
}

fn number(value: u64) -> Token {
    Token::Literal(Literal::Integer(value))
}

fn invalid(message: &str) -> JAPLError {
    JAPLError::InvalidArgument(message.to_string())
}

#[test]
fn operands_are_read_by_kind() {
    assert_eq!(get_register_name(Some(kw(Keyword::RegisterB2))), Ok(RegisterName::B2));
    assert_eq!(get_register_name(None), Err(invalid("Missing token: RegisterName")));
    assert_eq!(
        get_register_name(Some(kw(Keyword::RegClassB))),
        Err(invalid("Exptected keyword: Register Name"))
    );
    assert_eq!(get_register_name(Some(id("b2"))), Err(invalid("Exptected keyword: Register Name")));
    assert_eq!(get_variable_type(Some(kw(Keyword::Uint16))), Ok(Type::Uint16));
    assert_eq!(get_variable_type(None), Err(invalid("Missing token: Variable Type")));
    assert_eq!(
        get_variable_type(Some(kw(Keyword::Add))),
        Err(invalid("Exptected keyword: Variable Type"))
    );
    assert_eq!(get_variable_type(Some(number(1))), Err(invalid("Exptected keyword: Variable Type")));
    assert_eq!(get_ident_name(Some(id("x"))), Ok("x".to_string()));
    assert_eq!(get_ident_name(None), Err(invalid("Missing token: Identifier")));
    assert_eq!(
        get_ident_name(Some(kw(Keyword::Add))),
        Err(invalid("Exptected identifier: Variable Name"))
    );
    assert_eq!(get_label_name(Some(id("top"))), Ok("top".to_string()));
    assert_eq!(get_label_name(None), Err(invalid("Missing token: Label Name")));
    assert_eq!(
        get_label_name(Some(Token::Symbol(Symbol::Colon))),
        Err(invalid("Exptected identifier: Label Name"))
    );
    assert_eq!(get_value(Some(id("x"))), Ok(Value::LValue("x".to_string())));
    assert_eq!(get_value(Some(number(4))), Ok(Value::RValue(Literal::Integer(4))));
    assert_eq!(get_value(None), Err(invalid("Missing token: Value")));
    assert_eq!(get_value(Some(kw(Keyword::Add))), Err(invalid("Expected token: Value")));
    assert_eq!(Value::try_from(Token::Symbol(Symbol::Dot)), Err(()));
}

#[test]
fn every_mnemonic_decodes_to_its_instruction() {
    let binary = [
        (Keyword::Add, BinOperator::Add),
        (Keyword::Subtract, BinOperator::Subtract),
        (Keyword::Multiply, BinOperator::Multiply),
        (Keyword::Divide, BinOperator::Divide),
        (Keyword::Modulus, BinOperator::Modulus),
        (Keyword::And, BinOperator::And),
        (Keyword::Or, BinOperator::Or),
        (Keyword::Xor, BinOperator::Xor),
        (Keyword::Equals, BinOperator::Equals),
        (Keyword::NotEquals, BinOperator::NotEquals),
        (Keyword::LessThan, BinOperator::LessThan),
        (Keyword::LessThanEqualTo, BinOperator::LessThanEqualTo),
        (Keyword::GreaterThan, BinOperator::GreaterThan),
        (Keyword::GreaterThanEqualTo, BinOperator::GreaterThanEqualTo),
        (Keyword::LeftShift, BinOperator::LeftShift),
        (Keyword::RightShift, BinOperator::RightShift),
    ];
    for (keyword, op) in binary {
        let tokens = vec![
            kw(keyword),
            kw(Keyword::RegisterA0),
            kw(Keyword::RegisterB1),
            kw(Keyword::RegisterI2),
        ];
        let (instructions, labels) = parse(tokens).unwrap();
        assert_eq!(
            instructions,
            vec![Instruction::BinaryOp(op, RegisterName::A0, RegisterName::B1, RegisterName::I2)]
        );
        assert_eq!(labels, LabelTable::new());
    }
    let unary = [
        (Keyword::Not, UnOperator::Not),
        (Keyword::Increment, UnOperator::Increment),
        (Keyword::Decrement, UnOperator::Decrement),
    ];
    for (keyword, op) in unary {
        let tokens = vec![kw(keyword), kw(Keyword::RegisterC0), kw(Keyword::RegisterC3)];
        assert_eq!(
            parse(tokens).unwrap().0,
            vec![Instruction::UnaryOp(op, RegisterName::C0, RegisterName::C3)]
        );
    }
    let tokens = vec![
        kw(Keyword::Push),
        kw(Keyword::Int8),
        id("x"),
        Token::Symbol(Symbol::Semicolon),
        kw(Keyword::SetVar),
        id("x"),
        number(1),
        kw(Keyword::SetVar),
        id("x"),
        id("y"),
        kw(Keyword::Load),
        id("x"),
        kw(Keyword::RegisterA0),
        kw(Keyword::Load),
        number(9),
        kw(Keyword::RegisterD1),
        kw(Keyword::Unload),
        kw(Keyword::RegisterA0),
        id("x"),
        kw(Keyword::Jump),
        id("end"),
        kw(Keyword::JumpIf),
        id("end"),
        kw(Keyword::RegisterI0),
    ];
    assert_eq!(
        parse(tokens).unwrap().0,
        vec![
            Instruction::Push(Type::Int8, "x".to_string()),
            Instruction::SetVar("x".to_string(), Value::RValue(Literal::Integer(1))),
            Instruction::SetVar("x".to_string(), Value::LValue("y".to_string())),
            Instruction::Load(Value::LValue("x".to_string()), RegisterName::A0),
            Instruction::Load(Value::RValue(Literal::Integer(9)), RegisterName::D1),
            Instruction::Unload(RegisterName::A0, "x".to_string()),
            Instruction::Jump("end".to_string()),
            Instruction::JumpIf("end".to_string(), RegisterName::I0),
        ]
    );
}

#[test]
fn a_label_stands_for_the_instruction_before_it() {
    let inc = || vec![kw(Keyword::Increment), kw(Keyword::RegisterA0), kw(Keyword::RegisterA0)];
    let mut tokens = vec![id("first"), Token::Symbol(Symbol::Colon)];
    tokens.extend(inc());
    tokens.extend(vec![id("second"), Token::Symbol(Symbol::Colon)]);
    tokens.extend(inc());
    tokens.extend(vec![id("third"), Token::Symbol(Symbol::Colon)]);
    tokens.extend(inc());
    tokens.extend(vec![id("last"), Token::Symbol(Symbol::Colon)]);
    let (instructions, labels) = parse(tokens).unwrap();
    assert_eq!(instructions.len(), 3);
    assert_eq!(labels.get("first"), Some(0));
    assert_eq!(labels.get("second"), Some(0));
    assert_eq!(labels.get("third"), Some(1));
    assert_eq!(labels.get("last"), Some(2));
    assert_eq!(labels.get("other"), None);
    assert!(labels.contains("third"));
    assert!(!labels.contains("fourth"));
}

#[test]
fn a_label_behind_two_instructions_has_index_one() {
    let tokens = vec![
        kw(Keyword::Increment),
        kw(Keyword::RegisterA0),
        kw(Keyword::RegisterA0),
        kw(Keyword::Increment),
        kw(Keyword::RegisterA1),
        kw(Keyword::RegisterA1),
        id("L"),
        Token::Symbol(Symbol::Colon),
        kw(Keyword::Jump),
        id("L"),
    ];
    let (instructions, labels) = parse(tokens).unwrap();
    assert_eq!(instructions.len(), 3);
    assert_eq!(instructions[2], Instruction::Jump("L".to_string()));
    assert_eq!(labels.get("L"), Some(1));
}

#[test]
fn a_label_declared_twice_keeps_the_later_index() {
    let tokens = vec![
        id("L"),
        Token::Symbol(Symbol::Colon),
        kw(Keyword::Not),
        kw(Keyword::RegisterA0),
        kw(Keyword::RegisterA0),
        kw(Keyword::Not),
        kw(Keyword::RegisterA0),
        kw(Keyword::RegisterA0),
        id("L"),
        Token::Symbol(Symbol::Colon),
    ];
    let (_, labels) = parse(tokens).unwrap();
    assert_eq!(labels.get("L"), Some(1));
    let mut table = LabelTable::new();
    table.insert("a".to_string(), 3);
    table.insert("b".to_string(), 4);
    table.insert("a".to_string(), 5);
    assert_eq!(table.get("a"), Some(5));
    assert_eq!(table.get("b"), Some(4));
    assert_eq!(table.get(""), None);
}

#[test]
fn tokens_that_begin_nothing_are_passed_over() {
    let tokens = vec![
        Token::Symbol(Symbol::Semicolon),
        number(5),
        Token::Symbol(Symbol::Colon),
        Token::Literal(Literal::Boolean(true)),
    ];
    let (instructions, labels) = parse(tokens).unwrap();
    assert!(instructions.is_empty());
    assert_eq!(labels, LabelTable::new());
    assert_eq!(parse(Vec::new()).unwrap().0, Vec::<Instruction>::new());
}

#[test]
fn a_missing_or_wrong_operand_is_an_invalid_argument() {
    assert_eq!(parse(vec![kw(Keyword::Add)]), Err(invalid("Missing token: RegisterName")));
    assert_eq!(
        parse(vec![kw(Keyword::Add), kw(Keyword::RegisterA0), kw(Keyword::RegisterA1)]),
        Err(invalid("Missing token: RegisterName"))
    );
    assert_eq!(
        parse(vec![kw(Keyword::Add), kw(Keyword::RegisterA0), id("x"), kw(Keyword::RegisterA1)]),
        Err(invalid("Exptected keyword: Register Name"))
    );
    assert_eq!(
        parse(vec![kw(Keyword::Not), kw(Keyword::RegisterA0), number(3)]),
        Err(invalid("Exptected keyword: Register Name"))
    );
    assert_eq!(parse(vec![kw(Keyword::Push)]), Err(invalid("Missing token: Variable Type")));
    assert_eq!(
        parse(vec![kw(Keyword::Push), id("x")]),
        Err(invalid("Exptected keyword: Variable Type"))
    );
    assert_eq!(
        parse(vec![kw(Keyword::Push), kw(Keyword::Int8)]),
        Err(invalid("Missing token: Identifier"))
    );
    assert_eq!(
        parse(vec![kw(Keyword::Push), kw(Keyword::Int8), number(1)]),
        Err(invalid("Exptected identifier: Variable Name"))
    );
    assert_eq!(parse(vec![kw(Keyword::SetVar), id("x")]), Err(invalid("Missing token: Value")));
    assert_eq!(
        parse(vec![kw(Keyword::SetVar), id("x"), Token::Symbol(Symbol::Semicolon)]),
        Err(invalid("Expected token: Value"))
    );
    assert_eq!(parse(vec![kw(Keyword::Load)]), Err(invalid("Missing token: Value")));
    assert_eq!(
        parse(vec![kw(Keyword::Load), number(1)]),
        Err(invalid("Missing token: RegisterName"))
    );
    assert_eq!(
        parse(vec![kw(Keyword::Unload), kw(Keyword::RegisterA0)]),
        Err(invalid("Missing token: Identifier"))
    );
    assert_eq!(parse(vec![kw(Keyword::Jump)]), Err(invalid("Missing token: Label Name")));
    assert_eq!(
        parse(vec![kw(Keyword::Jump), number(1)]),
        Err(invalid("Exptected identifier: Label Name"))
    );
    assert_eq!(
        parse(vec![kw(Keyword::JumpIf), id("L")]),
        Err(invalid("Missing token: RegisterName"))
    );
}

#[test]
fn a_label_must_be_followed_by_a_colon() {
    assert_eq!(parse(vec![id("L")]), Err(invalid("Labels must be followed by a ':'")));
    assert_eq!(
        parse(vec![id("L"), Token::Symbol(Symbol::Semicolon)]),
        Err(invalid("Labels must be followed by a ':'"))
    );
    assert_eq!(
        parse(vec![id("L"), kw(Keyword::Add)]),
        Err(invalid("Labels must be followed by a ':'"))
    );
}

#[test]
fn reserved_mnemonics_are_unsupported() {
    assert_eq!(
        parse(vec![kw(Keyword::Move), kw(Keyword::RegisterA0), kw(Keyword::RegisterA1)]),
        Err(JAPLError::Unsupported("move".to_string()))
    );
    assert_eq!(
        parse(vec![kw(Keyword::Call), id("f")]),
        Err(JAPLError::Unsupported("call".to_string()))
    );
    assert_eq!(
        parse(vec![kw(Keyword::CallIf), id("f"), kw(Keyword::RegisterI0)]),
        Err(JAPLError::Unsupported("callif".to_string()))
    );
}

#[test]
fn a_keyword_that_is_no_mnemonic_begins_nothing() {
    for keyword in [
        Keyword::Int8,
        Keyword::RegisterA0,
        Keyword::RegClassA,
        Keyword::Struct,
        Keyword::Function,
        Keyword::End,
        Keyword::Boolean,
    ] {
        assert_eq!(parse(vec![kw(keyword)]), Err(invalid("Expected keyword: Mnemonic")));
    }
}
