use japl::bytes::{from_bytes, to_bytes, ByteOrder};
use japl::error::RuntimeError;
use japl::lexer::{FloatBits, Literal};
use japl::runtime::{
    find_var_idx, load_reg, push_var, set_var, unload_reg, Register, RegisterName, Type, Value,
    Variable,
};

const ORDERS: [ByteOrder; 2] = [ByteOrder::Little, ByteOrder::Big];

fn declare(declarations: &[(Type, &str)]) -> Vec<Variable> {
    let mut variables = Vec::new();
    for (var_type, name) in declarations {
        push_var(*var_type, name.to_string(), &mut variables).unwrap();
    }
    variables
}

fn float(x: f64) -> Literal {
    Literal::Float(FloatBits { double: x.to_bits(), single: (x as f32).to_bits() })
}

#[test]
fn numbers_are_written_in_both_orders() {
    let value = 0x0102_0304_0506_0708u64;
    assert_eq!(to_bytes(value, 8, ByteOrder::Little), value.to_le_bytes().to_vec());
    assert_eq!(to_bytes(value, 8, ByteOrder::Big), value.to_be_bytes().to_vec());
    assert_eq!(to_bytes(value, 4, ByteOrder::Little), vec![8, 7, 6, 5]);
    assert_eq!(to_bytes(value, 4, ByteOrder::Big), vec![5, 6, 7, 8]);
    assert_eq!(to_bytes(value, 2, ByteOrder::Little), vec![8, 7]);
    assert_eq!(to_bytes(value, 2, ByteOrder::Big), vec![7, 8]);
    assert_eq!(to_bytes(value, 1, ByteOrder::Little), vec![8]);
    assert_eq!(to_bytes(value, 1, ByteOrder::Big), vec![8]);
    assert_eq!(to_bytes(value, 0, ByteOrder::Big), Vec::<u8>::new());
    assert_eq!(to_bytes(0x0102, 10, ByteOrder::Little), vec![2, 1, 0, 0, 0, 0, 0, 0, 0, 0]);
    assert_eq!(to_bytes(0x0102, 10, ByteOrder::Big), vec![0, 0, 0, 0, 0, 0, 0, 0, 1, 2]);
}

#[test]
fn numbers_are_read_in_both_orders() {
    let bytes = [1u8, 2, 3, 4, 5, 6, 7, 8];
    assert_eq!(from_bytes(&bytes, ByteOrder::Little), u64::from_le_bytes(bytes));
    assert_eq!(from_bytes(&bytes, ByteOrder::Big), u64::from_be_bytes(bytes));
    assert_eq!(from_bytes(&bytes[..4], ByteOrder::Little), 0x0403_0201);
    assert_eq!(from_bytes(&bytes[..4], ByteOrder::Big), 0x0102_0304);
    assert_eq!(from_bytes(&bytes[..2], ByteOrder::Little), 0x0201);
    assert_eq!(from_bytes(&bytes[..2], ByteOrder::Big), 0x0102);
    assert_eq!(from_bytes(&bytes[..1], ByteOrder::Big), 1);
    assert_eq!(from_bytes(&[], ByteOrder::Little), 0);
}

#[test]
fn the_native_order_is_the_order_of_the_machine() {
    let order = ByteOrder::native();
    assert_eq!(to_bytes(0x0102, 2, order), 0x0102u16.to_ne_bytes().to_vec());
    assert_eq!(to_bytes(0x0102_0304, 4, order), 0x0102_0304u32.to_ne_bytes().to_vec());
    assert_eq!(
        Literal::Integer(0x0102_0304_0506_0708).as_bytes(8, order),
        0x0102_0304_0506_0708u64.to_ne_bytes().to_vec()
    );
    assert_eq!(from_bytes(&[1, 2, 3, 4], order), u32::from_ne_bytes([1, 2, 3, 4]) as u64);
}

#[test]
fn two_bytes_that_hold_one_show_the_order() {
    assert_eq!(ByteOrder::shown_by(&[1, 0]), ByteOrder::Little);
    assert_eq!(ByteOrder::shown_by(&[0, 1]), ByteOrder::Big);
    assert_eq!(ByteOrder::shown_by(&1u16.to_le_bytes()), ByteOrder::Little);
    assert_eq!(ByteOrder::shown_by(&1u16.to_be_bytes()), ByteOrder::Big);
    assert_eq!(ByteOrder::shown_by(&1u16.to_ne_bytes()), ByteOrder::native());
}

#[test]
fn integers_and_truth_values_come_back_as_they_went() {
    for order in ORDERS {
        for value in [0u64, 1, 0x7f, 0xff, 0x1234, 0xffff, 0xdead_beef, u64::MAX, 1 << 63] {
            for size in [1usize, 2, 4, 8] {
                let bytes = Literal::Integer(value).as_bytes(size, order);
                assert_eq!(bytes.len(), size);
                let back = from_bytes(&bytes, order);
                let limit = if size == 8 { u64::MAX } else { (1u64 << (8 * size)) - 1 };
                assert_eq!(back, value & limit);
                if value <= limit {
                    assert_eq!(back, value);
                }
            }
        }
        assert_eq!(from_bytes(&Literal::Boolean(true).as_bytes(1, order), order), 1);
        assert_eq!(from_bytes(&Literal::Boolean(false).as_bytes(1, order), order), 0);
    }
}

#[test]
fn numbers_come_back_in_the_precision_of_the_place() {
    for order in ORDERS {
        for x in [0.0f64, 1.0, -2.5, 0.1, 1.0e300, f64::INFINITY, 3.141592653589793] {
            let wide = from_bytes(&float(x).as_bytes(8, order), order);
            assert_eq!(f64::from_bits(wide), x);
            let narrow = from_bytes(&float(x).as_bytes(4, order), order);
            assert_eq!(f32::from_bits(narrow as u32), x as f32);
        }
    }
    assert_eq!(float(0.1).as_bytes(4, ByteOrder::native()), 0.1f32.to_ne_bytes().to_vec());
    assert_eq!(float(0.1).as_bytes(8, ByteOrder::native()), 0.1f64.to_ne_bytes().to_vec());
}

#[test]
fn literals_are_encoded_by_the_rules() {
    let order = ByteOrder::Little;
    assert_eq!(Literal::Boolean(true).as_bytes(1, order), vec![1]);
    assert_eq!(Literal::Boolean(false).as_bytes(1, order), vec![0]);
    assert_eq!(Literal::Boolean(true).as_bytes(4, order), vec![1]);
    assert_eq!(Literal::Integer(0x1_0203).as_bytes(1, order), vec![3]);
    assert_eq!(Literal::Integer(0x1_0203).as_bytes(2, order), vec![3, 2]);
    assert_eq!(Literal::Integer(0x1_0203).as_bytes(4, order), vec![3, 2, 1, 0]);
    assert_eq!(Literal::Integer(0x1_0203).as_bytes(8, order), vec![3, 2, 1, 0, 0, 0, 0, 0]);
    assert_eq!(Literal::Integer(0x1_0203).as_bytes(3, order), vec![3, 2, 1, 0, 0, 0, 0, 0]);
    assert_eq!(Literal::Integer(u64::MAX).as_bytes(1, order), vec![0xff]);
    assert_eq!(float(1.0).as_bytes(4, order), vec![0, 0, 0x80, 0x3f]);
    assert_eq!(float(1.0).as_bytes(8, order), vec![0, 0, 0, 0, 0, 0, 0xf0, 0x3f]);
    assert_eq!(float(1.0).as_bytes(1, order), vec![0, 0, 0, 0, 0, 0, 0xf0, 0x3f]);
    assert_eq!(float(1.0).as_bytes(4, ByteOrder::Big), vec![0x3f, 0x80, 0, 0]);
}

#[test]
fn declarations_are_laid_out_one_after_the_other() {
    let variables = declare(&[
        (Type::Int8, "a"),
        (Type::Int16, "b"),
        (Type::Int32, "c"),
        (Type::Int64, "d"),
        (Type::Boolean, "e"),
        (Type::Character, "f"),
        (Type::Float64, "g"),
    ]);
    let offsets: Vec<usize> = variables.iter().map(|v| v.offset).collect();
    assert_eq!(offsets, vec![0, 1, 3, 7, 15, 16, 20]);
    for k in 1..variables.len() {
        assert_eq!(variables[k].offset, variables[k - 1].offset + variables[k - 1].var_type.size());
    }
    assert_eq!(variables[2].name, "c".to_string());
    assert_eq!(variables[2].var_type, Type::Int32);
    assert_eq!(find_var_idx("a", &variables), Ok((0, 1)));
    assert_eq!(find_var_idx("c", &variables), Ok((3, 7)));
    assert_eq!(find_var_idx("g", &variables), Ok((20, 28)));
    assert_eq!(find_var_idx("h", &variables), Err(RuntimeError::VariableNotFound));
    assert_eq!(find_var_idx("", &variables), Err(RuntimeError::VariableNotFound));
}

#[test]
fn the_first_declaration_of_a_name_is_found() {
    let variables = declare(&[(Type::Int8, "x"), (Type::Int32, "x")]);
    assert_eq!(find_var_idx("x", &variables), Ok((0, 1)));
}

#[test]
fn a_declaration_beyond_every_offset_overflows() {
    let mut variables = vec![Variable {
        name: "far".to_string(),
        var_type: Type::Int64,
        offset: usize::MAX - 3,
    }];
    let before = variables.clone();
    assert_eq!(
        push_var(Type::Int8, "next".to_string(), &mut variables),
        Err(RuntimeError::StackOverflow)
    );
    assert_eq!(variables, before);
    assert_eq!(find_var_idx("far", &variables), Err(RuntimeError::StackOverflow));
}

#[test]
fn a_literal_must_fill_the_variable() {
    let variables = declare(&[(Type::Int8, "a"), (Type::Int32, "c"), (Type::Float64, "g")]);
    let order = ByteOrder::Little;
    let mut stack = [0xeeu8; 16];
    assert_eq!(set_var("c", &Value::RValue(Literal::Integer(0x0102_0304)), &variables, &mut stack, order), Ok(()));
    assert_eq!(stack[..6], [0xee, 4, 3, 2, 1, 0xee]);
    assert_eq!(set_var("a", &Value::RValue(Literal::Integer(0x1ff)), &variables, &mut stack, order), Ok(()));
    assert_eq!(stack[..2], [0xff, 4]);
    assert_eq!(set_var("a", &Value::RValue(Literal::Boolean(true)), &variables, &mut stack, order), Ok(()));
    assert_eq!(stack[0], 1);
    assert_eq!(set_var("g", &Value::RValue(float(1.0)), &variables, &mut stack, order), Ok(()));
    assert_eq!(stack[5..13], 1.0f64.to_le_bytes());
    assert_eq!(set_var("c", &Value::RValue(float(1.0)), &variables, &mut stack, order), Ok(()));
    assert_eq!(stack[1..5], 1.0f32.to_le_bytes());
    let before = stack;
    assert_eq!(
        set_var("c", &Value::RValue(Literal::Boolean(true)), &variables, &mut stack, order),
        Err(RuntimeError::SizeMismatch)
    );
    assert_eq!(
        set_var("a", &Value::RValue(float(1.0)), &variables, &mut stack, order),
        Err(RuntimeError::SizeMismatch)
    );
    assert_eq!(
        set_var("z", &Value::RValue(Literal::Integer(1)), &variables, &mut stack, order),
        Err(RuntimeError::VariableNotFound)
    );
    assert_eq!(stack, before);
}

#[test]
fn a_variable_is_copied_up_to_the_shorter_length() {
    let variables = declare(&[(Type::Int32, "wide"), (Type::Int16, "narrow"), (Type::Int32, "other")]);
    let order = ByteOrder::Little;
    let mut stack = [0u8; 16];
    stack[..10].copy_from_slice(&[1, 2, 3, 4, 5, 6, 7, 8, 9, 10]);
    assert_eq!(set_var("narrow", &Value::LValue("wide".to_string()), &variables, &mut stack, order), Ok(()));
    assert_eq!(stack[..10], [1, 2, 3, 4, 1, 2, 7, 8, 9, 10]);
    assert_eq!(set_var("other", &Value::LValue("narrow".to_string()), &variables, &mut stack, order), Ok(()));
    assert_eq!(stack[..10], [1, 2, 3, 4, 1, 2, 1, 2, 9, 10]);
    assert_eq!(set_var("wide", &Value::LValue("other".to_string()), &variables, &mut stack, order), Ok(()));
    assert_eq!(stack[..10], [1, 2, 9, 10, 1, 2, 1, 2, 9, 10]);
    assert_eq!(set_var("wide", &Value::LValue("wide".to_string()), &variables, &mut stack, order), Ok(()));
    assert_eq!(stack[..10], [1, 2, 9, 10, 1, 2, 1, 2, 9, 10]);
    let before = stack;
    assert_eq!(
        set_var("wide", &Value::LValue("gone".to_string()), &variables, &mut stack, order),
        Err(RuntimeError::VariableNotFound)
    );
    assert_eq!(
        set_var("gone", &Value::LValue("wide".to_string()), &variables, &mut stack, order),
        Err(RuntimeError::VariableNotFound)
    );
    assert_eq!(stack, before);
}

#[test]
fn bytes_outside_the_area_overflow() {
    let variables = declare(&[(Type::Int64, "p"), (Type::Int32, "q"), (Type::Int64, "r"), (Type::Int16, "s")]);
    let order = ByteOrder::Little;
    let mut stack = [7u8; 16];
    let before = stack;
    assert_eq!(
        set_var("r", &Value::RValue(Literal::Integer(1)), &variables, &mut stack, order),
        Err(RuntimeError::StackOverflow)
    );
    assert_eq!(
        set_var("s", &Value::RValue(Literal::Integer(1)), &variables, &mut stack, order),
        Err(RuntimeError::StackOverflow)
    );
    assert_eq!(
        set_var("r", &Value::LValue("p".to_string()), &variables, &mut stack, order),
        Err(RuntimeError::StackOverflow)
    );
    assert_eq!(
        set_var("p", &Value::LValue("r".to_string()), &variables, &mut stack, order),
        Err(RuntimeError::StackOverflow)
    );
    assert_eq!(stack, before);
    stack[12..16].copy_from_slice(&[1, 2, 3, 4]);
    assert_eq!(set_var("r", &Value::LValue("q".to_string()), &variables, &mut stack, order), Ok(()));
    assert_eq!(stack[8..16], [7, 7, 7, 7, 7, 7, 7, 7]);
    let mut register = Register::new();
    assert_eq!(
        load_reg(&Value::LValue("r".to_string()), &RegisterName::D0, &variables, &stack, &mut register, order),
        Err(RuntimeError::StackOverflow)
    );
    assert_eq!(
        unload_reg(&RegisterName::D0, "r", &variables, &mut stack, &mut register, order),
        Err(RuntimeError::StackOverflow)
    );
    assert_eq!(load_reg(&Value::LValue("q".to_string()), &RegisterName::C0, &variables, &stack, &mut register, order), Ok(()));
    assert_eq!(register.c[0], 0x0707_0707);
}

#[test]
fn a_load_takes_the_width_of_the_register() {
    let variables = declare(&[(Type::Int32, "w"), (Type::Int8, "n"), (Type::Uint64, "d")]);
    let mut stack = [0u8; 16];
    stack[..13].copy_from_slice(&[0x11, 0x22, 0x33, 0x44, 0x55, 1, 2, 3, 4, 5, 6, 7, 8]);
    let mut register = Register::new();
    let little = ByteOrder::Little;
    let load = |register: &mut Register, value: Value, reg: RegisterName, order: ByteOrder| {
        load_reg(&value, &reg, &variables, &stack, register, order)
    };
    assert_eq!(load(&mut register, Value::LValue("w".to_string()), RegisterName::C1, little), Ok(()));
    assert_eq!(register.c, [0, 0x4433_2211, 0, 0]);
    assert_eq!(load(&mut register, Value::LValue("w".to_string()), RegisterName::C2, ByteOrder::Big), Ok(()));
    assert_eq!(register.c, [0, 0x4433_2211, 0x1122_3344, 0]);
    assert_eq!(load(&mut register, Value::LValue("w".to_string()), RegisterName::F0, little), Ok(()));
    assert_eq!(register.f[0], 0x4433_2211);
    assert_eq!(load(&mut register, Value::LValue("w".to_string()), RegisterName::B3, little), Ok(()));
    assert_eq!(register.b, [0, 0, 0, 0x2211]);
    assert_eq!(load(&mut register, Value::LValue("w".to_string()), RegisterName::A2, little), Ok(()));
    assert_eq!(register.a, [0, 0, 0x11, 0]);
    assert_eq!(load(&mut register, Value::LValue("d".to_string()), RegisterName::D3, little), Ok(()));
    assert_eq!(register.d, [0, 0, 0, 0x0807_0605_0403_0201]);
    assert_eq!(load(&mut register, Value::LValue("d".to_string()), RegisterName::G1, little), Ok(()));
    assert_eq!(register.g, [0, 0x0807_0605_0403_0201, 0, 0]);
    assert_eq!(load(&mut register, Value::LValue("n".to_string()), RegisterName::I3, little), Ok(()));
    assert_eq!(register.i, [false, false, false, true]);
    assert_eq!(load(&mut register, Value::LValue("n".to_string()), RegisterName::I2, little), Ok(()));
    assert_eq!(register.i, [false, false, true, true]);
    let before = register;
    assert_eq!(
        load(&mut register, Value::LValue("n".to_string()), RegisterName::B0, little),
        Err(RuntimeError::SizeMismatch)
    );
    assert_eq!(
        load(&mut register, Value::LValue("w".to_string()), RegisterName::D0, little),
        Err(RuntimeError::SizeMismatch)
    );
    assert_eq!(
        load(&mut register, Value::LValue("missing".to_string()), RegisterName::A0, little),
        Err(RuntimeError::VariableNotFound)
    );
    assert_eq!(
        load(&mut register, Value::RValue(Literal::Boolean(true)), RegisterName::C0, little),
        Err(RuntimeError::SizeMismatch)
    );
    assert_eq!(register.b, before.b);
    assert_eq!(register.c, before.c);
    assert_eq!(register.d, before.d);
    assert_eq!(register.a, before.a);
}

#[test]
fn a_load_of_a_literal_encodes_it_for_the_register() {
    let variables: Vec<Variable> = Vec::new();
    let stack = [0u8; 16];
    for order in ORDERS {
        let mut register = Register::new();
        let mut load = |value: Literal, reg: RegisterName| {
            load_reg(&Value::RValue(value), &reg, &variables, &stack, &mut register, order).unwrap();
            register.read(reg)
        };
        assert_eq!(load(Literal::Integer(0x1_0203), RegisterName::A0), 3);
        assert_eq!(load(Literal::Integer(0x1_0203), RegisterName::B0), 0x0203);
        assert_eq!(load(Literal::Integer(0x1_0203), RegisterName::C0), 0x1_0203);
        assert_eq!(load(Literal::Integer(u64::MAX), RegisterName::D0), u64::MAX);
        assert_eq!(load(Literal::Integer(u64::MAX), RegisterName::B1), 0xffff);
        assert_eq!(load(Literal::Integer(256), RegisterName::I0), 0);
        assert_eq!(load(Literal::Integer(5), RegisterName::I0), 1);
        assert_eq!(load(Literal::Boolean(true), RegisterName::I1), 1);
        assert_eq!(load(Literal::Boolean(true), RegisterName::A1), 1);
        assert_eq!(load(float(2.5), RegisterName::F0), 2.5f32.to_bits() as u64);
        assert_eq!(load(float(2.5), RegisterName::G0), 2.5f64.to_bits());
        assert_eq!(load(float(2.5), RegisterName::C1), 2.5f32.to_bits() as u64);
        assert_eq!(load(float(2.5), RegisterName::D1), 2.5f64.to_bits());
    }
}

#[test]
fn an_unload_needs_a_variable_of_the_width_of_the_register() {
    let variables = declare(&[(Type::Int32, "four"), (Type::Int64, "eight"), (Type::Int8, "one")]);
    let order = ByteOrder::Little;
    let mut stack = [0xaau8; 16];
    let mut register = Register::new();
    register.d[0] = 0x0102_0304_0506_0708;
    register.c[1] = 0x0a0b_0c0d;
    register.i[2] = true;
    let stack_before = stack;
    let register_before = register;
    assert_eq!(
        unload_reg(&RegisterName::D0, "four", &variables, &mut stack, &mut register, order),
        Err(RuntimeError::SizeMismatch)
    );
    assert_eq!(stack, stack_before);
    assert_eq!(register.d, register_before.d);
    assert_eq!(
        unload_reg(&RegisterName::C1, "eight", &variables, &mut stack, &mut register, order),
        Err(RuntimeError::SizeMismatch)
    );
    assert_eq!(
        unload_reg(&RegisterName::C1, "nowhere", &variables, &mut stack, &mut register, order),
        Err(RuntimeError::VariableNotFound)
    );
    assert_eq!(stack, stack_before);
    assert_eq!(unload_reg(&RegisterName::C1, "four", &variables, &mut stack, &mut register, order), Ok(()));
    assert_eq!(stack[..5], [0x0d, 0x0c, 0x0b, 0x0a, 0xaa]);
    assert_eq!(register.c, [0; 4]);
    assert_eq!(unload_reg(&RegisterName::D0, "eight", &variables, &mut stack, &mut register, order), Ok(()));
    assert_eq!(stack[4..12], [8, 7, 6, 5, 4, 3, 2, 1]);
    assert_eq!(register.d, [0; 4]);
    assert_eq!(unload_reg(&RegisterName::I2, "one", &variables, &mut stack, &mut register, order), Ok(()));
    assert_eq!(stack[12], 1);
    assert_eq!(register.i, [false; 4]);
    assert_eq!(unload_reg(&RegisterName::I2, "one", &variables, &mut stack, &mut register, order), Ok(()));
    assert_eq!(stack[12], 0);
}

#[test]
fn every_lane_is_cleared_by_its_own_unload() {
    let variables = declare(&[(Type::Int8, "x")]);
    let mut stack = [0u8; 16];
    let mut register = Register::new();
    register.a = [1, 2, 3, 4];
    unload_reg(&RegisterName::A2, "x", &variables, &mut stack, &mut register, ByteOrder::Big).unwrap();
    assert_eq!(stack[0], 3);
    assert_eq!(register.a, [1, 2, 0, 4]);
    let mut fresh = Register::new();
    load_reg(&Value::RValue(Literal::Boolean(true)), &RegisterName::I3, &variables, &stack, &mut fresh, ByteOrder::Big).unwrap();
    assert_eq!(fresh.i, [false, false, false, true]);
}
