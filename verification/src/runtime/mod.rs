pub mod alu;
pub mod float;
pub mod instruction;
pub mod labels;
pub mod laws;
pub mod machine;
pub mod memory;
pub mod operation;
pub mod register;
pub mod types;
pub mod value;

pub use float::{FloatOperator, FloatRequest};
pub use instruction::Instruction;
pub use labels::LabelTable;
pub use machine::{execute, run, Control, Machine, RunError, Status, STACK_SIZE};
pub use memory::{find_var_idx, load_reg, push_var, set_var, unload_reg, Variable};
pub use operation::{BinOperator, UnOperator};
pub use register::{Outcome, Register, RegisterClass, RegisterName};
pub use types::Type;
pub use value::Value;
