pub mod arithmetic;
pub mod branch;
pub mod compare;
pub mod flag;
pub mod inc_dec;
pub mod jump;
pub mod load_store;
pub mod logical;
pub mod shift;
pub mod stack;
pub mod system;
pub mod transfer;
