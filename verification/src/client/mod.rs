pub mod sqlite;
pub mod ao_evaluation;
pub mod ao_process;
pub mod ao_block;
pub mod ao_module;
pub mod arweave;
