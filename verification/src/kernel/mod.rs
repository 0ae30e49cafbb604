pub mod micro_activation;
pub mod micro_builtin_options;
pub mod micro_operator;
pub mod utils;
