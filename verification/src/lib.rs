//! Small verified algorithms: integer factorisation with its modular
//! arithmetic and primality test, and a handful of independent utilities.

pub mod calendar;
pub mod certificates;
pub mod coins;
pub mod conjecture;
pub mod converter;
pub mod distinct;
pub mod district;
pub mod fermat;
pub mod fibonacci;
pub mod graph_parser;
pub mod intervals;
pub mod json_parser;
pub mod matrix;
pub mod modular;
pub mod number_theory;
pub mod palindrome;
pub mod prime_factor;
pub mod primality;
pub mod queue;
pub mod retirement;
pub mod rho;
pub mod soundness;
pub mod substring;
pub mod text;
