pub mod utils;
