pub mod mapper0;
pub mod mapper1;
