pub mod versions;
