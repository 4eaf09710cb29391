pub mod keys;
