pub mod buy_keys;
pub mod create_keys;
pub mod sell_keys;
