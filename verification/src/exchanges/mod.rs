pub mod huobi;
pub mod kucoin;
pub mod zbg;
