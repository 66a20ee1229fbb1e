pub mod proxy;
