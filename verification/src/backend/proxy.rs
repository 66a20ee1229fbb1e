pub mod ca_cert;
pub mod debug_stream;
pub mod http_proxy;
