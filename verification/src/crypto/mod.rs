pub mod aes;
pub mod aes_msgpack;
pub mod assetbundle;
