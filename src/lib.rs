pub mod sbox;
pub mod math;
pub mod aes_matrix;
pub mod key_manager;
pub mod cipher;
