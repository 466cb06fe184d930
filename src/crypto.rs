pub mod ecdsa;
