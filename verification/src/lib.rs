//! The core of a small student-records service: who may ask, what a request
//! does to the stored collection, and what is answered.
//!
//! The library performs no I/O. The program around it reads the credential
//! header, reads and writes the storage file, and sends the reply; the library
//! decides, step by step, what is to be done and what the answer is.

pub mod dbpool;
pub mod error;
pub mod exchange;
pub mod payload;
pub mod security;
pub mod student;
pub mod text;
