//! The packages in their earlier form: each is a plain table of its
//! functions, under the names they had then.

pub mod base64;
pub mod crypto;
pub mod encoding;
pub mod ffi;
pub mod http;
pub mod time;
