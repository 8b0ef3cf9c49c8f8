//! Credential issuance and verification: password and OAuth2 login, the
//! OTP second factor, and the base32 codec behind its provisioning URLs.

pub mod bearer;
pub mod codec;
mod digest;
pub mod error;
pub mod model;
pub mod oauth;
pub mod otp;
pub mod service;
mod text;
