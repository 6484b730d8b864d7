//! Where conversations are kept between messages.

pub mod redis;
