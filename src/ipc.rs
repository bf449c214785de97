/// Message envelope and its wire form.
pub mod message;

/// Message tags and their wire form.
pub mod typ;
