//! A blogging service in the shape of the "RealWorld" API: users sign up and
//! in, follow each other, publish articles with tags, mark them as favorites
//! and comment on them.
//!
//! This crate holds the service's rules: how requests are checked, how
//! stored records become answers, how tokens and passwords are made and
//! checked. Storage and HTTP stay with the program that uses it.
pub mod app;
pub mod auth;
pub mod config;
pub mod db;
pub mod error;
pub mod hub;
pub mod jwt;
pub mod mdl;
pub mod password;
pub mod text;
