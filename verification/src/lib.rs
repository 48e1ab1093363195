//! A small blog engine's core: pagination rules, listing plans, post and
//! category decisions, HTML pagination bars, credential hashing, and the
//! request decisions of its HTTP handlers.
pub mod adapters;
pub mod application;
pub mod controller;
pub mod controllers;
pub mod domain;
pub mod parse;
pub mod response;
pub mod text;
