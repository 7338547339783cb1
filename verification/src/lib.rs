//! A gateway to AI services: it admits callers, chooses the upstream that serves a
//! model, makes the requests to it and decides what follows from the replies. Beside
//! that it offers a few tools of its own.
//!
//! The library holds the rules and the computations. Reading requests, calling upstreams
//! and keeping records is left to a program around it, which asks the library for each
//! next step and brings back what came of it.
pub mod acu;
pub mod admission;
pub mod assets;
pub mod body;
pub mod catalog;
pub mod codec;
pub mod command;
pub mod config;
pub mod dice;
pub mod endpoint;
pub mod health;
pub mod ip;
pub mod json;
pub mod location;
pub mod models;
pub mod number;
pub mod outcome;
pub mod pool;
pub mod record;
pub mod refusal;
pub mod reply;
pub mod routing;
pub mod service;
pub mod subnet;
pub mod text;
pub mod text_stats;
pub mod timestamp;
pub mod upstream;
pub mod uuid;
pub mod workers_ai;
