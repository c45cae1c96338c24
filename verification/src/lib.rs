//! Authentication and session core of the Nivaro club platform.
//!
//! The library holds the rules of signup, login with lockout, bearer
//! tokens, anti-forgery tokens, password reset and e-mail verification, and
//! keeps their state in stores that it owns. Its executable functions carry
//! contracts that the verifier has proved; the laws that span several calls
//! are proof functions next to the operations they speak of.
//!
//! * [`service`], [`account`], [`recovery`], [`session_api`]: one operation
//!   per endpoint, over the state of all stores.
//! * [`credentials`], [`sessions`], [`csrf`], [`onetime`]: the stores.
//! * [`lockout`]: the lockout policy. [`hasher`]: password hashing.
//!   [`token`]: the bearer token codec. [`validation`]: the rules for
//!   request fields. [`routes`]: the HTTP surface.
//! * [`laws`]: what the operations guarantee over several requests.
//!   [`integrity`]: every session and token belongs to an account that
//!   exists, whatever operation ran.
//! * [`models`], [`meetings`], [`forum`]: the data model of the platform
//!   around the authentication core, with the samples that stand in for
//!   its stores.
//!
//! In the authentication core a time is a whole number of seconds since the
//! Unix epoch; meetings and questions carry their times as text.
//!
//! What is taken on trust is the behaviour of `bcrypt`, of `jsonwebtoken`
//! (which is handed its claims as a `serde_json` object), of `uuid`, of
//! `chrono` and of a handful of functions of the standard library; each
//! such function is called from one private function that says what is
//! assumed of it.

pub mod account;
pub mod clock;
pub mod credentials;
pub mod csrf;
pub mod error;
pub mod forum;
pub mod hasher;
pub mod ids;
pub mod integrity;
pub mod laws;
pub mod lockout;
pub mod meetings;
pub mod models;
pub mod onetime;
pub mod recovery;
pub mod routes;
pub mod search;
pub mod service;
pub mod session_api;
pub mod sessions;
pub mod text;
pub mod token;
pub mod validation;
