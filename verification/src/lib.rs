//! Verified core of a Telegram assistant that answers with a generative model.
use vstd::prelude::*;

pub mod text;
pub mod gemini;
pub mod time;
pub mod models;
pub mod handler;
pub mod db;

verus! {
} // verus!
