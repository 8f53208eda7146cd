use vstd::prelude::*;

pub mod app;
pub mod config;
pub mod http;
pub mod models;
pub mod pkt_line;
pub mod routes;
pub mod web;

verus! {

} // verus!
