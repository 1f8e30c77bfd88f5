//! Weather provider clients: the request each provider is asked with, the
//! schema of what it answers, and the conversion of every answer into one
//! weather record.
//!
//! A client builds a request and reads a response; sending is left to the
//! caller. Measurements are fixed-point decimals, so that every conversion
//! between units is exact integer arithmetic.

pub mod cli_parser;
pub mod config;
pub mod decimal;
pub mod handlers;
pub mod json;
pub mod models;
pub mod openweather_service;
pub mod providers;
pub mod services;
pub mod timestamp;
pub mod weatherapi_service;
