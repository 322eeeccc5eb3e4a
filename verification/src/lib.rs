//! A log of bicycles, purchases, rides and chain lubrications, driven from
//! the command line.
//!
//! The library turns the words of a command line into a [`command::Command`]
//! and a command into a [`query::Query`] for the store. It never touches the
//! store itself: a program around it runs the statements and hands the rows
//! back, which [`filter`] then selects by their tags and numbers anew.
//!
//! - [`text`], [`number`], [`calendar`]: texts as sequences of characters,
//!   numbers as the literals they were written as, days of the calendar.
//! - [`field`], [`date`], [`tags`]: the parts of a command.
//! - [`command`], [`parser`]: the classification of tokens.
//! - [`query`], [`statement`]: filters, their values, and statements.
//! - [`filter`], [`lookup`], [`models`]: rows of lists, and the choice of one.
//! - [`route`], [`plan`], [`editor`], [`storage`]: what the handlers of a
//!   program decide before and after they touch the store.
//! - [`error`]: why a command line is refused, and what is said of it.
//! - [`laws`]: what holds of classification and filtering as a whole.

pub mod calendar;
pub mod command;
pub mod date;
pub mod editor;
pub mod error;
pub mod field;
pub mod filter;
pub mod laws;
pub mod lookup;
pub mod models;
pub mod number;
pub mod parser;
pub mod plan;
pub mod query;
pub mod route;
pub mod statement;
pub mod storage;
pub mod tags;
pub mod text;
