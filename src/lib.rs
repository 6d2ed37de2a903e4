#![allow(non_camel_case_types)]

pub mod text;
pub mod token;
pub mod grammar;
pub mod parser;
pub mod item;
pub mod search;
pub mod location;
pub mod player;
pub mod gamestate;
pub mod controller;
pub mod builder;
