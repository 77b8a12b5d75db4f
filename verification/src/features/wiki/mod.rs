pub mod command;
pub mod dto;
pub mod service;
