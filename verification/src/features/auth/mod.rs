pub mod command;
pub mod dto;
pub mod service;
pub mod organizations;
