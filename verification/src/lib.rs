//! Business rules of a traceability platform for artisan food producers.

pub mod auth;
pub mod batch;
pub mod boxes;
pub mod catalog;
pub mod config;
pub mod dates;
pub mod html;
pub mod ids;
pub mod lookup;
pub mod network;
pub mod page;
pub mod producer;
pub mod product;
pub mod quality;
pub mod qr;
pub mod recipes;
pub mod records;
pub mod reference_data;
pub mod responses;
pub mod roles;
pub mod text;
