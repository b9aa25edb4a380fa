//! The site-independent part of the service: the product record, the
//! request and response shapes, and the extraction service.

pub mod scraper_controller;
pub mod scraper_dto;
pub mod scraper_model;
pub mod scraper_service;
