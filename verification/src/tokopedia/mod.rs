//! The Tokopedia integration.

pub mod tokopedia_controller;
pub mod tokopedia_dto;
pub mod tokopedia_repository;
pub mod tokopedia_service;
