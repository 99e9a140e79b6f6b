//! Verified core of the Astro Build services: the authentication service,
//! the content builder service and the GraphQL gateway in front of them.

pub mod hex;
pub mod object_id;
pub mod text;
pub mod auth_schema;
pub mod auth_error;
pub mod auth_token;
pub mod store;
pub mod auth_mail;
pub mod auth_service;
pub mod builder_schema;
pub mod builder_content;
pub mod builder_project;
pub mod builder_error;
pub mod builder_service;
pub mod gateway_error;
pub mod gateway_service;
pub mod gateway_specification;
pub mod gateway_users;
pub mod gateway_content;
pub mod gateway_projects;
pub mod builder_form;
