//! The fuzzy-search subsystem: entity models, the entity repository, and
//! the ranking of match results. The scoring primitive itself is an outside
//! capability (needle + haystack to score); everything around it is
//! verified.

pub mod entity_model;
pub mod entity_repository;
pub mod item_types;
pub mod listener;
pub mod matcher_helpers;
