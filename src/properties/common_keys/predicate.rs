//! Well-known property keys.

use vstd::prelude::*;

verus! {

// generic
pub const RDF_TYPE_PROPERTY: &'static str = "http://www.w3.org/1999/02/22-rdf-syntax-ns#type";
pub const LABEL: &'static str = "http://www.w3.org/2000/01/rdf-schema#label";
pub const COMMENT: &'static str = "http://www.w3.org/2000/01/rdf-schema#comment";

// models
pub const CREATED_FROM_PROPERTY: &'static str = "https://data.iotics.com/app#createdFrom";
pub const MODEL_PROPERTY: &'static str = "https://data.iotics.com/app#model";

// interactions
pub const INTERACTION_CONFIG_PROPERTY: &'static str = "https://data.iotics.com/app#interactionConfig";

// allow list
pub const HOST_ALLOW_LIST_PROPERTY: &'static str = "http://data.iotics.com/public#hostAllowList";

// portal
pub const CREATED_AT_PROPERTY: &'static str = "https://data.iotics.com/app#createdAt";
pub const UPDATED_AT_PROPERTY: &'static str = "https://data.iotics.com/app#updatedAt";
pub const CREATED_BY_PROPERTY: &'static str = "https://data.iotics.com/app#createdBy";
pub const UPDATED_BY_PROPERTY: &'static str = "https://data.iotics.com/app#updatedBy";

} // verus!
