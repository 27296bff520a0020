//! Well-known property values.

use vstd::prelude::*;

verus! {

// models
pub const BY_MODEL_PROPERTY: &'static str = "https://data.iotics.com/app#ByModel";

// interactions
pub const BY_INTERACTION_ENGINE_PROPERTY: &'static str = "https://data.iotics.com/app#ByInteractionEngine";
pub const BY_INTERACTION_PROPERTY: &'static str = "https://data.iotics.com/app#ByInteraction";
pub const INTERACTION_PROPERTY: &'static str = "https://data.iotics.com/app#Interaction";

// allow list
pub const ALL_HOST_PROPERTY: &'static str = "http://data.iotics.com/public#allHosts";

} // verus!
