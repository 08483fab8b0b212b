//! Client library for the statistical-data API of Norges Bank (SDMX-JSON):
//! request shaping for the government-securities endpoints, and a checked
//! decoder of the response into typed structures.
use vstd::prelude::*;

pub mod types;
pub mod request;
pub mod json;
pub mod decode;
pub mod models;
pub mod series_key;

pub use types::{InstrumentSelection, InstrumentType, TimeSelector};
pub use request::{ConfigurationError, HttpRequest, NorgesBankClientBuilder};
pub use json::Json;
pub use series_key::series_key_indices;
pub use decode::DecodeError;
pub use models::{
    ApiResponse, Attributes, Component, ComponentValue, Data, DataSet, DimensionScope, Dimensions,
    Entity, Link, Meta, Relationship, Series, Structure, decode_response, parse_response,
};

verus! {

} // verus!
