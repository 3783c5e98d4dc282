//! The models of the management plane of the health-care APIs service.

pub mod operation_results_description;
pub mod resource;
pub mod services_name_availability_info;
pub mod services_properties;

use vstd::prelude::*;

verus! {

/// The properties of a service instance.
#[derive(Clone, Debug, PartialEq)]
pub struct ServicesProperties {
    pub provisioning_state: Option<services_properties::ProvisioningState>,
    pub access_policies: Option<ServiceAccessPoliciesInfo>,
    pub cosmos_db_configuration: Option<ServiceCosmosDbConfigurationInfo>,
    pub authentication_configuration: Option<ServiceAuthenticationConfigurationInfo>,
    pub cors_configuration: Option<ServiceCorsConfigurationInfo>,
}

/// The access policies of a service instance.
pub type ServiceAccessPoliciesInfo = Vec<ServiceAccessPolicyEntry>;

/// An access policy entry.
#[derive(Clone, Debug, PartialEq)]
pub struct ServiceAccessPolicyEntry {
    pub object_id: String,
}

/// The settings of the Cosmos DB database that backs the service.
#[derive(Clone, Debug, PartialEq)]
pub struct ServiceCosmosDbConfigurationInfo {
    pub offer_throughput: Option<i64>,
}

/// The authentication configuration of a service instance.
#[derive(Clone, Debug, PartialEq)]
pub struct ServiceAuthenticationConfigurationInfo {
    pub authority: Option<String>,
    pub audience: Option<String>,
    pub smart_proxy_enabled: Option<bool>,
}

/// The CORS configuration of a service instance.
#[derive(Clone, Debug, PartialEq)]
pub struct ServiceCorsConfigurationInfo {
    pub origins: Vec<ServiceCorsConfigurationOriginEntry>,
    pub headers: Vec<ServiceCorsConfigurationHeaderEntry>,
    pub methods: Vec<ServiceCorsConfigurationMethodEntry>,
    pub max_age: Option<i64>,
    pub allow_credentials: Option<bool>,
}

/// An origin that CORS allows.
#[derive(Clone, Debug, PartialEq)]
pub struct ServiceCorsConfigurationOriginEntry {}

/// A header that CORS allows.
#[derive(Clone, Debug, PartialEq)]
pub struct ServiceCorsConfigurationHeaderEntry {}

/// A method that CORS allows.
#[derive(Clone, Debug, PartialEq)]
pub struct ServiceCorsConfigurationMethodEntry {}

/// The description of a service.
#[derive(Clone, Debug, PartialEq)]
pub struct ServicesDescription {
    pub resource: Resource,
    pub properties: Option<ServicesProperties>,
}

/// What a patch of a service may change.
#[derive(Clone, Debug, PartialEq)]
pub struct ServicesPatchDescription {
    pub tags: Option<serde_json::Value>,
}

/// What every resource has in common.
#[derive(Clone, Debug, PartialEq)]
pub struct Resource {
    pub id: Option<String>,
    pub name: Option<String>,
    pub type_: Option<String>,
    pub kind: resource::Kind,
    pub location: String,
    pub tags: Option<serde_json::Value>,
    pub etag: Option<String>,
}

/// The details of an error.
#[derive(Clone, Debug, PartialEq)]
pub struct ErrorDetails {
    pub error: Option<ErrorDetailsInternal>,
}

/// The body of an error.
#[derive(Clone, Debug, PartialEq)]
pub struct ErrorDetailsInternal {
    pub code: Option<String>,
    pub message: Option<String>,
    pub target: Option<String>,
}

/// A list of service descriptions, with the link to the next page of it.
#[derive(Clone, Debug, PartialEq)]
pub struct ServicesDescriptionListResult {
    pub next_link: Option<String>,
    pub value: Vec<ServicesDescription>,
}

/// A list of operations, with the link to the next page of it.
#[derive(Clone, Debug, PartialEq)]
pub struct OperationListResult {
    pub next_link: Option<String>,
    pub value: Vec<Operation>,
}

/// An operation of the service.
#[derive(Clone, Debug, PartialEq)]
pub struct Operation {
    pub name: Option<String>,
    pub origin: Option<String>,
    pub display: Option<OperationDisplay>,
}

/// How an operation is shown.
#[derive(Clone, Debug, PartialEq)]
pub struct OperationDisplay {
    pub provider: Option<String>,
    pub resource: Option<String>,
    pub operation: Option<String>,
    pub description: Option<String>,
}

/// The input of a check whether a service name is available.
#[derive(Clone, Debug, PartialEq)]
pub struct CheckNameAvailabilityParameters {
    pub name: String,
    pub type_: String,
}

/// Whether a service name is available.
#[derive(Clone, Debug, PartialEq)]
pub struct ServicesNameAvailabilityInfo {
    pub name_available: Option<bool>,
    pub reason: Option<services_name_availability_info::Reason>,
    pub message: Option<String>,
}

/// What came of an operation.
#[derive(Clone, Debug, PartialEq)]
pub struct OperationResultsDescription {
    pub id: Option<String>,
    pub name: Option<String>,
    pub status: Option<operation_results_description::Status>,
    pub start_time: Option<String>,
    pub properties: Option<serde_json::Value>,
}

} // verus!
