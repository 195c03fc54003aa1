pub mod shared_validation;
pub mod positive_int_schema;
pub mod truthy_schema;
pub mod model;
pub mod gql_return_types;
pub mod domain_config_schema;
pub mod server_config_schema;
