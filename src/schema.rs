pub mod assertion;
pub mod attribute_statement;
pub mod authn_request;
pub mod authn_statement;
pub mod conditions;
pub mod issuer;
pub mod name_id_policy;
pub mod response;
pub mod subject;
