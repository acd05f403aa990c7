//! Encoders and decoders of the bodies of requests and responses.

pub mod client_response_parsers;
pub mod serializers;
pub mod server_request_parsers;
