pub mod payload_serializers;
pub mod payload_types;
