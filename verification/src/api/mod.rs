pub mod generate_schema;
