pub mod generator;
pub mod providers;
pub mod types;
pub mod var_detector;
pub mod scorer;
pub mod mapper;
pub mod cross_ref;
pub mod resolve;
pub mod output;
