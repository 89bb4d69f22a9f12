//! Conversion of AWS and Azure Terraform resources into UpCloud Terraform.
pub mod ai;
pub mod app;
pub mod graph;
pub mod migration;
pub mod terraform;
pub mod text;
pub mod text_sort;
