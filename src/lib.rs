//! Status derivation and deploy-job planning for a Kubernetes controller of
//! `Gordo` projects and their `Model`s.

pub mod labels;
pub mod config;
pub mod text;
pub mod utils;
pub mod json;
pub mod argo;
pub mod pod;
pub mod model;
pub mod gordo;
pub mod deploy_job;
pub mod jobs;
pub mod reconcile;
