//! Dashboards and charts.

pub mod chart;
pub mod column;
pub mod dashboard;
