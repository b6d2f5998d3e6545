//! Statistics for a "done" log: hourly and monthly histograms of event
//! timestamps, the charts that show them and their rendering as PNG files,
//! the leaderboard and its text, and the decisions the command handler takes
//! between one request to a collaborator and the next.

pub mod buckets;
pub mod calendar;
pub mod chart;
pub mod decimal;
pub mod leaderboard;
pub mod render;
pub mod router;
