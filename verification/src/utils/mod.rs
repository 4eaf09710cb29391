pub mod bonding_curve;
pub mod revenue_share;
