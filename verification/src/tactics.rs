pub mod avg_info_max;
pub mod position_freq;
pub mod solver;
