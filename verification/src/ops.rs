//! Operators that transform, filter and combine observable streams, each as
//! the state machine its observers drive.
pub mod share;
pub mod combine_latest_all;
pub mod fork_join;
pub mod expand;
pub mod race;
pub mod race_all;
pub mod buffer_toggle;
pub mod sequence_equal;
pub mod repeat;
pub mod switch_scan;
pub mod exhaust_map;
pub mod window;
pub mod ref_count;
pub mod buffer_when;
pub mod debounce_when;
pub mod delay_when;
pub mod merge_scan;
pub mod end_with;
pub mod every;
pub mod find;
pub mod ignore_elements;
pub mod is_empty;
pub mod partition;
pub mod materialize;
pub mod single;
pub mod throw_if_empty;
pub mod catch_error;
pub mod on_error_resume_next;
pub mod timeout;
pub mod timestamp;
pub mod time_interval;
