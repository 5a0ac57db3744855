pub mod assign_attack_target;
pub mod iff_pos;
pub mod intercept_task_assign;
pub mod join_request;
pub mod leave_network;
pub mod message;
pub mod net_info;
pub mod ready_attack_time;
pub mod track_id;
pub mod track_info;
pub mod track_position;
pub mod track_velocity;
