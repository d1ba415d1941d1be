pub mod description;
pub mod wan_common_interface_config;
