//! Decision logic of an extensible command-line agent.
pub mod add_extension;
pub mod add_laws;
pub mod assoc;
pub mod base;
pub mod config_extensions;
pub mod configure;
pub mod configure_extensions;
pub mod configure_laws;
pub mod configure_provider;
pub mod configure_settings;
pub mod contract_laws;
pub mod dispatch;
pub mod execution_manager;
pub mod extension;
pub mod extension_laws;
pub mod extension_manager;
pub mod extension_manager_extension;
pub mod extension_resources;
pub mod fresh;
pub mod json;
pub mod machine_laws;
pub mod manage_extensions;
pub mod menu;
pub mod message;
pub mod openapi;
pub mod openapi_laws;
pub mod permission_judge;
pub mod permission_laws;
pub mod provider_laws;
pub mod provider_login;
pub mod recipe;
pub mod recipe_laws;
pub mod reply;
pub mod reply_laws;
pub mod reply_moves;
pub mod reply_turns;
pub mod router_tools;
pub mod sampling_approval;
pub mod session_builder;
pub mod session_laws;
pub mod text;
pub mod text_laws;
pub mod text_list;
pub mod text_split;
pub mod tool;
pub mod tool_laws;
pub mod tool_router_index_manager;
pub mod view_laws;
