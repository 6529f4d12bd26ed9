//! State machines and text helpers behind the terminal views.
pub mod dialogs;
pub mod session_view;
pub mod session_tool;
pub mod session_render;
pub mod text_editor;
pub mod skill_editor;
pub mod skill_list;
pub mod session_text;
pub mod app_state;
pub mod id_map;
pub mod layout;
pub mod ordering;
pub mod session_layout;
pub mod session_summary;
pub mod session_context;
pub mod provider;
pub mod list_dialogs;
pub mod block_text;
pub mod skill_governance;
pub mod skill_hub_view;
pub mod session_snapshot;
pub mod provider_view;
pub mod route_view;
pub mod skill_manage_view;
pub mod skill_browse_view;
pub mod command_palette;
