pub mod context;
pub mod conversation;
pub mod system_prompt;
pub mod agent_loop;
