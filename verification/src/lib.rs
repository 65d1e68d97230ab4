pub mod agent;
pub mod boundary;
pub mod executor;
pub mod model_manager;
pub mod models;
pub mod prompts;
pub mod rag;
pub mod router;
pub mod safety;
pub mod selector;
pub mod stream;
pub mod text;
pub mod tool_router;
pub mod tools;
