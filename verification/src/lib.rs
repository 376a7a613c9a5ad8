pub mod context;
pub mod credentials;
pub mod echo;
pub mod microphone;
pub mod order;
pub mod passive_input;
pub mod pi;
pub mod prompts;
pub mod realtime;
pub mod remote;
pub mod text;
pub mod transcribe;
