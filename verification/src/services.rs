pub mod feishu;
pub mod message_builder;
pub mod router;
pub mod signature;
