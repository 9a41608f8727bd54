pub mod feishu;
pub mod sentry;
